//! Framebuffer objects.

use vstd::prelude::*;

use crate::error::Error;
use crate::sys::codes;
use crate::sys::gl::balance;
use crate::sys::gl::extends;
use crate::sys::gl::issued;
use crate::sys::gl::lemma_balance_add;
use crate::sys::gl::lemma_balance_neutral;
use crate::sys::gl::lemma_balance_push;
use crate::sys::gl::lemma_issued;
use crate::sys::gl::Gl;
use crate::sys::gl::Op;
use crate::sys::gl::OpOf;
use crate::sys::kinds::FramebufferStatus;
use crate::sys::kinds::TextureTarget;
use crate::texture::Texture;

verus! {

/// A framebuffer.
///
/// The value owns the handle of the framebuffer: it is created by
/// [`Framebuffer::with_depth_map`] and given back to the device by
/// [`Framebuffer::release`], which consumes the value.
pub struct Framebuffer<G: Gl> {
    /// The framebuffer object.
    fbo: G::Framebuffer,
}

/// The framebuffer that the first of the given operations created, if
/// any.
pub open spec fn created<G: Gl>(issued: Seq<OpOf<G>>) -> Option<G::Framebuffer> {
    if issued.len() > 0 {
        match issued[0] {
            Op::CreateFramebuffer { created: Ok(fbo) } => Some(fbo),
            _ => None,
        }
    } else {
        None
    }
}

/// The operations that set a framebuffer up with a texture as its depth
/// target and nothing else: the framebuffer is created and bound, the
/// texture attached, both color buffers are declared absent, the
/// completeness is queried and the framebuffer is unbound.
pub open spec fn setup<G: Gl>(
    fbo: G::Framebuffer,
    target: TextureTarget,
    texture: G::Texture,
    status: FramebufferStatus,
) -> Seq<OpOf<G>> {
    Seq::<OpOf<G>>::empty().push(Op::CreateFramebuffer { created: Ok(fbo) }).push(
        Op::BindFramebuffer { fbo: Some(fbo) },
    ).push(Op::FramebufferDepthTexture { target, texture }).push(Op::UnsetDrawBuffer).push(
        Op::UnsetReadBuffer,
    ).push(Op::CheckFramebufferStatus { status }).push(Op::BindFramebuffer { fbo: None })
}

impl<G: Gl> Framebuffer<G> {
    /// The handle of the framebuffer.
    pub closed spec fn view(&self) -> G::Framebuffer {
        self.fbo
    }

    /// Whether `result` and the operations issued, `issued`, are those
    /// of the construction of a framebuffer around the given depth map.
    ///
    /// The construction succeeds exactly if the device reports the
    /// framebuffer as complete while it is still bound; a framebuffer
    /// with any other status has been deleted again.
    pub open spec fn depth_map_attached(
        texture: Texture<G>,
        issued: Seq<OpOf<G>>,
        result: Result<Self, Error<G::Error>>,
    ) -> bool {
        match result {
            Ok(framebuffer) => issued == setup::<G>(
                framebuffer@,
                texture.target(),
                texture@,
                FramebufferStatus::of(codes::FRAMEBUFFER_COMPLETE),
            ),
            Err(Error::CreateFramebuffer { cause }) => issued == Seq::<OpOf<G>>::empty().push(
                Op::CreateFramebuffer { created: Err(cause) },
            ),
            Err(Error::IncompleteFramebuffer { status }) => match created::<G>(issued) {
                Some(fbo) => !status.is_complete() && issued == setup::<G>(
                    fbo,
                    texture.target(),
                    texture@,
                    status,
                ).push(Op::DeleteFramebuffer { fbo }),
                None => false,
            },
            Err(_) => false,
        }
    }

    /// Create a framebuffer using the provided texture as depth map
    /// (and nothing else).
    pub fn with_depth_map(texture: &Texture<G>, context: &mut G) -> (result: Result<
        Self,
        Error<G::Error>,
    >)
        ensures
            extends(old(context).journal(), final(context).journal()),
            Self::depth_map_attached(
                *texture,
                issued(old(context).journal(), final(context).journal()),
                result,
            ),
    {
        let ghost before = context.journal();
        let slf = match context.create_framebuffer() {
            Ok(fbo) => Framebuffer { fbo },
            Err(cause) => {
                proof {
                    let ops = Seq::<OpOf<G>>::empty().push(
                        Op::CreateFramebuffer { created: Err(cause) },
                    );
                    assert(context.journal() =~= before + ops);
                    lemma_issued(before, ops);
                }
                return Err(Error::CreateFramebuffer { cause });
            },
        };
        slf.bind(context);
        context.set_framebuffer_depth_texture(texture.target(), texture.handle());
        // Make it clear to the device that we don't intend to use this
        // framebuffer for anything related to color.
        context.unset_draw_buffer();
        context.unset_read_buffer();
        let status = context.check_framebuffer_status();
        slf.unbind(context);
        proof {
            status.lemma_of_code();
            assert(context.journal() =~= before + setup::<G>(
                slf@,
                texture.target(),
                texture@,
                status,
            ));
        }
        if status.check_complete() {
            proof {
                lemma_issued(before, setup::<G>(slf@, texture.target(), texture@, status));
            }
            Ok(slf)
        } else {
            let ghost fbo = slf@;
            slf.release(context);
            proof {
                let ops = setup::<G>(fbo, texture.target(), texture@, status).push(
                    Op::DeleteFramebuffer { fbo },
                );
                lemma_issued(before, ops);
            }
            Err(Error::IncompleteFramebuffer { status })
        }
    }

    /// Bind the framebuffer.
    pub fn bind(&self, context: &mut G)
        ensures
            final(context).journal() == old(context).journal().push(
                Op::BindFramebuffer { fbo: Some(self@) },
            ),
    {
        context.bind_framebuffer(Some(&self.fbo));
    }

    /// Unbind the framebuffer, effectively binding the default one
    /// instead.
    pub fn unbind(&self, context: &mut G)
        ensures
            final(context).journal() == old(context).journal().push(
                Op::BindFramebuffer { fbo: None },
            ),
    {
        context.bind_framebuffer(None);
    }

    /// The handle of the framebuffer.
    pub fn handle(&self) -> (handle: &G::Framebuffer)
        ensures
            *handle == self@,
    {
        &self.fbo
    }

    /// Delete the framebuffer on the device.
    pub fn release(self, context: &mut G)
        ensures
            final(context).journal() == old(context).journal().push(
                Op::DeleteFramebuffer { fbo: self@ },
            ),
    {
        context.delete_framebuffer(&self.fbo);
    }
}

/// The construction of a framebuffer leaves exactly one more object on
/// the device if it succeeds, and none if it fails.
pub proof fn lemma_construction_balanced<G: Gl>(
    texture: Texture<G>,
    issued: Seq<OpOf<G>>,
    result: Result<Framebuffer<G>, Error<G::Error>>,
)
    requires
        Framebuffer::<G>::depth_map_attached(texture, issued, result),
    ensures
        balance(issued) == if result is Ok {
            1int
        } else {
            0int
        },
{
    match result {
        Ok(framebuffer) => {
            lemma_setup_balanced::<G>(
                framebuffer@,
                texture.target(),
                texture@,
                FramebufferStatus::of(codes::FRAMEBUFFER_COMPLETE),
            );
        },
        Err(Error::CreateFramebuffer { cause }) => {
            lemma_balance_neutral(issued);
        },
        Err(Error::IncompleteFramebuffer { status }) => {
            let fbo = created::<G>(issued).unwrap();
            lemma_setup_balanced::<G>(fbo, texture.target(), texture@, status);
            lemma_balance_push(
                setup::<G>(fbo, texture.target(), texture@, status),
                Op::DeleteFramebuffer { fbo },
            );
        },
        Err(_) => {},
    }
}

/// The operations that set a framebuffer up leave one more object on
/// the device.
proof fn lemma_setup_balanced<G: Gl>(
    fbo: G::Framebuffer,
    target: TextureTarget,
    texture: G::Texture,
    status: FramebufferStatus,
)
    ensures
        balance(setup::<G>(fbo, target, texture, status)) == 1,
{
    let none = Seq::<OpOf<G>>::empty();
    let create = none.push(Op::CreateFramebuffer { created: Ok(fbo) });
    let rest = none.push(Op::BindFramebuffer { fbo: Some(fbo) }).push(
        Op::FramebufferDepthTexture { target, texture },
    ).push(Op::UnsetDrawBuffer).push(Op::UnsetReadBuffer).push(
        Op::CheckFramebufferStatus { status },
    ).push(Op::BindFramebuffer { fbo: None });
    assert(setup::<G>(fbo, target, texture, status) =~= create + rest);
    lemma_balance_push(none, Op::CreateFramebuffer { created: Ok(fbo) });
    lemma_balance_neutral(rest);
    lemma_balance_add(create, rest);
}

/// Whether an operation is the query of the completeness of the bound
/// framebuffer, answered with the given status.
pub open spec fn reported<G: Gl>(op: OpOf<G>, status: FramebufferStatus) -> bool {
    match op {
        Op::CheckFramebufferStatus { status: answer } => answer == status,
        _ => false,
    }
}

/// Whether an operation unbinds the bound framebuffer.
pub open spec fn unbinds<G: Gl>(op: OpOf<G>) -> bool {
    match op {
        Op::BindFramebuffer { fbo } => fbo is None,
        _ => false,
    }
}

/// The construction of a framebuffer around a depth map succeeds
/// exactly if the device reports the framebuffer as complete, which it
/// is asked right before the framebuffer is unbound; with any other
/// status the construction fails with that status.
pub proof fn lemma_attached_iff_complete<G: Gl>(
    texture: Texture<G>,
    issued: Seq<OpOf<G>>,
    result: Result<Framebuffer<G>, Error<G::Error>>,
    at: int,
    status: FramebufferStatus,
)
    requires
        Framebuffer::<G>::depth_map_attached(texture, issued, result),
        0 <= at < issued.len(),
        reported::<G>(issued[at], status),
    ensures
        result is Ok <==> status.is_complete(),
        result is Err ==> result->Err_0 == (Error::<G::Error>::IncompleteFramebuffer { status }),
        unbinds::<G>(issued[at + 1]),
{
    if result is Ok {
        FramebufferStatus::lemma_code_of(codes::FRAMEBUFFER_COMPLETE);
    }
}

} // verus!
