//! Program objects.

use vstd::prelude::*;
use vstd::string::StringExecFns;

use crate::error::Error;
use crate::shader::Shader;
use crate::sys::gl::balance;
use crate::sys::gl::diagnostic;
use crate::sys::gl::extends;
use crate::sys::gl::issued;
use crate::sys::gl::lemma_balance_add;
use crate::sys::gl::lemma_balance_neutral;
use crate::sys::gl::lemma_balance_push;
use crate::sys::gl::lemma_issued;
use crate::sys::gl::Gl;
use crate::sys::gl::Op;
use crate::sys::gl::OpOf;

verus! {

/// A program object.
///
/// The value owns the handle of the program: it is created by
/// [`Program::new`] and given back to the device by
/// [`Program::release`], which consumes the value.
pub struct Program<G: Gl> {
    /// The program.
    program: G::Program,
}

/// The operations that attach the first `count` of the given shaders to
/// a program, in order.
pub open spec fn attachments<G: Gl>(
    program: G::Program,
    shaders: Seq<Shader<G>>,
    count: nat,
) -> Seq<OpOf<G>>
    recommends
        count <= shaders.len(),
{
    Seq::new(count, |i: int| Op::AttachShader { program, shader: shaders[i]@ })
}

/// The operations that detach the first `count` of the given shaders
/// from a program, in order.
pub open spec fn detachments<G: Gl>(
    program: G::Program,
    shaders: Seq<Shader<G>>,
    count: nat,
) -> Seq<OpOf<G>>
    recommends
        count <= shaders.len(),
{
    Seq::new(count, |i: int| Op::DetachShader { program, shader: shaders[i]@ })
}

/// The program that the first of the given operations created, if
/// any.
pub open spec fn created<G: Gl>(issued: Seq<OpOf<G>>) -> Option<G::Program> {
    if issued.len() > 0 {
        match issued[0] {
            Op::CreateProgram { created } => created,
            _ => None,
        }
    } else {
        None
    }
}

/// The operations up to and including the link step of a program made
/// of the given shaders.
pub open spec fn linking<G: Gl>(
    program: G::Program,
    shaders: Seq<Shader<G>>,
    outcome: Result<(), Seq<u8>>,
) -> Seq<OpOf<G>> {
    seq![Op::CreateProgram { created: Some(program) }] + attachments(
        program,
        shaders,
        shaders.len(),
    ) + seq![Op::LinkProgram { program, outcome }]
}

/// The operations from after a successful link up to and including the
/// validation of a program made of the given shaders.
pub open spec fn validation<G: Gl>(
    program: G::Program,
    shaders: Seq<Shader<G>>,
    outcome: Result<(), Seq<u8>>,
) -> Seq<OpOf<G>> {
    detachments(program, shaders, shaders.len()) + seq![
        Op::ValidateProgram { program, outcome },
    ]
}

impl<G: Gl> Program<G> {
    /// The handle of the program.
    pub closed spec fn view(&self) -> G::Program {
        self.program
    }

    /// Attach every shader to the program, in order.
    fn attach_all(program: &G::Program, shaders: &[Shader<G>], context: &mut G)
        ensures
            final(context).journal() == old(context).journal() + attachments(
                *program,
                shaders@,
                shaders@.len(),
            ),
    {
        let mut i: usize = 0;
        while i < shaders.len()
            invariant
                i <= shaders@.len(),
                context.journal() == old(context).journal() + attachments(
                    *program,
                    shaders@,
                    i as nat,
                ),
            decreases shaders@.len() - i,
        {
            context.attach_shader(program, shaders[i].handle());
            i += 1;
        }
    }

    /// Detach every shader from the program, in order.
    fn detach_all(program: &G::Program, shaders: &[Shader<G>], context: &mut G)
        ensures
            final(context).journal() == old(context).journal() + detachments(
                *program,
                shaders@,
                shaders@.len(),
            ),
    {
        let mut i: usize = 0;
        while i < shaders.len()
            invariant
                i <= shaders@.len(),
                context.journal() == old(context).journal() + detachments(
                    *program,
                    shaders@,
                    i as nat,
                ),
            decreases shaders@.len() - i,
        {
            context.detach_shader(program, shaders[i].handle());
            i += 1;
        }
    }

    /// Whether `result` and the operations issued, `issued`, are those
    /// of the construction of a program from the given shaders.
    ///
    /// A program that was created but did not link or validate has been
    /// deleted again; the shaders are detached only after a successful
    /// link.
    pub open spec fn constructed(
        shaders: Seq<Shader<G>>,
        issued: Seq<OpOf<G>>,
        result: Result<Self, Error<G::Error>>,
    ) -> bool {
        match result {
            Ok(program) => issued == linking(program@, shaders, Ok(())) + validation(
                program@,
                shaders,
                Ok(()),
            ),
            Err(Error::CreateProgram) => issued == Seq::<OpOf<G>>::empty().push(
                Op::CreateProgram { created: None },
            ),
            Err(Error::LinkProgram { log }) => match created::<G>(issued) {
                Some(program) => issued == linking(program, shaders, Err(log@)).push(
                    Op::DeleteProgram { program },
                ),
                None => false,
            },
            Err(Error::ValidateProgram { log }) => match created::<G>(issued) {
                Some(program) => issued == (linking(program, shaders, Ok(())) + validation(
                    program,
                    shaders,
                    Err(log@),
                )).push(Op::DeleteProgram { program }),
                None => false,
            },
            Err(_) => false,
        }
    }

    /// Create a program from compiled shaders: attach all of them, link,
    /// detach all of them and validate.
    ///
    /// If the device creates no program, nothing else is attempted. If
    /// the program does not link or does not validate, it is deleted
    /// again and the diagnostic of the device is returned with the
    /// failure.
    pub fn new(shaders: &[Shader<G>], context: &mut G) -> (result: Result<Self, Error<G::Error>>)
        ensures
            extends(old(context).journal(), final(context).journal()),
            Self::constructed(
                shaders@,
                issued(old(context).journal(), final(context).journal()),
                result,
            ),
    {
        let ghost before = context.journal();
        let program = match context.create_program() {
            Some(program) => program,
            None => {
                proof {
                    let ops = Seq::<OpOf<G>>::empty().push(Op::CreateProgram { created: None });
                    assert(context.journal() =~= before + ops);
                    lemma_issued(before, ops);
                }
                return Err(Error::CreateProgram);
            },
        };
        Self::attach_all(&program, shaders, context);
        let linked = context.link_program(&program);
        match linked {
            Ok(()) => {},
            Err(log) => {
                context.delete_program(&program);
                proof {
                    let ops = linking(program, shaders@, Err(log@)).push(
                        Op::DeleteProgram { program },
                    );
                    assert(context.journal() =~= before + ops);
                    lemma_issued(before, ops);
                }
                return Err(Error::LinkProgram { log });
            },
        }
        Self::detach_all(&program, shaders, context);
        // Also perform some basic validation to check whether the
        // program could actually execute.
        let validated = context.validate_program(&program);
        assert(context.journal() =~= before + (linking(program, shaders@, Ok(())) + validation(
            program,
            shaders@,
            diagnostic(validated),
        )));
        match validated {
            Ok(()) => {
                proof {
                    lemma_issued(
                        before,
                        linking(program, shaders@, Ok(())) + validation(program, shaders@, Ok(())),
                    );
                }
                Ok(Program { program })
            },
            Err(log) => {
                context.delete_program(&program);
                proof {
                    let ops = (linking(program, shaders@, Ok(())) + validation(
                        program,
                        shaders@,
                        Err(log@),
                    )).push(Op::DeleteProgram { program });
                    lemma_issued(before, ops);
                }
                Err(Error::ValidateProgram { log })
            },
        }
    }

    /// Look up the index of a vertex attribute by name.
    pub fn query_attrib_location(&self, attrib: &str, context: &mut G) -> (result: Result<
        u32,
        Error<G::Error>,
    >)
        requires
            G::valid_name(attrib@),
        ensures
            match result {
                Ok(index) => final(context).journal() == old(context).journal().push(
                    Op::AttribLocation { program: self@, name: attrib@, location: Some(index) },
                ),
                Err(Error::AttribLocation { name }) => name@ == attrib@
                    && final(context).journal() == old(context).journal().push(
                    Op::AttribLocation { program: self@, name: attrib@, location: None },
                ),
                Err(_) => false,
            },
    {
        match context.attrib_location(&self.program, attrib) {
            Some(index) => Ok(index),
            None => Err(Error::AttribLocation { name: String::from_str(attrib) }),
        }
    }

    /// Look up the location of a uniform by name.
    pub fn query_uniform_location(&self, uniform: &str, context: &mut G) -> (result: Result<
        G::UniformLocation,
        Error<G::Error>,
    >)
        requires
            G::valid_name(uniform@),
        ensures
            match result {
                Ok(location) => final(context).journal() == old(context).journal().push(
                    Op::UniformLocation {
                        program: self@,
                        name: uniform@,
                        location: Some(location),
                    },
                ),
                Err(Error::UniformLocation { name }) => name@ == uniform@
                    && final(context).journal() == old(context).journal().push(
                    Op::UniformLocation { program: self@, name: uniform@, location: None },
                ),
                Err(_) => false,
            },
    {
        match context.uniform_location(&self.program, uniform) {
            Some(location) => Ok(location),
            None => Err(Error::UniformLocation { name: String::from_str(uniform) }),
        }
    }

    /// Make the program the current one.
    pub fn bind(&self, context: &mut G)
        ensures
            final(context).journal() == old(context).journal().push(
                Op::UseProgram { program: self@ },
            ),
    {
        context.use_program(&self.program);
    }

    /// The handle of the program.
    pub fn handle(&self) -> (handle: &G::Program)
        ensures
            *handle == self@,
    {
        &self.program
    }

    /// Delete the program on the device.
    pub fn release(self, context: &mut G)
        ensures
            final(context).journal() == old(context).journal().push(
                Op::DeleteProgram { program: self@ },
            ),
    {
        context.delete_program(&self.program);
    }
}

impl<G: Gl> core::ops::Deref for Program<G> {
    type Target = G::Program;

    fn deref(&self) -> (handle: &G::Program)
        ensures
            *handle == self@,
    {
        &self.program
    }
}

/// Attaching and detaching shaders changes nothing about the number of
/// objects on the device.
proof fn lemma_attachments_neutral<G: Gl>(
    program: G::Program,
    shaders: Seq<Shader<G>>,
    count: nat,
)
    requires
        count <= shaders.len(),
    ensures
        balance(attachments::<G>(program, shaders, count)) == 0,
        balance(detachments::<G>(program, shaders, count)) == 0,
{
    lemma_balance_neutral(attachments::<G>(program, shaders, count));
    lemma_balance_neutral(detachments::<G>(program, shaders, count));
}

/// The operations up to the link step of a program leave one more
/// object on the device.
proof fn lemma_linking_balanced<G: Gl>(
    program: G::Program,
    shaders: Seq<Shader<G>>,
    outcome: Result<(), Seq<u8>>,
)
    ensures
        balance(linking::<G>(program, shaders, outcome)) == 1,
{
    let none = Seq::<OpOf<G>>::empty();
    let create = seq![Op::CreateProgram { created: Some(program) }];
    let attach = attachments::<G>(program, shaders, shaders.len());
    let link = seq![Op::LinkProgram { program, outcome }];
    lemma_balance_push(none, Op::CreateProgram { created: Some(program) });
    lemma_balance_push(none, Op::LinkProgram { program, outcome });
    lemma_attachments_neutral::<G>(program, shaders, shaders.len());
    lemma_balance_add(create, attach);
    lemma_balance_add(create + attach, link);
}

/// The operations from after the link step to the validation of a
/// program change nothing about the number of objects on the device.
proof fn lemma_validation_neutral<G: Gl>(
    program: G::Program,
    shaders: Seq<Shader<G>>,
    outcome: Result<(), Seq<u8>>,
)
    ensures
        balance(validation::<G>(program, shaders, outcome)) == 0,
{
    let none = Seq::<OpOf<G>>::empty();
    let detach = detachments::<G>(program, shaders, shaders.len());
    let validate = seq![Op::ValidateProgram { program, outcome }];
    lemma_balance_push(none, Op::ValidateProgram { program, outcome });
    lemma_attachments_neutral::<G>(program, shaders, shaders.len());
    lemma_balance_add(detach, validate);
}

/// The construction of a program leaves exactly one more object on the
/// device if it succeeds, and none if it fails.
pub proof fn lemma_construction_balanced<G: Gl>(
    shaders: Seq<Shader<G>>,
    issued: Seq<OpOf<G>>,
    result: Result<Program<G>, Error<G::Error>>,
)
    requires
        Program::<G>::constructed(shaders, issued, result),
    ensures
        balance(issued) == if result is Ok {
            1int
        } else {
            0int
        },
{
    let none = Seq::<OpOf<G>>::empty();
    match result {
        Ok(program) => {
            lemma_linking_balanced::<G>(program@, shaders, Ok(()));
            lemma_validation_neutral::<G>(program@, shaders, Ok(()));
            lemma_balance_add(
                linking::<G>(program@, shaders, Ok(())),
                validation::<G>(program@, shaders, Ok(())),
            );
        },
        Err(Error::CreateProgram) => {
            lemma_balance_push(none, Op::CreateProgram { created: None });
        },
        Err(Error::LinkProgram { log }) => {
            let program = created::<G>(issued).unwrap();
            lemma_linking_balanced::<G>(program, shaders, Err(log@));
            lemma_balance_push(
                linking::<G>(program, shaders, Err(log@)),
                Op::DeleteProgram { program },
            );
        },
        Err(Error::ValidateProgram { log }) => {
            let program = created::<G>(issued).unwrap();
            lemma_linking_balanced::<G>(program, shaders, Ok(()));
            lemma_validation_neutral::<G>(program, shaders, Err(log@));
            lemma_balance_add(
                linking::<G>(program, shaders, Ok(())),
                validation::<G>(program, shaders, Err(log@)),
            );
            lemma_balance_push(
                linking::<G>(program, shaders, Ok(())) + validation::<G>(
                    program,
                    shaders,
                    Err(log@),
                ),
                Op::DeleteProgram { program },
            );
        },
        Err(_) => {},
    }
}

} // verus!
