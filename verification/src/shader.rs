//! Shader objects.

use vstd::prelude::*;
use vstd::string::StringExecFns;

use crate::error::Error;
use crate::sys::gl::balance;
use crate::sys::gl::extends;
use crate::sys::gl::issued;
use crate::sys::gl::lemma_balance_push;
use crate::sys::gl::lemma_issued;
use crate::sys::gl::Gl;
use crate::sys::gl::Op;
use crate::sys::gl::OpOf;
use crate::sys::kinds::ShaderType;
use crate::text::decimal_digits;
use crate::text::push_decimal_digits;
use crate::text::utf8_lossy;

verus! {

/// A shader object.
///
/// The value owns the handle of the shader: it is created by
/// [`Shader::new`] and given back to the device by
/// [`Shader::release`], which consumes the value.
pub struct Shader<G: Gl> {
    /// The shader.
    shader: G::Shader,
}

/// The text of the shading language version that belongs to a version
/// of the device interface: major and minor version followed by a
/// zero, and the profile suffix after a space, where there is one.
pub open spec fn glsl_version_text(version: (u8, u8, Option<&'static str>)) -> Seq<char> {
    let number = decimal_digits(version.0 as nat) + decimal_digits(version.1 as nat) + "0"@;
    match version.2 {
        Some(suffix) => number + " "@ + suffix@,
        None => number,
    }
}

/// The shader that the first of the given operations created, if any.
pub open spec fn created<G: Gl>(issued: Seq<OpOf<G>>) -> Option<G::Shader> {
    if issued.len() > 0 {
        match issued[0] {
            Op::CreateShader { ty, created } => created,
            _ => None,
        }
    } else {
        None
    }
}

/// The operations that create a shader, hand it its source and compile
/// it, with the given outcome.
pub open spec fn compiling<G: Gl>(
    shader: G::Shader,
    shader_type: ShaderType,
    source: Seq<char>,
    outcome: Result<(), Seq<u8>>,
) -> Seq<OpOf<G>> {
    Seq::<OpOf<G>>::empty().push(
        Op::CreateShader { ty: shader_type, created: Some(shader) },
    ).push(Op::ShaderSource { shader, source }).push(Op::CompileShader { shader, outcome })
}

/// The number of times that the given operations delete `shader`.
pub open spec fn deletions<G: Gl>(ops: Seq<OpOf<G>>, shader: G::Shader) -> nat
    decreases ops.len(),
{
    if ops.len() == 0 {
        0
    } else {
        let earlier = deletions::<G>(ops.drop_last(), shader);
        match ops.last() {
            Op::DeleteShader { shader: deleted } if deleted == shader => earlier + 1,
            _ => earlier,
        }
    }
}

/// Whether an operation is the successful compilation of a shader.
pub open spec fn compiled<G: Gl>(op: OpOf<G>) -> bool {
    match op {
        Op::CompileShader { shader, outcome } => outcome is Ok,
        _ => false,
    }
}

/// Whether the given operations compile a shader successfully.
pub open spec fn compiles<G: Gl>(ops: Seq<OpOf<G>>) -> bool {
    exists|i: int| 0 <= i < ops.len() && compiled::<G>(#[trigger] ops[i])
}

impl<G: Gl> Shader<G> {
    /// The handle of the shader.
    pub closed spec fn view(&self) -> G::Shader {
        self.shader
    }

    /// Retrieve the shading language version to use.
    ///
    /// The version of the shading language is aligned with the version
    /// of the device interface.
    pub fn glsl_version() -> (version: String)
        ensures
            version@ == glsl_version_text(G::interface_version()),
    {
        let (major, minor, suffix) = G::version();
        let mut version = String::new();
        push_decimal_digits(&mut version, major as u64);
        push_decimal_digits(&mut version, minor as u64);
        version.append("0");
        match suffix {
            Some(suffix) => {
                version.append(" ");
                version.append(suffix);
            },
            None => {},
        }
        version
    }

    /// Whether `result` and the operations issued, `issued`, are those
    /// of the construction of a shader for the given stage from the
    /// given source.
    ///
    /// The construction succeeds exactly if the device creates a shader
    /// and compiles the source; a shader that was created but did not
    /// compile has been deleted again.
    pub open spec fn constructed(
        shader_type: ShaderType,
        source: Seq<char>,
        issued: Seq<OpOf<G>>,
        result: Result<Self, Error<G::Error>>,
    ) -> bool {
        match result {
            Ok(shader) => issued == compiling::<G>(shader@, shader_type, source, Ok(())),
            Err(Error::CreateShader) => issued == Seq::<OpOf<G>>::empty().push(
                Op::CreateShader { ty: shader_type, created: None },
            ),
            Err(Error::CompileShader { stage, log }) => stage == shader_type && match created::<G>(
                issued,
            ) {
                Some(shader) => issued == compiling::<G>(
                    shader,
                    shader_type,
                    source,
                    Err(log@),
                ).push(Op::DeleteShader { shader }),
                None => false,
            },
            Err(_) => false,
        }
    }

    /// Create a shader for the given stage from its source text and
    /// compile it.
    ///
    /// The source is handed to the device as it is. If the device
    /// creates no shader, nothing else is attempted. If the shader does
    /// not compile, it is deleted again and the diagnostic of the device
    /// is returned with the failure.
    pub fn new(shader_type: ShaderType, shader_file: &str, context: &mut G) -> (result: Result<
        Self,
        Error<G::Error>,
    >)
        ensures
            extends(old(context).journal(), final(context).journal()),
            Self::constructed(
                shader_type,
                shader_file@,
                issued(old(context).journal(), final(context).journal()),
                result,
            ),
    {
        let ghost before = context.journal();
        let shader = match context.create_shader(shader_type) {
            Some(shader) => shader,
            None => {
                proof {
                    let ops = Seq::<OpOf<G>>::empty().push(
                        Op::CreateShader { ty: shader_type, created: None },
                    );
                    assert(context.journal() =~= before + ops);
                    lemma_issued(before, ops);
                }
                return Err(Error::CreateShader);
            },
        };
        context.set_shader_source(&shader, shader_file);
        match context.compile_shader(&shader) {
            Ok(()) => {
                proof {
                    let ops = compiling::<G>(shader, shader_type, shader_file@, Ok(()));
                    assert(context.journal() =~= before + ops);
                    lemma_issued(before, ops);
                }
                Ok(Shader { shader })
            },
            Err(log) => {
                context.delete_shader(&shader);
                proof {
                    let ops = compiling::<G>(shader, shader_type, shader_file@, Err(log@)).push(
                        Op::DeleteShader { shader },
                    );
                    assert(context.journal() =~= before + ops);
                    lemma_issued(before, ops);
                }
                Err(Error::CompileShader { stage: shader_type, log })
            },
        }
    }

    /// The handle of the shader.
    pub fn handle(&self) -> (handle: &G::Shader)
        ensures
            *handle == self@,
    {
        &self.shader
    }

    /// Delete the shader on the device.
    pub fn release(self, context: &mut G)
        ensures
            final(context).journal() == old(context).journal().push(
                Op::DeleteShader { shader: self@ },
            ),
    {
        context.delete_shader(&self.shader);
    }
}

impl<G: Gl> core::ops::Deref for Shader<G> {
    type Target = G::Shader;

    fn deref(&self) -> (handle: &G::Shader)
        ensures
            *handle == self@,
    {
        &self.shader
    }
}

/// The construction of a shader succeeds exactly if the device creates
/// a shader and compiles the source: whenever the operations issued
/// hold a successful compilation, the result is the shader, and else it
/// is a failure.
pub proof fn lemma_constructed_iff_compiled<G: Gl>(
    shader_type: ShaderType,
    source: Seq<char>,
    issued: Seq<OpOf<G>>,
    result: Result<Shader<G>, Error<G::Error>>,
)
    requires
        Shader::<G>::constructed(shader_type, source, issued, result),
    ensures
        result is Ok <==> compiles::<G>(issued),
{
    match result {
        Ok(shader) => {
            assert(compiled::<G>(issued[2]));
        },
        Err(_) => {
            assert forall|i: int| 0 <= i < issued.len() implies !compiled::<G>(
                #[trigger] issued[i],
            ) by {}
        },
    }
}

/// Whether an operation is the compilation of a shader that failed with
/// the given diagnostic.
pub open spec fn rejected<G: Gl>(op: OpOf<G>, log: Seq<u8>) -> bool {
    match op {
        Op::CompileShader { shader, outcome } => outcome == Err::<(), Seq<u8>>(log),
        _ => false,
    }
}

/// The construction of a shader from a source that the device does not
/// compile fails, and the text of the failure names the stage and ends
/// with the diagnostic of the device.
pub proof fn lemma_failure_carries_diagnostic<G: Gl>(
    shader_type: ShaderType,
    source: Seq<char>,
    issued: Seq<OpOf<G>>,
    result: Result<Shader<G>, Error<G::Error>>,
    at: int,
    log: Seq<u8>,
)
    requires
        Shader::<G>::constructed(shader_type, source, issued, result),
        0 <= at < issued.len(),
        rejected::<G>(issued[at], log),
    ensures
        result is Err,
        result->Err_0.text() == "failed to compile "@ + shader_type.name() + " shader: "@
            + utf8_lossy(log),
{
}

/// A shader is released exactly once. The operations of a successful
/// construction do not delete the shader, and those of its release
/// delete it once; the operations of a construction that fails after
/// the shader was created delete it once.
pub proof fn lemma_released_exactly_once<G: Gl>(
    shader_type: ShaderType,
    source: Seq<char>,
    issued: Seq<OpOf<G>>,
    result: Result<Shader<G>, Error<G::Error>>,
)
    requires
        Shader::<G>::constructed(shader_type, source, issued, result),
    ensures
        match result {
            Ok(shader) => deletions::<G>(issued, shader@) == 0 && deletions::<G>(
                issued.push(Op::DeleteShader { shader: shader@ }),
                shader@,
            ) == 1,
            Err(_) => match created::<G>(issued) {
                Some(shader) => deletions::<G>(issued, shader) == 1,
                None => true,
            },
        },
{
    reveal_with_fuel(deletions, 6);
    match result {
        Ok(shader) => {
            let ops = compiling::<G>(shader@, shader_type, source, Ok(()));
            lemma_compiling_deletes_nothing::<G>(shader@, shader_type, source, Ok(()), shader@);
        },
        Err(Error::CompileShader { stage, log }) => {
            let shader = created::<G>(issued).unwrap();
            let ops = compiling::<G>(shader, shader_type, source, Err(log@));
            lemma_compiling_deletes_nothing::<G>(shader, shader_type, source, Err(log@), shader);
        },
        Err(_) => {},
    }
}

/// The construction of a shader leaves exactly one more object on the
/// device if it succeeds, and none if it fails.
pub proof fn lemma_construction_balanced<G: Gl>(
    shader_type: ShaderType,
    source: Seq<char>,
    issued: Seq<OpOf<G>>,
    result: Result<Shader<G>, Error<G::Error>>,
)
    requires
        Shader::<G>::constructed(shader_type, source, issued, result),
    ensures
        balance(issued) == if result is Ok {
            1int
        } else {
            0int
        },
{
    let none = Seq::<OpOf<G>>::empty();
    match result {
        Ok(shader) => {
            lemma_compiling_balanced::<G>(shader@, shader_type, source, Ok(()));
        },
        Err(Error::CreateShader) => {
            lemma_balance_push(none, Op::CreateShader { ty: shader_type, created: None });
        },
        Err(Error::CompileShader { stage, log }) => {
            let shader = created::<G>(issued).unwrap();
            lemma_compiling_balanced::<G>(shader, shader_type, source, Err(log@));
            lemma_balance_push(
                compiling::<G>(shader, shader_type, source, Err(log@)),
                Op::DeleteShader { shader },
            );
        },
        Err(_) => {},
    }
}

/// The operations that create and compile a shader leave one more
/// object on the device.
proof fn lemma_compiling_balanced<G: Gl>(
    shader: G::Shader,
    shader_type: ShaderType,
    source: Seq<char>,
    outcome: Result<(), Seq<u8>>,
)
    ensures
        balance(compiling::<G>(shader, shader_type, source, outcome)) == 1,
{
    let none = Seq::<OpOf<G>>::empty();
    let a = none.push(Op::CreateShader { ty: shader_type, created: Some(shader) });
    let b = a.push(Op::ShaderSource { shader, source });
    lemma_balance_push(none, Op::CreateShader { ty: shader_type, created: Some(shader) });
    lemma_balance_push(a, Op::ShaderSource { shader, source });
    lemma_balance_push(b, Op::CompileShader { shader, outcome });
}

/// The operations that create and compile a shader delete no shader.
proof fn lemma_compiling_deletes_nothing<G: Gl>(
    shader: G::Shader,
    shader_type: ShaderType,
    source: Seq<char>,
    outcome: Result<(), Seq<u8>>,
    other: G::Shader,
)
    ensures
        deletions::<G>(compiling::<G>(shader, shader_type, source, outcome), other) == 0,
{
    reveal_with_fuel(deletions, 4);
    let a = Seq::<OpOf<G>>::empty().push(
        Op::CreateShader { ty: shader_type, created: Some(shader) },
    );
    let b = a.push(Op::ShaderSource { shader, source });
    let c = b.push(Op::CompileShader { shader, outcome });
}

} // verus!
