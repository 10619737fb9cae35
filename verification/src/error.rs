use vstd::prelude::*;
use vstd::string::*;

verus! {

/// Failures of the renderer, each with the message the GPU driver or
/// the loader gave.
#[derive(Debug)]
pub enum KerkenezError {
    ShaderCompileError(String),
    ShaderLinkError(String),
    TextureLoadError(String),
    FramebufferIncomplete(String),
    ResourceCreationError(String),
}

/// The text shown for an error: a label for its kind, then the message.
pub open spec fn error_text(e: KerkenezError) -> Seq<char> {
    match e {
        KerkenezError::ShaderCompileError(m) => "Shader Compile Error: "@ + m@,
        KerkenezError::ShaderLinkError(m) => "Shader Link Error: "@ + m@,
        KerkenezError::TextureLoadError(m) => "Texture Load Error: "@ + m@,
        KerkenezError::FramebufferIncomplete(m) => "Framebuffer Incomplet: "@ + m@,
        KerkenezError::ResourceCreationError(m) => "Resource Creation Error: "@ + m@,
    }
}

/// Which kind of failure an error is, numbered in declaration order.
pub open spec fn error_kind(e: KerkenezError) -> int {
    match e {
        KerkenezError::ShaderCompileError(_) => 0,
        KerkenezError::ShaderLinkError(_) => 1,
        KerkenezError::TextureLoadError(_) => 2,
        KerkenezError::FramebufferIncomplete(_) => 3,
        KerkenezError::ResourceCreationError(_) => 4,
    }
}

/// The message an error carries.
pub open spec fn error_detail(e: KerkenezError) -> Seq<char> {
    match e {
        KerkenezError::ShaderCompileError(m) => m@,
        KerkenezError::ShaderLinkError(m) => m@,
        KerkenezError::TextureLoadError(m) => m@,
        KerkenezError::FramebufferIncomplete(m) => m@,
        KerkenezError::ResourceCreationError(m) => m@,
    }
}

/// An error's text ends with the message it carries, after a label that
/// ends in `": "`; and the text tells errors apart: two errors with the
/// same text are of the same kind and carry the same message.
pub proof fn law_error_text_identifies_error(a: KerkenezError, b: KerkenezError)
    ensures
        ({
            let t = error_text(a);
            let n = error_detail(a).len();
            &&& t.len() >= n + 2
            &&& t.subrange(t.len() - n, t.len() as int) == error_detail(a)
            &&& t[t.len() - n - 2] == ':'
            &&& t[t.len() - n - 1] == ' '
        }),
        error_text(a) == error_text(b) ==> error_kind(a) == error_kind(b) && error_detail(a) == error_detail(b),
{
    reveal_strlit("Shader Compile Error: ");
    reveal_strlit("Shader Link Error: ");
    reveal_strlit("Texture Load Error: ");
    reveal_strlit("Framebuffer Incomplet: ");
    reveal_strlit("Resource Creation Error: ");
    let la = error_text(a).subrange(0, error_text(a).len() - error_detail(a).len());
    let lb = error_text(b).subrange(0, error_text(b).len() - error_detail(b).len());
    assert(error_text(a) =~= la + error_detail(a));
    assert(error_text(b) =~= lb + error_detail(b));
    assert(error_text(a).subrange(error_text(a).len() - error_detail(a).len(), error_text(a).len() as int)
        =~= error_detail(a));
    if error_text(a) == error_text(b) {
        assert(error_text(a)[0] == la[0] && error_text(a)[7] == la[7]);
        assert(error_text(b)[0] == lb[0] && error_text(b)[7] == lb[7]);
        assert(error_kind(a) == error_kind(b));
        assert(la =~= lb);
        assert(error_detail(a) =~= error_text(a).subrange(la.len() as int, error_text(a).len() as int));
        assert(error_detail(b) =~= error_text(b).subrange(lb.len() as int, error_text(b).len() as int));
    }
}

impl KerkenezError {
    /// The error as text, as `Display` shows it.
    pub fn message(&self) -> (s: String)
        ensures
            s@ == error_text(*self),
    {
        match self {
            KerkenezError::ShaderCompileError(m) => String::from_str("Shader Compile Error: ").concat(m.as_str()),
            KerkenezError::ShaderLinkError(m) => String::from_str("Shader Link Error: ").concat(m.as_str()),
            KerkenezError::TextureLoadError(m) => String::from_str("Texture Load Error: ").concat(m.as_str()),
            KerkenezError::FramebufferIncomplete(m) => String::from_str("Framebuffer Incomplet: ").concat(m.as_str()),
            KerkenezError::ResourceCreationError(m) => String::from_str("Resource Creation Error: ").concat(m.as_str()),
        }
    }
}

} // verus!
