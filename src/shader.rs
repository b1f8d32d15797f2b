//! Shader sources and the decisions that follow a compile or a link: the
//! driver reports a status flag and a diagnostic log, and a build either
//! yields its handle or fails with the log's text.
use vstd::prelude::*;

verus! {

/// The status value that the driver reports for a successful compile or link.
pub const GL_TRUE: i32 = 1;

/// The driver's code for a vertex shader stage.
pub const GL_VERTEX_SHADER: u32 = 0x8B31;

/// The driver's code for a fragment shader stage.
pub const GL_FRAGMENT_SHADER: u32 = 0x8B30;

/// Source of the vertex stage: passes the 2D position at location 0 through
/// as a clip-space position.
pub const VERTEX_SHADER_SOURCE: &'static str = "#version 330\n\nlayout (location = 0) in vec2 position;\n\nvoid main() {\n    gl_Position = vec4(position, 0.0, 1.0);\n}\n";

/// Source of the fragment stage: a constant opaque white.
pub const FRAGMENT_SHADER_SOURCE: &'static str = "#version 330\n\nout vec4 color;\n\nvoid main() {\n    color = vec4(1.0f, 1.0f, 1.0f, 1.0f);\n}\n";

/// A stage of the shader pipeline.
#[derive(Clone, Copy, Debug, PartialEq, Eq, Structural)]
pub enum ShaderStage {
    Vertex,
    Fragment,
}

/// Why a shader build failed, with the driver's diagnostic text.
#[derive(Clone, Debug, PartialEq, Eq)]
pub enum ShaderError {
    Compile { stage: ShaderStage, log: Vec<u8> },
    Link { log: Vec<u8> },
}

/// The driver's code for stage `s`.
pub open spec fn stage_code(s: ShaderStage) -> u32 {
    match s {
        ShaderStage::Vertex => GL_VERTEX_SHADER,
        ShaderStage::Fragment => GL_FRAGMENT_SHADER,
    }
}

/// `t` is the text of the log buffer `buf`: everything before the first NUL
/// byte, or the whole buffer where it holds none.
pub open spec fn is_log_text(buf: Seq<u8>, t: Seq<u8>) -> bool {
    &&& t.len() <= buf.len()
    &&& t == buf.subrange(0, t.len() as int)
    &&& forall|i: int| 0 <= i < t.len() ==> t[i] != 0
    &&& (t.len() == buf.len() || buf[t.len() as int] == 0)
}

/// The text of a log buffer is determined by the buffer: two texts of one
/// buffer are equal, so a failed build reports the driver's words unaltered.
pub proof fn lemma_log_text_unique(buf: Seq<u8>, t1: Seq<u8>, t2: Seq<u8>)
    requires
        is_log_text(buf, t1),
        is_log_text(buf, t2),
    ensures
        t1 == t2,
{
    if t1.len() < t2.len() {
        assert(t2[t1.len() as int] == buf[t1.len() as int]);
    } else if t2.len() < t1.len() {
        assert(t1[t2.len() as int] == buf[t2.len() as int]);
    }
    assert(t1 =~= t2);
}

impl ShaderStage {
    /// The driver's code for this stage.
    pub fn code(&self) -> (r: u32)
        ensures
            r == stage_code(*self),
    {
        match self {
            ShaderStage::Vertex => GL_VERTEX_SHADER,
            ShaderStage::Fragment => GL_FRAGMENT_SHADER,
        }
    }
}

impl ShaderError {
    /// The diagnostic text that the driver gave.
    pub fn diagnostic(&self) -> (r: &Vec<u8>)
        ensures
            r@ == match self {
                ShaderError::Compile { log, .. } => log@,
                ShaderError::Link { log } => log@,
            },
    {
        match self {
            ShaderError::Compile { log, .. } => log,
            ShaderError::Link { log } => log,
        }
    }
}

/// The text of a diagnostic log buffer: the bytes before its first NUL.
pub fn log_text(buf: &Vec<u8>) -> (t: Vec<u8>)
    ensures
        is_log_text(buf@, t@),
{
    let mut t: Vec<u8> = Vec::new();
    let mut i: usize = 0;
    while i < buf.len() && buf[i] != 0
        invariant
            i <= buf.len(),
            t@ == buf@.subrange(0, i as int),
            forall|j: int| 0 <= j < i ==> buf@[j] != 0,
        decreases buf.len() - i,
    {
        t.push(buf[i]);
        i = i + 1;
        assert(t@ =~= buf@.subrange(0, i as int));
    }
    t
}

/// The outcome of compiling a `stage` shader: the shader handle where the
/// compile status is `GL_TRUE`, else a compile error with the text of the
/// diagnostic log.
pub fn compile_outcome(stage: ShaderStage, shader: u32, status: i32, log: &Vec<u8>) -> (r: Result<
    u32,
    ShaderError,
>)
    ensures
        status == GL_TRUE ==> r == Ok::<u32, ShaderError>(shader),
        status != GL_TRUE ==> (r matches Err(ShaderError::Compile { stage: s, log: l }) && s == stage
            && is_log_text(log@, l@)),
{
    if status == GL_TRUE {
        Ok(shader)
    } else {
        Err(ShaderError::Compile { stage, log: log_text(log) })
    }
}

/// The outcome of linking a program: the program handle where the link
/// status is `GL_TRUE`, else a link error with the text of the diagnostic log.
pub fn link_outcome(program: u32, status: i32, log: &Vec<u8>) -> (r: Result<u32, ShaderError>)
    ensures
        status == GL_TRUE ==> r == Ok::<u32, ShaderError>(program),
        status != GL_TRUE ==> (r matches Err(ShaderError::Link { log: l }) && is_log_text(log@, l@)),
{
    if status == GL_TRUE {
        Ok(program)
    } else {
        Err(ShaderError::Link { log: log_text(log) })
    }
}

} // verus!
