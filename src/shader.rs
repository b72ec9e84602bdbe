use vstd::prelude::*;

use crate::text::push_str;

verus! {

/// The shader stages the engine compiles from GLSL.
#[derive(Clone, Copy, Debug, PartialEq, Eq, Structural)]
pub enum ShaderStage {
    Vertex,
    Fragment,
    Compute,
}

/// The file extension of a stage's GLSL source.
pub open spec fn extension_of(stage: ShaderStage) -> Seq<char> {
    match stage {
        ShaderStage::Vertex => ".vert"@,
        ShaderStage::Fragment => ".frag"@,
        ShaderStage::Compute => ".comp"@,
    }
}

/// First word of every SPIR-V module.
pub const SPIRV_MAGIC: u32 = 0x0723_0203;

/// The GLSL source of shader `name` for `stage`: `res/shaders/<name>.<ext>`.
pub fn shader_source_path(stage: ShaderStage, name: &str) -> (r: String)
    ensures
        r@ == "res/shaders/"@ + name@ + extension_of(stage),
{
    let mut r = "res/shaders/".to_owned();
    push_str(&mut r, name);
    match stage {
        ShaderStage::Vertex => push_str(&mut r, ".vert"),
        ShaderStage::Fragment => push_str(&mut r, ".frag"),
        ShaderStage::Compute => push_str(&mut r, ".comp"),
    }
    r
}

/// Whether compiled code starts as a SPIR-V module does.
pub fn is_spirv(words: &[u32]) -> (r: bool)
    ensures
        r == (words@.len() > 0 && words@[0] == SPIRV_MAGIC),
{
    words.len() > 0 && words[0] == SPIRV_MAGIC
}

} // verus!
