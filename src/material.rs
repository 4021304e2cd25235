use vstd::prelude::*;

verus! {

/// The custom 2D material: it carries no data, only names the shader it runs.
#[derive(Clone, Copy, Debug, PartialEq, Eq, Structural)]
pub struct Custom2dMaterial {}

/// Path, relative to the asset directory, of the shader source that both
/// pipeline stages load.
pub open spec fn spec_shader_path() -> Seq<char> {
    "shaders/hello.wgsl"@
}

impl Custom2dMaterial {
    pub fn new() -> (r: Custom2dMaterial)
        ensures
            r == (Custom2dMaterial {}),
    {
        Custom2dMaterial {}
    }

    /// Shader source of the vertex stage.
    pub fn vertex_shader() -> (r: &'static str)
        ensures
            r@ == spec_shader_path(),
    {
        "shaders/hello.wgsl"
    }

    /// Shader source of the fragment stage: the same file as the vertex stage.
    pub fn fragment_shader() -> (r: &'static str)
        ensures
            r@ == spec_shader_path(),
    {
        "shaders/hello.wgsl"
    }
}

} // verus!
