use vstd::prelude::*;
use crate::setup::ShaderStage;

verus! {

/// Source of the vertex stage: positions are carried through the
/// projection, view and model transforms; colors pass on unchanged.
pub const VS_GLSL: &'static str = "
    attribute vec3 position;
    attribute vec3 color;

    varying lowp vec4 fragColor;

    uniform mat4 m;
    uniform mat4 v;
    uniform mat4 p;

    void main() {
        gl_Position = p * v * m * vec4(position, 1.0);
        fragColor = vec4(color, 1.0);
    }
";

/// Source of the fragment stage: each pixel takes the interpolated color.
pub const FS_GLSL: &'static str = "
    varying lowp vec4 fragColor;

    void main() {
        gl_FragColor = fragColor;
    }
";

/// The source compiled for a stage.
pub fn source_of(stage: ShaderStage) -> (r: &'static str)
    ensures
        stage == ShaderStage::Vertex ==> r@ == VS_GLSL@,
        stage == ShaderStage::Fragment ==> r@ == FS_GLSL@,
{
    match stage {
        ShaderStage::Vertex => VS_GLSL,
        ShaderStage::Fragment => FS_GLSL,
    }
}

} // verus!
