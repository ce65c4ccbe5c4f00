// Bringing up a WebGL renderer for a colored cube: the order of the setup
// steps and the decision taken on each outcome, the uniform handles looked
// up by name, the cube's vertex and index data, and the shader sources.
pub mod frame;
pub mod geometry;
pub mod setup;
pub mod shaders;
pub mod uniforms;
