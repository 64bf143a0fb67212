use vstd::prelude::*;
use crate::render::state::GraphicsState;

pub mod bytes;
pub mod mesh;
pub mod state;
pub mod uniforms;
pub mod vertex;

verus! {

/// Anything that can record its draw calls against the graphics
/// context; meshes implement it, and so does application code.
pub trait Render {
    fn render(&mut self, graphics: &mut GraphicsState);
}

} // verus!
