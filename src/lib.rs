//! Verified core of a small real-time 3D rendering demo: the input tracker,
//! frame timing, movement intent for a first-person camera, mesh index
//! tables, and the layout operations on 4x4 transform matrices.
//!
//! The numeric camera and transform math runs on `f64` and is kept by the
//! application around this library.

use crate::input::{InputModel, InputState};
use vstd::prelude::*;

pub mod delta_time;
pub mod input;
pub mod matrix;
pub mod triangle;
pub mod movement;

verus! {

/// Size of the drawing surface in physical pixels.
#[derive(Debug, Clone, Copy, PartialEq, Eq, Structural)]
pub struct WndSize {
    pub width: u32,
    pub height: u32,
}

/// What a frame operation asks of the caller that drives the window.
#[derive(Debug, Clone, Copy, PartialEq, Eq, Structural)]
pub struct RenderNextStep {
    pub should_request_redraw: bool,
}

/// State shared by every frame operation: the input seen so far. `P` is the
/// type of a pointer position.
#[derive(Debug)]
pub struct RenderContext<P> {
    pub input: InputState<P>,
}

impl<P: Copy> RenderContext<P> {
    pub fn new() -> (r: Self)
        ensures
            r.input@ == InputModel::<P>::initial(),
    {
        Self { input: InputState::new() }
    }
}

impl<P: Copy> Default for RenderContext<P> {
    fn default() -> (r: Self)
        ensures
            r.input@ == InputModel::<P>::initial(),
    {
        Self::new()
    }
}

} // verus!
