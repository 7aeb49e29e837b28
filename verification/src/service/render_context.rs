//! Defines the [`RenderContext`] service and immediately-related subjects.

use vstd::prelude::*;

use crate::render::bitmap::Bitmap;
use crate::render::bitmap::Rgb;

verus! {

/// Specification for the `RenderContext` service.
///
/// This service is used for drawing visuals to the screen through exclusive
/// access. Combat logic never depends on render results; a front end
/// implements this boundary and nothing is promised of it.
pub trait RenderContext {
    /// Draw the contents of a bitmap to the screen at the given position.
    fn draw(&mut self, bitmap: &Bitmap, x: usize, y: usize) -> Result<(), RenderErr>;

    /// Fill the render context with the given color.
    fn clear(&mut self, color: &Rgb) -> Result<(), RenderErr>;
}

/// Any error that occurs during the process of rendering.
#[derive(Debug)]
pub struct RenderErr(pub String);

impl RenderErr {
    /// The error's message.
    pub fn message(&self) -> (message: &String)
        ensures
            message == self.0,
    {
        &self.0
    }
}

} // verus!
