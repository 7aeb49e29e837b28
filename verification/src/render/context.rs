//! Defines the [`RenderContext`] service and immediately-related subjects.

use vstd::prelude::*;

use super::bitmap::Bitmap;
use super::bitmap::Rgb;

verus! {

/// Specification for the `RenderContext` service.
///
/// This service is used for drawing visuals to the screen. Combat logic
/// never depends on render results; a front end implements this boundary
/// and nothing is promised of it.
pub trait RenderContext {
    /// Draw the contents of a bitmap to the screen at the given position.
    fn draw(&self, bitmap: &Bitmap, x: usize, y: usize) -> Result<(), RenderErr>;

    /// Fill the render context with the given color.
    fn clear(&self, color: &Rgb) -> Result<(), RenderErr>;
}

/// Any error that occurs during the process of rendering.
#[derive(Debug)]
pub struct RenderErr(pub String);

impl RenderErr {
    /// The error's message.
    pub fn message(&self) -> (message: &String)
        ensures
            message == self.0,
    {
        &self.0
    }
}

} // verus!
