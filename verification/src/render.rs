//! This module defines elements related to rendering.

pub mod bitmap;
pub mod context;

pub use bitmap::Bitmap;
pub use bitmap::Rgb;
pub use context::RenderContext;
pub use context::RenderErr;
