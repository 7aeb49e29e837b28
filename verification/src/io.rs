//! Asset input boundaries: decoding loaded bytes into bitmaps.

pub mod asset_loader;

pub use asset_loader::LoadError;
pub use asset_loader::LocalAssetLoader;
