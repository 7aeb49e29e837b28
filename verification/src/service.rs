//! Defines the services a front end registers and their related errors.

pub mod container;
pub mod input;
pub mod render_context;

pub use container::AlreadyRegisteredError;
pub use container::NotYetRegisteredError;
pub use container::ServiceContainer;
pub use input::InputManager;
pub use render_context::RenderContext;
pub use render_context::RenderErr;
