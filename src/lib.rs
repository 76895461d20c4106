//! Procedural gradient synthesis and display encoding in exact arithmetic,
//! together with the state reducer of the render viewer.

pub mod color;
pub mod display;
pub mod remap;
pub mod scene;
pub mod state;

pub use remap::fit_range;
pub use state::ApplicationMessage;
