//! Combinators: indicators built from other indicators.
pub mod composition;
pub mod constant;
pub mod diff;
pub mod identity;
pub mod map;
pub mod mature;
pub mod together;
pub mod window;

pub use composition::Composition;
pub use constant::Constant;
pub use diff::Diff;
pub use identity::Identity;
pub use map::{Mapped, Projection};
pub use mature::Mature;
pub use together::Together;
pub use window::Window;
