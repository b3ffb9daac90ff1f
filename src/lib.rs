//! Game rules of a small arcade flying game, in fixed-point world units.
//!
//! Every length is held in thousandths of a world unit and every time span in
//! nanoseconds, so that the rules are exact integer arithmetic.
mod chance;
pub mod collider;
pub mod geometry;
pub mod obstacle;
pub mod plane;
pub mod state;
pub mod world;

pub use collider::{Body, CollideEvent, Collider};
pub use geometry::Point;
pub use obstacle::spawn_obstacle;
pub use state::AppState;
