//! A grid snake: a chain of body segments that follows a steered head,
//! grows on request and moves at a fixed logic rate.
//!
//! Every function here carries a contract that Verus proves. Windowing,
//! input polling and drawing live outside this crate and exchange plain
//! values with it.

pub mod chain;
pub mod control;
pub mod food;
pub mod grid;
pub mod growth;
pub mod render;
pub mod scheduler;
pub mod simulation;

pub use chain::{Chain, ChainError, Pose, Segment};
pub use control::{HeadController, KeysPressed};
pub use grid::{Direction, GridCell};
pub use growth::{GrowthQueue, GrowthRequest};
pub use render::RenderItem;
pub use scheduler::Scheduler;
pub use simulation::{Frame, Simulation};
