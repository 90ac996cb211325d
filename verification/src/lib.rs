//! Movement-and-collision core of a grid snake game.
//!
//! A single head pursues a buffered input direction across a bounded
//! discrete arena, towing a chain of body segments that follow its trail,
//! eating food to grow, and ending the round on a wall hit or
//! self-collision.  The whole simulation state is one plain value,
//! [`state::GameState`]; one tick runs the five stages in a fixed order:
//! input capture, movement, eating, growth, round lifecycle.

pub mod geometry;
pub mod stages;
pub mod state;
