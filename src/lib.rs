//! Vehicle control and race-state rules of a kart racing simulation.
//!
//! The host engine integrates rigid bodies and reports collisions; this crate
//! decides, frame by frame, what the kart does with the player's input and how
//! contacts with checkpoints, item boxes and coins change the race state.
pub mod geom;
pub mod kart;
pub mod zones;
pub mod race;
pub mod items;
pub mod laws;
