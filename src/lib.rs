//! A playable character in a fixed-rate game loop: keyboard input becomes a
//! snapshot of held keys, a closed state machine animates and moves the
//! character, and the loop turns irregular host callbacks into fixed steps.
pub mod engine;
pub mod game;
pub mod sound;
