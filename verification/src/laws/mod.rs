//! What the player promises, said of what goes in and what comes out.
pub mod lists;
pub mod paths;
pub mod playing;
pub mod screens;
pub mod texts;
