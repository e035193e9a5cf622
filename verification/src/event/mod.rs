//! Events of the terminal: key presses and ticks.

pub mod events;
pub mod key;
