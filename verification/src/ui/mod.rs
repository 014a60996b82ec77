//! The state of the user interface, and what follows from what the user does.

pub mod cards;
pub mod consoles;
pub mod dashboard;
pub mod intervals;
pub mod ticker;
pub mod toasts;
pub mod windows;
