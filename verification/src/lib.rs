//! Menu logic of a small handheld configuration screen: key-repeat
//! debouncing of directional input, menu navigation and volume control,
//! and the digit and gauge arithmetic used when drawing the screen.
pub mod timing;
pub mod input;
pub mod menu;
pub mod display;
