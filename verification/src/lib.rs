//! A keyboard-backlight color palette control: an ordered collection of
//! color swatches, a distinguished "add" swatch, a current selection, and
//! the grid layout and hardware-push decisions that user events drive.

pub mod button;
pub mod color;
pub mod laws;
pub mod swatch;
