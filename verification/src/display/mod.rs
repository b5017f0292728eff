//! The text console: its encoding of colours and cells, the model of what
//! the screen shows, and the scrolling writer.

pub mod console;
pub mod vga;
