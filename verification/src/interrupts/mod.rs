//! Interrupt descriptors, the interrupt controller and the dispatch routines.

pub mod dispatch;
pub mod idt;
pub mod keyboard;
pub mod pic;

pub use dispatch::{irq_input_port, rust_exception_handler, rust_irq_handler, InterruptFrame};
pub use idt::{init_idt, Idt, IdtEntry, IdtPointer, InterruptHandlers};
pub use pic::{acknowledge, init_pic, remap, EndOfInterrupt, PortWrite};
