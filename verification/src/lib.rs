//! The interrupt-driven console of a bare-metal x86-64 kernel.
//!
//! The crate holds the parts of the console that are pure computation: the
//! text-mode framebuffer driver, the keyboard scancode decoder, the layout of
//! interrupt descriptors, the command sequences of the interrupt controller and
//! the two dispatch routines that tie them together, with the byte-wise
//! memory routines beside them. Each is specified against a mathematical
//! model and proved to follow it. Touching the hardware itself (port I/O,
//! device memory, privileged instructions) is left to the caller, who hands
//! the bytes it reads to this crate and carries out the port writes this
//! crate returns.

pub mod display;
pub mod interrupts;
pub mod memory;
