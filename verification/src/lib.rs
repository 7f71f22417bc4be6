//! Core runtime model for ARMv7-M (Cortex-M) microcontrollers.
//!
//! The crate covers the pieces of a minimal bare-metal runtime that can be
//! reasoned about as plain data and state transitions: the PRIMASK register
//! abstraction and the critical-section primitive built on it, the layout of
//! the exception and interrupt vector tables, reset-time memory
//! initialization (zeroing BSS, copying DATA from flash to RAM), and the
//! build-time composition of per-device assembly and linker-script
//! fragments.

pub mod bootstrap;
pub mod device;
pub mod exception;
pub mod interrupt;
pub mod register;
pub mod script;

pub use bootstrap::LinkerMap;
pub use bootstrap::reset;
pub use exception::ExceptionFrame;
pub use exception::ExceptionType;
pub use interrupt::CriticalSection;
pub use interrupt::disable;
pub use interrupt::enable;
pub use interrupt::free;
pub use interrupt::irq_handler;
