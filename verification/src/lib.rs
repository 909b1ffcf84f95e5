//! Hardware abstraction layer for a RISC-V microcontroller: GPIO pin
//! configuration and a scatter-gather DMA engine driven through linked-list
//! transfer descriptors.
//!
//! All register state is modeled explicitly: every operation acts on a
//! register-file value ([`regs::DmaRegisters`], [`regs::GpioRegisters`]) and
//! carries a contract stating the exact bits it reads and writes. A runtime
//! for real hardware mirrors each operation onto the memory-mapped registers;
//! a test harness supplies an in-memory register file and plays the part of
//! the hardware.

pub mod dma;
pub mod gpio;
pub mod regs;
