//! Core of a bare-metal microkernel: the hardware-capability abstraction, the
//! boot lifecycle, a preemption-aware spin lock, and the physical-frame
//! ownership model.

pub mod arch;
pub mod memory;
pub mod sync;
