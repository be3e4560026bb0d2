//! A single-core kernel core: a fail-fast exclusion primitive, an
//! interrupt-masking scope guard, and the bootstrap and demo loop that
//! drive a modelled machine.

pub mod lock;
pub mod interrupt;
pub mod port;
pub mod irq;
pub mod keyboard;
pub mod framebuffer;
pub mod multiboot;
pub mod time;
pub mod kernel;
pub mod exit;
