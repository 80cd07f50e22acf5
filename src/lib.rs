//! Hardware abstraction layer for a RISC-V microcontroller's GPIO block,
//! general-purpose timer and UART, with each peripheral reached through a
//! capability trait and a plain register-file model of it.
use vstd::prelude::*;

pub mod device;
pub mod gpio;
pub mod serial;
pub mod timer;

verus! {

} // verus!
