//! Driver for a hardware counter/timer peripheral: a register block that runs
//! either clock-driven ("timer" mode) or software-driven ("counter" mode),
//! with a configurable bit width, an optional clock divider, and a fixed bank
//! of independent compare channels.
//!
//! The crate has two layers.
//!
//! The dynamic layer (`regs`, `channels`, `driver`) models the register block
//! as plain data, performs every register write in the exact order the
//! hardware needs, and guards each operation at run time: an illegal
//! transition or an out-of-range channel index is reported as an error and
//! leaves the peripheral untouched.
//!
//! The typed layer (`timer`, with the marker types in `state`, `bitmode`,
//! `prescaler`, `mode` and `interrupts`) mirrors the dynamic state in type
//! parameters, so that an illegal transition does not compile. Its methods
//! are proved against the dynamic layer: whenever the types fit, the run-time
//! guard is proved to pass.

pub mod bitmode;
pub mod channels;
pub mod driver;
pub mod interrupts;
pub mod mode;
pub mod prescaler;
pub mod regs;
pub mod sealed;
pub mod state;
pub mod timer;
pub mod variant;
