//! Bring-up sequencer for a microcontroller clock tree and its independent
//! watchdog.
//!
//! The library models the memory-mapped registers that the sequence touches
//! as an explicit [`device::Device`] value, so that every step of the
//! protocol — the order of the register writes, the busy-polls on status
//! flags, the key handshake of the watchdog — is stated in contracts and
//! proved.  The binary that runs on the board performs the same writes on
//! the real registers, using the constants and the sequencing that this
//! library fixes.

pub mod config;
pub mod device;
pub mod clock;
pub mod watchdog;
pub mod supervise;
