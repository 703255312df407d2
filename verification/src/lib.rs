//! Interrupt-driven preemptive scheduling core of a small x86-64 kernel.
//!
//! The crate models the decision logic of the interrupt subsystem: the trap
//! table that routes vectors to handlers, the per-core privilege-transition
//! state, the interrupt-controller abstraction, timer-tick accounting, and the
//! round-robin run queue.  Hardware effects (port writes, end-of-interrupt
//! signals, context switches) are returned as plain action values, so that the
//! thin unverified shell around the kernel can perform them exactly as
//! decided here.

use vstd::prelude::*;

pub mod ata;
pub mod controller;
pub mod paging;
pub mod pci;
pub mod pit;
pub mod scheduler;
pub mod segments;
pub mod text;
pub mod trap;

verus! {

/// A virtual address, as the hardware sees it.
pub type VirtualAddress = u64;

/// A configuration error: a normal-call-context operation was used before
/// its setup ran, or with an argument its mode requires missing.  These are
/// returned to the caller and never halt anything.
#[derive(Clone, Copy, PartialEq, Eq, Structural, Debug)]
pub enum ConfigError {
    /// Legacy-mode acknowledge was asked for without the IRQ line it needs.
    MissingIrq,
    /// A per-core lookup ran before that core's setup.
    CoreNotRegistered,
    /// Per-core setup ran twice for one core.
    CoreAlreadyRegistered,
}

} // verus!
