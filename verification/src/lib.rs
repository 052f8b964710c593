//! Runtime support for freestanding handheld-console programs.
//!
//! The heart of the crate is its synchronization and shared-ownership
//! layer, built for a machine with a single execution core, no OS and no
//! hardware atomic instructions: an interrupt-exclusion primitive
//! ([`interrupt`]), an atomic memory cell built on it ([`atomic`]), a
//! mutual-exclusion lock ([`mutex`]) and a reference-counted shared
//! pointer ([`arc`]). Every observable transition of a shared cell
//! happens strictly inside a critical section, and on a single core
//! critical sections never overlap, so the plain-variable semantics
//! stated in the contracts here is exact.

pub mod arc;
pub mod atomic;
pub mod interrupt;
pub mod mutex;
pub mod ops;
pub mod process;
pub mod system;
pub mod tasks;
