use core::sync::atomic::{fence, AtomicU8, Ordering};
use vstd::prelude::*;

verus! {

/// Relies on core::sync::atomic::fence: a memory barrier. It reads and writes
/// no value, and it panics when given the relaxed ordering.
pub assume_specification[ core::sync::atomic::fence ](order: Ordering)
    requires
        !(order is Relaxed),
;

/// Reads the byte in one indivisible access, between two sequentially
/// consistent fences.
///
/// The access goes through core's `AtomicU8`. On a target whose compiler
/// gives no plain single-instruction atomic byte access, such as AVR, the
/// compiler may wrap it in a short interrupt-disable section: a critical
/// section of a few cycles in place of the lone load instruction, at that
/// cost on every access.
///
/// The byte may be written by any other context at any time, so nothing is
/// known of the value read beyond its type.
pub(crate) fn read_atomic(data: &AtomicU8) -> (value: u8) {
    fence(Ordering::SeqCst);
    let value = data.load(Ordering::SeqCst);
    fence(Ordering::SeqCst);
    value
}

/// Writes the byte in one indivisible access, between two sequentially
/// consistent fences.
///
/// As with [`read_atomic`], the compiler may wrap the store in a short
/// interrupt-disable section on targets such as AVR.
pub(crate) fn write_atomic(data: &AtomicU8, value: u8) {
    fence(Ordering::SeqCst);
    data.store(value, Ordering::SeqCst);
    fence(Ordering::SeqCst);
}

} // verus!
