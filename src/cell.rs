use core::marker::PhantomData;
use core::sync::atomic::AtomicU8;
use vstd::prelude::*;

use crate::convert::AvrAtomicConvert;
use crate::primitive::{read_atomic, write_atomic};

verus! {

/// A byte of shared, interior-mutable storage that holds a value of type `T`
/// in its encoded form.
///
/// Every access is one indivisible byte load or store with sequentially
/// consistent ordering, so the cell can be shared between the main program
/// and interrupt handlers (or threads) without a lock around it. The access
/// is that of core's `AtomicU8`; on AVR the compiler may place it inside a
/// brief interrupt-disable section, which costs a few cycles per access but
/// keeps the byte from being torn.
///
/// A cell starts at `0` or at the encoding of a `T`, and a store from
/// verified code keeps it so: `store` writes an encoding, and `store_raw`
/// requires its byte to be `0` or an encoding. Code outside Verus can hand
/// `store_raw` any byte; its caller must keep to the same rule.
///
/// Any other context may store into a shared cell between two calls, so a
/// load is known to return the decoding of some byte, not of a particular one.
pub struct AvrAtomic<T> {
    data: AtomicU8,
    _phantom: PhantomData<T>,
}

impl<T> AvrAtomic<T> {
    /// Create a new [AvrAtomic] with the initial interior raw data being `0_u8`.
    pub fn new() -> AvrAtomic<T> {
        AvrAtomic { data: AtomicU8::new(0), _phantom: PhantomData }
    }

    /// Atomically read as raw `u8` byte.
    ///
    /// This atomic read is also a full sequentially consistent memory barrier.
    pub fn load_raw(&self) -> (r: u8) {
        read_atomic(&self.data)
    }
}

impl<T: AvrAtomicConvert> AvrAtomic<T> {
    /// Atomically write as raw `u8` byte.
    ///
    /// This atomic write is also a full sequentially consistent memory barrier.
    /// The byte must be `0` or the encoding of some `T`, so that every later
    /// load decodes a byte that stands for a valid value. Verus checks this
    /// of verified callers; any other caller must ensure it.
    pub fn store_raw(&self, value: u8)
        requires
            value == 0 || exists|v: T| v.spec_to_u8() == value,
    {
        write_atomic(&self.data, value)
    }

    /// Create a new [AvrAtomic] initialized to `value`.
    pub fn new_value(value: T) -> Self {
        let value = value.to_u8();
        AvrAtomic { data: AtomicU8::new(value), _phantom: PhantomData }
    }

    /// Atomically read the current value.
    ///
    /// This atomic read is also a full sequentially consistent memory barrier.
    pub fn load(&self) -> (r: T)
        ensures
            exists|b: u8| r == T::spec_from_u8(b),
    {
        let b = self.load_raw();
        T::from_u8(b)
    }

    /// Atomically write a new value.
    ///
    /// This atomic write is also a full sequentially consistent memory barrier.
    pub fn store(&self, value: T) {
        let b = value.to_u8();
        self.store_raw(b)
    }
}

impl<T> Default for AvrAtomic<T> {
    fn default() -> Self {
        Self::new()
    }
}

} // verus!
