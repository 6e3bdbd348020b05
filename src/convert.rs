use vstd::prelude::*;

verus! {

/// Conversion of a value to and from the raw byte that an atomic cell stores.
///
/// `to_u8` must give a byte that `from_u8` turns back into the same value,
/// and `from_u8` must give a valid value for every byte that `to_u8` gives
/// and for the zero byte, which a cell holds before anything is stored in it.
/// An impl written in Verus states both maps by overriding `spec_from_u8`
/// and `spec_to_u8`, and proves the round trip in `to_u8`.
///
/// The two spec functions have placeholder bodies only so that a type whose
/// impl is written in plain Rust, outside Verus, needs to supply nothing but
/// `from_u8` and `to_u8`: a spec function without a body would be a required
/// item of the compiled trait. The placeholders are closed, so no proof about
/// a generic `T` can rely on them; every impl in this crate overrides both.
/// An impl written outside Verus gets no checked guarantee: nothing proves
/// its round trip, and its author alone must see that it holds.
pub trait AvrAtomicConvert: Copy + Sized {
    /// The value that the byte `value` decodes to.
    closed spec fn spec_from_u8(value: u8) -> Self {
        arbitrary()
    }

    /// The byte that encodes `self`.
    closed spec fn spec_to_u8(self) -> u8 {
        arbitrary()
    }

    /// Convert from `u8` to `Self`.
    fn from_u8(value: u8) -> (r: Self)
        ensures
            r == Self::spec_from_u8(value),
    ;

    /// Convert from `Self` to `u8`; decoding the result gives `self` back.
    fn to_u8(self) -> (r: u8)
        ensures
            r == self.spec_to_u8(),
            Self::spec_from_u8(r) == self,
    ;
}

impl AvrAtomicConvert for u8 {
    open spec fn spec_from_u8(value: u8) -> u8 {
        value
    }

    open spec fn spec_to_u8(self) -> u8 {
        self
    }

    fn from_u8(value: u8) -> (r: u8) {
        value
    }

    fn to_u8(self) -> (r: u8) {
        self
    }
}

/// Two's-complement reinterpretation: the byte keeps its bit pattern.
impl AvrAtomicConvert for i8 {
    open spec fn spec_from_u8(value: u8) -> i8 {
        if value < 128 {
            value as i8
        } else {
            (value - 256) as i8
        }
    }

    open spec fn spec_to_u8(self) -> u8 {
        if self >= 0 {
            self as u8
        } else {
            (self + 256) as u8
        }
    }

    fn from_u8(value: u8) -> (r: i8) {
        if value < 128 {
            value as i8
        } else {
            (value as i16 - 256) as i8
        }
    }

    fn to_u8(self) -> (r: u8) {
        if self >= 0 {
            self as u8
        } else {
            (self as i16 + 256) as u8
        }
    }
}

/// The zero byte is `false` and any other byte is `true`; `true` is stored as 1.
impl AvrAtomicConvert for bool {
    open spec fn spec_from_u8(value: u8) -> bool {
        value != 0
    }

    open spec fn spec_to_u8(self) -> u8 {
        if self {
            1
        } else {
            0
        }
    }

    fn from_u8(value: u8) -> (r: bool) {
        value != 0
    }

    fn to_u8(self) -> (r: u8) {
        self as u8
    }
}

/// Each built-in type decodes its own encoding back to the value it encoded:
/// unsigned bytes, signed bytes and booleans all survive a round trip.
pub proof fn lemma_round_trip_built_in(a: u8, b: i8, c: bool)
    ensures
        <u8 as AvrAtomicConvert>::spec_from_u8(a.spec_to_u8()) == a,
        <i8 as AvrAtomicConvert>::spec_from_u8(b.spec_to_u8()) == b,
        <bool as AvrAtomicConvert>::spec_from_u8(c.spec_to_u8()) == c,
{
}

/// The zero byte, which every cell holds before its first store, decodes to
/// `0` as an unsigned byte, to `0` as a signed byte and to `false`.
pub proof fn lemma_zero_decodes_to_default()
    ensures
        <u8 as AvrAtomicConvert>::spec_from_u8(0) == 0u8,
        <i8 as AvrAtomicConvert>::spec_from_u8(0) == 0i8,
        <bool as AvrAtomicConvert>::spec_from_u8(0) == false,
{
}

} // verus!
