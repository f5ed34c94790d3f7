//! A 24-bit unsigned integer stored as three little-endian bytes.

use vstd::prelude::*;
use vstd::arithmetic::div_mod::lemma_mod_breakdown;
use vstd::arithmetic::div_mod::lemma_div_denominator;
use vstd::arithmetic::div_mod::lemma_small_mod;

pub mod render;

verus! {

/// A 24-bit unsigned integer: three bytes of storage, little-endian,
/// holding a value in `[0, 16_777_215]`.
#[derive(PartialEq, Eq, Structural, Clone, Copy, Hash)]
#[allow(non_camel_case_types)]
pub struct u24 {
    lo: u8,
    mid: u8,
    hi: u8,
}

impl u24 {
    /// The numeric value held by the three bytes.
    pub closed spec fn value(self) -> nat {
        self.lo as nat + 256 * self.mid as nat + 65536 * self.hi as nat
    }

    /// The value that narrowing a natural number to three bytes produces:
    /// the low three bytes of `n`, little-endian.
    pub closed spec fn from_nat(n: nat) -> u24 {
        u24 { lo: (n % 256) as u8, mid: ((n / 256) % 256) as u8, hi: ((n / 65536) % 256) as u8 }
    }

    /// Every value fits in 24 bits.
    pub proof fn lemma_value_bounded(self)
        ensures
            self.value() <= 0xFFFFFF,
    {
    }

    /// Narrowing keeps exactly the value modulo 2^24.
    pub proof fn lemma_from_nat_value(n: nat)
        ensures
            Self::from_nat(n).value() == n % 0x1000000,
    {
        lemma_mod_breakdown(n as int, 256, 65536);
        lemma_mod_breakdown((n / 256) as int, 256, 256);
        lemma_div_denominator(n as int, 256, 256);
    }

    /// The bytes are a canonical encoding: a value determines its bytes.
    pub proof fn lemma_from_nat_of_value(self)
        ensures
            Self::from_nat(self.value()) == self,
    {
        let n = self.value();
        assert(n % 256 == self.lo) by {
            lemma_mod_breakdown(n as int, 256, 65536);
        }
        assert((n / 256) % 256 == self.mid && (n / 65536) % 256 == self.hi) by {
            lemma_mod_breakdown(n as int, 256, 65536);
            lemma_mod_breakdown((n / 256) as int, 256, 256);
            lemma_div_denominator(n as int, 256, 256);
            lemma_small_mod(self.mid as nat + 256 * self.hi as nat, 65536);
        }
    }

    /// The least representable value, 0.
    pub fn min_value() -> (r: Self)
        ensures
            r.value() == 0,
    {
        u24 { lo: 0x00, mid: 0x00, hi: 0x00 }
    }

    /// The greatest representable value, 16_777_215.
    pub fn max_value() -> (r: Self)
        ensures
            r.value() == 0xFFFFFF,
    {
        u24 { lo: 0xFF, mid: 0xFF, hi: 0xFF }
    }

    /// Widen to 32 bits; lossless, always succeeds.
    pub fn to_u32(self) -> (r: u32)
        ensures
            r == self.value(),
    {
        self.lo as u32 + 256 * (self.mid as u32) + 65536 * (self.hi as u32)
    }

    /// Widen to 64 bits; lossless, always succeeds.
    pub fn to_u64(self) -> (r: u64)
        ensures
            r == self.value(),
    {
        self.lo as u64 + 256 * (self.mid as u64) + 65536 * (self.hi as u64)
    }

    /// Widen to the pointer-sized integer; lossless, always succeeds.
    pub fn to_usize(self) -> (r: usize)
        ensures
            r == self.value(),
    {
        self.lo as usize + 256 * (self.mid as usize) + 65536 * (self.hi as usize)
    }
}

impl vstd::std_specs::convert::FromSpecImpl<u24> for u32 {
    open spec fn obeys_from_spec() -> bool {
        true
    }

    open spec fn from_spec(v: u24) -> u32 {
        v.value() as u32
    }
}

impl From<u24> for u32 {
    fn from(v: u24) -> (r: u32) {
        v.to_u32()
    }
}

impl vstd::std_specs::convert::FromSpecImpl<u24> for u64 {
    open spec fn obeys_from_spec() -> bool {
        true
    }

    open spec fn from_spec(v: u24) -> u64 {
        v.value() as u64
    }
}

impl From<u24> for u64 {
    fn from(v: u24) -> (r: u64) {
        v.to_u64()
    }
}

impl vstd::std_specs::convert::FromSpecImpl<u24> for usize {
    open spec fn obeys_from_spec() -> bool {
        true
    }

    open spec fn from_spec(v: u24) -> usize {
        v.value() as usize
    }
}

impl From<u24> for usize {
    fn from(v: u24) -> (r: usize) {
        v.to_usize()
    }
}

/// The single failure: a narrowing conversion was handed a value above
/// 16_777_215, whose bytes beyond the low three are not all zero.
#[derive(PartialEq, Eq, Structural, Clone, Copy)]
pub struct RangeViolation;

impl u24 {
    /// Narrow from 32 bits, keeping the low three bytes; the high byte is
    /// discarded. Callers that have not established the bound should use
    /// `try_from_u32`.
    pub fn truncating_from_u32(v: u32) -> (r: Self)
        ensures
            r == Self::from_nat(v as nat),
            r.value() == v % 0x1000000,
    {
        proof {
            Self::lemma_from_nat_value(v as nat);
        }
        u24 { lo: (v % 256) as u8, mid: ((v / 256) % 256) as u8, hi: ((v / 65536) % 256) as u8 }
    }

    /// Narrow from 64 bits, keeping the low three bytes; the five high
    /// bytes are discarded.
    pub fn truncating_from_u64(v: u64) -> (r: Self)
        ensures
            r == Self::from_nat(v as nat),
            r.value() == v % 0x1000000,
    {
        proof {
            Self::lemma_from_nat_value(v as nat);
        }
        u24 { lo: (v % 256) as u8, mid: ((v / 256) % 256) as u8, hi: ((v / 65536) % 256) as u8 }
    }

    /// Narrow from the pointer-sized integer, keeping the low three bytes;
    /// the high bytes are discarded.
    pub fn truncating_from_usize(v: usize) -> (r: Self)
        ensures
            r == Self::from_nat(v as nat),
            r.value() == v % 0x1000000,
    {
        proof {
            Self::lemma_from_nat_value(v as nat);
        }
        u24 { lo: (v % 256) as u8, mid: ((v / 256) % 256) as u8, hi: ((v / 65536) % 256) as u8 }
    }

    /// The textual form, for display and debugging alike: the decimal
    /// string of the value, with no padding, sign or base prefix.
    pub fn to_decimal_string(self) -> (r: String)
        ensures
            r@ == crate::render::decimal_digits(self.value()),
    {
        crate::render::u32_to_decimal(self.to_u32())
    }

    /// Assemble a value from its three little-endian bytes.
    pub fn from_le_bytes(bytes: [u8; 3]) -> (r: Self)
        ensures
            r.value() == bytes[0] as nat + 256 * bytes[1] as nat + 65536 * bytes[2] as nat,
    {
        u24 { lo: bytes[0], mid: bytes[1], hi: bytes[2] }
    }

    /// The three stored bytes, little-endian: byte 0 is bits 0-7, byte 1
    /// is bits 8-15, byte 2 is bits 16-23.
    pub fn to_le_bytes(self) -> (r: [u8; 3])
        ensures
            r[0] as nat == self.value() % 256,
            r[1] as nat == (self.value() / 256) % 256,
            r[2] as nat == (self.value() / 65536) % 256,
    {
        proof {
            self.lemma_from_nat_of_value();
        }
        [self.lo, self.mid, self.hi]
    }

    /// Checked narrowing from 32 bits: succeeds exactly on values up to
    /// 16_777_215, and then round-trips.
    pub fn try_from_u32(v: u32) -> (r: Result<Self, RangeViolation>)
        ensures
            v <= 0xFFFFFF <==> r is Ok,
            r matches Ok(w) ==> w == Self::from_nat(v as nat) && w.value() == v,
    {
        if v <= 0xFFFFFF {
            let w = Self::truncating_from_u32(v);
            Ok(w)
        } else {
            Err(RangeViolation)
        }
    }

    /// Checked narrowing from 64 bits: succeeds exactly on values up to
    /// 16_777_215, and then round-trips.
    pub fn try_from_u64(v: u64) -> (r: Result<Self, RangeViolation>)
        ensures
            v <= 0xFFFFFF <==> r is Ok,
            r matches Ok(w) ==> w == Self::from_nat(v as nat) && w.value() == v,
    {
        if v <= 0xFFFFFF {
            let w = Self::truncating_from_u64(v);
            Ok(w)
        } else {
            Err(RangeViolation)
        }
    }

    /// Checked narrowing from the pointer-sized integer: succeeds exactly
    /// on values up to 16_777_215, and then round-trips.
    pub fn try_from_usize(v: usize) -> (r: Result<Self, RangeViolation>)
        ensures
            v <= 0xFFFFFF <==> r is Ok,
            r matches Ok(w) ==> w == Self::from_nat(v as nat) && w.value() == v,
    {
        if v <= 0xFFFFFF {
            let w = Self::truncating_from_usize(v);
            Ok(w)
        } else {
            Err(RangeViolation)
        }
    }
}

impl vstd::std_specs::convert::FromSpecImpl<u32> for u24 {
    open spec fn obeys_from_spec() -> bool {
        true
    }

    open spec fn from_spec(v: u32) -> u24 {
        u24::from_nat(v as nat)
    }
}

/// The default conversion is the unchecked, truncating one.
impl From<u32> for u24 {
    fn from(v: u32) -> (r: u24) {
        u24::truncating_from_u32(v)
    }
}

impl vstd::std_specs::convert::FromSpecImpl<u64> for u24 {
    open spec fn obeys_from_spec() -> bool {
        true
    }

    open spec fn from_spec(v: u64) -> u24 {
        u24::from_nat(v as nat)
    }
}

/// The default conversion is the unchecked, truncating one.
impl From<u64> for u24 {
    fn from(v: u64) -> (r: u24) {
        u24::truncating_from_u64(v)
    }
}

impl vstd::std_specs::convert::FromSpecImpl<usize> for u24 {
    open spec fn obeys_from_spec() -> bool {
        true
    }

    open spec fn from_spec(v: usize) -> u24 {
        u24::from_nat(v as nat)
    }
}

/// The default conversion is the unchecked, truncating one.
impl From<usize> for u24 {
    fn from(v: usize) -> (r: u24) {
        u24::truncating_from_usize(v)
    }
}

/// Round trip through 32 bits: narrowing a 32-bit integer no greater than
/// 16_777_215 and widening the result gives the integer back.
pub proof fn lemma_round_trip_u32(x: u32)
    requires
        x <= 0xFFFFFF,
    ensures
        u24::from_nat(x as nat).value() == x,
{
    u24::lemma_from_nat_value(x as nat);
    lemma_small_mod(x as nat, 0x1000000);
}

/// Round trip through 64 bits: narrowing a 64-bit integer no greater than
/// 16_777_215 and widening the result gives the integer back.
pub proof fn lemma_round_trip_u64(x: u64)
    requires
        x <= 0xFFFFFF,
    ensures
        u24::from_nat(x as nat).value() == x,
{
    u24::lemma_from_nat_value(x as nat);
    lemma_small_mod(x as nat, 0x1000000);
}

/// Round trip through the pointer-sized integer: narrowing one no greater
/// than 16_777_215 and widening the result gives the integer back.
pub proof fn lemma_round_trip_usize(x: usize)
    requires
        x <= 0xFFFFFF,
    ensures
        u24::from_nat(x as nat).value() == x,
{
    u24::lemma_from_nat_value(x as nat);
    lemma_small_mod(x as nat, 0x1000000);
}

/// Round trip the other way: widening a value and narrowing the result
/// gives the value back, byte for byte.
pub proof fn lemma_round_trip_value(v: u24)
    ensures
        u24::from_nat(v.value()) == v,
{
    v.lemma_from_nat_of_value();
}

/// Equality is value equality: two values are equal exactly when they
/// hold the same number, since the three-byte encoding is canonical.
pub proof fn lemma_eq_iff_value(a: u24, b: u24)
    ensures
        a == b <==> a.value() == b.value(),
{
    a.lemma_from_nat_of_value();
    b.lemma_from_nat_of_value();
}

} // verus!
