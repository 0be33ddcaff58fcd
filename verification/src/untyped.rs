//! Untyped constant values: fixed-width values able to represent any
//! WebAssembly numeric value by reinterpretation of its bit pattern.

use vstd::prelude::*;

verus! {

/// An untyped fixed-width value, stored once per distinct bit pattern in
/// the constant pool.
///
/// Encoding into and out of the 64-bit pattern follows `wasmi_core`'s raw
/// value representation, so a constant built here matches the one the
/// interpreter reads back.
#[derive(Debug, Copy, Clone, PartialEq, Eq, Structural)]
pub struct UntypedValue {
    bits: u64,
}

impl View for UntypedValue {
    type V = u64;

    closed spec fn view(&self) -> u64 {
        self.bits
    }
}

/// Relies on `wasmi_core::RawVal::from(i32)` and `RawVal::to_bits64`: an
/// `i32` is encoded as its 32-bit two's-complement pattern, zero-extended
/// to 64 bits.
#[verifier::external_body]
fn raw_bits_from_i32(value: i32) -> (r: u64)
    ensures
        r == value as u32 as u64,
{
    wasmi_core::RawVal::from(value).to_bits64()
}

/// Relies on `wasmi_core::RawVal::from(i64)` and `RawVal::to_bits64`: an
/// `i64` is encoded as its 64-bit two's-complement pattern.
#[verifier::external_body]
fn raw_bits_from_i64(value: i64) -> (r: u64)
    ensures
        r == value as u64,
{
    wasmi_core::RawVal::from(value).to_bits64()
}

/// Relies on `wasmi_core::RawVal::from(u32)` and `RawVal::to_bits64`: a
/// `u32` is encoded zero-extended to 64 bits.
#[verifier::external_body]
fn raw_bits_from_u32(value: u32) -> (r: u64)
    ensures
        r == value as u64,
{
    wasmi_core::RawVal::from(value).to_bits64()
}

/// Relies on `wasmi_core::RawVal::from(u64)` and `RawVal::to_bits64`: a
/// `u64` is encoded as itself.
#[verifier::external_body]
fn raw_bits_from_u64(value: u64) -> (r: u64)
    ensures
        r == value,
{
    wasmi_core::RawVal::from(value).to_bits64()
}

/// Relies on `wasmi_core::RawVal::from(bool)` and `RawVal::to_bits64`:
/// `false` is encoded as 0 and `true` as 1.
#[verifier::external_body]
fn raw_bits_from_bool(value: bool) -> (r: u64)
    ensures
        r == if value { 1u64 } else { 0u64 },
{
    wasmi_core::RawVal::from(value).to_bits64()
}

/// An untyped value is nothing but its bit pattern: two values with the
/// same pattern are the same value. This is what lets a caller conclude
/// that two equal constants, however they were encoded, share one slot in
/// the constant pool.
pub proof fn lemma_untyped_value_injective(a: UntypedValue, b: UntypedValue)
    requires
        a@ == b@,
    ensures
        a == b,
{
}

impl UntypedValue {
    /// Creates an untyped value directly from its 64-bit pattern.
    pub fn from_bits(bits: u64) -> (r: Self)
        ensures
            r@ == bits,
    {
        Self { bits }
    }

    /// Returns the underlying 64-bit pattern.
    pub fn to_bits(self) -> (r: u64)
        ensures
            r == self@,
    {
        self.bits
    }

    /// Creates an untyped value from an `i32`: its two's-complement
    /// pattern, zero-extended.
    pub fn from_i32(value: i32) -> (r: Self)
        ensures
            r@ == value as u32 as u64,
    {
        Self { bits: raw_bits_from_i32(value) }
    }

    /// Creates an untyped value from an `i64`: its two's-complement
    /// pattern.
    pub fn from_i64(value: i64) -> (r: Self)
        ensures
            r@ == value as u64,
    {
        Self { bits: raw_bits_from_i64(value) }
    }

    /// Creates an untyped value from a `u32`, zero-extended.
    pub fn from_u32(value: u32) -> (r: Self)
        ensures
            r@ == value as u64,
    {
        Self { bits: raw_bits_from_u32(value) }
    }

    /// Creates an untyped value from a `u64`.
    pub fn from_u64(value: u64) -> (r: Self)
        ensures
            r@ == value,
    {
        Self { bits: raw_bits_from_u64(value) }
    }

    /// Creates an untyped value from a `bool`: 0 for `false`, 1 for `true`.
    pub fn from_bool(value: bool) -> (r: Self)
        ensures
            r@ == if value { 1u64 } else { 0u64 },
    {
        Self { bits: raw_bits_from_bool(value) }
    }
}

} // verus!
