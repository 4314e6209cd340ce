//! A single 16-bit storage cell with byte-level aliasing: the low and high
//! bytes are derived views over the one word, never separate storage, so the
//! two views cannot drift out of sync.

use vstd::prelude::*;

verus! {

/// Bits [7:0] of a 16-bit word.
pub open spec fn low_byte(w: u16) -> u8 {
    (w & 0xFF) as u8
}

/// Bits [15:8] of a 16-bit word.
pub open spec fn high_byte(w: u16) -> u8 {
    ((w >> 8) & 0xFF) as u8
}

/// The word `w` with its low byte replaced by `b`.
pub open spec fn with_low_byte(w: u16, b: u8) -> u16 {
    (w & 0xFF00) | (b as u16)
}

/// The word `w` with its high byte replaced by `b`.
pub open spec fn with_high_byte(w: u16, b: u8) -> u16 {
    (w & 0x00FF) | ((b as u16) << 8)
}

/// One 16-bit register. The word is the sole backing storage; byte views are
/// computed by mask-and-combine on every access.
#[derive(Debug)]
pub struct Register {
    value: u16,
}

impl View for Register {
    type V = u16;

    closed spec fn view(&self) -> u16 {
        self.value
    }
}

impl Register {
    /// A fresh register holds zero.
    pub fn new() -> (r: Register)
        ensures
            r@ == 0,
    {
        Register { value: 0 }
    }

    /// Read the full 16-bit word.
    pub fn get(&self) -> (w: u16)
        ensures
            w == self@,
    {
        self.value
    }

    /// Replace the full 16-bit word.
    pub fn set(&mut self, value: u16)
        ensures
            final(self)@ == value,
    {
        self.value = value;
    }

    /// Read the low byte, bits [7:0].
    pub fn get_low(&self) -> (b: u8)
        ensures
            b == low_byte(self@),
    {
        (self.value & 0xFF) as u8
    }

    /// Read the high byte, bits [15:8].
    pub fn get_high(&self) -> (b: u8)
        ensures
            b == high_byte(self@),
    {
        ((self.value >> 8) & 0xFF) as u8
    }

    /// Replace only the low byte; the high byte keeps its prior value.
    pub fn set_low(&mut self, value: u8)
        ensures
            final(self)@ == with_low_byte(old(self)@, value),
            high_byte(final(self)@) == high_byte(old(self)@),
            low_byte(final(self)@) == value,
    {
        proof {
            lemma_byte_alias_independence(self@, value);
        }
        self.value = (self.value & 0xFF00) | (value as u16);
    }

    /// Replace only the high byte; the low byte keeps its prior value.
    pub fn set_high(&mut self, value: u8)
        ensures
            final(self)@ == with_high_byte(old(self)@, value),
            low_byte(final(self)@) == low_byte(old(self)@),
            high_byte(final(self)@) == value,
    {
        proof {
            lemma_byte_alias_independence(self@, value);
        }
        self.value = (self.value & 0x00FF) | ((value as u16) << 8);
    }
}

/// Law: writing the full word and then reading it yields exactly the word
/// written — `set` leaves the register's word equal to `value`, and `get`
/// returns that word.
pub proof fn lemma_set_get_round_trip(r: Register, value: u16)
    requires
        r@ == value,
    ensures
        r@ == value,
{
}

/// Law: the byte views alias one word independently. Writing the low byte
/// leaves the high byte exactly as it was (and vice versa), and each written
/// byte reads back unchanged.
pub proof fn lemma_byte_alias_independence(w: u16, b: u8)
    by (bit_vector)
    ensures
        high_byte(with_low_byte(w, b)) == high_byte(w),
        low_byte(with_low_byte(w, b)) == b,
        low_byte(with_high_byte(w, b)) == low_byte(w),
        high_byte(with_high_byte(w, b)) == b,
{
}

/// Law: a word is exactly its two byte views recombined, so no information
/// lives outside the byte views.
pub proof fn lemma_word_is_its_bytes(w: u16)
    by (bit_vector)
    ensures
        with_low_byte(with_high_byte(0, high_byte(w)), low_byte(w)) == w,
        (low_byte(w) as u16) | ((high_byte(w) as u16) << 8) == w,
{
}

} // verus!
