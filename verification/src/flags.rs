//! The accessor set generated for a one-byte example record:
//!
//! ```text
//! struct MyFlags {
//!     flag_0: bool,
//!     flag_1: bool,
//!     flag_2: bool,
//!     flag_3: bool,
//!     flag_4: u3,
//!     flag_5: bool,
//! }
//! ```
//!
//! Six fields, 8 bits in total, packed into a `u8` container: four boolean
//! flags in bits 0..4, a three-bit numeric field in bits 4..7, and one more
//! boolean flag in bit 7.

use vstd::prelude::*;

verus! {

/// A one-byte packed record; the `u8` is the container and only state.
pub struct MyFlags(pub u8);

impl MyFlags {
    /// All-ones pattern of the 8-bit container.
    pub const ALL_ONES: u8 = 0b11111111;

    /// Mask of the boolean field `flag_0` (bit 0).
    pub const FLAG_0: u8 = 0b00000001;

    /// Mask of the boolean field `flag_1` (bit 1).
    pub const FLAG_1: u8 = 0b00000010;

    /// Mask of the boolean field `flag_2` (bit 2).
    pub const FLAG_2: u8 = 0b00000100;

    /// Mask of the boolean field `flag_3` (bit 3).
    pub const FLAG_3: u8 = 0b00001000;

    /// Mask of the three-bit field `flag_4` (bits 4..7).
    pub const FLAG_4: u8 = 0b01110000;

    /// Mask of the boolean field `flag_5` (bit 7).
    pub const FLAG_5: u8 = 0b10000000;

    /// Bit offset of `flag_4`.
    pub const FLAG_4_START: u8 = 4;

    /// Bit width of `flag_4`.
    pub const FLAG_4_SIZE: u8 = 3;

    /// Reads the boolean field at bit 0.
    pub fn flag_0(&self) -> (r: bool)
        ensures
            r <==> self.0 & 1 == 1,
    {
        self.0 & 1 == 1
    }

    /// Reads the boolean field at bit 1.
    pub fn flag_1(&self) -> (r: bool)
        ensures
            r <==> (self.0 >> 1) & 1 == 1,
    {
        (self.0 >> 1) & 1 == 1
    }

    /// Reads the boolean field at bit 2.
    pub fn flag_2(&self) -> (r: bool)
        ensures
            r <==> (self.0 >> 2) & 1 == 1,
    {
        (self.0 >> 2) & 1 == 1
    }

    /// Reads the boolean field at bit 3.
    pub fn flag_3(&self) -> (r: bool)
        ensures
            r <==> (self.0 >> 3) & 1 == 1,
    {
        (self.0 >> 3) & 1 == 1
    }

    /// Reads the three-bit numeric field at bits 4..7: the container shifted
    /// down by the field's offset, masked to the field's width. The result
    /// is always below `2^3`.
    pub fn flag_4(&self) -> (r: u8)
        ensures
            r == (self.0 >> 4) & 7,
            r < 8,
    {
        let r = (self.0 >> Self::FLAG_4_START) & (Self::ALL_ONES >> (8 - Self::FLAG_4_SIZE));
        proof {
            let v = self.0;
            assert((v >> 4) & (0xffu8 >> 5) == (v >> 4) & 7 && (v >> 4) & 7 < 8) by (bit_vector);
        }
        r
    }

    /// Reads the boolean field at bit 7.
    pub fn flag_5(&self) -> (r: bool)
        ensures
            r <==> (self.0 >> 7) & 1 == 1,
    {
        (self.0 >> 7) & 1 == 1
    }

    /// Sets `flag_0` to 1 by OR-ing its mask in; every other field keeps its
    /// bits.
    pub fn set_flag_0(&mut self)
        ensures
            final(self).0 == old(self).0 | Self::FLAG_0,
            final(self).0 & 1 == 1,
            final(self).0 & (Self::ALL_ONES ^ Self::FLAG_0) == old(self).0 & (Self::ALL_ONES
                ^ Self::FLAG_0),
    {
        self.0 = self.0 | Self::FLAG_0;
        proof {
            let v = old(self).0;
            assert((v | 1) & 1 == 1 && (v | 1) & (0xffu8 ^ 1) == v & (0xffu8 ^ 1)) by (bit_vector);
        }
    }

    /// Clears `flag_0` to 0 by AND-ing the complement of its mask, leaving
    /// every other field unchanged. (AND-ing the mask itself instead would
    /// keep this bit and zero every other field.)
    pub fn unset_flag_0(&mut self)
        ensures
            final(self).0 == old(self).0 & (Self::ALL_ONES ^ Self::FLAG_0),
            final(self).0 & 1 == 0,
            final(self).0 & (Self::ALL_ONES ^ Self::FLAG_0) == old(self).0 & (Self::ALL_ONES
                ^ Self::FLAG_0),
    {
        self.0 = self.0 & (Self::ALL_ONES ^ Self::FLAG_0);
        proof {
            let v = old(self).0;
            assert((v & (0xffu8 ^ 1)) & 1 == 0 && (v & (0xffu8 ^ 1)) & (0xffu8 ^ 1) == v & (0xffu8
                ^ 1)) by (bit_vector);
        }
    }

    /// Toggles `flag_0` by XOR-ing its mask: exactly bit 0 flips, so two
    /// toggles restore the record value exactly.
    pub fn toggle_flag_0(&mut self)
        ensures
            final(self).0 == old(self).0 ^ Self::FLAG_0,
            final(self).0 & 1 != old(self).0 & 1,
            final(self).0 & (Self::ALL_ONES ^ Self::FLAG_0) == old(self).0 & (Self::ALL_ONES
                ^ Self::FLAG_0),
    {
        self.0 = self.0 ^ Self::FLAG_0;
        proof {
            let v = old(self).0;
            assert((v ^ 1) & 1 != v & 1 && (v ^ 1) & (0xffu8 ^ 1) == v & (0xffu8 ^ 1))
                by (bit_vector);
        }
    }

    /// Writes the three-bit field `flag_4`: `value` is silently reduced
    /// modulo `2^3` (never an error), the field's bits are cleared, and the
    /// reduced value is written in place; bits outside the field keep their
    /// values.
    pub fn set_flag_4(&mut self, value: u8)
        ensures
            final(self).0 == (old(self).0 & (Self::ALL_ONES ^ Self::FLAG_4)) | ((value % 8) << 4),
            (final(self).0 >> 4) & 7 == value % 8,
            final(self).0 & (Self::ALL_ONES ^ Self::FLAG_4) == old(self).0 & (Self::ALL_ONES
                ^ Self::FLAG_4),
    {
        let mut value = value;
        if value >= 8 {
            value = value % 8;
        }
        let mask = Self::ALL_ONES ^ Self::FLAG_4;
        self.0 = (self.0 & mask) | (value << Self::FLAG_4_START);
        proof {
            let v = old(self).0;
            let x = value;
            assert({
                let w = (v & (0xffu8 ^ 0x70)) | (x << 4);
                x < 8 ==> ((w >> 4) & 7 == x && w & (0xffu8 ^ 0x70) == v & (0xffu8 ^ 0x70))
            }) by (bit_vector);
        }
    }
}

} // verus!
