//! Record instances: a single container value interpreted through a compiled
//! layout, with the accessor operations generated for every field — read and
//! set for multi-bit fields, read, set, unset and toggle for single-bit
//! (boolean) fields.

use vstd::prelude::*;
use crate::bitops::{
    ones, mask_bits, field_get, field_set, wrap_to_width, all_ones, lemma_set_in_container,
    lemma_set_then_get, lemma_set_frame, lemma_mask_in_container, lemma_bit_ops_in_container,
    lemma_bit_set_get, lemma_bit_unset_get, lemma_bit_toggle_get, lemma_bit_op_frame,
};
use crate::layout::RecordLayout;

verus! {

/// One record instance: the container value is the only runtime state, and
/// the layout says which bits belong to which field.
pub struct Record {
    pub layout: RecordLayout,
    pub value: u128,
}

impl Record {
    /// Well-formedness: the layout is well-formed and no bit above the
    /// container width is set in the value.
    pub open spec fn wf(self) -> bool {
        &&& self.layout.wf()
        &&& self.value & ones(self.layout.container_width as u128) == self.value
    }

    /// The value field `i` holds in this record.
    pub open spec fn read_field(self, i: int) -> u128
        recommends
            0 <= i < self.layout.fields@.len(),
    {
        field_get(
            self.value,
            self.layout.fields@[i].start as u128,
            self.layout.fields@[i].size as u128,
        )
    }

    /// Wraps a container value under a compiled layout.
    pub fn new(layout: RecordLayout, value: u128) -> (r: Record)
        requires
            layout.wf(),
            value & ones(layout.container_width as u128) == value,
        ensures
            r.wf(),
            r.layout == layout,
            r.value == value,
    {
        Record { layout, value }
    }

    /// Reads a multi-bit field: the field's bits, shifted down to the low
    /// end of the word. The result always fits in the field's width.
    pub fn get(&self, i: usize) -> (r: u128)
        requires
            self.wf(),
            i < self.layout.fields@.len(),
            self.layout.fields@[i as int].size >= 2,
        ensures
            r == self.read_field(i as int),
            r <= ones(self.layout.fields@[i as int].size as u128),
    {
        let start = self.layout.fields[i].start;
        let size = self.layout.fields[i].size;
        let r = (self.value >> (start as u128)) & all_ones(size);
        proof {
            crate::bitops::lemma_get_in_range(self.value, start as u128, size as u128);
        }
        r
    }

    /// Writes a multi-bit field: `x` is silently reduced modulo `2^size`,
    /// the field's old bits are cleared, and the reduced value is written in
    /// place — never an error. Every other field keeps its value.
    pub fn set(&mut self, i: usize, x: u128)
        requires
            old(self).wf(),
            i < old(self).layout.fields@.len(),
            old(self).layout.fields@[i as int].size >= 2,
        ensures
            final(self).wf(),
            final(self).layout == old(self).layout,
            final(self).value == field_set(
                old(self).value,
                old(self).layout.fields@[i as int].start as u128,
                old(self).layout.fields@[i as int].size as u128,
                old(self).layout.container_width as u128,
                x,
            ),
            final(self).read_field(i as int) == wrap_to_width(
                x,
                old(self).layout.fields@[i as int].size as u128,
            ),
            x <= ones(old(self).layout.fields@[i as int].size as u128)
                ==> final(self).read_field(i as int) == x,
            forall|j: int|
                0 <= j < old(self).layout.fields@.len() && j != i ==> final(self).read_field(j)
                    == old(self).read_field(j),
    {
        let start = self.layout.fields[i].start;
        let size = self.layout.fields[i].size;
        let mask = self.layout.fields[i].mask;
        let cw = self.layout.container_width;
        let reduced = x & all_ones(size);
        let clear = all_ones(cw) ^ mask;
        let ghost old_value = self.value;
        self.value = (self.value & clear) | (reduced << (start as u128));
        proof {
            let s = start as u128;
            let z = size as u128;
            let cb = cw as u128;
            lemma_set_in_container(old_value, s, z, cb, x);
            lemma_set_then_get(old_value, s, z, cb, x);
            let fs = self.layout.fields@;
            assert forall|j: int| 0 <= j < fs.len() && j != i implies field_get(
                self.value,
                fs[j].start as u128,
                fs[j].size as u128,
            ) == field_get(old_value, fs[j].start as u128, fs[j].size as u128) by {
                lemma_set_frame(old_value, s, z, cb, x, fs[j].start as u128, fs[j].size as u128);
            }
        }
    }

    /// Reads a single-bit (boolean) field.
    pub fn get_bit(&self, i: usize) -> (r: bool)
        requires
            self.wf(),
            i < self.layout.fields@.len(),
            self.layout.fields@[i as int].size == 1,
        ensures
            r == (self.read_field(i as int) == 1),
    {
        let start = self.layout.fields[i].start;
        proof {
            assert(ones(1) == 1) by (bit_vector);
        }
        (self.value >> (start as u128)) & 1 == 1
    }

    /// Sets a single-bit field to 1 by OR-ing the field's mask in. Always
    /// succeeds; every other field keeps its value.
    pub fn set_bit(&mut self, i: usize)
        requires
            old(self).wf(),
            i < old(self).layout.fields@.len(),
            old(self).layout.fields@[i as int].size == 1,
        ensures
            final(self).wf(),
            final(self).layout == old(self).layout,
            final(self).value == old(self).value | old(self).layout.fields@[i as int].mask,
            final(self).read_field(i as int) == 1,
            forall|j: int|
                0 <= j < old(self).layout.fields@.len() && j != i ==> final(self).read_field(j)
                    == old(self).read_field(j),
    {
        let mask = self.layout.fields[i].mask;
        let ghost old_value = self.value;
        self.value = self.value | mask;
        proof {
            self.lemma_bit_op(old_value, i as int);
        }
    }

    /// Clears a single-bit field to 0 by AND-ing the complement of the
    /// field's mask, leaving every other field unchanged.
    pub fn unset_bit(&mut self, i: usize)
        requires
            old(self).wf(),
            i < old(self).layout.fields@.len(),
            old(self).layout.fields@[i as int].size == 1,
        ensures
            final(self).wf(),
            final(self).layout == old(self).layout,
            final(self).value == old(self).value & (ones(
                old(self).layout.container_width as u128,
            ) ^ old(self).layout.fields@[i as int].mask),
            final(self).read_field(i as int) == 0,
            forall|j: int|
                0 <= j < old(self).layout.fields@.len() && j != i ==> final(self).read_field(j)
                    == old(self).read_field(j),
    {
        let mask = self.layout.fields[i].mask;
        let cw = self.layout.container_width;
        let ghost old_value = self.value;
        self.value = self.value & (all_ones(cw) ^ mask);
        proof {
            self.lemma_bit_op(old_value, i as int);
        }
    }

    /// Toggles a single-bit field by XOR-ing the field's mask: exactly this
    /// field's bit flips. Toggling twice restores the record value exactly.
    pub fn toggle_bit(&mut self, i: usize)
        requires
            old(self).wf(),
            i < old(self).layout.fields@.len(),
            old(self).layout.fields@[i as int].size == 1,
        ensures
            final(self).wf(),
            final(self).layout == old(self).layout,
            final(self).value == old(self).value ^ old(self).layout.fields@[i as int].mask,
            final(self).read_field(i as int) == old(self).read_field(i as int) ^ 1,
            forall|j: int|
                0 <= j < old(self).layout.fields@.len() && j != i ==> final(self).read_field(j)
                    == old(self).read_field(j),
    {
        let mask = self.layout.fields[i].mask;
        let ghost old_value = self.value;
        self.value = self.value ^ mask;
        proof {
            self.lemma_bit_op(old_value, i as int);
        }
    }

    /// Shared proof for the three single-bit operations: the result stays
    /// within the container, the touched field reads as expected, and all
    /// other fields are unchanged.
    proof fn lemma_bit_op(&self, old_value: u128, i: int)
        requires
            self.layout.wf(),
            0 <= i < self.layout.fields@.len(),
            self.layout.fields@[i].size == 1,
            old_value & ones(self.layout.container_width as u128) == old_value,
            self.value == old_value | self.layout.fields@[i].mask || self.value == old_value & (
            ones(self.layout.container_width as u128) ^ self.layout.fields@[i].mask) || self.value
                == old_value ^ self.layout.fields@[i].mask,
        ensures
            self.value & ones(self.layout.container_width as u128) == self.value,
            self.value == old_value | self.layout.fields@[i].mask ==> self.read_field(i) == 1,
            self.value == old_value & (ones(self.layout.container_width as u128)
                ^ self.layout.fields@[i].mask) ==> self.read_field(i) == 0,
            self.value == old_value ^ self.layout.fields@[i].mask ==> self.read_field(i)
                == field_get(
                old_value,
                self.layout.fields@[i].start as u128,
                self.layout.fields@[i].size as u128,
            ) ^ 1,
            forall|j: int|
                0 <= j < self.layout.fields@.len() && j != i ==> self.read_field(j) == field_get(
                    old_value,
                    self.layout.fields@[j].start as u128,
                    self.layout.fields@[j].size as u128,
                ),
    {
        let s = self.layout.fields@[i].start as u128;
        let cb = self.layout.container_width as u128;
        lemma_mask_in_container(s, 1, cb);
        lemma_bit_ops_in_container(old_value, mask_bits(s, 1), cb);
        lemma_bit_set_get(old_value, s, cb);
        lemma_bit_unset_get(old_value, s, cb);
        lemma_bit_toggle_get(old_value, s, cb);
        let fs = self.layout.fields@;
        assert forall|j: int| 0 <= j < fs.len() && j != i implies self.read_field(j) == field_get(
            old_value,
            fs[j].start as u128,
            fs[j].size as u128,
        ) by {
            lemma_bit_op_frame(old_value, s, cb, fs[j].start as u128, fs[j].size as u128);
        }
    }
}

} // verus!
