//! Layout compilation: an ordered list of field declarations is packed
//! contiguously from bit 0, the smallest standard container width is selected,
//! and a bitmask is derived for every field.

use vstd::prelude::*;
use crate::bitops::{
    ones, mask_bits, count_ones, lemma_count_ones_all, lemma_mask_union_extend,
    lemma_masks_disjoint,
};

verus! {

/// An error raised while compiling a record layout from its declaration.
#[derive(Debug, Clone, Copy, PartialEq, Eq, Structural)]
pub enum LayoutError {
    /// The field widths sum to more than 128 bits, so no standard unsigned
    /// integer primitive can act as the container.
    LayoutTooLarge,
    /// The field at `field_index` declares a type that is neither `bool` nor
    /// a well-formed `u{N}`.
    MalformedDeclaration { field_index: usize },
}

/// The standard container widths: those of the unsigned integer primitives.
pub open spec fn is_container_width(w: int) -> bool {
    w == 8 || w == 16 || w == 32 || w == 64 || w == 128
}

/// The smallest standard container width holding `total_bits` bits.
pub open spec fn container_width_for(total_bits: int) -> int
    recommends
        0 <= total_bits <= 128,
{
    if total_bits <= 8 {
        8
    } else if total_bits <= 16 {
        16
    } else if total_bits <= 32 {
        32
    } else if total_bits <= 64 {
        64
    } else {
        128
    }
}

/// Selects the smallest standard container width (8, 16, 32, 64 or 128 bits)
/// that can hold `total_bits` bits, and fails with `LayoutTooLarge` when even
/// the widest primitive cannot.
pub fn container_size_bits(total_bits: usize) -> (r: Result<usize, LayoutError>)
    ensures
        r is Ok <==> total_bits <= 128,
        total_bits <= 128 ==> {
            let w = r->Ok_0;
            &&& w == container_width_for(total_bits as int)
            &&& is_container_width(w as int)
            &&& total_bits <= w
            &&& forall|c: int| is_container_width(c) && total_bits <= c ==> w <= c
        },
        total_bits > 128 ==> r == Err::<usize, LayoutError>(LayoutError::LayoutTooLarge),
{
    if total_bits <= 8 {
        Ok(8)
    } else if total_bits <= 16 {
        Ok(16)
    } else if total_bits <= 32 {
        Ok(32)
    } else if total_bits <= 64 {
        Ok(64)
    } else if total_bits <= 128 {
        Ok(128)
    } else {
        Err(LayoutError::LayoutTooLarge)
    }
}

/// One declared field, before layout: its name and its width in bits.
/// A `bool` field is one bit wide; a `u{N}` field is `N` bits wide.
pub struct FieldDecl {
    pub name: String,
    pub width: usize,
}

/// One laid-out field: a contiguous bit range `[start, start + size)` within
/// the container, counted from the least significant bit, together with the
/// derived container-wide mask that has 1s exactly at those positions.
pub struct FieldSpec {
    pub name: String,
    pub start: usize,
    pub size: usize,
    pub mask: u128,
}

/// The sum of the declared field widths.
pub open spec fn total_width_of(decls: Seq<FieldDecl>) -> int
    decreases decls.len(),
{
    if decls.len() == 0 {
        0
    } else {
        total_width_of(decls.drop_last()) + decls.last().width
    }
}

/// A compiled record layout: the ordered fields, their total width in bits,
/// and the selected container width.
pub struct RecordLayout {
    pub fields: Vec<FieldSpec>,
    pub total_width: usize,
    pub container_width: usize,
}

impl RecordLayout {
    /// Well-formedness: fields are packed contiguously from bit 0 in
    /// declaration order, with no gaps and no overlaps; every mask matches
    /// its field's bit range; and the container is the smallest standard
    /// width that holds the total.
    pub open spec fn wf(self) -> bool {
        let n = self.fields@.len() as int;
        &&& self.total_width <= 128
        &&& self.total_width <= self.container_width
        &&& self.container_width == container_width_for(self.total_width as int)
        &&& (n == 0 ==> self.total_width == 0)
        &&& (n > 0 ==> self.fields@[0].start == 0)
        &&& (n > 0 ==> self.fields@[n - 1].start + self.fields@[n - 1].size == self.total_width)
        &&& (forall|i: int|
            #![trigger self.fields@[i]]
            0 <= i < n ==> self.fields@[i].start + self.fields@[i].size <= self.total_width)
        &&& (forall|i: int|
            #![trigger self.fields@[i]]
            0 <= i < n ==> self.fields@[i].mask == mask_bits(
                self.fields@[i].start as u128,
                self.fields@[i].size as u128,
            ))
        &&& (forall|i: int|
            #![trigger self.fields@[i]]
            0 <= i && i + 1 < n ==> self.fields@[i].start + self.fields@[i].size
                == self.fields@[i + 1].start)
        &&& (forall|i: int, j: int|
            #![trigger self.fields@[i], self.fields@[j]]
            0 <= i < j < n ==> self.fields@[i].start + self.fields@[i].size
                <= self.fields@[j].start)
    }

    /// Compiles the ordered declarations into a layout: field `i` starts at
    /// the sum of the widths of fields `0..i`, and generation fails with
    /// `LayoutTooLarge` exactly when the widths sum to more than 128 bits.
    #[verifier::rlimit(100)]
    pub fn new(decls: &Vec<FieldDecl>) -> (r: Result<RecordLayout, LayoutError>)
        ensures
            r is Ok <==> total_width_of(decls@) <= 128,
            r is Err ==> r == Err::<RecordLayout, LayoutError>(LayoutError::LayoutTooLarge),
            r matches Ok(layout) ==> {
                &&& layout.wf()
                &&& layout.fields@.len() == decls@.len()
                &&& layout.total_width == total_width_of(decls@)
                &&& forall|i: int|
                    #![trigger layout.fields@[i]]
                    0 <= i < decls@.len() ==> {
                        &&& layout.fields@[i].name@ == decls@[i].name@
                        &&& layout.fields@[i].size == decls@[i].width
                        &&& layout.fields@[i].start == total_width_of(decls@.take(i))
                    }
            },
    {
        let total = match checked_total_width(decls) {
            Ok(t) => t,
            Err(e) => { return Err(e) },
        };
        let container_width = match container_size_bits(total) {
            Ok(w) => w,
            Err(e) => { return Err(e) },
        };
        let mut fields: Vec<FieldSpec> = Vec::new();
        let mut start: usize = 0;
        let mut idx: usize = 0;
        while idx < decls.len()
            invariant
                idx <= decls@.len(),
                total == total_width_of(decls@),
                total <= 128,
                start == total_width_of(decls@.take(idx as int)),
                start <= total,
                fields@.len() == idx,
                forall|i: int|
                    #![trigger fields@[i]]
                    0 <= i < idx ==> fields@[i].name@ == decls@[i].name@,
                forall|i: int|
                    #![trigger fields@[i]]
                    0 <= i < idx ==> fields@[i].size == decls@[i].width,
                forall|i: int|
                    #![trigger fields@[i]]
                    0 <= i < idx ==> fields@[i].start == total_width_of(decls@.take(i)),
                forall|i: int|
                    #![trigger fields@[i]]
                    0 <= i < idx ==> fields@[i].start + fields@[i].size <= start,
                forall|i: int|
                    #![trigger fields@[i]]
                    0 <= i < idx ==> fields@[i].mask == mask_bits(
                        fields@[i].start as u128,
                        fields@[i].size as u128,
                    ),
                forall|i: int|
                    #![trigger fields@[i]]
                    0 <= i && i + 1 < idx ==> fields@[i].start + fields@[i].size == fields@[
                        i + 1
                    ].start,
                forall|i: int, j: int|
                    #![trigger fields@[i], fields@[j]]
                    0 <= i < j < idx ==> fields@[i].start + fields@[i].size <= fields@[j].start,
                idx > 0 ==> fields@[0].start == 0,
                idx > 0 ==> fields@[idx - 1].start + fields@[idx - 1].size == start,
            decreases decls@.len() - idx,
        {
            proof {
                assert(decls@.take(idx as int + 1).drop_last() =~= decls@.take(idx as int));
                lemma_total_width_prefix_le(decls@, idx as int + 1);
            }
            let width = decls[idx].width;
            let mask = mask_value(start, width);
            let name = decls[idx].name.clone();
            fields.push(FieldSpec { name, start, size: width, mask });
            start = start + width;
            idx = idx + 1;
        }
        proof {
            assert(decls@.take(idx as int) =~= decls@);
        }
        Ok(RecordLayout { fields, total_width: total, container_width })
    }
}

/// Sums the declared field widths, failing with `LayoutTooLarge` as soon as
/// the sum passes 128 bits.
pub fn checked_total_width(decls: &Vec<FieldDecl>) -> (r: Result<usize, LayoutError>)
    ensures
        r is Ok <==> total_width_of(decls@) <= 128,
        r matches Ok(t) ==> t == total_width_of(decls@),
        r is Err ==> r == Err::<usize, LayoutError>(LayoutError::LayoutTooLarge),
{
    let mut total: usize = 0;
    let mut idx: usize = 0;
    while idx < decls.len()
        invariant
            idx <= decls@.len(),
            total <= 128,
            total == total_width_of(decls@.take(idx as int)),
        decreases decls@.len() - idx,
    {
        proof {
            assert(decls@.take(idx as int + 1).drop_last() =~= decls@.take(idx as int));
        }
        let width = decls[idx].width;
        if width > 128 - total {
            proof {
                lemma_total_width_prefix_le(decls@, idx as int + 1);
            }
            return Err(LayoutError::LayoutTooLarge);
        }
        total = total + width;
        idx = idx + 1;
    }
    proof {
        assert(decls@.take(idx as int) =~= decls@);
    }
    Ok(total)
}

/// The width of a prefix of the declarations never exceeds the whole sum:
/// widths are non-negative.
proof fn lemma_total_width_prefix_le(decls: Seq<FieldDecl>, k: int)
    requires
        0 <= k <= decls.len(),
    ensures
        total_width_of(decls.take(k)) <= total_width_of(decls),
    decreases decls.len() - k,
{
    if k == decls.len() {
        assert(decls.take(k) =~= decls);
    } else {
        lemma_total_width_prefix_le(decls, k + 1);
        assert(decls.take(k + 1).drop_last() =~= decls.take(k));
        assert(total_width_of(decls.take(k)) <= total_width_of(decls.take(k + 1)));
    }
}

/// Computes the container-wide mask of a field at `[start, start + size)`.
pub fn mask_value(start: usize, size: usize) -> (r: u128)
    requires
        start + size <= 128,
    ensures
        r == mask_bits(start as u128, size as u128),
{
    if size == 0 {
        0
    } else {
        let low = crate::bitops::all_ones(size);
        low << (start as u128)
    }
}

/// Disjointness: the masks of two distinct fields of a well-formed layout
/// never share a bit.
pub proof fn lemma_layout_masks_disjoint(layout: RecordLayout, i: int, j: int)
    requires
        layout.wf(),
        0 <= i < layout.fields@.len(),
        0 <= j < layout.fields@.len(),
        i != j,
    ensures
        layout.fields@[i].mask & layout.fields@[j].mask == 0,
{
    let s1 = layout.fields@[i].start as u128;
    let z1 = layout.fields@[i].size as u128;
    let s2 = layout.fields@[j].start as u128;
    let z2 = layout.fields@[j].size as u128;
    if i < j {
        lemma_masks_disjoint(s1, z1, s2, z2);
    } else {
        lemma_masks_disjoint(s2, z2, s1, z1);
        assert(mask_bits(s1, z1) & mask_bits(s2, z2) == mask_bits(s2, z2) & mask_bits(s1, z1))
            by (bit_vector);
    }
}

/// The bitwise union of the masks of all the fields.
pub open spec fn masks_union(fields: Seq<FieldSpec>) -> u128
    decreases fields.len(),
{
    if fields.len() == 0 {
        0
    } else {
        masks_union(fields.drop_last()) | fields.last().mask
    }
}

/// Coverage for a prefix of the fields: their masks together cover exactly
/// the bits below the end of the prefix.
proof fn lemma_layout_prefix_cover(layout: RecordLayout, k: int)
    requires
        layout.wf(),
        0 <= k <= layout.fields@.len(),
    ensures
        masks_union(layout.fields@.take(k)) == ones(
            if k == 0 {
                0u128
            } else {
                (layout.fields@[k - 1].start + layout.fields@[k - 1].size) as u128
            },
        ),
    decreases k,
{
    if k == 0 {
        assert(ones(0) == 0) by (bit_vector);
    } else {
        lemma_layout_prefix_cover(layout, k - 1);
        assert(layout.fields@.take(k).drop_last() =~= layout.fields@.take(k - 1));
        assert(layout.fields@.take(k).last() == layout.fields@[k - 1]);
        let f = layout.fields@[k - 1];
        lemma_mask_union_extend(f.start as u128, f.size as u128);
    }
}

/// Coverage: the union of all field masks of a well-formed layout is exactly
/// the all-ones pattern of the record's total width, so it has exactly
/// `total_width` set bits.
pub proof fn lemma_layout_masks_cover(layout: RecordLayout)
    requires
        layout.wf(),
    ensures
        masks_union(layout.fields@) == ones(layout.total_width as u128),
        count_ones(masks_union(layout.fields@)) == layout.total_width,
{
    let n = layout.fields@.len() as int;
    lemma_layout_prefix_cover(layout, n);
    assert(layout.fields@.take(n) =~= layout.fields@);
    lemma_count_ones_all(layout.total_width as u128);
}

} // verus!
