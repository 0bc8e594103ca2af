//! The declaration front line: classifying a field's type token (`bool` or
//! `u{N}`) and turning an ordered list of `(name, type token)` pairs into
//! the field table that layout compilation consumes.

use vstd::prelude::*;
use crate::layout::{FieldDecl, LayoutError};

verus! {

/// Is `c` an ASCII decimal digit?
pub open spec fn is_ascii_digit(c: u8) -> bool {
    48 <= c <= 57
}

/// The token `bool`, as bytes.
pub open spec fn is_bool_token(s: Seq<u8>) -> bool {
    s.len() == 4 && s[0] == 98 && s[1] == 111 && s[2] == 111 && s[3] == 108
}

/// A `u{N}` token: a `u` followed by one or more decimal digits.
pub open spec fn is_uint_token(s: Seq<u8>) -> bool {
    s.len() >= 2 && s[0] == 117 && forall|i: int| 1 <= i < s.len() ==> is_ascii_digit(#[trigger] s[i])
}

/// The numeric value of a run of decimal digits.
pub open spec fn digits_value(s: Seq<u8>) -> int
    decreases s.len(),
{
    if s.len() == 0 {
        0
    } else {
        digits_value(s.drop_last()) * 10 + (s.last() - 48)
    }
}

/// A well-formed field type token: `bool`, or `u{N}` whose digits denote a
/// representable width of at least one bit.
pub open spec fn valid_type_token(s: Seq<u8>) -> bool {
    ||| is_bool_token(s)
    ||| (is_uint_token(s) && 1 <= digits_value(s.skip(1)) <= usize::MAX)
}

/// The field width a well-formed type token declares: one bit for `bool`,
/// `N` bits for `u{N}`.
pub open spec fn token_width(s: Seq<u8>) -> int {
    if is_bool_token(s) {
        1
    } else {
        digits_value(s.skip(1))
    }
}

/// A run of digits denotes a non-negative value.
proof fn lemma_digits_nonneg(s: Seq<u8>)
    requires
        forall|i: int| 0 <= i < s.len() ==> is_ascii_digit(#[trigger] s[i]),
    ensures
        digits_value(s) >= 0,
    decreases s.len(),
{
    if s.len() > 0 {
        lemma_digits_nonneg(s.drop_last());
    }
}

/// The value of a digit prefix never exceeds the value of the whole run.
proof fn lemma_digits_prefix_le(s: Seq<u8>, k: int)
    requires
        0 <= k <= s.len(),
        forall|i: int| 0 <= i < s.len() ==> is_ascii_digit(#[trigger] s[i]),
    ensures
        digits_value(s.take(k)) <= digits_value(s),
    decreases s.len() - k,
{
    if k == s.len() {
        assert(s.take(k) =~= s);
    } else {
        lemma_digits_prefix_le(s, k + 1);
        assert(s.take(k + 1).drop_last() =~= s.take(k));
        lemma_digits_nonneg(s.take(k));
        assert(digits_value(s.take(k)) <= digits_value(s.take(k + 1)));
    }
}

/// Classifies a field type token: `Some(width)` for `bool` (one bit) and
/// for `u{N}` with a representable `N >= 1`; `None` for anything else.
pub fn field_type_width(ty: &[u8]) -> (r: Option<usize>)
    ensures
        r is Some <==> valid_type_token(ty@),
        r matches Some(w) ==> w == token_width(ty@),
{
    if ty.len() == 4 && ty[0] == 98 && ty[1] == 111 && ty[2] == 111 && ty[3] == 108 {
        return Some(1);
    }
    if ty.len() < 2 || ty[0] != 117 {
        return None;
    }
    let mut width: usize = 0;
    let mut idx: usize = 1;
    proof {
        assert(ty@.skip(1).take(0) =~= Seq::<u8>::empty());
    }
    while idx < ty.len()
        invariant
            1 <= idx <= ty@.len(),
            2 <= ty@.len(),
            ty@[0] == 117,
            !is_bool_token(ty@),
            forall|i: int| 1 <= i < idx ==> is_ascii_digit(#[trigger] ty@[i]),
            width == digits_value(ty@.skip(1).take(idx - 1)),
        decreases ty@.len() - idx,
    {
        let c = ty[idx];
        if c < 48 || c > 57 {
            return None;
        }
        let digit = (c - 48) as usize;
        proof {
            assert(ty@.skip(1).take(idx as int).drop_last() =~= ty@.skip(1).take(idx - 1));
        }
        if width > (usize::MAX - digit) / 10 {
            proof {
                if is_uint_token(ty@) {
                    let digits = ty@.skip(1);
                    assert forall|i: int| 0 <= i < digits.len() implies is_ascii_digit(
                        #[trigger] digits[i],
                    ) by {
                        assert(digits[i] == ty@[i + 1]);
                    }
                    lemma_digits_prefix_le(digits, idx as int);
                    assert(digits_value(digits.take(idx as int)) > usize::MAX);
                }
            }
            return None;
        }
        width = width * 10 + digit;
        idx = idx + 1;
    }
    proof {
        assert(ty@.skip(1).take(idx - 1) =~= ty@.skip(1));
    }
    if width == 0 {
        return None;
    }
    Some(width)
}

/// Builds the ordered field table from `(name, type token)` declarations:
/// each `bool` field is one bit wide and each `u{N}` field is `N` bits wide.
/// Fails with `MalformedDeclaration` at the first field whose type token is
/// not well-formed.
pub fn build_field_table(types: &Vec<(String, Vec<u8>)>) -> (r: Result<Vec<FieldDecl>, LayoutError>)
    ensures
        r is Ok <==> (forall|i: int|
            0 <= i < types@.len() ==> valid_type_token(#[trigger] types@[i].1@)),
        r matches Ok(decls) ==> {
            &&& decls@.len() == types@.len()
            &&& forall|i: int|
                #![trigger decls@[i]]
                0 <= i < types@.len() ==> {
                    &&& decls@[i].name@ == types@[i].0@
                    &&& decls@[i].width == token_width(types@[i].1@)
                }
        },
        r matches Err(e) ==> {
            &&& e matches LayoutError::MalformedDeclaration { field_index } && {
                &&& field_index < types@.len()
                &&& !valid_type_token(types@[field_index as int].1@)
                &&& forall|i: int|
                    0 <= i < field_index ==> valid_type_token(#[trigger] types@[i].1@)
            }
        },
{
    let mut decls: Vec<FieldDecl> = Vec::new();
    let mut idx: usize = 0;
    while idx < types.len()
        invariant
            idx <= types@.len(),
            decls@.len() == idx,
            forall|i: int| 0 <= i < idx ==> valid_type_token(#[trigger] types@[i].1@),
            forall|i: int|
                #![trigger decls@[i]]
                0 <= i < idx ==> {
                    &&& decls@[i].name@ == types@[i].0@
                    &&& decls@[i].width == token_width(types@[i].1@)
                },
        decreases types@.len() - idx,
    {
        let width = match field_type_width(types[idx].1.as_slice()) {
            Some(w) => w,
            None => {
                return Err(LayoutError::MalformedDeclaration { field_index: idx });
            },
        };
        let name = types[idx].0.clone();
        decls.push(FieldDecl { name, width });
        idx = idx + 1;
    }
    Ok(decls)
}

} // verus!
