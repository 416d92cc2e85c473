//! Fixed-width string encoding for stable record layout: a variable-length
//! field is padded with zero characters up to its declared maximum size.

use vstd::prelude::*;
use vstd::string::StrSliceExecFns;
use vstd::string::StringExecFns;

verus! {

/// Longest name stored in a record.
pub const NAME_MAX_LEN: usize = 40;

/// Serialized size of a name: a 4-byte length marker plus the padded buffer.
pub const NAME_DEFAULT_SIZE: usize = 4 + NAME_MAX_LEN;

/// Longest description stored in a record.
pub const DESCRIPTION_MAX_LEN: usize = 60;

/// Serialized size of a description: a 4-byte length marker plus the
/// padded buffer.
pub const DESCRIPTION_DEFAULT_SIZE: usize = 4 + DESCRIPTION_MAX_LEN;

/// `s` followed by zero characters up to length `size`.
pub open spec fn spec_puffed_out(s: Seq<char>, size: int) -> Seq<char> {
    s + Seq::new((size - s.len()) as nat, |i: int| '\0')
}

/// Pad `s` with trailing zero characters to exactly `size` characters, so
/// that a variable-length value always serializes at its declared width.
/// A value longer than `size` is a caller-side contract violation and is
/// refused by the precondition.
pub fn puffed_out_string(s: &String, size: usize) -> (r: String)
    requires
        s@.len() <= size,
    ensures
        r@ == spec_puffed_out(s@, size as int),
        r@.len() == size,
        r@.subrange(0, s@.len() as int) == s@,
        forall|i: int| s@.len() <= i < size ==> r@[i] == '\0',
{
    let ghost original: Seq<char> = s@;
    let mut r = s.clone();
    let mut padded: usize = 0;
    let pad: usize = size - s.as_str().unicode_len();
    proof {
        assert(r@ =~= original + Seq::new(0nat, |i: int| '\0'));
    }
    while padded < pad
        invariant
            pad == size - original.len(),
            padded <= pad,
            r@ == original + Seq::new(padded as nat, |i: int| '\0'),
        decreases pad - padded,
    {
        r.append("\0");
        padded = padded + 1;
        proof {
            reveal_strlit("\0");
            assert(r@ =~= original + Seq::new(padded as nat, |i: int| '\0'));
        }
    }
    proof {
        assert(r@ =~= spec_puffed_out(original, size as int));
        assert(r@.subrange(0, original.len() as int) =~= original);
    }
    r
}

} // verus!
