//! Byte/string conversions shared by the capability modules.

use vstd::prelude::*;

use vstd::slice::slice_subrange;
use vstd::string::StrSliceExecFns;
use vstd::utf8::decode_utf8;
use vstd::utf8::encode_utf8;
use vstd::utf8::valid_utf8;

verus! {

/// The characters a byte sequence reads as: its UTF-8 decoding, or nothing
/// at all for bytes that are not valid UTF-8. This lossy reading is what
/// every string-returning accessor applies.
pub open spec fn chars_of(b: Seq<u8>) -> Seq<char> {
    if valid_utf8(b) {
        decode_utf8(b)
    } else {
        Seq::<char>::empty()
    }
}

/// Relies on std's `str::from_utf8`: `Ok` exactly on valid UTF-8, and the
/// returned slice is those bytes read as characters.
#[verifier::external_body]
fn bytes_as_str(input: &[u8]) -> (r: Option<&str>)
    ensures
        r is Some <==> valid_utf8(input@),
        r matches Some(s) ==> s@ == decode_utf8(input@),
{
    core::str::from_utf8(input).ok()
}

/// Read bytes as an owned string; invalid UTF-8 collapses to the empty
/// string rather than failing.
pub fn to_string(input: Vec<u8>) -> (r: String)
    ensures
        r@ == chars_of(input@),
{
    match bytes_as_str(input.as_slice()) {
        Some(s) => s.to_owned(),
        None => String::new(),
    }
}

/// The UTF-8 bytes of an owned string.
pub fn to_vec(input: String) -> (r: Vec<u8>)
    ensures
        r@ == encode_utf8(input@),
{
    input.as_str().as_bytes_vec()
}

/// The UTF-8 bytes of a borrowed string.
pub fn str_to_vec(input: &str) -> (r: Vec<u8>)
    ensures
        r@ == encode_utf8(input@),
{
    input.as_bytes_vec()
}

/// Strict lexicographic order on byte sequences: the order header keys are
/// serialized in.
pub open spec fn bytes_lt(a: Seq<u8>, b: Seq<u8>) -> bool
    decreases a.len(),
{
    if b.len() == 0 {
        false
    } else if a.len() == 0 {
        true
    } else if a[0] < b[0] {
        true
    } else if a[0] > b[0] {
        false
    } else {
        bytes_lt(a.drop_first(), b.drop_first())
    }
}

/// No byte sequence sorts before itself.
pub proof fn lemma_bytes_lt_irreflexive(a: Seq<u8>)
    ensures
        !bytes_lt(a, a),
    decreases a.len(),
{
    if a.len() > 0 {
        lemma_bytes_lt_irreflexive(a.drop_first());
    }
}

/// At most one of `a < b` and `b < a` holds.
pub proof fn lemma_bytes_lt_asymmetric(a: Seq<u8>, b: Seq<u8>)
    requires
        bytes_lt(a, b),
    ensures
        !bytes_lt(b, a),
    decreases a.len(),
{
    if a.len() > 0 && b.len() > 0 && a[0] == b[0] {
        lemma_bytes_lt_asymmetric(a.drop_first(), b.drop_first());
    }
}

/// Byte-slice equality.
pub fn bytes_eq(a: &[u8], b: &[u8]) -> (r: bool)
    ensures
        r == (a@ == b@),
{
    bytes_three_way(a, b) == 0
}

/// Three-way lexicographic comparison of byte slices: `-1` for less, `0`
/// for equal, `1` for greater.
pub fn bytes_three_way(a: &[u8], b: &[u8]) -> (r: i8)
    ensures
        r == -1 <==> bytes_lt(a@, b@),
        r == 0 <==> a@ == b@,
        r == -1 || r == 0 || r == 1,
        r == 1 ==> bytes_lt(b@, a@),
    decreases a@.len(),
{
    proof {
        lemma_bytes_lt_irreflexive(a@);
    }
    if a.len() == 0 && b.len() == 0 {
        proof {
            assert(a@ =~= b@);
        }
        0
    } else if a.len() == 0 {
        -1
    } else if b.len() == 0 {
        1
    } else if a[0] < b[0] {
        -1
    } else if a[0] > b[0] {
        1
    } else {
        let ra = slice_subrange(a, 1, a.len());
        let rb = slice_subrange(b, 1, b.len());
        let r = bytes_three_way(ra, rb);
        proof {
            assert(ra@ =~= a@.drop_first());
            assert(rb@ =~= b@.drop_first());
            if r == 0 {
                assert(a@.len() == b@.len());
                assert forall|i: int| 0 <= i < a@.len() implies a@[i] == b@[i] by {
                    if i > 0 {
                        assert(a@[i] == ra@[i - 1]);
                        assert(b@[i] == rb@[i - 1]);
                    }
                }
                assert(a@ =~= b@);
            }
            if a@ == b@ {
                assert(a@.drop_first() =~= b@.drop_first());
            }
        }
        r
    }
}

} // verus!
