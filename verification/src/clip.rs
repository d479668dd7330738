//! UTF-8-safe clipping of the status text to a byte budget.

use vstd::prelude::*;
use vstd::string::StringSliceAdditionalSpecFns;
use vstd::utf8::is_char_boundary;
use vstd::utf8::valid_utf8;

verus! {

broadcast use {vstd::utf8::group_utf8_lib, vstd::slice::group_slice_axioms};

/// The largest UTF-8 character boundary of `bytes` at or before `limit`.
pub open spec fn clip_point(bytes: Seq<u8>, limit: int) -> int
    decreases limit,
{
    if limit <= 0 {
        0
    } else if is_char_boundary(bytes, limit) {
        limit
    } else {
        clip_point(bytes, limit - 1)
    }
}

/// What clipping yields: the whole string when it already fits the budget,
/// otherwise the longest prefix within the budget that ends on a character
/// boundary.
pub open spec fn spec_clip_utf8(bytes: Seq<u8>, max_bytes: int) -> Seq<u8> {
    if bytes.len() <= max_bytes {
        bytes
    } else {
        bytes.take(clip_point(bytes, max_bytes))
    }
}

proof fn lemma_clip_point_props(bytes: Seq<u8>, limit: int)
    requires
        valid_utf8(bytes),
        0 <= limit <= bytes.len(),
    ensures
        0 <= clip_point(bytes, limit) <= limit,
        is_char_boundary(bytes, clip_point(bytes, limit)),
        forall|j: int| clip_point(bytes, limit) < j <= limit ==> !is_char_boundary(bytes, j),
    decreases limit,
{
    assert(is_char_boundary(bytes, 0));
    if limit > 0 && !is_char_boundary(bytes, limit) {
        lemma_clip_point_props(bytes, limit - 1);
    }
}

/// Clip `s` to at most `max_bytes` bytes without splitting a multi-byte
/// character: when `s` does not already fit, the result is the longest prefix
/// of `s` inside the budget that ends on a character boundary.
pub fn clip_utf8<'a>(s: &'a str, max_bytes: usize) -> (r: &'a str)
    ensures
        r.spec_bytes() == spec_clip_utf8(s.spec_bytes(), max_bytes as int),
        r.spec_bytes() == s.spec_bytes().take(r.spec_bytes().len() as int),
        s.spec_bytes().len() <= max_bytes ==> r.spec_bytes() == s.spec_bytes(),
        s.spec_bytes().len() > max_bytes ==> r.spec_bytes().len() <= max_bytes,
        is_char_boundary(s.spec_bytes(), r.spec_bytes().len() as int),
        valid_utf8(r.spec_bytes()),
{
    let ghost bytes = s.spec_bytes();
    proof {
        assert(valid_utf8(bytes));
        assert(is_char_boundary(bytes, 0));
        assert(is_char_boundary(bytes, bytes.len() as int));
    }
    let byte_len = s.as_bytes().len();
    if byte_len <= max_bytes {
        proof {
            assert(bytes.take(bytes.len() as int) =~= bytes);
        }
        return s;
    }
    let mut end: usize = max_bytes;
    while !s.is_char_boundary(end)
        invariant
            bytes == s.spec_bytes(),
            valid_utf8(bytes),
            end <= max_bytes,
            max_bytes < bytes.len(),
            clip_point(bytes, max_bytes as int) == clip_point(bytes, end as int),
        decreases end,
    {
        proof {
            assert(is_char_boundary(bytes, 0));
            assert(end > 0);
        }
        end = end - 1;
    }
    proof {
        lemma_clip_point_props(bytes, max_bytes as int);
        assert(clip_point(bytes, end as int) == end);
    }
    let (prefix, _rest) = s.split_at(end);
    proof {
        assert(prefix.spec_bytes() =~= bytes.take(end as int));
        assert(valid_utf8(bytes.subrange(0, end as int)));
        assert(bytes.subrange(0, end as int) =~= bytes.take(end as int));
    }
    prefix
}

} // verus!
