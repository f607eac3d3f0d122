//! The single audited copy-and-terminate primitive.
//!
//! Every field that the enrollment bridge copies into a caller-owned buffer
//! goes through this module, so the bounds and termination contract is
//! enforced in exactly one place: at most `cap - 1` bytes of the field are
//! copied, one terminating zero byte follows them, and nothing is ever
//! produced past `cap` bytes.

use vstd::prelude::*;

verus! {

/// The bytes that a bounded, zero-terminated copy of `field` into a buffer
/// of capacity `cap` consists of: the field, cut to `cap - 1` bytes when it
/// is longer, followed by one terminating zero byte.
pub open spec fn rendered(field: Seq<u8>, cap: nat) -> Seq<u8>
    recommends
        cap >= 1,
{
    if field.len() < cap {
        field.push(0)
    } else {
        field.take(cap - 1).push(0)
    }
}

/// Produces exactly the bytes that belong in a caller buffer of capacity
/// `cap`: a bounded copy of `field` plus the terminator, never more than
/// `cap` bytes in all.
pub fn copy_and_terminate(field: &Vec<u8>, cap: usize) -> (out: Vec<u8>)
    requires
        cap >= 1,
    ensures
        out@ == rendered(field@, cap as nat),
        out@.len() <= cap,
        out@[out@.len() - 1] == 0,
{
    let copy_len: usize = if field.len() < cap { field.len() } else { cap - 1 };
    let mut out: Vec<u8> = Vec::new();
    let mut i: usize = 0;
    while i < copy_len
        invariant
            copy_len <= field@.len(),
            i <= copy_len,
            out@ == field@.take(i as int),
        decreases copy_len - i,
    {
        out.push(field[i]);
        assert(out@ =~= field@.take(i + 1));
        i = i + 1;
    }
    out.push(0);
    proof {
        if field@.len() < cap {
            assert(field@.take(copy_len as int) =~= field@);
        }
        assert(out@ =~= rendered(field@, cap as nat));
    }
    out
}

/// Law: a field at least as long as the buffer is truncated silently to
/// exactly `cap - 1` of its leading bytes followed by the one terminator,
/// so exactly `cap` bytes are produced and none past the capacity.
pub proof fn lemma_truncation(field: Seq<u8>, cap: nat)
    requires
        1 <= cap,
        cap <= field.len(),
    ensures
        rendered(field, cap).len() == cap,
        rendered(field, cap) == field.take(cap - 1).push(0),
{
}

/// Law: whatever the field, the rendered bytes never exceed the capacity.
pub proof fn lemma_rendered_bounded(field: Seq<u8>, cap: nat)
    requires
        1 <= cap,
    ensures
        rendered(field, cap).len() <= cap,
        rendered(field, cap)[rendered(field, cap).len() - 1] == 0,
{
}

} // verus!
