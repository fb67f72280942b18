//! Object identifiers: a caller-supplied handle followed by three fixed tag words.

use vstd::prelude::*;

verus! {

/// First tag word of every full object identifier.
pub const TAG_FIRST: u64 = 0xffff;

/// Second tag word of every full object identifier.
pub const TAG_SECOND: u64 = 0xff01;

/// Third tag word of every full object identifier.
pub const TAG_THIRD: u64 = 0xff02;

/// The four words that identify the object with the given handle.
pub open spec fn full_object_id(handle: u64) -> [u64; 4] {
    [handle, TAG_FIRST, TAG_SECOND, TAG_THIRD]
}

/// Expands a handle to its full identifier. Every handle is accepted.
pub fn to_full_obj_id(id: u64) -> (full: [u64; 4])
    ensures
        full == full_object_id(id),
{
    [id, TAG_FIRST, TAG_SECOND, TAG_THIRD]
}

/// A full identifier is four words: the handle first, then the three tags, whatever the
/// handle is. The caller has no say in the tags.
pub proof fn lemma_tags_are_fixed(handle: u64)
    ensures
        full_object_id(handle)@.len() == 4,
        full_object_id(handle)@[0] == handle,
        full_object_id(handle)@.subrange(1, 4) == seq![TAG_FIRST, TAG_SECOND, TAG_THIRD],
{
    assert(full_object_id(handle)@.subrange(1, 4) =~= seq![TAG_FIRST, TAG_SECOND, TAG_THIRD]);
}

/// Two handles have the same full identifier only if they are the same handle, and the
/// identifiers of any two handles agree in everything after the first word.
pub proof fn lemma_full_object_id_injective(left: u64, right: u64)
    ensures
        full_object_id(left) == full_object_id(right) <==> left == right,
        full_object_id(left)@.subrange(1, 4) == full_object_id(right)@.subrange(1, 4),
{
    lemma_tags_are_fixed(left);
    lemma_tags_are_fixed(right);
}

} // verus!
