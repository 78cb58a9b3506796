//! Key ranges: which keys a read, a delete or a watch covers.

use vstd::prelude::*;

verus! {

/// A half-open range of keys, from `key` up to but not including
/// `range_end`. An empty `range_end` means the single key `key`; a
/// `range_end` of one zero byte means every key from `key` on.
#[derive(Clone, Debug)]
pub struct KeyRange {
    pub key: Vec<u8>,
    pub range_end: Vec<u8>,
}

/// The least byte string above every string that starts with `prefix`: the
/// prefix with its last byte below 255 raised by one and everything after
/// it cut off. Where no byte can be raised, one zero byte, which stands for
/// no upper end.
pub open spec fn prefix_end(prefix: Seq<u8>) -> Seq<u8>
    decreases prefix.len(),
{
    if prefix.len() == 0 {
        seq![0u8]
    } else if prefix.last() < 255 {
        prefix.drop_last().push((prefix.last() + 1) as u8)
    } else {
        prefix_end(prefix.drop_last())
    }
}

impl KeyRange {
    /// Every key.
    pub fn all() -> (r: KeyRange)
        ensures
            r.key@ == seq![0u8],
            r.range_end@ == seq![0u8],
    {
        let mut key: Vec<u8> = Vec::new();
        key.push(0);
        let mut range_end: Vec<u8> = Vec::new();
        range_end.push(0);
        assert(key@ =~= seq![0u8]);
        assert(range_end@ =~= seq![0u8]);
        KeyRange { key, range_end }
    }

    /// The single key `key`.
    pub fn key(key: Vec<u8>) -> (r: KeyRange)
        ensures
            r.key == key,
            r.range_end@.len() == 0,
    {
        KeyRange { key, range_end: Vec::new() }
    }

    /// The keys from `key` up to but not including `range_end`.
    pub fn range(key: Vec<u8>, range_end: Vec<u8>) -> (r: KeyRange)
        ensures
            r.key == key,
            r.range_end == range_end,
    {
        KeyRange { key, range_end }
    }

    /// The keys that start with `prefix`. An empty prefix covers every key.
    pub fn prefix(prefix: Vec<u8>) -> (r: KeyRange)
        ensures
            prefix@.len() == 0 ==> r.key@ == seq![0u8] && r.range_end@ == seq![0u8],
            prefix@.len() > 0 ==> r.key@ == prefix@ && r.range_end@ == prefix_end(prefix@),
    {
        if prefix.len() == 0 {
            return KeyRange::all();
        }
        let mut end: Vec<u8> = prefix.clone();
        while end.len() > 0
            invariant
                prefix@.len() > 0,
                prefix_end(end@) == prefix_end(prefix@),
            decreases end.len(),
        {
            let n: usize = end.len();
            let last: u8 = end[n - 1];
            if last < 255 {
                let ghost before = end@;
                end.set(n - 1, last + 1);
                proof {
                    assert(before.last() == last);
                    assert(end@ =~= before.drop_last().push((last + 1) as u8));
                    assert(prefix_end(before) == before.drop_last().push((last + 1) as u8));
                }
                return KeyRange { key: prefix, range_end: end };
            }
            end.pop();
        }
        let mut open_end: Vec<u8> = Vec::new();
        open_end.push(0);
        assert(open_end@ =~= seq![0u8]);
        KeyRange { key: prefix, range_end: open_end }
    }
}

/// The end of a prefix range lies above the prefix itself wherever a byte
/// could be raised: it agrees with the prefix up to its last byte, which is
/// greater by one than the prefix's byte in that place.
pub proof fn lemma_prefix_end_is_above(prefix: Seq<u8>)
    requires
        exists|i: int| 0 <= i < prefix.len() && prefix[i] < 255,
    ensures
        1 <= prefix_end(prefix).len() <= prefix.len(),
        forall|i: int|
            0 <= i < prefix_end(prefix).len() - 1 ==> prefix_end(prefix)[i] == prefix[i],
        prefix_end(prefix).last() == prefix[prefix_end(prefix).len() - 1] + 1,
    decreases prefix.len(),
{
    let end = prefix_end(prefix);
    if prefix.last() < 255 {
        assert(end == prefix.drop_last().push((prefix.last() + 1) as u8));
        assert forall|i: int| 0 <= i < end.len() - 1 implies end[i] == prefix[i] by {
            assert(end[i] == prefix.drop_last()[i]);
        }
    } else {
        let shorter = prefix.drop_last();
        let i = choose|i: int| 0 <= i < prefix.len() && prefix[i] < 255;
        assert(shorter[i] < 255);
        lemma_prefix_end_is_above(shorter);
        assert(end == prefix_end(shorter));
        assert forall|i: int| 0 <= i < end.len() - 1 implies end[i] == prefix[i] by {
            assert(end[i] == shorter[i]);
        }
        assert(shorter[end.len() - 1] == prefix[end.len() - 1]);
    }
}

} // verus!
