//! Searching sequences: where a pattern lies, and where it lies first.

use vstd::prelude::*;

verus! {

/// `needle` lies in `hay` at offset `i`.
pub open spec fn occurs_at<T>(hay: Seq<T>, needle: Seq<T>, i: int) -> bool {
    &&& 0 <= i
    &&& i + needle.len() <= hay.len()
    &&& hay.subrange(i, i + needle.len()) == needle
}

/// `i` is the smallest offset at or after `from` where `needle` lies in `hay`.
pub open spec fn first_occurrence<T>(hay: Seq<T>, needle: Seq<T>, from: int, i: int) -> bool {
    &&& from <= i
    &&& occurs_at(hay, needle, i)
    &&& forall|j: int| from <= j < i ==> !occurs_at(hay, needle, j)
}

/// The smallest offset at or after `from` where `needle` lies in `hay`, if there is one.
pub open spec fn first_index_of<T>(hay: Seq<T>, needle: Seq<T>, from: int) -> Option<int> {
    if exists|i: int| from <= i && occurs_at(hay, needle, i) {
        Some(choose|i: int| first_occurrence(hay, needle, from, i))
    } else {
        None
    }
}

/// A first occurrence is the one that `first_index_of` names.
pub proof fn lemma_first_occurrence_is_first_index<T>(
    hay: Seq<T>,
    needle: Seq<T>,
    from: int,
    i: int,
)
    requires
        first_occurrence(hay, needle, from, i),
    ensures
        first_index_of(hay, needle, from) == Some(i),
{
    let k = choose|k: int| first_occurrence(hay, needle, from, k);
    assert(first_occurrence(hay, needle, from, k));
    if k < i {
        assert(!occurs_at(hay, needle, k));
    }
    if i < k {
        assert(!occurs_at(hay, needle, i));
    }
}

/// Where `first_index_of` names an offset, that offset is a first occurrence.
pub proof fn lemma_first_index_is_first_occurrence<T>(hay: Seq<T>, needle: Seq<T>, from: int)
    requires
        first_index_of(hay, needle, from) is Some,
    ensures
        first_occurrence(hay, needle, from, first_index_of(hay, needle, from)->0),
{
    let w = choose|i: int| from <= i && occurs_at(hay, needle, i);
    lemma_earliest_occurrence(hay, needle, from, w);
}

/// Below any occurrence there is a first one.
proof fn lemma_earliest_occurrence<T>(hay: Seq<T>, needle: Seq<T>, from: int, w: int)
    requires
        from <= w,
        occurs_at(hay, needle, w),
    ensures
        exists|i: int| first_occurrence(hay, needle, from, i),
    decreases w - from,
{
    if exists|j: int| from <= j < w && occurs_at(hay, needle, j) {
        let j = choose|j: int| from <= j < w && occurs_at(hay, needle, j);
        lemma_earliest_occurrence(hay, needle, from, j);
    } else {
        assert(first_occurrence(hay, needle, from, w));
    }
}

/// Where nothing lies at or after `from`, `first_index_of` names nothing.
pub proof fn lemma_no_occurrence_no_first_index<T>(hay: Seq<T>, needle: Seq<T>, from: int)
    requires
        forall|i: int| from <= i ==> !occurs_at(hay, needle, i),
    ensures
        first_index_of(hay, needle, from) is None,
{
}

/// Tells whether `needle` lies in `hay` at offset `at`.
pub fn matches_at(hay: &[u8], needle: &[u8], at: usize) -> (r: bool)
    ensures
        r == occurs_at(hay@, needle@, at as int),
{
    if needle.len() > hay.len() || at > hay.len() - needle.len() {
        return false;
    }
    let mut k: usize = 0;
    while k < needle.len()
        invariant
            k <= needle.len(),
            at + needle.len() <= hay.len(),
            forall|j: int| 0 <= j < k ==> hay@[at + j] == needle@[j],
        decreases needle.len() - k,
    {
        if hay[at + k] != needle[k] {
            proof {
                let window = hay@.subrange(at as int, at + needle@.len());
                assert(window[k as int] == hay@[at + k]);
            }
            return false;
        }
        k += 1;
    }
    assert(hay@.subrange(at as int, at + needle@.len()) =~= needle@);
    true
}

/// Finds the first offset at or after `from` where `needle` lies in `hay`.
pub fn find(hay: &[u8], needle: &[u8], from: usize) -> (r: Option<usize>)
    ensures
        match r {
            Some(i) => first_index_of(hay@, needle@, from as int) == Some(i as int),
            None => first_index_of(hay@, needle@, from as int) is None,
        },
{
    if needle.len() > hay.len() || from > hay.len() - needle.len() {
        return None;
    }
    let last: usize = hay.len() - needle.len();
    let mut i: usize = from;
    loop
        invariant
            from <= i <= last,
            last == hay.len() - needle.len(),
            forall|j: int| from <= j < i ==> !occurs_at(hay@, needle@, j),
        decreases last - i,
    {
        if matches_at(hay, needle, i) {
            proof {
                lemma_first_occurrence_is_first_index(hay@, needle@, from as int, i as int);
            }
            return Some(i);
        }
        if i == last {
            return None;
        }
        i += 1;
    }
}

} // verus!
