//! Strings and lists of strings, taken by their characters.

use vstd::prelude::*;
use vstd::string::StringSliceAdditionalSpecFns;
use vstd::utf8::encode_utf8_decode_utf8;

verus! {

/// Whether two strings hold the same characters.
pub fn same_text(a: &str, b: &str) -> (r: bool)
    ensures
        r == (a@ == b@),
{
    let left = a.as_bytes();
    let right = b.as_bytes();
    proof {
        encode_utf8_decode_utf8(a@);
        encode_utf8_decode_utf8(b@);
    }
    if left.len() != right.len() {
        return false;
    }
    let mut i: usize = 0;
    while i < left.len()
        invariant
            i <= left.len(),
            left.len() == right.len(),
            left@ == a.spec_bytes(),
            right@ == b.spec_bytes(),
            forall|j: int| 0 <= j < i ==> left@[j] == right@[j],
        decreases left.len() - i,
    {
        if left[i] != right[i] {
            return false;
        }
        i += 1;
    }
    assert(left@ =~= right@);
    true
}

/// The characters of each string of a list, in order.
pub open spec fn texts(strings: Seq<String>) -> Seq<Seq<char>> {
    strings.map_values(|s: String| s@)
}

/// Whether `list` holds a string with the characters of `item`.
pub fn contains_text(list: &Vec<String>, item: &str) -> (r: bool)
    ensures
        r == texts(list@).contains(item@),
{
    let mut i: usize = 0;
    while i < list.len()
        invariant
            i <= list.len(),
            forall|j: int| 0 <= j < i ==> texts(list@)[j] != item@,
        decreases list.len() - i,
    {
        if same_text(list[i].as_str(), item) {
            assert(texts(list@)[i as int] == item@);
            return true;
        }
        i += 1;
    }
    false
}

/// A list without its repetitions: each item stays where it first occurs.
pub open spec fn distinct(list: Seq<Seq<char>>) -> Seq<Seq<char>>
    decreases list.len(),
{
    if list.len() == 0 {
        list
    } else {
        let before = distinct(list.drop_last());
        if before.contains(list.last()) {
            before
        } else {
            before.push(list.last())
        }
    }
}

/// `distinct` repeats nothing and loses nothing: it holds exactly the items
/// of the list, each once.
pub proof fn lemma_distinct(list: Seq<Seq<char>>)
    ensures
        distinct(list).no_duplicates(),
        distinct(list).to_set() == list.to_set(),
        distinct(list).len() <= list.len(),
    decreases list.len(),
{
    if list.len() == 0 {
    } else {
        let rest = list.drop_last();
        let before = distinct(rest);
        lemma_distinct(rest);
        assert(list =~= rest.push(list.last()));
        rest.lemma_push_to_set_commute(list.last());
        before.lemma_push_to_set_commute(list.last());
        if before.contains(list.last()) {
            assert(before.to_set().contains(list.last()));
            assert(before.to_set().insert(list.last()) =~= before.to_set());
        }
    }
}

/// Copies `list` without its repetitions, each item where it first occurs.
pub fn distinct_texts(list: &Vec<String>) -> (r: Vec<String>)
    ensures
        texts(r@) == distinct(texts(list@)),
{
    let mut kept: Vec<String> = Vec::new();
    let mut i: usize = 0;
    assert(texts(list@).subrange(0, 0) =~= Seq::<Seq<char>>::empty());
    assert(texts(kept@) =~= Seq::<Seq<char>>::empty());
    while i < list.len()
        invariant
            i <= list.len(),
            texts(kept@) == distinct(texts(list@).subrange(0, i as int)),
        decreases list.len() - i,
    {
        let ghost before = texts(kept@);
        proof {
            let next = texts(list@).subrange(0, i + 1);
            assert(next.drop_last() =~= texts(list@).subrange(0, i as int));
            assert(next.last() == list@[i as int]@);
        }
        if !contains_text(&kept, list[i].as_str()) {
            kept.push(list[i].clone());
            assert(texts(kept@) =~= before.push(list@[i as int]@));
        }
        i += 1;
    }
    assert(texts(list@).subrange(0, list.len() as int) =~= texts(list@));
    kept
}

} // verus!
