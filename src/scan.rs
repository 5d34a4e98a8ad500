//! Picking the LAS files out of a directory listing.
use vstd::prelude::*;
use vstd::multiset::Multiset;
use crate::names::{has_las_extension, is_las_name};

verus! {

/// The text of each string in `v`.
pub open spec fn texts(v: Seq<String>) -> Seq<Seq<char>> {
    v.map_values(|s: String| s@)
}

/// The entries of a listing that are LAS files, in the listing's order.
pub open spec fn las_names(entries: Seq<Seq<char>>) -> Seq<Seq<char>> {
    entries.filter(|n: Seq<char>| is_las_name(n))
}

/// Keeps the entries of a directory listing that are LAS files (extension
/// exactly `las`), in the order in which the listing gives them. Entries that
/// could not be read are left out of `entries` beforehand.
pub fn list_las(entries: &Vec<String>) -> (r: Vec<String>)
    ensures
        texts(r@) == las_names(texts(entries@)),
{
    let mut r: Vec<String> = Vec::new();
    let mut i: usize = 0;
    while i < entries.len()
        invariant
            i <= entries@.len(),
            texts(r@) == las_names(texts(entries@.subrange(0, i as int))),
        decreases entries@.len() - i,
    {
        let keep = has_las_extension(entries[i].as_str());
        proof {
            let pre = texts(entries@.subrange(0, i as int));
            assert(texts(entries@.subrange(0, i + 1)) =~= pre.push(entries@[i as int]@));
            pre.lemma_filter_push(entries@[i as int]@, |n: Seq<char>| is_las_name(n));
        }
        if keep {
            let ghost before = r@;
            let name = entries[i].clone();
            r.push(name);
            assert(texts(r@) =~= texts(before).push(entries@[i as int]@));
        }
        i = i + 1;
    }
    assert(entries@.subrange(0, entries@.len() as int) =~= entries@);
    r
}

/// The LAS files picked from a listing are exactly the listing's entries
/// with extension `las`, each as many times as the listing holds it: of a
/// listing with N such entries and M others, N are kept and no other.
pub proof fn lemma_list_las_exact(entries: Seq<Seq<char>>)
    ensures
        las_names(entries).to_multiset() =~= entries.to_multiset().filter(
            |n: Seq<char>| is_las_name(n),
        ),
    decreases entries.len(),
{
    broadcast use vstd::seq_lib::group_to_multiset_ensures;

    let pred = |n: Seq<char>| is_las_name(n);
    if entries.len() == 0 {
        assert(entries.filter(pred).len() == 0) by {
            entries.lemma_filter_len(pred);
        }
        assert(entries.to_multiset().len() == 0);
        assert(entries.filter(pred).to_multiset().len() == 0);
        assert(entries.filter(pred).to_multiset() =~= Multiset::empty());
        assert(entries.to_multiset() =~= Multiset::empty());
        assert(Multiset::<Seq<char>>::empty().filter(pred) =~= Multiset::empty());
    } else {
        let init = entries.drop_last();
        let last = entries.last();
        lemma_list_las_exact(init);
        assert(init.push(last) =~= entries);
        init.lemma_filter_push(last, pred);
    }
}

/// The LAS files picked from a listing do not depend on the order of its
/// entries: two listings of the same entries give the same files.
pub proof fn lemma_list_las_order_independent(a: Seq<Seq<char>>, b: Seq<Seq<char>>)
    requires
        a.to_multiset() == b.to_multiset(),
    ensures
        las_names(a).to_multiset() == las_names(b).to_multiset(),
{
    lemma_list_las_exact(a);
    lemma_list_las_exact(b);
}

} // verus!
