//! The order in which the entries below a folder are listed: ascending by
//! the text under which each is shown, entries with the same text in the
//! order in which they came.

use crate::text::lemma_bytes_le_reflexive;
use crate::text::lemma_bytes_le_total;
use crate::text::lemma_bytes_le_transitive;
use crate::text::str_le;
use crate::text::text_le;
use crate::topology::tree::subtree_views;
use crate::topology::tree::SubTree;
use crate::topology::tree::SubTreeView;
use vstd::prelude::*;
use vstd::seq_lib::to_multiset_insert;
use vstd::utf8::encode_utf8;

verus! {

/// Whether `a` is listed at or before `b`.
pub open spec fn display_le(a: SubTreeView, b: SubTreeView) -> bool {
    text_le(a.node.display(), b.node.display())
}

/// Whether a list is in ascending order of display text.
pub open spec fn is_sorted_by_display(s: Seq<SubTreeView>) -> bool {
    forall|i: int, j: int| 0 <= i < j < s.len() ==> display_le(#[trigger] s[i], #[trigger] s[j])
}

/// A sorted list with one more entry: `x` goes in front of the first entry
/// that it is listed at or before.
pub open spec fn insert_by_display(x: SubTreeView, s: Seq<SubTreeView>) -> Seq<SubTreeView>
    decreases s.len(),
{
    if s.len() == 0 {
        seq![x]
    } else if display_le(x, s[0]) {
        seq![x] + s
    } else {
        seq![s[0]] + insert_by_display(x, s.drop_first())
    }
}

/// The entries of `s` in ascending order of display text; entries with the
/// same text keep the order that they have in `s`.
pub open spec fn sorted_by_display(s: Seq<SubTreeView>) -> Seq<SubTreeView>
    decreases s.len(),
{
    if s.len() == 0 {
        s
    } else {
        insert_by_display(s[0], sorted_by_display(s.drop_first()))
    }
}

/// Where `insert_by_display` puts an entry: at the first position whose entry
/// it is listed at or before, or at the end.
pub proof fn lemma_insert_position(x: SubTreeView, s: Seq<SubTreeView>, p: int)
    requires
        0 <= p <= s.len(),
        forall|j: int| 0 <= j < p ==> !display_le(x, #[trigger] s[j]),
        p < s.len() ==> display_le(x, s[p]),
    ensures
        insert_by_display(x, s) == s.insert(p, x),
    decreases s.len(),
{
    if s.len() > 0 && p > 0 {
        let rest = s.drop_first();
        assert forall|j: int| 0 <= j < p - 1 implies !display_le(x, #[trigger] rest[j]) by {
            assert(rest[j] == s[j + 1]);
        }
        lemma_insert_position(x, rest, p - 1);
    }
}

/// Inserting into a sorted list leaves it sorted, with the same entries and
/// the new one.
pub proof fn lemma_insert_by_display(x: SubTreeView, s: Seq<SubTreeView>)
    requires
        is_sorted_by_display(s),
    ensures
        is_sorted_by_display(insert_by_display(x, s)),
        insert_by_display(x, s).to_multiset() == s.to_multiset().insert(x),
        insert_by_display(x, s).len() == s.len() + 1,
    decreases s.len(),
{
    let r = insert_by_display(x, s);
    if s.len() == 0 {
        assert(r =~= Seq::<SubTreeView>::empty().insert(0, x));
        to_multiset_insert(Seq::<SubTreeView>::empty(), 0, x);
        assert(s =~= Seq::<SubTreeView>::empty());
    } else if display_le(x, s[0]) {
        assert(r =~= s.insert(0, x));
        to_multiset_insert(s, 0, x);
        assert forall|i: int, j: int| 0 <= i < j < r.len() implies display_le(
            #[trigger] r[i],
            #[trigger] r[j],
        ) by {
            if i == 0 && j > 1 {
                lemma_bytes_le_transitive(
                    encode_utf8(x.node.display()),
                    encode_utf8(s[0].node.display()),
                    encode_utf8(s[j - 1].node.display()),
                );
            }
        }
    } else {
        let rest = s.drop_first();
        assert forall|i: int, j: int| 0 <= i < j < rest.len() implies display_le(
            #[trigger] rest[i],
            #[trigger] rest[j],
        ) by {
            assert(rest[i] == s[i + 1] && rest[j] == s[j + 1]);
        }
        lemma_insert_by_display(x, rest);
        let tail = insert_by_display(x, rest);
        assert(r =~= tail.insert(0, s[0]));
        to_multiset_insert(tail, 0, s[0]);
        assert(s =~= rest.insert(0, s[0]));
        to_multiset_insert(rest, 0, s[0]);
        lemma_bytes_le_total(encode_utf8(x.node.display()), encode_utf8(s[0].node.display()));
        assert forall|i: int, j: int| 0 <= i < j < r.len() implies display_le(
            #[trigger] r[i],
            #[trigger] r[j],
        ) by {
            if i == 0 {
                // `r[j]` is an entry of `tail`: the new entry, which `s[0]` is
                // listed before, or an entry of `rest`, which it was listed
                // before already.
                let e = tail[j - 1];
                assert(tail.to_multiset().count(e) > 0) by {
                    tail.to_multiset_ensures();
                }
                if e != x {
                    rest.to_multiset_ensures();
                    let k = choose|k: int| 0 <= k < rest.len() && rest[k] == e;
                    assert(display_le(s[0], s[k + 1]));
                }
            }
        }
    }
}

/// The sorted list is in ascending order and holds what the given list
/// holds, each entry as often.
pub proof fn lemma_sorted_by_display(s: Seq<SubTreeView>)
    ensures
        is_sorted_by_display(sorted_by_display(s)),
        sorted_by_display(s).to_multiset() == s.to_multiset(),
        sorted_by_display(s).len() == s.len(),
    decreases s.len(),
{
    if s.len() > 0 {
        let rest = s.drop_first();
        lemma_sorted_by_display(rest);
        lemma_insert_by_display(s[0], sorted_by_display(rest));
        assert(s =~= rest.insert(0, s[0]));
        to_multiset_insert(rest, 0, s[0]);
    }
}

/// The entries of a list that are shown under the given text, in the order
/// in which the list holds them.
pub open spec fn shown_as(s: Seq<SubTreeView>, text: Seq<char>) -> Seq<SubTreeView> {
    s.filter(|e: SubTreeView| e.node.display() == text)
}

proof fn lemma_shown_as_one(e: SubTreeView, text: Seq<char>)
    ensures
        shown_as(seq![e], text) == if e.node.display() == text {
            seq![e]
        } else {
            Seq::<SubTreeView>::empty()
        },
{
    reveal(Seq::filter);
    let pred = |e: SubTreeView| e.node.display() == text;
    assert(seq![e].drop_last() =~= Seq::<SubTreeView>::empty());
    assert(Seq::<SubTreeView>::empty().filter(pred) =~= Seq::<SubTreeView>::empty());
}

proof fn lemma_shown_as_insert(x: SubTreeView, s: Seq<SubTreeView>, text: Seq<char>)
    ensures
        shown_as(insert_by_display(x, s), text) == if x.node.display() == text {
            seq![x] + shown_as(s, text)
        } else {
            shown_as(s, text)
        },
    decreases s.len(),
{
    let pred = |e: SubTreeView| e.node.display() == text;
    lemma_shown_as_one(x, text);
    if s.len() == 0 {
        reveal(Seq::filter);
    } else if display_le(x, s[0]) {
        Seq::filter_distributes_over_add(seq![x], s, pred);
    } else {
        let rest = s.drop_first();
        let head = seq![s[0]];
        assert(s =~= head + rest);
        lemma_shown_as_one(s[0], text);
        lemma_shown_as_insert(x, rest, text);
        Seq::filter_distributes_over_add(head, rest, pred);
        Seq::filter_distributes_over_add(head, insert_by_display(x, rest), pred);
        if x.node.display() == text && s[0].node.display() == text {
            // Not so: `x` would be listed at or before `s[0]`.
            lemma_bytes_le_reflexive(encode_utf8(text));
        }
    }
}

/// Sorting is stable: the entries that are shown under one text come out in
/// the order in which they went in.
pub proof fn law_sort_keeps_order_of_equal_texts(s: Seq<SubTreeView>, text: Seq<char>)
    ensures
        shown_as(sorted_by_display(s), text) == shown_as(s, text),
    decreases s.len(),
{
    let pred = |e: SubTreeView| e.node.display() == text;
    if s.len() > 0 {
        let rest = s.drop_first();
        let head = seq![s[0]];
        assert(s =~= head + rest);
        law_sort_keeps_order_of_equal_texts(rest, text);
        lemma_shown_as_insert(s[0], sorted_by_display(rest), text);
        lemma_shown_as_one(s[0], text);
        Seq::filter_distributes_over_add(head, rest, pred);
    }
}

/// Sorts entries into ascending order of display text; entries with the same
/// text keep their order.
pub fn sort_by_display(items: Vec<SubTree>) -> (r: Vec<SubTree>)
    ensures
        subtree_views(r@) == sorted_by_display(subtree_views(items@)),
        is_sorted_by_display(subtree_views(r@)),
        subtree_views(r@).to_multiset() == subtree_views(items@).to_multiset(),
        r@.len() == items@.len(),
{
    let ghost all = subtree_views(items@);
    let mut rest = items;
    let mut out: Vec<SubTree> = Vec::new();
    while rest.len() > 0
        invariant
            rest@.len() <= all.len(),
            subtree_views(rest@) == all.take(rest@.len() as int),
            subtree_views(out@) == sorted_by_display(all.skip(rest@.len() as int)),
        decreases rest@.len(),
    {
        let ghost before = rest@;
        let ghost sorted = subtree_views(out@);
        let n = rest.len();
        let x = rest.pop().unwrap();
        assert(subtree_views(rest@) =~= all.take(rest@.len() as int)) by {
            assert forall|k: int| 0 <= k < rest@.len() implies subtree_views(rest@)[k] == all[k] by {
                assert(subtree_views(before)[k] == all.take(before.len() as int)[k]);
            }
        }
        assert(x@ == all[n - 1]) by {
            assert(subtree_views(before)[n - 1] == all.take(before.len() as int)[n - 1]);
        }
        let key = x.node().to_string();
        let mut p: usize = 0;
        while p < out.len() && !str_le(key.as_str(), out[p].node().to_string().as_str())
            invariant
                p <= out@.len(),
                key@ == x@.node.display(),
                sorted == subtree_views(out@),
                forall|j: int| 0 <= j < p ==> !display_le(x@, #[trigger] sorted[j]),
            decreases out@.len() - p,
        {
            p += 1;
        }
        proof {
            lemma_insert_position(x@, sorted, p as int);
            assert(all.skip(n - 1).drop_first() =~= all.skip(n as int));
        }
        out.insert(p, x);
    }
    proof {
        assert(all.skip(0) =~= all);
        lemma_sorted_by_display(all);
    }
    out
}

} // verus!
