//! What lists hold: picking from them by a property.
use vstd::prelude::*;

verus! {

/// What a search for the only item with a property finds.
#[derive(Debug, Clone, Copy, PartialEq, Eq, Structural)]
pub enum Found {
    Nothing,
    /// Exactly one, at this position.
    One(usize),
    Several,
}

/// Whether `found` is what a search in `s` for `wanted` finds.
pub open spec fn finds<A>(s: Seq<A>, wanted: spec_fn(A) -> bool, found: Found) -> bool {
    match found {
        Found::Nothing => s.filter(wanted).len() == 0,
        Found::One(i) => i < s.len() && s.filter(wanted) == seq![s[i as int]],
        Found::Several => s.filter(wanted).len() > 1,
    }
}

/// A list picked one item further.
pub proof fn lemma_filter_step<A>(s: Seq<A>, wanted: spec_fn(A) -> bool, i: int)
    requires
        0 <= i < s.len(),
    ensures
        s.take(i + 1).filter(wanted) == if wanted(s[i]) {
            s.take(i).filter(wanted).push(s[i])
        } else {
            s.take(i).filter(wanted)
        },
{
    reveal(Seq::filter);
    assert(s.take(i + 1).drop_last() =~= s.take(i));
    assert(s.take(i + 1).last() == s[i]);
}

/// Nothing is picked where nothing has the property.
pub proof fn lemma_filter_start<A>(s: Seq<A>, wanted: spec_fn(A) -> bool)
    ensures
        s.take(0).filter(wanted) == Seq::<A>::empty(),
        s.take(s.len() as int) == s,
{
    reveal(Seq::filter);
    assert(s.take(0) =~= Seq::<A>::empty());
    assert(s.take(s.len() as int) =~= s);
}

/// What is picked is what stands in the list and has the property.
pub proof fn lemma_filter_members<A>(s: Seq<A>, wanted: spec_fn(A) -> bool)
    ensures
        forall|x: A| #[trigger] s.filter(wanted).contains(x) <==> s.contains(x) && wanted(x),
        s.filter(wanted).len() == 0 <==> forall|i: int| 0 <= i < s.len() ==> !wanted(#[trigger] s[i]),
        s.filter(wanted).len() <= s.len(),
    decreases s.len(),
{
    reveal(Seq::filter);
    if s.len() > 0 {
        let head = s.drop_last();
        lemma_filter_members(head, wanted);
        let picked = s.filter(wanted);
        let before = head.filter(wanted);
        assert forall|x: A| #[trigger] picked.contains(x) <==> s.contains(x) && wanted(x) by {
            if picked.contains(x) {
                let k = choose|k: int| 0 <= k < picked.len() && picked[k] == x;
                if k < before.len() {
                    assert(before[k] == x);
                    assert(before.contains(x));
                    assert(head.contains(x));
                    let j = choose|j: int| 0 <= j < head.len() && head[j] == x;
                    assert(s[j] == x);
                } else {
                    assert(s[s.len() - 1] == x);
                }
            }
            if s.contains(x) && wanted(x) {
                let j = choose|j: int| 0 <= j < s.len() && s[j] == x;
                if j < head.len() {
                    assert(head[j] == x);
                    assert(head.contains(x));
                    assert(before.contains(x));
                    let k = choose|k: int| 0 <= k < before.len() && before[k] == x;
                    assert(picked[k] == x);
                } else {
                    assert(picked[picked.len() - 1] == x);
                }
            }
        }
        if picked.len() == 0 {
            assert forall|i: int| 0 <= i < s.len() implies !wanted(#[trigger] s[i]) by {
                if i < head.len() {
                    assert(!wanted(head[i]));
                }
            }
        } else {
            if wanted(s.last()) {
                assert(wanted(s[s.len() - 1]));
            } else {
                let i = choose|i: int| 0 <= i < head.len() && wanted(#[trigger] head[i]);
                assert(wanted(s[i]));
            }
        }
    } else {
        assert(s.filter(wanted) =~= Seq::<A>::empty());
    }
}

/// `id` put in its place among ascending numbers.
pub open spec fn placed_id(ids: Seq<u64>, id: u64) -> Seq<u64>
    decreases ids.len(),
{
    if ids.len() == 0 || ids.last() <= id {
        ids.push(id)
    } else {
        placed_id(ids.drop_last(), id).push(ids.last())
    }
}

/// The numbers in ascending order.
pub open spec fn ascending(ids: Seq<u64>) -> Seq<u64>
    decreases ids.len(),
{
    if ids.len() == 0 {
        Seq::empty()
    } else {
        placed_id(ascending(ids.drop_last()), ids.last())
    }
}

/// Putting numbers in ascending order neither adds nor drops one.
pub proof fn law_ascending_orders_and_keeps(ids: Seq<u64>)
    ensures
        forall|i: int, j: int| 0 <= i <= j < ascending(ids).len() ==> #[trigger] ascending(ids)[i]
            <= #[trigger] ascending(ids)[j],
        ascending(ids).to_multiset() == ids.to_multiset(),
    decreases ids.len(),
{
    broadcast use vstd::seq_lib::group_to_multiset_ensures;

    if ids.len() > 0 {
        law_ascending_orders_and_keeps(ids.drop_last());
        lemma_placed_id(ascending(ids.drop_last()), ids.last());
        assert(ids =~= ids.drop_last().push(ids.last()));
    } else {
        assert(ascending(ids) =~= ids);
    }
}

proof fn lemma_placed_id(ids: Seq<u64>, id: u64)
    requires
        forall|i: int, j: int| 0 <= i <= j < ids.len() ==> #[trigger] ids[i] <= #[trigger] ids[j],
    ensures
        forall|i: int, j: int| 0 <= i <= j < placed_id(ids, id).len() ==> #[trigger] placed_id(
            ids,
            id,
        )[i] <= #[trigger] placed_id(ids, id)[j],
        placed_id(ids, id).to_multiset() == ids.to_multiset().insert(id),
        placed_id(ids, id).len() == ids.len() + 1,
        forall|i: int|
            0 <= i < placed_id(ids, id).len() ==> #[trigger] placed_id(ids, id)[i] <= id || (
            ids.len() > 0 && placed_id(ids, id)[i] <= ids.last()),
    decreases ids.len(),
{
    broadcast use vstd::seq_lib::group_to_multiset_ensures;

    if ids.len() > 0 && ids.last() > id {
        let head = ids.drop_last();
        assert forall|i: int, j: int| 0 <= i <= j < head.len() implies #[trigger] head[i]
            <= #[trigger] head[j] by {
            assert(ids[i] <= ids[j]);
        }
        lemma_placed_id(head, id);
        if head.len() > 0 {
            assert(ids[head.len() - 1] <= ids[ids.len() - 1]);
        }
        assert(ids =~= head.push(ids.last()));
        assert(head.to_multiset().insert(id).insert(ids.last()) =~= head.to_multiset().insert(
            ids.last(),
        ).insert(id));
    }
}

proof fn lemma_placed_id_at(ids: Seq<u64>, id: u64, i: int)
    requires
        0 <= i <= ids.len(),
        forall|k: int| i <= k < ids.len() ==> #[trigger] ids[k] > id,
        i > 0 ==> ids[i - 1] <= id,
    ensures
        placed_id(ids, id) == ids.insert(i, id),
    decreases ids.len(),
{
    if i == ids.len() {
        assert(ids.insert(i, id) =~= ids.push(id));
    } else {
        assert(ids[ids.len() - 1] > id);
        lemma_placed_id_at(ids.drop_last(), id, i);
        assert(ids.insert(i, id) =~= ids.drop_last().insert(i, id).push(ids.last()));
    }
}

/// Puts numbers in ascending order.
pub fn sort_ids(ids: &Vec<u64>) -> (r: Vec<u64>)
    ensures
        r@ == ascending(ids@),
{
    let mut out: Vec<u64> = Vec::new();
    let mut n: usize = 0;
    while n < ids.len()
        invariant
            n <= ids@.len(),
            out@ == ascending(ids@.take(n as int)),
        decreases ids@.len() - n,
    {
        let id: u64 = ids[n];
        let ghost before = out@;
        let mut i: usize = out.len();
        while i > 0 && out[i - 1] > id
            invariant
                i <= out@.len(),
                out@ == before,
                forall|k: int| i <= k < out@.len() ==> #[trigger] before[k] > id,
            decreases i,
        {
            i = i - 1;
        }
        proof {
            lemma_placed_id_at(before, id, i as int);
            assert(ids@.take(n + 1).drop_last() =~= ids@.take(n as int));
        }
        out.insert(i, id);
        n = n + 1;
    }
    assert(ids@.take(n as int) =~= ids@);
    out
}

/// An item put in its place among lined_up ones, behind those that may stand
/// before it.
pub open spec fn placed<A>(s: Seq<A>, x: A, le: spec_fn(A, A) -> bool) -> Seq<A>
    decreases s.len(),
{
    if s.len() == 0 || le(s.last(), x) {
        s.push(x)
    } else {
        placed(s.drop_last(), x, le).push(s.last())
    }
}

/// The items in the order of `le`; those that it does not tell apart stay as
/// they were.
pub open spec fn lined_up<A>(s: Seq<A>, le: spec_fn(A, A) -> bool) -> Seq<A>
    decreases s.len(),
{
    if s.len() == 0 {
        Seq::empty()
    } else {
        placed(lined_up(s.drop_last(), le), s.last(), le)
    }
}

/// Whether each item may stand before all that follow it.
pub open spec fn in_order<A>(s: Seq<A>, le: spec_fn(A, A) -> bool) -> bool {
    forall|i: int, j: int| 0 <= i < j < s.len() ==> le(#[trigger] s[i], #[trigger] s[j])
}

/// Whether all items may stand before another.
pub open spec fn all_before<A>(s: Seq<A>, a: A, le: spec_fn(A, A) -> bool) -> bool {
    forall|i: int| 0 <= i < s.len() ==> le(#[trigger] s[i], a)
}

/// Where the place of an item is found.
pub proof fn lemma_placed_at<A>(s: Seq<A>, x: A, le: spec_fn(A, A) -> bool, i: int)
    requires
        0 <= i <= s.len(),
        forall|k: int| i <= k < s.len() ==> !le(#[trigger] s[k], x),
        i > 0 ==> le(s[i - 1], x),
    ensures
        placed(s, x, le) == s.insert(i, x),
    decreases s.len(),
{
    if i == s.len() {
        assert(s.insert(i, x) =~= s.push(x));
    } else {
        assert(!le(s[s.len() - 1], x));
        lemma_placed_at(s.drop_last(), x, le, i);
        assert(s.insert(i, x) =~= s.drop_last().insert(i, x).push(s.last()));
    }
}

proof fn lemma_placed<A>(s: Seq<A>, x: A, le: spec_fn(A, A) -> bool)
    requires
        in_order(s, le),
        forall|a: A, b: A| #[trigger] le(a, b) || le(b, a),
        forall|a: A, b: A, c: A| #[trigger] le(a, b) && #[trigger] le(b, c) ==> le(a, c),
    ensures
        in_order(placed(s, x, le), le),
        placed(s, x, le).to_multiset() == s.to_multiset().insert(x),
        forall|a: A| #[trigger]
            all_before(s, a, le) && le(x, a) ==> all_before(placed(s, x, le), a, le),
    decreases s.len(),
{
    broadcast use vstd::seq_lib::group_to_multiset_ensures;

    let out = placed(s, x, le);
    if s.len() == 0 || le(s.last(), x) {
        assert forall|i: int, j: int| 0 <= i < j < out.len() implies le(
            #[trigger] out[i],
            #[trigger] out[j],
        ) by {
            if j == s.len() && i < s.len() - 1 {
                assert(le(s[i], s[s.len() - 1]));
            }
        }
    } else {
        let head = s.drop_last();
        assert forall|i: int, j: int| 0 <= i < j < head.len() implies le(
            #[trigger] head[i],
            #[trigger] head[j],
        ) by {
            assert(le(s[i], s[j]));
        }
        lemma_placed(head, x, le);
        let mid = placed(head, x, le);
        assert(le(x, s.last()));
        assert(all_before(head, s.last(), le)) by {
            assert forall|i: int| 0 <= i < head.len() implies le(#[trigger] head[i], s.last()) by {
                assert(le(s[i], s[s.len() - 1]));
            }
        }
        assert(all_before(mid, s.last(), le));
        assert forall|i: int, j: int| 0 <= i < j < out.len() implies le(
            #[trigger] out[i],
            #[trigger] out[j],
        ) by {
            if j == mid.len() {
                assert(le(mid[i], s.last()));
            } else {
                assert(le(mid[i], mid[j]));
            }
        }
        assert forall|a: A| #[trigger] all_before(s, a, le) && le(x, a) implies all_before(
            out,
            a,
            le,
        ) by {
            assert forall|i: int| 0 <= i < head.len() implies le(#[trigger] head[i], a) by {
                assert(le(s[i], a));
            }
            assert(all_before(head, a, le));
            assert(le(s[s.len() - 1], a));
            assert forall|i: int| 0 <= i < out.len() implies le(#[trigger] out[i], a) by {
                if i < mid.len() {
                    assert(le(mid[i], a));
                }
            }
        }
        assert(s =~= head.push(s.last()));
        assert(head.to_multiset().insert(x).insert(s.last()) =~= head.to_multiset().insert(
            s.last(),
        ).insert(x));
    }
}

/// Lining items up by a total order puts them in that order, and neither adds
/// nor drops one.
pub proof fn law_lining_up_orders_and_keeps<A>(s: Seq<A>, le: spec_fn(A, A) -> bool)
    requires
        forall|a: A, b: A| #[trigger] le(a, b) || le(b, a),
        forall|a: A, b: A, c: A| #[trigger] le(a, b) && #[trigger] le(b, c) ==> le(a, c),
    ensures
        in_order(lined_up(s, le), le),
        lined_up(s, le).to_multiset() == s.to_multiset(),
    decreases s.len(),
{
    broadcast use vstd::seq_lib::group_to_multiset_ensures;

    if s.len() > 0 {
        law_lining_up_orders_and_keeps(s.drop_last(), le);
        lemma_placed(lined_up(s.drop_last(), le), s.last(), le);
        assert(s =~= s.drop_last().push(s.last()));
    } else {
        assert(lined_up(s, le) =~= s);
    }
}

} // verus!
