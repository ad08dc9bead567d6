//! The order of texts, character by character.
use crate::lists::{lemma_placed_at, lined_up};
use crate::text::{chars_of, texts};
use vstd::prelude::*;
use vstd::string::*;

verus! {

/// How two things stand to each other.
#[derive(Debug, Clone, Copy, PartialEq, Eq, Structural)]
pub enum Rank {
    Less,
    Equal,
    Greater,
}

/// Whether `a` comes before `b` or is `b`: the first character in which they
/// differ decides, and a text comes behind each of its beginnings.
pub open spec fn text_le(a: Seq<char>, b: Seq<char>) -> bool
    decreases a.len(),
{
    if a.len() == 0 {
        true
    } else if b.len() == 0 {
        false
    } else if a[0] != b[0] {
        a[0] < b[0]
    } else {
        text_le(a.drop_first(), b.drop_first())
    }
}

/// The order of texts is total.
pub proof fn law_text_order_is_total(a: Seq<char>, b: Seq<char>)
    ensures
        text_le(a, a),
        text_le(a, b) || text_le(b, a),
        text_le(a, b) && text_le(b, a) ==> a == b,
    decreases a.len(),
{
    if a.len() > 0 {
        if b.len() > 0 && a[0] == b[0] {
            law_text_order_is_total(a.drop_first(), b.drop_first());
            if a.drop_first() == b.drop_first() {
                assert(a =~= seq![a[0]] + a.drop_first());
                assert(b =~= seq![b[0]] + b.drop_first());
            }
        } else {
            law_text_order_is_total(a.drop_first(), a.drop_first());
        }
    } else {
        if b.len() == 0 {
            assert(a =~= b);
        }
    }
}

/// The order of texts is transitive.
pub proof fn law_text_order_is_transitive(a: Seq<char>, b: Seq<char>, c: Seq<char>)
    requires
        text_le(a, b),
        text_le(b, c),
    ensures
        text_le(a, c),
    decreases a.len(),
{
    if a.len() > 0 && b.len() > 0 && c.len() > 0 && a[0] == b[0] && b[0] == c[0] {
        law_text_order_is_transitive(a.drop_first(), b.drop_first(), c.drop_first());
    }
}

/// How `rank` reads for texts.
pub open spec fn ranks(a: Seq<char>, b: Seq<char>, rank: Rank) -> bool {
    match rank {
        Rank::Less => text_le(a, b) && a != b,
        Rank::Equal => a == b,
        Rank::Greater => text_le(b, a) && a != b,
    }
}

/// Compares two texts.
pub fn rank(a: &str, b: &str) -> (r: Rank)
    ensures
        ranks(a@, b@, r),
{
    let x: Vec<char> = chars_of(a);
    let y: Vec<char> = chars_of(b);
    let mut i: usize = 0;
    assert(x@.skip(0) =~= x@ && y@.skip(0) =~= y@);
    loop
        invariant
            i <= x@.len(),
            i <= y@.len(),
            x@ == a@,
            y@ == b@,
            x@.take(i as int) == y@.take(i as int),
            text_le(x@, y@) == text_le(x@.skip(i as int), y@.skip(i as int)),
            text_le(y@, x@) == text_le(y@.skip(i as int), x@.skip(i as int)),
        decreases x@.len() - i,
    {
        let ghost xs = x@.skip(i as int);
        let ghost ys = y@.skip(i as int);
        if i == x.len() {
            if i == y.len() {
                proof {
                    assert(x@.take(i as int) =~= x@);
                    assert(y@.take(i as int) =~= y@);
                }
                return Rank::Equal;
            }
            return Rank::Less;
        }
        if i == y.len() {
            return Rank::Greater;
        }
        if x[i] < y[i] {
            assert(xs[0] != ys[0]);
            return Rank::Less;
        }
        if x[i] > y[i] {
            assert(xs[0] != ys[0]);
            return Rank::Greater;
        }
        proof {
            assert(xs.drop_first() =~= x@.skip(i + 1));
            assert(ys.drop_first() =~= y@.skip(i + 1));
            assert(x@.take(i + 1) =~= x@.take(i as int).push(x@[i as int]));
            assert(y@.take(i + 1) =~= y@.take(i as int).push(y@[i as int]));
        }
        i = i + 1;
    }
}

/// Whether the bytes `a` come before the bytes `b` or are the same: the first
/// byte in which they differ decides, and bytes come behind each of their
/// beginnings.
pub open spec fn bytes_le(a: Seq<u8>, b: Seq<u8>) -> bool
    decreases a.len(),
{
    if a.len() == 0 {
        true
    } else if b.len() == 0 {
        false
    } else if a[0] != b[0] {
        a[0] < b[0]
    } else {
        bytes_le(a.drop_first(), b.drop_first())
    }
}

/// The order of bytes is total.
pub proof fn law_byte_order_is_total(a: Seq<u8>, b: Seq<u8>)
    ensures
        bytes_le(a, a),
        bytes_le(a, b) || bytes_le(b, a),
        bytes_le(a, b) && bytes_le(b, a) ==> a == b,
    decreases a.len(),
{
    if a.len() > 0 {
        law_byte_order_is_total(a.drop_first(), a.drop_first());
        if b.len() > 0 && a[0] == b[0] {
            law_byte_order_is_total(a.drop_first(), b.drop_first());
            if a.drop_first() == b.drop_first() {
                assert(a =~= seq![a[0]] + a.drop_first());
                assert(b =~= seq![b[0]] + b.drop_first());
            }
        }
    } else if b.len() == 0 {
        assert(a =~= b);
    }
}

/// The order of bytes is transitive.
pub proof fn law_byte_order_is_transitive(a: Seq<u8>, b: Seq<u8>, c: Seq<u8>)
    requires
        bytes_le(a, b),
        bytes_le(b, c),
    ensures
        bytes_le(a, c),
    decreases a.len(),
{
    if a.len() > 0 && b.len() > 0 && c.len() > 0 && a[0] == b[0] && b[0] == c[0] {
        law_byte_order_is_transitive(a.drop_first(), b.drop_first(), c.drop_first());
    }
}

/// Whether the bytes `a` come before the bytes `b` or are the same.
pub fn bytes_in_order(a: &Vec<u8>, b: &Vec<u8>) -> (r: bool)
    ensures
        r == bytes_le(a@, b@),
{
    let mut i: usize = 0;
    assert(a@.skip(0) =~= a@ && b@.skip(0) =~= b@);
    loop
        invariant
            i <= a@.len(),
            i <= b@.len(),
            bytes_le(a@, b@) == bytes_le(a@.skip(i as int), b@.skip(i as int)),
        decreases a@.len() - i,
    {
        if i == a.len() {
            return true;
        }
        if i == b.len() {
            return false;
        }
        if a[i] != b[i] {
            return a[i] < b[i];
        }
        proof {
            assert(a@.skip(i as int).drop_first() =~= a@.skip(i + 1));
            assert(b@.skip(i as int).drop_first() =~= b@.skip(i + 1));
        }
        i = i + 1;
    }
}

/// `t` put in its place among ordered texts; left out where it is there.
pub open spec fn placed_once(sorted: Seq<Seq<char>>, t: Seq<char>) -> Seq<Seq<char>>
    decreases sorted.len(),
{
    if sorted.len() == 0 {
        seq![t]
    } else if sorted.last() == t {
        sorted
    } else if text_le(sorted.last(), t) {
        sorted.push(t)
    } else {
        placed_once(sorted.drop_last(), t).push(sorted.last())
    }
}

/// The texts in order, each once.
pub open spec fn sorted_once(s: Seq<Seq<char>>) -> Seq<Seq<char>>
    decreases s.len(),
{
    if s.len() == 0 {
        Seq::empty()
    } else {
        placed_once(sorted_once(s.drop_last()), s.last())
    }
}

/// Whether each text comes before all that follow it, and none occurs twice.
pub open spec fn strictly_ordered(s: Seq<Seq<char>>) -> bool {
    forall|i: int, j: int|
        0 <= i < j < s.len() ==> text_le(#[trigger] s[i], #[trigger] s[j]) && s[i] != s[j]
}

proof fn lemma_placed_once(s: Seq<Seq<char>>, t: Seq<char>)
    requires
        strictly_ordered(s),
    ensures
        strictly_ordered(placed_once(s, t)),
        forall|x: Seq<char>| #[trigger]
            placed_once(s, t).contains(x) <==> x == t || s.contains(x),
    decreases s.len(),
{
    let out = placed_once(s, t);
    if s.len() == 0 {
        assert(out[0] == t);
    } else if s.last() == t {
        assert(s[s.len() - 1] == t);
    } else if text_le(s.last(), t) {
        assert forall|i: int, j: int| 0 <= i < j < out.len() implies text_le(
            #[trigger] out[i],
            #[trigger] out[j],
        ) && out[i] != out[j] by {
            if j == s.len() && i < s.len() - 1 {
                assert(text_le(s[i], s[s.len() - 1]));
                law_text_order_is_transitive(s[i], s.last(), t);
                law_text_order_is_total(s[i], s.last());
                law_text_order_is_total(s.last(), t);
            } else if j < s.len() {
                assert(text_le(s[i], s[j]));
            }
        }
        assert forall|x: Seq<char>| #[trigger] out.contains(x) <==> x == t || s.contains(x) by {
            assert(out[s.len() as int] == t);
            if out.contains(x) {
                let i = choose|i: int| 0 <= i < out.len() && out[i] == x;
                if i < s.len() {
                    assert(s[i] == x);
                }
            }
            if s.contains(x) {
                let i = choose|i: int| 0 <= i < s.len() && s[i] == x;
                assert(out[i] == x);
            }
        }
    } else {
        let head = s.drop_last();
        assert forall|i: int, j: int| 0 <= i < j < head.len() implies text_le(
            #[trigger] head[i],
            #[trigger] head[j],
        ) && head[i] != head[j] by {
            assert(text_le(s[i], s[j]));
        }
        lemma_placed_once(head, t);
        let mid = placed_once(head, t);
        assert forall|i: int, j: int| 0 <= i < j < out.len() implies text_le(
            #[trigger] out[i],
            #[trigger] out[j],
        ) && out[i] != out[j] by {
            if j == mid.len() {
                assert(mid.contains(mid[i]));
                if mid[i] == t {
                    law_text_order_is_total(s.last(), t);
                } else {
                    assert(head.contains(mid[i]));
                    let k = choose|k: int| 0 <= k < head.len() && head[k] == mid[i];
                    assert(text_le(s[k], s[s.len() - 1]));
                }
            } else {
                assert(text_le(mid[i], mid[j]));
            }
        }
        assert forall|x: Seq<char>| #[trigger] out.contains(x) <==> x == t || s.contains(x) by {
            if out.contains(x) {
                let i = choose|i: int| 0 <= i < out.len() && out[i] == x;
                if i < mid.len() {
                    assert(mid[i] == x);
                    assert(mid.contains(x));
                    if x != t {
                        assert(head.contains(x));
                        let k = choose|k: int| 0 <= k < head.len() && head[k] == x;
                        assert(s[k] == x);
                    }
                } else {
                    assert(s[s.len() - 1] == x);
                }
            }
            if x == t || s.contains(x) {
                if x == t || head.contains(x) {
                    assert(mid.contains(x));
                    let k = choose|k: int| 0 <= k < mid.len() && mid[k] == x;
                    assert(out[k] == x);
                } else {
                    let k = choose|k: int| 0 <= k < s.len() && s[k] == x;
                    if k < head.len() {
                        assert(head[k] == x);
                    }
                    assert(out[mid.len() as int] == x);
                }
            }
        }
    }
}

/// Sorting puts the texts in order, drops repetitions and nothing else.
pub proof fn law_sorting_once_orders_and_keeps(s: Seq<Seq<char>>)
    ensures
        strictly_ordered(sorted_once(s)),
        forall|x: Seq<char>| #[trigger] sorted_once(s).contains(x) <==> s.contains(x),
    decreases s.len(),
{
    if s.len() > 0 {
        let head = s.drop_last();
        law_sorting_once_orders_and_keeps(head);
        lemma_placed_once(sorted_once(head), s.last());
        assert forall|x: Seq<char>| #[trigger] sorted_once(s).contains(x) <==> s.contains(x) by {
            if s.contains(x) {
                let k = choose|k: int| 0 <= k < s.len() && s[k] == x;
                if k < head.len() {
                    assert(head[k] == x);
                }
            }
            if head.contains(x) {
                let k = choose|k: int| 0 <= k < head.len() && head[k] == x;
                assert(s[k] == x);
            }
            assert(s[s.len() - 1] == s.last());
        }
    }
}

proof fn lemma_placed_once_at(s: Seq<Seq<char>>, t: Seq<char>, i: int)
    requires
        0 <= i <= s.len(),
        forall|k: int| i <= k < s.len() ==> !text_le(#[trigger] s[k], t),
        i > 0 ==> text_le(s[i - 1], t) && s[i - 1] != t,
    ensures
        placed_once(s, t) == s.insert(i, t),
    decreases s.len(),
{
    if s.len() == 0 {
        assert(s.insert(i, t) =~= seq![t]);
    } else if i == s.len() {
        assert(s.insert(i, t) =~= s.push(t));
    } else {
        assert(!text_le(s[s.len() - 1], t));
        law_text_order_is_total(t, t);
        lemma_placed_once_at(s.drop_last(), t, i);
        assert(s.insert(i, t) =~= s.drop_last().insert(i, t).push(s.last()));
    }
}

proof fn lemma_placed_once_there(s: Seq<Seq<char>>, t: Seq<char>, i: int)
    requires
        0 <= i < s.len(),
        s[i] == t,
        forall|k: int| i < k < s.len() ==> !text_le(#[trigger] s[k], t),
    ensures
        placed_once(s, t) == s,
    decreases s.len(),
{
    if i < s.len() - 1 {
        assert(!text_le(s[s.len() - 1], t));
        law_text_order_is_total(t, t);
        lemma_placed_once_there(s.drop_last(), t, i);
        assert(s =~= s.drop_last().push(s.last()));
    }
}

/// Puts texts in order, each once.
pub fn sort_once(items: &Vec<String>) -> (r: Vec<String>)
    ensures
        texts(r@) == sorted_once(texts(items@)),
{
    let mut out: Vec<String> = Vec::new();
    let mut n: usize = 0;
    assert(texts(out@) =~= Seq::<Seq<char>>::empty());
    while n < items.len()
        invariant
            n <= items@.len(),
            texts(out@) == sorted_once(texts(items@.take(n as int))),
        decreases items@.len() - n,
    {
        let ghost before = texts(out@);
        let ghost t = items@[n as int]@;
        let mut i: usize = out.len();
        let mut there: bool = false;
        while i > 0
            invariant_except_break
                i <= out@.len(),
                n < items@.len(),
                t == items@[n as int]@,
                before == texts(out@),
                !there,
                forall|k: int| i <= k < out@.len() ==> !text_le(#[trigger] before[k], t),
            ensures
                i <= out@.len(),
                before == texts(out@),
                t == items@[n as int]@,
                forall|k: int| i <= k < out@.len() ==> !text_le(#[trigger] before[k], t),
                there ==> i > 0 && before[i - 1] == t,
                !there && i > 0 ==> text_le(before[i - 1], t) && before[i - 1] != t,
            decreases i,
        {
            match rank(out[i - 1].as_str(), items[n].as_str()) {
                Rank::Less => {
                    break;
                },
                Rank::Equal => {
                    there = true;
                    break;
                },
                Rank::Greater => {
                    proof {
                        law_text_order_is_total(before[i - 1], t);
                    }
                    i = i - 1;
                },
            }
        }
        proof {
            let all = texts(items@.take(n + 1));
            assert(all.drop_last() =~= texts(items@.take(n as int)));
            assert(all.last() == t);
            if there {
                lemma_placed_once_there(before, t, i - 1);
            } else {
                lemma_placed_once_at(before, t, i as int);
            }
        }
        if !there {
            let ghost raw = out@;
            let copy: String = items[n].clone();
            out.insert(i, copy);
            assert(texts(out@) =~= before.insert(i as int, t));
        }
        n = n + 1;
    }
    assert(items@.take(n as int) =~= items@);
    out
}

/// The order of texts, repetitions allowed.
pub open spec fn by_text() -> spec_fn(String, String) -> bool {
    |a: String, b: String| text_le(a@, b@)
}

/// Puts texts in order and keeps them all.
pub fn sort_texts(given: &Vec<String>) -> (r: Vec<String>)
    ensures
        r@ == lined_up(given@, by_text()),
{
    let ghost le = by_text();
    let mut out: Vec<String> = Vec::new();
    let mut n: usize = 0;
    while n < given.len()
        invariant
            n <= given@.len(),
            le == by_text(),
            out@ == lined_up(given@.take(n as int), le),
        decreases given@.len() - n,
    {
        let one: String = given[n].clone();
        assert(given@.take(n + 1).drop_last() =~= given@.take(n as int));
        let ghost before = out@;
        let mut i: usize = out.len();
        while i > 0
            invariant_except_break
                i <= out@.len(),
                out@ == before,
                le == by_text(),
                forall|k: int| i <= k < out@.len() ==> !le(#[trigger] before[k], one),
            ensures
                i <= out@.len(),
                out@ == before,
                forall|k: int| i <= k < out@.len() ==> !le(#[trigger] before[k], one),
                i > 0 ==> le(before[i - 1], one),
            decreases i,
        {
            proof {
                law_text_order_is_total(before[i - 1]@, one@);
            }
            match rank(out[i - 1].as_str(), one.as_str()) {
                Rank::Greater => {},
                _ => {
                    break;
                },
            }
            i = i - 1;
        }
        proof {
            lemma_placed_at(before, one, le, i as int);
        }
        out.insert(i, one);
        n = n + 1;
    }
    assert(given@.take(n as int) =~= given@);
    out
}

/// Of two texts that agree up to a place, the one with the smaller character
/// there comes first; and a text comes before every longer one that begins with
/// it.
pub proof fn law_the_first_difference_decides(a: &str, b: &str, n: int, r: Rank)
    requires
        call_ensures(rank, (a, b), r),
        0 <= n <= a@.len(),
        n <= b@.len(),
        a@.take(n) == b@.take(n),
    ensures
        n < a@.len() && n < b@.len() && a@[n] < b@[n] ==> r is Less,
        n < a@.len() && n < b@.len() && a@[n] > b@[n] ==> r is Greater,
        n == a@.len() && n < b@.len() ==> r is Less,
        n == b@.len() && n < a@.len() ==> r is Greater,
        r is Equal <==> a@ == b@,
{
    lemma_skip_common(a@, b@, n);
    let x = a@.skip(n);
    let y = b@.skip(n);
    if n < a@.len() && n < b@.len() {
        assert(x[0] == a@[n] && y[0] == b@[n]);
    }
}

proof fn lemma_skip_common(a: Seq<char>, b: Seq<char>, n: int)
    requires
        0 <= n <= a.len(),
        n <= b.len(),
        a.take(n) == b.take(n),
    ensures
        text_le(a, b) == text_le(a.skip(n), b.skip(n)),
        text_le(b, a) == text_le(b.skip(n), a.skip(n)),
    decreases n,
{
    if n == 0 {
        assert(a.skip(0) =~= a && b.skip(0) =~= b);
    } else {
        assert(a[0] == a.take(n)[0]);
        assert(b[0] == b.take(n)[0]);
        let x = a.drop_first();
        let y = b.drop_first();
        assert(x.take(n - 1) =~= a.take(n).drop_first());
        assert(y.take(n - 1) =~= b.take(n).drop_first());
        lemma_skip_common(x, y, n - 1);
        assert(x.skip(n - 1) =~= a.skip(n));
        assert(y.skip(n - 1) =~= b.skip(n));
    }
}

/// Of two runs of bytes that agree up to a place, the one with the smaller byte
/// there comes first.
pub proof fn law_the_first_byte_that_differs_decides(a: Vec<u8>, b: Vec<u8>, n: int, r: bool)
    requires
        call_ensures(bytes_in_order, (&a, &b), r),
        0 <= n <= a@.len(),
        n <= b@.len(),
        a@.take(n) == b@.take(n),
    ensures
        n < a@.len() && n < b@.len() && a@[n] < b@[n] ==> r,
        n < a@.len() && n < b@.len() && a@[n] > b@[n] ==> !r,
        n == a@.len() ==> r,
        n == b@.len() && n < a@.len() ==> !r,
{
    lemma_skip_common_bytes(a@, b@, n);
    let x = a@.skip(n);
    let y = b@.skip(n);
    if n < a@.len() && n < b@.len() {
        assert(x[0] == a@[n] && y[0] == b@[n]);
    }
}

proof fn lemma_skip_common_bytes(a: Seq<u8>, b: Seq<u8>, n: int)
    requires
        0 <= n <= a.len(),
        n <= b.len(),
        a.take(n) == b.take(n),
    ensures
        bytes_le(a, b) == bytes_le(a.skip(n), b.skip(n)),
    decreases n,
{
    if n == 0 {
        assert(a.skip(0) =~= a && b.skip(0) =~= b);
    } else {
        assert(a[0] == a.take(n)[0]);
        assert(b[0] == b.take(n)[0]);
        let x = a.drop_first();
        let y = b.drop_first();
        assert(x.take(n - 1) =~= a.take(n).drop_first());
        assert(y.take(n - 1) =~= b.take(n).drop_first());
        lemma_skip_common_bytes(x, y, n - 1);
        assert(x.skip(n - 1) =~= a.skip(n));
        assert(y.skip(n - 1) =~= b.skip(n));
    }
}

} // verus!
