//! Stable ordering by a number and then a text.
use vstd::prelude::*;

use crate::text::{chars_of, code_point};

verus! {

/// The place of an item in a list: first by number, equal numbers by text.
pub struct Rank {
    pub number: i128,
    pub id: String,
}

impl View for Rank {
    type V = (int, Seq<char>);

    open spec fn view(&self) -> (int, Seq<char>) {
        (self.number as int, self.id@)
    }
}

/// Texts in order of their characters' code points, a prefix first.
pub open spec fn text_le(a: Seq<char>, b: Seq<char>) -> bool
    decreases a.len(),
{
    if a.len() == 0 {
        true
    } else if b.len() == 0 {
        false
    } else if a[0] == b[0] {
        text_le(a.subrange(1, a.len() as int), b.subrange(1, b.len() as int))
    } else {
        (a[0] as int) < (b[0] as int)
    }
}

/// `a` stands no later than `b`.
pub open spec fn rank_le(a: (int, Seq<char>), b: (int, Seq<char>)) -> bool {
    a.0 < b.0 || (a.0 == b.0 && text_le(a.1, b.1))
}

/// `s` with `x` put in behind every item at its end that does not rank above it.
pub open spec fn placed<T>(s: Seq<T>, x: T, key: spec_fn(T) -> (int, Seq<char>)) -> Seq<T>
    decreases s.len(),
{
    if s.len() == 0 || rank_le(key(s.last()), key(x)) {
        s.push(x)
    } else {
        placed(s.drop_last(), x, key).push(s.last())
    }
}

/// The items of `s` in order of `key`; items of equal rank keep their order.
pub open spec fn ordered<T>(s: Seq<T>, key: spec_fn(T) -> (int, Seq<char>)) -> Seq<T>
    decreases s.len(),
{
    if s.len() == 0 {
        s
    } else {
        placed(ordered(s.drop_last(), key), s.last(), key)
    }
}

/// Each item ranks no later than those behind it.
pub open spec fn in_order<T>(s: Seq<T>, key: spec_fn(T) -> (int, Seq<char>)) -> bool {
    forall|i: int, j: int| 0 <= i < j < s.len() ==> rank_le(key(#[trigger] s[i]), key(#[trigger] s[j]))
}

/// Any two texts are comparable.
pub proof fn text_le_total(a: Seq<char>, b: Seq<char>)
    ensures
        text_le(a, b) || text_le(b, a),
    decreases a.len(),
{
    if a.len() > 0 && b.len() > 0 {
        let (x, y) = (a[0], b[0]);
        if x == y {
            text_le_total(a.subrange(1, a.len() as int), b.subrange(1, b.len() as int));
        } else {
            assert(x as int != y as int);
        }
    }
}

/// The order of texts is transitive.
pub proof fn text_le_transitive(a: Seq<char>, b: Seq<char>, c: Seq<char>)
    requires
        text_le(a, b),
        text_le(b, c),
    ensures
        text_le(a, c),
    decreases a.len(),
{
    if a.len() > 0 && b.len() > 0 && c.len() > 0 && a[0] == b[0] && b[0] == c[0] {
        text_le_transitive(
            a.subrange(1, a.len() as int),
            b.subrange(1, b.len() as int),
            c.subrange(1, c.len() as int),
        );
    }
}

proof fn placed_len<T>(s: Seq<T>, x: T, key: spec_fn(T) -> (int, Seq<char>))
    ensures
        placed(s, x, key).len() == s.len() + 1,
    decreases s.len(),
{
    if s.len() > 0 && !rank_le(key(s.last()), key(x)) {
        placed_len(s.drop_last(), x, key);
    }
}

proof fn placed_multiset<T>(s: Seq<T>, x: T, key: spec_fn(T) -> (int, Seq<char>))
    ensures
        placed(s, x, key).to_multiset() == s.to_multiset().insert(x),
    decreases s.len(),
{
    broadcast use vstd::seq_lib::group_to_multiset_ensures;

    if s.len() > 0 && !rank_le(key(s.last()), key(x)) {
        placed_multiset(s.drop_last(), x, key);
        assert(s =~= s.drop_last().push(s.last()));
        assert(placed(s, x, key).to_multiset() =~= s.to_multiset().insert(x));
    }
}

/// Ordering a list neither loses nor invents an item.
pub proof fn ordered_is_permutation<T>(s: Seq<T>, key: spec_fn(T) -> (int, Seq<char>))
    ensures
        ordered(s, key).to_multiset() == s.to_multiset(),
        ordered(s, key).len() == s.len(),
    decreases s.len(),
{
    broadcast use vstd::seq_lib::group_to_multiset_ensures;

    if s.len() > 0 {
        ordered_is_permutation(s.drop_last(), key);
        placed_multiset(ordered(s.drop_last(), key), s.last(), key);
        placed_len(ordered(s.drop_last(), key), s.last(), key);
        assert(s =~= s.drop_last().push(s.last()));
    }
}

/// Each item of `placed(s, x, key)` is `x` or one of `s`.
proof fn placed_members<T>(s: Seq<T>, x: T, key: spec_fn(T) -> (int, Seq<char>), i: int)
    requires
        0 <= i < placed(s, x, key).len(),
    ensures
        placed(s, x, key)[i] == x || exists|j: int| 0 <= j < s.len() && placed(s, x, key)[i] == s[j],
    decreases s.len(),
{
    placed_len(s, x, key);
    if s.len() > 0 && !rank_le(key(s.last()), key(x)) {
        if i < s.len() {
            placed_len(s.drop_last(), x, key);
            placed_members(s.drop_last(), x, key, i);
            if placed(s.drop_last(), x, key)[i] != x {
                let j = choose|j: int|
                    0 <= j < s.drop_last().len() && placed(s.drop_last(), x, key)[i]
                        == s.drop_last()[j];
                assert(placed(s, x, key)[i] == s[j]);
            }
        } else {
            assert(placed(s, x, key)[i] == s[s.len() - 1]);
        }
    } else if i < s.len() {
        assert(placed(s, x, key)[i] == s[i]);
    }
}

proof fn placed_in_order<T>(s: Seq<T>, x: T, key: spec_fn(T) -> (int, Seq<char>))
    requires
        in_order(s, key),
    ensures
        in_order(placed(s, x, key), key),
    decreases s.len(),
{
    let p = placed(s, x, key);
    placed_len(s, x, key);
    if s.len() == 0 {
    } else if rank_le(key(s.last()), key(x)) {
        assert forall|i: int, j: int| 0 <= i < j < p.len() implies rank_le(
            key(#[trigger] p[i]),
            key(#[trigger] p[j]),
        ) by {
            if j == s.len() {
                if i < s.len() - 1 {
                    assert(rank_le(key(s[i]), key(s[s.len() - 1])));
                    if key(s[i]).0 == key(x).0 {
                        text_le_transitive(key(s[i]).1, key(s.last()).1, key(x).1);
                    }
                }
            } else {
                assert(p[i] == s[i] && p[j] == s[j]);
            }
        }
    } else {
        let q = placed(s.drop_last(), x, key);
        assert(in_order(s.drop_last(), key));
        placed_in_order(s.drop_last(), x, key);
        placed_len(s.drop_last(), x, key);
        text_le_total(key(s.last()).1, key(x).1);
        assert forall|i: int, j: int| 0 <= i < j < p.len() implies rank_le(
            key(#[trigger] p[i]),
            key(#[trigger] p[j]),
        ) by {
            if j == q.len() {
                placed_members(s.drop_last(), x, key, i);
                if q[i] != x {
                    let m = choose|m: int| 0 <= m < s.drop_last().len() && q[i] == s.drop_last()[m];
                    assert(rank_le(key(s[m]), key(s[s.len() - 1])));
                }
            } else {
                assert(p[i] == q[i] && p[j] == q[j]);
            }
        }
    }
}

/// The ordered list is in order.
pub proof fn ordered_is_in_order<T>(s: Seq<T>, key: spec_fn(T) -> (int, Seq<char>))
    ensures
        in_order(ordered(s, key), key),
    decreases s.len(),
{
    if s.len() > 0 {
        ordered_is_in_order(s.drop_last(), key);
        placed_in_order(ordered(s.drop_last(), key), s.last(), key);
    }
}

/// Whether `a` stands no later than `b` as text.
pub fn text_not_after(a: &str, b: &str) -> (r: bool)
    ensures
        r == text_le(a@, b@),
{
    let x: Vec<char> = chars_of(a);
    let y: Vec<char> = chars_of(b);
    let mut i: usize = 0;
    proof {
        assert(a@.subrange(0, a@.len() as int) =~= a@);
        assert(b@.subrange(0, b@.len() as int) =~= b@);
    }
    while i < x.len() && i < y.len() && x[i] == y[i]
        invariant
            i <= x@.len(),
            i <= y@.len(),
            x@ == a@,
            y@ == b@,
            text_le(a@, b@) == text_le(
                a@.subrange(i as int, a@.len() as int),
                b@.subrange(i as int, b@.len() as int),
            ),
        decreases x@.len() - i,
    {
        proof {
            let ra = a@.subrange(i as int, a@.len() as int);
            let rb = b@.subrange(i as int, b@.len() as int);
            assert(ra.subrange(1, ra.len() as int) =~= a@.subrange(i + 1, a@.len() as int));
            assert(rb.subrange(1, rb.len() as int) =~= b@.subrange(i + 1, b@.len() as int));
        }
        i += 1;
    }
    if i == x.len() {
        true
    } else if i == y.len() {
        false
    } else {
        code_point(x[i]) < code_point(y[i])
    }
}

fn not_after(a: &Rank, b: &Rank) -> (r: bool)
    ensures
        r == rank_le(a@, b@),
{
    a.number < b.number || (a.number == b.number && text_not_after(a.id.as_str(), b.id.as_str()))
}

/// Puts the items of `v` in order of their ranks.
pub fn sort_ranked<T>(
    v: &mut Vec<T>,
    ranks: Vec<Rank>,
    Ghost(key): Ghost<spec_fn(T) -> (int, Seq<char>)>,
)
    requires
        ranks@.len() == old(v)@.len(),
        forall|i: int| 0 <= i < ranks@.len() ==> (#[trigger] ranks@[i])@ == key(old(v)@[i]),
    ensures
        final(v)@ == ordered(old(v)@, key),
{
    let mut ranks: Vec<Rank> = ranks;
    let n: usize = v.len();
    let ghost s = v@;
    let mut i: usize = 0;
    proof {
        assert(s.take(0) =~= Seq::<T>::empty());
        assert(v@ =~= ordered(s.take(0), key) + s.skip(0));
    }
    while i < n
        invariant
            i <= n == s.len(),
            v@.len() == n,
            ranks@.len() == n,
            ordered(s.take(i as int), key).len() == i,
            v@ == ordered(s.take(i as int), key) + s.skip(i as int),
            forall|j: int| 0 <= j < n ==> (#[trigger] ranks@[j])@ == key(v@[j]),
        decreases n - i,
    {
        let ghost head = ordered(s.take(i as int), key);
        let ghost x = s[i as int];
        let mut j: usize = i;
        proof {
            assert(v@[i as int] == x);
            assert(head.take(i as int) =~= head);
            assert(placed(head, x, key) =~= placed(head.take(i as int), x, key) + head.skip(i as int));
        }
        while j > 0 && !not_after(&ranks[j - 1], &ranks[i])
            invariant
                j <= i < n,
                v@.len() == n,
                ranks@.len() == n,
                head.len() == i,
                forall|q: int| 0 <= q < n ==> (#[trigger] ranks@[q])@ == key(v@[q]),
                forall|q: int| 0 <= q < i ==> v@[q] == head[q],
                v@[i as int] == x,
                placed(head, x, key) == placed(head.take(j as int), x, key) + head.skip(j as int),
            decreases j,
        {
            proof {
                let cut = head.take(j as int);
                assert(cut.last() == v@[j - 1]);
                assert(cut.drop_last() =~= head.take(j - 1));
                let p = placed(head.take(j - 1), x, key);
                assert(p.push(head[j - 1]) + head.skip(j as int) =~= p + head.skip(j - 1));
            }
            j -= 1;
        }
        proof {
            if j > 0 {
                assert(head.take(j as int).last() == v@[j - 1]);
            }
            assert(s.take(i + 1).drop_last() =~= s.take(i as int));
            assert(s.take(i + 1).last() == x);
            placed_len(head, x, key);
        }
        let ghost before = v@;
        let item = v.remove(i);
        v.insert(j, item);
        let rank = ranks.remove(i);
        ranks.insert(j, rank);
        proof {
            assert(placed(head, x, key) == head.take(j as int).push(x) + head.skip(j as int));
            assert(v@ =~= placed(head, x, key) + s.skip(i + 1));
        }
        i += 1;
    }
    proof {
        assert(s.take(n as int) =~= s);
        assert(v@ =~= ordered(s, key));
    }
}

proof fn placed_commutes<A, B>(
    s: Seq<A>,
    x: A,
    f: spec_fn(A) -> B,
    ka: spec_fn(A) -> (int, Seq<char>),
    kb: spec_fn(B) -> (int, Seq<char>),
)
    requires
        forall|a: A| ka(a) == kb(#[trigger] f(a)),
    ensures
        placed(s, x, ka).map_values(f) == placed(s.map_values(f), f(x), kb),
    decreases s.len(),
{
    if s.len() == 0 {
        assert(s.push(x).map_values(f) =~= s.map_values(f).push(f(x)));
    } else {
        assert(s.map_values(f).last() == f(s.last()));
        if rank_le(ka(s.last()), ka(x)) {
            assert(s.push(x).map_values(f) =~= s.map_values(f).push(f(x)));
        } else {
            placed_commutes(s.drop_last(), x, f, ka, kb);
            assert(s.drop_last().map_values(f) =~= s.map_values(f).drop_last());
            let p = placed(s.drop_last(), x, ka);
            assert(p.push(s.last()).map_values(f) =~= p.map_values(f).push(f(s.last())));
        }
    }
}

/// Ordering and mapping commute when the mapping keeps the rank: what an item
/// carries besides its rank has no say in its place.
pub proof fn ordered_commutes<A, B>(
    s: Seq<A>,
    f: spec_fn(A) -> B,
    ka: spec_fn(A) -> (int, Seq<char>),
    kb: spec_fn(B) -> (int, Seq<char>),
)
    requires
        forall|a: A| ka(a) == kb(#[trigger] f(a)),
    ensures
        ordered(s, ka).map_values(f) == ordered(s.map_values(f), kb),
    decreases s.len(),
{
    if s.len() == 0 {
        assert(s.map_values(f) =~= Seq::<B>::empty());
    } else {
        ordered_commutes(s.drop_last(), f, ka, kb);
        assert(s.drop_last().map_values(f) =~= s.map_values(f).drop_last());
        assert(s.map_values(f).last() == f(s.last()));
        placed_commutes(ordered(s.drop_last(), ka), s.last(), f, ka, kb);
    }
}

/// An ordered list has the items of the list it was made from.
pub proof fn ordered_members<T>(s: Seq<T>, key: spec_fn(T) -> (int, Seq<char>))
    ensures
        forall|x: T| ordered(s, key).contains(x) <==> s.contains(x),
{
    broadcast use vstd::seq_lib::group_to_multiset_ensures;

    ordered_is_permutation(s, key);
    assert forall|x: T| ordered(s, key).contains(x) <==> s.contains(x) by {
        assert(ordered(s, key).to_multiset().count(x) == s.to_multiset().count(x));
    }
}

}
