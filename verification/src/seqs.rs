//! What lists are searched and filtered by.
use vstd::prelude::*;

verus! {

/// The first index from `from` on whose item meets `p`; the length of `s` when
/// there is none.
pub open spec fn first_at<T>(s: Seq<T>, p: spec_fn(T) -> bool, from: int) -> int
    decreases s.len() - from,
{
    if from < 0 || from >= s.len() {
        s.len() as int
    } else if p(s[from]) {
        from
    } else {
        first_at(s, p, from + 1)
    }
}

/// The first item that meets `p`.
pub open spec fn found<T>(s: Seq<T>, p: spec_fn(T) -> bool) -> Option<T> {
    let i = first_at(s, p, 0);
    if i < s.len() {
        Some(s[i])
    } else {
        None
    }
}

/// Whether some item meets `p`.
pub open spec fn any<T>(s: Seq<T>, p: spec_fn(T) -> bool) -> bool {
    exists|i: int| 0 <= i < s.len() && p(#[trigger] s[i])
}

/// The items that meet `p`, in order.
pub open spec fn kept<T>(s: Seq<T>, p: spec_fn(T) -> bool) -> Seq<T>
    decreases s.len(),
{
    if s.len() == 0 {
        s
    } else if p(s.last()) {
        kept(s.drop_last(), p).push(s.last())
    } else {
        kept(s.drop_last(), p)
    }
}

/// What `first_at` finds.
pub proof fn first_at_props<T>(s: Seq<T>, p: spec_fn(T) -> bool, from: int)
    requires
        0 <= from <= s.len(),
    ensures
        from <= first_at(s, p, from) <= s.len(),
        forall|i: int| from <= i < first_at(s, p, from) ==> !p(#[trigger] s[i]),
        first_at(s, p, from) < s.len() ==> p(s[first_at(s, p, from)]),
    decreases s.len() - from,
{
    if from < s.len() && !p(s[from]) {
        first_at_props(s, p, from + 1);
    }
}

/// Something is found exactly when some item meets the condition.
pub proof fn found_iff_any<T>(s: Seq<T>, p: spec_fn(T) -> bool)
    ensures
        any(s, p) <==> first_at(s, p, 0) < s.len(),
        any(s, p) <==> found(s, p) is Some,
        found(s, p) is Some ==> p(found(s, p)->0) && s.contains(found(s, p)->0),
{
    first_at_props(s, p, 0);
    if any(s, p) {
        let i = choose|i: int| 0 <= i < s.len() && p(#[trigger] s[i]);
        assert(p(s[i]));
    }
}

/// The first match is where a scan stops.
pub proof fn first_at_is<T>(s: Seq<T>, p: spec_fn(T) -> bool, at: int)
    requires
        0 <= at <= s.len(),
        forall|i: int| 0 <= i < at ==> !p(#[trigger] s[i]),
        at < s.len() ==> p(s[at]),
    ensures
        first_at(s, p, 0) == at,
{
    first_at_props(s, p, 0);
}

/// Keeping is done item by item.
pub proof fn kept_step<T>(s: Seq<T>, p: spec_fn(T) -> bool, i: int)
    requires
        0 <= i < s.len(),
    ensures
        kept(s.take(i + 1), p) == (if p(s[i]) {
            kept(s.take(i), p).push(s[i])
        } else {
            kept(s.take(i), p)
        }),
{
    assert(s.take(i + 1).drop_last() =~= s.take(i));
    assert(s.take(i + 1).last() == s[i]);
}

/// What is kept meets the condition and comes from the list, and all that
/// meets the condition is kept.
pub proof fn kept_members<T>(s: Seq<T>, p: spec_fn(T) -> bool)
    ensures
        forall|x: T|
            #![trigger kept(s, p).contains(x)]
            #![trigger s.contains(x)]
            kept(s, p).contains(x) <==> s.contains(x) && p(x),
        kept(s, p).len() <= s.len(),
    decreases s.len(),
{
    if s.len() > 0 {
        let init = s.drop_last();
        let rest = kept(init, p);
        kept_members(init, p);
        assert(s =~= init.push(s.last()));
        assert forall|x: T|
            #![trigger kept(s, p).contains(x)]
            #![trigger s.contains(x)]
            kept(s, p).contains(x) <==> s.contains(x) && p(x) by {
            if p(s.last()) {
                let k = rest.push(s.last());
                if k.contains(x) {
                    let i = choose|i: int| 0 <= i < k.len() && k[i] == x;
                    if i < rest.len() {
                        assert(rest[i] == x);
                        assert(rest.contains(x));
                        let j = choose|j: int| 0 <= j < init.len() && init[j] == x;
                        assert(s[j] == x);
                    } else {
                        assert(s[s.len() - 1] == x);
                    }
                }
                if s.contains(x) && p(x) {
                    let j = choose|j: int| 0 <= j < s.len() && s[j] == x;
                    if j < init.len() {
                        assert(init[j] == x);
                        assert(rest.contains(x));
                        let i = choose|i: int| 0 <= i < rest.len() && rest[i] == x;
                        assert(k[i] == x);
                    } else {
                        assert(k[rest.len() as int] == x);
                    }
                }
            } else {
                if rest.contains(x) {
                    let j = choose|j: int| 0 <= j < init.len() && init[j] == x;
                    assert(s[j] == x);
                }
                if s.contains(x) && p(x) {
                    let j = choose|j: int| 0 <= j < s.len() && s[j] == x;
                    assert(j < init.len());
                    assert(init[j] == x);
                }
            }
        }
    }
}

}
