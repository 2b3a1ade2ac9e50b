//! Sequence notions shared by the contracts of this crate.

use vstd::prelude::*;

verus! {

/// The views of the elements of `s`, in order.
pub open spec fn views<T: View>(s: Seq<T>) -> Seq<T::V> {
    Seq::new(s.len(), |i: int| s[i]@)
}

/// The view of an optional value.
pub open spec fn opt_view<T: View>(o: Option<T>) -> Option<T::V> {
    match o {
        Some(x) => Some(x@),
        None => None,
    }
}

/// `i` is the first position of `s` whose element satisfies `p`.
pub open spec fn is_first<T>(s: Seq<T>, p: spec_fn(T) -> bool, i: int) -> bool {
    &&& 0 <= i < s.len()
    &&& p(s[i])
    &&& forall|j: int| 0 <= j < i ==> !p(#[trigger] s[j])
}

/// Some element of `s` satisfies `p`.
pub open spec fn any<T>(s: Seq<T>, p: spec_fn(T) -> bool) -> bool {
    exists|i: int| 0 <= i < s.len() && p(#[trigger] s[i])
}

/// The position of the first element of `s` that satisfies `p`, if there is one.
pub open spec fn first_position<T>(s: Seq<T>, p: spec_fn(T) -> bool) -> Option<int> {
    if any(s, p) {
        Some(choose|i: int| is_first(s, p, i))
    } else {
        None
    }
}

/// The first element of `s` that satisfies `p`, if there is one.
pub open spec fn first<T>(s: Seq<T>, p: spec_fn(T) -> bool) -> Option<T> {
    match first_position(s, p) {
        Some(i) => Some(s[i]),
        None => None,
    }
}

/// The first match is unique: whoever finds one has found `first_position`.
pub proof fn lemma_first_position<T>(s: Seq<T>, p: spec_fn(T) -> bool, i: int)
    requires
        is_first(s, p, i),
    ensures
        any(s, p),
        first_position(s, p) == Some(i),
        first(s, p) == Some(s[i]),
{
    let c = choose|k: int| is_first(s, p, k);
    assert(is_first(s, p, c));
    if c < i {
        assert(!p(s[c]));
    }
    if i < c {
        assert(!p(s[i]));
    }
}

proof fn lemma_least_match<T>(s: Seq<T>, p: spec_fn(T) -> bool, w: int)
    requires
        0 <= w < s.len(),
        p(s[w]),
    ensures
        exists|i: int| is_first(s, p, i),
    decreases w,
{
    if exists|j: int| 0 <= j < w && p(#[trigger] s[j]) {
        let j = choose|j: int| 0 <= j < w && p(#[trigger] s[j]);
        lemma_least_match(s, p, j);
    } else {
        assert(is_first(s, p, w));
    }
}

/// Where some element matches, `first_position` names the first that does:
/// a position of the sequence whose element matches, with no match before
/// it; and `first` is the element there.
pub proof fn lemma_first_some<T>(s: Seq<T>, p: spec_fn(T) -> bool)
    requires
        any(s, p),
    ensures
        first_position(s, p) matches Some(i) && is_first(s, p, i) && first(s, p) == Some(s[i]),
{
    let w = choose|i: int| 0 <= i < s.len() && p(#[trigger] s[i]);
    lemma_least_match(s, p, w);
}

/// Where no element matches, there is no first match.
pub proof fn lemma_first_none<T>(s: Seq<T>, p: spec_fn(T) -> bool)
    requires
        forall|j: int| 0 <= j < s.len() ==> !p(#[trigger] s[j]),
    ensures
        !any(s, p),
        first_position(s, p) is None,
        first(s, p) is None,
{
}

/// Whatever holds of every element that `f` yields holds of every element of
/// the flat map.
pub proof fn lemma_flat_map_all<A, B>(s: Seq<A>, f: spec_fn(A) -> Seq<B>, p: spec_fn(B) -> bool)
    requires
        forall|i: int, j: int|
            0 <= i < s.len() && 0 <= j < f(s[i]).len() ==> p(#[trigger] f(s[i])[j]),
    ensures
        forall|k: int| 0 <= k < s.flat_map(f).len() ==> p(#[trigger] s.flat_map(f)[k]),
    decreases s.len(),
{
    if s.len() == 0 {
        assert(s.map_values(f) =~= Seq::<Seq<B>>::empty());
    } else {
        let init = s.drop_last();
        assert(s =~= init.push(s.last()));
        init.lemma_flat_map_push(f, s.last());
        assert forall|i: int, j: int|
            0 <= i < init.len() && 0 <= j < f(init[i]).len() implies p(
            #[trigger] f(init[i])[j],
        ) by {
            assert(init[i] == s[i]);
        }
        lemma_flat_map_all(init, f, p);
        assert forall|k: int| 0 <= k < s.flat_map(f).len() implies p(
            #[trigger] s.flat_map(f)[k],
        ) by {
            let n = init.flat_map(f).len();
            if k < n {
                assert(s.flat_map(f)[k] == init.flat_map(f)[k]);
            } else {
                assert(s.flat_map(f)[k] == f(s[s.len() - 1])[k - n]);
            }
        }
    }
}

/// Where `f` yields nothing for every element, the flat map is empty.
pub proof fn lemma_flat_map_nothing<A, B>(s: Seq<A>, f: spec_fn(A) -> Seq<B>)
    requires
        forall|i: int| 0 <= i < s.len() ==> (#[trigger] f(s[i])).len() == 0,
    ensures
        s.flat_map(f) == Seq::<B>::empty(),
{
    lemma_flat_map_all(s, f, |b: B| false);
    if s.flat_map(f).len() > 0 {
        assert((|b: B| false)(s.flat_map(f)[0]));
    }
    assert(s.flat_map(f) =~= Seq::<B>::empty());
}

/// Every element that `f` yields for an element of `s` stands in the flat map.
pub proof fn lemma_flat_map_has<A, B>(s: Seq<A>, f: spec_fn(A) -> Seq<B>, i: int, j: int)
    requires
        0 <= i < s.len(),
        0 <= j < f(s[i]).len(),
    ensures
        s.flat_map(f).contains(f(s[i])[j]),
    decreases s.len(),
{
    let init = s.drop_last();
    assert(s =~= init.push(s.last()));
    init.lemma_flat_map_push(f, s.last());
    let n = init.flat_map(f).len();
    if i < s.len() - 1 {
        assert(init[i] == s[i]);
        lemma_flat_map_has(init, f, i, j);
        let k = choose|k: int| 0 <= k < n && init.flat_map(f)[k] == f(s[i])[j];
        assert(s.flat_map(f)[k] == f(s[i])[j]);
    } else {
        assert(s.flat_map(f)[n + j] == f(s[i])[j]);
    }
}

/// The flat map of the first `i + 1` elements is that of the first `i`,
/// followed by what `f` yields for the next.
pub proof fn lemma_flat_map_step<A, B>(s: Seq<A>, f: spec_fn(A) -> Seq<B>, i: int)
    requires
        0 <= i < s.len(),
    ensures
        s.take(i + 1).flat_map(f) == s.take(i).flat_map(f) + f(s[i]),
        i + 1 == s.len() ==> s.take(i + 1) == s,
        i == 0 ==> s.take(i).flat_map(f) == Seq::<B>::empty(),
{
    s.lemma_flat_map_take_append(f, i);
    if i + 1 == s.len() {
        assert(s.take(i + 1) =~= s);
    }
    if i == 0 {
        lemma_flat_map_nothing(s.take(0), f);
    }
}

} // verus!
