//! Crossings of a ray with shapes: their order along the ray and the
//! nearest one in front of its origin.
use vstd::prelude::*;
use vstd::seq_lib::to_multiset_insert;
use crate::scalar::{is_positive, key, order_key, positive};
use crate::shape::Shape;

verus! {

/// A ray meets shape `s` at parameter `t`, a single-precision bit pattern.
#[derive(Clone, Copy, Debug, PartialEq, Eq, Structural)]
pub struct Intersection {
    pub t: u32,
    pub s: Shape,
}

impl Intersection {
    pub fn new(t: u32, s: Shape) -> (r: Intersection)
        ensures
            r == (Intersection { t, s }),
    {
        Intersection { t, s }
    }

    /// The same crossing: the same parameter on the same shape, whatever
    /// material the shape carries.
    pub open spec fn same(self, other: Intersection) -> bool {
        self.t == other.t && self.s.ident() == other.s.ident()
    }
}

/// No crossing stands before one with a smaller parameter.
pub open spec fn ascending(s: Seq<Intersection>) -> bool {
    forall|i: int, j: int| 0 <= i < j < s.len() ==> key(s[i].t) <= key(s[j].t)
}

/// The first place at or after `from` whose parameter is greater than `t`;
/// the length where there is none.
pub open spec fn first_after(s: Seq<Intersection>, t: u32, from: int) -> int
    decreases s.len() - from,
{
    if from < 0 || from >= s.len() {
        s.len() as int
    } else if key(s[from].t) > key(t) {
        from
    } else {
        first_after(s, t, from + 1)
    }
}

/// `x` put behind every crossing that it does not precede.
pub open spec fn insert_by_t(s: Seq<Intersection>, x: Intersection) -> Seq<Intersection> {
    s.insert(first_after(s, x.t, 0), x)
}

/// The crossings in ascending order of their parameter; crossings with the
/// same parameter keep the order in which they were given.
pub open spec fn sort_by_t(s: Seq<Intersection>) -> Seq<Intersection>
    decreases s.len(),
{
    if s.len() == 0 {
        Seq::empty()
    } else {
        insert_by_t(sort_by_t(s.drop_last()), s.last())
    }
}

/// The first crossing at or after `from` with a parameter greater than
/// zero.
pub open spec fn first_positive(s: Seq<Intersection>, from: int) -> Option<Intersection>
    decreases s.len() - from,
{
    if from < 0 || from >= s.len() {
        None
    } else if positive(s[from].t) {
        Some(s[from])
    } else {
        first_positive(s, from + 1)
    }
}

/// The visible crossing of a list: the first one in front of the origin.
pub open spec fn hit_of(s: Seq<Intersection>) -> Option<Intersection> {
    first_positive(s, 0)
}

/// Where `first_after` lands: everything between `from` and the place found
/// is not greater than `t`, and the place itself, if inside, is.
pub proof fn lemma_first_after(s: Seq<Intersection>, t: u32, from: int)
    requires
        0 <= from <= s.len(),
    ensures
        from <= first_after(s, t, from) <= s.len(),
        forall|i: int| from <= i < first_after(s, t, from) ==> key(#[trigger] s[i].t) <= key(t),
        first_after(s, t, from) < s.len() ==> key(s[first_after(s, t, from)].t) > key(t),
    decreases s.len() - from,
{
    if from < s.len() && key(s[from].t) <= key(t) {
        lemma_first_after(s, t, from + 1);
    }
}

/// Inserting by parameter keeps an ascending list ascending, and adds
/// exactly the new crossing.
pub proof fn lemma_insert_by_t(s: Seq<Intersection>, x: Intersection)
    requires
        ascending(s),
    ensures
        ascending(insert_by_t(s, x)),
        insert_by_t(s, x).len() == s.len() + 1,
        insert_by_t(s, x).to_multiset() == s.to_multiset().insert(x),
{
    lemma_first_after(s, x.t, 0);
    let p = first_after(s, x.t, 0);
    let r = insert_by_t(s, x);
    to_multiset_insert(s, p, x);
    assert forall|i: int, j: int| 0 <= i < j < r.len() implies key(r[i].t) <= key(r[j].t) by {
        if i < p {
            assert(r[i] == s[i]);
        } else if i > p {
            assert(r[i] == s[i - 1]);
        }
        if j > p {
            assert(r[j] == s[j - 1]);
            if p < j - 1 {
                assert(key(s[p].t) <= key(s[j - 1].t));
            }
        } else if j < p {
            assert(r[j] == s[j]);
        }
    }
}

/// Sorting gives an ascending list of the same crossings, each as often as
/// it was given.
pub proof fn lemma_sort_by_t(s: Seq<Intersection>)
    ensures
        ascending(sort_by_t(s)),
        sort_by_t(s).len() == s.len(),
        sort_by_t(s).to_multiset() == s.to_multiset(),
    decreases s.len(),
{
    if s.len() == 0 {
        assert(s =~= Seq::empty());
    } else {
        lemma_sort_by_t(s.drop_last());
        lemma_insert_by_t(sort_by_t(s.drop_last()), s.last());
        vstd::seq_lib::to_multiset_build(s.drop_last(), s.last());
        assert(s.drop_last().push(s.last()) =~= s);
    }
}

/// What `first_positive` finds: nothing in front of the origin from `from`
/// on, or the first such crossing and its place.
pub proof fn lemma_first_positive(s: Seq<Intersection>, from: int)
    requires
        0 <= from <= s.len(),
    ensures
        match first_positive(s, from) {
            None => forall|i: int| from <= i < s.len() ==> !positive(#[trigger] s[i].t),
            Some(h) => exists|i: int|
                from <= i < s.len() && #[trigger] s[i] == h && positive(h.t) && forall|j: int|
                    from <= j < i ==> !positive(#[trigger] s[j].t),
        },
    decreases s.len() - from,
{
    if from < s.len() && !positive(s[from].t) {
        lemma_first_positive(s, from + 1);
        match first_positive(s, from + 1) {
            None => {},
            Some(h) => {
                let i = choose|i: int|
                    from + 1 <= i < s.len() && #[trigger] s[i] == h && positive(h.t) && forall|
                        j: int,
                    |
                        from + 1 <= j < i ==> !positive(#[trigger] s[j].t);
                assert(from <= i < s.len() && s[i] == h);
            },
        }
    } else if from < s.len() {
        assert(s[from] == s[from]);
    }
}

/// In an ascending list the visible crossing is the nearest of all that lie
/// in front of the origin; there is none only where nothing lies in front.
pub proof fn lemma_hit_nearest(s: Seq<Intersection>)
    requires
        ascending(s),
    ensures
        forall|j: int|
            0 <= j < s.len() && positive(#[trigger] s[j].t) ==> hit_of(s).is_some() && key(
                hit_of(s).unwrap().t,
            ) <= key(s[j].t),
{
    lemma_first_positive(s, 0);
    match hit_of(s) {
        None => {},
        Some(h) => {
            let i = choose|i: int|
                0 <= i < s.len() && #[trigger] s[i] == h && positive(h.t) && forall|j: int|
                    0 <= j < i ==> !positive(#[trigger] s[j].t);
            assert forall|j: int| 0 <= j < s.len() && positive(#[trigger] s[j].t) implies key(h.t)
                <= key(s[j].t) by {
                if j > i {
                    assert(key(s[i].t) <= key(s[j].t));
                }
            }
        },
    }
}

/// Of two ascending lists of the same crossings, the visible crossing of
/// the second is at least as near as that of the first.
proof fn lemma_hit_bound(a: Seq<Intersection>, b: Seq<Intersection>)
    requires
        ascending(a),
        ascending(b),
        a.to_multiset() == b.to_multiset(),
    ensures
        hit_of(a).is_some() ==> hit_of(b).is_some() && b.contains(hit_of(a).unwrap()) && key(
            hit_of(b).unwrap().t,
        ) <= key(hit_of(a).unwrap().t),
{
    lemma_first_positive(a, 0);
    lemma_hit_nearest(b);
    if let Some(h) = hit_of(a) {
        let i = choose|i: int|
            0 <= i < a.len() && #[trigger] a[i] == h && positive(h.t) && forall|j: int|
                0 <= j < i ==> !positive(#[trigger] a[j].t);
        assert(a.contains(h));
        vstd::seq_lib::to_multiset_contains(a, h);
        vstd::seq_lib::to_multiset_contains(b, h);
        let j = choose|j: int| 0 <= j < b.len() && b[j] == h;
        assert(positive(b[j].t));
    }
}

/// The visible crossing does not depend on the order in which the crossings
/// were given: of two lists that hold the same crossings equally often, both
/// have one or neither has, at the same parameter; and it is the same
/// crossing where no two different crossings share a parameter.
pub proof fn lemma_hit_any_order(xs: Seq<Intersection>, ys: Seq<Intersection>)
    requires
        xs.to_multiset() == ys.to_multiset(),
    ensures
        hit_of(sort_by_t(xs)).is_some() == hit_of(sort_by_t(ys)).is_some(),
        hit_of(sort_by_t(xs)).is_some() ==> hit_of(sort_by_t(xs)).unwrap().t == hit_of(
            sort_by_t(ys),
        ).unwrap().t,
        (forall|i: int, j: int|
            0 <= i < xs.len() && 0 <= j < xs.len() && xs[i].t == xs[j].t ==> xs[i] == xs[j])
            ==> hit_of(sort_by_t(xs)) == hit_of(sort_by_t(ys)),
{
    let a = sort_by_t(xs);
    let b = sort_by_t(ys);
    lemma_sort_by_t(xs);
    lemma_sort_by_t(ys);
    lemma_hit_bound(a, b);
    lemma_hit_bound(b, a);
    if let Some(h) = hit_of(a) {
        let g = hit_of(b).unwrap();
        crate::scalar::lemma_key_injective(h.t, g.t);
        vstd::seq_lib::to_multiset_contains(b, h);
        vstd::seq_lib::to_multiset_contains(xs, h);
        vstd::seq_lib::to_multiset_contains(a, g);
        vstd::seq_lib::to_multiset_contains(xs, g);
        assert(xs.contains(h) && xs.contains(g));
        let i = choose|i: int| 0 <= i < xs.len() && xs[i] == h;
        let j = choose|j: int| 0 <= j < xs.len() && xs[j] == g;
        assert(xs[i].t == xs[j].t);
    }
}

/// Two crossings at different parameters have the same visible crossing
/// whichever of them is given first.
pub proof fn lemma_hit_of_pair(a: Intersection, b: Intersection)
    requires
        a.t != b.t || a == b,
    ensures
        hit_of(sort_by_t(seq![a, b])) == hit_of(sort_by_t(seq![b, a])),
{
    let xs = seq![a, b];
    let ys = seq![b, a];
    vstd::seq_lib::to_multiset_build(seq![a], b);
    vstd::seq_lib::to_multiset_build(seq![b], a);
    vstd::seq_lib::to_multiset_build(Seq::empty(), a);
    vstd::seq_lib::to_multiset_build(Seq::empty(), b);
    assert(Seq::<Intersection>::empty().push(a) =~= seq![a]);
    assert(Seq::<Intersection>::empty().push(b) =~= seq![b]);
    assert(seq![a].push(b) =~= xs);
    assert(seq![b].push(a) =~= ys);
    assert(xs.to_multiset() =~= ys.to_multiset());
    lemma_hit_any_order(xs, ys);
}

/// The crossings of `s` at parameter `t`, in the order of `s`.
pub open spec fn at_parameter(s: Seq<Intersection>, t: u32) -> Seq<Intersection> {
    s.filter(|x: Intersection| x.t == t)
}

/// Sorting is stable: the crossings at any one parameter stand in the
/// sorted list in the order in which they were given.
pub proof fn lemma_sort_stable(s: Seq<Intersection>, t: u32)
    ensures
        at_parameter(sort_by_t(s), t) == at_parameter(s, t),
    decreases s.len(),
{
    let pred = |x: Intersection| x.t == t;
    if s.len() == 0 {
        assert(s =~= Seq::empty());
    } else {
        let d = s.drop_last();
        let l = s.last();
        let sd = sort_by_t(d);
        lemma_sort_stable(d, t);
        lemma_sort_by_t(d);
        lemma_first_after(sd, l.t, 0);
        let p = first_after(sd, l.t, 0);
        let head = sd.take(p);
        let tail = sd.skip(p);
        let one = Seq::<Intersection>::empty().push(l);
        assert(sd =~= head + tail);
        assert(sd.insert(p, l) =~= head + one + tail);
        assert(d.push(l) =~= s);
        Seq::filter_distributes_over_add(head, tail, pred);
        Seq::filter_distributes_over_add(head + one, tail, pred);
        Seq::filter_distributes_over_add(head, one, pred);
        Seq::<Intersection>::empty().lemma_filter_push(l, pred);
        d.lemma_filter_push(l, pred);
        assert(Seq::<Intersection>::empty().filter(pred) =~= Seq::empty());
        if l.t == t {
            assert forall|i: int| 0 <= i < tail.len() implies !pred(#[trigger] tail[i]) by {
                assert(tail[i] == sd[p + i]);
                assert(key(sd[p].t) > key(l.t));
                if i > 0 {
                    assert(key(sd[p].t) <= key(sd[p + i].t));
                }
            }
            tail.lemma_all_neg_filter_empty(pred);
            assert(tail.filter(pred) =~= Seq::empty());
            assert(one.filter(pred) =~= one);
            assert((head + one + tail).filter(pred) =~= head.filter(pred).push(l));
            assert(sd.filter(pred) =~= head.filter(pred));
        } else {
            assert(one.filter(pred) =~= Seq::empty());
            assert((head + one + tail).filter(pred) =~= head.filter(pred) + tail.filter(pred));
        }
    }
}

pub(crate) fn copy_of(v: &Vec<Intersection>) -> (r: Vec<Intersection>)
    ensures
        r@ == v@,
{
    let mut r: Vec<Intersection> = Vec::new();
    let mut i: usize = 0;
    while i < v.len()
        invariant
            i <= v.len(),
            r@ == v@.take(i as int),
        decreases v.len() - i,
    {
        r.push(v[i]);
        assert(v@.take(i as int).push(v@[i as int]) =~= v@.take(i + 1));
        i += 1;
    }
    assert(v@.take(v.len() as int) =~= v@);
    r
}

/// Sorts the crossings in place by ascending parameter, keeping the given
/// order among equal parameters, and returns a copy of the sorted list.
pub fn intersections(xs: &mut Vec<Intersection>) -> (r: Vec<Intersection>)
    ensures
        r@ == sort_by_t(old(xs)@),
        final(xs)@ == r@,
        ascending(r@),
        r@.len() == old(xs)@.len(),
        r@.to_multiset() == old(xs)@.to_multiset(),
{
    let mut out: Vec<Intersection> = Vec::new();
    let mut i: usize = 0;
    while i < xs.len()
        invariant
            i <= xs.len(),
            xs@ == old(xs)@,
            out@ == sort_by_t(xs@.take(i as int)),
            out@.len() == i,
        decreases xs.len() - i,
    {
        let x = xs[i];
        let mut p: usize = 0;
        while p < out.len() && order_key(out[p].t) <= order_key(x.t)
            invariant
                p <= out.len(),
                first_after(out@, x.t, 0) == first_after(out@, x.t, p as int),
            decreases out.len() - p,
        {
            p += 1;
        }
        out.insert(p, x);
        proof {
            assert(xs@.take(i + 1).drop_last() =~= xs@.take(i as int));
            assert(xs@.take(i + 1).last() == x);
        }
        i += 1;
    }
    proof {
        assert(xs@.take(xs.len() as int) =~= xs@);
        lemma_sort_by_t(xs@);
    }
    let r = copy_of(&out);
    *xs = out;
    r
}

/// The nearest crossing in front of the ray's origin: the first in the list
/// whose parameter is greater than zero. In an ascending list no crossing in
/// front of the origin is nearer.
pub fn hit(xs: Vec<Intersection>) -> (r: Option<Intersection>)
    ensures
        r == hit_of(xs@),
        match r {
            None => forall|i: int| 0 <= i < xs@.len() ==> !positive(#[trigger] xs@[i].t),
            Some(h) => exists|i: int|
                0 <= i < xs@.len() && #[trigger] xs@[i] == h && positive(h.t) && forall|j: int|
                    0 <= j < i ==> !positive(#[trigger] xs@[j].t),
        },
        ascending(xs@) ==> forall|j: int|
            0 <= j < xs@.len() && positive(#[trigger] xs@[j].t) ==> r.is_some() && key(
                r.unwrap().t,
            ) <= key(xs@[j].t),
{
    let mut found: Option<Intersection> = None;
    let mut i: usize = 0;
    while i < xs.len()
        invariant_except_break
            i <= xs.len(),
            found.is_none(),
            hit_of(xs@) == first_positive(xs@, i as int),
        ensures
            found == hit_of(xs@),
        decreases xs.len() - i,
    {
        if is_positive(xs[i].t) {
            found = Some(xs[i]);
            break;
        }
        i += 1;
    }
    proof {
        lemma_first_positive(xs@, 0);
        if ascending(xs@) {
            lemma_hit_nearest(xs@);
        }
    }
    found
}

} // verus!
