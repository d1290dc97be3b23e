//! What is known of a crossing before it is shaded: the crossing itself and
//! the refractive indices on both of its sides.
use vstd::prelude::*;
use crate::intersections::Intersection;
use crate::scalar::{less, lt, ONE};
use crate::shape::Shape;
use crate::tuple::{flipped, Tuple};

verus! {

/// The shading context of one crossing: its parameter, its shape, the
/// refractive index `n1` of the medium the ray leaves and `n2` of the medium
/// it enters.
#[derive(Clone, Copy, Debug, PartialEq, Eq, Structural)]
pub struct Computation {
    pub t: u32,
    pub object: Shape,
    pub n1: u32,
    pub n2: u32,
}

/// The first place at or after `from` where the shape with identity `id`
/// stands; the length where it stands nowhere.
pub open spec fn index_of(stack: Seq<Shape>, id: u128, from: int) -> int
    decreases stack.len() - from,
{
    if from < 0 || from >= stack.len() {
        stack.len() as int
    } else if stack[from].ident() == id {
        from
    } else {
        index_of(stack, id, from + 1)
    }
}

/// Whether the shape with identity `id` is on the stack.
pub open spec fn holds(stack: Seq<Shape>, id: u128) -> bool {
    exists|i: int| 0 <= i < stack.len() && #[trigger] stack[i].ident() == id
}

/// No identity stands on the stack twice.
pub open spec fn distinct(stack: Seq<Shape>) -> bool {
    forall|i: int, j: int|
        0 <= i < j < stack.len() ==> #[trigger] stack[i].ident() != #[trigger] stack[j].ident()
}

/// A surface of `s` is crossed: a shape that the ray was inside of is left
/// and taken off the stack, any other is entered and put on top.
pub open spec fn toggled(stack: Seq<Shape>, s: Shape) -> Seq<Shape> {
    let k = index_of(stack, s.ident(), 0);
    if k < stack.len() {
        stack.remove(k)
    } else {
        stack.push(s)
    }
}

/// The shapes the ray is inside of after the first `n` crossings of `xs`,
/// innermost last.
pub open spec fn containers(xs: Seq<Intersection>, n: int) -> Seq<Shape>
    decreases n,
{
    if n <= 0 || n > xs.len() {
        Seq::empty()
    } else {
        toggled(containers(xs, n - 1), xs[n - 1].s)
    }
}

/// The refractive index of the innermost shape, or that of a vacuum where
/// the ray is inside of nothing.
pub open spec fn index_on_top(stack: Seq<Shape>) -> u32 {
    if stack.len() == 0 {
        ONE
    } else {
        stack.last().surface().refractive_index
    }
}

/// The first place at or after `from` where the crossing `i` stands in
/// `xs`; the length where it stands nowhere.
pub open spec fn position_of(xs: Seq<Intersection>, i: Intersection, from: int) -> int
    decreases xs.len() - from,
{
    if from < 0 || from >= xs.len() {
        xs.len() as int
    } else if xs[from].same(i) {
        from
    } else {
        position_of(xs, i, from + 1)
    }
}

/// The refractive index in front of crossing `i` of `xs`.
pub open spec fn n1_of(xs: Seq<Intersection>, i: Intersection) -> u32 {
    let k = position_of(xs, i, 0);
    if k < xs.len() {
        index_on_top(containers(xs, k))
    } else {
        ONE
    }
}

/// The refractive index behind crossing `i` of `xs`.
pub open spec fn n2_of(xs: Seq<Intersection>, i: Intersection) -> u32 {
    let k = position_of(xs, i, 0);
    if k < xs.len() {
        index_on_top(containers(xs, k + 1))
    } else {
        ONE
    }
}

/// Where `index_of` lands: on the first shape with that identity.
pub proof fn lemma_index_of(stack: Seq<Shape>, id: u128, from: int)
    requires
        0 <= from <= stack.len(),
    ensures
        from <= index_of(stack, id, from) <= stack.len(),
        forall|i: int| from <= i < index_of(stack, id, from) ==> #[trigger] stack[i].ident() != id,
        index_of(stack, id, from) < stack.len() ==> stack[index_of(stack, id, from)].ident()
            == id,
    decreases stack.len() - from,
{
    if from < stack.len() && stack[from].ident() != id {
        lemma_index_of(stack, id, from + 1);
    }
}

/// Crossing a surface of `s` changes whether the ray is inside `s`, and
/// nothing else: a stack without repeats stays without, and every other
/// shape is on it after the crossing exactly if it was before.
pub proof fn lemma_toggled(stack: Seq<Shape>, s: Shape)
    requires
        distinct(stack),
    ensures
        distinct(toggled(stack, s)),
        holds(toggled(stack, s), s.ident()) == !holds(stack, s.ident()),
        forall|id: u128| id != s.ident() ==> holds(toggled(stack, s), id) == holds(stack, id),
{
    lemma_index_of(stack, s.ident(), 0);
    let k = index_of(stack, s.ident(), 0);
    let next = toggled(stack, s);
    if k < stack.len() {
        assert(holds(stack, s.ident()));
        assert forall|i: int| 0 <= i < next.len() implies #[trigger] next[i].ident()
            != s.ident() by {
            if i < k {
                assert(next[i] == stack[i]);
            } else {
                assert(next[i] == stack[i + 1]);
            }
        }
        assert forall|id: u128| id != s.ident() implies holds(next, id) == holds(stack, id) by {
            if holds(stack, id) {
                let i = choose|i: int| 0 <= i < stack.len() && #[trigger] stack[i].ident() == id;
                if i < k {
                    assert(next[i].ident() == id);
                } else {
                    assert(next[i - 1].ident() == id);
                }
            }
            if holds(next, id) {
                let i = choose|i: int| 0 <= i < next.len() && #[trigger] next[i].ident() == id;
                if i < k {
                    assert(stack[i].ident() == id);
                } else {
                    assert(stack[i + 1].ident() == id);
                }
            }
        }
        assert forall|i: int, j: int| 0 <= i < j < next.len() implies #[trigger] next[i].ident()
            != #[trigger] next[j].ident() by {
            let a = if i < k { i } else { i + 1 };
            let b = if j < k { j } else { j + 1 };
            assert(next[i] == stack[a] && next[j] == stack[b]);
        }
    } else {
        assert(!holds(stack, s.ident()));
        assert(next[stack.len() as int].ident() == s.ident());
        assert forall|id: u128| id != s.ident() implies holds(next, id) == holds(stack, id) by {
            if holds(stack, id) {
                let i = choose|i: int| 0 <= i < stack.len() && #[trigger] stack[i].ident() == id;
                assert(next[i].ident() == id);
            }
            if holds(next, id) {
                let i = choose|i: int| 0 <= i < next.len() && #[trigger] next[i].ident() == id;
                assert(stack[i].ident() == id);
            }
        }
        assert forall|i: int, j: int| 0 <= i < j < next.len() implies #[trigger] next[i].ident()
            != #[trigger] next[j].ident() by {
            assert(next[i] == stack[i]);
            if j < stack.len() {
                assert(next[j] == stack[j]);
            }
        }
    }
}

/// However far the ray has come, it is inside no shape twice.
pub proof fn lemma_containers_distinct(xs: Seq<Intersection>, n: int)
    ensures
        distinct(containers(xs, n)),
    decreases n,
{
    if 0 < n <= xs.len() {
        lemma_containers_distinct(xs, n - 1);
        lemma_toggled(containers(xs, n - 1), xs[n - 1].s);
    }
}

/// How often a surface of the shape with identity `id` is crossed among
/// the first `n` crossings of `xs`.
pub open spec fn times_crossed(xs: Seq<Intersection>, id: u128, n: int) -> nat
    decreases n,
{
    if n <= 0 || n > xs.len() {
        0
    } else if xs[n - 1].s.ident() == id {
        times_crossed(xs, id, n - 1) + 1
    } else {
        times_crossed(xs, id, n - 1)
    }
}

/// The ray is inside exactly those shapes whose surface it has crossed an
/// odd number of times.
pub proof fn lemma_inside_odd(xs: Seq<Intersection>, id: u128, n: int)
    requires
        0 <= n <= xs.len(),
    ensures
        holds(containers(xs, n), id) == (times_crossed(xs, id, n) % 2 == 1),
    decreases n,
{
    if n > 0 {
        lemma_inside_odd(xs, id, n - 1);
        lemma_containers_distinct(xs, n - 1);
        lemma_toggled(containers(xs, n - 1), xs[n - 1].s);
    } else {
        assert(containers(xs, n).len() == 0);
    }
}

/// Once the ray has crossed every shape an even number of times it is
/// inside of nothing, and in a vacuum again.
pub proof fn lemma_round_trip(xs: Seq<Intersection>, n: int)
    requires
        0 <= n <= xs.len(),
        forall|id: u128| times_crossed(xs, id, n) % 2 == 0,
    ensures
        containers(xs, n).len() == 0,
        index_on_top(containers(xs, n)) == ONE,
{
    let stack = containers(xs, n);
    if stack.len() > 0 {
        let id = stack[0].ident();
        lemma_inside_odd(xs, id, n);
        assert(holds(stack, id));
        assert(times_crossed(xs, id, n) % 2 == 0);
    }
}

/// Entering a shape and leaving it at once puts the ray back where it was.
pub proof fn lemma_enter_then_leave(stack: Seq<Shape>, s: Shape)
    requires
        !holds(stack, s.ident()),
    ensures
        toggled(toggled(stack, s), s) == stack,
{
    lemma_index_of(stack, s.ident(), 0);
    let k = index_of(stack, s.ident(), 0);
    if k < stack.len() {
        assert(stack[k].ident() == s.ident());
    }
    let mid = stack.push(s);
    lemma_index_of(mid, s.ident(), 0);
    let m = index_of(mid, s.ident(), 0);
    assert(mid[stack.len() as int].ident() == s.ident());
    if m < stack.len() {
        assert(stack[m] == mid[m]);
    }
    assert(mid.remove(m) =~= stack);
}

/// Takes `s` off the stack where it is on it, puts it on top where it is
/// not.
pub fn toggle(stack: &mut Vec<Shape>, s: Shape)
    ensures
        final(stack)@ == toggled(old(stack)@, s),
{
    let id = s.id();
    let mut k: usize = 0;
    while k < stack.len() && stack[k].id() != id
        invariant
            k <= stack.len(),
            stack@ == old(stack)@,
            id == s.ident(),
            index_of(stack@, id, 0) == index_of(stack@, id, k as int),
        decreases stack.len() - k,
    {
        k += 1;
    }
    if k < stack.len() {
        stack.remove(k);
    } else {
        stack.push(s);
    }
}

fn top_index(stack: &Vec<Shape>) -> (r: u32)
    ensures
        r == index_on_top(stack@),
{
    if stack.len() == 0 {
        ONE
    } else {
        stack[stack.len() - 1].material().refractive_index
    }
}

/// The normal as the eye sees it, and whether the eye is inside the shape:
/// where the normal points away from the eye (`normal_dot_eye` below
/// nought) the eye is inside and the normal is turned round.
pub open spec fn facing(normal: Tuple, normal_dot_eye: u32) -> (Tuple, bool) {
    if less(normal_dot_eye, 0) {
        (
            Tuple { x: flipped(normal.x), y: flipped(normal.y), z: flipped(normal.z), w: normal.w },
            true,
        )
    } else {
        (normal, false)
    }
}

impl Computation {
    /// Turns the normal towards the eye and says whether the eye is inside.
    pub fn oriented(normal: Tuple, normal_dot_eye: u32) -> (r: (Tuple, bool))
        ensures
            r == facing(normal, normal_dot_eye),
    {
        if lt(normal_dot_eye, 0) {
            (normal.neg(), true)
        } else {
            (normal, false)
        }
    }

    /// Prepares the crossing `i` of the ray whose crossings, in order, are
    /// `xs`: walks `xs` up to `i`, keeping the stack of shapes the ray is
    /// inside of, and reads the refractive index on top of the stack just
    /// before and just after `i`. A crossing that is not in `xs` lies in a
    /// vacuum on both sides.
    pub fn new(i: &Intersection, xs: &Vec<Intersection>) -> (r: Computation)
        ensures
            r == (Computation { t: i.t, object: i.s, n1: n1_of(xs@, *i), n2: n2_of(xs@, *i) }),
    {
        let mut n1: u32 = ONE;
        let mut n2: u32 = ONE;
        let mut stack: Vec<Shape> = Vec::new();
        let mut k: usize = 0;
        while k < xs.len()
            invariant_except_break
                k <= xs.len(),
                n1 == ONE,
                n2 == ONE,
                stack@ == containers(xs@, k as int),
                position_of(xs@, *i, 0) == position_of(xs@, *i, k as int),
            ensures
                n1 == n1_of(xs@, *i),
                n2 == n2_of(xs@, *i),
            decreases xs.len() - k,
        {
            let x = xs[k];
            let target = x.t == i.t && x.s.id() == i.s.id();
            if target {
                n1 = top_index(&stack);
            }
            toggle(&mut stack, x.s);
            if target {
                n2 = top_index(&stack);
                break;
            }
            k += 1;
        }
        Computation { t: i.t, object: i.s, n1, n2 }
    }
}

} // verus!
