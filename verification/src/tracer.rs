//! The colour of a ray, step by step.
//!
//! Following a ray means casting it, shading what it hits, following the
//! reflected and the refracted ray with a smaller budget, and summing up.
//! The arithmetic of each step is the caller's; which step comes next, with
//! which ray and which budget, is decided here. The caller performs what is
//! asked and reports back, until the colour is done.
use vstd::prelude::*;
use crate::computations::Computation;
use crate::intersections::Intersection;
use crate::rays::Ray;
use crate::scalar::{less, ONE};
use crate::tuple::Tuple;
use crate::world::{budget_after, crossings, reflection_budget, refraction_budget, seen, visible};

verus! {

/// What the caller has computed for a crossing that is seen: its colour
/// under the light, the ray that is reflected there, the ray that is
/// refracted there, and the squared sine of the refracted ray's angle.
#[derive(Clone, Copy, Debug, PartialEq, Eq)]
pub struct Surface {
    pub color: Tuple,
    pub reflect: Ray,
    pub refract: Ray,
    pub sin2_t: u32,
}

/// The terms of the colour at one crossing: the surface's own colour, and
/// what the reflected and the refracted ray brought back, if they were
/// followed, each with the share that the material gives it.
#[derive(Clone, Copy, Debug, PartialEq, Eq)]
pub struct Parts {
    pub surface: Tuple,
    pub reflected: Option<Tuple>,
    pub reflective: u32,
    pub refracted: Option<Tuple>,
    pub transparency: u32,
}

/// Which ray a crossing is waiting for.
#[derive(Clone, Copy, Debug, PartialEq, Eq)]
pub enum Stage {
    Reflecting,
    Refracting,
}

/// A crossing whose colour is not summed up yet: the terms so far, the
/// refracted ray and its budget where it is still to be followed, and the
/// ray that is being followed now.
#[derive(Clone, Copy, Debug, PartialEq, Eq)]
pub struct Frame {
    pub parts: Parts,
    pub pending: Option<(Ray, u32)>,
    pub stage: Stage,
}

/// What the tracer is waiting for.
#[derive(Clone, Copy, Debug, PartialEq, Eq)]
pub enum Mode {
    /// The crossings of `ray`, which may be followed `remaining` times more.
    Cast { ray: Ray, remaining: u32 },
    /// The surface at the crossing that `ray` sees.
    Shade { comps: Computation, ray: Ray, remaining: u32 },
    /// The sum of the terms of the innermost crossing.
    Combine,
    /// Nothing: the colour is known.
    Done { color: Tuple },
}

/// What the caller is asked to do.
#[derive(Clone, Copy, Debug, PartialEq, Eq)]
pub enum Action {
    /// Intersect the ray with every shape.
    Cast(Ray),
    /// Compute the surface at this crossing of this ray.
    Shade(Computation, Ray),
    /// Sum up these terms.
    Combine(Parts),
    /// Take the colour.
    Done(Tuple),
}

/// What the caller reports.
#[derive(Clone, Debug, PartialEq, Eq)]
pub enum Event {
    /// The crossings that each shape reported, in the order of the shapes.
    Crossings(Vec<Vec<Intersection>>),
    /// The surface at the crossing asked about.
    Shaded(Surface),
    /// The sum of the terms asked about.
    Combined(Tuple),
}

/// The event answers what the tracer is waiting for.
pub open spec fn in_turn(mode: Mode, event: Event) -> bool {
    match (mode, event) {
        (Mode::Cast { .. }, Event::Crossings(_)) => true,
        (Mode::Shade { .. }, Event::Shaded(_)) => true,
        (Mode::Combine, Event::Combined(_)) => true,
        _ => false,
    }
}

/// What is asked of the caller in a state.
pub open spec fn asked(stack: Seq<Frame>, mode: Mode) -> Action {
    match mode {
        Mode::Cast { ray, remaining } => Action::Cast(ray),
        Mode::Shade { comps, ray, remaining } => Action::Shade(comps, ray),
        Mode::Combine => if stack.len() > 0 {
            Action::Combine(stack.last().parts)
        } else {
            Action::Done(Tuple::black())
        },
        Mode::Done { color } => Action::Done(color),
    }
}

/// A frame that has received the colour of the ray it was waiting for.
pub open spec fn received(frame: Frame, value: Tuple) -> Frame {
    match frame.stage {
        Stage::Reflecting => Frame {
            parts: Parts { reflected: Some(value), ..frame.parts },
            ..frame
        },
        Stage::Refracting => Frame {
            parts: Parts { refracted: Some(value), ..frame.parts },
            ..frame
        },
    }
}

/// The colour of a ray is known. With no crossing waiting, it is the
/// answer. Else the innermost crossing takes it, and either its refracted
/// ray is followed next or its terms are summed up.
pub open spec fn deliver(stack: Seq<Frame>, value: Tuple) -> (Seq<Frame>, Mode) {
    if stack.len() == 0 {
        (stack, Mode::Done { color: value })
    } else {
        let top = received(stack.last(), value);
        match top.pending {
            Some((ray, remaining)) => (
                stack.drop_last().push(Frame { pending: None, stage: Stage::Refracting, ..top }),
                Mode::Cast { ray, remaining },
            ),
            None => (stack.drop_last().push(top), Mode::Combine),
        }
    }
}

/// The frame of a crossing that has just been shaded, and the ray to follow
/// first, if any: the reflected ray where the budget and the material allow
/// it, with the refracted one kept for later; else the refracted one.
pub open spec fn opened(comps: Computation, surface: Surface, remaining: u32) -> (Frame, Mode) {
    let material = comps.object.surface();
    let parts = Parts {
        surface: surface.color,
        reflected: None,
        reflective: material.reflective,
        refracted: None,
        transparency: material.transparency,
    };
    let through = if less(ONE, surface.sin2_t) {
        None
    } else {
        budget_after(material.transparency, remaining)
    };
    match (budget_after(material.reflective, remaining), through) {
        (Some(b), Some(c)) => (
            Frame { parts, pending: Some((surface.refract, c)), stage: Stage::Reflecting },
            Mode::Cast { ray: surface.reflect, remaining: b },
        ),
        (Some(b), None) => (
            Frame { parts, pending: None, stage: Stage::Reflecting },
            Mode::Cast { ray: surface.reflect, remaining: b },
        ),
        (None, Some(c)) => (
            Frame { parts, pending: None, stage: Stage::Refracting },
            Mode::Cast { ray: surface.refract, remaining: c },
        ),
        (None, None) => (Frame { parts, pending: None, stage: Stage::Refracting }, Mode::Combine),
    }
}

/// The state after an event. An event out of turn changes nothing.
pub open spec fn next(stack: Seq<Frame>, mode: Mode, event: Event) -> (Seq<Frame>, Mode) {
    match (mode, event) {
        (Mode::Cast { ray, remaining }, Event::Crossings(lists)) => match seen(
            crossings(lists@),
        ) {
            None => deliver(stack, Tuple::black()),
            Some(comps) => (stack, Mode::Shade { comps, ray, remaining }),
        },
        (Mode::Shade { comps, ray, remaining }, Event::Shaded(surface)) => {
            let (frame, then) = opened(comps, surface, remaining);
            (stack.push(frame), then)
        },
        (Mode::Combine, Event::Combined(color)) => if stack.len() > 0 {
            deliver(stack.drop_last(), color)
        } else {
            (stack, mode)
        },
        _ => (stack, mode),
    }
}

/// The most events that following a ray with budget `b` can take: its
/// crossings, its surface and its sum, and twice what a ray with one less
/// takes.
pub open spec fn work(b: nat) -> nat
    decreases b,
{
    if b == 0 {
        3
    } else {
        3 + 2 * work((b - 1) as nat)
    }
}

/// The events that a waiting crossing still takes once its ray has come
/// back.
pub open spec fn rest(frame: Frame) -> nat {
    match frame.pending {
        Some((_, b)) => 1 + work(b as nat),
        None => 1,
    }
}

/// The events that all waiting crossings still take.
pub open spec fn owed(stack: Seq<Frame>) -> nat
    decreases stack.len(),
{
    if stack.len() == 0 {
        0
    } else {
        owed(stack.drop_last()) + rest(stack.last())
    }
}

/// The most events that a state can still take before the colour is done.
pub open spec fn potential(stack: Seq<Frame>, mode: Mode) -> nat {
    match mode {
        Mode::Cast { ray, remaining } => work(remaining as nat) + owed(stack),
        Mode::Shade { comps, ray, remaining } => (work(remaining as nat) - 1) as nat + owed(stack),
        Mode::Combine => owed(stack),
        Mode::Done { color } => 0,
    }
}

/// A state that following a ray can be in: terms are summed up only for a
/// crossing with no ray left to follow, and nothing waits once the colour
/// is done.
pub open spec fn coherent(stack: Seq<Frame>, mode: Mode) -> bool {
    match mode {
        Mode::Combine => stack.len() > 0 && stack.last().pending.is_none(),
        Mode::Done { color } => stack.len() == 0,
        _ => true,
    }
}

/// Following a ray takes at least its three events.
pub proof fn lemma_work(b: nat)
    ensures
        work(b) >= 3,
        b > 0 ==> work(b) == 3 + 2 * work((b - 1) as nat),
    decreases b,
{
    if b > 0 {
        lemma_work((b - 1) as nat);
    }
}

proof fn lemma_owed_push(stack: Seq<Frame>, frame: Frame)
    ensures
        owed(stack.push(frame)) == owed(stack) + rest(frame),
{
    assert(stack.push(frame).drop_last() =~= stack);
}

proof fn lemma_deliver(stack: Seq<Frame>, value: Tuple)
    ensures
        coherent(deliver(stack, value).0, deliver(stack, value).1),
        potential(deliver(stack, value).0, deliver(stack, value).1) <= owed(stack),
{
    if stack.len() > 0 {
        let top = received(stack.last(), value);
        match top.pending {
            Some((ray, remaining)) => {
                lemma_owed_push(
                    stack.drop_last(),
                    Frame { pending: None, stage: Stage::Refracting, ..top },
                );
            },
            None => {
                lemma_owed_push(stack.drop_last(), top);
            },
        }
    }
}

/// Every state that is reached from a coherent one is coherent.
pub proof fn lemma_next_coherent(stack: Seq<Frame>, mode: Mode, event: Event)
    requires
        coherent(stack, mode),
    ensures
        coherent(next(stack, mode, event).0, next(stack, mode, event).1),
{
    match (mode, event) {
        (Mode::Cast { ray, remaining }, Event::Crossings(lists)) => {
            lemma_deliver(stack, Tuple::black());
        },
        (Mode::Shade { comps, ray, remaining }, Event::Shaded(surface)) => {
            let (frame, then) = opened(comps, surface, remaining);
            assert(stack.push(frame).last() == frame);
        },
        (Mode::Combine, Event::Combined(color)) => {
            lemma_deliver(stack.drop_last(), color);
        },
        _ => {},
    }
}

/// Following a ray comes to an end, whatever the scene and whatever the
/// budget: every event in turn leaves strictly less to do, and a ray with
/// budget `b` starts with `work(b)` to do.
pub proof fn lemma_next_decreases(stack: Seq<Frame>, mode: Mode, event: Event)
    requires
        coherent(stack, mode),
        in_turn(mode, event),
    ensures
        potential(next(stack, mode, event).0, next(stack, mode, event).1) < potential(stack, mode),
{
    match (mode, event) {
        (Mode::Cast { ray, remaining }, Event::Crossings(lists)) => {
            lemma_work(remaining as nat);
            lemma_deliver(stack, Tuple::black());
        },
        (Mode::Shade { comps, ray, remaining }, Event::Shaded(surface)) => {
            let (frame, then) = opened(comps, surface, remaining);
            lemma_work(remaining as nat);
            if remaining > 0 {
                lemma_work((remaining - 1) as nat);
            }
            lemma_owed_push(stack, frame);
        },
        (Mode::Combine, Event::Combined(color)) => {
            lemma_deliver(stack.drop_last(), color);
        },
        _ => {},
    }
}

/// Every event of the run answers what the tracer was waiting for when it
/// came.
pub open spec fn run_in_turn(stack: Seq<Frame>, mode: Mode, events: Seq<Event>) -> bool
    decreases events.len(),
{
    events.len() == 0 || (in_turn(mode, events[0]) && run_in_turn(
        next(stack, mode, events[0]).0,
        next(stack, mode, events[0]).1,
        events.drop_first(),
    ))
}

/// No run is longer than the potential of the state it starts from. A ray
/// followed with budget `b` is therefore done after at most `work(b)`
/// events, however the shapes mirror one another.
pub proof fn lemma_run_bounded(stack: Seq<Frame>, mode: Mode, events: Seq<Event>)
    requires
        coherent(stack, mode),
        run_in_turn(stack, mode, events),
    ensures
        events.len() <= potential(stack, mode),
    decreases events.len(),
{
    if events.len() > 0 {
        lemma_next_coherent(stack, mode, events[0]);
        lemma_next_decreases(stack, mode, events[0]);
        lemma_run_bounded(
            next(stack, mode, events[0]).0,
            next(stack, mode, events[0]).1,
            events.drop_first(),
        );
    }
}

/// With the budget spent no ray is followed from a crossing: its terms are
/// summed up at once.
pub proof fn lemma_spent(comps: Computation, surface: Surface)
    ensures
        opened(comps, surface, 0).1 == Mode::Combine,
        opened(comps, surface, 0).0.pending.is_none(),
{
}

/// The state of following one ray.
pub struct Tracer {
    pub stack: Vec<Frame>,
    pub mode: Mode,
}

impl Tracer {
    /// Sets out to find the colour of `ray`, following reflections and
    /// refractions at most `remaining` deep.
    pub fn new(ray: Ray, remaining: u32) -> (r: Tracer)
        ensures
            r.stack@ == Seq::<Frame>::empty(),
            r.mode == (Mode::Cast { ray, remaining }),
            coherent(r.stack@, r.mode),
            potential(r.stack@, r.mode) == work(remaining as nat),
    {
        Tracer { stack: Vec::new(), mode: Mode::Cast { ray, remaining } }
    }

    /// What the caller is to do now.
    pub fn asked(&self) -> (a: Action)
        ensures
            a == asked(self.stack@, self.mode),
    {
        match self.mode {
            Mode::Cast { ray, remaining } => Action::Cast(ray),
            Mode::Shade { comps, ray, remaining } => Action::Shade(comps, ray),
            Mode::Combine => {
                if self.stack.len() > 0 {
                    Action::Combine(self.stack[self.stack.len() - 1].parts)
                } else {
                    Action::Done(Tuple::default_color())
                }
            },
            Mode::Done { color } => Action::Done(color),
        }
    }

    fn deliver(&mut self, value: Tuple)
        ensures
            (final(self).stack@, final(self).mode) == deliver(old(self).stack@, value),
    {
        match self.stack.pop() {
            None => {
                self.mode = Mode::Done { color: value };
                assert(self.stack@ =~= old(self).stack@);
            },
            Some(frame) => {
                let parts = match frame.stage {
                    Stage::Reflecting => Parts { reflected: Some(value), ..frame.parts },
                    Stage::Refracting => Parts { refracted: Some(value), ..frame.parts },
                };
                match frame.pending {
                    Some((ray, remaining)) => {
                        self.stack.push(Frame { parts, pending: None, stage: Stage::Refracting });
                        self.mode = Mode::Cast { ray, remaining };
                    },
                    None => {
                        self.stack.push(Frame { parts, pending: None, stage: frame.stage });
                        self.mode = Mode::Combine;
                    },
                }
            },
        }
    }

    /// Takes the caller's report and says what to do next. A report that
    /// does not answer what was asked changes nothing, and the same is
    /// asked again.
    pub fn step(&mut self, event: Event) -> (a: Action)
        ensures
            (final(self).stack@, final(self).mode) == next(old(self).stack@, old(self).mode, event),
            a == asked(final(self).stack@, final(self).mode),
    {
        match (self.mode, event) {
            (Mode::Cast { ray, remaining }, Event::Crossings(lists)) => {
                match visible(&lists) {
                    None => {
                        self.deliver(Tuple::default_color());
                    },
                    Some(comps) => {
                        self.mode = Mode::Shade { comps, ray, remaining };
                    },
                }
            },
            (Mode::Shade { comps, ray, remaining }, Event::Shaded(surface)) => {
                let material = comps.object.material();
                let parts = Parts {
                    surface: surface.color,
                    reflected: None,
                    reflective: material.reflective,
                    refracted: None,
                    transparency: material.transparency,
                };
                let through = refraction_budget(&comps, remaining, surface.sin2_t);
                match (reflection_budget(&comps, remaining), through) {
                    (Some(b), Some(c)) => {
                        self.stack.push(
                            Frame {
                                parts,
                                pending: Some((surface.refract, c)),
                                stage: Stage::Reflecting,
                            },
                        );
                        self.mode = Mode::Cast { ray: surface.reflect, remaining: b };
                    },
                    (Some(b), None) => {
                        self.stack.push(Frame { parts, pending: None, stage: Stage::Reflecting });
                        self.mode = Mode::Cast { ray: surface.reflect, remaining: b };
                    },
                    (None, Some(c)) => {
                        self.stack.push(Frame { parts, pending: None, stage: Stage::Refracting });
                        self.mode = Mode::Cast { ray: surface.refract, remaining: c };
                    },
                    (None, None) => {
                        self.stack.push(Frame { parts, pending: None, stage: Stage::Refracting });
                        self.mode = Mode::Combine;
                    },
                }
            },
            (Mode::Combine, Event::Combined(color)) => {
                if self.stack.len() > 0 {
                    self.stack.pop();
                    self.deliver(color);
                }
            },
            _ => {},
        }
        self.asked()
    }
}

} // verus!
