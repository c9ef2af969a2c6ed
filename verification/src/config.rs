use vstd::prelude::*;
use std::collections::VecDeque;
use crate::actor::Actor;
use crate::behavior::behavior_views;
use crate::behavior::event_views;
use crate::behavior::reaction;
use crate::behavior::Behavior;
use crate::behavior::BehaviorView;
use crate::effect::lemma_effect_parts;
use crate::effect::Effect;
use crate::effect::EffectView;
use crate::error::Error;
use crate::error::fault_views;
use crate::error::ErrorView;
use crate::error::Fault;
use crate::error::FaultView;
use crate::event::Event;
use crate::event::EventView;
use crate::message::Message;
use crate::message::MessageView;

verus! {

/// The scheduler: owns the registry of all known actors and the one FIFO
/// queue of pending events. It drains events one at a time, dispatches
/// each to its target's current behavior, and commits or discards the
/// resulting draft atomically. It never runs unbounded on its own:
/// callers drive progress by repeated bounded `dispatch` calls.
pub struct Config {
    /// The registry: the behavior of actor `k` stands at position `k`.
    /// Append-only — no actor is ever removed.
    actors: Vec<Behavior>,
    /// The pending events, served strictly first-in first-out.
    events: VecDeque<Event>,
    /// The diagnostic log of failed reactions, oldest first.
    faults: Vec<Fault>,
}

/// The mathematical value of a scheduler state.
#[verifier::ext_equal]
pub struct ConfigView {
    pub actors: Seq<BehaviorView>,
    pub events: Seq<EventView>,
    pub faults: Seq<FaultView>,
}

impl ConfigView {
    /// A scheduler with no actors, no pending events, and a clean log.
    pub open spec fn initial() -> ConfigView {
        ConfigView { actors: Seq::empty(), events: Seq::empty(), faults: Seq::empty() }
    }

    /// This state with the front event removed.
    pub open spec fn popped(self) -> ConfigView {
        ConfigView { events: self.events.drop_first(), ..self }
    }

    /// This state with one fault appended to the log.
    pub open spec fn faulted(self, target: Actor, error: ErrorView) -> ConfigView {
        ConfigView { faults: self.faults.push(FaultView { target, error }), ..self }
    }
}

impl View for Config {
    type V = ConfigView;

    closed spec fn view(&self) -> ConfigView {
        ConfigView {
            actors: behavior_views(self.actors@),
            events: event_views(self.events@),
            faults: fault_views(self.faults@),
        }
    }
}

/// The atomic application of a finished draft to state `m`, on behalf of
/// the dispatching actor `target`. A flagged failure discards every
/// staged creation, send and replacement, and only the log grows. On
/// success the staged replacement (if any) is installed on the target,
/// the staged creations join the registry in order, and the staged
/// events join the back of the queue in order.
pub open spec fn apply(m: ConfigView, target: Actor, eff: EffectView) -> ConfigView {
    match eff.error {
        Some(e) => m.faulted(target, e),
        None => ConfigView {
            actors: (match eff.state {
                Some(b) => m.actors.update(target.id as int, b),
                None => m.actors,
            }) + eff.actors,
            events: m.events + eff.events,
            faults: m.faults,
        },
    }
}

/// One scheduling step of state `m`, which must have a pending event:
/// the front event is popped; if its target is not registered a fault is
/// logged; otherwise the target's behavior reacts to it on a fresh draft
/// opened against the registry, and the draft is applied atomically.
pub open spec fn sched_step(m: ConfigView) -> ConfigView {
    let e = m.events[0];
    let rest = m.popped();
    if e.target.id >= m.actors.len() {
        rest.faulted(e.target, ErrorView::Unresolved)
    } else {
        apply(
            rest,
            e.target,
            reaction(m.actors[e.target.id as int], e, EffectView::opened_at(m.actors.len() as int)),
        )
    }
}

/// Up to `fuel` scheduling steps, stopping early on an empty queue.
pub open spec fn sched_run(m: ConfigView, fuel: nat) -> ConfigView
    decreases fuel,
{
    if fuel == 0 || m.events.len() == 0 {
        m
    } else {
        sched_run(sched_step(m), (fuel - 1) as nat)
    }
}

/// The state after a root actor running `behavior` is registered and the
/// bootstrap event carrying the empty message is enqueued to it.
pub open spec fn booted(m: ConfigView, behavior: BehaviorView) -> ConfigView {
    ConfigView {
        actors: m.actors.push(behavior),
        events: m.events.push(EventView {
            target: Actor { id: m.actors.len() as usize },
            message: MessageView::Empty,
        }),
        faults: m.faults,
    }
}

impl Config {
    /// A scheduler with no actors, no pending events, and a clean log.
    pub fn new() -> (c: Config)
        ensures
            c@ == ConfigView::initial(),
    {
        let c = Config { actors: Vec::new(), events: VecDeque::new(), faults: Vec::new() };
        proof {
            assert(c@ =~= ConfigView::initial());
        }
        c
    }

    /// How many actors the registry holds.
    pub fn actor_count(&self) -> (n: usize)
        ensures
            n == self@.actors.len(),
    {
        self.actors.len()
    }

    /// How many events are pending in the queue.
    pub fn event_count(&self) -> (n: usize)
        ensures
            n == self@.events.len(),
    {
        self.events.len()
    }

    /// How many failed reactions the log records.
    pub fn fault_count(&self) -> (n: usize)
        ensures
            n == self@.faults.len(),
    {
        self.faults.len()
    }

    /// The `i`-th oldest entry of the diagnostic log.
    pub fn fault_at(&self, i: usize) -> (f: &Fault)
        requires
            i < self@.faults.len(),
        ensures
            f@ == self@.faults[i as int],
    {
        &self.faults[i]
    }

    /// The current behavior of `actor`, or nothing when the reference
    /// does not name a registered actor.
    pub fn behavior_of(&self, actor: &Actor) -> (r: Option<&Behavior>)
        ensures
            match r {
                Some(b) => actor.id < self@.actors.len() && b@ == self@.actors[actor.id as int],
                None => actor.id >= self@.actors.len(),
            },
    {
        if actor.id < self.actors.len() {
            Some(&self.actors[actor.id])
        } else {
            None
        }
    }

    /// Execute bootstrap `behavior` to initialize the configuration: a
    /// fresh root actor running it is registered, one event carrying the
    /// empty message is enqueued to it, and one dispatch cycle runs at
    /// once, so a bootstrap failure surfaces immediately.
    ///
    /// Returns the number of events still pending.
    pub fn boot(&mut self, behavior: Behavior) -> (count: usize)
        ensures
            final(self)@ == sched_run(booted(old(self)@, behavior@), 1),
            count == final(self)@.events.len(),
    {
        let id = self.actors.len();
        let actor = Actor::new(id);
        self.actors.push(behavior);
        let event = Event::new(&actor, Message::Empty);
        self.events.push_back(event);
        proof {
            assert(self@ =~= booted(old(self)@, behavior@));
        }
        self.dispatch(1)
    }

    /// Dispatch up to `limit` events, each reaction run to completion and
    /// committed or discarded atomically before the next event is popped.
    /// A failing reaction is logged and never halts the scheduler; a
    /// `limit` of 0 changes nothing.
    ///
    /// Returns the number of events still pending.
    pub fn dispatch(&mut self, limit: usize) -> (count: usize)
        ensures
            final(self)@ == sched_run(old(self)@, limit as nat),
            count == final(self)@.events.len(),
            limit == 0 ==> final(self)@ == old(self)@,
    {
        let ghost snap: ConfigView = self@;
        let mut i: usize = 0;
        while i < limit && self.events.len() > 0
            invariant
                i <= limit,
                sched_run(snap, limit as nat) == sched_run(self@, (limit - i) as nat),
            decreases limit - i,
        {
            let ghost before: ConfigView = self@;
            let event = self.events.pop_front().unwrap();
            let ghost ev: EventView = event@;
            let target = event.target;
            if target.id >= self.actors.len() {
                self.faults.push(Fault { target, error: Error::Unresolved });
                proof {
                    assert(self@ =~= before.popped().faulted(ev.target, ErrorView::Unresolved));
                    assert(self@ == sched_step(before));
                }
            } else {
                let mut effect = Effect::opened(self.actors.len());
                self.actors[target.id].react(event, &mut effect);
                self.commit(target, effect);
                proof {
                    assert(self@ == sched_step(before));
                }
            }
            proof {
                assert(sched_run(before, (limit - i) as nat)
                    == sched_run(self@, (limit - i - 1) as nat));
            }
            i = i + 1;
        }
        proof {
            assert(sched_run(self@, (limit - i) as nat) == self@);
        }
        self.events.len()
    }

    /// Apply one finished draft atomically, exactly as `apply` says.
    fn commit(&mut self, target: Actor, effect: Effect)
        requires
            target.id < old(self)@.actors.len(),
        ensures
            final(self)@ == apply(old(self)@, target, effect@),
    {
        proof {
            lemma_effect_parts(effect);
        }
        let Effect { base: _, mut actors, mut events, state, error } = effect;
        match error {
            Some(e) => {
                self.faults.push(Fault { target, error: e });
                proof {
                    assert(self@ =~= apply(old(self)@, target, effect@));
                }
            },
            None => {
                if let Some(b) = state {
                    self.actors[target.id] = b;
                }
                self.actors.append(&mut actors);
                self.events.append(&mut events);
                proof {
                    assert(self@ =~= apply(old(self)@, target, effect@));
                }
            },
        }
    }
}

} // verus!
