use vstd::prelude::*;
use crate::actor::Actor;
use crate::behavior::reaction;
use crate::behavior::BehaviorView;
use crate::config::apply;
use crate::config::sched_run;
use crate::config::sched_step;
use crate::config::ConfigView;
use crate::effect::EffectView;
use crate::error::FaultView;
use crate::event::EventView;
use crate::message::MessageView;

verus! {

/// Atomicity: a draft that flags failure commits nothing. However many
/// creations and sends it staged, the registry keeps its exact state,
/// the queue is untouched, and the only trace is one new log entry.
pub proof fn lemma_failed_draft_commits_nothing(m: ConfigView, target: Actor, eff: EffectView)
    requires
        eff.error is Some,
    ensures
        apply(m, target, eff).actors == m.actors,
        apply(m, target, eff).events == m.events,
        apply(m, target, eff).faults == m.faults.push(
            FaultView { target, error: eff.error.unwrap() },
        ),
{
}

/// Atomicity at the scheduler: a step whose reaction fails changes
/// nothing beyond removing the consumed event and logging one fault —
/// none of the staged creations or sends appear.
pub proof fn lemma_step_of_failed_reaction(m: ConfigView)
    requires
        m.events.len() > 0,
        m.events[0].target.id < m.actors.len(),
        reaction(
            m.actors[m.events[0].target.id as int],
            m.events[0],
            EffectView::opened_at(m.actors.len() as int),
        ).error is Some,
    ensures
        sched_step(m).actors == m.actors,
        sched_step(m).events == m.events.drop_first(),
        sched_step(m).faults.len() == m.faults.len() + 1,
{
}

/// FIFO: one step consumes exactly the front event — its reaction runs
/// to completion and commits before anything else is popped — the other
/// pending events keep their order and their place at the front of the
/// queue, and whatever the reaction staged queues up behind them.
pub proof fn lemma_step_serves_oldest_first(m: ConfigView)
    requires
        m.events.len() > 0,
    ensures
        sched_step(m).events.len() >= m.events.len() - 1,
        sched_step(m).events.take(m.events.len() - 1) == m.events.drop_first(),
        forall|k: int|
            1 <= k < m.events.len() ==> sched_step(m).events[k - 1] == m.events[k],
{
    assert(sched_step(m).events.take(m.events.len() - 1) =~= m.events.drop_first());
}

/// Two pending events are served oldest first: a run of two steps
/// processes the first event's whole reaction, commits it, and only then
/// pops the second event, which meanwhile stayed at the front.
pub proof fn lemma_run_of_two(m: ConfigView)
    requires
        m.events.len() >= 2,
    ensures
        sched_run(m, 2) == sched_step(sched_step(m)),
        sched_step(m).events[0] == m.events[1],
{
    lemma_step_serves_oldest_first(m);
    assert(sched_step(m).events.len() >= 1);
    assert(sched_run(m, 2) == sched_run(sched_step(m), 1));
    assert(sched_run(sched_step(m), 1) == sched_run(sched_step(sched_step(m)), 0));
}

/// Identities are stable and fresh: a committed draft opened at the
/// registry frontier grows the registry by exactly its staged creations,
/// the k-th landing at the slot its identity `base + k` names; every
/// other actor keeps its place, and only the dispatching actor's slot
/// can hold a new behavior.
pub proof fn lemma_created_identities(m: ConfigView, target: Actor, eff: EffectView)
    requires
        eff.error is None,
        eff.base == m.actors.len(),
        target.id < m.actors.len(),
    ensures
        apply(m, target, eff).actors.len() == m.actors.len() + eff.actors.len(),
        forall|k: int|
            0 <= k < eff.actors.len()
                ==> apply(m, target, eff).actors[eff.base + k] == eff.actors[k],
        forall|i: int|
            0 <= i < m.actors.len() && i != target.id
                ==> apply(m, target, eff).actors[i] == m.actors[i],
{
}

/// The registry is append-only and identity-preserving: a step never
/// removes an actor, and no slot but the dispatching actor's can change
/// its behavior.
pub proof fn lemma_registry_append_only(m: ConfigView)
    requires
        m.events.len() > 0,
    ensures
        sched_step(m).actors.len() >= m.actors.len(),
        forall|i: int|
            0 <= i < m.actors.len() && i != m.events[0].target.id
                ==> sched_step(m).actors[i] == m.actors[i],
{
}

/// Idempotent absorber: whatever the message, a sink's reaction stages
/// zero creations, zero sends, no replacement and no failure — the draft
/// leaves its hands exactly as it came.
pub proof fn lemma_sink_stages_nothing(e: EventView, pre: EffectView)
    ensures
        reaction(BehaviorView::Sink, e, pre) == pre,
{
}

/// An absorber in the scheduler consumes its event and leaves everything
/// else — registry, queue, log — exactly as it was.
pub proof fn lemma_step_of_absorber(m: ConfigView)
    requires
        m.events.len() > 0,
        m.events[0].target.id < m.actors.len(),
        m.actors[m.events[0].target.id as int] == BehaviorView::Sink,
    ensures
        sched_step(m).actors == m.actors,
        sched_step(m).events == m.events.drop_first(),
        sched_step(m).faults == m.faults,
{
    assert(sched_step(m).actors =~= m.actors);
    assert(sched_step(m).events =~= m.events.drop_first());
}

/// One-shot replacement: a `Once` actor forwards exactly the message
/// that reaches it first to its customer, then stands replaced by a
/// sink under the same identity — by `lemma_step_of_absorber`, every
/// message delivered to it afterward is silently absorbed.
pub proof fn lemma_once_forwards_then_absorbs(m: ConfigView, cust: Actor)
    requires
        m.events.len() > 0,
        m.events[0].target.id < m.actors.len(),
        m.actors[m.events[0].target.id as int] == (BehaviorView::Once { cust }),
    ensures
        sched_step(m).events == m.events.drop_first().push(
            EventView { target: cust, message: m.events[0].message },
        ),
        sched_step(m).actors == m.actors.update(
            m.events[0].target.id as int,
            BehaviorView::Sink,
        ),
        sched_step(m).faults == m.faults,
{
    assert(sched_step(m).events =~= m.events.drop_first().push(
        EventView { target: cust, message: m.events[0].message },
    ));
    assert(sched_step(m).actors =~= m.actors.update(
        m.events[0].target.id as int,
        BehaviorView::Sink,
    ));
}

/// The dispatch quantum is pure fuel: driving the scheduler with two
/// bounded runs reaches exactly the state one run with the combined
/// budget reaches, so callers may split their budget as they please.
pub proof fn lemma_runs_compose(m: ConfigView, a: nat, b: nat)
    ensures
        sched_run(sched_run(m, a), b) == sched_run(m, a + b),
    decreases a,
{
    if a == 0 || m.events.len() == 0 {
        assert(sched_run(m, a) == m);
        assert(sched_run(m, a + b) == sched_run(m, b));
    } else {
        lemma_runs_compose(sched_step(m), (a - 1) as nat, b);
        assert(sched_run(m, a) == sched_run(sched_step(m), (a - 1) as nat));
        assert(sched_run(m, a + b) == sched_run(sched_step(m), (a - 1 + b) as nat));
    }
}

/// Decoration: a labeler pairs its fixed label with every incoming
/// message and forwards the pair to its customer — one send, nothing
/// else staged.
pub proof fn lemma_label_decorates(cust: Actor, label: MessageView, e: EventView, pre: EffectView)
    ensures
        reaction(BehaviorView::Label { cust, label }, e, pre) == pre.sent(
            cust,
            MessageView::Pair(Box::new(label), Box::new(e.message)),
        ),
{
}

} // verus!
