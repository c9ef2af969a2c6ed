use vstd::prelude::*;
use crate::actor::Actor;
use crate::effect::Effect;
use crate::effect::EffectView;
use crate::error::ErrorView;
use crate::event::Event;
use crate::event::EventView;
use crate::message::Message;
use crate::message::msg_view;
use crate::message::MessageView;

verus! {

/// The capability an actor runs: a reaction strategy, chosen from the
/// closed set of idioms below. Reacting to an event stages side effects
/// in a draft and touches nothing else; each strategy is a pure function
/// of the event and of the values captured here.
#[derive(Debug, PartialEq)]
pub enum Behavior {
    /// Throws away every message it receives. When a request needs a
    /// customer but nobody cares about the reply, a sink stands in.
    Sink,
    /// An alias or proxy: passes every message on to `subject`.
    Forward { subject: Actor },
    /// A decorator: pairs the fixed `label` with every incoming message
    /// and forwards the pair to `cust`.
    Label { cust: Actor, label: Message },
    /// Labels each message with a reference to the receiving actor
    /// itself, so `cust` can tell which request a reply answers.
    Tag { cust: Actor },
    /// Forwards its first message to `cust`, then replaces itself with a
    /// sink: it acts once and goes silent.
    Once { cust: Actor },
    /// Remembers the last message it received by becoming itself with the
    /// message stored.
    Keep(Option<Message>),
    /// A factory: answers `Addr(cust)` by creating a fresh sink and
    /// sending its reference to `cust`; refuses any other message.
    Maker,
    /// A bootstrap script: stages the given creations, in order, and then
    /// the given sends, in order. The k-th staged creation takes the k-th
    /// fresh identity of the reaction that runs the seed.
    Seed { creates: Vec<Behavior>, sends: Vec<Event> },
}

/// The mathematical value of a `Behavior`.
pub enum BehaviorView {
    Sink,
    Forward { subject: Actor },
    Label { cust: Actor, label: MessageView },
    Tag { cust: Actor },
    Once { cust: Actor },
    Keep(Option<MessageView>),
    Maker,
    Seed { creates: Seq<BehaviorView>, sends: Seq<EventView> },
}

/// The mathematical values of a sequence of behaviors, elementwise.
pub open spec fn behavior_views(s: Seq<Behavior>) -> Seq<BehaviorView>
    decreases s,
{
    Seq::new(s.len(), |i: int|
        if 0 <= i < s.len() {
            behavior_view(s[i])
        } else {
            BehaviorView::Sink
        },
    )
}

/// The mathematical values of a sequence of events, elementwise.
pub open spec fn event_views(s: Seq<Event>) -> Seq<EventView> {
    Seq::new(s.len(), |i: int| s[i]@)
}

/// The mathematical value of one behavior.
pub open spec fn behavior_view(b: Behavior) -> BehaviorView
    decreases b,
{
    match b {
        Behavior::Sink => BehaviorView::Sink,
        Behavior::Forward { subject } => BehaviorView::Forward { subject },
        Behavior::Label { cust, label } => BehaviorView::Label { cust, label: label@ },
        Behavior::Tag { cust } => BehaviorView::Tag { cust },
        Behavior::Once { cust } => BehaviorView::Once { cust },
        Behavior::Keep(None) => BehaviorView::Keep(None),
        Behavior::Keep(Some(m)) => BehaviorView::Keep(Some(m@)),
        Behavior::Maker => BehaviorView::Maker,
        Behavior::Seed { creates, sends } => BehaviorView::Seed {
            creates: behavior_views(creates@),
            sends: event_views(sends@),
        },
    }
}

impl View for Behavior {
    type V = BehaviorView;

    open spec fn view(&self) -> BehaviorView {
        behavior_view(*self)
    }
}

/// What one reaction stages: the draft a behavior leaves behind, as a
/// function of the behavior, the event delivered to it, and the draft it
/// was handed.
pub open spec fn reaction(b: BehaviorView, event: EventView, pre: EffectView) -> EffectView {
    match b {
        BehaviorView::Sink => pre,
        BehaviorView::Forward { subject } => pre.sent(subject, event.message),
        BehaviorView::Label { cust, label } => pre.sent(
            cust,
            MessageView::Pair(Box::new(label), Box::new(event.message)),
        ),
        BehaviorView::Tag { cust } => pre.sent(
            cust,
            MessageView::Pair(
                Box::new(MessageView::Addr(event.target)),
                Box::new(event.message),
            ),
        ),
        BehaviorView::Once { cust } => pre.sent(cust, event.message).became(BehaviorView::Sink),
        BehaviorView::Keep(_) => pre.became(BehaviorView::Keep(Some(event.message))),
        BehaviorView::Maker => match event.message {
            MessageView::Addr(cust) => if pre.next_id() <= usize::MAX {
                pre.created(BehaviorView::Sink).sent(
                    cust,
                    MessageView::Addr(Actor { id: pre.next_id() as usize }),
                )
            } else {
                pre.failed(ErrorView::Refused("out of identities"@))
            },
            _ => pre.failed(ErrorView::Refused("unknown message"@)),
        },
        BehaviorView::Seed { creates, sends } => EffectView {
            actors: pre.actors + creates,
            events: pre.events + sends,
            ..pre
        },
    }
}

impl Behavior {
    /// React to `event`, staging this strategy's side effects in
    /// `effect`: exactly what `reaction` says, and nothing else.
    pub fn react(&self, event: Event, effect: &mut Effect)
        ensures
            final(effect)@ == reaction(self@, event@, old(effect)@),
    {
        match self {
            Behavior::Sink => {},
            Behavior::Forward { subject } => {
                effect.send(subject, event.message);
            },
            Behavior::Label { cust, label } => {
                let m = Message::Pair(Box::new(label.clone()), Box::new(event.message));
                proof {
                    assert(m@ == MessageView::Pair(Box::new(label@), Box::new(event@.message)));
                }
                effect.send(cust, m);
            },
            Behavior::Tag { cust } => {
                let target = event.target;
                let m = Message::Pair(Box::new(Message::Addr(target)), Box::new(event.message));
                proof {
                    assert(msg_view(Message::Addr(target)) == MessageView::Addr(target));
                    assert(m@ == MessageView::Pair(
                        Box::new(MessageView::Addr(target)),
                        Box::new(event@.message),
                    ));
                }
                effect.send(cust, m);
            },
            Behavior::Once { cust } => {
                effect.send(cust, event.message);
                effect.update(Behavior::Sink);
            },
            Behavior::Keep(_) => {
                effect.update(Behavior::Keep(Some(event.message)));
            },
            Behavior::Maker => {
                match event.message {
                    Message::Addr(cust) => {
                        if effect.can_create() {
                            let actor = effect.create(Behavior::Sink);
                            effect.send(&cust, Message::Addr(actor));
                        } else {
                            effect.throw("out of identities");
                        }
                    },
                    _ => {
                        effect.throw("unknown message");
                    },
                }
            },
            Behavior::Seed { creates, sends } => {
                let ghost d0: EffectView = effect@;
                let mut i: usize = 0;
                while i < creates.len()
                    invariant
                        i <= creates.len(),
                        effect@ == (EffectView {
                            actors: d0.actors + behavior_views(creates@).take(i as int),
                            ..d0
                        }),
                    decreases creates@.len() - i,
                {
                    effect.stage(creates[i].clone());
                    proof {
                        assert(behavior_views(creates@).take(i as int).push(creates@[i as int]@)
                            =~= behavior_views(creates@).take(i + 1));
                        assert(effect@ =~= (EffectView {
                            actors: d0.actors + behavior_views(creates@).take(i + 1),
                            ..d0
                        }));
                    }
                    i = i + 1;
                }
                let ghost d1: EffectView = effect@;
                proof {
                    assert(behavior_views(creates@).take(creates@.len() as int)
                        =~= behavior_views(creates@));
                }
                let mut j: usize = 0;
                while j < sends.len()
                    invariant
                        j <= sends.len(),
                        effect@ == (EffectView {
                            events: d1.events + event_views(sends@).take(j as int),
                            ..d1
                        }),
                    decreases sends@.len() - j,
                {
                    effect.send(&sends[j].target, sends[j].message.clone());
                    proof {
                        assert(event_views(sends@).take(j as int).push(sends@[j as int]@)
                            =~= event_views(sends@).take(j + 1));
                        assert(effect@ =~= (EffectView {
                            events: d1.events + event_views(sends@).take(j + 1),
                            ..d1
                        }));
                    }
                    j = j + 1;
                }
                proof {
                    assert(event_views(sends@).take(sends@.len() as int) =~= event_views(sends@));
                    assert(effect@ =~= reaction(self@, event@, d0));
                }
            },
        }
    }
}

impl Clone for Behavior {
    /// A clone carries the same mathematical value as the original.
    fn clone(&self) -> (r: Behavior)
        ensures
            r@ == self@,
        decreases *self,
    {
        match self {
            Behavior::Sink => Behavior::Sink,
            Behavior::Forward { subject } => Behavior::Forward { subject: *subject },
            Behavior::Label { cust, label } => Behavior::Label {
                cust: *cust,
                label: label.clone(),
            },
            Behavior::Tag { cust } => Behavior::Tag { cust: *cust },
            Behavior::Once { cust } => Behavior::Once { cust: *cust },
            Behavior::Keep(opt) => match opt {
                None => Behavior::Keep(None),
                Some(m) => Behavior::Keep(Some(m.clone())),
            },
            Behavior::Maker => Behavior::Maker,
            Behavior::Seed { creates, sends } => {
                let mut cs: Vec<Behavior> = Vec::new();
                let mut i: usize = 0;
                while i < creates.len()
                    invariant
                        i <= creates.len(),
                        cs@.len() == i,
                        *self is Seed,
                        creates == self->Seed_creates,
                        forall|k: int| 0 <= k < i ==> cs@[k]@ == creates@[k]@,
                    decreases creates@.len() - i,
                {
                    proof {
                        assert(decreases_to!(*self => self->Seed_creates));
                        assert(decreases_to!(self->Seed_creates => self->Seed_creates@));
                        assert(decreases_to!(
                            self->Seed_creates@ => self->Seed_creates@[i as int]));
                    }
                    cs.push(creates[i].clone());
                    i = i + 1;
                }
                let mut es: Vec<Event> = Vec::new();
                let mut j: usize = 0;
                while j < sends.len()
                    invariant
                        j <= sends.len(),
                        es@.len() == j,
                        forall|k: int| 0 <= k < j ==> es@[k]@ == sends@[k]@,
                    decreases sends@.len() - j,
                {
                    es.push(sends[j].clone());
                    j = j + 1;
                }
                let r = Behavior::Seed { creates: cs, sends: es };
                proof {
                    assert(behavior_views(cs@) =~= behavior_views(creates@));
                    assert(event_views(es@) =~= event_views(sends@));
                }
                r
            },
        }
    }
}

} // verus!
