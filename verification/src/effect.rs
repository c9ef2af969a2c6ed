use vstd::prelude::*;
use std::collections::VecDeque;
use crate::actor::Actor;
use crate::behavior::behavior_views;
use crate::behavior::event_views;
use crate::behavior::Behavior;
use crate::behavior::BehaviorView;
use crate::error::Error;
use crate::error::ErrorView;
use crate::event::Event;
use crate::event::EventView;
use crate::message::Message;
use crate::message::MessageView;

verus! {

/// A staged, not-yet-visible transaction: the side effects one reaction
/// proposes. Nothing in a draft touches the scheduler until the scheduler
/// itself commits it; a flagged failure makes the whole draft void.
pub struct Effect {
    /// The first identity this draft may assign: the size of the registry
    /// the draft was opened against.
    pub(crate) base: usize,
    /// Behaviors of the staged actor creations, in call order; the k-th
    /// is created with identity `base + k`.
    pub(crate) actors: Vec<Behavior>,
    /// The staged outgoing events, in call order.
    pub(crate) events: VecDeque<Event>,
    /// The staged behavior replacement for the dispatching actor, if any.
    pub(crate) state: Option<Behavior>,
    /// The staged failure, if any.
    pub(crate) error: Option<Error>,
}

/// The mathematical value of a draft.
#[verifier::ext_equal]
pub struct EffectView {
    pub base: int,
    pub actors: Seq<BehaviorView>,
    pub events: Seq<EventView>,
    pub state: Option<BehaviorView>,
    pub error: Option<ErrorView>,
}

impl EffectView {
    /// An empty draft whose fresh identities start at `base`.
    pub open spec fn opened_at(base: int) -> EffectView {
        EffectView {
            base,
            actors: Seq::empty(),
            events: Seq::empty(),
            state: None,
            error: None,
        }
    }

    /// The next identity this draft would assign.
    pub open spec fn next_id(self) -> int {
        self.base + self.actors.len()
    }

    /// This draft with one more staged creation.
    pub open spec fn created(self, behavior: BehaviorView) -> EffectView {
        EffectView { actors: self.actors.push(behavior), ..self }
    }

    /// This draft with one more staged send.
    pub open spec fn sent(self, target: Actor, message: MessageView) -> EffectView {
        EffectView { events: self.events.push(EventView { target, message }), ..self }
    }

    /// This draft with a staged behavior replacement; a later replacement
    /// overrides an earlier one.
    pub open spec fn became(self, behavior: BehaviorView) -> EffectView {
        EffectView { state: Some(behavior), ..self }
    }

    /// This draft flagged as failed; a later failure overrides an earlier
    /// reason.
    pub open spec fn failed(self, error: ErrorView) -> EffectView {
        EffectView { error: Some(error), ..self }
    }
}

impl View for Effect {
    type V = EffectView;

    closed spec fn view(&self) -> EffectView {
        EffectView {
            base: self.base as int,
            actors: behavior_views(self.actors@),
            events: event_views(self.events@),
            state: match self.state {
                Some(b) => Some(b@),
                None => None,
            },
            error: match self.error {
                Some(e) => Some(e@),
                None => None,
            },
        }
    }
}

/// How a draft's mathematical value is built from its parts.
pub(crate) proof fn lemma_effect_parts(e: Effect)
    ensures
        e@.base == e.base as int,
        e@.actors == behavior_views(e.actors@),
        e@.events == event_views(e.events@),
        e@.state == (match e.state {
            Some(b) => Some(b@),
            None => None::<BehaviorView>,
        }),
        e@.error == (match e.error {
            Some(er) => Some(er@),
            None => None::<ErrorView>,
        }),
{
}

impl Effect {
    /// A fresh, empty draft. Its identities are assigned from 0; a draft
    /// meant to commit into a scheduler is opened by the scheduler itself,
    /// against its current registry.
    pub fn new() -> (e: Effect)
        ensures
            e@ == EffectView::opened_at(0),
    {
        Effect::opened(0)
    }

    /// A fresh, empty draft assigning identities from `base` upward.
    pub(crate) fn opened(base: usize) -> (e: Effect)
        ensures
            e@ == EffectView::opened_at(base as int),
    {
        let e = Effect {
            base,
            actors: Vec::new(),
            events: VecDeque::new(),
            state: None,
            error: None,
        };
        proof {
            assert(e@ =~= EffectView::opened_at(base as int));
        }
        e
    }

    /// Whether the draft can still assign a fresh identity.
    pub fn can_create(&self) -> (b: bool)
        ensures
            b == (self@.next_id() <= usize::MAX),
    {
        self.base <= usize::MAX - self.actors.len()
    }

    /// Stage the creation of a new actor running `behavior`. The actor's
    /// fresh identity is assigned and returned at once, so the same
    /// reaction may send to it or hand its reference out — but it becomes
    /// reachable only when the draft commits.
    pub fn create(&mut self, behavior: Behavior) -> (actor: Actor)
        requires
            old(self)@.next_id() <= usize::MAX,
        ensures
            actor.id == old(self)@.next_id(),
            final(self)@ == old(self)@.created(behavior@),
    {
        let id = self.base + self.actors.len();
        self.actors.push(behavior);
        proof {
            assert(self@ =~= old(self)@.created(behavior@));
        }
        Actor { id }
    }

    /// Stage a creation without handing back the reference; the created
    /// actor still takes the draft's next identity by its position.
    pub(crate) fn stage(&mut self, behavior: Behavior)
        ensures
            final(self)@ == old(self)@.created(behavior@),
    {
        self.actors.push(behavior);
        proof {
            assert(self@ =~= old(self)@.created(behavior@));
        }
    }

    /// Stage one event delivering `message` to `target`, appended behind
    /// the draft's earlier sends.
    pub fn send(&mut self, target: &Actor, message: Message)
        ensures
            final(self)@ == old(self)@.sent(*target, message@),
    {
        let event = Event::new(target, message);
        self.events.push_back(event);
        proof {
            assert(self@ =~= old(self)@.sent(*target, message@));
        }
    }

    /// Stage a behavior replacement for the dispatching actor. At most one
    /// replacement takes effect: the last call wins.
    pub fn update(&mut self, behavior: Behavior)
        ensures
            final(self)@ == old(self)@.became(behavior@),
    {
        self.state = Some(behavior);
        proof {
            assert(self@ =~= old(self)@.became(behavior@));
        }
    }

    /// Flag the whole draft as failed, with an opaque reason. Staged
    /// creates and sends stay in the draft, but a failed draft never
    /// reaches commit.
    pub fn throw(&mut self, reason: &'static str)
        ensures
            final(self)@ == old(self)@.failed(ErrorView::Refused(reason@)),
    {
        self.error = Some(Error::Refused(reason));
        proof {
            assert(self@ =~= old(self)@.failed(ErrorView::Refused(reason@)));
        }
    }

    /// How many actor creations the draft stages.
    pub fn actor_count(&self) -> (n: usize)
        ensures
            n == self@.actors.len(),
    {
        self.actors.len()
    }

    /// How many outgoing events the draft stages.
    pub fn event_count(&self) -> (n: usize)
        ensures
            n == self@.events.len(),
    {
        self.events.len()
    }

    /// The staged failure, if any.
    pub fn error(&self) -> (r: Option<Error>)
        ensures
            match r {
                Some(e) => self@.error == Some(e@),
                None => self@.error is None,
            },
    {
        self.error
    }

    /// Remove and return the staged behavior replacement.
    pub fn take_state(&mut self) -> (r: Option<Behavior>)
        ensures
            match r {
                Some(b) => old(self)@.state == Some(b@),
                None => old(self)@.state is None,
            },
            final(self)@ == (EffectView { state: None, ..old(self)@ }),
    {
        let r = self.state.take();
        proof {
            assert(self@ =~= (EffectView { state: None, ..old(self)@ }));
        }
        r
    }
}

} // verus!
