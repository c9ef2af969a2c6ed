use reactor::Actor;
use reactor::Behavior;
use reactor::Effect;
use reactor::Error;
use reactor::Event;
use reactor::Message;

#[test]
fn sink_behavior() {
    let sink = Actor::new(0);
    assert_eq!(sink, sink);
    println!("sink = {:?}", sink);

    let event = Event::new(&sink, Message::Empty);
    let mut effect = Effect::new();
    Behavior::Sink.react(event, &mut effect);

    assert_eq!(0, effect.actor_count());
    assert_eq!(0, effect.event_count());
    assert_eq!(None, effect.error());
}

#[test]
fn once_behavior() {
    let sink = Actor::new(0);
    let once = Actor::new(1);
    let behavior = Behavior::Once { cust: sink };

    let event = Event::new(&once, Message::Empty);
    let mut effect = Effect::new();
    behavior.react(event, &mut effect);

    assert_eq!(0, effect.actor_count());
    assert_eq!(1, effect.event_count());
    assert_eq!(None, effect.error());

    let behavior = match effect.take_state() {
        Some(next) => next,
        None => panic!("expected new state!"),
    };

    let event = Event::new(&once, Message::Empty);
    let mut effect = Effect::new();
    behavior.react(event, &mut effect);

    assert_eq!(0, effect.actor_count());
    assert_eq!(0, effect.event_count());
    assert_eq!(None, effect.error());
}

#[test]
fn maker_behavior() {
    let maker = Actor::new(0);

    let event = Event::new(&maker, Message::Empty);
    let mut effect = Effect::new();
    Behavior::Maker.react(event, &mut effect);

    assert_eq!(0, effect.actor_count());
    assert_eq!(0, effect.event_count());
    println!("Got error = {:?}", effect.error());
    assert_ne!(None, effect.error());

    let sink = Actor::new(1);
    let event = Event::new(&maker, Message::Addr(sink));
    let mut effect = Effect::new();
    Behavior::Maker.react(event, &mut effect);

    assert_eq!(1, effect.actor_count());
    assert_eq!(1, effect.event_count());
    assert_eq!(None, effect.error());
}

#[test]
fn create_assigns_distinct_identities() {
    let mut effect = Effect::new();
    let first = effect.create(Behavior::Sink);
    let second = effect.create(Behavior::Sink);

    assert_eq!(0, first.id);
    assert_eq!(1, second.id);
    assert_ne!(first, second);
    assert_eq!(first, first);
    assert_eq!(Actor::new(5), Actor::new(5));
    assert_eq!(2, effect.actor_count());
}

#[test]
fn failed_draft_keeps_its_staging() {
    let mut effect = Effect::new();
    let actor = effect.create(Behavior::Sink);
    effect.send(&actor, Message::Empty);
    effect.throw("boom");

    assert_eq!(1, effect.actor_count());
    assert_eq!(1, effect.event_count());
    assert_eq!(Some(Error::Refused("boom")), effect.error());
}

#[test]
fn maker_refuses_with_a_reason() {
    let maker = Actor::new(0);
    let event = Event::new(&maker, Message::Nat(42));
    let mut effect = Effect::new();
    Behavior::Maker.react(event, &mut effect);

    assert_eq!(Some(Error::Refused("unknown message")), effect.error());
}

#[test]
fn label_stages_one_decorated_send() {
    let cust = Actor::new(0);
    let labeler = Actor::new(1);
    let behavior = Behavior::Label { cust, label: Message::Str("Hello") };

    let event = Event::new(&labeler, Message::Str("World"));
    let mut effect = Effect::new();
    behavior.react(event, &mut effect);

    assert_eq!(0, effect.actor_count());
    assert_eq!(1, effect.event_count());
    assert_eq!(None, effect.error());
}

#[test]
fn keep_remembers_the_last_message() {
    let keeper = Actor::new(0);
    let behavior = Behavior::Keep(None);

    let event = Event::new(&keeper, Message::Nat(7));
    let mut effect = Effect::new();
    behavior.react(event, &mut effect);

    assert_eq!(0, effect.event_count());
    match effect.take_state() {
        Some(Behavior::Keep(Some(m))) => assert_eq!(Message::Nat(7), m),
        other => panic!("expected a kept message, got {:?}", other),
    }
}
