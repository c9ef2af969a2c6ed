use reactor::Actor;
use reactor::Behavior;
use reactor::Config;
use reactor::Error;
use reactor::Event;
use reactor::Fault;
use reactor::Message;

#[test]
fn sink_ignores_all_messages() {
    let sink = Actor::new(1);
    let boot = Behavior::Seed {
        creates: vec![Behavior::Sink],
        sends: vec![Event::new(&sink, Message::Empty), Event::new(&sink, Message::Empty)],
    };

    let mut config = Config::new();
    let count = config.boot(boot);
    assert_eq!(2, count);

    let count = config.dispatch(2);
    assert_eq!(0, count);
}

#[test]
fn forward_proxies_all_messages() {
    let sink = Actor::new(1);
    let forward = Actor::new(2);
    let boot = Behavior::Seed {
        creates: vec![Behavior::Sink, Behavior::Forward { subject: sink }],
        sends: vec![
            Event::new(&forward, Message::Empty),
            Event::new(&forward, Message::Empty),
            Event::new(&sink, Message::Empty),
        ],
    };

    let mut config = Config::new();
    let count = config.boot(boot);
    assert_eq!(3, count);

    let count = config.dispatch(3);
    assert_eq!(2, count);
}

#[test]
fn label_decorates_message() {
    let cust = Actor::new(1);
    let label = Actor::new(2);
    let boot = Behavior::Seed {
        creates: vec![
            Behavior::Keep(None),
            Behavior::Label { cust, label: Message::Str("Hello") },
        ],
        sends: vec![Event::new(&label, Message::Str("World"))],
    };

    let mut config = Config::new();
    let count = config.boot(boot);
    assert_eq!(1, count);

    let count = config.dispatch(2);
    assert_eq!(0, count);
    let expect = Message::Pair(
        Box::new(Message::Str("Hello")),
        Box::new(Message::Str("World")),
    );
    match config.behavior_of(&cust) {
        Some(Behavior::Keep(Some(m))) => {
            println!("MockCust: message = {:?}", m);
            assert_eq!(&expect, m);
        },
        other => panic!("Unexpected {:?}", other),
    }
}

#[test]
fn tag_decorates_with_self() {
    let cust = Actor::new(1);
    let tag = Actor::new(2);
    let boot = Behavior::Seed {
        creates: vec![Behavior::Keep(None), Behavior::Tag { cust }],
        sends: vec![Event::new(&tag, Message::Str("It's Me!"))],
    };

    let mut config = Config::new();
    let count = config.boot(boot);
    assert_eq!(1, count);

    let count = config.dispatch(2);
    assert_eq!(0, count);
    match config.behavior_of(&cust) {
        Some(Behavior::Keep(Some(m))) => {
            println!("MockCust: message = {:?}", m);
            match m {
                Message::Pair(a, b) => match **a {
                    Message::Addr(_) => {
                        assert_eq!(Message::Str("It's Me!"), **b);
                    },
                    _ => panic!("Expected Addr(_), Got {:?}", a),
                },
                m => panic!("Unexpected {:?}", m),
            }
        },
        other => panic!("Unexpected {:?}", other),
    }
}

#[test]
fn dispatch_of_zero_changes_nothing() {
    let sink = Actor::new(1);
    let boot = Behavior::Seed {
        creates: vec![Behavior::Sink],
        sends: vec![Event::new(&sink, Message::Empty), Event::new(&sink, Message::Empty)],
    };

    let mut config = Config::new();
    assert_eq!(2, config.boot(boot));
    assert_eq!(2, config.dispatch(0));
    assert_eq!(2, config.event_count());
    assert_eq!(2, config.actor_count());
}

#[test]
fn end_to_end_absorber_run() {
    let sink = Actor::new(1);
    let boot = Behavior::Seed {
        creates: vec![Behavior::Sink],
        sends: vec![Event::new(&sink, Message::Empty), Event::new(&sink, Message::Empty)],
    };

    let mut config = Config::new();
    let count = config.boot(boot);
    assert_eq!(2, count);
    assert_eq!(2, config.actor_count());

    let count = config.dispatch(2);
    assert_eq!(0, count);
    assert_eq!(2, config.actor_count());
    assert_eq!(0, config.fault_count());
    assert_eq!(Some(&Behavior::Sink), config.behavior_of(&sink));
}

#[test]
fn events_are_dispatched_in_order() {
    let first = Actor::new(1);
    let second = Actor::new(2);
    let boot = Behavior::Seed {
        creates: vec![Behavior::Keep(None), Behavior::Keep(None)],
        sends: vec![
            Event::new(&first, Message::Str("first")),
            Event::new(&second, Message::Str("second")),
        ],
    };

    let mut config = Config::new();
    assert_eq!(2, config.boot(boot));

    assert_eq!(1, config.dispatch(1));
    assert_eq!(
        Some(&Behavior::Keep(Some(Message::Str("first")))),
        config.behavior_of(&first),
    );
    assert_eq!(Some(&Behavior::Keep(None)), config.behavior_of(&second));

    assert_eq!(0, config.dispatch(1));
    assert_eq!(
        Some(&Behavior::Keep(Some(Message::Str("second")))),
        config.behavior_of(&second),
    );
}

#[test]
fn one_shot_forwards_only_the_first_message() {
    let keeper = Actor::new(1);
    let once = Actor::new(2);
    let boot = Behavior::Seed {
        creates: vec![Behavior::Keep(None), Behavior::Once { cust: keeper }],
        sends: vec![
            Event::new(&once, Message::Str("first")),
            Event::new(&once, Message::Str("second")),
        ],
    };

    let mut config = Config::new();
    assert_eq!(2, config.boot(boot));

    let count = config.dispatch(2);
    assert_eq!(1, count);
    assert_eq!(Some(&Behavior::Sink), config.behavior_of(&once));

    assert_eq!(0, config.dispatch(1));
    assert_eq!(
        Some(&Behavior::Keep(Some(Message::Str("first")))),
        config.behavior_of(&keeper),
    );
    assert_eq!(0, config.fault_count());
}

#[test]
fn failed_reaction_commits_nothing() {
    let mut config = Config::new();
    let count = config.boot(Behavior::Maker);

    assert_eq!(0, count);
    assert_eq!(1, config.actor_count());
    assert_eq!(1, config.fault_count());
    assert_eq!(
        &Fault { target: Actor::new(0), error: Error::Refused("unknown message") },
        config.fault_at(0),
    );
    assert_eq!(Some(&Behavior::Maker), config.behavior_of(&Actor::new(0)));
}

#[test]
fn maker_creates_a_fresh_sink() {
    let keeper = Actor::new(1);
    let maker = Actor::new(2);
    let boot = Behavior::Seed {
        creates: vec![Behavior::Keep(None), Behavior::Maker],
        sends: vec![Event::new(&maker, Message::Addr(keeper))],
    };

    let mut config = Config::new();
    assert_eq!(1, config.boot(boot));
    assert_eq!(3, config.actor_count());

    assert_eq!(1, config.dispatch(1));
    assert_eq!(4, config.actor_count());
    assert_eq!(Some(&Behavior::Sink), config.behavior_of(&Actor::new(3)));

    assert_eq!(0, config.dispatch(1));
    assert_eq!(
        Some(&Behavior::Keep(Some(Message::Addr(Actor::new(3))))),
        config.behavior_of(&keeper),
    );
}

#[test]
fn unresolved_target_is_logged() {
    let nowhere = Actor::new(9);
    let boot = Behavior::Seed {
        creates: vec![],
        sends: vec![Event::new(&nowhere, Message::Empty)],
    };

    let mut config = Config::new();
    assert_eq!(1, config.boot(boot));

    assert_eq!(0, config.dispatch(1));
    assert_eq!(1, config.fault_count());
    assert_eq!(
        &Fault { target: nowhere, error: Error::Unresolved },
        config.fault_at(0),
    );
}

#[test]
fn dispatch_beyond_queue_drains_it() {
    let mut config = Config::new();
    assert_eq!(0, config.dispatch(7));

    let sink = Actor::new(1);
    let boot = Behavior::Seed {
        creates: vec![Behavior::Sink],
        sends: vec![Event::new(&sink, Message::Empty)],
    };
    assert_eq!(1, config.boot(boot));
    assert_eq!(0, config.dispatch(10));
    assert_eq!(0, config.fault_count());
}

#[test]
fn split_dispatch_budget_reaches_the_same_state() {
    let keeper = Actor::new(1);
    let once = Actor::new(2);
    let seed = || Behavior::Seed {
        creates: vec![Behavior::Keep(None), Behavior::Once { cust: keeper }],
        sends: vec![
            Event::new(&once, Message::Str("first")),
            Event::new(&once, Message::Str("second")),
        ],
    };

    let mut one = Config::new();
    one.boot(seed());
    let mut two = Config::new();
    two.boot(seed());

    assert_eq!(1, one.dispatch(2));
    one.dispatch(1);

    two.dispatch(1);
    assert_eq!(1, two.dispatch(1));
    two.dispatch(1);

    assert_eq!(one.event_count(), two.event_count());
    assert_eq!(one.actor_count(), two.actor_count());
    assert_eq!(one.fault_count(), two.fault_count());
    assert_eq!(one.behavior_of(&once), two.behavior_of(&once));
    assert_eq!(one.behavior_of(&keeper), two.behavior_of(&keeper));
}
