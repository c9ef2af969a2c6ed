use reactor::Actor;
use reactor::Event;
use reactor::Message;

#[test]
fn clone_preserves_nested_messages() {
    let original = Message::Pair(
        Box::new(Message::Str("label")),
        Box::new(Message::List(vec![
            Message::Nat(1),
            Message::Int(-2),
            Message::Addr(Actor::new(3)),
            Message::Maybe(Some(Box::new(Message::Empty))),
        ])),
    );
    let copy = original.clone();
    assert_eq!(original, copy);
}

#[test]
fn clone_preserves_requests() {
    let cust = Actor::new(4);
    let set = Message::SetMsg {
        cust,
        name: "answer",
        value: Box::new(Message::Nat(42)),
    };
    assert_eq!(set, set.clone());

    let get = Message::GetMsg { cust, name: "answer" };
    assert_eq!(get, get.clone());

    let both = Message::OkFail { ok: cust, fail: Actor::new(5) };
    assert_eq!(both, both.clone());
}

#[test]
fn event_clone_preserves_target_and_message() {
    let target = Actor::new(8);
    let event = Event::new(&target, Message::Str("ping"));
    let copy = event.clone();
    assert_eq!(event.target, copy.target);
    assert_eq!(event.message, copy.message);
}

#[test]
fn equal_messages_compare_equal() {
    assert_eq!(Message::Empty, Message::Empty);
    assert_ne!(Message::Nat(1), Message::Nat(2));
    assert_ne!(
        Message::Addr(Actor::new(1)),
        Message::Addr(Actor::new(2)),
    );
}
