use vstd::prelude::*;
use crate::actor::Actor;

verus! {

/// The one legal payload between actors: a closed, recursively nestable
/// value. Nesting is the only structuring mechanism. The `Addr` variant
/// carries an actor reference, making identities first-class values that
/// can be handed from actor to actor.
#[derive(Debug, PartialEq)]
pub enum Message {
    /// The empty message.
    Empty,
    /// A natural number.
    Nat(usize),
    /// A signed integer.
    Int(isize),
    /// A text symbol.
    Str(&'static str),
    /// An actor reference.
    Addr(Actor),
    /// An optional message.
    Maybe(Option<Box<Message>>),
    /// An ordered pair of messages.
    Pair(Box<Message>, Box<Message>),
    /// A finite sequence of messages.
    List(Vec<Message>),
    /// A continuation pair: where to send a reply on success and on failure.
    OkFail { ok: Actor, fail: Actor },
    /// A request to read the value bound to `name`, answered to `cust`.
    GetMsg { cust: Actor, name: &'static str },
    /// A request to bind `value` to `name`, answered to `cust`.
    SetMsg { cust: Actor, name: &'static str, value: Box<Message> },
}

/// The mathematical value of a `Message`: the same shape with text as
/// character sequences and lists as mathematical sequences, so that two
/// messages built independently compare equal exactly when they carry the
/// same structure.
pub enum MessageView {
    Empty,
    Nat(usize),
    Int(isize),
    Str(Seq<char>),
    Addr(Actor),
    Maybe(Option<Box<MessageView>>),
    Pair(Box<MessageView>, Box<MessageView>),
    List(Seq<MessageView>),
    OkFail { ok: Actor, fail: Actor },
    GetMsg { cust: Actor, name: Seq<char> },
    SetMsg { cust: Actor, name: Seq<char>, value: Box<MessageView> },
}

/// The mathematical value carried by a message.
pub open spec fn msg_view(m: Message) -> MessageView
    decreases m,
{
    match m {
        Message::Empty => MessageView::Empty,
        Message::Nat(n) => MessageView::Nat(n),
        Message::Int(i) => MessageView::Int(i),
        Message::Str(s) => MessageView::Str(s@),
        Message::Addr(a) => MessageView::Addr(a),
        Message::Maybe(None) => MessageView::Maybe(None),
        Message::Maybe(Some(b)) => MessageView::Maybe(Some(Box::new(msg_view(*b)))),
        Message::Pair(a, b) => MessageView::Pair(
            Box::new(msg_view(*a)),
            Box::new(msg_view(*b)),
        ),
        Message::List(v) => MessageView::List(
            Seq::new(
                v@.len(),
                |i: int|
                    if 0 <= i < v@.len() {
                        msg_view(v@[i])
                    } else {
                        MessageView::Empty
                    },
            ),
        ),
        Message::OkFail { ok, fail } => MessageView::OkFail { ok, fail },
        Message::GetMsg { cust, name } => MessageView::GetMsg { cust, name: name@ },
        Message::SetMsg { cust, name, value } => MessageView::SetMsg {
            cust,
            name: name@,
            value: Box::new(msg_view(*value)),
        },
    }
}

impl View for Message {
    type V = MessageView;

    open spec fn view(&self) -> MessageView {
        msg_view(*self)
    }
}

impl Clone for Message {
    /// A clone carries the same mathematical value as the original.
    fn clone(&self) -> (r: Message)
        ensures
            r@ == self@,
        decreases *self,
    {
        match self {
            Message::Empty => Message::Empty,
            Message::Nat(n) => Message::Nat(*n),
            Message::Int(i) => Message::Int(*i),
            Message::Str(s) => Message::Str(*s),
            Message::Addr(a) => Message::Addr(*a),
            Message::Maybe(opt) => match opt {
                None => Message::Maybe(None),
                Some(m) => Message::Maybe(Some(Box::new((**m).clone()))),
            },
            Message::Pair(a, b) => Message::Pair(Box::new((**a).clone()), Box::new((**b).clone())),
            Message::List(v) => {
                let mut out: Vec<Message> = Vec::new();
                let mut i: usize = 0;
                while i < v.len()
                    invariant
                        i <= v.len(),
                        out@.len() == i,
                        *self is List,
                        v == self->List_0,
                        forall|j: int| 0 <= j < i ==> out@[j]@ == v@[j]@,
                    decreases v@.len() - i,
                {
                    proof {
                        assert(decreases_to!(*self => self->List_0));
                        assert(decreases_to!(self->List_0 => self->List_0@));
                        assert(decreases_to!(self->List_0@ => self->List_0@[i as int]));
                    }
                    out.push(v[i].clone());
                    i = i + 1;
                }
                let r = Message::List(out);
                proof {
                    assert(r@ matches MessageView::List(s) && s =~= self@->List_0);
                }
                r
            },
            Message::OkFail { ok, fail } => Message::OkFail { ok: *ok, fail: *fail },
            Message::GetMsg { cust, name } => Message::GetMsg { cust: *cust, name: *name },
            Message::SetMsg { cust, name, value } => Message::SetMsg {
                cust: *cust,
                name: *name,
                value: Box::new((**value).clone()),
            },
        }
    }
}

} // verus!
