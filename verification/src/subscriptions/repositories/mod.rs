//! The repositories subscription: the decisions of one session.
//!
//! A session reads inbound items one by one. Each binary message is decoded
//! into a frame; a message frame is handed to the handler, and what the handler
//! returns decides what the session yields. The first fatal condition is
//! yielded as the session's last item.

use vstd::prelude::*;
use vstd::string::StringExecFns;
use crate::frames::{
    ErrorFrame, Frame, FrameDecodeError, FrameView, MessageFrame, decoded_view, frame_of,
};
use crate::subscriptions::{
    ConnectionHandler, Inbound, InboundView, ProcessedPayload, SubscriptionError,
    SubscriptionErrorView,
};
use crate::subscriptions::repositories::trace::{
    Event, Yielded, lemma_run_concat, lemma_terminated_is_absorbing, run, step,
};

pub mod handler;
pub mod payloads;
pub mod trace;

verus! {

/// The errors that the server reports by name on this subscription.
#[derive(Debug, Clone, Copy, PartialEq, Eq)]
pub enum Error {
    /// The cursor was in the future.
    FutureCursor,
    /// The consumer is too slow.
    ConsumerTooSlow,
}

/// Where a session stands.
#[derive(Debug, Clone, Copy, PartialEq, Eq)]
pub enum State {
    Running,
    /// No further item is read.
    Terminated,
}

/// What a session does with an inbound item.
#[derive(Debug, Clone, PartialEq, Eq)]
pub enum Received {
    /// Nothing: read the next item.
    Skip,
    /// Hand the type tag and the body to the handler, and its result to
    /// [`Repositories::handled`].
    Dispatch(String, Vec<u8>),
    /// Yield the error; the session is over.
    Fail(SubscriptionError<Error>),
    /// The session is over.
    End,
}

/// A [`Received`] as contracts speak of it.
pub enum ReceivedView {
    Skip,
    Dispatch(Seq<char>, Seq<u8>),
    Fail(SubscriptionErrorView<Error>),
    End,
}

impl View for Received {
    type V = ReceivedView;

    open spec fn view(&self) -> ReceivedView {
        match self {
            Received::Skip => ReceivedView::Skip,
            Received::Dispatch(t, body) => ReceivedView::Dispatch(t@, body@),
            Received::Fail(e) => ReceivedView::Fail(e@),
            Received::End => ReceivedView::End,
        }
    }
}

/// An optional string as `{:?}` prints it.
pub uninterp spec fn debug_text(message: Option<Seq<char>>) -> Seq<char>;

/// `format!` with `{:?}` on an optional string: what `Debug` prints for it.
#[verifier::external_body]
fn debug_message(message: &Option<String>) -> (text: String)
    ensures
        text@ == debug_text(message.deep_view()),
{
    format!("{:?}", message)
}

/// The description of an error frame whose code the subscription does not
/// know.
pub open spec fn unknown_description(code: Seq<char>, message: Option<Seq<char>>) -> Seq<char> {
    "Unknown Error Frame. Error: "@ + code + ". Message: "@ + debug_text(message)
}

/// The error that an error frame ends the session with.
pub open spec fn reported_error(
    code: Seq<char>,
    message: Option<Seq<char>>,
) -> SubscriptionErrorView<Error> {
    if code == "FutureCursor"@ {
        SubscriptionErrorView::Other(Error::FutureCursor)
    } else if code == "ConsumerTooSlow"@ {
        SubscriptionErrorView::Other(Error::ConsumerTooSlow)
    } else {
        SubscriptionErrorView::Unknown(unknown_description(code, message))
    }
}

/// What a running session does with a decoding outcome.
pub open spec fn on_decoded(frame: Result<FrameView, FrameDecodeError>) -> ReceivedView {
    match frame {
        Ok(FrameView::Message(Some(t), body)) => ReceivedView::Dispatch(t, body),
        Ok(FrameView::Message(None, _)) => ReceivedView::Skip,
        Ok(FrameView::Error(code, message)) => ReceivedView::Fail(reported_error(code, message)),
        Err(FrameDecodeError::UnknownFrameType) => ReceivedView::Skip,
        Err(FrameDecodeError::EmptyPayload) => ReceivedView::Fail(
            SubscriptionErrorView::Abort("Received empty payload"@),
        ),
        Err(FrameDecodeError::MalformedEncoding) => ReceivedView::Fail(
            SubscriptionErrorView::Abort("Received frame was invalid"@),
        ),
    }
}

/// What a running session does with an inbound item.
pub open spec fn on_inbound(item: InboundView) -> ReceivedView {
    match item {
        InboundView::Binary(bytes) => on_decoded(frame_of(bytes)),
        InboundView::Other => ReceivedView::Skip,
        InboundView::TransportError => ReceivedView::Fail(
            SubscriptionErrorView::Abort("Received invalid payload"@),
        ),
        InboundView::End => ReceivedView::End,
    }
}

/// The state that a running session is in after it did `received`.
pub open spec fn state_after(received: ReceivedView) -> State {
    match received {
        ReceivedView::Skip | ReceivedView::Dispatch(_, _) => State::Running,
        ReceivedView::Fail(_) | ReceivedView::End => State::Terminated,
    }
}

/// What the handler made of a dispatched payload.
pub enum Outcome<Data> {
    Processed(ProcessedPayload<Data>),
    Ignored,
    Failed,
}

/// A handler's result as the session reads it.
pub open spec fn outcome_of<Data, E>(result: Result<Option<ProcessedPayload<Data>>, E>) -> Outcome<
    Data,
> {
    match result {
        Ok(Some(payload)) => Outcome::Processed(payload),
        Ok(None) => Outcome::Ignored,
        Err(_) => Outcome::Failed,
    }
}

/// What a running session yields for a handler's outcome.
pub open spec fn on_outcome<Data>(outcome: Outcome<Data>) -> Option<
    Result<ProcessedPayload<Data>, SubscriptionErrorView<Error>>,
> {
    match outcome {
        Outcome::Processed(payload) => Some(Ok(payload)),
        Outcome::Ignored => None,
        Outcome::Failed => Some(Err(SubscriptionErrorView::Abort("Received invalid payload"@))),
    }
}

/// A yielded item by its view.
pub open spec fn yielded_view<Data>(
    item: Option<Result<ProcessedPayload<Data>, SubscriptionError<Error>>>,
) -> Option<Result<ProcessedPayload<Data>, SubscriptionErrorView<Error>>> {
    match item {
        Some(Ok(payload)) => Some(Ok(payload)),
        Some(Err(e)) => Some(Err(e@)),
        None => None,
    }
}

fn report(frame: ErrorFrame) -> (e: SubscriptionError<Error>)
    ensures
        e@ == reported_error(frame.code@, frame.message.deep_view()),
{
    if frame.code == String::from_str("FutureCursor") {
        SubscriptionError::Other(Error::FutureCursor)
    } else if frame.code == String::from_str("ConsumerTooSlow") {
        SubscriptionError::Other(Error::ConsumerTooSlow)
    } else {
        let mut description = String::from_str("Unknown Error Frame. Error: ");
        description.append(frame.code.as_str());
        description.append(". Message: ");
        description.append(debug_message(&frame.message).as_str());
        SubscriptionError::Unknown(description)
    }
}

/// The events that a session meets: each inbound item with the handler's
/// outcome at the same place.
pub open spec fn events<Data>(items: Seq<Inbound>, outcomes: Seq<Outcome<Data>>) -> Seq<
    Event<Data>,
> {
    Seq::new(items.len(), |i: int| Event { item: items[i]@, outcome: outcomes[i] })
}

/// Yielded items by their views.
pub open spec fn yielded_views<Data>(
    yielded: Seq<Result<ProcessedPayload<Data>, SubscriptionError<Error>>>,
) -> Seq<Yielded<Data>> {
    Seq::new(
        yielded.len(),
        |i: int|
            match yielded[i] {
                Ok(payload) => Ok(payload),
                Err(e) => Err(e@),
            },
    )
}

/// One session of the repositories subscription.
#[derive(Debug)]
pub struct Repositories {
    state: State,
}

impl Repositories {
    pub closed spec fn state(&self) -> State {
        self.state
    }

    /// A session that has read nothing yet.
    pub fn new() -> (session: Self)
        ensures
            session.state() == State::Running,
    {
        Repositories { state: State::Running }
    }

    pub fn is_terminated(&self) -> (terminated: bool)
        ensures
            terminated == (self.state() == State::Terminated),
    {
        match self.state {
            State::Running => false,
            State::Terminated => true,
        }
    }

    /// Decides on a decoded binary message. A terminated session reads
    /// nothing: it answers `End`.
    pub fn on_frame(&mut self, frame: Result<Frame, FrameDecodeError>) -> (received: Received)
        ensures
            old(self).state() == State::Running ==> received@ == on_decoded(decoded_view(frame))
                && final(self).state() == state_after(received@),
            old(self).state() == State::Terminated ==> received@ == ReceivedView::End
                && final(self).state() == State::Terminated,
    {
        if self.is_terminated() {
            return Received::End;
        }
        match frame {
            Ok(Frame::Message(Some(t), MessageFrame { body })) => Received::Dispatch(t, body),
            Ok(Frame::Message(None, _)) => Received::Skip,
            Ok(Frame::Error(frame)) => {
                self.state = State::Terminated;
                Received::Fail(report(frame))
            },
            Err(FrameDecodeError::UnknownFrameType) => Received::Skip,
            Err(FrameDecodeError::EmptyPayload) => {
                self.state = State::Terminated;
                Received::Fail(SubscriptionError::Abort(String::from_str("Received empty payload")))
            },
            Err(FrameDecodeError::MalformedEncoding) => {
                self.state = State::Terminated;
                Received::Fail(
                    SubscriptionError::Abort(String::from_str("Received frame was invalid")),
                )
            },
        }
    }

    /// Decides on the next inbound item. A terminated session reads nothing:
    /// it answers `End`.
    pub fn receive(&mut self, item: Inbound) -> (received: Received)
        ensures
            old(self).state() == State::Running ==> received@ == on_inbound(item@)
                && final(self).state() == state_after(received@),
            old(self).state() == State::Terminated ==> received@ == ReceivedView::End
                && final(self).state() == State::Terminated,
    {
        if self.is_terminated() {
            return Received::End;
        }
        match item {
            Inbound::Binary(bytes) => self.on_frame(Frame::try_from(bytes)),
            Inbound::Other => Received::Skip,
            Inbound::TransportError => {
                self.state = State::Terminated;
                Received::Fail(
                    SubscriptionError::Abort(String::from_str("Received invalid payload")),
                )
            },
            Inbound::End => {
                self.state = State::Terminated;
                Received::End
            },
        }
    }

    /// Decides on what the handler returned for a dispatched payload: the item
    /// to yield, if any. A failure of the handler ends the session. A
    /// terminated session yields nothing.
    pub fn handled<Data, E>(&mut self, result: Result<Option<ProcessedPayload<Data>>, E>) -> (item:
        Option<Result<ProcessedPayload<Data>, SubscriptionError<Error>>>)
        ensures
            old(self).state() == State::Running ==> yielded_view(item) == on_outcome(
                outcome_of(result),
            ) && final(self).state() == (if result is Err {
                State::Terminated
            } else {
                State::Running
            }),
            old(self).state() == State::Terminated ==> item is None && final(self).state()
                == State::Terminated,
    {
        if self.is_terminated() {
            return None;
        }
        match result {
            Ok(Some(payload)) => Some(Ok(payload)),
            Ok(None) => None,
            Err(_) => {
                self.state = State::Terminated;
                Some(Err(SubscriptionError::Abort(String::from_str("Received invalid payload"))))
            },
        }
    }
}

/// Whether `result` is something that `handler` may return for the payload,
/// and `outcome` what a session reads from it.
pub open spec fn handled_as<H: ConnectionHandler>(
    handler: &H,
    t: Seq<char>,
    payload: Seq<u8>,
    result: Result<Option<ProcessedPayload<H::HandledData>>, H::HandlingError>,
    outcome: Outcome<H::HandledData>,
) -> bool {
    handler.handles(t, payload, result) && outcome == outcome_of(result)
}

/// Whether `outcome` is what `handler` made of `item`: where a running
/// session dispatches the item, the outcome of something that the handler
/// may return for the item's type tag and body.
pub open spec fn answered<H: ConnectionHandler>(
    handler: &H,
    item: InboundView,
    outcome: Outcome<H::HandledData>,
) -> bool {
    on_inbound(item) matches ReceivedView::Dispatch(t, body) ==> exists|
        result: Result<Option<ProcessedPayload<H::HandledData>>, H::HandlingError>,
    | #[trigger] handled_as(handler, t, body, result, outcome)
}

/// Whether a session that meets `events` is still running when it comes to
/// the one at `i`.
pub open spec fn reached<Data>(events: Seq<Event<Data>>, i: int) -> bool {
    run(State::Running, events.take(i)).0 == State::Running
}

/// Whether `yielded` is what a session yields that meets `items` in order
/// with `handler`: there is an outcome for each item such that the session
/// yields `yielded` for them, and such that each outcome that the session
/// comes to is what the handler made of its item.
pub open spec fn replayed<H: ConnectionHandler>(
    items: Seq<Inbound>,
    handler: &H,
    yielded: Seq<Result<ProcessedPayload<H::HandledData>, SubscriptionError<Error>>>,
) -> bool {
    exists|outcomes: Seq<Outcome<H::HandledData>>|
        {
            &&& outcomes.len() == items.len()
            &&& yielded_views(yielded) == run(
                State::Running,
                #[trigger] events(items, outcomes),
            ).1
            &&& forall|i: int|
                0 <= i < items.len() && #[trigger] reached(events(items, outcomes), i)
                    ==> answered(handler, items[i]@, outcomes[i])
        }
}

/// Runs one whole session over inbound items that are already at hand, with
/// `handler` handling the payloads, and returns what the session yields, in
/// order. Items behind the one that ends the session are not looked at.
pub fn replay<H: ConnectionHandler>(items: Vec<Inbound>, handler: &H) -> (yielded: Vec<
    Result<ProcessedPayload<H::HandledData>, SubscriptionError<Error>>,
>)
    ensures
        replayed(items@, handler, yielded@),
{
    let mut session = Repositories::new();
    let mut yielded: Vec<Result<ProcessedPayload<H::HandledData>, SubscriptionError<Error>>> =
        Vec::new();
    let ghost all = items@;
    let ghost mut outcomes: Seq<Outcome<H::HandledData>> = Seq::empty();
    proof {
        assert(events(all.take(0), outcomes) =~= Seq::<Event<H::HandledData>>::empty());
        assert(yielded_views(yielded@) =~= Seq::<Yielded<H::HandledData>>::empty());
    }
    for item in it: items
        invariant_except_break
            outcomes.len() == it.index(),
            session.state() == State::Running,
        invariant
            it.seq() == all,
            outcomes.len() <= all.len(),
            run(State::Running, events(all.take(outcomes.len() as int), outcomes)) == (
                session.state(),
                yielded_views(yielded@),
            ),
            forall|i: int|
                0 <= i < outcomes.len() ==> answered(handler, all[i]@, #[trigger] outcomes[i]),
        ensures
            outcomes.len() == all.len() || session.state() == State::Terminated,
    {
        let ghost done = outcomes.len() as int;
        let ghost before = events(all.take(done), outcomes);
        let ghost yielded_before = yielded_views(yielded@);
        let ghost answers = outcomes;
        let ghost outcome: Outcome<H::HandledData> = Outcome::Ignored;
        let received = session.receive(item);
        assert(received@ == on_inbound(all[done]@));
        match received {
            Received::Skip => {},
            Received::Dispatch(t, body) => {
                let ghost tag = t@;
                let ghost bytes = body@;
                let result = handler.handle_payload(t, body);
                proof {
                    outcome = outcome_of(result);
                    assert(on_inbound(all[done]@) matches ReceivedView::Dispatch(t, body)
                        && t == tag && body == bytes);
                    assert(handled_as(handler, tag, bytes, result, outcome));
                    assert(answered(handler, all[done]@, outcome));
                }
                match session.handled(result) {
                    Some(y) => {
                        yielded.push(y);
                    },
                    None => {},
                }
            },
            Received::Fail(e) => {
                yielded.push(Err(e));
            },
            Received::End => {},
        }
        proof {
            assert(answered(handler, all[done]@, outcome));
            let event = Event { item: all[done]@, outcome };
            outcomes = outcomes.push(outcome);
            let now = events(all.take(done + 1), outcomes);
            assert(now.drop_last() =~= before);
            assert(now.last() == event);
            match step(State::Running, event).1 {
                Some(y) => {
                    assert(yielded_views(yielded@) =~= yielded_before.push(y));
                },
                None => {
                    assert(yielded_views(yielded@) =~= yielded_before);
                },
            }
            assert forall|i: int| 0 <= i < outcomes.len() implies answered(
                handler,
                all[i]@,
                #[trigger] outcomes[i],
            ) by {
                if i < done {
                    assert(outcomes[i] == answers[i]);
                }
            }
        }
        if session.is_terminated() {
            break;
        }
    }
    proof {
        let done = outcomes.len() as int;
        let rest = all.len() - done;
        let ignored = Seq::new(rest as nat, |i: int| Outcome::<H::HandledData>::Ignored);
        let first = events(all.take(done), outcomes);
        let second = events(all.skip(done), ignored);
        let whole = events(all, outcomes + ignored);
        assert(whole =~= first + second);
        lemma_run_concat(State::Running, first, second);
        if session.state() == State::Terminated {
            lemma_terminated_is_absorbing(second);
        } else {
            assert(second =~= Seq::<Event<H::HandledData>>::empty());
        }
        assert(yielded_views(yielded@) + Seq::<Yielded<H::HandledData>>::empty() =~= yielded_views(
            yielded@,
        ));
        assert((outcomes + ignored).len() == all.len());
        assert forall|i: int| 0 <= i < all.len() && #[trigger] reached(whole, i) implies answered(
            handler,
            all[i]@,
            (outcomes + ignored)[i],
        ) by {
            if i < done {
                assert((outcomes + ignored)[i] == outcomes[i]);
            } else {
                assert(whole.take(i) =~= first + second.take(i - done));
                lemma_run_concat(State::Running, first, second.take(i - done));
                lemma_terminated_is_absorbing(second.take(i - done));
            }
        }
    }
    yielded
}

} // verus!
