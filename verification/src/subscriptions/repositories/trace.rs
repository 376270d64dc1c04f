//! A session as a whole: what it yields for a sequence of inbound items.

use vstd::prelude::*;
use crate::frames::{FrameDecodeError, FrameView, frame_of};
use crate::subscriptions::{InboundView, ProcessedPayload, SubscriptionErrorView};
use crate::subscriptions::repositories::{
    Error, Outcome, ReceivedView, State, on_inbound, on_outcome, reported_error,
};

verus! {

/// One inbound item, with what the handler returns for it if the session
/// dispatches it.
pub struct Event<Data> {
    pub item: InboundView,
    pub outcome: Outcome<Data>,
}

/// An item that a session yields.
pub type Yielded<Data> = Result<ProcessedPayload<Data>, SubscriptionErrorView<Error>>;

/// One step of a session: the state it is in afterwards and the item it
/// yields, if any. A terminated session stays so and yields nothing.
pub open spec fn step<Data>(state: State, event: Event<Data>) -> (State, Option<Yielded<Data>>) {
    match state {
        State::Terminated => (State::Terminated, None),
        State::Running => match on_inbound(event.item) {
            ReceivedView::Skip => (State::Running, None),
            ReceivedView::Dispatch(_, _) => (
                if event.outcome is Failed {
                    State::Terminated
                } else {
                    State::Running
                },
                on_outcome(event.outcome),
            ),
            ReceivedView::Fail(e) => (State::Terminated, Some(Err(e))),
            ReceivedView::End => (State::Terminated, None),
        },
    }
}

/// A session that starts in `state` and meets `events` in order: the state
/// it ends in and the items it yields, in order.
pub open spec fn run<Data>(state: State, events: Seq<Event<Data>>) -> (State, Seq<Yielded<Data>>)
    decreases events.len(),
{
    if events.len() == 0 {
        (state, Seq::empty())
    } else {
        let (before, yielded) = run(state, events.drop_last());
        let (after, item) = step(before, events.last());
        (
            after,
            match item {
                Some(y) => yielded.push(y),
                None => yielded,
            },
        )
    }
}

/// A session that meets `first` and then `second` is the session that meets
/// `second` from where `first` left it.
pub proof fn lemma_run_concat<Data>(state: State, first: Seq<Event<Data>>, second: Seq<Event<Data>>)
    ensures
        run(state, first + second) == (
            run(run(state, first).0, second).0,
            run(state, first).1 + run(run(state, first).0, second).1,
        ),
    decreases second.len(),
{
    let middle = run(state, first).0;
    if second.len() == 0 {
        assert(first + second =~= first);
        assert(run(state, first).1 + run(middle, second).1 =~= run(state, first).1);
    } else {
        lemma_run_concat(state, first, second.drop_last());
        assert((first + second).drop_last() =~= first + second.drop_last());
        assert((first + second).last() == second.last());
        let (before, yielded) = run(middle, second.drop_last());
        let item = step(before, second.last()).1;
        match item {
            Some(y) => {
                assert(run(state, first).1 + yielded.push(y) =~= (run(state, first).1
                    + yielded).push(y));
            },
            None => {},
        }
    }
}

/// Terminated is absorbing: whatever arrives afterwards, the session stays
/// terminated and yields nothing.
pub proof fn lemma_terminated_is_absorbing<Data>(events: Seq<Event<Data>>)
    ensures
        run(State::Terminated, events) == (State::Terminated, Seq::<Yielded<Data>>::empty()),
    decreases events.len(),
{
    if events.len() > 0 {
        lemma_terminated_is_absorbing(events.drop_last());
    }
}

/// An event that leaves the state as it is and yields nothing may be left
/// out: the session yields the same items with it as without it.
pub proof fn lemma_silent_event<Data>(
    state: State,
    before: Seq<Event<Data>>,
    event: Event<Data>,
    after: Seq<Event<Data>>,
)
    requires
        step(State::Running, event) == (State::Running, None::<Yielded<Data>>),
    ensures
        run(state, before.push(event) + after) == run(state, before + after),
{
    let middle = run(state, before).0;
    assert(step(middle, event) == (middle, None::<Yielded<Data>>));
    assert(before.push(event).drop_last() =~= before);
    assert(before.push(event).last() == event);
    assert(run(state, before.push(event)) == run(state, before));
    lemma_run_concat(state, before.push(event), after);
    lemma_run_concat(state, before, after);
}

/// A message whose header is of unknown type is skipped: the session does not
/// end, and the items before and after it are processed as if it had not
/// arrived.
pub proof fn lemma_unknown_frame_type_is_skipped<Data>(
    state: State,
    before: Seq<Event<Data>>,
    bytes: Seq<u8>,
    outcome: Outcome<Data>,
    after: Seq<Event<Data>>,
)
    requires
        frame_of(bytes) == Err::<FrameView, FrameDecodeError>(FrameDecodeError::UnknownFrameType),
    ensures
        run(state, before.push(Event { item: InboundView::Binary(bytes), outcome }) + after)
            == run(state, before + after),
{
    lemma_silent_event(state, before, Event { item: InboundView::Binary(bytes), outcome }, after);
}

/// A payload that the handler ignores yields nothing and leaves nothing
/// behind: the items before and after it are processed as if it had not
/// arrived.
pub proof fn lemma_ignored_payload_is_skipped<Data>(
    state: State,
    before: Seq<Event<Data>>,
    bytes: Seq<u8>,
    t: Seq<char>,
    body: Seq<u8>,
    after: Seq<Event<Data>>,
)
    requires
        frame_of(bytes) == Ok::<FrameView, FrameDecodeError>(FrameView::Message(Some(t), body)),
    ensures
        run(
            state,
            before.push(Event { item: InboundView::Binary(bytes), outcome: Outcome::Ignored })
                + after,
        ) == run(state, before + after),
{
    lemma_silent_event(
        state,
        before,
        Event { item: InboundView::Binary(bytes), outcome: Outcome::<Data>::Ignored },
        after,
    );
}

/// An error frame ends the session: a running session yields the reported
/// error as its last item, whatever arrives afterwards. The codes
/// `FutureCursor` and `ConsumerTooSlow` are reported as the errors of those
/// names.
pub proof fn lemma_error_frame_ends_session<Data>(
    before: Seq<Event<Data>>,
    bytes: Seq<u8>,
    code: Seq<char>,
    message: Option<Seq<char>>,
    outcome: Outcome<Data>,
    after: Seq<Event<Data>>,
)
    requires
        run(State::Running, before).0 == State::Running,
        frame_of(bytes) == Ok::<FrameView, FrameDecodeError>(FrameView::Error(code, message)),
    ensures
        run(
            State::Running,
            before.push(Event { item: InboundView::Binary(bytes), outcome }) + after,
        ) == (
            State::Terminated,
            run(State::Running, before).1.push(Err(reported_error(code, message))),
        ),
        code == "FutureCursor"@ ==> reported_error(code, message) == SubscriptionErrorView::Other(
            Error::FutureCursor,
        ),
        code == "ConsumerTooSlow"@ ==> reported_error(code, message)
            == SubscriptionErrorView::Other(Error::ConsumerTooSlow),
{
    let event = Event { item: InboundView::Binary(bytes), outcome };
    let yielded = run(State::Running, before).1;
    let e = reported_error(code, message);
    assert(before.push(event).drop_last() =~= before);
    assert(before.push(event).last() == event);
    assert(step(State::Running, event) == (
        State::Terminated,
        Some(Err::<ProcessedPayload<Data>, _>(e)),
    ));
    assert(run(State::Running, before.push(event)) == (State::Terminated, yielded.push(Err(e))));
    lemma_run_concat(State::Running, before.push(event), after);
    lemma_terminated_is_absorbing(after);
    assert(yielded.push(Err(e)) + Seq::<Yielded<Data>>::empty() =~= yielded.push(Err(e)));
    assert("FutureCursor"@ != "ConsumerTooSlow"@) by {
        reveal_strlit("FutureCursor");
        reveal_strlit("ConsumerTooSlow");
        assert("FutureCursor"@.len() != "ConsumerTooSlow"@.len());
    }
}

/// Every fatal condition is yielded once, as the last item: an error is
/// never followed by another item, and the session that yielded it is
/// terminated.
pub proof fn lemma_error_is_last<Data>(events: Seq<Event<Data>>, i: int)
    requires
        0 <= i < run(State::Running, events).1.len(),
        run(State::Running, events).1[i] is Err,
    ensures
        i == run(State::Running, events).1.len() - 1,
        run(State::Running, events).0 == State::Terminated,
    decreases events.len(),
{
    if events.len() > 0 {
        let (before, yielded) = run(State::Running, events.drop_last());
        let (after, item) = step(before, events.last());
        if i < yielded.len() {
            lemma_error_is_last(events.drop_last(), i);
        }
    }
}

} // verus!
