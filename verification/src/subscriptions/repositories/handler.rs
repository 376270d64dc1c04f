//! The handler of the repositories subscription: one overridable function
//! for each event kind, and the dispatch of a payload to the one that its type
//! tag names.

use vstd::prelude::*;
use crate::frames::{FrameDecodeError, FrameView, frame_of};
use crate::subscriptions::{ConnectionHandler, InboundView, ProcessedPayload, SubscriptionErrorView};
use crate::subscriptions::repositories::{Error, Outcome, State, answered, handled_as};
use crate::subscriptions::repositories::trace::{Event, Yielded, step};
use crate::subscriptions::repositories::payloads::{
    Account, Commit, EventKind, Handle, Identity, Info, Migrate, Payload, Tombstone, kind_of,
    payload_of,
};

verus! {

/// The processed data of one event, by the event's kind.
#[derive(Debug, Clone, PartialEq, Eq)]
pub enum ProcessedData<C, I0, A, H, M, T, I1> {
    Commit(C),
    Identity(I0),
    Account(A),
    Handle(H),
    Migrate(M),
    Tombstone(T),
    Info(I1),
}

impl<C, I0, A, H, M, T, I1> ProcessedData<C, I0, A, H, M, T, I1> {
    pub open spec fn kind(self) -> EventKind {
        match self {
            ProcessedData::Commit(_) => EventKind::Commit,
            ProcessedData::Identity(_) => EventKind::Identity,
            ProcessedData::Account(_) => EventKind::Account,
            ProcessedData::Handle(_) => EventKind::Handle,
            ProcessedData::Migrate(_) => EventKind::Migrate,
            ProcessedData::Tombstone(_) => EventKind::Tombstone,
            ProcessedData::Info(_) => EventKind::Info,
        }
    }
}

/// What a [`Handler`] makes of a payload, whatever its kind.
pub type HandledData<H> = ProcessedData<
    <H as Handler>::ProcessedCommitData,
    <H as Handler>::ProcessedIdentityData,
    <H as Handler>::ProcessedAccountData,
    <H as Handler>::ProcessedHandleData,
    <H as Handler>::ProcessedMigrateData,
    <H as Handler>::ProcessedTombstoneData,
    <H as Handler>::ProcessedInfoData,
>;

/// A handler of the repositories subscription. Each function processes the
/// payloads of one kind and decides what becomes of them; one that is not
/// overridden ignores its payloads.
pub trait Handler {
    type ProcessedCommitData;

    type ProcessedIdentityData;

    type ProcessedAccountData;

    type ProcessedHandleData;

    type ProcessedMigrateData;

    type ProcessedTombstoneData;

    type ProcessedInfoData;

    /// Why a payload that decoded could not be processed.
    type HandlingError;

    /// Processes a payload of type `#commit`. Unless it is overridden, it
    /// ignores the payload.
    fn process_commit(&self, payload: Commit) -> (result: Result<
        Option<ProcessedPayload<Self::ProcessedCommitData>>,
        Self::HandlingError,
    >)
        default_ensures
            result matches Ok(None),
    {
        Ok(None)
    }

    /// Processes a payload of type `#identity`. Unless it is overridden, it
    /// ignores the payload.
    fn process_identity(&self, payload: Identity) -> (result: Result<
        Option<ProcessedPayload<Self::ProcessedIdentityData>>,
        Self::HandlingError,
    >)
        default_ensures
            result matches Ok(None),
    {
        Ok(None)
    }

    /// Processes a payload of type `#account`. Unless it is overridden, it
    /// ignores the payload.
    fn process_account(&self, payload: Account) -> (result: Result<
        Option<ProcessedPayload<Self::ProcessedAccountData>>,
        Self::HandlingError,
    >)
        default_ensures
            result matches Ok(None),
    {
        Ok(None)
    }

    /// Processes a payload of type `#handle`. Unless it is overridden, it
    /// ignores the payload.
    fn process_handle(&self, payload: Handle) -> (result: Result<
        Option<ProcessedPayload<Self::ProcessedHandleData>>,
        Self::HandlingError,
    >)
        default_ensures
            result matches Ok(None),
    {
        Ok(None)
    }

    /// Processes a payload of type `#migrate`. Unless it is overridden, it
    /// ignores the payload.
    fn process_migrate(&self, payload: Migrate) -> (result: Result<
        Option<ProcessedPayload<Self::ProcessedMigrateData>>,
        Self::HandlingError,
    >)
        default_ensures
            result matches Ok(None),
    {
        Ok(None)
    }

    /// Processes a payload of type `#tombstone`. Unless it is overridden, it
    /// ignores the payload.
    fn process_tombstone(&self, payload: Tombstone) -> (result: Result<
        Option<ProcessedPayload<Self::ProcessedTombstoneData>>,
        Self::HandlingError,
    >)
        default_ensures
            result matches Ok(None),
    {
        Ok(None)
    }

    /// Processes a payload of type `#info`. Unless it is overridden, it
    /// ignores the payload.
    fn process_info(&self, payload: Info) -> (result: Result<
        Option<ProcessedPayload<Self::ProcessedInfoData>>,
        Self::HandlingError,
    >)
        default_ensures
            result matches Ok(None),
    {
        Ok(None)
    }
}

/// Why a payload could not be handled.
#[derive(Debug, Clone, PartialEq, Eq)]
pub enum HandlingError<E> {
    /// The type tag names a known kind, and the body does not decode as a
    /// payload of that kind.
    MalformedPayload(EventKind),
    /// The payload decoded, and the handler failed on it.
    Handler(E),
}

/// Turns what a handler's function returned into what dispatch returns: the
/// processed data goes under its kind's variant and keeps its sequence
/// number, an ignored payload stays ignored, and the handler's error is
/// passed on.
pub fn lift<A, B, E, F: FnOnce(A) -> B>(
    result: Result<Option<ProcessedPayload<A>>, E>,
    wrap: F,
) -> (lifted: Result<Option<ProcessedPayload<B>>, HandlingError<E>>)
    requires
        forall|data: A| call_requires(wrap, (data,)),
    ensures
        match result {
            Ok(Some(payload)) => lifted matches Ok(Some(wrapped)) && wrapped.seq == payload.seq
                && call_ensures(wrap, (payload.data,), wrapped.data),
            Ok(None) => lifted == Ok::<Option<ProcessedPayload<B>>, HandlingError<E>>(None),
            Err(e) => lifted == Err::<Option<ProcessedPayload<B>>, HandlingError<E>>(
                HandlingError::Handler(e),
            ),
        },
{
    match result {
        Ok(Some(payload)) => Ok(Some(payload.map(wrap))),
        Ok(None) => Ok(None),
        Err(e) => Err(HandlingError::Handler(e)),
    }
}

fn under_commit<C, I0, A, H, M, T, I1>(data: C) -> (wrapped: ProcessedData<
    C,
    I0,
    A,
    H,
    M,
    T,
    I1,
>)
    ensures
        wrapped == ProcessedData::<C, I0, A, H, M, T, I1>::Commit(data),
{
    ProcessedData::Commit(data)
}

fn under_identity<C, I0, A, H, M, T, I1>(data: I0) -> (wrapped: ProcessedData<
    C,
    I0,
    A,
    H,
    M,
    T,
    I1,
>)
    ensures
        wrapped == ProcessedData::<C, I0, A, H, M, T, I1>::Identity(data),
{
    ProcessedData::Identity(data)
}

fn under_account<C, I0, A, H, M, T, I1>(data: A) -> (wrapped: ProcessedData<
    C,
    I0,
    A,
    H,
    M,
    T,
    I1,
>)
    ensures
        wrapped == ProcessedData::<C, I0, A, H, M, T, I1>::Account(data),
{
    ProcessedData::Account(data)
}

fn under_handle<C, I0, A, H, M, T, I1>(data: H) -> (wrapped: ProcessedData<
    C,
    I0,
    A,
    H,
    M,
    T,
    I1,
>)
    ensures
        wrapped == ProcessedData::<C, I0, A, H, M, T, I1>::Handle(data),
{
    ProcessedData::Handle(data)
}

fn under_migrate<C, I0, A, H, M, T, I1>(data: M) -> (wrapped: ProcessedData<
    C,
    I0,
    A,
    H,
    M,
    T,
    I1,
>)
    ensures
        wrapped == ProcessedData::<C, I0, A, H, M, T, I1>::Migrate(data),
{
    ProcessedData::Migrate(data)
}

fn under_tombstone<C, I0, A, H, M, T, I1>(data: T) -> (wrapped: ProcessedData<
    C,
    I0,
    A,
    H,
    M,
    T,
    I1,
>)
    ensures
        wrapped == ProcessedData::<C, I0, A, H, M, T, I1>::Tombstone(data),
{
    ProcessedData::Tombstone(data)
}

fn under_info<C, I0, A, H, M, T, I1>(data: I1) -> (wrapped: ProcessedData<
    C,
    I0,
    A,
    H,
    M,
    T,
    I1,
>)
    ensures
        wrapped == ProcessedData::<C, I0, A, H, M, T, I1>::Info(data),
{
    ProcessedData::Info(data)
}

/// What dispatch returns: the processed data of some kind, or why the payload
/// could not be handled.
pub type Dispatched<C, I0, A, H, M, T, I1, E> = Result<
    Option<ProcessedPayload<ProcessedData<C, I0, A, H, M, T, I1>>>,
    HandlingError<E>,
>;

/// What holds of what a handler makes of a payload, whatever the handler
/// does: it may ignore the payload, fail, or return processed data, which
/// comes back under the variant of the payload's kind.
pub open spec fn routed<C, I0, A, H, M, T, I1, E>(
    kind: EventKind,
    result: Dispatched<C, I0, A, H, M, T, I1, E>,
) -> bool {
    match result {
        Ok(Some(processed)) => processed.data.kind() == kind,
        Ok(None) => true,
        Err(e) => e is Handler,
    }
}

/// What dispatch makes of what a handler's function returned: the processed
/// data under `wrap` with its sequence number, `Ok(None)` for an ignored
/// payload, the handler's error as it is.
pub open spec fn lifted<A, B, E>(
    returned: Result<Option<ProcessedPayload<A>>, E>,
    wrap: spec_fn(A) -> B,
) -> Result<Option<ProcessedPayload<B>>, HandlingError<E>> {
    match returned {
        Ok(Some(payload)) => Ok(
            Some(ProcessedPayload { seq: payload.seq, data: wrap(payload.data) }),
        ),
        Ok(None) => Ok(None),
        Err(e) => Err(HandlingError::Handler(e)),
    }
}

/// Whether `result` is what routing makes of `payload`: the function of
/// `handler` for the payload's kind is given the payload, and `result` is
/// what that function returned, lifted under the kind's variant.
pub open spec fn routed_to<H: Handler>(
    handler: &H,
    payload: Payload,
    result: Result<Option<ProcessedPayload<HandledData<H>>>, HandlingError<H::HandlingError>>,
) -> bool {
    match payload {
        Payload::Commit(payload) => exists|
            returned: Result<Option<ProcessedPayload<H::ProcessedCommitData>>, H::HandlingError>,
        |
            #[trigger] call_ensures(H::process_commit, (handler, payload), returned) && result
                == lifted::<_, HandledData<H>, _>(
                returned,
                |data: H::ProcessedCommitData| ProcessedData::Commit(data),
            ),
        Payload::Identity(payload) => exists|
            returned: Result<Option<ProcessedPayload<H::ProcessedIdentityData>>, H::HandlingError>,
        |
            #[trigger] call_ensures(H::process_identity, (handler, payload), returned) && result
                == lifted::<_, HandledData<H>, _>(
                returned,
                |data: H::ProcessedIdentityData| ProcessedData::Identity(data),
            ),
        Payload::Account(payload) => exists|
            returned: Result<Option<ProcessedPayload<H::ProcessedAccountData>>, H::HandlingError>,
        |
            #[trigger] call_ensures(H::process_account, (handler, payload), returned) && result
                == lifted::<_, HandledData<H>, _>(
                returned,
                |data: H::ProcessedAccountData| ProcessedData::Account(data),
            ),
        Payload::Handle(payload) => exists|
            returned: Result<Option<ProcessedPayload<H::ProcessedHandleData>>, H::HandlingError>,
        |
            #[trigger] call_ensures(H::process_handle, (handler, payload), returned) && result
                == lifted::<_, HandledData<H>, _>(
                returned,
                |data: H::ProcessedHandleData| ProcessedData::Handle(data),
            ),
        Payload::Migrate(payload) => exists|
            returned: Result<Option<ProcessedPayload<H::ProcessedMigrateData>>, H::HandlingError>,
        |
            #[trigger] call_ensures(H::process_migrate, (handler, payload), returned) && result
                == lifted::<_, HandledData<H>, _>(
                returned,
                |data: H::ProcessedMigrateData| ProcessedData::Migrate(data),
            ),
        Payload::Tombstone(payload) => exists|
            returned: Result<Option<ProcessedPayload<H::ProcessedTombstoneData>>, H::HandlingError>,
        |
            #[trigger] call_ensures(H::process_tombstone, (handler, payload), returned) && result
                == lifted::<_, HandledData<H>, _>(
                returned,
                |data: H::ProcessedTombstoneData| ProcessedData::Tombstone(data),
            ),
        Payload::Info(payload) => exists|
            returned: Result<Option<ProcessedPayload<H::ProcessedInfoData>>, H::HandlingError>,
        |
            #[trigger] call_ensures(H::process_info, (handler, payload), returned) && result
                == lifted::<_, HandledData<H>, _>(
                returned,
                |data: H::ProcessedInfoData| ProcessedData::Info(data),
            ),
    }
}

/// Hands a payload to the function of `handler` for the payload's kind, and
/// lifts what the function returns.
pub fn route<H: Handler>(handler: &H, payload: Payload) -> (result: Result<
    Option<ProcessedPayload<HandledData<H>>>,
    HandlingError<H::HandlingError>,
>)
    ensures
        routed_to(handler, payload, result),
        routed(payload@.kind(), result),
{
    match payload {
        Payload::Commit(payload) => {
            let returned = handler.process_commit(payload);
            let ghost seen = returned;
            let result = lift(returned, under_commit);
            assert(result == lifted::<_, HandledData<H>, _>(
                seen,
                |data: H::ProcessedCommitData| ProcessedData::Commit(data),
            ));
            result
        },
        Payload::Identity(payload) => {
            let returned = handler.process_identity(payload);
            let ghost seen = returned;
            let result = lift(returned, under_identity);
            assert(result == lifted::<_, HandledData<H>, _>(
                seen,
                |data: H::ProcessedIdentityData| ProcessedData::Identity(data),
            ));
            result
        },
        Payload::Account(payload) => {
            let returned = handler.process_account(payload);
            let ghost seen = returned;
            let result = lift(returned, under_account);
            assert(result == lifted::<_, HandledData<H>, _>(
                seen,
                |data: H::ProcessedAccountData| ProcessedData::Account(data),
            ));
            result
        },
        Payload::Handle(payload) => {
            let returned = handler.process_handle(payload);
            let ghost seen = returned;
            let result = lift(returned, under_handle);
            assert(result == lifted::<_, HandledData<H>, _>(
                seen,
                |data: H::ProcessedHandleData| ProcessedData::Handle(data),
            ));
            result
        },
        Payload::Migrate(payload) => {
            let returned = handler.process_migrate(payload);
            let ghost seen = returned;
            let result = lift(returned, under_migrate);
            assert(result == lifted::<_, HandledData<H>, _>(
                seen,
                |data: H::ProcessedMigrateData| ProcessedData::Migrate(data),
            ));
            result
        },
        Payload::Tombstone(payload) => {
            let returned = handler.process_tombstone(payload);
            let ghost seen = returned;
            let result = lift(returned, under_tombstone);
            assert(result == lifted::<_, HandledData<H>, _>(
                seen,
                |data: H::ProcessedTombstoneData| ProcessedData::Tombstone(data),
            ));
            result
        },
        Payload::Info(payload) => {
            let returned = handler.process_info(payload);
            let ghost seen = returned;
            let result = lift(returned, under_info);
            assert(result == lifted::<_, HandledData<H>, _>(
                seen,
                |data: H::ProcessedInfoData| ProcessedData::Info(data),
            ));
            result
        },
    }
}

/// What holds of dispatch for a body under a type tag. Under an unknown tag
/// the body is ignored. Under a known tag, a body that does not decode as a
/// payload of the tag's kind is malformed; one that decodes goes to the
/// handler, which decides.
pub open spec fn dispatched<C, I0, A, H, M, T, I1, E>(
    t: Seq<char>,
    body: Seq<u8>,
    result: Dispatched<C, I0, A, H, M, T, I1, E>,
) -> bool {
    match kind_of(t) {
        None => result is Ok && result->Ok_0 is None,
        Some(kind) => if payload_of(kind, body) is Some {
            routed(kind, result)
        } else {
            result == Err::<Option<ProcessedPayload<ProcessedData<C, I0, A, H, M, T, I1>>>, _>(
                HandlingError::<E>::MalformedPayload(kind),
            )
        },
    }
}

/// Dispatches the body of a message frame: matches the type tag against the
/// seven known tags, decodes the body as a payload of that kind, and hands the
/// payload to `handler`.
pub fn dispatch<H: Handler>(handler: &H, t: String, payload: Vec<u8>) -> (result: Result<
    Option<ProcessedPayload<HandledData<H>>>,
    HandlingError<H::HandlingError>,
>)
    ensures
        dispatched(t@, payload@, result),
{
    match EventKind::from_tag(&t) {
        Some(kind) => match Payload::decode(kind, &payload) {
            Some(decoded) => route(handler, decoded),
            None => Err(HandlingError::MalformedPayload(kind)),
        },
        None => Ok(None),
    }
}

/// Every handler of the repositories subscription handles a connection's
/// payloads, by dispatch.
impl<H: Handler> ConnectionHandler for H {
    type HandledData = HandledData<H>;

    type HandlingError = HandlingError<<H as Handler>::HandlingError>;

    open spec fn handles(
        &self,
        t: Seq<char>,
        payload: Seq<u8>,
        result: Result<
            Option<ProcessedPayload<HandledData<H>>>,
            HandlingError<<H as Handler>::HandlingError>,
        >,
    ) -> bool {
        dispatched(t, payload, result)
    }

    fn handle_payload(&self, t: String, payload: Vec<u8>) -> (result: Result<
        Option<ProcessedPayload<HandledData<H>>>,
        HandlingError<<H as Handler>::HandlingError>,
    >) {
        dispatch(self, t, payload)
    }
}

/// With a handler of the repositories subscription, a message under a type
/// tag that names none of the seven kinds yields nothing, and the session
/// goes on.
pub proof fn lemma_unknown_tag_is_ignored<H: Handler>(
    handler: &H,
    bytes: Seq<u8>,
    t: Seq<char>,
    body: Seq<u8>,
    outcome: Outcome<HandledData<H>>,
)
    requires
        frame_of(bytes) == Ok::<FrameView, FrameDecodeError>(FrameView::Message(Some(t), body)),
        kind_of(t) is None,
        answered(handler, InboundView::Binary(bytes), outcome),
    ensures
        step(State::Running, Event { item: InboundView::Binary(bytes), outcome }) == (
            State::Running,
            None::<Yielded<HandledData<H>>>,
        ),
{
    let result = choose|
        result: Result<
            Option<ProcessedPayload<HandledData<H>>>,
            HandlingError<<H as Handler>::HandlingError>,
        >,
    | #[trigger] handled_as(handler, t, body, result, outcome);
    assert(handler.handles(t, body, result));
}

/// With a handler of the repositories subscription, a message under a known
/// type tag whose body does not decode as a payload of the tag's kind ends the
/// session: the session aborts.
pub proof fn lemma_malformed_payload_aborts<H: Handler>(
    handler: &H,
    bytes: Seq<u8>,
    t: Seq<char>,
    body: Seq<u8>,
    kind: EventKind,
    outcome: Outcome<HandledData<H>>,
)
    requires
        frame_of(bytes) == Ok::<FrameView, FrameDecodeError>(FrameView::Message(Some(t), body)),
        kind_of(t) == Some(kind),
        payload_of(kind, body) is None,
        answered(handler, InboundView::Binary(bytes), outcome),
    ensures
        step(State::Running, Event { item: InboundView::Binary(bytes), outcome }) == (
            State::Terminated,
            Some(
                Err::<ProcessedPayload<HandledData<H>>, SubscriptionErrorView<Error>>(
                    SubscriptionErrorView::Abort("Received invalid payload"@),
                ),
            ),
        ),
{
    let result = choose|
        result: Result<
            Option<ProcessedPayload<HandledData<H>>>,
            HandlingError<<H as Handler>::HandlingError>,
        >,
    | #[trigger] handled_as(handler, t, body, result, outcome);
    assert(handler.handles(t, body, result));
}

} // verus!
