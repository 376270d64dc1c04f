//! What a subscription yields, and the capability that handles its payloads.

use vstd::prelude::*;

pub mod repositories;

verus! {

/// A processed payload: the sequence number of the event, which a consumer
/// keeps as its cursor, and what the handler made of the event.
#[derive(Debug, Clone, PartialEq, Eq)]
pub struct ProcessedPayload<Kind> {
    pub seq: i64,
    pub data: Kind,
}

impl<Kind> ProcessedPayload<Kind> {
    /// Converts the data and keeps the sequence number.
    pub fn map<NewKind, F: FnOnce(Kind) -> NewKind>(self, f: F) -> (mapped: ProcessedPayload<
        NewKind,
    >)
        requires
            call_requires(f, (self.data,)),
        ensures
            mapped.seq == self.seq,
            call_ensures(f, (self.data,), mapped.data),
    {
        ProcessedPayload { seq: self.seq, data: f(self.data) }
    }
}

/// How a session ends when it does not end with the transport. Each of them
/// is final: nothing follows it.
#[derive(Debug, Clone, PartialEq, Eq)]
pub enum SubscriptionError<E> {
    /// The connection has to be dropped: the transport failed, a message broke
    /// the framing or the encoding, or the handler failed.
    Abort(String),
    /// An error that the server reported and the subscription knows.
    Other(E),
    /// An error that the server reported under a code that the subscription
    /// does not know.
    Unknown(String),
}

/// A [`SubscriptionError`] as contracts speak of it.
pub enum SubscriptionErrorView<E> {
    Abort(Seq<char>),
    Other(E),
    Unknown(Seq<char>),
}

impl<E> View for SubscriptionError<E> {
    type V = SubscriptionErrorView<E>;

    open spec fn view(&self) -> SubscriptionErrorView<E> {
        match self {
            SubscriptionError::Abort(reason) => SubscriptionErrorView::Abort(reason@),
            SubscriptionError::Other(e) => SubscriptionErrorView::Other(*e),
            SubscriptionError::Unknown(description) => SubscriptionErrorView::Unknown(
                description@,
            ),
        }
    }
}

/// The capability that a subscription hands each message payload to.
pub trait ConnectionHandler {
    /// What the handler makes of a payload.
    type HandledData;

    /// Why the handler could not handle a payload.
    type HandlingError;

    /// What the handler may return for a payload under a type tag. An
    /// implementation states it of itself; a subscription assumes nothing of
    /// it.
    open spec fn handles(
        &self,
        t: Seq<char>,
        payload: Seq<u8>,
        result: Result<Option<ProcessedPayload<Self::HandledData>>, Self::HandlingError>,
    ) -> bool {
        true
    }

    /// Handles the body of one message frame under its type tag: `Ok(Some(_))`
    /// with the processed payload, `Ok(None)` where the payload is ignored,
    /// `Err(_)` where it cannot be handled, which ends the session.
    fn handle_payload(&self, t: String, payload: Vec<u8>) -> (result: Result<
        Option<ProcessedPayload<Self::HandledData>>,
        Self::HandlingError,
    >)
        ensures
            self.handles(t@, payload@, result),
    ;
}

/// One item of the inbound transport sequence.
#[derive(Debug, Clone, PartialEq, Eq)]
pub enum Inbound {
    /// A binary message, which holds one frame.
    Binary(Vec<u8>),
    /// A message of any other kind.
    Other,
    /// The transport reported an error.
    TransportError,
    /// The transport has ended.
    End,
}

/// An [`Inbound`] item as contracts speak of it.
pub enum InboundView {
    Binary(Seq<u8>),
    Other,
    TransportError,
    End,
}

impl View for Inbound {
    type V = InboundView;

    open spec fn view(&self) -> InboundView {
        match self {
            Inbound::Binary(bytes) => InboundView::Binary(bytes@),
            Inbound::Other => InboundView::Other,
            Inbound::TransportError => InboundView::TransportError,
            Inbound::End => InboundView::End,
        }
    }
}

} // verus!
