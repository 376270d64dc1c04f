use std::collections::BTreeMap;

use firehose_client::frames::{ErrorFrame, Frame, FrameDecodeError, MessageFrame};
use firehose_client::subscriptions::repositories::handler::{Handler, HandlingError, ProcessedData};
use firehose_client::subscriptions::repositories::payloads::{Identity, Info};
use firehose_client::subscriptions::repositories::{replay, Error, Received, Repositories};
use firehose_client::subscriptions::{
    ConnectionHandler, Inbound, ProcessedPayload, SubscriptionError,
};
use ipld_core::ipld::Ipld;

fn encode(fields: Vec<(&str, Ipld)>) -> Vec<u8> {
    let mut map = BTreeMap::new();
    for (key, value) in fields {
        map.insert(key.to_string(), value);
    }
    serde_ipld_dagcbor::to_vec(&Ipld::Map(map)).unwrap()
}

fn text(s: &str) -> Ipld {
    Ipld::String(s.to_string())
}

fn message(t: &str, body: Vec<(&str, Ipld)>) -> Inbound {
    let mut bytes = encode(vec![("op", Ipld::Integer(1)), ("t", text(t))]);
    bytes.extend(encode(body));
    Inbound::Binary(bytes)
}

fn info(name: &str, message_text: &str) -> Inbound {
    message("#info", vec![("name", text(name)), ("message", text(message_text))])
}

fn identity(seq: i64) -> Inbound {
    message(
        "#identity",
        vec![
            ("seq", Ipld::Integer(seq as i128)),
            ("did", text("did:plc:ewvi7nxzyoun6zhxrhs64oiz")),
            ("time", text("2024-11-05T12:00:00.000Z")),
        ],
    )
}

fn error_frame(code: &str, message_text: Option<&str>) -> Inbound {
    let mut fields = vec![("op", Ipld::Integer(-1)), ("error", text(code))];
    if let Some(m) = message_text {
        fields.push(("message", text(m)));
    }
    Inbound::Binary(encode(fields))
}

/// Passes every notice on under the sequence number 7, and every identity
/// event whose sequence number is even; fails on an identity event with a
/// negative one.
struct Relay;

impl Handler for Relay {
    type ProcessedCommitData = ();
    type ProcessedIdentityData = Identity;
    type ProcessedAccountData = ();
    type ProcessedHandleData = ();
    type ProcessedMigrateData = ();
    type ProcessedTombstoneData = ();
    type ProcessedInfoData = Info;
    type HandlingError = String;

    fn process_identity(
        &self,
        payload: Identity,
    ) -> Result<Option<ProcessedPayload<Identity>>, String> {
        if payload.seq < 0 {
            Err("negative sequence number".to_string())
        } else if payload.seq % 2 == 0 {
            Ok(Some(ProcessedPayload { seq: payload.seq, data: payload }))
        } else {
            Ok(None)
        }
    }

    fn process_info(&self, payload: Info) -> Result<Option<ProcessedPayload<Info>>, String> {
        Ok(Some(ProcessedPayload { seq: 7, data: payload }))
    }
}

type Yielded = Result<
    ProcessedPayload<ProcessedData<(), Identity, (), (), (), (), Info>>,
    SubscriptionError<Error>,
>;

fn yielded_info(name: &str, message_text: &str) -> Yielded {
    Ok(ProcessedPayload {
        seq: 7,
        data: ProcessedData::Info(Info {
            name: name.to_string(),
            message: Some(message_text.to_string()),
        }),
    })
}

fn abort(reason: &str) -> Yielded {
    Err(SubscriptionError::Abort(reason.to_string()))
}

#[test]
fn info_then_consumer_too_slow() {
    let items = vec![info("relay1", "hi"), error_frame("ConsumerTooSlow", None)];
    let expected: Vec<Yielded> =
        vec![yielded_info("relay1", "hi"), Err(SubscriptionError::Other(Error::ConsumerTooSlow))];
    assert_eq!(replay(items, &Relay), expected);
}

#[test]
fn unknown_frame_type_mid_stream_is_skipped() {
    let unknown = Inbound::Binary(encode(vec![("op", Ipld::Integer(2))]));
    let items = vec![info("a", "first"), unknown, info("b", "second")];
    let expected: Vec<Yielded> = vec![yielded_info("a", "first"), yielded_info("b", "second")];
    assert_eq!(replay(items, &Relay), expected);
}

#[test]
fn future_cursor_is_the_only_and_last_item() {
    let items = vec![
        error_frame("FutureCursor", None),
        info("relay1", "never read"),
        error_frame("ConsumerTooSlow", None),
    ];
    let expected: Vec<Yielded> = vec![Err(SubscriptionError::Other(Error::FutureCursor))];
    assert_eq!(replay(items, &Relay), expected);
}

#[test]
fn ignored_identity_leaves_nothing_behind() {
    let items = vec![identity(3), info("relay1", "after")];
    let expected: Vec<Yielded> = vec![yielded_info("relay1", "after")];
    assert_eq!(replay(items, &Relay), expected);
}

#[test]
fn processed_payloads_come_in_arrival_order() {
    let items = vec![identity(2), info("x", "y"), identity(5), identity(8)];
    let out = replay(items, &Relay);
    let seqs: Vec<i64> = out.iter().map(|r| r.as_ref().unwrap().seq).collect();
    assert_eq!(seqs, vec![2, 7, 8]);
    assert!(matches!(out[0].as_ref().unwrap().data, ProcessedData::Identity(_)));
    assert!(matches!(out[1].as_ref().unwrap().data, ProcessedData::Info(_)));
}

#[test]
fn end_of_stream_ends_without_an_error() {
    let items = vec![info("a", "b"), Inbound::End, info("c", "d")];
    let expected: Vec<Yielded> = vec![yielded_info("a", "b")];
    assert_eq!(replay(items, &Relay), expected);
    let nothing: Vec<Yielded> = vec![];
    assert_eq!(replay(vec![], &Relay), nothing);
}

#[test]
fn transport_error_aborts() {
    let items = vec![Inbound::TransportError, info("a", "b")];
    assert_eq!(replay(items, &Relay), vec![abort("Received invalid payload")]);
}

#[test]
fn other_messages_are_ignored() {
    let items = vec![Inbound::Other, info("a", "b"), Inbound::Other];
    let expected: Vec<Yielded> = vec![yielded_info("a", "b")];
    assert_eq!(replay(items, &Relay), expected);
}

#[test]
fn empty_payload_aborts() {
    let header_only = Inbound::Binary(encode(vec![("op", Ipld::Integer(1)), ("t", text("#info"))]));
    let items = vec![info("a", "b"), header_only, info("c", "d")];
    assert_eq!(
        replay(items, &Relay),
        vec![yielded_info("a", "b"), abort("Received empty payload")]
    );
}

#[test]
fn malformed_encoding_aborts() {
    let items = vec![Inbound::Binary(vec![0xff, 0x00]), info("c", "d")];
    assert_eq!(replay(items, &Relay), vec![abort("Received frame was invalid")]);
}

#[test]
fn handler_failure_aborts() {
    let items = vec![identity(-1), info("c", "d")];
    assert_eq!(replay(items, &Relay), vec![abort("Received invalid payload")]);
}

#[test]
fn malformed_payload_of_a_known_kind_aborts() {
    let items = vec![message("#info", vec![("message", text("no name"))]), info("c", "d")];
    assert_eq!(replay(items, &Relay), vec![abort("Received invalid payload")]);
}

#[test]
fn unknown_type_tag_is_ignored() {
    let items = vec![message("#sync", vec![("seq", Ipld::Integer(1))]), info("c", "d")];
    let expected: Vec<Yielded> = vec![yielded_info("c", "d")];
    assert_eq!(replay(items, &Relay), expected);
}

#[test]
fn message_without_type_tag_is_ignored() {
    let mut bytes = encode(vec![("op", Ipld::Integer(1))]);
    bytes.extend(encode(vec![("name", text("n"))]));
    let items = vec![Inbound::Binary(bytes), info("c", "d")];
    let expected: Vec<Yielded> = vec![yielded_info("c", "d")];
    assert_eq!(replay(items, &Relay), expected);
}

#[test]
fn unknown_error_code_is_described() {
    let items = vec![error_frame("Weird", Some("a \"quoted\"\ttext")), info("c", "d")];
    let expected: Vec<Yielded> = vec![Err(SubscriptionError::Unknown(
        "Unknown Error Frame. Error: Weird. Message: Some(\"a \\\"quoted\\\"\\ttext\")".to_string(),
    ))];
    assert_eq!(replay(items, &Relay), expected);
    let items = vec![error_frame("Weird", None)];
    let expected: Vec<Yielded> = vec![Err(SubscriptionError::Unknown(
        "Unknown Error Frame. Error: Weird. Message: None".to_string(),
    ))];
    assert_eq!(replay(items, &Relay), expected);
}

#[test]
fn known_error_codes_ignore_the_message() {
    let items = vec![error_frame("FutureCursor", Some("Cursor in the future."))];
    let expected: Vec<Yielded> = vec![Err(SubscriptionError::Other(Error::FutureCursor))];
    assert_eq!(replay(items, &Relay), expected);
}

#[test]
fn error_codes_are_case_sensitive() {
    let items = vec![error_frame("futurecursor", None)];
    let expected: Vec<Yielded> = vec![Err(SubscriptionError::Unknown(
        "Unknown Error Frame. Error: futurecursor. Message: None".to_string(),
    ))];
    assert_eq!(replay(items, &Relay), expected);
}

#[test]
fn receive_decides_step_by_step() {
    let mut session = Repositories::new();
    assert!(!session.is_terminated());
    assert_eq!(session.receive(Inbound::Other), Received::Skip);
    assert!(!session.is_terminated());
    let body = encode(vec![("name", text("n"))]);
    assert_eq!(session.receive(info_item("n")), Received::Dispatch("#info".to_string(), body));
    assert!(!session.is_terminated());
    assert_eq!(
        session.receive(Inbound::TransportError),
        Received::Fail(SubscriptionError::Abort("Received invalid payload".to_string()))
    );
    assert!(session.is_terminated());
    assert_eq!(session.receive(Inbound::Other), Received::End);
    assert_eq!(session.receive(info_item("n")), Received::End);
    assert!(session.is_terminated());
}

fn info_item(name: &str) -> Inbound {
    message("#info", vec![("name", text(name))])
}

#[test]
fn receive_end_terminates() {
    let mut session = Repositories::new();
    assert_eq!(session.receive(Inbound::End), Received::End);
    assert!(session.is_terminated());
}

#[test]
fn on_frame_follows_the_frame() {
    let mut session = Repositories::new();
    assert_eq!(
        session.on_frame(Ok(Frame::Message(
            Some("#commit".to_string()),
            MessageFrame { body: vec![1, 2] }
        ))),
        Received::Dispatch("#commit".to_string(), vec![1, 2])
    );
    assert_eq!(
        session.on_frame(Ok(Frame::Message(None, MessageFrame { body: vec![1] }))),
        Received::Skip
    );
    assert_eq!(session.on_frame(Err(FrameDecodeError::UnknownFrameType)), Received::Skip);
    assert!(!session.is_terminated());
    assert_eq!(
        session.on_frame(Ok(Frame::Error(ErrorFrame {
            code: "ConsumerTooSlow".to_string(),
            message: None
        }))),
        Received::Fail(SubscriptionError::Other(Error::ConsumerTooSlow))
    );
    assert!(session.is_terminated());
    assert_eq!(session.on_frame(Err(FrameDecodeError::UnknownFrameType)), Received::End);

    let mut session = Repositories::new();
    assert_eq!(
        session.on_frame(Err(FrameDecodeError::EmptyPayload)),
        Received::Fail(SubscriptionError::Abort("Received empty payload".to_string()))
    );
    assert!(session.is_terminated());

    let mut session = Repositories::new();
    assert_eq!(
        session.on_frame(Err(FrameDecodeError::MalformedEncoding)),
        Received::Fail(SubscriptionError::Abort("Received frame was invalid".to_string()))
    );
    assert!(session.is_terminated());
}

#[test]
fn handled_follows_the_handler() {
    let mut session = Repositories::new();
    let processed: Result<Option<ProcessedPayload<u8>>, String> =
        Ok(Some(ProcessedPayload { seq: 11, data: 5 }));
    assert_eq!(session.handled(processed), Some(Ok(ProcessedPayload { seq: 11, data: 5 })));
    assert!(!session.is_terminated());
    let ignored: Result<Option<ProcessedPayload<u8>>, String> = Ok(None);
    assert_eq!(session.handled(ignored), None);
    assert!(!session.is_terminated());
    let failed: Result<Option<ProcessedPayload<u8>>, String> = Err("broken".to_string());
    assert_eq!(
        session.handled(failed),
        Some(Err(SubscriptionError::Abort("Received invalid payload".to_string())))
    );
    assert!(session.is_terminated());
    let late: Result<Option<ProcessedPayload<u8>>, String> =
        Ok(Some(ProcessedPayload { seq: 12, data: 6 }));
    assert_eq!(session.handled(late), None);
    assert!(session.is_terminated());
}

/// Handles payloads on its own, without the seven kinds.
struct Lengths;

impl ConnectionHandler for Lengths {
    type HandledData = usize;
    type HandlingError = ();

    fn handle_payload(
        &self,
        t: String,
        payload: Vec<u8>,
    ) -> Result<Option<ProcessedPayload<usize>>, ()> {
        if t == "#stop" {
            Err(())
        } else if payload.len() > 4 {
            Ok(None)
        } else {
            Ok(Some(ProcessedPayload { seq: t.len() as i64, data: payload.len() }))
        }
    }
}

#[test]
fn replay_hands_tag_and_body_to_any_connection_handler() {
    let frame = |t: &str, body: Vec<u8>| {
        let mut bytes = encode(vec![("op", Ipld::Integer(1)), ("t", text(t))]);
        bytes.extend(body);
        Inbound::Binary(bytes)
    };
    let items = vec![
        frame("#a", vec![1, 2, 3]),
        frame("#long", vec![0; 9]),
        frame("#bc", vec![9]),
        frame("#stop", vec![1]),
        frame("#d", vec![1]),
    ];
    assert_eq!(
        replay(items, &Lengths),
        vec![
            Ok(ProcessedPayload { seq: 2, data: 3 }),
            Ok(ProcessedPayload { seq: 3, data: 1 }),
            Err(SubscriptionError::Abort("Received invalid payload".to_string())),
        ]
    );
}

#[test]
fn dispatch_reports_the_handler_error_as_it_is() {
    let Inbound::Binary(bytes) = identity(-1) else { unreachable!() };
    let Ok(Frame::Message(Some(t), MessageFrame { body })) = Frame::try_from(bytes) else {
        unreachable!()
    };
    assert_eq!(
        Relay.handle_payload(t, body),
        Err(HandlingError::Handler("negative sequence number".to_string()))
    );
}
