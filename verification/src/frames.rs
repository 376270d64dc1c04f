//! Decoding of one inbound binary message into a frame.
//!
//! A message is a DAG-CBOR header immediately followed by the body, with no
//! length prefix: the body starts where the decoding of the header stops.

use ipld_core::ipld::Ipld;
use vstd::prelude::*;

verus! {

/// `ipld_core::ipld::Ipld`, a decoded DAG-CBOR item. It is carried from the
/// decoder to the reading of its keys; nothing is known of its inside.
#[verifier::external_type_specification]
#[verifier::external_body]
pub struct ExIpld(ipld_core::ipld::Ipld);

/// What a decoded header holds under one key.
#[derive(Debug, Clone, PartialEq, Eq)]
pub enum Entry {
    /// The header is not a map, or the map has no such key.
    Absent,
    Integer(i128),
    Text(String),
    /// A value of any other kind.
    Other,
}

/// An [`Entry`] as contracts speak of it.
pub enum EntryView {
    Absent,
    Integer(int),
    Text(Seq<char>),
    Other,
}

impl View for Entry {
    type V = EntryView;

    open spec fn view(&self) -> EntryView {
        match self {
            Entry::Absent => EntryView::Absent,
            Entry::Integer(i) => EntryView::Integer(*i as int),
            Entry::Text(s) => EntryView::Text(s@),
            Entry::Other => EntryView::Other,
        }
    }
}

impl EntryView {
    /// The string under the key, where it holds one.
    pub open spec fn text(self) -> Option<Seq<char>> {
        match self {
            EntryView::Text(s) => Some(s),
            _ => None,
        }
    }
}

/// The four keys of a decoded header that framing reads.
#[derive(Debug, Clone, PartialEq, Eq)]
pub struct HeaderValue {
    pub op: Entry,
    pub t: Entry,
    pub error: Entry,
    pub message: Entry,
}

/// A [`HeaderValue`] as contracts speak of it.
pub struct HeaderView {
    pub op: EntryView,
    pub t: EntryView,
    pub error: EntryView,
    pub message: EntryView,
}

impl View for HeaderValue {
    type V = HeaderView;

    open spec fn view(&self) -> HeaderView {
        HeaderView { op: self.op@, t: self.t@, error: self.error@, message: self.message@ }
    }
}

/// Why a message is not a frame.
#[derive(Debug, Clone, Copy, PartialEq, Eq)]
pub enum FrameDecodeError {
    /// A message header with nothing after it.
    EmptyPayload,
    /// A well-encoded header that is neither a message nor an error header.
    UnknownFrameType,
    /// The bytes do not start with a DAG-CBOR item.
    MalformedEncoding,
}

/// A header, told apart by its `op`.
#[derive(Debug, Clone, PartialEq, Eq)]
pub enum FrameHeader {
    /// `op` is 1; the field is `t`, where it is a string.
    Message(Option<String>),
    /// `op` is -1; the fields are `error` and, where it is a string, `message`.
    Error(String, Option<String>),
}

/// A [`FrameHeader`] as contracts speak of it.
pub enum FrameHeaderView {
    Message(Option<Seq<char>>),
    Error(Seq<char>, Option<Seq<char>>),
}

impl View for FrameHeader {
    type V = FrameHeaderView;

    open spec fn view(&self) -> FrameHeaderView {
        match self {
            FrameHeader::Message(t) => FrameHeaderView::Message(t.deep_view()),
            FrameHeader::Error(code, message) => FrameHeaderView::Error(code@, message.deep_view()),
        }
    }
}

/// The header that a decoded value stands for.
pub open spec fn classify(value: HeaderView) -> Result<FrameHeaderView, FrameDecodeError> {
    match value.op {
        EntryView::Integer(op) => if op == 1 {
            Ok(FrameHeaderView::Message(value.t.text()))
        } else if op == -1 {
            match value.error {
                EntryView::Text(code) => Ok(FrameHeaderView::Error(code, value.message.text())),
                _ => Err(FrameDecodeError::UnknownFrameType),
            }
        } else {
            Err(FrameDecodeError::UnknownFrameType)
        },
        _ => Err(FrameDecodeError::UnknownFrameType),
    }
}

fn text_of(entry: Entry) -> (text: Option<String>)
    ensures
        text.deep_view() == entry@.text(),
{
    match entry {
        Entry::Text(s) => Some(s),
        _ => None,
    }
}

impl FrameHeader {
    /// Tells a message header from an error header. A header with another
    /// `op`, with none, or an error header without an `error` string, is of
    /// unknown type.
    pub fn try_from(value: HeaderValue) -> (header: Result<FrameHeader, FrameDecodeError>)
        ensures
            match header {
                Ok(h) => classify(value@) == Ok::<FrameHeaderView, FrameDecodeError>(h@),
                Err(e) => classify(value@) == Err::<FrameHeaderView, FrameDecodeError>(e),
            },
    {
        let HeaderValue { op, t, error, message } = value;
        if let Entry::Integer(op) = op {
            if op == 1 {
                return Ok(FrameHeader::Message(text_of(t)));
            }
            if op == -1 {
                if let Entry::Text(code) = error {
                    return Ok(FrameHeader::Error(code, text_of(message)));
                }
            }
        }
        Err(FrameDecodeError::UnknownFrameType)
    }
}

/// The body of a message frame: the bytes after the header, as they came.
#[derive(Debug, Clone, PartialEq, Eq)]
pub struct MessageFrame {
    pub body: Vec<u8>,
}

/// What an error header reports.
#[derive(Debug, Clone, PartialEq, Eq)]
pub struct ErrorFrame {
    pub code: String,
    pub message: Option<String>,
}

/// One decoded message. A message frame has a body of at least one byte.
#[derive(Debug, Clone, PartialEq, Eq)]
pub enum Frame {
    /// The type tag, where the header has one, and the body.
    Message(Option<String>, MessageFrame),
    Error(ErrorFrame),
}

/// A [`Frame`] as contracts speak of it.
pub enum FrameView {
    Message(Option<Seq<char>>, Seq<u8>),
    Error(Seq<char>, Option<Seq<char>>),
}

impl FrameView {
    /// A message frame carries a body.
    pub open spec fn wf(self) -> bool {
        self matches FrameView::Message(_, body) ==> body.len() > 0
    }
}

impl View for Frame {
    type V = FrameView;

    open spec fn view(&self) -> FrameView {
        match self {
            Frame::Message(t, frame) => FrameView::Message(t.deep_view(), frame.body@),
            Frame::Error(frame) => FrameView::Error(frame.code@, frame.message.deep_view()),
        }
    }
}

/// A decoding outcome by the frame's view.
pub open spec fn decoded_view(frame: Result<Frame, FrameDecodeError>) -> Result<
    FrameView,
    FrameDecodeError,
> {
    match frame {
        Ok(f) => Ok(f@),
        Err(e) => Err(e),
    }
}

/// The frame made of a decoded header and the bytes it was decoded from,
/// `header_len` of which are the header's.
pub open spec fn frame_from(value: HeaderView, header_len: nat, bytes: Seq<u8>) -> Result<
    FrameView,
    FrameDecodeError,
> {
    match classify(value) {
        Ok(FrameHeaderView::Message(t)) => if header_len < bytes.len() {
            Ok(FrameView::Message(t, bytes.subrange(header_len as int, bytes.len() as int)))
        } else {
            Err(FrameDecodeError::EmptyPayload)
        },
        Ok(FrameHeaderView::Error(code, message)) => Ok(FrameView::Error(code, message)),
        Err(e) => Err(e),
    }
}

/// The DAG-CBOR item at the front of `bytes`, as far as framing reads it, and
/// the number of bytes that encode it; `None` where the bytes do not start
/// with a well-formed item.
pub uninterp spec fn dagcbor_head(bytes: Seq<u8>) -> Option<(HeaderView, nat)>;

/// What a decoded item holds under `key`: `Absent` unless the item is a map
/// with that key.
pub uninterp spec fn ipld_entry(value: Ipld, key: Seq<char>) -> EntryView;

/// A decoded item as framing reads it.
pub open spec fn header_view(value: Ipld) -> HeaderView {
    HeaderView {
        op: ipld_entry(value, "op"@),
        t: ipld_entry(value, "t"@),
        error: ipld_entry(value, "error"@),
        message: ipld_entry(value, "message"@),
    }
}

/// The frame that a message decodes to.
pub open spec fn frame_of(bytes: Seq<u8>) -> Result<FrameView, FrameDecodeError> {
    match dagcbor_head(bytes) {
        Some((value, header_len)) => frame_from(value, header_len, bytes),
        None => Err(FrameDecodeError::MalformedEncoding),
    }
}

/// `serde_ipld_dagcbor::de::from_reader_once`, on a cursor over `bytes`: it
/// decodes one item from the front and leaves the cursor behind the item's
/// last byte. Returns the item with the cursor's position, or `None` where
/// the decoder fails.
#[verifier::external_body]
fn read_head(bytes: &Vec<u8>) -> (head: Option<(Ipld, usize)>)
    ensures
        match head {
            Some((value, len)) => dagcbor_head(bytes@) == Some((header_view(value), len as nat)),
            None => dagcbor_head(bytes@) is None,
        },
{
    let mut cursor = std::io::Cursor::new(bytes.as_slice());
    match serde_ipld_dagcbor::de::from_reader_once::<Ipld, _>(&mut cursor) {
        Ok(value) => Some((value, cursor.position() as usize)),
        Err(_) => None,
    }
}

/// Reads one key of a decoded item: `BTreeMap::get` on the map of an
/// `Ipld::Map`. An integer or a string is handed out as it is, any other
/// value as `Other`; no such key, or an item that is no map, is `Absent`.
#[verifier::external_body]
fn header_entry(value: &Ipld, key: &str) -> (entry: Entry)
    ensures
        entry@ == ipld_entry(*value, key@),
{
    match value {
        Ipld::Map(map) => match map.get(key) {
            Some(Ipld::Integer(i)) => Entry::Integer(*i),
            Some(Ipld::String(s)) => Entry::Text(s.clone()),
            Some(_) => Entry::Other,
            None => Entry::Absent,
        },
        _ => Entry::Absent,
    }
}

fn read_header_value(value: &Ipld) -> (header: HeaderValue)
    ensures
        header@ == header_view(*value),
{
    HeaderValue {
        op: header_entry(value, "op"),
        t: header_entry(value, "t"),
        error: header_entry(value, "error"),
        message: header_entry(value, "message"),
    }
}

impl Frame {
    /// Builds the frame from a header that was decoded from the first
    /// `header_len` bytes of `bytes`. A message header must leave at least one
    /// byte for the body; an error header has no body, and what follows it is
    /// not looked at.
    pub fn from_header(value: HeaderValue, header_len: usize, bytes: Vec<u8>) -> (frame: Result<
        Frame,
        FrameDecodeError,
    >)
        ensures
            decoded_view(frame) == frame_from(value@, header_len as nat, bytes@),
            frame matches Ok(f) ==> f@.wf(),
    {
        match FrameHeader::try_from(value) {
            Ok(FrameHeader::Message(t)) => {
                if header_len < bytes.len() {
                    let mut bytes = bytes;
                    let body = bytes.split_off(header_len);
                    Ok(Frame::Message(t, MessageFrame { body }))
                } else {
                    Err(FrameDecodeError::EmptyPayload)
                }
            },
            Ok(FrameHeader::Error(code, message)) => Ok(Frame::Error(ErrorFrame { code, message })),
            Err(e) => Err(e),
        }
    }

    /// Decodes one inbound binary message.
    pub fn try_from(bytes: Vec<u8>) -> (frame: Result<Frame, FrameDecodeError>)
        ensures
            decoded_view(frame) == frame_of(bytes@),
            frame matches Ok(f) ==> f@.wf(),
    {
        match read_head(&bytes) {
            Some((value, header_len)) => {
                let header = read_header_value(&value);
                Frame::from_header(header, header_len, bytes)
            },
            None => Err(FrameDecodeError::MalformedEncoding),
        }
    }
}

/// Splitting is exact. Where the decoder reads a header with `op` 1 and the
/// type tag `t` off the front of a message and stops behind the header's last
/// byte, the message decodes to the message frame with that tag and with
/// exactly the bytes that follow the header.
pub proof fn lemma_message_splits_behind_header(
    header: Seq<u8>,
    body: Seq<u8>,
    value: HeaderView,
    t: Seq<char>,
)
    requires
        body.len() > 0,
        dagcbor_head(header + body) == Some((value, header.len())),
        value.op == EntryView::Integer(1),
        value.t == EntryView::Text(t),
    ensures
        frame_of(header + body) == Ok::<FrameView, FrameDecodeError>(
            FrameView::Message(Some(t), body),
        ),
{
    let bytes = header + body;
    assert(bytes.subrange(header.len() as int, bytes.len() as int) =~= body);
}

/// A message header with nothing behind it is an empty payload.
pub proof fn lemma_header_alone_is_empty_payload(bytes: Seq<u8>, value: HeaderView)
    requires
        dagcbor_head(bytes) == Some((value, bytes.len())),
        value.op == EntryView::Integer(1),
    ensures
        frame_of(bytes) == Err::<FrameView, FrameDecodeError>(FrameDecodeError::EmptyPayload),
{
}

/// A header whose `op` is neither 1 nor -1 is of unknown type, whatever
/// else the header holds and whatever follows it.
pub proof fn lemma_other_op_is_unknown_frame_type(
    bytes: Seq<u8>,
    value: HeaderView,
    header_len: nat,
    op: int,
)
    requires
        dagcbor_head(bytes) == Some((value, header_len)),
        value.op == EntryView::Integer(op),
        op != 1,
        op != -1,
    ensures
        frame_of(bytes) == Err::<FrameView, FrameDecodeError>(FrameDecodeError::UnknownFrameType),
{
}

} // verus!
