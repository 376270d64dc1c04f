//! The typed payloads of the seven event kinds, and their decoding from the
//! body of a message frame.

use atrium_api::com::atproto::sync::subscribe_repos;
use vstd::prelude::*;
use vstd::string::StringExecFns;

verus! {

/// The seven event kinds of the repositories subscription.
#[derive(Debug, Clone, Copy, PartialEq, Eq)]
pub enum EventKind {
    Commit,
    Identity,
    Account,
    Handle,
    Migrate,
    Tombstone,
    Info,
}

/// The event kind that a type tag names, if it names one.
pub open spec fn kind_of(t: Seq<char>) -> Option<EventKind> {
    if t == "#commit"@ {
        Some(EventKind::Commit)
    } else if t == "#identity"@ {
        Some(EventKind::Identity)
    } else if t == "#account"@ {
        Some(EventKind::Account)
    } else if t == "#handle"@ {
        Some(EventKind::Handle)
    } else if t == "#migrate"@ {
        Some(EventKind::Migrate)
    } else if t == "#tombstone"@ {
        Some(EventKind::Tombstone)
    } else if t == "#info"@ {
        Some(EventKind::Info)
    } else {
        None
    }
}

impl EventKind {
    /// Matches a type tag against the seven known tags.
    pub fn from_tag(t: &String) -> (kind: Option<EventKind>)
        ensures
            kind == kind_of(t@),
    {
        if *t == String::from_str("#commit") {
            Some(EventKind::Commit)
        } else if *t == String::from_str("#identity") {
            Some(EventKind::Identity)
        } else if *t == String::from_str("#account") {
            Some(EventKind::Account)
        } else if *t == String::from_str("#handle") {
            Some(EventKind::Handle)
        } else if *t == String::from_str("#migrate") {
            Some(EventKind::Migrate)
        } else if *t == String::from_str("#tombstone") {
            Some(EventKind::Tombstone)
        } else if *t == String::from_str("#info") {
            Some(EventKind::Info)
        } else {
            None
        }
    }
}

/// One mutation of a single record. A content identifier is held by its
/// bytes.
#[derive(Debug, Clone, PartialEq, Eq)]
pub struct RepoOp {
    pub action: String,
    pub path: String,
    /// The new record's content identifier; none for a deletion.
    pub cid: Option<Vec<u8>>,
}

/// A [`RepoOp`] as contracts speak of it.
pub struct RepoOpView {
    pub action: Seq<char>,
    pub path: Seq<char>,
    pub cid: Option<Seq<u8>>,
}

impl View for RepoOp {
    type V = RepoOpView;

    open spec fn view(&self) -> RepoOpView {
        RepoOpView { action: self.action@, path: self.path@, cid: self.cid.deep_view() }
    }
}

/// An update of a repository's state.
#[derive(Debug, Clone, PartialEq, Eq)]
pub struct Commit {
    pub seq: i64,
    /// The commit was too large to be sent with its operations and blocks.
    pub too_big: bool,
    /// The repository that the event comes from.
    pub repo: String,
    /// The content identifier of the commit object.
    pub commit: Vec<u8>,
    pub ops: Vec<RepoOp>,
    /// The archive of the blocks that the operations refer to.
    pub blocks: Vec<u8>,
}

/// A [`Commit`] as contracts speak of it.
pub struct CommitView {
    pub seq: i64,
    pub too_big: bool,
    pub repo: Seq<char>,
    pub commit: Seq<u8>,
    pub ops: Seq<RepoOpView>,
    pub blocks: Seq<u8>,
}

impl View for Commit {
    type V = CommitView;

    open spec fn view(&self) -> CommitView {
        CommitView {
            seq: self.seq,
            too_big: self.too_big,
            repo: self.repo@,
            commit: self.commit@,
            ops: self.ops.deep_view(),
            blocks: self.blocks@,
        }
    }
}

impl DeepView for RepoOp {
    type V = RepoOpView;

    open spec fn deep_view(&self) -> RepoOpView {
        self@
    }
}

/// A change to an account's identity.
#[derive(Debug, Clone, PartialEq, Eq)]
pub struct Identity {
    pub seq: i64,
    pub did: String,
    pub handle: Option<String>,
    pub time: String,
}

/// An [`Identity`] as contracts speak of it.
pub struct IdentityView {
    pub seq: i64,
    pub did: Seq<char>,
    pub handle: Option<Seq<char>>,
    pub time: Seq<char>,
}

impl View for Identity {
    type V = IdentityView;

    open spec fn view(&self) -> IdentityView {
        IdentityView {
            seq: self.seq,
            did: self.did@,
            handle: self.handle.deep_view(),
            time: self.time@,
        }
    }
}

/// A change to an account's status on a host.
#[derive(Debug, Clone, PartialEq, Eq)]
pub struct Account {
    pub seq: i64,
    pub did: String,
    pub active: bool,
    pub status: Option<String>,
    pub time: String,
}

/// An [`Account`] as contracts speak of it.
pub struct AccountView {
    pub seq: i64,
    pub did: Seq<char>,
    pub active: bool,
    pub status: Option<Seq<char>>,
    pub time: Seq<char>,
}

impl View for Account {
    type V = AccountView;

    open spec fn view(&self) -> AccountView {
        AccountView {
            seq: self.seq,
            did: self.did@,
            active: self.active,
            status: self.status.deep_view(),
            time: self.time@,
        }
    }
}

/// A change of an account's handle.
#[derive(Debug, Clone, PartialEq, Eq)]
pub struct Handle {
    pub seq: i64,
    pub did: String,
    pub handle: String,
    pub time: String,
}

/// A [`Handle`] as contracts speak of it.
pub struct HandleView {
    pub seq: i64,
    pub did: Seq<char>,
    pub handle: Seq<char>,
    pub time: Seq<char>,
}

impl View for Handle {
    type V = HandleView;

    open spec fn view(&self) -> HandleView {
        HandleView { seq: self.seq, did: self.did@, handle: self.handle@, time: self.time@ }
    }
}

/// The move of an account to another host.
#[derive(Debug, Clone, PartialEq, Eq)]
pub struct Migrate {
    pub seq: i64,
    pub did: String,
    pub migrate_to: Option<String>,
    pub time: String,
}

/// A [`Migrate`] as contracts speak of it.
pub struct MigrateView {
    pub seq: i64,
    pub did: Seq<char>,
    pub migrate_to: Option<Seq<char>>,
    pub time: Seq<char>,
}

impl View for Migrate {
    type V = MigrateView;

    open spec fn view(&self) -> MigrateView {
        MigrateView {
            seq: self.seq,
            did: self.did@,
            migrate_to: self.migrate_to.deep_view(),
            time: self.time@,
        }
    }
}

/// The deletion of an account.
#[derive(Debug, Clone, PartialEq, Eq)]
pub struct Tombstone {
    pub seq: i64,
    pub did: String,
    pub time: String,
}

/// A [`Tombstone`] as contracts speak of it.
pub struct TombstoneView {
    pub seq: i64,
    pub did: Seq<char>,
    pub time: Seq<char>,
}

impl View for Tombstone {
    type V = TombstoneView;

    open spec fn view(&self) -> TombstoneView {
        TombstoneView { seq: self.seq, did: self.did@, time: self.time@ }
    }
}

/// A notice from the server. It has no sequence number.
#[derive(Debug, Clone, PartialEq, Eq)]
pub struct Info {
    pub name: String,
    pub message: Option<String>,
}

/// An [`Info`] as contracts speak of it.
pub struct InfoView {
    pub name: Seq<char>,
    pub message: Option<Seq<char>>,
}

impl View for Info {
    type V = InfoView;

    open spec fn view(&self) -> InfoView {
        InfoView { name: self.name@, message: self.message.deep_view() }
    }
}

/// The `#commit` payload that a body encodes, as far as the library reads
/// it; `None` where the body does not decode as one.
pub uninterp spec fn decoded_commit(body: Seq<u8>) -> Option<CommitView>;

/// The `#identity` payload that a body encodes, if it encodes one.
pub uninterp spec fn decoded_identity(body: Seq<u8>) -> Option<IdentityView>;

/// The `#account` payload that a body encodes, if it encodes one.
pub uninterp spec fn decoded_account(body: Seq<u8>) -> Option<AccountView>;

/// The `#handle` payload that a body encodes, if it encodes one.
pub uninterp spec fn decoded_handle(body: Seq<u8>) -> Option<HandleView>;

/// The `#migrate` payload that a body encodes, if it encodes one.
pub uninterp spec fn decoded_migrate(body: Seq<u8>) -> Option<MigrateView>;

/// The `#tombstone` payload that a body encodes, if it encodes one.
pub uninterp spec fn decoded_tombstone(body: Seq<u8>) -> Option<TombstoneView>;

/// The `#info` payload that a body encodes, if it encodes one.
pub uninterp spec fn decoded_info(body: Seq<u8>) -> Option<InfoView>;

/// A typed payload of one of the seven kinds.
#[derive(Debug, Clone, PartialEq, Eq)]
pub enum Payload {
    Commit(Commit),
    Identity(Identity),
    Account(Account),
    Handle(Handle),
    Migrate(Migrate),
    Tombstone(Tombstone),
    Info(Info),
}

/// A [`Payload`] as contracts speak of it.
pub enum PayloadView {
    Commit(CommitView),
    Identity(IdentityView),
    Account(AccountView),
    Handle(HandleView),
    Migrate(MigrateView),
    Tombstone(TombstoneView),
    Info(InfoView),
}

impl View for Payload {
    type V = PayloadView;

    open spec fn view(&self) -> PayloadView {
        match self {
            Payload::Commit(p) => PayloadView::Commit(p@),
            Payload::Identity(p) => PayloadView::Identity(p@),
            Payload::Account(p) => PayloadView::Account(p@),
            Payload::Handle(p) => PayloadView::Handle(p@),
            Payload::Migrate(p) => PayloadView::Migrate(p@),
            Payload::Tombstone(p) => PayloadView::Tombstone(p@),
            Payload::Info(p) => PayloadView::Info(p@),
        }
    }
}

impl PayloadView {
    pub open spec fn kind(self) -> EventKind {
        match self {
            PayloadView::Commit(_) => EventKind::Commit,
            PayloadView::Identity(_) => EventKind::Identity,
            PayloadView::Account(_) => EventKind::Account,
            PayloadView::Handle(_) => EventKind::Handle,
            PayloadView::Migrate(_) => EventKind::Migrate,
            PayloadView::Tombstone(_) => EventKind::Tombstone,
            PayloadView::Info(_) => EventKind::Info,
        }
    }
}

/// The payload of the kind that the whole of `body` encodes, if it encodes
/// one.
pub open spec fn payload_of(kind: EventKind, body: Seq<u8>) -> Option<PayloadView> {
    match kind {
        EventKind::Commit => match decoded_commit(body) {
            Some(p) => Some(PayloadView::Commit(p)),
            None => None,
        },
        EventKind::Identity => match decoded_identity(body) {
            Some(p) => Some(PayloadView::Identity(p)),
            None => None,
        },
        EventKind::Account => match decoded_account(body) {
            Some(p) => Some(PayloadView::Account(p)),
            None => None,
        },
        EventKind::Handle => match decoded_handle(body) {
            Some(p) => Some(PayloadView::Handle(p)),
            None => None,
        },
        EventKind::Migrate => match decoded_migrate(body) {
            Some(p) => Some(PayloadView::Migrate(p)),
            None => None,
        },
        EventKind::Tombstone => match decoded_tombstone(body) {
            Some(p) => Some(PayloadView::Tombstone(p)),
            None => None,
        },
        EventKind::Info => match decoded_info(body) {
            Some(p) => Some(PayloadView::Info(p)),
            None => None,
        },
    }
}

impl Payload {
    /// Decodes the body of a message frame as a payload of the kind. The
    /// whole body has to encode the payload: one with missing or ill-formed
    /// fields, or with bytes left over, does not decode.
    pub fn decode(kind: EventKind, body: &Vec<u8>) -> (payload: Option<Payload>)
        ensures
            match payload {
                Some(p) => payload_of(kind, body@) == Some(p@),
                None => payload_of(kind, body@) is None,
            },
    {
        match kind {
            EventKind::Commit => match read_commit(body) {
                Some(p) => Some(Payload::Commit(p)),
                None => None,
            },
            EventKind::Identity => match read_identity(body) {
                Some(p) => Some(Payload::Identity(p)),
                None => None,
            },
            EventKind::Account => match read_account(body) {
                Some(p) => Some(Payload::Account(p)),
                None => None,
            },
            EventKind::Handle => match read_handle(body) {
                Some(p) => Some(Payload::Handle(p)),
                None => None,
            },
            EventKind::Migrate => match read_migrate(body) {
                Some(p) => Some(Payload::Migrate(p)),
                None => None,
            },
            EventKind::Tombstone => match read_tombstone(body) {
                Some(p) => Some(Payload::Tombstone(p)),
                None => None,
            },
            EventKind::Info => match read_info(body) {
                Some(p) => Some(Payload::Info(p)),
                None => None,
            },
        }
    }
}

/// `serde_ipld_dagcbor::from_reader` at `atrium_api`'s
/// `subscribe_repos::Commit`: the whole body has to be one DAG-CBOR item with
/// that type's fields. The fields that the library reads are handed out, the
/// content identifiers by their bytes (`Cid::to_bytes`).
#[verifier::external_body]
fn read_commit(body: &Vec<u8>) -> (payload: Option<Commit>)
    ensures
        match payload {
            Some(p) => decoded_commit(body@) == Some(p@),
            None => decoded_commit(body@) is None,
        },
{
    let decoded = serde_ipld_dagcbor::from_reader::<subscribe_repos::Commit, _>(body.as_slice());
    let data = decoded.ok()?.data;
    let op = |op: subscribe_repos::RepoOp| RepoOp {
        action: op.data.action,
        path: op.data.path,
        cid: op.data.cid.map(|link| link.0.to_bytes()),
    };
    Some(Commit {
        seq: data.seq,
        too_big: data.too_big,
        repo: data.repo.into(),
        commit: data.commit.0.to_bytes(),
        ops: data.ops.into_iter().map(op).collect(),
        blocks: data.blocks,
    })
}

/// `serde_ipld_dagcbor::from_reader` at `atrium_api`'s
/// `subscribe_repos::Identity`: the whole body has to be one DAG-CBOR
/// item with that type's fields, which are handed out as they are. Fields
/// that the type does not know are dropped.
#[verifier::external_body]
fn read_identity(body: &Vec<u8>) -> (payload: Option<Identity>)
    ensures
        match payload {
            Some(p) => decoded_identity(body@) == Some(p@),
            None => decoded_identity(body@) is None,
        },
{
    let decoded = serde_ipld_dagcbor::from_reader::<subscribe_repos::Identity, _>(body.as_slice());
    let data = decoded.ok()?.data;
    Some(Identity {
        seq: data.seq,
        did: data.did.into(),
        handle: data.handle.map(|handle| handle.into()),
        time: data.time.as_str().to_string(),
    })
}

/// `serde_ipld_dagcbor::from_reader` at `atrium_api`'s
/// `subscribe_repos::Account`: the whole body has to be one DAG-CBOR
/// item with that type's fields, which are handed out as they are. Fields
/// that the type does not know are dropped.
#[verifier::external_body]
fn read_account(body: &Vec<u8>) -> (payload: Option<Account>)
    ensures
        match payload {
            Some(p) => decoded_account(body@) == Some(p@),
            None => decoded_account(body@) is None,
        },
{
    let decoded = serde_ipld_dagcbor::from_reader::<subscribe_repos::Account, _>(body.as_slice());
    let data = decoded.ok()?.data;
    Some(Account {
        seq: data.seq,
        did: data.did.into(),
        active: data.active,
        status: data.status,
        time: data.time.as_str().to_string(),
    })
}

/// `serde_ipld_dagcbor::from_reader` at `atrium_api`'s
/// `subscribe_repos::Handle`: the whole body has to be one DAG-CBOR
/// item with that type's fields, which are handed out as they are. Fields
/// that the type does not know are dropped.
#[verifier::external_body]
fn read_handle(body: &Vec<u8>) -> (payload: Option<Handle>)
    ensures
        match payload {
            Some(p) => decoded_handle(body@) == Some(p@),
            None => decoded_handle(body@) is None,
        },
{
    let decoded = serde_ipld_dagcbor::from_reader::<subscribe_repos::Handle, _>(body.as_slice());
    let data = decoded.ok()?.data;
    Some(Handle {
        seq: data.seq,
        did: data.did.into(),
        handle: data.handle.into(),
        time: data.time.as_str().to_string(),
    })
}

/// `serde_ipld_dagcbor::from_reader` at `atrium_api`'s
/// `subscribe_repos::Migrate`: the whole body has to be one DAG-CBOR
/// item with that type's fields, which are handed out as they are. Fields
/// that the type does not know are dropped.
#[verifier::external_body]
fn read_migrate(body: &Vec<u8>) -> (payload: Option<Migrate>)
    ensures
        match payload {
            Some(p) => decoded_migrate(body@) == Some(p@),
            None => decoded_migrate(body@) is None,
        },
{
    let decoded = serde_ipld_dagcbor::from_reader::<subscribe_repos::Migrate, _>(body.as_slice());
    let data = decoded.ok()?.data;
    Some(Migrate {
        seq: data.seq,
        did: data.did.into(),
        migrate_to: data.migrate_to,
        time: data.time.as_str().to_string(),
    })
}

/// `serde_ipld_dagcbor::from_reader` at `atrium_api`'s
/// `subscribe_repos::Tombstone`: the whole body has to be one DAG-CBOR
/// item with that type's fields, which are handed out as they are. Fields
/// that the type does not know are dropped.
#[verifier::external_body]
fn read_tombstone(body: &Vec<u8>) -> (payload: Option<Tombstone>)
    ensures
        match payload {
            Some(p) => decoded_tombstone(body@) == Some(p@),
            None => decoded_tombstone(body@) is None,
        },
{
    let decoded = serde_ipld_dagcbor::from_reader::<subscribe_repos::Tombstone, _>(body.as_slice());
    let data = decoded.ok()?.data;
    Some(Tombstone { seq: data.seq, did: data.did.into(), time: data.time.as_str().to_string() })
}

/// `serde_ipld_dagcbor::from_reader` at `atrium_api`'s
/// `subscribe_repos::Info`: the whole body has to be one DAG-CBOR
/// item with that type's fields, which are handed out as they are. Fields
/// that the type does not know are dropped.
#[verifier::external_body]
fn read_info(body: &Vec<u8>) -> (payload: Option<Info>)
    ensures
        match payload {
            Some(p) => decoded_info(body@) == Some(p@),
            None => decoded_info(body@) is None,
        },
{
    let decoded = serde_ipld_dagcbor::from_reader::<subscribe_repos::Info, _>(body.as_slice());
    let data = decoded.ok()?.data;
    Some(Info { name: data.name, message: data.message })
}

} // verus!
