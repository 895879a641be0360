//! The two operations of the registry, and the replies that answer them.
//!
//! The caller owns the listening socket and the encoding of bodies. It hands
//! each request's body over as a [`MemberStub`] or a [`Member`] and sends what
//! the [`Reply`] holds.

use vstd::prelude::*;
use vstd::string::*;
use crate::keys::PubKey;
use crate::registry::store::{db_get_pubkey, db_set_pubkey, directory, lookup, publish};
use crate::registry::{Member, MemberStub};

verus! {

/// The status of a reply that carries what was asked for.
pub const STATUS_OK: u16 = 200;

/// The status of a reply to a lookup of a name that was never published.
pub const STATUS_NOT_FOUND: u16 = 404;

/// The status of a reply to a request that the storage engine failed.
pub const STATUS_INTERNAL_ERROR: u16 = 500;

/// Why a request was not served.
#[derive(Debug, PartialEq, Eq)]
pub enum AppError {
    /// The storage engine reported a fault. The text is its diagnostic message.
    Database(String),
    /// Nobody published the name.
    NotFound(String),
}

/// What a failed request is answered with: a label for the kind of failure, and
/// details for the operator.
#[derive(Debug, PartialEq, Eq)]
pub struct ErrorBody {
    pub error: String,
    pub details: String,
}

/// The body of a reply.
#[derive(Debug, PartialEq, Eq)]
pub enum ReplyBody {
    /// Nothing: an acknowledgement.
    Empty,
    /// A public key, as 32 raw bytes.
    Key(PubKey),
    /// The description of a failure.
    Error(ErrorBody),
}

/// A reply of the registry.
#[derive(Debug, PartialEq, Eq)]
pub struct Reply {
    pub status: u16,
    pub body: ReplyBody,
}

/// The status that answers a failure.
pub open spec fn error_status(error: AppError) -> u16 {
    match error {
        AppError::Database(_) => STATUS_INTERNAL_ERROR,
        AppError::NotFound(_) => STATUS_NOT_FOUND,
    }
}

/// The label that names a failure's kind.
pub open spec fn error_label(error: AppError) -> Seq<char> {
    match error {
        AppError::Database(_) => "Internal server error"@,
        AppError::NotFound(_) => "Not found"@,
    }
}

/// The details that go with a failure: the engine's message, or the name that
/// was not found.
pub open spec fn error_details(error: AppError) -> Seq<char> {
    match error {
        AppError::Database(text) => text@,
        AppError::NotFound(name) => name@,
    }
}

/// A failure in words.
pub open spec fn error_message(error: AppError) -> Seq<char> {
    match error {
        AppError::Database(text) => "Db op failed: "@ + text@,
        AppError::NotFound(name) => "User not found: "@ + name@,
    }
}

/// Whether `reply` is the reply that answers the failure `error`: its status,
/// and a body with its label and its details.
pub open spec fn answers_failure(reply: Reply, error: AppError) -> bool {
    &&& reply.status == error_status(error)
    &&& match reply.body {
        ReplyBody::Error(body) => body.error@ == error_label(error) && body.details@
            == error_details(error),
        _ => false,
    }
}

/// Whether `outcome` is the failure that says that nobody published `name`.
pub open spec fn is_not_found(outcome: Result<PubKey, AppError>, name: Seq<char>) -> bool {
    match outcome {
        Err(AppError::NotFound(missing)) => missing@ == name,
        _ => false,
    }
}

impl AppError {
    /// The storage failure whose text is the engine's own message for `fault`.
    pub fn from_fault(fault: &redb::Error) -> (error: AppError)
        ensures
            carries_message(error, fault),
    {
        AppError::Database(fault.to_string())
    }

    /// The failure in words.
    pub fn message(&self) -> (text: String)
        ensures
            text@ == error_message(*self),
    {
        match self {
            AppError::Database(details) => {
                let mut text = "Db op failed: ".to_owned();
                text.append(details.as_str());
                text
            },
            AppError::NotFound(name) => {
                let mut text = "User not found: ".to_owned();
                text.append(name.as_str());
                text
            },
        }
    }

    /// The reply that answers a request that failed: "not found" for a name that
    /// nobody published, a server fault for a storage fault.
    pub fn error_response(&self) -> (reply: Reply)
        ensures
            answers_failure(reply, *self),
    {
        match self {
            AppError::Database(text) => Reply {
                status: STATUS_INTERNAL_ERROR,
                body: ReplyBody::Error(
                    ErrorBody { error: "Internal server error".to_owned(), details: text.clone() },
                ),
            },
            AppError::NotFound(name) => Reply {
                status: STATUS_NOT_FOUND,
                body: ReplyBody::Error(
                    ErrorBody { error: "Not found".to_owned(), details: name.clone() },
                ),
            },
        }
    }
}

/// Whether `error` is the storage failure whose text is the message that the
/// engine renders of `fault`.
pub open spec fn carries_message(error: AppError, fault: &redb::Error) -> bool {
    match error {
        AppError::Database(text) => to_string_from_display_ensures::<redb::Error>(fault, text),
        AppError::NotFound(_) => false,
    }
}

/// What the service holds: the database with the directory in it.
pub struct State {
    db: redb::Database,
}

impl View for State {
    type V = Map<Seq<char>, Seq<u8>>;

    /// The directory: what each published name resolves to.
    closed spec fn view(&self) -> Map<Seq<char>, Seq<u8>> {
        directory(self.db)
    }
}

impl State {
    /// The service over `db`. Its directory is what the database holds.
    pub fn new(db: redb::Database) -> (state: State)
        ensures
            state@ == directory(db),
    {
        State { db }
    }
}

/// The outcome of a lookup of `name` that found `found`: the key, or the
/// failure that says that nobody published the name.
pub fn lookup_outcome(name: &str, found: Option<PubKey>) -> (outcome: Result<PubKey, AppError>)
    ensures
        found matches Some(key) ==> outcome == Ok::<PubKey, AppError>(key),
        found is None ==> is_not_found(outcome, name@),
{
    match found {
        Some(key) => Ok(key),
        None => Err(AppError::NotFound(name.to_owned())),
    }
}

/// Serves a lookup: the key published under `stub.name`, or `NotFound` with the
/// name where nobody published it. A storage fault comes back as `Database`.
pub fn get_pubkey(stub: &MemberStub, data: &State) -> (outcome: Result<PubKey, AppError>)
    ensures
        outcome matches Ok(key) ==> lookup(data@, stub.name@) == Some(key@),
        outcome is Err ==> outcome->Err_0 is Database || (lookup(data@, stub.name@) is None
            && is_not_found(outcome, stub.name@)),
{
    match db_get_pubkey(&data.db, stub) {
        Ok(found) => lookup_outcome(stub.name.as_str(), found),
        Err(fault) => Err(AppError::from_fault(&fault)),
    }
}

/// Serves a publication: afterwards the directory holds `member.pubkey` under
/// `member.name`, whatever it held there before. A storage fault comes back as
/// `Database`.
pub fn set_pubkey(member: &Member, data: &mut State) -> (outcome: Result<(), AppError>)
    ensures
        outcome is Ok ==> final(data)@ == publish(old(data)@, member.name@, member.pubkey@),
        outcome matches Err(error) ==> error is Database,
{
    match db_set_pubkey(&mut data.db, member) {
        Ok(()) => Ok(()),
        Err(fault) => Err(AppError::from_fault(&fault)),
    }
}

/// The reply to a lookup: the key with status 200, or the failure's reply.
pub fn get_reply(outcome: Result<PubKey, AppError>) -> (reply: Reply)
    ensures
        outcome matches Ok(key) ==> reply.status == STATUS_OK && reply.body == ReplyBody::Key(key),
        outcome matches Err(error) ==> answers_failure(reply, error),
{
    match outcome {
        Ok(key) => Reply { status: STATUS_OK, body: ReplyBody::Key(key) },
        Err(error) => error.error_response(),
    }
}

/// The reply to a publication: an empty body with status 200, or the failure's
/// reply.
pub fn set_reply(outcome: Result<(), AppError>) -> (reply: Reply)
    ensures
        outcome is Ok ==> reply.status == STATUS_OK && reply.body is Empty,
        outcome matches Err(error) ==> answers_failure(reply, error),
{
    match outcome {
        Ok(()) => Reply { status: STATUS_OK, body: ReplyBody::Empty },
        Err(error) => error.error_response(),
    }
}

} // verus!
