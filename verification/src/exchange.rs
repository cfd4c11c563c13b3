//! Requests as plain data, and what a reply to one means.

use crate::error::{ApiError, Operation};
use vstd::prelude::*;

verus! {

/// The two request methods that the client uses.
#[derive(Clone, Copy, Debug, PartialEq, Eq, Structural)]
pub enum Method {
    Get,
    Post,
}

/// One header of a request. A sensitive value is a credential: whoever
/// sends the request keeps it out of logs and diagnostics. For the same
/// reason a header cannot be printed for debugging.
#[derive(Clone)]
pub struct Header {
    pub name: String,
    pub value: String,
    pub sensitive: bool,
}

/// A header as contracts see it.
pub struct HeaderView {
    pub name: Seq<char>,
    pub value: Seq<char>,
    pub sensitive: bool,
}

impl View for Header {
    type V = HeaderView;

    open spec fn view(&self) -> HeaderView {
        HeaderView { name: self.name@, value: self.value@, sensitive: self.sensitive }
    }
}

/// One parameter of a request's query string, not yet encoded.
#[derive(Clone, Debug)]
pub struct Param {
    pub name: String,
    pub value: String,
}

impl View for Param {
    type V = (Seq<char>, Seq<char>);

    open spec fn view(&self) -> (Seq<char>, Seq<char>) {
        (self.name@, self.value@)
    }
}

/// A user name and a password for basic authentication.
#[derive(Clone)]
pub struct BasicAuth {
    pub user: String,
    pub password: String,
}

impl View for BasicAuth {
    type V = (Seq<char>, Seq<char>);

    open spec fn view(&self) -> (Seq<char>, Seq<char>) {
        (self.user@, self.password@)
    }
}

/// Everything that has to go on the wire for one call.
#[derive(Clone)]
pub struct Request {
    pub method: Method,
    pub url: String,
    pub basic_auth: Option<BasicAuth>,
    pub query: Vec<Param>,
    pub headers: Vec<Header>,
    pub body: Vec<u8>,
}

/// A request as contracts see it.
pub struct RequestView {
    pub method: Method,
    pub url: Seq<char>,
    pub basic_auth: Option<(Seq<char>, Seq<char>)>,
    pub query: Seq<(Seq<char>, Seq<char>)>,
    pub headers: Seq<HeaderView>,
    pub body: Seq<u8>,
}

impl View for Request {
    type V = RequestView;

    open spec fn view(&self) -> RequestView {
        RequestView {
            method: self.method,
            url: self.url@,
            basic_auth: match self.basic_auth {
                Some(auth) => Some(auth@),
                None => None,
            },
            query: self.query@.map_values(|p: Param| p@),
            headers: self.headers@.map_values(|h: Header| h@),
            body: self.body@,
        }
    }
}

/// The header that carries a credential.
pub open spec fn authorization(token: Seq<char>) -> HeaderView {
    HeaderView { name: "authorization"@, value: token, sensitive: true }
}

/// Whether a request carries `token` as its credential.
pub open spec fn carries_token(request: RequestView, token: Seq<char>) -> bool {
    exists|i: int|
        0 <= i < request.headers.len() && #[trigger] request.headers[i] == authorization(token)
}

/// What became of a request.
#[derive(Debug)]
pub enum Outcome<T> {
    /// It could not be sent, or no complete reply arrived.
    TransportFailure,
    /// A local file that the operation reads or writes could not be used.
    LocalFailure,
    /// A reply arrived. The payload is what its body holds, or `None` where
    /// the body does not have the shape that the operation expects.
    Reply { status: u16, payload: Option<T> },
}

/// Whether a status reports that the credential was not accepted.
pub open spec fn credential_rejected(status: u16) -> bool {
    status == 401 || status == 403
}

/// Whether a status reports success.
pub open spec fn successful(status: u16) -> bool {
    200 <= status < 300
}

/// Decides from the status of a reply whether its body is the object that
/// was asked for, and so whether a download stores it. The body of a reply
/// that reports a failure describes the failure and is never stored.
pub fn stores_body(status: u16) -> (wanted: bool)
    ensures
        wanted == successful(status),
{
    200 <= status && status < 300
}

/// The error for a failure that is not a rejected credential. During
/// account authorization every failure is an authentication failure.
pub open spec fn breakdown(operation: Operation) -> ApiError {
    if operation == Operation::AuthorizeAccount {
        ApiError::Authentication { operation }
    } else {
        ApiError::Request { operation }
    }
}

/// What an outcome means for the operation that it belongs to.
pub open spec fn meaning<T>(operation: Operation, outcome: Outcome<T>) -> Result<T, ApiError> {
    match outcome {
        Outcome::TransportFailure => Err(breakdown(operation)),
        Outcome::LocalFailure => Err(ApiError::LocalIo { operation }),
        Outcome::Reply { status, payload } => {
            if credential_rejected(status) {
                Err(ApiError::Authentication { operation })
            } else if !successful(status) {
                Err(breakdown(operation))
            } else {
                match payload {
                    Some(value) => Ok(value),
                    None => Err(breakdown(operation)),
                }
            }
        },
    }
}

/// Turns the outcome of a request into the operation's result.
///
/// A reply with a status that rejects the credential is an authentication
/// error whatever its body holds; it is never reported as a malformed reply.
pub fn interpret<T>(operation: Operation, outcome: Outcome<T>) -> (result: Result<T, ApiError>)
    ensures
        result == meaning(operation, outcome),
        forall|status: u16, payload: Option<T>|
            outcome == (Outcome::Reply { status, payload }) && credential_rejected(status)
                ==> result == Err::<T, ApiError>(ApiError::Authentication { operation }),
        result is Ok <==> exists|status: u16, value: T|
            outcome == (Outcome::Reply { status, payload: Some(value) }) && successful(status),
{
    let other = match operation {
        Operation::AuthorizeAccount => ApiError::Authentication { operation },
        _ => ApiError::Request { operation },
    };
    match outcome {
        Outcome::TransportFailure => Err(other),
        Outcome::LocalFailure => Err(ApiError::LocalIo { operation }),
        Outcome::Reply { status, payload } => {
            if status == 401 || status == 403 {
                Err(ApiError::Authentication { operation })
            } else if status < 200 || status >= 300 {
                Err(other)
            } else {
                match payload {
                    Some(value) => Ok(value),
                    None => Err(other),
                }
            }
        },
    }
}

/// Whether a character may stand in the value of a header: a tab, or
/// anything from the space upwards except the delete character.
pub open spec fn legal_header_char(c: char) -> bool {
    c == '\t' || (c >= ' ' && c != '\x7f')
}

/// Whether a text may be sent as the value of a header.
pub open spec fn header_text(text: Seq<char>) -> bool {
    forall|i: int| 0 <= i < text.len() ==> legal_header_char(#[trigger] text[i])
}

/// Decides whether `text` may be sent as the value of a header.
pub fn is_header_text(text: &str) -> (legal: bool)
    ensures
        legal == header_text(text@),
{
    let mut legal = true;
    for c in it: text.chars()
        invariant
            it.seq() == text@,
            legal == header_text(text@.take(it.index())),
    {
        proof {
            let before = text@.take(it.index());
            let after = text@.take(it.index() + 1);
            assert(after =~= before.push(c));
            assert(forall|i: int| 0 <= i < before.len() ==> before[i] == after[i]);
            assert(after[it.index()] == c);
        }
        if !(c == '\t' || (c >= ' ' && c != '\x7f')) {
            legal = false;
        }
    }
    assert(text@.take(text@.len() as int) =~= text@);
    legal
}

/// A reply that rejects the credential is an authentication error of the
/// operation, whatever the operation is and whatever the reply's body holds.
pub proof fn rejected_credential_is_authentication_error<T>(
    operation: Operation,
    status: u16,
    payload: Option<T>,
)
    requires
        credential_rejected(status),
    ensures
        meaning(operation, Outcome::Reply { status, payload }) == Err::<T, ApiError>(
            ApiError::Authentication { operation },
        ),
{
}

/// A reply with a status that does not report success is an error of the
/// operation, whatever its body holds.
pub proof fn failure_status_is_an_error<T>(operation: Operation, status: u16, payload: Option<T>)
    requires
        !successful(status),
    ensures
        meaning(operation, Outcome::Reply { status, payload }) is Err,
{
}

} // verus!
