//! The session with the provider: which request each operation sends, and
//! what each reply yields.

use crate::config::Config;
use crate::consts::{API_VERSION, BASE_URL, MAX_FILE_COUNT};
use crate::digest::{content_hash, hex_digit, sha1_digest, sha1_hex, upper_hex};
use crate::error::{ApiError, Operation};
use crate::exchange::{
    authorization, carries_token, header_text, interpret, is_header_text, legal_header_char,
    meaning, successful, BasicAuth, Header, HeaderView, Method, Outcome, Param, Request,
    RequestView,
};
use crate::json::{encode_members, json_members};
use crate::models::{texts, AuthorizeAccount, GetUploadUrl, ListFileNames};
use crate::timing::Elapsed;
use vstd::prelude::*;
use vstd::string::StringExecFns;

verus! {

/// An authorized session. It exists only after account authorization has
/// succeeded, and it does not change afterwards.
pub struct BackblazeApi {
    authorization_token: String,
    versionless_api_url: String,
    api_url: String,
    bucket_id: String,
    bucket: String,
    prefix: String,
}

/// A session as contracts see it.
pub struct SessionView {
    pub authorization_token: Seq<char>,
    pub versionless_api_url: Seq<char>,
    pub api_url: Seq<char>,
    pub bucket_id: Seq<char>,
    pub bucket: Seq<char>,
    pub prefix: Seq<char>,
}

impl View for BackblazeApi {
    type V = SessionView;

    closed spec fn view(&self) -> SessionView {
        SessionView {
            authorization_token: self.authorization_token@,
            versionless_api_url: self.versionless_api_url@,
            api_url: self.api_url@,
            bucket_id: self.bucket_id@,
            bucket: self.bucket@,
            prefix: self.prefix@,
        }
    }
}

/// The address of the versioned interface under a storage address.
pub open spec fn versioned(storage_url: Seq<char>) -> Seq<char> {
    storage_url + "/"@ + API_VERSION@
}

/// The name under which an upload is stored: the session's prefix, a slash,
/// and the name that the caller chose.
pub open spec fn assigned_name(prefix: Seq<char>, file_name: Seq<char>) -> Seq<char> {
    prefix + "/"@ + file_name
}

/// Whether every header value of a request may go on the wire as it is.
pub open spec fn sendable(request: RequestView) -> bool {
    forall|i: int|
        0 <= i < request.headers.len() ==> header_text((#[trigger] request.headers[i]).value)
}

/// The address that account authorization is sent to.
pub open spec fn authorize_url() -> Seq<char> {
    BASE_URL@ + "/"@ + API_VERSION@ + "/b2_authorize_account"@
}

/// The request that authorizes the account with the key `key_id`, `key`.
pub open spec fn authorize_request_of(key_id: Seq<char>, key: Seq<char>) -> RequestView {
    RequestView {
        method: Method::Get,
        url: authorize_url(),
        basic_auth: Some((key_id, key)),
        query: seq![],
        headers: seq![],
        body: seq![],
    }
}

/// The session that an authorization reply describes.
pub open spec fn session_of(reply: AuthorizeAccount) -> SessionView {
    SessionView {
        authorization_token: reply.authorization_token@,
        versionless_api_url: reply.api_info.storage_api.api_url@,
        api_url: versioned(reply.api_info.storage_api.api_url@),
        bucket_id: reply.api_info.storage_api.bucket_id@,
        bucket: reply.api_info.storage_api.bucket_name@,
        prefix: reply.api_info.storage_api.name_prefix@,
    }
}

/// Whether an authorization reply can serve as a session for `bucket`: it
/// holds a credential, the credential can be sent, and the key is for that
/// bucket.
pub open spec fn usable(bucket: Seq<char>, reply: AuthorizeAccount) -> bool {
    &&& reply.authorization_token@.len() > 0
    &&& header_text(reply.authorization_token@)
    &&& reply.api_info.storage_api.bucket_name@ == bucket
}

/// The request that asks for an upload ticket.
pub open spec fn upload_info_request_of(session: SessionView) -> RequestView {
    RequestView {
        method: Method::Get,
        url: session.api_url + "/b2_get_upload_url"@,
        basic_auth: None,
        query: seq![("bucketId"@, session.bucket_id)],
        headers: seq![authorization(session.authorization_token)],
        body: seq![],
    }
}

/// The request that uploads `content` under `file_name` with a ticket.
pub open spec fn upload_request(
    session: SessionView,
    ticket_token: Seq<char>,
    upload_url: Seq<char>,
    file_name: Seq<char>,
    content: Seq<u8>,
) -> RequestView {
    RequestView {
        method: Method::Post,
        url: upload_url,
        basic_auth: None,
        query: seq![],
        headers: seq![
            authorization(ticket_token),
            HeaderView { name: "content-type"@, value: "b2/x-auto"@, sensitive: false },
            HeaderView {
                name: "X-Bz-File-Name"@,
                value: assigned_name(session.prefix, file_name),
                sensitive: false,
            },
            HeaderView {
                name: "X-Bz-Content-Sha1"@,
                value: content_hash(content),
                sensitive: false,
            },
        ],
        body: content,
    }
}

/// The body of a listing request: the bucket, the cap on the page and the
/// prefix, as one JSON object.
pub open spec fn listing_query(session: SessionView) -> Seq<char> {
    json_members(
        "bucketId"@,
        session.bucket_id,
        "maxFileCount"@,
        MAX_FILE_COUNT,
        "prefix"@,
        session.prefix,
    )
}

/// The request that lists one page of names, with `body` as its text.
pub open spec fn list_request_of(session: SessionView, body: Seq<char>) -> RequestView {
    RequestView {
        method: Method::Post,
        url: session.api_url + "/b2_list_file_names"@,
        basic_auth: None,
        query: seq![],
        headers: seq![authorization(session.authorization_token)],
        body: vstd::utf8::encode_utf8(body),
    }
}

/// The names that the outcome of a listing request yields: those of the
/// page, in its order, where a successful reply brought a page of no more
/// entries than the cap.
pub open spec fn listed(outcome: Outcome<ListFileNames>) -> Result<Seq<Seq<char>>, ApiError> {
    match meaning(Operation::ListFileNames, outcome) {
        Err(error) => Err(error),
        Ok(page) => if page.files@.len() <= MAX_FILE_COUNT {
            Ok(page.names())
        } else {
            Err(ApiError::Request { operation: Operation::ListFileNames })
        },
    }
}

/// The address of an object: the storage address, the bucket and the name.
pub open spec fn download_url(session: SessionView, file_name: Seq<char>) -> Seq<char> {
    session.versionless_api_url + "/file/"@ + session.bucket + "/"@ + file_name
}

/// The request that fetches the object `file_name`.
pub open spec fn download_request_of(session: SessionView, file_name: Seq<char>) -> RequestView {
    RequestView {
        method: Method::Get,
        url: download_url(session, file_name),
        basic_auth: None,
        query: seq![],
        headers: seq![authorization(session.authorization_token)],
        body: seq![],
    }
}

/// The session's description: everything but the credential.
pub open spec fn description(session: SessionView) -> Seq<char> {
    "api_url = "@ + session.api_url + "\nbucket_id = "@ + session.bucket_id + "\nbucket = "@
        + session.bucket + "\nprefix = "@ + session.prefix
}

/// Upper-case hexadecimal text may always stand in a header.
pub proof fn upper_hex_is_header_text(bytes: Seq<u8>)
    ensures
        header_text(upper_hex(bytes)),
{
    assert forall|i: int| 0 <= i < upper_hex(bytes).len() implies legal_header_char(
        #[trigger] upper_hex(bytes)[i],
    ) by {
        let high = bytes[i / 2] as int / 16;
        let low = bytes[i / 2] as int % 16;
        assert(0 <= high < 16 && 0 <= low < 16);
        assert(forall|n: int| 0 <= n < 16 ==> legal_header_char(#[trigger] hex_digit(n)));
    }
}

fn header(name: &str, value: String, sensitive: bool) -> (made: Header)
    ensures
        made@ == (HeaderView { name: name@, value: value@, sensitive }),
{
    Header { name: String::from_str(name), value, sensitive }
}

impl BackblazeApi {
    #[verifier::type_invariant]
    spec fn well_formed(self) -> bool {
        &&& self.authorization_token@.len() > 0
        &&& header_text(self.authorization_token@)
        &&& self.api_url@ == versioned(self.versionless_api_url@)
    }

    /// Builds the request that authorizes the account: one `GET` with the
    /// key as basic authentication.
    pub fn authorize_request(config: &Config) -> (request: Request)
        ensures
            request@ == authorize_request_of(config.key_id@, config.key@),
            sendable(request@),
    {
        let mut url = String::from_str(BASE_URL);
        url.append("/");
        url.append(API_VERSION);
        url.append("/b2_authorize_account");
        let request = Request {
            method: Method::Get,
            url,
            basic_auth: Some(BasicAuth { user: config.key_id.clone(), password: config.key.clone() }),
            query: Vec::new(),
            headers: Vec::new(),
            body: Vec::new(),
        };
        proof {
            let expected = authorize_request_of(config.key_id@, config.key@);
            assert(request@.headers =~= expected.headers);
            assert(request@.query =~= expected.query);
        }
        request
    }

    /// Opens the session from the outcome of the authorization request.
    ///
    /// A session comes out exactly when a successful reply arrived whose
    /// credential is not empty and can be sent, and whose bucket is the
    /// configured one. Every session therefore holds a credential and serves
    /// the configured bucket. Any other reply, and a request that was not
    /// carried out, is an authentication error; nothing is built then.
    pub fn new(config: &Config, outcome: Outcome<AuthorizeAccount>) -> (result: Result<
        BackblazeApi,
        ApiError,
    >)
        ensures
            match meaning(Operation::AuthorizeAccount, outcome) {
                Err(error) => result == Err::<BackblazeApi, ApiError>(error),
                Ok(reply) => if usable(config.bucket@, reply) {
                    result is Ok && result.unwrap()@ == session_of(reply)
                } else {
                    result == Err::<BackblazeApi, ApiError>(
                        ApiError::Authentication { operation: Operation::AuthorizeAccount },
                    )
                },
            },
            result is Ok ==> result.unwrap()@.authorization_token.len() > 0 && result.unwrap()@.bucket
                == config.bucket@,
            result is Err && !(outcome is LocalFailure) ==> result == Err::<BackblazeApi, ApiError>(
                ApiError::Authentication { operation: Operation::AuthorizeAccount },
            ),
    {
        let reply = match interpret(Operation::AuthorizeAccount, outcome) {
            Ok(reply) => reply,
            Err(error) => {
                return Err(error);
            },
        };
        let rejected = ApiError::Authentication { operation: Operation::AuthorizeAccount };
        if reply.authorization_token.as_str().is_empty() || !is_header_text(
            reply.authorization_token.as_str(),
        ) || reply.api_info.storage_api.bucket_name != config.bucket {
            return Err(rejected);
        }
        let ghost expected = session_of(reply);
        let storage = reply.api_info.storage_api;
        let mut api_url = storage.api_url.clone();
        api_url.append("/");
        api_url.append(API_VERSION);
        let session = BackblazeApi {
            authorization_token: reply.authorization_token,
            versionless_api_url: storage.api_url,
            api_url,
            bucket_id: storage.bucket_id,
            bucket: storage.bucket_name,
            prefix: storage.name_prefix,
        };
        assert(session@ == expected);
        Ok(session)
    }

    /// Builds the request that asks for an upload ticket for the session's
    /// bucket.
    pub fn upload_info_request(&self) -> (request: Request)
        ensures
            request@ == upload_info_request_of(self@),
            carries_token(request@, self@.authorization_token),
            sendable(request@),
    {
        proof {
            use_type_invariant(self);
        }
        let mut url = self.api_url.clone();
        url.append("/b2_get_upload_url");
        let mut query: Vec<Param> = Vec::new();
        query.push(Param { name: String::from_str("bucketId"), value: self.bucket_id.clone() });
        let mut headers: Vec<Header> = Vec::new();
        headers.push(header("authorization", self.authorization_token.clone(), true));
        let request = Request {
            method: Method::Get,
            url,
            basic_auth: None,
            query,
            headers,
            body: Vec::new(),
        };
        proof {
            let expected = upload_info_request_of(self@);
            assert(request@.headers =~= expected.headers);
            assert(request@.query =~= expected.query);
            assert(request@.headers[0] == authorization(self@.authorization_token));
        }
        request
    }

    /// Reads the upload ticket from the outcome of the ticket request. A
    /// ticket is good for one upload.
    pub fn get_upload_info(&self, outcome: Outcome<GetUploadUrl>) -> (result: Result<
        GetUploadUrl,
        ApiError,
    >)
        ensures
            result == meaning(Operation::GetUploadUrl, outcome),
    {
        interpret(Operation::GetUploadUrl, outcome)
    }

    /// Builds the request that uploads `content` as `file_name` with the
    /// ticket `upload_info`. The request carries the ticket's credential, not
    /// the session's, and the content's hash for the provider to check.
    ///
    /// Fails, as a request error of the upload, exactly when the ticket's
    /// credential or the assigned name cannot stand in a header.
    pub fn upload_file(
        &self,
        upload_info: &GetUploadUrl,
        content: Vec<u8>,
        file_name: String,
    ) -> (result: Result<Request, ApiError>)
        ensures
            result is Ok <==> header_text(upload_info.authorization_token@) && header_text(
                assigned_name(self@.prefix, file_name@),
            ),
            result is Ok ==> result.unwrap()@ == upload_request(
                self@,
                upload_info.authorization_token@,
                upload_info.upload_url@,
                file_name@,
                content@,
            ) && sendable(result.unwrap()@),
            result is Err ==> result == Err::<Request, ApiError>(
                ApiError::Request { operation: Operation::UploadFile },
            ),
    {
        let mut name = self.prefix.clone();
        name.append("/");
        name.append(file_name.as_str());
        if !is_header_text(upload_info.authorization_token.as_str()) || !is_header_text(
            name.as_str(),
        ) {
            return Err(ApiError::Request { operation: Operation::UploadFile });
        }
        let hash = sha1_hex(&content);
        let mut headers: Vec<Header> = Vec::new();
        headers.push(header("authorization", upload_info.authorization_token.clone(), true));
        headers.push(header("content-type", String::from_str("b2/x-auto"), false));
        headers.push(header("X-Bz-File-Name", name, false));
        headers.push(header("X-Bz-Content-Sha1", hash, false));
        let request = Request {
            method: Method::Post,
            url: upload_info.upload_url.clone(),
            basic_auth: None,
            query: Vec::new(),
            headers,
            body: content,
        };
        proof {
            let expected = upload_request(
                self@,
                upload_info.authorization_token@,
                upload_info.upload_url@,
                file_name@,
                content@,
            );
            assert(request@.headers =~= expected.headers);
            assert(request@.query =~= expected.query);
            reveal_strlit("b2/x-auto");
            upper_hex_is_header_text(sha1_digest(content@));
        }
        Ok(request)
    }

    /// Settles an upload from the outcome of its request. The payload is
    /// there where the reply's body was well-formed.
    pub fn upload_result(&self, outcome: Outcome<()>) -> (result: Result<(), ApiError>)
        ensures
            result == meaning(Operation::UploadFile, outcome),
    {
        interpret(Operation::UploadFile, outcome)
    }

    /// Builds the listing request around the text that the encoder gave, or
    /// fails, as a request error of the listing, where it gave none.
    pub fn list_request_with(&self, body: Option<String>) -> (result: Result<Request, ApiError>)
        ensures
            match body {
                Some(text) => result is Ok && result.unwrap()@ == list_request_of(self@, text@)
                    && carries_token(result.unwrap()@, self@.authorization_token) && sendable(
                    result.unwrap()@,
                ),
                None => result == Err::<Request, ApiError>(
                    ApiError::Request { operation: Operation::ListFileNames },
                ),
            },
    {
        proof {
            use_type_invariant(self);
        }
        let text = match body {
            Some(text) => text,
            None => {
                return Err(ApiError::Request { operation: Operation::ListFileNames });
            },
        };
        let mut url = self.api_url.clone();
        url.append("/b2_list_file_names");
        let mut headers: Vec<Header> = Vec::new();
        headers.push(header("authorization", self.authorization_token.clone(), true));
        let request = Request {
            method: Method::Post,
            url,
            basic_auth: None,
            query: Vec::new(),
            headers,
            body: text.as_str().as_bytes_vec(),
        };
        proof {
            let expected = list_request_of(self@, text@);
            assert(request@.headers =~= expected.headers);
            assert(request@.query =~= expected.query);
            assert(request@.headers[0] == authorization(self@.authorization_token));
        }
        Ok(request)
    }

    /// Builds the request that lists one page of the names under the
    /// session's prefix, capped at the largest page: one `POST` to the
    /// listing address with the session's credential, whose body is the
    /// listing query as JSON text. Every session gives this request.
    pub fn list_request(&self) -> (result: Result<Request, ApiError>)
        ensures
            result is Ok,
            result.unwrap()@ == list_request_of(self@, listing_query(self@)),
            carries_token(result.unwrap()@, self@.authorization_token),
            sendable(result.unwrap()@),
    {
        let body = match encode_members(
            "bucketId",
            self.bucket_id.as_str(),
            "maxFileCount",
            MAX_FILE_COUNT,
            "prefix",
            self.prefix.as_str(),
        ) {
            Ok(text) => Some(text),
            Err(_) => None,
        };
        self.list_request_with(body)
    }

    /// Reads the names from the outcome of the listing request: the names of
    /// the page, in its order. Only this one page is read; whether more
    /// names follow it is not looked at.
    ///
    /// A page with more entries than were asked for is not what the
    /// operation expects, and is a request error of the listing. So a
    /// listing never holds more names than the cap.
    pub fn list_files(&self, outcome: Outcome<ListFileNames>) -> (result: Result<
        Vec<String>,
        ApiError,
    >)
        ensures
            match listed(outcome) {
                Ok(names) => result is Ok && texts(result.unwrap()@) == names,
                Err(error) => result == Err::<Vec<String>, ApiError>(error),
            },
            result is Ok ==> result.unwrap()@.len() <= MAX_FILE_COUNT,
    {
        let page = match interpret(Operation::ListFileNames, outcome) {
            Ok(page) => page,
            Err(error) => {
                return Err(error);
            },
        };
        if page.files.len() as u64 > MAX_FILE_COUNT {
            return Err(ApiError::Request { operation: Operation::ListFileNames });
        }
        let mut names: Vec<String> = Vec::new();
        let mut i: usize = 0;
        while i < page.files.len()
            invariant
                i <= page.files.len(),
                texts(names@) == page.names().take(i as int),
            decreases page.files.len() - i,
        {
            let ghost before = names@;
            let name = page.files[i].file_name.clone();
            names.push(name);
            assert(texts(names@) =~= texts(before).push(name@));
            assert(page.names().take(i + 1) =~= page.names().take(i as int).push(
                page.names()[i as int],
            ));
            i += 1;
        }
        assert(page.names().take(i as int) =~= page.names());
        assert(texts(names@).len() == names@.len());
        Ok(names)
    }

    /// Builds the request that fetches the object `file_name` from the
    /// session's bucket. Any name gives a request.
    pub fn download_file_by_name(&self, file_name: &str) -> (request: Request)
        ensures
            request@ == download_request_of(self@, file_name@),
            carries_token(request@, self@.authorization_token),
            sendable(request@),
    {
        proof {
            use_type_invariant(self);
        }
        let mut url = self.versionless_api_url.clone();
        url.append("/file/");
        url.append(self.bucket.as_str());
        url.append("/");
        url.append(file_name);
        let mut headers: Vec<Header> = Vec::new();
        headers.push(header("authorization", self.authorization_token.clone(), true));
        let request = Request {
            method: Method::Get,
            url,
            basic_auth: None,
            query: Vec::new(),
            headers,
            body: Vec::new(),
        };
        proof {
            let expected = download_request_of(self@, file_name@);
            assert(request@.headers =~= expected.headers);
            assert(request@.query =~= expected.query);
            assert(request@.headers[0] == authorization(self@.authorization_token));
        }
        request
    }

    /// Settles a download from the outcome of its request. The payload is
    /// the time that the caller measured from sending the request until the
    /// object was written.
    pub fn download_result(&self, outcome: Outcome<Elapsed>) -> (result: Result<Elapsed, ApiError>)
        ensures
            result == meaning(Operation::DownloadFile, outcome),
    {
        interpret(Operation::DownloadFile, outcome)
    }

    /// Describes the session for a log. The credential is left out.
    pub fn describe(&self) -> (text: String)
        ensures
            text@ == description(self@),
    {
        let mut text = String::from_str("api_url = ");
        text.append(self.api_url.as_str());
        text.append("\nbucket_id = ");
        text.append(self.bucket_id.as_str());
        text.append("\nbucket = ");
        text.append(self.bucket.as_str());
        text.append("\nprefix = ");
        text.append(self.prefix.as_str());
        text
    }

    /// The address of the storage interface, without a version.
    pub fn versionless_api_url(&self) -> (text: &str)
        ensures
            text@ == self@.versionless_api_url,
    {
        self.versionless_api_url.as_str()
    }

    /// The address of the versioned storage interface.
    pub fn api_url(&self) -> (text: &str)
        ensures
            text@ == self@.api_url,
            text@ == versioned(self@.versionless_api_url),
    {
        proof {
            use_type_invariant(self);
        }
        self.api_url.as_str()
    }

    /// The identifier of the session's bucket.
    pub fn bucket_id(&self) -> (text: &str)
        ensures
            text@ == self@.bucket_id,
    {
        self.bucket_id.as_str()
    }

    /// The name of the session's bucket.
    pub fn bucket(&self) -> (text: &str)
        ensures
            text@ == self@.bucket,
    {
        self.bucket.as_str()
    }

    /// The prefix that the session's names live under.
    pub fn prefix(&self) -> (text: &str)
        ensures
            text@ == self@.prefix,
    {
        self.prefix.as_str()
    }
}

/// The name that an upload request announces, if it announces one.
pub open spec fn announced_name(request: RequestView) -> Option<Seq<char>> {
    if exists|i: int| 0 <= i < request.headers.len() && request.headers[i].name == "X-Bz-File-Name"@ {
        let i = choose|i: int|
            0 <= i < request.headers.len() && request.headers[i].name == "X-Bz-File-Name"@;
        Some(request.headers[i].value)
    } else {
        None
    }
}

/// An upload announces its assigned name, and a listing whose page holds
/// that name yields it: once the provider shows the upload, the listing
/// finds it.
pub proof fn uploaded_name_is_listed(
    session: SessionView,
    ticket_token: Seq<char>,
    upload_url: Seq<char>,
    file_name: Seq<char>,
    content: Seq<u8>,
    status: u16,
    page: ListFileNames,
)
    requires
        successful(status),
        page.files@.len() <= MAX_FILE_COUNT,
        page.names().contains(assigned_name(session.prefix, file_name)),
    ensures
        announced_name(upload_request(session, ticket_token, upload_url, file_name, content))
            == Some(assigned_name(session.prefix, file_name)),
        listed(Outcome::Reply { status, payload: Some(page) }) is Ok,
        listed(Outcome::Reply { status, payload: Some(page) }).unwrap().contains(
            assigned_name(session.prefix, file_name),
        ),
{
    let request = upload_request(session, ticket_token, upload_url, file_name, content);
    reveal_strlit("X-Bz-File-Name");
    reveal_strlit("authorization");
    reveal_strlit("content-type");
    reveal_strlit("X-Bz-Content-Sha1");
    assert("X-Bz-File-Name"@.len() == 14);
    assert("authorization"@.len() == 13);
    assert("content-type"@.len() == 12);
    assert("X-Bz-Content-Sha1"@.len() == 17);
    assert(request.headers[2].name == "X-Bz-File-Name"@);
    let i = choose|i: int|
        0 <= i < request.headers.len() && request.headers[i].name == "X-Bz-File-Name"@;
    assert(i == 2);
}

} // verus!
