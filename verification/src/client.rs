//! The client: one method per operation of the service. A method decides what
//! is sent; `handle_response` decides what came back.

use crate::error::Error;
use crate::json::{member, member_of, parse, parsed_document, text, text_of};
use crate::request::{
    lemma_members_push, members, Body, Field, FieldValue, Member, Method, Request,
};
use crate::status::{lemma_status_text_starts_with_code, status_text, StatusCode};
use crate::text::{decimal, decimal_nat, format_i32, join, joined, texts};
use crate::types::{BatchOperation, HistoryOptions, PatchOperations};
use serde_json::Value;
use vstd::prelude::*;
use vstd::string::*;

verus! {

/// The origin that a new client speaks to.
pub const DEFAULT_BASE_URL: &'static str = "https://key-value.co";

/// How long an exchange may take, in seconds.
pub const DEFAULT_TIMEOUT_SECS: u64 = 30;

/// The largest number of operations that one batch may hold.
pub const MAX_BATCH_OPERATIONS: usize = 100;

/// What a client is made of.
pub struct ClientView {
    pub base_url: Seq<char>,
    pub token: Option<Seq<char>>,
}

/// A client of the service: the origin it speaks to and, where it has one, the
/// token that names the caller's record.
#[derive(Debug)]
pub struct Client {
    base_url: String,
    token: Option<String>,
}

impl View for Client {
    type V = ClientView;

    closed spec fn view(&self) -> ClientView {
        ClientView {
            base_url: self.base_url@,
            token: match self.token {
                Some(t) => Some(t@),
                None => None,
            },
        }
    }
}

/// The query parameters that the options ask for: those that are present, in
/// the order limit, before, since, type.
pub open spec fn history_query(options: &HistoryOptions) -> Seq<Seq<char>> {
    let limit = match options.limit {
        Some(n) => seq!["limit="@ + decimal(n as int)],
        None => Seq::<Seq<char>>::empty(),
    };
    let before = match options.before {
        Some(n) => seq!["before="@ + decimal(n as int)],
        None => Seq::<Seq<char>>::empty(),
    };
    let since = match options.since {
        Some(s) => seq!["since="@ + s@],
        None => Seq::<Seq<char>>::empty(),
    };
    let type_filter = match options.type_filter {
        Some(s) => seq!["type="@ + s@],
        None => Seq::<Seq<char>>::empty(),
    };
    limit + before + since + type_filter
}

/// The URL of the event log under an origin: the path, and after a question
/// mark the parameters joined by `&`, where there are any.
pub open spec fn history_url(base_url: Seq<char>, options: &HistoryOptions) -> Seq<char> {
    let query = history_query(options);
    if query.len() == 0 {
        base_url + "/api/history"@
    } else {
        base_url + "/api/history"@ + "?"@ + joined(query, "&"@)
    }
}

/// The member that carries a time to live, where one is given.
pub open spec fn ttl_member<'a>(ttl: Option<i32>) -> Seq<Member<'a>> {
    match ttl {
        Some(seconds) => seq![Member { name: "ttl"@, value: FieldValue::Integer(seconds) }],
        None => Seq::empty(),
    }
}

/// The body of a token request: the challenge token, where one is given.
pub open spec fn generate_body<'a>(turnstile_token: Option<&'a str>) -> Seq<Member<'a>> {
    match turnstile_token {
        Some(t) => seq![Member { name: "turnstileToken"@, value: FieldValue::Text(t) }],
        None => Seq::empty(),
    }
}

/// The body of a write: the document, then the time to live where one is
/// given.
pub open spec fn store_body<'a>(data: &'a Value, ttl: Option<i32>) -> Seq<Member<'a>> {
    seq![Member { name: "data"@, value: FieldValue::Document(data) }] + ttl_member(ttl)
}

/// The body of a partial update: the expected version, the update, then the
/// time to live where one is given.
pub open spec fn patch_body<'a>(version: i32, patch: &'a PatchOperations, ttl: Option<i32>) -> Seq<
    Member<'a>,
> {
    seq![
        Member { name: "version"@, value: FieldValue::Integer(version) },
        Member { name: "patch"@, value: FieldValue::Patch(patch) },
    ] + ttl_member(ttl)
}

/// The body of a batch: the operations.
pub open spec fn batch_body<'a>(operations: Vec<BatchOperation>) -> Seq<Member<'a>> {
    seq![Member { name: "operations"@, value: FieldValue::Operations(operations) }]
}

/// The message of an error response whose body names none.
pub open spec fn fallback_message(status: StatusCode) -> Seq<char> {
    "HTTP "@ + status_text(status@)
}

/// The message that an error body reports: the text of the member `error`,
/// where the body is a JSON object that has such a member and the member is a
/// string.
pub open spec fn reported_error(body: Seq<u8>) -> Option<Seq<char>> {
    match parsed_document(body) {
        Some(document) => match member_of(document, "error"@) {
            Some(found) => text_of(found),
            None => None,
        },
        None => None,
    }
}

/// The outcome of an exchange: on a success status the decoded payload, or the
/// decoder's complaint as a transport error; on any other status an API error
/// with that status and the message that the error body reports, or the
/// fallback message where it reports none.
pub open spec fn response_outcome<T>(
    status: StatusCode,
    payload: Result<T, String>,
    error_message: Option<Seq<char>>,
    outcome: Result<T, Error>,
) -> bool {
    if status.success() {
        match payload {
            Ok(value) => outcome == Ok::<T, Error>(value),
            Err(cause) => outcome == Err::<T, Error>(Error::Request(cause)),
        }
    } else {
        &&& outcome matches Err(Error::Api { status: s, message })
        &&& s == status
        &&& message@ == match error_message {
            Some(m) => m,
            None => fallback_message(status),
        }
    }
}

impl Client {
    /// A client of the default origin that is bound to a token.
    pub fn new(token: &str) -> (r: Client)
        ensures
            r@.base_url == DEFAULT_BASE_URL@,
            r@.token == Some(token@),
    {
        Client { base_url: String::from_str(DEFAULT_BASE_URL), token: Some(String::from_str(token)) }
    }

    /// A client of the default origin that has no token.
    pub fn new_without_token() -> (r: Client)
        ensures
            r@.base_url == DEFAULT_BASE_URL@,
            r@.token is None,
    {
        Client { base_url: String::from_str(DEFAULT_BASE_URL), token: None }
    }

    /// The same client, speaking to another origin.
    pub fn with_base_url(self, url: &str) -> (r: Client)
        ensures
            r@.base_url == url@,
            r@.token == self@.token,
    {
        Client { base_url: String::from_str(url), token: self.token }
    }

    /// Binds the client to a token, in place of the one it had.
    pub fn set_token(&mut self, token: &str)
        ensures
            final(self)@.token == Some(token@),
            final(self)@.base_url == old(self)@.base_url,
    {
        self.token = Some(String::from_str(token));
    }

    /// The origin that the client speaks to.
    pub fn base_url(&self) -> (r: &str)
        ensures
            r@ == self@.base_url,
    {
        self.base_url.as_str()
    }

    /// The client's token, where it has one.
    pub fn token(&self) -> (r: Option<&str>)
        ensures
            r matches Some(t) ==> self@.token == Some(t@),
            r is None ==> self@.token is None,
    {
        match &self.token {
            Some(t) => Some(t.as_str()),
            None => None,
        }
    }

    fn push_field<'a>(fields: &mut Vec<Field<'a>>, name: &'static str, value: FieldValue<'a>)
        ensures
            members(final(fields)@) == members(old(fields)@).push(Member { name: name@, value }),
    {
        let field = Field { name, value };
        proof {
            lemma_members_push(fields@, field);
        }
        fields.push(field);
    }

    fn push_ttl<'a>(fields: &mut Vec<Field<'a>>, ttl: Option<i32>)
        ensures
            members(final(fields)@) == members(old(fields)@) + ttl_member(ttl),
    {
        match ttl {
            Some(seconds) => {
                Client::push_field(fields, "ttl", FieldValue::Integer(seconds));
                assert(members(old(fields)@).push(
                    Member { name: "ttl"@, value: FieldValue::Integer(seconds) },
                ) =~= members(old(fields)@) + ttl_member::<'a>(ttl));
            },
            None => {
                assert(members(fields@) =~= members(fields@) + ttl_member::<'a>(ttl));
            },
        }
    }

    fn endpoint(&self, path: &str) -> (r: String)
        ensures
            r@ == self@.base_url + path@,
    {
        String::from_str(self.base_url.as_str()).concat(path)
    }

    /// The request for a new token. It needs no token of the client and sends
    /// none; the challenge token goes into the body where one is given.
    pub fn generate<'a>(&'a self, turnstile_token: Option<&'a str>) -> (r: Result<
        Request<'a>,
        Error,
    >)
        ensures
            r matches Ok(request) && request.consists_of(
                Method::Post,
                self@.base_url + "/api/generate"@,
                None,
                Some(generate_body(turnstile_token)),
            ),
    {
        let mut fields: Vec<Field<'a>> = Vec::new();
        assert(members(fields@) =~= Seq::empty());
        if let Some(challenge) = turnstile_token {
            Client::push_field(&mut fields, "turnstileToken", FieldValue::Text(challenge));
        }
        assert(members(fields@) =~= generate_body(turnstile_token));
        Ok(
            Request {
                method: Method::Post,
                url: self.endpoint("/api/generate"),
                token: None,
                body: Body::Object(fields),
            },
        )
    }

    /// The request that stores a document, with its time to live where one is
    /// given. Without a token nothing is to be sent.
    pub fn store<'a>(&'a self, data: &'a Value, ttl: Option<i32>) -> (r: Result<Request<'a>, Error>)
        ensures
            self@.token is None ==> r == Err::<Request<'a>, Error>(Error::MissingToken),
            self@.token is Some ==> (r matches Ok(request) && request.consists_of(
                Method::Post,
                self@.base_url + "/api/store"@,
                self@.token,
                Some(store_body(data, ttl)),
            )),
    {
        match self.token() {
            None => Err(Error::MissingToken),
            Some(token) => {
                let mut fields: Vec<Field<'a>> = Vec::new();
                assert(members(fields@) =~= Seq::empty());
                Client::push_field(&mut fields, "data", FieldValue::Document(data));
                Client::push_ttl(&mut fields, ttl);
                assert(members(fields@) =~= store_body(data, ttl));
                Ok(
                    Request {
                        method: Method::Post,
                        url: self.endpoint("/api/store"),
                        token: Some(token),
                        body: Body::Object(fields),
                    },
                )
            },
        }
    }

    /// The request that fetches the stored document. Without a token nothing
    /// is to be sent.
    pub fn retrieve<'a>(&'a self) -> (r: Result<Request<'a>, Error>)
        ensures
            self@.token is None ==> r == Err::<Request<'a>, Error>(Error::MissingToken),
            self@.token is Some ==> (r matches Ok(request) && request.consists_of(
                Method::Get,
                self@.base_url + "/api/retrieve"@,
                self@.token,
                None,
            )),
    {
        match self.token() {
            None => Err(Error::MissingToken),
            Some(token) => Ok(
                Request {
                    method: Method::Get,
                    url: self.endpoint("/api/retrieve"),
                    token: Some(token),
                    body: Body::Empty,
                },
            ),
        }
    }

    /// The request that removes the stored document. Without a token nothing
    /// is to be sent.
    pub fn delete<'a>(&'a self) -> (r: Result<Request<'a>, Error>)
        ensures
            self@.token is None ==> r == Err::<Request<'a>, Error>(Error::MissingToken),
            self@.token is Some ==> (r matches Ok(request) && request.consists_of(
                Method::Delete,
                self@.base_url + "/api/delete"@,
                self@.token,
                None,
            )),
    {
        match self.token() {
            None => Err(Error::MissingToken),
            Some(token) => Ok(
                Request {
                    method: Method::Delete,
                    url: self.endpoint("/api/delete"),
                    token: Some(token),
                    body: Body::Empty,
                },
            ),
        }
    }

    /// The request that updates part of the stored document. `version` is the
    /// version that the caller read; the service compares it with its own.
    /// Without a token nothing is to be sent.
    pub fn patch<'a>(&'a self, version: i32, patch: &'a PatchOperations, ttl: Option<i32>) -> (r:
        Result<Request<'a>, Error>)
        ensures
            self@.token is None ==> r == Err::<Request<'a>, Error>(Error::MissingToken),
            self@.token is Some ==> (r matches Ok(request) && request.consists_of(
                Method::Patch,
                self@.base_url + "/api/store"@,
                self@.token,
                Some(patch_body(version, patch, ttl)),
            )),
    {
        match self.token() {
            None => Err(Error::MissingToken),
            Some(token) => {
                let mut fields: Vec<Field<'a>> = Vec::new();
                assert(members(fields@) =~= Seq::empty());
                Client::push_field(&mut fields, "version", FieldValue::Integer(version));
                Client::push_field(&mut fields, "patch", FieldValue::Patch(patch));
                Client::push_ttl(&mut fields, ttl);
                assert(members(fields@) =~= patch_body(version, patch, ttl));
                Ok(
                    Request {
                        method: Method::Patch,
                        url: self.endpoint("/api/store"),
                        token: Some(token),
                        body: Body::Object(fields),
                    },
                )
            },
        }
    }

    /// The request that reads the event log. The options that are present
    /// become query parameters, in the order limit, before, since, type.
    /// Without a token nothing is to be sent.
    pub fn history<'a>(&'a self, options: &HistoryOptions) -> (r: Result<Request<'a>, Error>)
        ensures
            self@.token is None ==> r == Err::<Request<'a>, Error>(Error::MissingToken),
            self@.token is Some ==> (r matches Ok(request) && request.consists_of(
                Method::Get,
                history_url(self@.base_url, options),
                self@.token,
                None,
            )),
    {
        let token = match self.token() {
            None => {
                return Err(Error::MissingToken);
            },
            Some(token) => token,
        };
        let mut url: String = self.endpoint("/api/history");
        let mut query: Vec<String> = Vec::new();
        if let Some(limit) = options.limit {
            let numeral: String = format_i32(limit);
            query.push(String::from_str("limit=").concat(numeral.as_str()));
        }
        if let Some(before) = options.before {
            let numeral: String = format_i32(before);
            query.push(String::from_str("before=").concat(numeral.as_str()));
        }
        if let Some(since) = &options.since {
            query.push(String::from_str("since=").concat(since.as_str()));
        }
        if let Some(type_filter) = &options.type_filter {
            query.push(String::from_str("type=").concat(type_filter.as_str()));
        }
        proof {
            assert(texts(query@) =~= history_query(options));
        }
        if query.len() > 0 {
            let parameters: String = join(&query, "&");
            url.append("?");
            url.append(parameters.as_str());
        }
        Ok(Request { method: Method::Get, url, token: Some(token), body: Body::Empty })
    }

    /// The request that submits a batch. A batch holds from one to a hundred
    /// operations; any other is refused and nothing is to be sent. The
    /// operations name their own tokens, so the client's token is not needed
    /// and not sent.
    pub fn batch<'a>(&'a self, operations: Vec<BatchOperation>) -> (r: Result<Request<'a>, Error>)
        ensures
            operations@.len() == 0 ==> (r matches Err(Error::Validation(reason)) && reason@
                == "At least one operation required"@),
            operations@.len() > MAX_BATCH_OPERATIONS ==> (r matches Err(Error::Validation(reason))
                && reason@ == "Maximum 100 operations per batch"@),
            1 <= operations@.len() <= MAX_BATCH_OPERATIONS ==> (r matches Ok(request)
                && request.consists_of(
                Method::Post,
                self@.base_url + "/api/batch"@,
                None,
                Some(batch_body(operations)),
            )),
    {
        if operations.len() == 0 {
            return Err(Error::Validation(String::from_str("At least one operation required")));
        }
        if operations.len() > MAX_BATCH_OPERATIONS {
            return Err(Error::Validation(String::from_str("Maximum 100 operations per batch")));
        }
        let mut fields: Vec<Field<'a>> = Vec::new();
        assert(members(fields@) =~= Seq::empty());
        Client::push_field(&mut fields, "operations", FieldValue::Operations(operations));
        assert(members(fields@) =~= batch_body(operations));
        Ok(
            Request {
                method: Method::Post,
                url: self.endpoint("/api/batch"),
                token: None,
                body: Body::Object(fields),
            },
        )
    }

    /// The message that an error body reports, where it reports one.
    pub fn error_message(body: &[u8]) -> (r: Option<String>)
        ensures
            r matches Some(message) ==> reported_error(body@) == Some(message@),
            r is None ==> reported_error(body@) is None,
    {
        match parse(body) {
            None => None,
            Some(document) => match member(&document, "error") {
                None => None,
                Some(found) => match text(found) {
                    None => None,
                    Some(message) => Some(String::from_str(message)),
                },
            },
        }
    }

    /// Turns what came back into the operation's result. `payload` is the body
    /// decoded as the operation's payload, or the decoder's complaint; it is
    /// read only on a success status. The body itself is read only on another
    /// status, for the error that it reports.
    pub fn handle_response<T>(status: StatusCode, payload: Result<T, String>, body: &[u8]) -> (r:
        Result<T, Error>)
        ensures
            response_outcome(status, payload, reported_error(body@), r),
    {
        if status.is_success() {
            Client::resolve(status, payload, None)
        } else {
            Client::resolve(status, payload, Client::error_message(body))
        }
    }

    /// The operation's result from a status, the decoded payload and the
    /// message that the error body reported.
    pub fn resolve<T>(
        status: StatusCode,
        payload: Result<T, String>,
        error_message: Option<String>,
    ) -> (r: Result<T, Error>)
        ensures
            response_outcome(
                status,
                payload,
                match error_message {
                    Some(m) => Some(m@),
                    None => None,
                },
                r,
            ),
    {
        if status.is_success() {
            match payload {
                Ok(value) => Ok(value),
                Err(cause) => Err(Error::Request(cause)),
            }
        } else {
            let message: String = match error_message {
                Some(m) => m,
                None => {
                    let shown: String = status.to_text();
                    String::from_str("HTTP ").concat(shown.as_str())
                },
            };
            Err(Error::Api { status, message })
        }
    }
}

/// Without options the URL of the event log has no query.
pub proof fn lemma_history_url_without_options(base_url: Seq<char>, options: &HistoryOptions)
    requires
        options.limit is None,
        options.before is None,
        options.since is None,
        options.type_filter is None,
    ensures
        history_url(base_url, options) == base_url + "/api/history"@,
{
    assert(history_query(options) =~= Seq::<Seq<char>>::empty());
}

/// With a limit and nothing else the query of the event log is the limit
/// alone: `limit=` and the numeral of the limit.
pub proof fn lemma_history_url_with_limit_only(base_url: Seq<char>, options: &HistoryOptions)
    requires
        options.limit is Some,
        options.before is None,
        options.since is None,
        options.type_filter is None,
    ensures
        history_url(base_url, options) == base_url + "/api/history"@ + "?"@ + ("limit="@ + decimal(
            options.limit->Some_0 as int,
        )),
{
    let parameter = "limit="@ + decimal(options.limit->Some_0 as int);
    assert(history_query(options) =~= seq![parameter]);
    assert(joined(seq![parameter], "&"@) == parameter);
}

/// Whatever the body of a failed exchange holds, the outcome is an API error
/// with the status that came back; a payload is never handed out for it.
pub proof fn lemma_failure_status_is_api_error<T>(
    status: StatusCode,
    payload: Result<T, String>,
    error_message: Option<Seq<char>>,
    outcome: Result<T, Error>,
)
    requires
        !status.success(),
        response_outcome(status, payload, error_message, outcome),
    ensures
        outcome matches Err(Error::Api { status: s, .. }) && s == status,
{
}

/// The fallback message names the status: after the word "HTTP" and a space
/// stands the numeral of the status code.
pub proof fn lemma_fallback_message_names_status(status: StatusCode)
    ensures
        fallback_message(status).len() > 5 + decimal_nat(status@ as nat).len(),
        fallback_message(status).subrange(0, 5) == "HTTP "@,
        fallback_message(status).subrange(5, 5 + decimal_nat(status@ as nat).len() as int)
            == decimal_nat(status@ as nat),
{
    reveal_strlit("HTTP ");
    lemma_status_text_starts_with_code(status@);
    let prefix = "HTTP "@;
    let shown = status_text(status@);
    let numeral = decimal_nat(status@ as nat);
    assert(prefix.len() == 5);
    assert((prefix + shown).subrange(0, 5) == prefix);
    assert((prefix + shown).subrange(5, 5 + numeral.len() as int) == shown.subrange(
        0,
        numeral.len() as int,
    ));
}

} // verus!
