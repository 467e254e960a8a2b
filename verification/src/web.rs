//! The decisions of the request layer: which operation a request asks for,
//! and the reply that each result is answered with.

use vstd::prelude::*;
use vstd::string::*;
use crate::error::{AppError, Classification, ErrorView};
use crate::service::{Account, AccountService, Balance};
use crate::dao::number_text;

verus! {

/// The operation that a request asks for.
#[derive(Clone, Copy, Debug, PartialEq, Eq, Structural)]
pub enum Route {
    AdjustBalance,
    CreateAccount,
    ReadAccount,
}

/// A named string of a JSON object.
#[derive(Debug)]
pub struct Field {
    pub name: String,
    pub value: String,
}

/// What is sent back to the caller.
#[derive(Debug)]
pub struct Reply {
    pub status: u16,
    pub content_type: Option<String>,
    pub body: Option<String>,
}

/// `s` without the run of `c` that it ends in.
pub open spec fn trimmed_end(s: Seq<char>, c: char) -> Seq<char>
    decreases s.len(),
{
    if s.len() > 0 && s.last() == c {
        trimmed_end(s.drop_last(), c)
    } else {
        s
    }
}

/// Whether `s` ends in `suffix`.
pub open spec fn has_suffix(s: Seq<char>, suffix: Seq<char>) -> bool {
    s.len() >= suffix.len() && s.subrange(s.len() - suffix.len(), s.len() as int) == suffix
}

/// The operation that a request with the given path and method asks for: an
/// adjustment where the path, trailing slashes apart, ends in `/balance`;
/// else a create for a POST, and a read for any other method.
pub open spec fn route_of(path: Seq<char>, is_post: bool) -> Route {
    if has_suffix(trimmed_end(path, '/'), "/balance"@) {
        Route::AdjustBalance
    } else if is_post {
        Route::CreateAccount
    } else {
        Route::ReadAccount
    }
}

/// The names and values of a list of fields.
pub open spec fn field_views(fields: Seq<Field>) -> Seq<(Seq<char>, Seq<char>)> {
    fields.map_values(|f: Field| (f.name@, f.value@))
}

/// The text that `serde_json` writes for the object with the given string
/// fields.
pub uninterp spec fn json_object(fields: Seq<(Seq<char>, Seq<char>)>) -> Seq<char>;

#[verifier::external_type_specification]
#[verifier::external_body]
pub struct ExJsonError(serde_json::Error);

/// Calls `str::trim_end_matches` with a character: the result is the text
/// without the run of that character that it ends in.
#[verifier::external_body]
fn trim_end<'a>(s: &'a str, c: char) -> (trimmed: &'a str)
    ensures
        trimmed@ == trimmed_end(s@, c),
{
    s.trim_end_matches(c)
}

/// Calls `str::ends_with` with a text: whether the one ends in the other.
#[verifier::external_body]
fn ends_with(s: &str, suffix: &str) -> (ends: bool)
    ensures
        ends == has_suffix(s@, suffix@),
{
    s.ends_with(suffix)
}

/// Fills a `serde_json::Map` with the fields as strings and calls
/// `serde_json::to_string` on the object. An object whose keys and values
/// are strings is always written, and the result is the text that
/// `serde_json` writes for those fields.
#[verifier::external_body]
fn json_object_text(fields: &Vec<Field>) -> (text: Result<String, serde_json::Error>)
    ensures
        text is Ok,
        text matches Ok(t) ==> t@ == json_object(field_views(fields@)),
{
    let mut object = serde_json::Map::new();
    for f in fields.iter() {
        object.insert(f.name.clone(), serde_json::Value::String(f.value.clone()));
    }
    serde_json::to_string(&serde_json::Value::Object(object))
}

/// Calls `serde_json::Error`'s `to_string`. Nothing is claimed of the text.
#[verifier::external_body]
fn json_error_text(err: &serde_json::Error) -> (text: String) {
    err.to_string()
}

/// `reply` carries the given status and, as JSON, the given fields.
pub open spec fn is_json_reply(reply: Reply, status: u16, fields: Seq<(Seq<char>, Seq<char>)>) -> bool {
    &&& reply.status == status
    &&& reply.content_type matches Some(t) && t@ == "application/json"@
    &&& reply.body matches Some(b) && b@ == json_object(fields)
}

/// The fields of the reply to an adjustment.
pub open spec fn balance_fields(balance: Balance) -> Seq<(Seq<char>, Seq<char>)> {
    seq![("balance"@, number_text(balance.balance@))]
}

/// The fields of the reply to a read.
pub open spec fn account_fields(account: Account) -> Seq<(Seq<char>, Seq<char>)> {
    seq![("accountId"@, account.account_id@), ("balance"@, number_text(account.balance@))]
}

/// The fields of the reply to a request that a business rule rejected.
pub open spec fn error_fields(message: Seq<char>) -> Seq<(Seq<char>, Seq<char>)> {
    seq![("error"@, message)]
}

/// The name of the path parameter that holds the account identifier.
pub fn account_id_parameter() -> (name: &'static str)
    ensures
        name@ == "accountId"@,
{
    "accountId"
}

/// The account identifier of a request, whose absence is a validation
/// failure.
pub fn get_account_id(path_parameter: Option<&str>) -> (id: Result<String, AppError>)
    ensures
        match path_parameter {
            Some(p) => id matches Ok(s) && s@ == p@,
            None => id matches Err(e) && e@ == ErrorView::Business(
                "missing account id"@,
                Classification::Validation,
            ),
        },
{
    match path_parameter {
        Some(p) => Ok(p.to_owned()),
        None => Err(AppError::bad_request_str("missing account id")),
    }
}

/// The payload of a request. A payload that could not be read, or none at
/// all, is a validation failure.
pub fn from_payload<D>(payload: Result<Option<D>, String>) -> (result: Result<D, AppError>)
    ensures
        match payload {
            Ok(Some(p)) => result == Ok::<D, AppError>(p),
            Ok(None) => result matches Err(e) && e@ == ErrorView::Business(
                "missing payload"@,
                Classification::Validation,
            ),
            Err(cause) => result matches Err(e) && e@ == ErrorView::Business(
                "invalid payload: "@ + cause@,
                Classification::Validation,
            ),
        },
{
    match payload {
        Ok(Some(p)) => Ok(p),
        Ok(None) => Err(AppError::bad_request_str("missing payload")),
        Err(cause) => Err(AppError::bad_request("invalid payload: ".to_owned().concat(cause.as_str()))),
    }
}

/// The fields written as JSON, which string fields always are.
fn json_text(fields: &Vec<Field>) -> (written: Result<String, String>)
    ensures
        written is Ok,
        written matches Ok(text) ==> text@ == json_object(field_views(fields@)),
{
    match json_object_text(fields) {
        Ok(text) => Ok(text),
        Err(err) => Err(json_error_text(&err)),
    }
}

/// The reply for the outcome of writing a body as JSON: for a body that was
/// written, the given status, the JSON content type and that body; for one
/// that was not, no reply but the cause, unchanged.
pub fn json_reply(status_code: u16, written: Result<String, String>) -> (result: Result<Reply, String>)
    ensures
        match written {
            Ok(body) => result matches Ok(reply) && reply.status == status_code && reply.body
                == Some(body) && (reply.content_type matches Some(t) && t@
                == "application/json"@),
            Err(cause) => result == Err::<Reply, String>(cause),
        },
{
    match written {
        Ok(body) => Ok(
            Reply {
                status: status_code,
                content_type: Some("application/json".to_owned()),
                body: Some(body),
            },
        ),
        Err(cause) => Err(cause),
    }
}

/// A reply with the given status that carries the fields as JSON. There is
/// always one.
pub fn to_json(status_code: u16, fields: &Vec<Field>) -> (result: Result<Reply, AppError>)
    ensures
        result is Ok,
        result matches Ok(reply) ==> is_json_reply(reply, status_code, field_views(fields@)),
{
    match json_reply(status_code, json_text(fields)) {
        Ok(reply) => Ok(reply),
        Err(cause) => Err(AppError::internal_s(cause)),
    }
}

/// A reply with status 200 that carries the fields as JSON. There is always
/// one.
pub fn to_json_ok(fields: &Vec<Field>) -> (result: Result<Reply, AppError>)
    ensures
        result is Ok,
        result matches Ok(reply) ==> is_json_reply(reply, 200, field_views(fields@)),
{
    to_json(200, fields)
}

/// The reply to a create that succeeded: status 201 and nothing else.
pub fn empty_created_response() -> (reply: Reply)
    ensures
        reply.status == 201,
        reply.content_type.is_none(),
        reply.body.is_none(),
{
    Reply { status: 201, content_type: None, body: None }
}

/// The reply to a request that a business rule rejected: the status of the
/// rejection and its message as JSON. There is always one.
pub fn serialise_error_to_json(status_code: u16, message: String) -> (result: Result<Reply, String>)
    ensures
        result is Ok,
        result matches Ok(reply) ==> is_json_reply(reply, status_code, error_fields(message@)),
{
    let mut fields: Vec<Field> = Vec::new();
    fields.push(Field { name: "error".to_owned(), value: message });
    assert(field_views(fields@) =~= error_fields(message@));
    json_reply(status_code, json_text(&fields))
}

/// Finds the operation for a request and writes the replies.
pub struct RequestRouter {
    pub account_service: AccountService,
}

impl RequestRouter {
    pub fn new(account_service: AccountService) -> (router: Self)
        ensures
            router.account_service == account_service,
    {
        Self { account_service }
    }

    /// The ledger that this router serves.
    pub fn service(&self) -> (service: &AccountService)
        ensures
            *service == self.account_service,
    {
        &self.account_service
    }

    /// The operation that a request with the given path and method asks for.
    pub fn route(&self, path: &str, is_post: bool) -> (route: Route)
        ensures
            route == route_of(path@, is_post),
    {
        if ends_with(trim_end(path, '/'), "/balance") {
            Route::AdjustBalance
        } else if is_post {
            Route::CreateAccount
        } else {
            Route::ReadAccount
        }
    }

    /// The reply to an adjustment that succeeded: status 200 and the balance
    /// as JSON. There is always one.
    pub fn balance_reply(&self, balance: &Balance) -> (result: Result<Reply, AppError>)
        requires
            balance.balance.wf(),
        ensures
            result is Ok,
            result matches Ok(reply) ==> is_json_reply(reply, 200, balance_fields(*balance)),
    {
        let mut fields: Vec<Field> = Vec::new();
        fields.push(Field { name: "balance".to_owned(), value: balance.balance.render() });
        assert(field_views(fields@) =~= balance_fields(*balance));
        to_json_ok(&fields)
    }

    /// The reply to a read that succeeded: status 200 and the account as
    /// JSON. There is always one.
    pub fn account_reply(&self, account: &Account) -> (result: Result<Reply, AppError>)
        requires
            account.balance.wf(),
        ensures
            result is Ok,
            result matches Ok(reply) ==> is_json_reply(reply, 200, account_fields(*account)),
    {
        let mut fields: Vec<Field> = Vec::new();
        fields.push(Field { name: "accountId".to_owned(), value: account.account_id.clone() });
        fields.push(Field { name: "balance".to_owned(), value: account.balance.render() });
        assert(field_views(fields@) =~= account_fields(*account));
        to_json_ok(&fields)
    }
}

/// Turns the outcome of a routed request into what the runtime is handed.
pub struct RequestHandler {
    pub router: RequestRouter,
}

impl RequestHandler {
    pub fn new(router: RequestRouter) -> (handler: Self)
        ensures
            handler.router == router,
    {
        Self { router }
    }

    /// The router that this handler answers for.
    pub fn router(&self) -> (router: &RequestRouter)
        ensures
            *router == self.router,
    {
        &self.router
    }

    /// A reply is passed on as it is. A business rejection is always
    /// answered with a reply that carries its status and its message as
    /// JSON. An internal failure is handed to the runtime as its cause, and
    /// no reply is written for it.
    pub fn handle_request(&self, routed: Result<Reply, AppError>) -> (result: Result<Reply, String>)
        ensures
            match routed {
                Ok(reply) => result == Ok::<Reply, String>(reply),
                Err(AppError::Internal(cause)) => result == Err::<Reply, String>(cause),
                Err(AppError::Business(message, class)) => result is Ok && is_json_reply(
                    result->Ok_0,
                    class.spec_status_code(),
                    error_fields(message@),
                ),
            },
    {
        match routed {
            Ok(reply) => Ok(reply),
            Err(AppError::Internal(cause)) => Err(cause),
            Err(AppError::Business(message, class)) => serialise_error_to_json(
                class.status_code(),
                message,
            ),
        }
    }
}

/// The handler for a ledger.
pub fn create_request_handler(account_service: AccountService) -> (handler: RequestHandler)
    ensures
        handler.router.account_service == account_service,
{
    RequestHandler::new(RequestRouter::new(account_service))
}

} // verus!
