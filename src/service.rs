use vstd::prelude::*;
use vstd::string::*;

use crate::credential::LoginRequest;
use crate::json::{encode_login, login_json};

verus! {

pub const STATUS_OK: u16 = 200;

pub const STATUS_BAD_REQUEST: u16 = 400;

pub const STATUS_NOT_FOUND: u16 = 404;

/// Where a request goes: the login handler, or nowhere.
#[derive(Clone, Copy, Debug, PartialEq, Eq, Structural)]
pub enum Route {
    Login,
    NotFound,
}

/// The media type of a reply's body.
#[derive(Clone, Copy, Debug, PartialEq, Eq, Structural)]
pub enum ContentType {
    Json,
    PlainText,
}

/// A request body that did not decode into a credential record (malformed
/// JSON, a missing field, a field that is not a string). `message` is the
/// decoder's description of what went wrong.
#[derive(Debug, PartialEq, Eq)]
pub struct DeserializationError {
    pub message: String,
}

/// What is sent back for one request.
#[derive(Debug, PartialEq, Eq)]
pub struct Response {
    pub status: u16,
    pub content_type: ContentType,
    pub body: String,
}

impl Response {
    pub open spec fn view(&self) -> (u16, ContentType, Seq<char>) {
        (self.status, self.content_type, self.body@)
    }
}

/// A decoded request body, in plain values: the record's two fields, or the
/// decoder's message.
pub type DecodedView = Result<(Seq<char>, Seq<char>), Seq<char>>;

pub open spec fn decoded_view(d: &Result<LoginRequest, DeserializationError>) -> DecodedView {
    match d {
        Ok(req) => Ok((req.username@, req.password@)),
        Err(e) => Err(e.message@),
    }
}

pub open spec fn login_method() -> Seq<char> {
    seq!['P', 'O', 'S', 'T']
}

pub open spec fn login_path() -> Seq<char> {
    seq!['/', 'l', 'o', 'g', 'i', 'n']
}

/// Exact match on method and path; everything else is not found.
pub open spec fn route_of(method: Seq<char>, path: Seq<char>) -> Route {
    if method == login_method() && path == login_path() {
        Route::Login
    } else {
        Route::NotFound
    }
}

/// The login handler's reply: the record echoed back as JSON with status
/// 200, or status 400 with the decoder's message.
pub open spec fn login_reply(decoded: DecodedView) -> (u16, ContentType, Seq<char>) {
    match decoded {
        Ok((username, password)) => (200, ContentType::Json, login_json(username, password)),
        Err(message) => (400, ContentType::PlainText, message),
    }
}

/// The reply to a request with this method, path and decoded body.
pub open spec fn reply_of(method: Seq<char>, path: Seq<char>, decoded: DecodedView) -> (
    u16,
    ContentType,
    Seq<char>,
) {
    match route_of(method, path) {
        Route::Login => login_reply(decoded),
        Route::NotFound => (404, ContentType::PlainText, Seq::empty()),
    }
}

/// Picks the route for a request line.
pub fn route(method: &str, path: &str) -> (r: Route)
    ensures
        r == route_of(method@, path@),
{
    proof {
        reveal_strlit("POST");
        reveal_strlit("/login");
    }
    assert("POST"@ =~= login_method());
    assert("/login"@ =~= login_path());
    let is_post = String::from_str(method) == String::from_str("POST");
    let is_login = String::from_str(path) == String::from_str("/login");
    if is_post && is_login {
        Route::Login
    } else {
        Route::NotFound
    }
}

/// The login handler: echoes a decoded record, rejects a body that did not
/// decode.
pub fn login(decoded: Result<LoginRequest, DeserializationError>) -> (r: Response)
    ensures
        r@ == login_reply(decoded_view(&decoded)),
{
    match decoded {
        Ok(req) => Response {
            status: STATUS_OK,
            content_type: ContentType::Json,
            body: encode_login(&req),
        },
        Err(e) => Response {
            status: STATUS_BAD_REQUEST,
            content_type: ContentType::PlainText,
            body: e.message,
        },
    }
}

/// The reply to a request that matches no route.
pub fn not_found() -> (r: Response)
    ensures
        r.status == 404,
        r.content_type == ContentType::PlainText,
        r.body@ == Seq::<char>::empty(),
{
    Response { status: STATUS_NOT_FOUND, content_type: ContentType::PlainText, body: String::new() }
}

/// Routes a request and produces its reply.
pub fn respond(method: &str, path: &str, decoded: Result<LoginRequest, DeserializationError>) -> (r:
    Response)
    ensures
        r@ == reply_of(method@, path@, decoded_view(&decoded)),
{
    match route(method, path) {
        Route::Login => login(decoded),
        Route::NotFound => {
            let r = not_found();
            assert(r.body@ =~= Seq::<char>::empty());
            r
        },
    }
}

} // verus!

verus! {

/// A login request whose body decoded to a record gets status 200, a JSON
/// body, and that body is the same record written back.
pub proof fn lemma_login_echoes_record(username: Seq<char>, password: Seq<char>)
    ensures
        reply_of(login_method(), login_path(), Ok((username, password))) == (
            200u16,
            ContentType::Json,
            login_json(username, password),
        ),
{
}

/// A login request whose body did not decode (malformed JSON, a missing
/// field, a field of the wrong type) gets a client-error status, 400.
pub proof fn lemma_undecodable_body_is_client_error(message: Seq<char>)
    ensures
        400 <= reply_of(login_method(), login_path(), Err(message)).0 < 500,
        reply_of(login_method(), login_path(), Err(message)).0 == 400,
{
}

/// The reply depends on the request alone: two replies to the same method,
/// path and body, each meeting the contract of `respond`, are identical,
/// status, media type and every character of the body.
pub proof fn lemma_same_request_same_reply(
    method: Seq<char>,
    path: Seq<char>,
    decoded: DecodedView,
    first: Response,
    second: Response,
)
    requires
        first@ == reply_of(method, path, decoded),
        second@ == reply_of(method, path, decoded),
    ensures
        first.status == second.status,
        first.content_type == second.content_type,
        first.body@ == second.body@,
{
}

/// Two requests answered side by side each get their own record back: the
/// reply to one is fixed by its own body, whatever the other carries.
pub proof fn lemma_each_request_gets_its_own_record(
    first: (Seq<char>, Seq<char>),
    second: (Seq<char>, Seq<char>),
)
    ensures
        reply_of(login_method(), login_path(), Ok(first)).2 == login_json(first.0, first.1),
        reply_of(login_method(), login_path(), Ok(second)).2 == login_json(second.0, second.1),
{
}

} // verus!
