//! The client: logging in, and asking as the user who is logged in.
//!
//! Nothing here touches the network. Each operation gives an exchange that is still to be
//! made: it holds the [`Request`] to send and, once it is told the [`Response`] that came
//! back, gives the operation's result.

use vstd::prelude::*;
use vstd::string::StringExecFns;
use crate::address::{url_join, Address, AddressView};
use crate::channel::{Channel, ChannelId};
use crate::json::{
    entry_is_at, no_entries, object, printing, put, read, reading, to_text, Decode, Encode, Json,
    JsonError, JsonFault, JsonView,
};
use crate::post::{CreatePost, Post, PostCollection, PostId};
use crate::team::{Team, TeamId};
use crate::text::{decimal, escaped, push_decimal, push_escaped, same_name, same_text};
use crate::user::UserParam;
use crate::wire::{
    first_header, header_text, header_text_is_visible, is_visible_char, is_visible_text, text_of,
    Method, Request, RequestView, Response,
};

verus! {

/// What the server writes when it refuses a request.
#[derive(Debug, PartialEq, Eq)]
pub struct ErrorBody {
    pub id: String,
    pub message: String,
    pub request_id: String,
    pub status_code: i64,
    pub is_oath: bool,
}

/// The mathematical value of an [`ErrorBody`].
pub struct ErrorBodyView {
    pub id: Seq<char>,
    pub message: Seq<char>,
    pub request_id: Seq<char>,
    pub status_code: i64,
    pub is_oath: bool,
}

impl DeepView for ErrorBody {
    type V = ErrorBodyView;

    open spec fn deep_view(&self) -> ErrorBodyView {
        ErrorBodyView {
            id: self.id@,
            message: self.message@,
            request_id: self.request_id@,
            status_code: self.status_code,
            is_oath: self.is_oath,
        }
    }
}

/// A refusal is an object that holds each of its fields under the field's name. Other
/// entries are passed over.
impl Decode for ErrorBody {
    open spec fn decoded(value: JsonView) -> Option<ErrorBodyView> {
        let id = value.text_field("id"@);
        let message = value.text_field("message"@);
        let request_id = value.text_field("request_id"@);
        let status_code = value.integer_field("status_code"@);
        let is_oath = value.bool_field("is_oath"@);
        if id is Some && message is Some && request_id is Some && status_code is Some
            && is_oath is Some {
            Some(
                ErrorBodyView {
                    id: id.unwrap(),
                    message: message.unwrap(),
                    request_id: request_id.unwrap(),
                    status_code: status_code.unwrap(),
                    is_oath: is_oath.unwrap(),
                },
            )
        } else {
            None
        }
    }

    fn decode(value: &Json) -> (record: Option<ErrorBody>) {
        Some(
            ErrorBody {
                id: value.text_field("id")?,
                message: value.text_field("message")?,
                request_id: value.text_field("request_id")?,
                status_code: value.integer_field("status_code")?,
                is_oath: value.bool_field("is_oath")?,
            },
        )
    }
}

/// A refusal is written as an object with each of its fields under the field's name.
impl Encode for ErrorBody {
    open spec fn encoded(record: ErrorBodyView) -> JsonView {
        JsonView::Object(
            seq![
                ("id"@, JsonView::String(record.id)),
                ("message"@, JsonView::String(record.message)),
                ("request_id"@, JsonView::String(record.request_id)),
                ("status_code"@, JsonView::Int(record.status_code)),
                ("is_oath"@, JsonView::Bool(record.is_oath)),
            ],
        )
    }

    fn encode(&self) -> (value: Json) {
        let mut entries = no_entries();
        put(&mut entries, "id", Json::String(self.id.clone()));
        put(&mut entries, "message", Json::String(self.message.clone()));
        put(&mut entries, "request_id", Json::String(self.request_id.clone()));
        put(&mut entries, "status_code", Json::Int(self.status_code));
        put(&mut entries, "is_oath", Json::Bool(self.is_oath));
        let value = object(entries);
        assert(value@->Object_0 =~= Self::encoded(self.deep_view())->Object_0);
        value
    }
}

/// What is written for a refusal is read as that refusal.
pub proof fn error_body_round_trip(record: ErrorBodyView)
    ensures
        ErrorBody::decoded(ErrorBody::encoded(record)) == Some(record),
{
    reveal_strlit("id");
    reveal_strlit("message");
    reveal_strlit("request_id");
    reveal_strlit("status_code");
    reveal_strlit("is_oath");
    let entries = ErrorBody::encoded(record)->Object_0;
    assert("id"@.len() == 2
        && "message"@.len() == 7
        && "request_id"@.len() == 10
        && "status_code"@.len() == 11
        && "is_oath"@.len() == 7);
    assert("is_oath"@[0] == 'i'
        && "message"@[0] == 'm');
    entry_is_at(entries, 0);
    entry_is_at(entries, 1);
    entry_is_at(entries, 2);
    entry_is_at(entries, 3);
    entry_is_at(entries, 4);
}

/// Why an operation failed.
#[derive(Debug, PartialEq, Eq)]
pub enum Error {
    /// The exchange with the server failed. The library does not make the exchange, so
    /// this is for the one who makes it to report.
    Hyper(String),
    /// The request could not be put together. Here too it is the one who sends the
    /// request who can tell.
    Http(String),
    /// A JSON document could not be read or written.
    Json(JsonError),
    /// A path could not be resolved against the server's URL.
    Url(url::ParseError),
    /// The server's URL is not an `https` URL.
    InvalidUrl,
    /// The server refused the request.
    Response(ErrorBody),
    /// The response to the login carries no session token, or an empty one.
    Fixme,
    /// The session token is no text.
    InvalidStr,
}

impl From<url::ParseError> for Error {
    fn from(error: url::ParseError) -> (wrapped: Error) {
        Error::Url(error)
    }
}

impl vstd::std_specs::convert::FromSpecImpl<url::ParseError> for Error {
    open spec fn obeys_from_spec() -> bool {
        true
    }

    open spec fn from_spec(error: url::ParseError) -> Error {
        Error::Url(error)
    }
}

impl From<JsonError> for Error {
    fn from(error: JsonError) -> (wrapped: Error) {
        Error::Json(error)
    }
}

impl vstd::std_specs::convert::FromSpecImpl<JsonError> for Error {
    open spec fn obeys_from_spec() -> bool {
        true
    }

    open spec fn from_spec(error: JsonError) -> Error {
        Error::Json(error)
    }
}

/// The mathematical value of an [`Error`].
pub enum ErrorView {
    Hyper(Seq<char>),
    Http(Seq<char>),
    Json(JsonFault),
    Url(url::ParseError),
    InvalidUrl,
    Response(ErrorBodyView),
    Fixme,
    InvalidStr,
}

impl View for Error {
    type V = ErrorView;

    open spec fn view(&self) -> ErrorView {
        match self {
            Error::Hyper(message) => ErrorView::Hyper(message@),
            Error::Http(message) => ErrorView::Http(message@),
            Error::Json(error) => ErrorView::Json(error@),
            Error::Url(fault) => ErrorView::Url(*fault),
            Error::InvalidUrl => ErrorView::InvalidUrl,
            Error::Response(body) => ErrorView::Response(body.deep_view()),
            Error::Fixme => ErrorView::Fixme,
            Error::InvalidStr => ErrorView::InvalidStr,
        }
    }
}

/// An outcome with what was made and the error taken by their values.
pub open spec fn seen<T: View>(outcome: Result<T, Error>) -> Result<T::V, ErrorView> {
    match outcome {
        Ok(made) => Ok(made@),
        Err(error) => Err(error@),
    }
}

/// An outcome with the record and the error taken by their values.
pub open spec fn seen_record<T: DeepView>(outcome: Result<T, Error>) -> Result<
    <T as DeepView>::V,
    ErrorView,
> {
    match outcome {
        Ok(record) => Ok(record.deep_view()),
        Err(error) => Err(error@),
    }
}

/// What is sent to log in.
#[derive(PartialEq, Eq)]
pub struct Login {
    pub login_id: String,
    pub password: String,
    pub token: Option<String>,
}

/// The mathematical value of a [`Login`].
pub struct LoginView {
    pub login_id: Seq<char>,
    pub password: Seq<char>,
    pub token: Option<Seq<char>>,
}

impl DeepView for Login {
    type V = LoginView;

    open spec fn deep_view(&self) -> LoginView {
        LoginView {
            login_id: self.login_id@,
            password: self.password@,
            token: self.token.deep_view(),
        }
    }
}

/// A login is written as an object with its three fields, each under its name; where
/// there is no token for a second factor, `null` stands in its place.
impl Encode for Login {
    open spec fn encoded(record: LoginView) -> JsonView {
        JsonView::Object(
            seq![
                ("login_id"@, JsonView::String(record.login_id)),
                ("password"@, JsonView::String(record.password)),
                (
                    "token"@,
                    match record.token {
                        Some(token) => JsonView::String(token),
                        None => JsonView::Null,
                    },
                ),
            ],
        )
    }

    fn encode(&self) -> (value: Json) {
        let mut entries = no_entries();
        put(&mut entries, "login_id", Json::String(self.login_id.clone()));
        put(&mut entries, "password", Json::String(self.password.clone()));
        put(
            &mut entries,
            "token",
            match &self.token {
                Some(token) => Json::String(token.clone()),
                None => Json::Null,
            },
        );
        let value = object(entries);
        assert(value@->Object_0 =~= Self::encoded(self.deep_view())->Object_0);
        value
    }
}

/// A point in time: the milliseconds since the start of 1970.
#[derive(Debug, Clone, Copy, PartialEq, Eq)]
pub struct UnixTimeMs(pub u64);

/// Which posts of a channel to get.
#[derive(Debug, PartialEq, Eq)]
pub struct PaginationParameters {
    /// The page, counted from 0.
    pub page: usize,
    /// How many posts a page holds.
    pub per_page: usize,
    /// Only posts that changed after this time.
    pub since: Option<UnixTimeMs>,
    /// Only posts before this one.
    pub before: Option<PostId>,
    /// Only posts after this one.
    pub after: Option<PostId>,
}

/// The mathematical value of a [`PaginationParameters`].
pub struct PaginationParametersView {
    pub page: nat,
    pub per_page: nat,
    pub since: Option<nat>,
    pub before: Option<Seq<char>>,
    pub after: Option<Seq<char>>,
}

impl View for PaginationParameters {
    type V = PaginationParametersView;

    open spec fn view(&self) -> PaginationParametersView {
        PaginationParametersView {
            page: self.page as nat,
            per_page: self.per_page as nat,
            since: match self.since {
                Some(time) => Some(time.0 as nat),
                None => None,
            },
            before: self.before.deep_view(),
            after: self.after.deep_view(),
        }
    }
}

impl Default for PaginationParameters {
    /// The first page, of sixty posts, with nothing left out.
    fn default() -> (parameters: PaginationParameters)
        ensures
            parameters@ == (PaginationParametersView {
                page: 0,
                per_page: 60,
                since: None,
                before: None,
                after: None,
            }),
    {
        PaginationParameters { page: 0, per_page: 60, since: None, before: None, after: None }
    }
}

/// The parameters as the query of a URL: the page and its size, then whichever of the
/// three others there are, each under its name.
pub open spec fn query(parameters: PaginationParametersView) -> Seq<char> {
    "?page="@ + decimal(parameters.page) + "&per_page="@ + decimal(parameters.per_page) + (
    match parameters.since {
        Some(time) => "&since="@ + decimal(time),
        None => Seq::empty(),
    }) + (match parameters.before {
        Some(id) => "&before="@ + escaped(id),
        None => Seq::empty(),
    }) + (match parameters.after {
        Some(id) => "&after="@ + escaped(id),
        None => Seq::empty(),
    })
}

impl PaginationParameters {
    /// Appends the parameters, as the query of a URL, to a path.
    pub fn push_query(&self, path: &mut String)
        ensures
            final(path)@ == old(path)@ + query(self@),
    {
        let ghost start = path@;
        let ghost fixed = "?page="@ + decimal(self@.page) + "&per_page="@ + decimal(
            self@.per_page,
        );
        path.append("?page=");
        push_decimal(path, self.page as u64);
        path.append("&per_page=");
        push_decimal(path, self.per_page as u64);
        assert(path@ =~= start + fixed);
        let ghost since = match self@.since {
            Some(time) => "&since="@ + decimal(time),
            None => Seq::empty(),
        };
        match &self.since {
            Some(time) => {
                path.append("&since=");
                push_decimal(path, time.0);
            },
            None => {},
        }
        assert(path@ =~= start + (fixed + since));
        let ghost before = match self@.before {
            Some(id) => "&before="@ + escaped(id),
            None => Seq::empty(),
        };
        match &self.before {
            Some(id) => {
                path.append("&before=");
                push_escaped(path, id.0.as_str());
            },
            None => {},
        }
        assert(path@ =~= start + (fixed + since + before));
        let ghost after = match self@.after {
            Some(id) => "&after="@ + escaped(id),
            None => Seq::empty(),
        };
        match &self.after {
            Some(id) => {
                path.append("&after=");
                push_escaped(path, id.0.as_str());
            },
            None => {},
        }
        assert(path@ =~= start + (fixed + since + before + after));
    }
}

/// The token of a session: what the server gave at the login to tell the user by.
#[derive(PartialEq, Eq)]
pub struct SessionToken(String);

impl View for SessionToken {
    type V = Seq<char>;

    closed spec fn view(&self) -> Seq<char> {
        self.0@
    }
}

/// Whether a text can be the token of a session: it is not empty, and it can stand as the
/// value of a header.
pub open spec fn is_token(text: Seq<char>) -> bool {
    text.len() > 0 && is_visible_text(text)
}

impl SessionToken {
    /// A token is never empty, and can stand as the value of a header.
    #[verifier::type_invariant]
    closed spec fn is_well_formed(self) -> bool {
        is_token(self.0@)
    }

    pub fn as_str(&self) -> (text: &str)
        ensures
            text@ == self@,
            text@.len() > 0,
            is_visible_text(text@),
    {
        proof {
            use_type_invariant(self);
        }
        self.0.as_str()
    }
}

impl Clone for SessionToken {
    fn clone(&self) -> (copy: SessionToken)
        ensures
            copy@ == self@,
    {
        proof {
            use_type_invariant(self);
        }
        SessionToken(self.0.clone())
    }
}

/// The value of the `Authorization` header that carries `token`.
pub open spec fn bearer(token: Seq<char>) -> Seq<char> {
    "Bearer "@ + token
}

/// With a token that can stand as the value of a header, the `Authorization` header that
/// carries it has such a value.
pub proof fn bearer_is_visible(token: Seq<char>)
    requires
        is_visible_text(token),
    ensures
        is_visible_text(bearer(token)),
{
    reveal_strlit("Bearer ");
    let whole = bearer(token);
    assert forall|i: int| 0 <= i < whole.len() implies is_visible_char(#[trigger] whole[i]) by {
        if i >= 7 {
            assert(whole[i] == token[i - 7]);
        }
    }
}

/// The request that the rest describes, given how its URL resolved: the request where
/// the URL resolved, and else the fault that was met in resolving it.
pub open spec fn requested(
    joined: Result<AddressView, url::ParseError>,
    method: Method,
    authorization: Option<Seq<char>>,
    body: Option<Seq<char>>,
) -> Result<RequestView, ErrorView> {
    match joined {
        Ok(url) => Ok(RequestView { method, url, authorization, body }),
        Err(fault) => Err(ErrorView::Url(fault)),
    }
}

/// Puts a request together once its URL has been resolved, or reports the fault that was
/// met in resolving it.
pub fn request_to(
    joined: Result<Address, url::ParseError>,
    method: Method,
    authorization: Option<String>,
    body: Option<String>,
) -> (outcome: Result<Request, Error>)
    ensures
        seen(outcome) == requested(
            crate::address::seen(joined),
            method,
            authorization.deep_view(),
            body.deep_view(),
        ),
{
    match joined {
        Ok(url) => Ok(Request { method, url, authorization, body }),
        Err(e) => Err(Error::from(e)),
    }
}

/// What knows where the server is, and says what to send there.
#[derive(Debug, PartialEq, Eq)]
pub struct HttpClient {
    base_url: Address,
}

impl View for HttpClient {
    type V = AddressView;

    closed spec fn view(&self) -> AddressView {
        self.base_url@
    }
}

impl Clone for HttpClient {
    fn clone(&self) -> (copy: HttpClient)
        ensures
            copy@ == self@,
    {
        proof {
            use_type_invariant(self);
        }
        HttpClient { base_url: self.base_url.clone() }
    }
}

impl HttpClient {
    /// The server is reached over `https`.
    #[verifier::type_invariant]
    closed spec fn is_encrypted(self) -> bool {
        self.base_url@.scheme == "https"@
    }

    /// The URL against which paths are resolved, an `https` URL.
    pub fn base_url(&self) -> (base: &Address)
        ensures
            base@ == self@,
            base@.scheme == "https"@,
    {
        proof {
            use_type_invariant(self);
        }
        &self.base_url
    }

    /// Resolves a path against the URL of the server.
    fn resolve(&self, path: &str) -> (joined: Result<Address, url::ParseError>)
        ensures
            crate::address::seen(joined) == url_join(self@.text, path@),
    {
        proof {
            use_type_invariant(self);
            https_is_no_file();
        }
        self.base_url.join(path)
    }

    /// The request that posts `body` to `path` in nobody's name.
    pub fn post_unauthenticated(&self, path: &str, body: String) -> (outcome: Result<
        Request,
        Error,
    >)
        ensures
            seen(outcome) == requested(
                url_join(self@.text, path@),
                Method::Post,
                None,
                Some(body@),
            ),
    {
        request_to(self.resolve(path), Method::Post, None, Some(body))
    }

    /// The request that posts `body` to `path` in the name of the session.
    pub fn post(&self, path: &str, session_token: &SessionToken, body: String) -> (outcome:
        Result<Request, Error>)
        ensures
            seen(outcome) == requested(
                url_join(self@.text, path@),
                Method::Post,
                Some(bearer(session_token@)),
                Some(body@),
            ),
            is_token(session_token@),
            is_visible_text(bearer(session_token@)),
    {
        let authorization = String::from_str("Bearer ").concat(session_token.as_str());
        proof {
            bearer_is_visible(session_token@);
        }
        request_to(self.resolve(path), Method::Post, Some(authorization), Some(body))
    }

    /// The request that gets `path` in the name of the session.
    pub fn get(&self, path: &str, session_token: &SessionToken) -> (outcome: Result<
        Request,
        Error,
    >)
        ensures
            seen(outcome) == requested(
                url_join(self@.text, path@),
                Method::Get,
                Some(bearer(session_token@)),
                None,
            ),
            is_token(session_token@),
            is_visible_text(bearer(session_token@)),
    {
        let authorization = String::from_str("Bearer ").concat(session_token.as_str());
        proof {
            bearer_is_visible(session_token@);
        }
        request_to(self.resolve(path), Method::Get, Some(authorization), None)
    }
}

/// `https` is not `file`.
proof fn https_is_no_file()
    ensures
        "https"@ != "file"@,
{
    reveal_strlit("https");
    reveal_strlit("file");
    assert("https"@.len() == 5 && "file"@.len() == 4);
}

/// A client that has not logged in yet.
#[derive(Debug, PartialEq, Eq)]
pub struct UnauthenticatedClient {
    http: HttpClient,
}

impl View for UnauthenticatedClient {
    type V = AddressView;

    closed spec fn view(&self) -> AddressView {
        self.http@
    }
}

/// A client that has logged in.
#[derive(PartialEq, Eq)]
pub struct Client {
    http: HttpClient,
    session_token: SessionToken,
}

/// The mathematical value of a [`Client`].
pub struct ClientView {
    /// The URL against which paths are resolved.
    pub base: AddressView,
    /// The token of the session.
    pub token: Seq<char>,
}

impl View for Client {
    type V = ClientView;

    closed spec fn view(&self) -> ClientView {
        ClientView { base: self.http@, token: self.session_token@ }
    }
}

impl Clone for Client {
    /// A second handle on the same session: it asks as the first one does.
    fn clone(&self) -> (copy: Client)
        ensures
            copy@ == self@,
    {
        Client { http: self.http.clone(), session_token: self.session_token.clone() }
    }
}

/// A login that is under way: the request has been put together, the response is awaited.
#[derive(PartialEq, Eq)]
pub struct PendingLogin {
    http: HttpClient,
    request: Request,
}

/// The mathematical value of a [`PendingLogin`].
pub struct PendingLoginView {
    /// The URL against which the client resolves paths.
    pub base: AddressView,
    /// The request to send.
    pub request: RequestView,
}

impl View for PendingLogin {
    type V = PendingLoginView;

    closed spec fn view(&self) -> PendingLoginView {
        PendingLoginView { base: self.http@, request: self.request@ }
    }
}

/// An operation that is under way: the request has been put together, the response, which
/// is to hold a `D`, is awaited.
pub struct Pending<D> {
    request: Request,
    expected: core::marker::PhantomData<D>,
}

impl<D> View for Pending<D> {
    type V = RequestView;

    closed spec fn view(&self) -> RequestView {
        self.request@
    }
}

/// The client for the server at `url`: there is one where the URL is an `https` URL and
/// `/api/v4/` resolves against it to an `https` URL, which is then the client's base.
pub open spec fn connecting(url: AddressView) -> Result<AddressView, ErrorView> {
    if url.scheme != "https"@ {
        Err(ErrorView::InvalidUrl)
    } else {
        match url_join(url.text, "/api/v4/"@) {
            Err(fault) => Err(ErrorView::Url(fault)),
            Ok(base) => if base.scheme != "https"@ {
                Err(ErrorView::InvalidUrl)
            } else {
                Ok(base)
            },
        }
    }
}

/// The login that is under way once `login` is to be sent by a client with the base
/// `base`: the login is posted to `users/login`, as JSON and in nobody's name.
pub open spec fn logging_in(base: AddressView, login: LoginView) -> Result<
    PendingLoginView,
    ErrorView,
> {
    match printing::<Login>(login) {
        Err(fault) => Err(ErrorView::Json(fault)),
        Ok(body) => match requested(
            url_join(base.text, "users/login"@),
            Method::Post,
            None,
            Some(body),
        ) {
            Ok(request) => Ok(PendingLoginView { base, request }),
            Err(error) => Err(error),
        },
    }
}

/// The client that a response with the headers `headers` makes of the one who logged in
/// at `base`. The token of the session is what the first header called `token` holds:
/// without such a header, or with an empty one, nobody is logged in; nor with one that
/// is no text. The status and the body have no say in it.
pub open spec fn logged_in(base: AddressView, headers: Seq<(Seq<char>, Seq<u8>)>) -> Result<
    ClientView,
    ErrorView,
> {
    match first_header(headers, "token"@) {
        None => Err(ErrorView::Fixme),
        Some(value) => if value.len() == 0 {
            Err(ErrorView::Fixme)
        } else {
            match header_text(value) {
                Some(token) => Ok(ClientView { base, token }),
                None => Err(ErrorView::InvalidStr),
            }
        },
    }
}

/// What the response to an operation comes to, where its body is to hold a `D`: the
/// record, or why there is none.
pub open spec fn answered<D: Decode>(body: Seq<u8>) -> Result<<D as DeepView>::V, ErrorView> {
    match reading::<D>(body) {
        Ok(record) => Ok(record),
        Err(fault) => Err(ErrorView::Json(fault)),
    }
}

impl UnauthenticatedClient {
    /// A client for the server at `url`, which has to be an `https` URL. Paths are
    /// resolved against `/api/v4/` on that server.
    pub fn new(url: Address) -> (made: Result<UnauthenticatedClient, Error>)
        ensures
            seen(made) == connecting(url@),
            url@.scheme != "https"@ ==> made == Err::<UnauthenticatedClient, Error>(
                Error::InvalidUrl,
            ),
    {
        if !same_text(url.scheme(), "https") {
            return Err(Error::InvalidUrl);
        }
        proof {
            https_is_no_file();
        }
        match url.join("/api/v4/") {
            Ok(base_url) => {
                if !same_text(base_url.scheme(), "https") {
                    return Err(Error::InvalidUrl);
                }
                Ok(UnauthenticatedClient { http: HttpClient { base_url } })
            },
            Err(e) => Err(Error::from(e)),
        }
    }

    /// Starts to log in: gives the login that is under way, with the request to post to
    /// `users/login`. The client is used up, whatever comes of it.
    pub fn authenticate(self, login_id: String, password: String, token: Option<String>) -> (
        started: Result<PendingLogin, Error>)
        ensures
            seen(started) == logging_in(
                self@,
                LoginView { login_id: login_id@, password: password@, token: token.deep_view() },
            ),
    {
        let login = Login { login_id, password, token };
        let body = match to_text(&login) {
            Ok(body) => body,
            Err(e) => {
                return Err(Error::from(e));
            },
        };
        match self.http.post_unauthenticated("users/login", body) {
            Ok(request) => Ok(PendingLogin { http: self.http, request }),
            Err(e) => Err(e),
        }
    }
}

impl PendingLogin {
    /// The request to send.
    pub fn request(&self) -> (request: &Request)
        ensures
            request@ == self@.request,
    {
        &self.request
    }

    /// Ends the login with the response that came back. The session token is what the
    /// first header called `token` holds: without such a header, or with an empty one, the
    /// login fails with [`Error::Fixme`], with one that is no text with
    /// [`Error::InvalidStr`]. Neither the status nor the body is looked at.
    pub fn complete(self, response: &Response) -> (ended: Result<Client, Error>)
        ensures
            seen(ended) == logged_in(self@.base, response.headers.deep_view()),
            ended matches Ok(client) ==> client@.wf(),
    {
        let value = match response.header("token") {
            Some(value) => value,
            None => {
                return Err(Error::Fixme);
            },
        };
        assert(value.deep_view() =~= value@);
        if value.len() == 0 {
            return Err(Error::Fixme);
        }
        match text_of(value.as_slice()) {
            Some(token) => {
                proof {
                    header_text_is_visible(value@);
                }
                Ok(Client { http: self.http, session_token: SessionToken(token) })
            },
            None => Err(Error::InvalidStr),
        }
    }
}

impl<D: Decode> Pending<D> {
    /// The request to send.
    pub fn request(&self) -> (request: &Request)
        ensures
            request@ == self@,
    {
        &self.request
    }

    /// Ends the operation with the response that came back: reads its body as a `D`.
    /// The status is not looked at.
    pub fn complete(self, response: &Response) -> (ended: Result<D, Error>)
        ensures
            seen_record(ended) == answered::<D>(response.body@),
    {
        match read::<D>(response.body.as_slice()) {
            Ok(record) => Ok(record),
            Err(e) => Err(Error::from(e)),
        }
    }
}

/// The path of the teams of a user.
pub open spec fn teams_path(user: Seq<char>) -> Seq<char> {
    "users/"@ + user + "/teams"@
}

/// The path of the channels that a user has in a team.
pub open spec fn channels_path(user: Seq<char>, team: Seq<char>) -> Seq<char> {
    "users/"@ + user + "/teams/"@ + team + "/channels"@
}

/// The path of the posts of a channel, with the query that says which of them.
pub open spec fn posts_path(channel: Seq<char>, parameters: PaginationParametersView) -> Seq<
    char,
> {
    "channels/"@ + channel + "/posts"@ + query(parameters)
}

impl ClientView {
    /// The token is one: not empty, and fit to stand as the value of a header.
    pub open spec fn wf(self) -> bool {
        is_token(self.token)
    }

    /// The request by which the client asks for `path`: it carries the token of the
    /// session as a bearer. Where the path does not resolve, there is the fault instead.
    pub open spec fn asking(self, method: Method, path: Seq<char>, body: Option<Seq<char>>)
        -> Result<RequestView, ErrorView> {
        requested(url_join(self.base.text, path), method, Some(bearer(self.token)), body)
    }

    /// The request by which the client posts a record to `path`, written as JSON.
    pub open spec fn posting<T: Encode>(self, path: Seq<char>, record: <T as DeepView>::V)
        -> Result<RequestView, ErrorView> {
        match printing::<T>(record) {
            Err(fault) => Err(ErrorView::Json(fault)),
            Ok(body) => self.asking(Method::Post, path, Some(body)),
        }
    }
}

impl Client {
    /// The text by which a client shows itself. It gives away neither the server nor the
    /// token.
    pub fn fmt(&self) -> (text: String)
        ensures
            text@ == "MattermostClient"@,
    {
        String::from_str("MattermostClient")
    }

    /// What says what to send to the server.
    pub fn http(&self) -> (http: &HttpClient)
        ensures
            http@ == self@.base,
    {
        &self.http
    }

    /// The token of the session.
    pub fn session_token(&self) -> (token: &SessionToken)
        ensures
            token@ == self@.token,
            self@.wf(),
    {
        proof {
            use_type_invariant(&self.session_token);
        }
        &self.session_token
    }

    /// Starts to get the teams of a user.
    pub fn get_user_teams(&self, user_id: UserParam) -> (started: Result<
        Pending<Vec<Team>>,
        Error,
    >)
        ensures
            seen(started) == self@.asking(Method::Get, teams_path(user_id.text()), None),
    {
        let path = String::from_str("users/").concat(user_id.as_str()).concat("/teams");
        self.get(path.as_str())
    }

    /// Starts to get the channels that a user has in a team.
    pub fn get_team_channels_for_user(&self, team_id: &TeamId, user_id: UserParam) -> (started:
        Result<Pending<Vec<Channel>>, Error>)
        ensures
            seen(started) == self@.asking(
                Method::Get,
                channels_path(user_id.text(), team_id.deep_view()),
                None,
            ),
    {
        let path = String::from_str("users/").concat(user_id.as_str()).concat("/teams/").concat(
            team_id.as_str(),
        ).concat("/channels");
        self.get(path.as_str())
    }

    /// Starts to get posts of a channel: those that the parameters say.
    pub fn get_channel_posts(&self, channel_id: ChannelId, params: PaginationParameters) -> (
        started: Result<Pending<PostCollection>, Error>)
        ensures
            seen(started) == self@.asking(
                Method::Get,
                posts_path(channel_id.deep_view(), params@),
                None,
            ),
    {
        let mut path = String::from_str("channels/").concat(channel_id.as_str()).concat(
            "/posts",
        );
        params.push_query(&mut path);
        self.get(path.as_str())
    }

    /// Starts to make a post: the request posts it, written as JSON, to `posts`.
    pub fn create_post(&self, post: CreatePost) -> (started: Result<Pending<Post>, Error>)
        ensures
            seen(started) == self@.posting::<CreatePost>("posts"@, post.deep_view()),
    {
        let body = match to_text(&post) {
            Ok(body) => body,
            Err(e) => {
                return Err(Error::from(e));
            },
        };
        match self.http.post("posts", &self.session_token, body) {
            Ok(request) => Ok(Pending { request, expected: core::marker::PhantomData }),
            Err(e) => Err(e),
        }
    }

    /// Starts to get what stands at `path`, which is to be a `D`.
    pub fn get<D: Decode>(&self, path: &str) -> (started: Result<Pending<D>, Error>)
        ensures
            seen(started) == self@.asking(Method::Get, path@, None),
    {
        match self.http.get(path, &self.session_token) {
            Ok(request) => Ok(Pending { request, expected: core::marker::PhantomData }),
            Err(e) => Err(e),
        }
    }
}

/// Whoever logged in with a response whose first `token` header is the text `token`, and
/// not empty, asks with that token from then on: each request of the client that the
/// login made carries `Bearer `, then `token`, and nothing else as its authorization. What
/// else the response to the login held, its status and its body, has no part in it.
pub proof fn requests_carry_the_token(
    base: AddressView,
    headers: Seq<(Seq<char>, Seq<u8>)>,
    token: Seq<char>,
    method: Method,
    path: Seq<char>,
    body: Option<Seq<char>>,
)
    requires
        token.len() > 0,
        first_header(headers, "token"@) matches Some(value) && header_text(value) == Some(token),
    ensures
        logged_in(base, headers) matches Ok(client) && client.token == token && client.wf() && (
        client.asking(method, path, body) matches Ok(request) ==> request.authorization == Some(
            "Bearer "@ + token,
        )),
{
    let value = first_header(headers, "token"@).unwrap();
    header_text_is_visible(value);
}

/// A client never holds an empty token: whatever the response to a login, the client
/// that it makes, if it makes one, has a token of at least one character.
pub proof fn no_client_without_token(base: AddressView, headers: Seq<(Seq<char>, Seq<u8>)>)
    ensures
        logged_in(base, headers) matches Ok(client) ==> client.token.len() > 0 && client.wf(),
{
    match first_header(headers, "token"@) {
        Some(value) => {
            if header_text(value) is Some {
                header_text_is_visible(value);
            }
        },
        None => {},
    }
}

/// A response without a header called `token` logs nobody in, whatever else it holds.
pub proof fn no_token_no_client(base: AddressView, headers: Seq<(Seq<char>, Seq<u8>)>)
    requires
        forall|i: int| 0 <= i < headers.len() ==> !same_name(#[trigger] headers[i].0, "token"@),
    ensures
        first_header(headers, "token"@) is None,
        logged_in(base, headers) == Err::<ClientView, ErrorView>(ErrorView::Fixme),
    decreases headers.len(),
{
    if headers.len() > 0 {
        assert(!same_name(headers[0].0, "token"@));
        assert forall|i: int| 0 <= i < headers.drop_first().len() implies !same_name(
            #[trigger] headers.drop_first()[i].0,
            "token"@,
        ) by {
            assert(headers.drop_first()[i] == headers[i + 1]);
        }
        no_token_no_client(base, headers.drop_first());
    }
}

} // verus!
