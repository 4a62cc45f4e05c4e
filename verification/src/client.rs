use vstd::prelude::*;

use crate::config::IikoConfig;
use crate::error::{ErrorV, IikoError};
use crate::text::{trim, trim_seq};

verus! {

// ---------------------------------------------------------------------------
// Wire-level data
// ---------------------------------------------------------------------------

/// The HTTP verb of a request.
#[derive(Debug, Clone, Copy, PartialEq, Eq, Structural)]
pub enum HttpMethod {
    Get,
    Post,
    Put,
    Delete,
}

/// One outbound HTTP request, fully assembled: the absolute URL, the query
/// pairs in order, the `Content-Type` header if one is to be sent, and either
/// a form-encoded body, a raw body, or none. The transport sends exactly
/// what stands here and returns a status code with a text body.
#[derive(Debug)]
pub struct HttpRequest {
    pub method: HttpMethod,
    pub url: String,
    pub query: Vec<(String, String)>,
    pub content_type: Option<String>,
    pub form: Option<Vec<(String, String)>>,
    pub body: Option<String>,
}

/// What the transport handed back: a status code and the response body text.
#[derive(Debug)]
pub struct HttpResponse {
    pub status: u16,
    pub body: String,
}

/// A business call as an endpoint wrapper describes it: the verb, the
/// relative path, extra query pairs, and the optional content type and body.
/// The dispatcher adds the session key and the base URL.
#[derive(Debug)]
pub struct VerbRequest {
    pub method: HttpMethod,
    pub path: String,
    pub params: Vec<(String, String)>,
    pub content_type: Option<String>,
    pub form: Option<Vec<(String, String)>>,
    pub body: Option<String>,
}

// ---------------------------------------------------------------------------
// Spec-level model
// ---------------------------------------------------------------------------

/// Spec-level image of an [`HttpRequest`].
pub ghost struct ReqV {
    pub method: HttpMethod,
    pub url: Seq<char>,
    pub query: Seq<(Seq<char>, Seq<char>)>,
    pub content_type: Option<Seq<char>>,
    pub form: Option<Seq<(Seq<char>, Seq<char>)>>,
    pub body: Option<Seq<char>>,
}

/// Spec-level image of an [`HttpResponse`].
pub ghost struct RespV {
    pub status: u16,
    pub body: Seq<char>,
}

/// Spec-level image of a [`VerbRequest`].
pub ghost struct VerbV {
    pub method: HttpMethod,
    pub path: Seq<char>,
    pub params: Seq<(Seq<char>, Seq<char>)>,
    pub content_type: Option<Seq<char>>,
    pub form: Option<Seq<(Seq<char>, Seq<char>)>>,
    pub body: Option<Seq<char>>,
}

/// What is owed once an authentication exchange completes.
pub ghost enum AfterAuthV {
    /// Hand the token back to the caller of `start_authenticate`.
    Return,
    /// Send this business request with the fresh token attached.
    Business(VerbV),
    /// Send the logout request with the fresh token.
    Logout,
}

/// Where the dispatcher stands between operations. `Idle` means the
/// serialization permit is free; every other phase records the single
/// request currently in flight and what to do with its response.
pub ghost enum PhaseV {
    Idle,
    AuthPending { next: AfterAuthV },
    BusinessPending { method: HttpMethod },
    LogoutPending,
}

/// The full spec-level state of a dispatcher: the immutable connection
/// data, the cached session token if any, and the current phase.
pub ghost struct StateV {
    pub base_url: Seq<char>,
    pub login: Seq<char>,
    pub password: Seq<char>,
    pub timeout_secs: u64,
    pub session: Option<Seq<char>>,
    pub phase: PhaseV,
}

/// Spec-level image of a [`Step`].
pub ghost enum StepV {
    Send(ReqV),
    Done(Result<Seq<char>, ErrorV>),
}

impl View for HttpRequest {
    type V = ReqV;

    open spec fn view(&self) -> ReqV {
        ReqV {
            method: self.method,
            url: self.url@,
            query: self.query.deep_view(),
            content_type: self.content_type.deep_view(),
            form: self.form.deep_view(),
            body: self.body.deep_view(),
        }
    }
}

impl View for HttpResponse {
    type V = RespV;

    open spec fn view(&self) -> RespV {
        RespV { status: self.status, body: self.body@ }
    }
}

impl View for VerbRequest {
    type V = VerbV;

    open spec fn view(&self) -> VerbV {
        VerbV {
            method: self.method,
            path: self.path@,
            params: self.params.deep_view(),
            content_type: self.content_type.deep_view(),
            form: self.form.deep_view(),
            body: self.body.deep_view(),
        }
    }
}

/// Spec-level image of a transport outcome: either a response or the
/// transport's own error text.
pub open spec fn event_view(ev: Result<HttpResponse, String>) -> Result<RespV, Seq<char>> {
    match ev {
        Ok(resp) => Ok(resp@),
        Err(msg) => Err(msg@),
    }
}

/// Spec-level image of a dispatcher result.
pub open spec fn outcome_view(r: Result<String, IikoError>) -> Result<Seq<char>, ErrorV> {
    match r {
        Ok(s) => Ok(s@),
        Err(e) => Err(e@),
    }
}

// ---------------------------------------------------------------------------
// The transition relation, as spec functions
// ---------------------------------------------------------------------------

/// A status code counts as success exactly when it lies in the 2xx range.
pub open spec fn spec_is_success_status(status: u16) -> bool {
    200 <= status < 300
}

/// Which statuses a verb accepts as success: GET and DELETE require a 2xx
/// code; POST and PUT additionally accept 200 and 201 explicitly.
pub open spec fn spec_accepts_status(method: HttpMethod, status: u16) -> bool {
    match method {
        HttpMethod::Get => spec_is_success_status(status),
        HttpMethod::Delete => spec_is_success_status(status),
        HttpMethod::Post => spec_is_success_status(status) || status == 200 || status == 201,
        HttpMethod::Put => spec_is_success_status(status) || status == 200 || status == 201,
    }
}

/// The fixed mapping from a non-success status code and the response body
/// to an error of the taxonomy.
pub open spec fn spec_status_error(status: u16, body: Seq<char>) -> ErrorV {
    if status == 400 { ErrorV::BadRequest(body) }
    else if status == 401 { ErrorV::Unauthorized(body) }
    else if status == 403 { ErrorV::Forbidden(body) }
    else if status == 404 { ErrorV::NotFound(body) }
    else if status == 409 { ErrorV::BusinessLogic(body) }
    else if status == 500 { ErrorV::InternalServerError(body) }
    else { ErrorV::Api(body) }
}

/// The base URL, a slash, and the relative path.
pub open spec fn spec_join_url(base: Seq<char>, path: Seq<char>) -> Seq<char> {
    base + seq!['/'] + path
}

/// The authentication exchange: login and credential as a form-encoded POST
/// to the `auth` endpoint.
pub open spec fn spec_auth_request(s: StateV) -> ReqV {
    ReqV {
        method: HttpMethod::Post,
        url: spec_join_url(s.base_url, "auth"@),
        query: seq![],
        content_type: Some("application/x-www-form-urlencoded"@),
        form: Some(seq![("login"@, s.login), ("pass"@, s.password)]),
        body: None,
    }
}

/// A business request with the session token attached as the leading
/// `key` query parameter, ahead of the caller-supplied pairs.
pub open spec fn spec_business_request(s: StateV, q: VerbV, token: Seq<char>) -> ReqV {
    ReqV {
        method: q.method,
        url: spec_join_url(s.base_url, q.path),
        query: seq![("key"@, token)] + q.params,
        content_type: q.content_type,
        form: q.form,
        body: q.body,
    }
}

/// The logout exchange: the session token as a form-encoded POST to the
/// `logout` endpoint.
pub open spec fn spec_logout_request(s: StateV, token: Seq<char>) -> ReqV {
    ReqV {
        method: HttpMethod::Post,
        url: spec_join_url(s.base_url, "logout"@),
        query: seq![],
        content_type: Some("application/x-www-form-urlencoded"@),
        form: Some(seq![("key"@, token)]),
        body: None,
    }
}

/// A plain GET of the given path.
pub open spec fn spec_get_verb(path: Seq<char>) -> VerbV {
    VerbV {
        method: HttpMethod::Get,
        path,
        params: seq![],
        content_type: None,
        form: None,
        body: None,
    }
}

/// A GET of the given path with extra query parameters.
pub open spec fn spec_get_with_params_verb(
    path: Seq<char>,
    params: Seq<(Seq<char>, Seq<char>)>,
) -> VerbV {
    VerbV {
        method: HttpMethod::Get,
        path,
        params,
        content_type: None,
        form: None,
        body: None,
    }
}

/// A POST of the given path carrying an XML body.
pub open spec fn spec_post_xml_verb(path: Seq<char>, body: Seq<char>) -> VerbV {
    VerbV {
        method: HttpMethod::Post,
        path,
        params: seq![],
        content_type: Some("application/xml"@),
        form: None,
        body: Some(body),
    }
}

/// A PUT of the given path carrying an XML body.
pub open spec fn spec_put_xml_verb(path: Seq<char>, body: Seq<char>) -> VerbV {
    VerbV {
        method: HttpMethod::Put,
        path,
        params: seq![],
        content_type: Some("application/xml"@),
        form: None,
        body: Some(body),
    }
}

/// A POST of the given path carrying form-encoded data.
pub open spec fn spec_post_form_verb(path: Seq<char>, form: Seq<(Seq<char>, Seq<char>)>) -> VerbV {
    VerbV {
        method: HttpMethod::Post,
        path,
        params: seq![],
        content_type: Some("application/x-www-form-urlencoded"@),
        form: Some(form),
        body: None,
    }
}

/// A POST of the given path carrying a JSON body, with extra query
/// parameters.
pub open spec fn spec_post_json_verb(
    path: Seq<char>,
    body: Seq<char>,
    params: Seq<(Seq<char>, Seq<char>)>,
) -> VerbV {
    VerbV {
        method: HttpMethod::Post,
        path,
        params,
        content_type: Some("application/json"@),
        form: None,
        body: Some(body),
    }
}

/// A plain DELETE of the given path.
pub open spec fn spec_delete_verb(path: Seq<char>) -> VerbV {
    VerbV {
        method: HttpMethod::Delete,
        path,
        params: seq![],
        content_type: None,
        form: None,
        body: None,
    }
}

/// The same state with the phase reset to idle: the permit is released.
pub open spec fn spec_idle(s: StateV) -> StateV {
    StateV { phase: PhaseV::Idle, ..s }
}

/// Beginning a business call under the permit: with a cached token the
/// business request goes out at once; without one the authentication
/// exchange goes out first and the business call is kept pending.
pub open spec fn spec_start_request(s: StateV, q: VerbV) -> (StateV, ReqV)
    recommends s.phase is Idle,
{
    match s.session {
        Some(token) => (
            StateV { phase: PhaseV::BusinessPending { method: q.method }, ..s },
            spec_business_request(s, q, token),
        ),
        None => (
            StateV { phase: PhaseV::AuthPending { next: AfterAuthV::Business(q) }, ..s },
            spec_auth_request(s),
        ),
    }
}

/// Beginning an explicit authentication under the permit: a cached token is
/// returned at once without any network exchange; otherwise the
/// authentication request goes out.
pub open spec fn spec_start_authenticate(s: StateV) -> (StateV, StepV)
    recommends s.phase is Idle,
{
    match s.session {
        Some(token) => (s, StepV::Done(Ok(token))),
        None => (
            StateV { phase: PhaseV::AuthPending { next: AfterAuthV::Return }, ..s },
            StepV::Send(spec_auth_request(s)),
        ),
    }
}

/// Beginning a logout under the permit: authentication first if no token is
/// cached, then the logout exchange.
pub open spec fn spec_start_logout(s: StateV) -> (StateV, ReqV)
    recommends s.phase is Idle,
{
    match s.session {
        Some(token) => (StateV { phase: PhaseV::LogoutPending, ..s }, spec_logout_request(s, token)),
        None => (
            StateV { phase: PhaseV::AuthPending { next: AfterAuthV::Logout }, ..s },
            spec_auth_request(s),
        ),
    }
}

/// What the authentication exchange yields: a transport failure, a rejection
/// carrying the server's text, an empty trimmed body, or the trimmed token.
pub open spec fn spec_auth_outcome(ev: Result<RespV, Seq<char>>) -> Result<Seq<char>, ErrorV> {
    match ev {
        Err(msg) => Err(ErrorV::Http(msg)),
        Ok(resp) => {
            if !spec_is_success_status(resp.status) {
                Err(ErrorV::Authentication(resp.body))
            } else if trim_seq(resp.body).len() == 0 {
                Err(ErrorV::Authentication("empty token"@))
            } else {
                Ok(trim_seq(resp.body))
            }
        },
    }
}

/// Feeding the transport outcome of the one in-flight request back into the
/// dispatcher: the next request to send, or the finished result. The phase
/// returns to idle on every finishing path.
pub open spec fn spec_on_event(s: StateV, ev: Result<RespV, Seq<char>>) -> (StateV, StepV)
    recommends !(s.phase is Idle),
{
    match s.phase {
        PhaseV::Idle => (s, StepV::Done(Err(ErrorV::Api(Seq::empty())))),
        PhaseV::AuthPending { next } => match spec_auth_outcome(ev) {
            Err(e) => (spec_idle(s), StepV::Done(Err(e))),
            Ok(token) => {
                let s2 = StateV { session: Some(token), ..s };
                match next {
                    AfterAuthV::Return => (spec_idle(s2), StepV::Done(Ok(token))),
                    AfterAuthV::Business(q) => (
                        StateV { phase: PhaseV::BusinessPending { method: q.method }, ..s2 },
                        StepV::Send(spec_business_request(s2, q, token)),
                    ),
                    AfterAuthV::Logout => (
                        StateV { phase: PhaseV::LogoutPending, ..s2 },
                        StepV::Send(spec_logout_request(s2, token)),
                    ),
                }
            },
        },
        PhaseV::BusinessPending { method } => match ev {
            Err(msg) => (spec_idle(s), StepV::Done(Err(ErrorV::Http(msg)))),
            Ok(resp) => {
                if spec_accepts_status(method, resp.status) {
                    (spec_idle(s), StepV::Done(Ok(resp.body)))
                } else {
                    (spec_idle(s), StepV::Done(Err(spec_status_error(resp.status, resp.body))))
                }
            },
        },
        PhaseV::LogoutPending => match ev {
            Err(msg) => (spec_idle(s), StepV::Done(Err(ErrorV::Http(msg)))),
            Ok(resp) => {
                if spec_is_success_status(resp.status) {
                    (
                        StateV { session: None, phase: PhaseV::Idle, ..s },
                        StepV::Done(Ok(trim_seq(resp.body))),
                    )
                } else {
                    (spec_idle(s), StepV::Done(Err(ErrorV::Api(resp.body))))
                }
            },
        },
    }
}

// ---------------------------------------------------------------------------
// The dispatcher
// ---------------------------------------------------------------------------

enum AfterAuth {
    Return,
    Business(VerbRequest),
    Logout,
}

enum Phase {
    Idle,
    AuthPending(AfterAuth),
    BusinessPending(HttpMethod),
    LogoutPending,
}

impl View for AfterAuth {
    type V = AfterAuthV;

    closed spec fn view(&self) -> AfterAuthV {
        match self {
            AfterAuth::Return => AfterAuthV::Return,
            AfterAuth::Business(q) => AfterAuthV::Business(q@),
            AfterAuth::Logout => AfterAuthV::Logout,
        }
    }
}

impl View for Phase {
    type V = PhaseV;

    closed spec fn view(&self) -> PhaseV {
        match self {
            Phase::Idle => PhaseV::Idle,
            Phase::AuthPending(next) => PhaseV::AuthPending { next: next@ },
            Phase::BusinessPending(m) => PhaseV::BusinessPending { method: *m },
            Phase::LogoutPending => PhaseV::LogoutPending,
        }
    }
}

/// What the driver should do next: send the given request and feed the
/// outcome back through `on_event`, or hand the finished result to the
/// caller (the permit is free again).
#[derive(Debug)]
pub enum Step {
    Send(HttpRequest),
    Done(Result<String, IikoError>),
}

impl View for Step {
    type V = StepV;

    open spec fn view(&self) -> StepV {
        match self {
            Step::Send(req) => StepV::Send(req@),
            Step::Done(r) => StepV::Done(outcome_view(*r)),
        }
    }
}

/// The authenticated, serialized request dispatcher.
///
/// It owns the cached session token and the serialization discipline for one
/// client instance: at most one request is in flight at any time, the token
/// is fetched once and reused until it is explicitly cleared, and transport
/// and status failures are mapped onto the error taxonomy.
///
/// The dispatcher itself performs no network activity. Each operation either
/// finishes at once or hands out the single [`HttpRequest`] to send; the
/// driver sends it and feeds the outcome back through [`Self::on_event`].
/// A phase other than idle records the one in-flight request, and every
/// operation that issues a request demands the idle phase, so two requests
/// can never be in flight at once. The driver holds a mutual-exclusion lock
/// around the whole exchange so that concurrent callers queue up.
pub struct SessionDispatcher {
    config: IikoConfig,
    session: Option<String>,
    phase: Phase,
}

impl View for SessionDispatcher {
    type V = StateV;

    closed spec fn view(&self) -> StateV {
        StateV {
            base_url: self.config.base_url@,
            login: self.config.login@,
            password: self.config.password@,
            timeout_secs: self.config.timeout_secs,
            session: self.session.deep_view(),
            phase: self.phase@,
        }
    }
}

/// Whether an HTTP status code is a success (2xx) code.
pub fn is_success_status(status: u16) -> (r: bool)
    ensures
        r == spec_is_success_status(status),
{
    200 <= status && status < 300
}

/// Whether the given verb accepts the given status code as success.
pub fn accepts_status(method: HttpMethod, status: u16) -> (r: bool)
    ensures
        r == spec_accepts_status(method, status),
{
    match method {
        HttpMethod::Get => is_success_status(status),
        HttpMethod::Delete => is_success_status(status),
        HttpMethod::Post => is_success_status(status) || status == 200 || status == 201,
        HttpMethod::Put => is_success_status(status) || status == 200 || status == 201,
    }
}

fn join_url(base: &str, path: &str) -> (r: String)
    ensures
        r@ == spec_join_url(base@, path@),
{
    let mut url = base.to_owned();
    proof { reveal_strlit("/"); }
    url.append("/");
    url.append(path);
    proof {
        assert(url@ =~= base@ + seq!['/'] + path@);
    }
    url
}

fn auth_request(config: &IikoConfig) -> (r: HttpRequest)
    ensures
        r@ == spec_auth_request(StateV {
            base_url: config.base_url@,
            login: config.login@,
            password: config.password@,
            timeout_secs: config.timeout_secs,
            session: None,
            phase: PhaseV::Idle,
        }),
        r@.form == Some(seq![("login"@, config.login@), ("pass"@, config.password@)]),
{
    let url = join_url(config.base_url.as_str(), "auth");
    let mut form: Vec<(String, String)> = Vec::new();
    form.push(("login".to_string(), config.login.clone()));
    form.push(("pass".to_string(), config.password.clone()));
    let r = HttpRequest {
        method: HttpMethod::Post,
        url,
        query: Vec::new(),
        content_type: Some("application/x-www-form-urlencoded".to_string()),
        form: Some(form),
        body: None,
    };
    proof {
        assert(r.query.deep_view() =~= Seq::<(Seq<char>, Seq<char>)>::empty());
        assert(r.form.deep_view() matches Some(f) && f =~= seq![
            ("login"@, config.login@),
            ("pass"@, config.password@),
        ]);
    }
    r
}

fn logout_request(config: &IikoConfig, token: String) -> (r: HttpRequest)
    ensures
        r@.method == HttpMethod::Post,
        r@.url == spec_join_url(config.base_url@, "logout"@),
        r@.query == Seq::<(Seq<char>, Seq<char>)>::empty(),
        r@.content_type == Some("application/x-www-form-urlencoded"@),
        r@.form == Some(seq![("key"@, token@)]),
        r@.body is None,
{
    let ghost tokv = token@;
    let url = join_url(config.base_url.as_str(), "logout");
    let mut form: Vec<(String, String)> = Vec::new();
    form.push(("key".to_string(), token));
    proof {
        assert(form.deep_view() =~~= seq![("key"@, tokv)]);
    }
    let r = HttpRequest {
        method: HttpMethod::Post,
        url,
        query: Vec::new(),
        content_type: Some("application/x-www-form-urlencoded".to_string()),
        form: Some(form),
        body: None,
    };
    proof {
        assert(r.query.deep_view() =~~= Seq::<(Seq<char>, Seq<char>)>::empty());
    }
    r
}

fn business_request(config: &IikoConfig, q: VerbRequest, token: String) -> (r: HttpRequest)
    ensures
        r@.method == q@.method,
        r@.url == spec_join_url(config.base_url@, q@.path),
        r@.query == seq![("key"@, token@)] + q@.params,
        r@.content_type == q@.content_type,
        r@.form == q@.form,
        r@.body == q@.body,
{
    let ghost tokv = token@;
    let ghost qv = q@;
    let url = join_url(config.base_url.as_str(), q.path.as_str());
    let mut query: Vec<(String, String)> = Vec::new();
    query.push(("key".to_string(), token));
    let ghost key_pair: Seq<(Seq<char>, Seq<char>)> = seq![("key"@, tokv)];
    proof {
        assert(query.deep_view() =~~= key_pair);
    }
    let mut params = q.params;
    let n = params.len();
    let mut i: usize = 0;
    while i < n
        invariant
            i <= n,
            n == params.len(),
            params.deep_view() == qv.params,
            query.deep_view() =~~= key_pair + params.deep_view().subrange(0, i as int),
        decreases n - i,
    {
        let k = params[i].0.clone();
        let v = params[i].1.clone();
        let ghost pre_deep = query.deep_view();
        let ghost pre_shallow = query@;
        proof {
            assert((k@, v@) == params.deep_view()[i as int]);
        }
        query.push((k, v));
        proof {
            assert(query@ == pre_shallow.push((k, v)));
            assert forall|j: int| 0 <= j < pre_deep.len() implies query.deep_view()[j]
                == pre_deep[j] by {
                assert(query@[j] == pre_shallow[j]);
            }
            assert(query.deep_view()[pre_deep.len() as int] == (k@, v@));
            assert(query.deep_view() =~= pre_deep + seq![(k@, v@)]);
            assert(params.deep_view().subrange(0, i + 1) =~= params.deep_view().subrange(
                0,
                i as int,
            ) + seq![params.deep_view()[i as int]]);
            assert(query.deep_view() =~= key_pair + params.deep_view().subrange(0, i + 1));
        }
        i = i + 1;
    }
    proof {
        assert(params.deep_view().subrange(0, n as int) =~~= params.deep_view());
        assert(query.deep_view() =~~= key_pair + qv.params);
    }
    let r = HttpRequest {
        method: q.method,
        url,
        query,
        content_type: q.content_type,
        form: q.form,
        body: q.body,
    };
    r
}

impl SessionDispatcher {
    /// A fresh dispatcher for the given configuration: no cached session
    /// token, the serialization permit free.
    pub fn new(config: IikoConfig) -> (r: Self)
        ensures
            r@ == (StateV {
                base_url: config.base_url@,
                login: config.login@,
                password: config.password@,
                timeout_secs: config.timeout_secs,
                session: None,
                phase: PhaseV::Idle,
            }),
    {
        Self { config, session: None, phase: Phase::Idle }
    }

    /// The connection settings the dispatcher was built with.
    pub fn config(&self) -> (r: &IikoConfig)
        ensures
            r.base_url@ == self@.base_url,
            r.login@ == self@.login,
            r.password@ == self@.password,
            r.timeout_secs == self@.timeout_secs,
    {
        &self.config
    }

    /// Whether the serialization permit is free, that is, no request of this
    /// dispatcher is currently in flight.
    pub fn is_idle(&self) -> (r: bool)
        ensures
            r == (self@.phase is Idle),
    {
        match &self.phase {
            Phase::Idle => true,
            _ => false,
        }
    }

    /// Whether a session token is currently cached.
    pub fn has_session(&self) -> (r: bool)
        ensures
            r == (self@.session is Some),
    {
        self.session.is_some()
    }

    /// Clear the cached token without contacting the server; used when the
    /// caller has independently determined that the token is stale.
    pub fn invalidate_session(&mut self)
        ensures
            final(self)@ == (StateV { session: None, ..old(self)@ }),
    {
        self.session = None;
    }

    /// The fixed status-to-error mapping: 400, 401, 403, 404, 409 and 500
    /// each have their own error kind, and every other non-success status
    /// maps to the generic API error; each carries the response body.
    pub fn handle_error_response(status: u16, error_text: String) -> (r: IikoError)
        ensures
            r@ == spec_status_error(status, error_text@),
    {
        if status == 400 { IikoError::BadRequest(error_text) }
        else if status == 401 { IikoError::Unauthorized(error_text) }
        else if status == 403 { IikoError::Forbidden(error_text) }
        else if status == 404 { IikoError::NotFound(error_text) }
        else if status == 409 { IikoError::BusinessLogic(error_text) }
        else if status == 500 { IikoError::InternalServerError(error_text) }
        else { IikoError::Api(error_text) }
    }

    fn cached_session(&self) -> (r: Option<String>)
        ensures
            r.deep_view() == self@.session,
    {
        match &self.session {
            Some(t) => Some(t.clone()),
            None => None,
        }
    }

    /// Begin a business call under the permit. With a cached token the
    /// returned request is the business request itself, the token attached
    /// as the leading `key` query parameter; without one it is the
    /// authentication request, and the business call is kept pending until
    /// the authentication outcome arrives through [`Self::on_event`].
    pub fn start_request(&mut self, q: VerbRequest) -> (r: HttpRequest)
        requires
            old(self)@.phase is Idle,
        ensures
            final(self)@ == spec_start_request(old(self)@, q@).0,
            r@ == spec_start_request(old(self)@, q@).1,
    {
        match self.cached_session() {
            Some(token) => {
                let method = q.method;
                let req = business_request(&self.config, q, token);
                self.phase = Phase::BusinessPending(method);
                req
            },
            None => {
                let req = auth_request(&self.config);
                self.phase = Phase::AuthPending(AfterAuth::Business(q));
                req
            },
        }
    }

    /// Begin an explicit authentication under the permit. A cached token is
    /// returned at once, with no network exchange; otherwise the
    /// authentication request is handed out.
    pub fn start_authenticate(&mut self) -> (r: Step)
        requires
            old(self)@.phase is Idle,
        ensures
            final(self)@ == spec_start_authenticate(old(self)@).0,
            r@ == spec_start_authenticate(old(self)@).1,
    {
        match self.cached_session() {
            Some(token) => Step::Done(Ok(token)),
            None => {
                let req = auth_request(&self.config);
                self.phase = Phase::AuthPending(AfterAuth::Return);
                Step::Send(req)
            },
        }
    }

    /// Begin a logout under the permit: authenticate first if no token is
    /// cached, then call the remote logout endpoint. Only a successful
    /// logout clears the cached token.
    pub fn start_logout(&mut self) -> (r: HttpRequest)
        requires
            old(self)@.phase is Idle,
        ensures
            final(self)@ == spec_start_logout(old(self)@).0,
            r@ == spec_start_logout(old(self)@).1,
    {
        match self.cached_session() {
            Some(token) => {
                let req = logout_request(&self.config, token);
                self.phase = Phase::LogoutPending;
                req
            },
            None => {
                let req = auth_request(&self.config);
                self.phase = Phase::AuthPending(AfterAuth::Logout);
                req
            },
        }
    }

    /// Begin a GET call to the given relative endpoint, with no extra
    /// query parameters.
    pub fn get(&mut self, endpoint: &str) -> (r: HttpRequest)
        requires
            old(self)@.phase is Idle,
        ensures
            final(self)@ == spec_start_request(old(self)@, spec_get_verb(endpoint@)).0,
            r@ == spec_start_request(old(self)@, spec_get_verb(endpoint@)).1,
    {
        let q = VerbRequest {
            method: HttpMethod::Get,
            path: endpoint.to_owned(),
            params: Vec::new(),
            content_type: None,
            form: None,
            body: None,
        };
        proof {
            assert(q@.params =~= spec_get_verb(endpoint@).params);
        }
        self.start_request(q)
    }

    /// Begin a GET call with extra query parameters appended after the
    /// session key.
    pub fn get_with_params(&mut self, endpoint: &str, params: Vec<(String, String)>) -> (r:
        HttpRequest)
        requires
            old(self)@.phase is Idle,
        ensures
            final(self)@ == spec_start_request(
                old(self)@,
                spec_get_with_params_verb(endpoint@, params.deep_view()),
            ).0,
            r@ == spec_start_request(
                old(self)@,
                spec_get_with_params_verb(endpoint@, params.deep_view()),
            ).1,
    {
        let q = VerbRequest {
            method: HttpMethod::Get,
            path: endpoint.to_owned(),
            params,
            content_type: None,
            form: None,
            body: None,
        };
        self.start_request(q)
    }

    /// Begin a POST call carrying an XML body.
    pub fn post_xml(&mut self, endpoint: &str, xml_body: &str) -> (r: HttpRequest)
        requires
            old(self)@.phase is Idle,
        ensures
            final(self)@ == spec_start_request(old(self)@, spec_post_xml_verb(endpoint@, xml_body@)).0,
            r@ == spec_start_request(old(self)@, spec_post_xml_verb(endpoint@, xml_body@)).1,
    {
        let q = VerbRequest {
            method: HttpMethod::Post,
            path: endpoint.to_owned(),
            params: Vec::new(),
            content_type: Some("application/xml".to_string()),
            form: None,
            body: Some(xml_body.to_owned()),
        };
        proof {
            assert(q@.params =~= spec_post_xml_verb(endpoint@, xml_body@).params);
        }
        self.start_request(q)
    }

    /// Begin a PUT call carrying an XML body.
    pub fn put_xml(&mut self, endpoint: &str, xml_body: &str) -> (r: HttpRequest)
        requires
            old(self)@.phase is Idle,
        ensures
            final(self)@ == spec_start_request(old(self)@, spec_put_xml_verb(endpoint@, xml_body@)).0,
            r@ == spec_start_request(old(self)@, spec_put_xml_verb(endpoint@, xml_body@)).1,
    {
        let q = VerbRequest {
            method: HttpMethod::Put,
            path: endpoint.to_owned(),
            params: Vec::new(),
            content_type: Some("application/xml".to_string()),
            form: None,
            body: Some(xml_body.to_owned()),
        };
        proof {
            assert(q@.params =~= spec_put_xml_verb(endpoint@, xml_body@).params);
        }
        self.start_request(q)
    }

    /// Begin a POST call carrying form-encoded data.
    pub fn post_form(&mut self, endpoint: &str, form_data: Vec<(String, String)>) -> (r:
        HttpRequest)
        requires
            old(self)@.phase is Idle,
        ensures
            final(self)@ == spec_start_request(
                old(self)@,
                spec_post_form_verb(endpoint@, form_data.deep_view()),
            ).0,
            r@ == spec_start_request(
                old(self)@,
                spec_post_form_verb(endpoint@, form_data.deep_view()),
            ).1,
    {
        let q = VerbRequest {
            method: HttpMethod::Post,
            path: endpoint.to_owned(),
            params: Vec::new(),
            content_type: Some("application/x-www-form-urlencoded".to_string()),
            form: Some(form_data),
            body: None,
        };
        proof {
            assert(q@.params =~= Seq::<(Seq<char>, Seq<char>)>::empty());
        }
        self.start_request(q)
    }

    /// Begin a POST call carrying a JSON body, with extra query parameters
    /// appended after the session key.
    pub fn post_json(&mut self, endpoint: &str, json_body: &str, query_params: Vec<(String, String)>)
        -> (r: HttpRequest)
        requires
            old(self)@.phase is Idle,
        ensures
            final(self)@ == spec_start_request(
                old(self)@,
                spec_post_json_verb(endpoint@, json_body@, query_params.deep_view()),
            ).0,
            r@ == spec_start_request(
                old(self)@,
                spec_post_json_verb(endpoint@, json_body@, query_params.deep_view()),
            ).1,
    {
        let q = VerbRequest {
            method: HttpMethod::Post,
            path: endpoint.to_owned(),
            params: query_params,
            content_type: Some("application/json".to_string()),
            form: None,
            body: Some(json_body.to_owned()),
        };
        self.start_request(q)
    }

    /// Begin a DELETE call to the given relative endpoint.
    pub fn delete(&mut self, endpoint: &str) -> (r: HttpRequest)
        requires
            old(self)@.phase is Idle,
        ensures
            final(self)@ == spec_start_request(old(self)@, spec_delete_verb(endpoint@)).0,
            r@ == spec_start_request(old(self)@, spec_delete_verb(endpoint@)).1,
    {
        let q = VerbRequest {
            method: HttpMethod::Delete,
            path: endpoint.to_owned(),
            params: Vec::new(),
            content_type: None,
            form: None,
            body: None,
        };
        proof {
            assert(q@.params =~= spec_delete_verb(endpoint@).params);
        }
        self.start_request(q)
    }

    /// Feed back the transport outcome of the one in-flight request. The
    /// returned step is either the next (single) request to send or the
    /// finished result; the phase returns to idle on every finishing path,
    /// so the permit is released whatever the outcome.
    pub fn on_event(&mut self, ev: Result<HttpResponse, String>) -> (r: Step)
        requires
            !(old(self)@.phase is Idle),
        ensures
            final(self)@ == spec_on_event(old(self)@, event_view(ev)).0,
            r@ == spec_on_event(old(self)@, event_view(ev)).1,
    {
        let mut ph = Phase::Idle;
        core::mem::swap(&mut self.phase, &mut ph);
        match ph {
            Phase::Idle => {
                proof {
                    assert(false);
                }
                Step::Done(Err(IikoError::Api(String::new())))
            },
            Phase::AuthPending(next) => match ev {
                Err(msg) => Step::Done(Err(IikoError::Http(msg))),
                Ok(resp) => {
                    if !is_success_status(resp.status) {
                        Step::Done(Err(IikoError::Authentication(resp.body)))
                    } else {
                        let token = trim(resp.body.as_str());
                        if token.as_str().unicode_len() == 0 {
                            Step::Done(Err(IikoError::Authentication("empty token".to_string())))
                        } else {
                            self.session = Some(token.clone());
                            match next {
                                AfterAuth::Return => Step::Done(Ok(token)),
                                AfterAuth::Business(q) => {
                                    let method = q.method;
                                    let req = business_request(&self.config, q, token);
                                    self.phase = Phase::BusinessPending(method);
                                    Step::Send(req)
                                },
                                AfterAuth::Logout => {
                                    let req = logout_request(&self.config, token);
                                    self.phase = Phase::LogoutPending;
                                    Step::Send(req)
                                },
                            }
                        }
                    }
                },
            },
            Phase::BusinessPending(method) => match ev {
                Err(msg) => Step::Done(Err(IikoError::Http(msg))),
                Ok(resp) => {
                    if accepts_status(method, resp.status) {
                        Step::Done(Ok(resp.body))
                    } else {
                        Step::Done(Err(Self::handle_error_response(resp.status, resp.body)))
                    }
                },
            },
            Phase::LogoutPending => match ev {
                Err(msg) => Step::Done(Err(IikoError::Http(msg))),
                Ok(resp) => {
                    if is_success_status(resp.status) {
                        self.session = None;
                        Step::Done(Ok(trim(resp.body.as_str())))
                    } else {
                        Step::Done(Err(IikoError::Api(resp.body)))
                    }
                },
            },
        }
    }
}

} // verus!
