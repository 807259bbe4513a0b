//! The Robot API client: request construction, response checking and the
//! retry policy for idempotent requests.

use vstd::prelude::*;

use crate::credentials::Credentials;
use crate::error::{Error, ErrorView, Result};
use crate::form::encode_form;
use crate::text::{chars_of, push_char, push_str, string_from, trimmed, IntoText};
use crate::transport::{transport_failure, HttpRequest, HttpRequestView, HttpResponse, Method, Transport};

verus! {

/// Default Robot API base URL.
pub const DEFAULT_BASE_URL: &'static str = "https://robot-ws.your-server.de";

// ---------------------------------------------------------------------------
// Error messages from response bodies
// ---------------------------------------------------------------------------

/// At most the first 200 characters of the trimmed body.
pub open spec fn body_snippet(body: Seq<char>) -> Seq<char> {
    let t = crate::text::trim(body);
    if t.len() <= 200 {
        t
    } else {
        t.take(200)
    }
}

/// The message found in the JSON error document, or else the body snippet.
pub fn message_or_snippet(found: Option<String>, body: &str) -> (m: String)
    ensures
        m@ == match found {
            Some(f) => f@,
            None => body_snippet(body@),
        },
{
    match found {
        Some(f) => f,
        None => {
            let t = trimmed(body);
            let chars = chars_of(t.as_str());
            let end: usize = if chars.len() <= 200 {
                chars.len()
            } else {
                200
            };
            let s = string_from(chars.as_slice(), 0, end);
            assert(chars@.subrange(0, end as int) =~= body_snippet(body@));
            s
        },
    }
}

/// The message of an error response with `body`: the text at
/// `error.message` when the body is a JSON document that has one, otherwise
/// the body snippet.
pub open spec fn message_for_body(body: Seq<char>) -> Seq<char> {
    match crate::json::json_error_message(body) {
        Some(m) => m,
        None => body_snippet(body),
    }
}

/// Extracts `error.message` from a Robot API error body, falling back to a
/// snippet of the raw body.
pub fn extract_error_message(body: &str) -> (m: String)
    ensures
        m@ == message_for_body(body@),
{
    let found = crate::json::json_error_message_of(body);
    message_or_snippet(found, body)
}

// ---------------------------------------------------------------------------
// Response status
// ---------------------------------------------------------------------------

/// Whether `status` is a success (2xx).
pub open spec fn is_success(status: u16) -> bool {
    200 <= status < 300
}

/// The error for a non-success `status`: 429 is a rate limit, anything else
/// an API error carrying the status.
pub open spec fn status_error_view(status: u16, message: Seq<char>) -> ErrorView {
    if status == 429 {
        ErrorView::RateLimited { message }
    } else {
        ErrorView::Api { status, message }
    }
}

/// Builds the error for a non-success `status` with the extracted `message`.
pub fn status_error(status: u16, message: String) -> (e: Error)
    ensures
        e@ == status_error_view(status, message@),
{
    if status == 429 {
        Error::RateLimited { message }
    } else {
        Error::Api { status, message }
    }
}

/// What checking `response` gives: the response itself for a 2xx status,
/// otherwise the status error with a message drawn from the body.
pub open spec fn response_checked(response: HttpResponse, r: Result<HttpResponse>) -> bool {
    if is_success(response.status) {
        r == Ok::<HttpResponse, Error>(response)
    } else {
        r matches Err(e) && e@ == status_error_view(response.status, message_for_body(response.body@))
    }
}

/// Checks the status of `response`.
///
/// # Errors
///
/// Returns [`Error::RateLimited`] for HTTP 429 and [`Error::Api`] for any
/// other non-2xx status.
pub fn check_response(response: HttpResponse) -> (r: Result<HttpResponse>)
    ensures
        response_checked(response, r),
{
    if 200 <= response.status && response.status < 300 {
        return Ok(response);
    }
    let message = extract_error_message(response.body.as_str());
    let e = status_error(response.status, message);
    assert(e@ == status_error_view(response.status, message@));
    Err(e)
}

/// How a response is classified, whatever its body: every status from 200 to
/// 299 is a success and hands the response back unchanged; 429 is a rate
/// limit; every other status is an API error carrying that status.
pub proof fn law_status_classes(response: HttpResponse, r: Result<HttpResponse>)
    requires
        response_checked(response, r),
    ensures
        r is Ok <==> 200 <= response.status && response.status <= 299,
        r is Ok ==> r == Ok::<HttpResponse, Error>(response),
        response.status == 429 ==> r matches Err(Error::RateLimited { .. }),
        !(200 <= response.status && response.status <= 299) && response.status != 429 ==> (r matches Err(
            Error::Api { status, .. },
        ) && status == response.status),
{
}

/// What an attempt gives for the transport's `outcome`: a transport failure
/// as it is, a response after its status check.
pub open spec fn attempt_result(outcome: Result<HttpResponse>, r: Result<HttpResponse>) -> bool {
    match outcome {
        Ok(response) => response_checked(response, r),
        Err(e) => r == Err::<HttpResponse, Error>(e),
    }
}

/// The failures a request can end with: a failure of the transport itself,
/// a rate limit, or an API error for a non-2xx status other than 429.
pub open spec fn request_failure(e: ErrorView) -> bool {
    ||| transport_failure(e)
    ||| e is RateLimited
    ||| (e matches ErrorView::Api { status, .. } && !is_success(status) && status != 429)
}

/// What holds of the result of an attempt, whatever the transport gave: a
/// response that comes back is a success, and a failure is one of the
/// request failures.
pub open spec fn checked_outcome(r: Result<HttpResponse>) -> bool {
    match r {
        Ok(response) => is_success(response.status),
        Err(e) => request_failure(e@),
    }
}

/// That `transport` can answer `request`, sent with the `Authorization`
/// header text `authorization`, with `outcome`: the triple is one that its
/// `execute` may produce.
pub open spec fn answers<T: Transport>(
    transport: T,
    request: HttpRequest,
    authorization: Seq<char>,
    outcome: Result<HttpResponse>,
) -> bool {
    exists|h: &str| #[trigger] call_ensures(T::execute, (&transport, &request, h), outcome) && h@ == authorization
}

/// A result with the response dropped.
pub open spec fn discard(r: Result<HttpResponse>) -> Result<()> {
    match r {
        Ok(_) => Ok(()),
        Err(e) => Err(e),
    }
}

// ---------------------------------------------------------------------------
// Retry policy
// ---------------------------------------------------------------------------

/// How often and how patiently idempotent (`GET`) requests are retried after
/// transient transport errors. Delays are in milliseconds.
#[derive(Debug, Clone, Copy, PartialEq, Eq)]
pub struct RetryPolicy {
    /// Total number of attempts, the first included (0 behaves as 1).
    pub max_attempts: u32,
    /// Delay before the first retry; each further retry doubles it.
    pub base_delay_ms: u64,
    /// Upper bound on any single delay.
    pub max_delay_ms: u64,
}

impl Default for RetryPolicy {
    fn default() -> (p: Self)
        ensures
            p.max_attempts == 2 && p.base_delay_ms == 500 && p.max_delay_ms == 4000,
    {
        RetryPolicy { max_attempts: 2, base_delay_ms: 500, max_delay_ms: 4000 }
    }
}

/// `base` doubled `k` times.
pub open spec fn doubled(base: nat, k: nat) -> nat
    decreases k,
{
    if k == 0 {
        base
    } else {
        2 * doubled(base, (k - 1) as nat)
    }
}

/// The smaller of two numbers.
pub open spec fn min_nat(a: nat, b: nat) -> nat {
    if a <= b {
        a
    } else {
        b
    }
}

/// The delay before retry number `k + 1`: the base delay doubled `k` times,
/// capped at the maximum delay.
pub open spec fn backoff_delay(policy: RetryPolicy, k: nat) -> nat {
    min_nat(doubled(policy.base_delay_ms as nat, k), policy.max_delay_ms as nat)
}

proof fn lemma_double_min(x: nat, m: nat)
    ensures
        min_nat(2 * min_nat(x, m), m) == min_nat(2 * x, m),
{
}

impl RetryPolicy {
    /// The delay before retry number `k + 1`, in milliseconds.
    pub fn delay_ms(&self, k: u32) -> (d: u64)
        ensures
            d == backoff_delay(*self, k as nat),
    {
        let max = self.max_delay_ms;
        let mut d: u64 = if self.base_delay_ms <= max {
            self.base_delay_ms
        } else {
            max
        };
        let mut i: u32 = 0;
        while i < k
            invariant
                i <= k,
                max == self.max_delay_ms,
                d as nat == min_nat(doubled(self.base_delay_ms as nat, i as nat), max as nat),
            decreases k - i,
        {
            proof {
                lemma_double_min(doubled(self.base_delay_ms as nat, i as nat), max as nat);
            }
            if d > max / 2 {
                d = max;
            } else {
                d = 2 * d;
            }
            i = i + 1;
        }
        d
    }
}

/// Whether an outcome is a transient failure worth retrying.
pub open spec fn is_transient(outcome: Result<HttpResponse>) -> bool {
    outcome matches Err(Error::Transport(_))
}

/// Progress of one request through the retry policy.
#[derive(Debug, Clone, Copy, PartialEq, Eq)]
pub struct RetryState {
    /// The policy in force.
    pub policy: RetryPolicy,
    /// Whether the request may be repeated (only `GET` is idempotent).
    pub idempotent: bool,
    /// Attempts made so far.
    pub attempts: u32,
}

/// What to do after an attempt.
pub enum Step {
    /// Stop and hand this result to the caller.
    Finish(Result<HttpResponse>),
    /// Wait this many milliseconds, then make another attempt.
    Wait(u64),
}

/// The retry decision after an attempt with `outcome`, from state `s`: the
/// next state, and either the delay before another attempt or the final result.
pub open spec fn retry_next(s: RetryState, outcome: Result<HttpResponse>) -> (
    RetryState,
    Option<nat>,
) {
    let attempts = if s.attempts < u32::MAX {
        (s.attempts + 1) as u32
    } else {
        s.attempts
    };
    let next = RetryState { attempts, ..s };
    if s.idempotent && is_transient(outcome) && attempts < s.policy.max_attempts {
        (next, Some(backoff_delay(s.policy, (attempts - 1) as nat)))
    } else {
        (next, None)
    }
}

impl RetryState {
    /// The state before the first attempt of a request with `method`.
    pub fn start(policy: RetryPolicy, method: Method) -> (s: Self)
        ensures
            s.policy == policy,
            s.idempotent == (method == Method::Get),
            s.attempts == 0,
    {
        let idempotent = match method {
            Method::Get => true,
            _ => false,
        };
        RetryState { policy, idempotent, attempts: 0 }
    }

    /// Records an attempt with `outcome` and decides what comes next.
    pub fn next(&mut self, outcome: Result<HttpResponse>) -> (step: Step)
        ensures
            *final(self) == retry_next(*old(self), outcome).0,
            match step {
                Step::Wait(d) => retry_next(*old(self), outcome).1 == Some(d as nat),
                Step::Finish(r) => retry_next(*old(self), outcome).1 is None && r == outcome,
            },
    {
        if self.attempts < u32::MAX {
            self.attempts = self.attempts + 1;
        }
        let transient = match &outcome {
            Err(Error::Transport(_)) => true,
            _ => false,
        };
        if self.idempotent && transient && self.attempts < self.policy.max_attempts {
            let d = self.policy.delay_ms(self.attempts - 1);
            Step::Wait(d)
        } else {
            Step::Finish(outcome)
        }
    }
}

/// Only idempotent requests are ever retried: `POST` and `DELETE` requests,
/// which may have applied even when the response was lost, finish after their
/// first attempt whatever it gave.
pub proof fn law_only_idempotent_requests_retry(s: RetryState, outcome: Result<HttpResponse>)
    requires
        !s.idempotent,
    ensures
        retry_next(s, outcome).1 is None,
{
}

/// Only transient transport failures are retried: a response (2xx, 429 or any
/// other status) and every other error finish at once.
pub proof fn law_only_transient_failures_retry(s: RetryState, outcome: Result<HttpResponse>)
    requires
        !is_transient(outcome),
    ensures
        retry_next(s, outcome).1 is None,
{
}

/// A request is attempted at most `max_attempts` times (at least once): once
/// that many attempts are made, every outcome finishes.
pub proof fn law_attempts_are_bounded(s: RetryState, outcome: Result<HttpResponse>)
    ensures
        retry_next(s, outcome).1 is Some ==> retry_next(s, outcome).0.attempts
            < s.policy.max_attempts,
        s.attempts + 1 >= s.policy.max_attempts ==> retry_next(s, outcome).1 is None,
        retry_next(s, outcome).0.attempts == s.attempts + 1 || s.attempts == u32::MAX,
{
}

/// How many attempts a request makes when the transport gives `outcomes`, one
/// per attempt, from state `s`: attempts continue while the retry decision
/// says to wait (or until the outcomes run out).
pub open spec fn attempts_made(s: RetryState, outcomes: Seq<Result<HttpResponse>>) -> nat
    decreases outcomes.len(),
{
    if outcomes.len() == 0 {
        0
    } else {
        let (next, wait) = retry_next(s, outcomes[0]);
        if wait is None {
            1
        } else {
            1 + attempts_made(next, outcomes.drop_first())
        }
    }
}

proof fn lemma_attempts_made_bound(s: RetryState, outcomes: Seq<Result<HttpResponse>>)
    requires
        s.attempts < u32::MAX,
    ensures
        attempts_made(s, outcomes) <= if s.attempts < s.policy.max_attempts {
            s.policy.max_attempts - s.attempts
        } else {
            1
        },
        !s.idempotent ==> attempts_made(s, outcomes) <= 1,
    decreases outcomes.len(),
{
    if outcomes.len() > 0 {
        let (next, wait) = retry_next(s, outcomes[0]);
        if wait is Some {
            lemma_attempts_made_bound(next, outcomes.drop_first());
        }
    }
}

/// Whatever the transport answers, a request is attempted at most
/// `max_attempts` times (at least once when that is 0), and a request that is
/// not idempotent at most once.
pub proof fn law_attempts_per_request_are_bounded(
    policy: RetryPolicy,
    method: Method,
    outcomes: Seq<Result<HttpResponse>>,
)
    ensures
        ({
            let s = RetryState { policy, idempotent: method == Method::Get, attempts: 0 };
            &&& attempts_made(s, outcomes) <= if policy.max_attempts >= 1 {
                policy.max_attempts as nat
            } else {
                1
            }
            &&& method != Method::Get ==> attempts_made(s, outcomes) <= 1
        }),
{
    lemma_attempts_made_bound(
        RetryState { policy, idempotent: method == Method::Get, attempts: 0 },
        outcomes,
    );
}

proof fn lemma_doubled_grows(base: nat, k: nat)
    ensures
        doubled(base, k) <= doubled(base, k + 1),
{
}

/// Back-off delays never exceed the maximum delay and never shrink from one
/// retry to the next.
pub proof fn law_backoff_is_capped_and_monotone(policy: RetryPolicy, k: nat)
    ensures
        backoff_delay(policy, k) <= policy.max_delay_ms,
        backoff_delay(policy, k) <= backoff_delay(policy, k + 1),
        backoff_delay(policy, 0) == min_nat(policy.base_delay_ms as nat, policy.max_delay_ms as nat),
{
    lemma_doubled_grows(policy.base_delay_ms as nat, k);
}

/// The first retry waits the base delay and each later retry twice the
/// delay before it, never more than the maximum delay.
pub proof fn law_backoff_doubles_up_to_the_cap(policy: RetryPolicy, k: nat)
    ensures
        backoff_delay(policy, 0) == if policy.base_delay_ms <= policy.max_delay_ms {
            policy.base_delay_ms as nat
        } else {
            policy.max_delay_ms as nat
        },
        backoff_delay(policy, k + 1) == if 2 * backoff_delay(policy, k) <= policy.max_delay_ms {
            2 * backoff_delay(policy, k)
        } else {
            policy.max_delay_ms as nat
        },
{
    lemma_double_min(doubled(policy.base_delay_ms as nat, k), policy.max_delay_ms as nat);
}

// ---------------------------------------------------------------------------
// Client
// ---------------------------------------------------------------------------

/// `s` without trailing `/`.
pub open spec fn strip_trailing_slashes(s: Seq<char>) -> Seq<char>
    decreases s.len(),
{
    if s.len() > 0 && s.last() == '/' {
        strip_trailing_slashes(s.drop_last())
    } else {
        s
    }
}

/// `s` without leading `/`.
pub open spec fn strip_leading_slashes(s: Seq<char>) -> Seq<char>
    decreases s.len(),
{
    if s.len() > 0 && s[0] == '/' {
        strip_leading_slashes(s.drop_first())
    } else {
        s
    }
}

/// The URL of `path` under `base`: exactly one `/` between them.
pub open spec fn join_url(base: Seq<char>, path: Seq<char>) -> Seq<char> {
    base + seq!['/'] + strip_leading_slashes(path)
}

/// The request for `method` on `path` with `body` under `base`.
pub open spec fn request_view(
    base: Seq<char>,
    method: Method,
    path: Seq<char>,
    body: Option<Seq<char>>,
) -> HttpRequestView {
    HttpRequestView { method: crate::transport::method_name(method), url: join_url(base, path), body }
}

/// Typed client for the Hetzner Robot API.
///
/// The generic parameter is the [`Transport`] used to perform requests, which
/// allows tests to run without network access.
pub struct RobotClient<T> {
    base_url: String,
    credentials: Credentials,
    transport: T,
    retry: RetryPolicy,
}

impl<T: Transport> RobotClient<T> {
    /// The normalised base URL.
    pub closed spec fn base(&self) -> Seq<char> {
        self.base_url@
    }

    /// The credentials requests are authenticated with.
    pub closed spec fn creds(&self) -> Credentials {
        self.credentials
    }

    /// The transport requests go through.
    pub closed spec fn via(&self) -> T {
        self.transport
    }

    /// The retry policy for idempotent requests.
    pub closed spec fn policy(&self) -> RetryPolicy {
        self.retry
    }

    /// The `Authorization` header text requests are sent with.
    pub open spec fn header(&self) -> Seq<char> {
        crate::credentials::basic_authorization(self.creds().user(), self.creds().pass())
    }

    /// Whether requests can be authenticated (the header can be built).
    pub open spec fn can_send(&self) -> bool {
        self.creds().fits()
    }

    /// Creates a client with an explicit base URL and transport; trailing `/`
    /// are removed from the base URL.
    pub fn with_transport<B: IntoText>(base_url: B, credentials: Credentials, transport: T) -> (c: Self)
        ensures
            c.base() == strip_trailing_slashes(base_url.text()),
            c.creds() == credentials,
            c.via() == transport,
            c.policy() == (RetryPolicy { max_attempts: 2, base_delay_ms: 500, max_delay_ms: 4000 }),
    {
        let raw = base_url.into_text();
        let chars = chars_of(raw.as_str());
        let mut end = chars.len();
        assert(chars@.take(end as int) =~= chars@);
        while end > 0 && chars[end - 1] == '/'
            invariant
                end <= chars@.len(),
                strip_trailing_slashes(chars@) == strip_trailing_slashes(chars@.take(end as int)),
            decreases end,
        {
            assert(chars@.take(end as int).drop_last() =~= chars@.take(end - 1));
            end = end - 1;
        }
        let base = string_from(chars.as_slice(), 0, end);
        assert(chars@.subrange(0, end as int) =~= chars@.take(end as int));
        RobotClient { base_url: base, credentials, transport, retry: RetryPolicy::default() }
    }

    /// Replaces the retry policy.
    pub fn with_retry_policy(self, policy: RetryPolicy) -> (c: Self)
        ensures
            c.base() == self.base(),
            c.creds() == self.creds(),
            c.via() == self.via(),
            c.policy() == policy,
    {
        RobotClient { retry: policy, ..self }
    }

    /// Returns the configured base URL.
    pub fn base_url(&self) -> (s: &str)
        ensures
            s@ == self.base(),
    {
        self.base_url.as_str()
    }

    /// Returns the retry policy.
    pub fn retry_policy(&self) -> (p: RetryPolicy)
        ensures
            p == self.policy(),
    {
        self.retry
    }

    /// Returns the credentials.
    pub fn credentials(&self) -> (c: &Credentials)
        ensures
            *c == self.creds(),
    {
        &self.credentials
    }

    /// Returns the transport.
    pub fn transport(&self) -> (t: &T)
        ensures
            *t == self.via(),
    {
        &self.transport
    }

    /// Builds the request for `method` on `path` with an already encoded `body`.
    pub fn request(&self, method: Method, path: &str, body: Option<String>) -> (r: HttpRequest)
        ensures
            r@ == request_view(self.base(), method, path@, crate::transport::opt_view(body)),
    {
        let chars = chars_of(path);
        let mut start: usize = 0;
        assert(chars@.skip(0) =~= chars@);
        while start < chars.len() && chars[start] == '/'
            invariant
                start <= chars@.len(),
                strip_leading_slashes(chars@) == strip_leading_slashes(chars@.skip(start as int)),
            decreases chars@.len() - start,
        {
            assert(chars@.skip(start as int).drop_first() =~= chars@.skip(start + 1));
            start = start + 1;
        }
        let rest = string_from(chars.as_slice(), start, chars.len());
        assert(chars@.subrange(start as int, chars@.len() as int) =~= chars@.skip(start as int));
        let mut url = String::new();
        push_str(&mut url, self.base_url.as_str());
        push_char(&mut url, '/');
        push_str(&mut url, rest.as_str());
        assert(url@ =~= join_url(self.base(), path@));
        let mut m = String::new();
        push_str(&mut m, method.as_str());
        assert(m@ =~= crate::transport::method_name(method));
        HttpRequest { method: m, url, body }
    }

    /// Sends `request` once and checks the response status.
    ///
    /// # Errors
    ///
    /// Returns the transport's error as it is, [`Error::RateLimited`] for HTTP
    /// 429 and [`Error::Api`] for any other non-2xx status.
    pub fn attempt(&self, request: &HttpRequest) -> (r: Result<HttpResponse>)
        requires
            self.can_send(),
        ensures
            checked_outcome(r),
            exists|o: Result<HttpResponse>|
                answers(self.via(), *request, self.header(), o) && attempt_result(o, r),
    {
        let header = self.credentials.authorization();
        let outcome = self.transport.execute(request, header.as_str());
        let ghost o = outcome;
        let r = match outcome {
            Ok(response) => check_response(response),
            Err(e) => Err(e),
        };
        proof {
            assert(answers(self.via(), *request, self.header(), o));
            assert(attempt_result(o, r));
            if r is Ok {
                assert(o is Ok);
                assert(is_success(o->Ok_0.status));
            }
        }
        r
    }

    /// Builds the request for `method` on `path` with `body` and sends it once.
    ///
    /// # Errors
    ///
    /// As [`RobotClient::attempt`].
    pub fn send(&self, method: Method, path: &str, body: Option<String>) -> (r: Result<HttpResponse>)
        requires
            self.can_send(),
        ensures
            checked_outcome(r),
            sent(*self, method, path@, crate::transport::opt_view(body), r),
    {
        let request = self.request(method, path, body);
        let r = self.attempt(&request);
        proof {
            let o = choose|o: Result<HttpResponse>|
                answers(self.via(), request, self.header(), o) && attempt_result(o, r);
            assert(answers(self.via(), request, self.header(), o));
        }
        r
    }

    /// Performs a form-encoded `POST` request and returns the response.
    ///
    /// A `POST` is never retried (see `law_only_idempotent_requests_retry`).
    ///
    /// # Errors
    ///
    /// As [`RobotClient::attempt`].
    pub fn post_form_response(&self, path: &str, form: &[(&str, &str)]) -> (r: Result<HttpResponse>)
        requires
            self.can_send(),
        ensures
            checked_outcome(r),
            sent(*self, Method::Post, path@, Some(crate::form::encode_fields(crate::form::form_view(form@))), r),
    {
        let body = encode_form(form);
        self.send(Method::Post, path, Some(body))
    }

    /// Performs a form-encoded `POST` request and discards the response body.
    ///
    /// # Errors
    ///
    /// As [`RobotClient::attempt`].
    pub fn post_form_ok(&self, path: &str, form: &[(&str, &str)]) -> (r: Result<()>)
        requires
            self.can_send(),
        ensures
            r matches Err(e) ==> request_failure(e@),
            sent_discarding(*self, Method::Post, path@, Some(crate::form::encode_fields(crate::form::form_view(form@))), r),
    {
        let full = self.post_form_response(path, form);
        let ghost g = full;
        let r = match full {
            Ok(_) => Ok(()),
            Err(e) => Err(e),
        };
        assert(r == discard(g));
        r
    }

    /// Performs a `DELETE` request and discards the response body.
    ///
    /// # Errors
    ///
    /// As [`RobotClient::attempt`].
    pub fn delete(&self, path: &str) -> (r: Result<()>)
        requires
            self.can_send(),
        ensures
            r matches Err(e) ==> request_failure(e@),
            sent_discarding(*self, Method::Delete, path@, None, r),
    {
        let full = self.send(Method::Delete, path, None);
        let ghost g = full;
        let r = match full {
            Ok(_) => Ok(()),
            Err(e) => Err(e),
        };
        assert(r == discard(g));
        r
    }

    /// Performs a form-encoded `DELETE` request and discards the response body.
    ///
    /// Some Robot endpoints (for example vSwitch disconnects) require a form
    /// body on `DELETE`.
    ///
    /// # Errors
    ///
    /// As [`RobotClient::attempt`].
    pub fn delete_form(&self, path: &str, form: &[(&str, &str)]) -> (r: Result<()>)
        requires
            self.can_send(),
        ensures
            r matches Err(e) ==> request_failure(e@),
            sent_discarding(*self, Method::Delete, path@, Some(crate::form::encode_fields(crate::form::form_view(form@))), r),
    {
        let body = encode_form(form);
        let full = self.send(Method::Delete, path, Some(body));
        let ghost g = full;
        let r = match full {
            Ok(_) => Ok(()),
            Err(e) => Err(e),
        };
        assert(r == discard(g));
        r
    }
}

/// That `r` is what one send of `method` on `path` with `body` through client
/// `c` gives: the status check of an answer the transport can give to that
/// request, sent with the client's header.
pub open spec fn sent<T: Transport>(
    c: RobotClient<T>,
    method: Method,
    path: Seq<char>,
    body: Option<Seq<char>>,
    r: Result<HttpResponse>,
) -> bool {
    exists|q: HttpRequest, o: Result<HttpResponse>|
        q@ == request_view(c.base(), method, path, body) && #[trigger] answers(c.via(), q, c.header(), o)
            && attempt_result(o, r)
}

/// That `r` is what one send of `method` on `path` with `body` through client
/// `c` gives once the response is dropped.
pub open spec fn sent_discarding<T: Transport>(
    c: RobotClient<T>,
    method: Method,
    path: Seq<char>,
    body: Option<Seq<char>>,
    r: Result<()>,
) -> bool {
    exists|full: Result<HttpResponse>| #[trigger] sent(c, method, path, body, full) && r == discard(full)
}

/// The base URL never ends with `/`, and normalising it again changes nothing.
pub proof fn law_base_url_is_normalised(s: Seq<char>)
    ensures
        strip_trailing_slashes(s).len() > 0 ==> strip_trailing_slashes(s).last() != '/',
        strip_trailing_slashes(strip_trailing_slashes(s)) == strip_trailing_slashes(s),
    decreases s.len(),
{
    if s.len() > 0 && s.last() == '/' {
        law_base_url_is_normalised(s.drop_last());
    }
}

} // verus!
