//! The provider: the connection it was resolved to and the dispatch policy
//! it applies to every call (batching, retry, instrumentation).

use crate::config::{lemma_http_is_not_ws, provider_for, GrauxConfig, DEFAULT_GRAUX_API_KEY};
use crate::endpoint::{
    get_graux_http_url, get_graux_ws_url, http_url, known_protocol, ws_url,
};
use crate::error::{ErrorView, GrauxError};
use crate::middleware::{
    duplicate_headers, duplicate_result, headers_view, result_view, results_view, ActionView,
    BatchQueue, DebugEvent, EventView, MiddlewareAction, MiddlewareContext, ResultView,
    RetryContext, RetryView, RpcResult, BATCH_LIMIT,
};
use crate::network::{
    lemma_name_round_trip, name_text, network_named, Network, DEFAULT_NETWORK,
};
use crate::rpc::{requests_view, RequestView, RpcCall, RpcRequest};
use crate::text::same_text;
use vstd::prelude::*;

verus! {

/// The version that the client announces in its headers.
pub const VERSION: &'static str = "0.1.0";

/// Whether the client runs where the host sets the transfer encoding itself
/// (a browser or a similarly constrained runtime).
pub const IS_BROWSER: bool = false;

/// The pause before the second attempt, in milliseconds.
pub const RETRY_BASE_DELAY: u64 = 1000;

/// The longest pause between two attempts, in milliseconds.
pub const RETRY_MAX_DELAY: u64 = 30000;

/// Where and how to reach the node.
#[derive(Debug, PartialEq, Eq)]
pub struct ConnectionInfo {
    pub url: String,
    pub headers: Vec<(String, String)>,
    pub allow_gzip: bool,
}

/// The mathematical value of a [`ConnectionInfo`].
pub struct ConnectionView {
    pub url: Seq<char>,
    pub headers: Seq<(Seq<char>, Seq<char>)>,
    pub allow_gzip: bool,
}

impl View for ConnectionInfo {
    type V = ConnectionView;

    open spec fn view(&self) -> ConnectionView {
        ConnectionView {
            url: self.url@,
            headers: headers_view(self.headers@),
            allow_gzip: self.allow_gzip,
        }
    }
}

/// An independent copy of the connection.
impl Clone for ConnectionInfo {
    fn clone(&self) -> (r: ConnectionInfo)
        ensures
            r@ == self@,
    {
        ConnectionInfo {
            url: self.url.clone(),
            headers: duplicate_headers(&self.headers),
            allow_gzip: self.allow_gzip,
        }
    }
}


/// The headers every request carries: the version marker and, outside a
/// browser, the request for gzip.
pub open spec fn sdk_headers(is_browser: bool) -> Seq<(Seq<char>, Seq<char>)> {
    if is_browser {
        seq![("Graux-Ethers-Sdk-Version"@, VERSION@)]
    } else {
        seq![("Graux-Ethers-Sdk-Version"@, VERSION@), ("Accept-Encoding"@, "gzip"@)]
    }
}

/// The connection for a network and key over a protocol, before any
/// override.
pub open spec fn connection_info(
    network: Network,
    api_key: Seq<char>,
    protocol: Seq<char>,
    is_browser: bool,
) -> ConnectionView {
    ConnectionView {
        url: if protocol == "ws"@ {
            ws_url(network, api_key)
        } else {
            http_url(network, api_key)
        },
        headers: sdk_headers(is_browser),
        allow_gzip: !is_browser,
    }
}

/// The API key to use where `api_key` may be absent.
pub open spec fn api_key_or_default(api_key: Option<Seq<char>>) -> Seq<char> {
    match api_key {
        Some(key) => key,
        None => DEFAULT_GRAUX_API_KEY@,
    }
}

/// The network that an optional name resolves to, or the failure that
/// carries the name.
pub open spec fn resolved_network(name: Option<Seq<char>>) -> Result<Network, ErrorView> {
    match name {
        None => Ok(DEFAULT_NETWORK),
        Some(n) => match network_named(n) {
            Some(network) => Ok(network),
            None => Err(ErrorView::InvalidNetwork(n)),
        },
    }
}

/// Every supported network resolves from its own name, and a name that
/// names no network is refused with exactly that name.
pub proof fn lemma_network_resolution(network: Network, name: Seq<char>)
    ensures
        resolved_network(Some(name_text(network))) == Ok::<Network, ErrorView>(network),
        network_named(name) is None ==> resolved_network(Some(name)) == Err::<
            Network,
            ErrorView,
        >(ErrorView::InvalidNetwork(name)),
        network_named(name) matches Some(n) ==> name == name_text(n) && resolved_network(
            Some(name),
        ) == Ok::<Network, ErrorView>(n),
{
    lemma_name_round_trip(network);
}

/// What follows one attempt. A result, and a failure that another attempt
/// cannot change, go to the caller. A transport failure asks for another
/// attempt while no more than `max_retries` attempts have been made, and
/// ends the call with that failure once they have.
pub open spec fn attempt_outcome(
    max_retries: u32,
    request: RequestView,
    attempt: u64,
    result: ResultView,
) -> ActionView {
    match result {
        Ok(value) => ActionView::Proceed(Ok(value)),
        Err(e) => if !e.retryable() {
            ActionView::Proceed(Err(e))
        } else if attempt <= max_retries {
            ActionView::Retry(
                RetryView { attempt_count: attempt, last_error: e, original_request: request },
            )
        } else {
            ActionView::Abort(e)
        },
    }
}

/// Where a call ends when the transport answers its attempts with `results`
/// in turn, `made` attempts having been made before: the terminal outcome,
/// or nothing where the results run out while another attempt is due, and
/// the number of attempts made in all.
pub open spec fn settled(
    max_retries: u32,
    request: RequestView,
    made: nat,
    results: Seq<ResultView>,
) -> (Option<ActionView>, nat)
    decreases results.len(),
{
    if results.len() == 0 {
        (None, made)
    } else {
        let action = attempt_outcome(max_retries, request, (made + 1) as u64, results[0]);
        if action is Retry {
            settled(max_retries, request, made + 1, results.drop_first())
        } else {
            (Some(action), made + 1)
        }
    }
}

/// The pause, in milliseconds, after the attempt numbered `attempt` has
/// failed: the base delay after the first, twice the pause before for each
/// further one, and never more than the longest pause.
pub open spec fn delay_after(attempt: nat) -> nat
    decreases attempt,
{
    if attempt <= 1 {
        RETRY_BASE_DELAY as nat
    } else {
        let doubled = 2 * delay_after((attempt - 1) as nat);
        if doubled > RETRY_MAX_DELAY {
            RETRY_MAX_DELAY as nat
        } else {
            doubled
        }
    }
}

/// The pause never shrinks from one attempt to a later one, and stays
/// between the base delay and the longest pause.
pub proof fn lemma_delay_never_shrinks(earlier: nat, later: nat)
    requires
        earlier <= later,
    ensures
        RETRY_BASE_DELAY <= delay_after(earlier) <= delay_after(later) <= RETRY_MAX_DELAY,
    decreases later,
{
    if later > 1 {
        lemma_delay_never_shrinks(0, (later - 1) as nat);
        if earlier < later {
            lemma_delay_never_shrinks(earlier, (later - 1) as nat);
        }
    } else if earlier < later {
        lemma_delay_never_shrinks(earlier, (later - 1) as nat);
    }
}

/// A failure that another attempt may cure.
pub open spec fn transient(result: ResultView) -> bool {
    result matches Err(e) && e.retryable()
}

/// However the transport answers, no call makes more than `max_retries + 1`
/// attempts.
pub proof fn lemma_attempts_bounded(
    max_retries: u32,
    request: RequestView,
    made: nat,
    results: Seq<ResultView>,
)
    requires
        made <= max_retries,
    ensures
        settled(max_retries, request, made, results).1 <= max_retries + 1,
        settled(max_retries, request, made, results).1 <= made + results.len(),
        settled(max_retries, request, made, results).0 matches Some(action) ==> action.terminal(),
    decreases results.len(),
{
    if results.len() > 0 {
        let action = attempt_outcome(max_retries, request, (made + 1) as u64, results[0]);
        if action is Retry {
            lemma_attempts_bounded(max_retries, request, made + 1, results.drop_first());
        }
    }
}

/// Where the transport fails `failures` times, which is within the retry
/// budget, and then gives an answer that is a result or a failure that no
/// attempt can cure, the call ends with that answer, after `failures + 1`
/// attempts.
pub proof fn lemma_answer_after_failures(
    max_retries: u32,
    request: RequestView,
    made: nat,
    results: Seq<ResultView>,
    failures: nat,
)
    requires
        made + failures <= max_retries,
        failures < results.len(),
        forall|i: int| 0 <= i < failures ==> transient(#[trigger] results[i]),
        !transient(results[failures as int]),
    ensures
        settled(max_retries, request, made, results) == (
            Some(ActionView::Proceed(results[failures as int])),
            made + failures + 1,
        ),
    decreases failures,
{
    if failures > 0 {
        let rest = results.drop_first();
        assert(transient(results[0]));
        assert forall|i: int| 0 <= i < failures - 1 implies transient(#[trigger] rest[i]) by {
            assert(rest[i] == results[i + 1]);
        }
        assert(rest[failures - 1] == results[failures as int]);
        lemma_answer_after_failures(max_retries, request, made + 1, rest, (failures - 1) as nat);
    }
}

/// Where the transport fails every attempt, the call is aborted after
/// exactly `max_retries + 1` attempts, with the failure of the last one.
pub proof fn lemma_abort_when_exhausted(
    max_retries: u32,
    request: RequestView,
    made: nat,
    results: Seq<ResultView>,
)
    requires
        made <= max_retries,
        results.len() > max_retries - made,
        forall|i: int| 0 <= i <= max_retries - made ==> transient(#[trigger] results[i]),
    ensures
        settled(max_retries, request, made, results) == (
            Some(ActionView::Abort(results[max_retries - made]->Err_0)),
            (max_retries + 1) as nat,
        ),
    decreases max_retries - made,
{
    assert(transient(results[0]));
    if made < max_retries {
        let rest = results.drop_first();
        assert forall|i: int| 0 <= i <= max_retries - (made + 1) implies transient(
            #[trigger] rest[i],
        ) by {
            assert(rest[i] == results[i + 1]);
        }
        assert(rest[max_retries - (made + 1)] == results[max_retries - made]);
        lemma_abort_when_exhausted(max_retries, request, made + 1, rest);
    }
}

/// The value of an optional action.
pub open spec fn optional_action_view(a: Option<MiddlewareAction>) -> Option<ActionView> {
    match a {
        Some(action) => Some(action@),
        None => None,
    }
}

/// How a call leaves the dispatch layer: alone, into the pending batch, or
/// with the whole batch that it completed.
#[derive(Debug, PartialEq, Eq)]
pub enum Dispatch {
    Single(RpcRequest),
    Queued(u64),
    Flush { id: u64, batch: Vec<RpcRequest> },
}

/// The provider for one client.
#[derive(Debug, PartialEq, Eq)]
pub struct GrauxProvider {
    connection: ConnectionInfo,
    api_key: String,
    max_retries: u32,
    batch_requests: bool,
}

/// The mathematical value of a [`GrauxProvider`].
pub struct ProviderView {
    pub connection: ConnectionView,
    pub api_key: Seq<char>,
    pub max_retries: u32,
    pub batch_requests: bool,
}

impl View for GrauxProvider {
    type V = ProviderView;

    closed spec fn view(&self) -> ProviderView {
        ProviderView {
            connection: self.connection@,
            api_key: self.api_key@,
            max_retries: self.max_retries,
            batch_requests: self.batch_requests,
        }
    }
}

/// An independent copy of the provider.
impl Clone for GrauxProvider {
    fn clone(&self) -> (r: GrauxProvider)
        ensures
            r@ == self@,
    {
        GrauxProvider {
            connection: self.connection.clone(),
            api_key: self.api_key.clone(),
            max_retries: self.max_retries,
            batch_requests: self.batch_requests,
        }
    }
}

impl GrauxProvider {
    /// The provider that `config` gives over HTTP: the connection for the
    /// configured network and key, with the configured address in place of
    /// the derived one where there is one, and the retry budget and the
    /// batching flag of the configuration.
    pub fn new(config: &GrauxConfig) -> (r: GrauxProvider)
        ensures
            r@ == provider_for(config@, "http"@),
    {
        let api_key = GrauxProvider::get_api_key(Some(config.api_key()));
        let network = config.network();
        let mut connection = GrauxProvider::get_graux_connection_info(
            &network,
            api_key.as_str(),
            "http",
        );
        if let Some(url) = config.url() {
            connection.url = url.to_owned();
        }
        proof {
            lemma_http_is_not_ws();
        }
        GrauxProvider {
            connection,
            api_key,
            max_retries: config.max_retries(),
            batch_requests: config.batch_requests(),
        }
    }

    /// The provider that `config` gives over WebSocket.
    pub fn new_websocket(config: &GrauxConfig) -> (r: GrauxProvider)
        ensures
            r@ == provider_for(config@, "ws"@),
    {
        let api_key = GrauxProvider::get_api_key(Some(config.api_key()));
        let network = config.network();
        let mut connection = GrauxProvider::get_graux_connection_info(
            &network,
            api_key.as_str(),
            "ws",
        );
        if let Some(url) = config.url() {
            connection.url = url.to_owned();
        }
        GrauxProvider {
            connection,
            api_key,
            max_retries: config.max_retries(),
            batch_requests: config.batch_requests(),
        }
    }

    /// The API key, or the default key where none is given.
    pub fn get_api_key(api_key: Option<&str>) -> (r: String)
        ensures
            r@ == api_key_or_default(
                match api_key {
                    Some(key) => Some(key@),
                    None => None,
                },
            ),
    {
        match api_key {
            Some(key) => key.to_owned(),
            None => DEFAULT_GRAUX_API_KEY.to_owned(),
        }
    }

    /// The network that `network` names; the default network where no name
    /// is given; `InvalidNetwork` with the name for any other name.
    pub fn get_graux_network(network: Option<&str>) -> (r: Result<Network, GrauxError>)
        ensures
            match resolved_network(
                match network {
                    Some(name) => Some(name@),
                    None => None,
                },
            ) {
                Ok(n) => r == Ok::<Network, GrauxError>(n),
                Err(e) => r is Err && r->Err_0@ == e,
            },
    {
        match network {
            None => Ok(DEFAULT_NETWORK),
            Some(name) => match Network::from_name(name) {
                Some(n) => Ok(n),
                None => Err(GrauxError::InvalidNetwork(name.to_owned())),
            },
        }
    }

    /// The headers every request carries.
    pub fn get_sdk_headers(is_browser: bool) -> (r: Vec<(String, String)>)
        ensures
            headers_view(r@) == sdk_headers(is_browser),
    {
        let mut headers: Vec<(String, String)> = Vec::new();
        headers.push(("Graux-Ethers-Sdk-Version".to_owned(), VERSION.to_owned()));
        if !is_browser {
            headers.push(("Accept-Encoding".to_owned(), "gzip".to_owned()));
        }
        assert(headers_view(headers@) =~= sdk_headers(is_browser));
        headers
    }

    /// The connection for a network and key over `protocol`, which is
    /// `http` or `ws`.
    pub fn get_graux_connection_info(network: &Network, api_key: &str, protocol: &str) -> (r:
        ConnectionInfo)
        requires
            known_protocol(protocol@),
        ensures
            r@ == connection_info(*network, api_key@, protocol@, IS_BROWSER),
    {
        let url = if same_text(protocol, "ws") {
            get_graux_ws_url(*network, api_key)
        } else {
            get_graux_http_url(*network, api_key)
        };
        ConnectionInfo {
            headers: GrauxProvider::get_sdk_headers(IS_BROWSER),
            allow_gzip: !IS_BROWSER,
            url,
        }
    }

    /// The connection the provider was resolved to.
    pub fn connection(&self) -> (r: &ConnectionInfo)
        ensures
            r@ == self@.connection,
    {
        &self.connection
    }

    /// The API key of the provider.
    pub fn api_key(&self) -> (r: &str)
        ensures
            r@ == self@.api_key,
    {
        self.api_key.as_str()
    }

    /// How many times a failed request is sent again.
    pub fn max_retries(&self) -> (r: u32)
        ensures
            r == self@.max_retries,
    {
        self.max_retries
    }

    /// Whether calls are collected into batches.
    pub fn batch_requests(&self) -> (r: bool)
        ensures
            r == self@.batch_requests,
    {
        self.batch_requests
    }


    /// The context of a request: the request itself and the headers that go
    /// out with it, which are the connection's headers and one that names
    /// the method.
    pub fn context(&self, request: RpcRequest) -> (r: MiddlewareContext)
        ensures
            r.request@ == request@,
            headers_view(r.headers@) == self@.connection.headers.push(
                ("Graux-Ethers-Sdk-Method"@, request@.method),
            ),
    {
        let mut headers = duplicate_headers(&self.connection.headers);
        let ghost before = headers_view(headers@);
        headers.push(("Graux-Ethers-Sdk-Method".to_owned(), request.method.clone()));
        assert(headers_view(headers@) =~= before.push(
            ("Graux-Ethers-Sdk-Method"@, request@.method),
        ));
        MiddlewareContext { request, headers }
    }

    /// Sends a call on its way. Without batching the call leaves alone,
    /// under id 0, and the queue is not touched. With batching the call
    /// joins the queue under the id that is its position there, and leaves
    /// with the whole queue when it fills the batch; it is never also sent
    /// alone.
    pub fn dispatch(&self, queue: &mut BatchQueue, call: RpcCall) -> (d: Dispatch)
        ensures
            !self@.batch_requests ==> final(queue)@ == old(queue)@ && (d matches Dispatch::Single(
                request,
            ) && request@ == call@.with_id(0)),
            self@.batch_requests && old(queue)@.len() + 1 < BATCH_LIMIT ==> d == Dispatch::Queued(
                old(queue)@.len() as u64,
            ) && final(queue)@ == old(queue)@.push(call@.with_id(old(queue)@.len() as u64)),
            self@.batch_requests && old(queue)@.len() + 1 >= BATCH_LIMIT ==> final(queue)@
                == Seq::<RequestView>::empty() && (d matches Dispatch::Flush { id, batch } && id
                == old(queue)@.len() && requests_view(batch@) == old(queue)@.push(
                call@.with_id(id),
            )),
    {
        if !self.batch_requests {
            return Dispatch::Single(call.with_id(0));
        }
        let (id, flushed) = queue.enqueue(call);
        match flushed {
            Some(batch) => Dispatch::Flush { id, batch },
            None => Dispatch::Queued(id),
        }
    }

    /// Decides what follows the attempt numbered `attempt` (the first is 1)
    /// of `request`, which the transport answered with `result`.
    pub fn after_attempt(&self, request: &RpcRequest, attempt: u64, result: RpcResult) -> (a:
        MiddlewareAction)
        ensures
            a@ == attempt_outcome(self@.max_retries, request@, attempt, result_view(result)),
    {
        match result {
            Ok(value) => MiddlewareAction::Proceed(Ok(value)),
            Err(e) => {
                if !e.is_retryable() {
                    MiddlewareAction::Proceed(Err(e))
                } else if attempt <= self.max_retries as u64 {
                    MiddlewareAction::Retry(
                        RetryContext {
                            attempt_count: attempt,
                            last_error: e,
                            original_request: request.clone(),
                        },
                    )
                } else {
                    MiddlewareAction::Abort(e)
                }
            },
        }
    }

    /// The pause, in milliseconds, before the request is sent again after
    /// the attempt numbered `attempt` has failed.
    pub fn retry_delay(attempt: u64) -> (d: u64)
        ensures
            d == delay_after(attempt as nat),
    {
        let mut d: u64 = RETRY_BASE_DELAY;
        let mut i: u64 = 1;
        while i < attempt && d < RETRY_MAX_DELAY
            invariant
                1 <= i,
                i <= attempt || (attempt == 0 && i == 1),
                d == delay_after(i as nat),
                d <= RETRY_MAX_DELAY,
            decreases attempt - i,
        {
            i += 1;
            d = if 2 * d > RETRY_MAX_DELAY {
                RETRY_MAX_DELAY
            } else {
                2 * d
            };
        }
        proof {
            if i < attempt {
                lemma_delay_never_shrinks(i as nat, attempt as nat);
            } else if attempt == 0 {
                assert(i == 1);
                assert(delay_after(0) == delay_after(1));
            }
        }
        d
    }

    /// Plays a call through against the answers that the transport gives
    /// to its attempts, in turn: the terminal outcome, or nothing where
    /// the answers run out while another attempt is due, and the number
    /// of attempts that were made.
    pub fn settle(&self, request: &RpcRequest, results: &Vec<RpcResult>) -> (r: (
        Option<MiddlewareAction>,
        u64,
    ))
        ensures
            (optional_action_view(r.0), r.1 as nat) == settled(
                self@.max_retries,
                request@,
                0,
                results_view(results@),
            ),
    {
        let ghost all = results_view(results@);
        let mut i: usize = 0;
        assert(all.skip(0) == all);
        while i < results.len()
            invariant
                i <= results.len(),
                all == results_view(results@),
                settled(self@.max_retries, request@, 0, all) == settled(
                    self@.max_retries,
                    request@,
                    i as nat,
                    all.skip(i as int),
                ),
            decreases results.len() - i,
        {
            let attempt: u64 = i as u64 + 1;
            let action = self.after_attempt(request, attempt, duplicate_result(&results[i]));
            assert(all.skip(i as int)[0] == result_view(results@[i as int]));
            assert(all.skip(i as int).drop_first() == all.skip(i + 1));
            match action {
                MiddlewareAction::Retry(_) => {},
                _ => {
                    return (Some(action), attempt);
                },
            }
            i += 1;
        }
        assert(all.skip(i as int).len() == 0);
        (None, i as u64)
    }

    /// Instruments the outcome of a stage and hands it on unchanged. A
    /// `Proceed`, with a result or with a failure, yields the one event for
    /// the observer, named `response`, with the request of the context and
    /// that result or failure; no other outcome yields an event. Whatever
    /// becomes of the event, the outcome is the one that came in.
    pub fn on_response(&self, context: &MiddlewareContext, result: MiddlewareAction) -> (r: (
        MiddlewareAction,
        Option<DebugEvent>,
    ))
        ensures
            r.0@ == result@,
            match result@ {
                ActionView::Proceed(outcome) => r.1 is Some && r.1->Some_0@ == (EventView {
                    name: "response"@,
                    request: context.request@,
                    outcome,
                }),
                _ => r.1 is None,
            },
    {
        match result {
            MiddlewareAction::Skip => (MiddlewareAction::Skip, None),
            MiddlewareAction::Abort(err) => (MiddlewareAction::Abort(err), None),
            MiddlewareAction::Retry(retry_context) => (
                MiddlewareAction::Retry(retry_context),
                None,
            ),
            MiddlewareAction::Proceed(response) => {
                let event = DebugEvent {
                    name: "response".to_owned(),
                    request: context.request.clone(),
                    outcome: duplicate_result(&response),
                };
                (MiddlewareAction::Proceed(response), Some(event))
            },
        }
    }
}

} // verus!
