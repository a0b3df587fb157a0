//! What the dispatch layer hands from stage to stage: the four-way outcome
//! of a stage, the retry context, the pending batch and the routing of a
//! batch's responses back to its requests.

use crate::error::{ErrorView, GrauxError};
use crate::json::{Json, JsonValue};
use crate::rpc::{requests_view, RequestView, RpcCall, RpcRequest};
use vstd::prelude::*;

verus! {

/// What one attempt produced: the node's result, or the failure.
pub type RpcResult = Result<JsonValue, GrauxError>;

/// The mathematical value of an [`RpcResult`].
pub type ResultView = Result<Json, ErrorView>;

/// The value of a result.
pub open spec fn result_view(r: RpcResult) -> ResultView {
    match r {
        Ok(v) => Ok(v@),
        Err(e) => Err(e@),
    }
}

/// An independent copy of a result.
pub fn duplicate_result(r: &RpcResult) -> (c: RpcResult)
    ensures
        result_view(c) == result_view(*r),
{
    match r {
        Ok(v) => Ok(v.clone()),
        Err(e) => Err(e.clone()),
    }
}

/// All that is needed to send a request again: how many attempts have
/// reached the transport, the failure of the last one, and the request.
#[derive(Debug, PartialEq, Eq)]
pub struct RetryContext {
    pub attempt_count: u64,
    pub last_error: GrauxError,
    pub original_request: RpcRequest,
}

/// The mathematical value of a [`RetryContext`].
pub struct RetryView {
    pub attempt_count: u64,
    pub last_error: ErrorView,
    pub original_request: RequestView,
}

impl View for RetryContext {
    type V = RetryView;

    open spec fn view(&self) -> RetryView {
        RetryView {
            attempt_count: self.attempt_count,
            last_error: self.last_error@,
            original_request: self.original_request@,
        }
    }
}

/// The outcome of a middleware stage. `Proceed` is terminal and carries the
/// result for the caller; `Skip` says the stage did nothing; `Abort` is
/// terminal and carries the failure that ended the call; `Retry` asks for
/// the request to be sent again.
#[derive(Debug, PartialEq, Eq)]
pub enum MiddlewareAction {
    Proceed(RpcResult),
    Skip,
    Abort(GrauxError),
    Retry(RetryContext),
}

/// The mathematical value of a [`MiddlewareAction`].
pub enum ActionView {
    Proceed(ResultView),
    Skip,
    Abort(ErrorView),
    Retry(RetryView),
}

impl View for MiddlewareAction {
    type V = ActionView;

    open spec fn view(&self) -> ActionView {
        match self {
            MiddlewareAction::Proceed(r) => ActionView::Proceed(result_view(*r)),
            MiddlewareAction::Skip => ActionView::Skip,
            MiddlewareAction::Abort(e) => ActionView::Abort(e@),
            MiddlewareAction::Retry(c) => ActionView::Retry(c@),
        }
    }
}

impl ActionView {
    /// An outcome after which the request is not sent again.
    pub open spec fn terminal(self) -> bool {
        self is Proceed || self is Abort
    }
}

impl MiddlewareAction {
    /// Whether the request is not sent again after this outcome.
    pub fn is_terminal(&self) -> (r: bool)
        ensures
            r == self@.terminal(),
    {
        match self {
            MiddlewareAction::Proceed(_) => true,
            MiddlewareAction::Abort(_) => true,
            _ => false,
        }
    }
}

/// The request a stage works on and the headers that go out with it.
#[derive(Debug, PartialEq, Eq)]
pub struct MiddlewareContext {
    pub request: RpcRequest,
    pub headers: Vec<(String, String)>,
}

/// What the observer is told about a terminal result: the name of the
/// event, the request, and the result or the failure.
#[derive(Debug, PartialEq, Eq)]
pub struct DebugEvent {
    pub name: String,
    pub request: RpcRequest,
    pub outcome: RpcResult,
}

/// The mathematical value of a [`DebugEvent`].
pub struct EventView {
    pub name: Seq<char>,
    pub request: RequestView,
    pub outcome: ResultView,
}

impl View for DebugEvent {
    type V = EventView;

    open spec fn view(&self) -> EventView {
        EventView {
            name: self.name@,
            request: self.request@,
            outcome: result_view(self.outcome),
        }
    }
}

/// Header names with their values, as sequences of characters.
pub open spec fn headers_view(headers: Seq<(String, String)>) -> Seq<(Seq<char>, Seq<char>)> {
    Seq::new(headers.len(), |i: int| (headers[i].0@, headers[i].1@))
}

/// Independent copies of `headers`, in order.
pub fn duplicate_headers(headers: &Vec<(String, String)>) -> (r: Vec<(String, String)>)
    ensures
        headers_view(r@) == headers_view(headers@),
{
    let mut out: Vec<(String, String)> = Vec::new();
    let mut i: usize = 0;
    while i < headers.len()
        invariant
            i <= headers.len(),
            out.len() == i,
            forall|j: int|
                0 <= j < i ==> out@[j].0@ == headers@[j].0@ && out@[j].1@ == headers@[j].1@,
        decreases headers.len() - i,
    {
        out.push((headers[i].0.clone(), headers[i].1.clone()));
        i += 1;
    }
    assert(headers_view(out@) =~= headers_view(headers@));
    out
}

/// A response of a batch round trip, labelled with the id of its request.
#[derive(Debug, PartialEq, Eq)]
pub struct BatchResponse {
    pub id: u64,
    pub outcome: RpcResult,
}

/// The mathematical value of a [`BatchResponse`].
pub struct ResponseView {
    pub id: u64,
    pub outcome: ResultView,
}

impl View for BatchResponse {
    type V = ResponseView;

    open spec fn view(&self) -> ResponseView {
        ResponseView { id: self.id, outcome: result_view(self.outcome) }
    }
}

/// The values of a sequence of responses, element by element.
pub open spec fn responses_view(responses: Seq<BatchResponse>) -> Seq<ResponseView> {
    Seq::new(responses.len(), |i: int| responses[i]@)
}

/// The values of a sequence of results, element by element.
pub open spec fn results_view(results: Seq<RpcResult>) -> Seq<ResultView> {
    Seq::new(results.len(), |i: int| result_view(results[i]))
}

/// The text of the failure reported for a request that a batch round trip
/// left without a response.
pub open spec fn missing_response_text() -> Seq<char> {
    "no response for request"@
}

/// The outcome that belongs to the request `id`: that of the first response
/// labelled with it, or a transport failure when there is none.
pub open spec fn routed(id: u64, responses: Seq<ResponseView>) -> ResultView
    decreases responses.len(),
{
    if responses.len() == 0 {
        Err(ErrorView::Transport(missing_response_text()))
    } else if responses[0].id == id {
        responses[0].outcome
    } else {
        routed(id, responses.drop_first())
    }
}

/// No two responses carry the same id.
pub open spec fn distinct_ids(responses: Seq<ResponseView>) -> bool {
    forall|i: int, j: int|
        0 <= i < responses.len() && 0 <= j < responses.len() && i != j ==> (
        #[trigger] responses[i]).id != (#[trigger] responses[j]).id
}

/// Where the ids of the responses are distinct, a request gets the outcome
/// of the response that carries its id, wherever that response stands.
pub proof fn lemma_routed_by_id(id: u64, responses: Seq<ResponseView>, j: int)
    requires
        distinct_ids(responses),
        0 <= j < responses.len(),
        responses[j].id == id,
    ensures
        routed(id, responses) == responses[j].outcome,
    decreases responses.len(),
{
    if j != 0 {
        let rest = responses.drop_first();
        assert(responses[0].id != responses[j].id);
        assert forall|a: int, b: int|
            0 <= a < rest.len() && 0 <= b < rest.len() && a != b implies (#[trigger] rest[a]).id
            != (#[trigger] rest[b]).id by {
            assert(rest[a] == responses[a + 1]);
            assert(rest[b] == responses[b + 1]);
        }
        assert(rest[j - 1] == responses[j]);
        lemma_routed_by_id(id, rest, j - 1);
    }
}

/// A request whose id no response carries gets the transport failure.
pub proof fn lemma_routed_missing(id: u64, responses: Seq<ResponseView>)
    requires
        forall|j: int| 0 <= j < responses.len() ==> (#[trigger] responses[j]).id != id,
    ensures
        routed(id, responses) == Err::<Json, ErrorView>(
            ErrorView::Transport(missing_response_text()),
        ),
    decreases responses.len(),
{
    if responses.len() > 0 {
        let rest = responses.drop_first();
        assert(responses[0].id != id);
        assert forall|j: int| 0 <= j < rest.len() implies (#[trigger] rest[j]).id != id by {
            assert(rest[j] == responses[j + 1]);
        }
        lemma_routed_missing(id, rest);
    }
}

/// The outcome for the request `id` among `responses`.
fn route_one(id: u64, responses: &Vec<BatchResponse>) -> (r: RpcResult)
    ensures
        result_view(r) == routed(id, responses_view(responses@)),
{
    let ghost all = responses_view(responses@);
    let mut i: usize = 0;
    assert(all.skip(0) == all);
    while i < responses.len()
        invariant
            i <= responses.len(),
            all == responses_view(responses@),
            routed(id, all) == routed(id, all.skip(i as int)),
        decreases responses.len() - i,
    {
        if responses[i].id == id {
            assert(all.skip(i as int)[0] == responses@[i as int]@);
            return duplicate_result(&responses[i].outcome);
        }
        assert(all.skip(i as int)[0] == responses@[i as int]@);
        assert(all.skip(i as int).drop_first() == all.skip(i + 1));
        i += 1;
    }
    assert(all.skip(i as int).len() == 0);
    Err(GrauxError::Transport("no response for request".to_owned()))
}

/// Routes the responses of a batch round trip back to its requests: one
/// outcome per request, in the order of the requests, each taken from the
/// response that carries the request's id, whatever order the responses
/// came in.
pub fn demultiplex(batch: &Vec<RpcRequest>, responses: &Vec<BatchResponse>) -> (r: Vec<RpcResult>)
    ensures
        r.len() == batch.len(),
        forall|i: int|
            0 <= i < batch.len() ==> result_view(#[trigger] r@[i]) == routed(
                batch@[i].id,
                responses_view(responses@),
            ),
{
    let mut out: Vec<RpcResult> = Vec::new();
    let mut i: usize = 0;
    while i < batch.len()
        invariant
            i <= batch.len(),
            out.len() == i,
            forall|k: int|
                0 <= k < i ==> result_view(#[trigger] out@[k]) == routed(
                    batch@[k].id,
                    responses_view(responses@),
                ),
        decreases batch.len() - i,
    {
        out.push(route_one(batch[i].id, responses));
        i += 1;
    }
    out
}

/// The number of pending requests at which a batch is sent without waiting
/// for an explicit flush.
pub const BATCH_LIMIT: usize = 100;

/// The requests waiting for the next batch round trip, in the order they
/// were enqueued. The id of each is its position, so no two pending
/// requests share an id, and the queue always holds fewer than
/// [`BATCH_LIMIT`] of them.
#[derive(Debug)]
pub struct BatchQueue {
    pending: Vec<RpcRequest>,
}

impl View for BatchQueue {
    type V = Seq<RequestView>;

    closed spec fn view(&self) -> Seq<RequestView> {
        requests_view(self.pending@)
    }
}

/// The id of every request is its position in the sequence.
pub open spec fn ids_are_positions(requests: Seq<RequestView>) -> bool {
    forall|i: int| 0 <= i < requests.len() ==> (#[trigger] requests[i]).id == i
}

impl BatchQueue {
    /// The queue is below the limit and the id of each pending request is
    /// its position.
    #[verifier::type_invariant]
    spec fn well_formed(self) -> bool {
        &&& self.pending.len() < BATCH_LIMIT
        &&& ids_are_positions(requests_view(self.pending@))
    }

    /// The empty queue.
    pub fn new() -> (q: BatchQueue)
        ensures
            q@ == Seq::<RequestView>::empty(),
    {
        let q = BatchQueue { pending: Vec::new() };
        assert(q@ =~= Seq::<RequestView>::empty());
        q
    }

    /// The number of pending requests.
    pub fn len(&self) -> (n: usize)
        ensures
            n == self@.len(),
            n < BATCH_LIMIT,
            ids_are_positions(self@),
    {
        proof {
            use_type_invariant(self);
        }
        self.pending.len()
    }

    /// Whether nothing is pending.
    pub fn is_empty(&self) -> (r: bool)
        ensures
            r == (self@.len() == 0),
    {
        self.pending.len() == 0
    }

    /// Takes every pending request out, in the order they were enqueued, and
    /// leaves the queue empty: no request is flushed twice and none is lost.
    pub fn flush(&mut self) -> (batch: Vec<RpcRequest>)
        ensures
            requests_view(batch@) == old(self)@,
            ids_are_positions(requests_view(batch@)),
            batch.len() < BATCH_LIMIT,
            final(self)@ == Seq::<RequestView>::empty(),
    {
        proof {
            use_type_invariant(&*self);
        }
        let mut batch: Vec<RpcRequest> = Vec::new();
        std::mem::swap(&mut self.pending, &mut batch);
        assert(self@ =~= Seq::<RequestView>::empty());
        batch
    }

    /// Appends `call` behind the pending requests, under the id that is its
    /// position. When that fills the queue up to [`BATCH_LIMIT`], the whole
    /// queue, the new request included, is taken out and returned for
    /// sending; else the request stays pending.
    pub fn enqueue(&mut self, call: RpcCall) -> (r: (u64, Option<Vec<RpcRequest>>))
        ensures
            r.0 == old(self)@.len(),
            old(self)@.len() + 1 < BATCH_LIMIT ==> r.1 is None && final(self)@ == old(self)@.push(
                call@.with_id(r.0),
            ),
            old(self)@.len() + 1 >= BATCH_LIMIT ==> r.1 is Some && requests_view(r.1->Some_0@)
                == old(self)@.push(call@.with_id(r.0)) && final(self)@ == Seq::<
                RequestView,
            >::empty(),
            ids_are_positions(old(self)@.push(call@.with_id(r.0))),
    {
        proof {
            use_type_invariant(&*self);
        }
        let ghost before = self@;
        let n: usize = self.pending.len();
        let id: u64 = n as u64;
        let request = call.with_id(id);
        let mut batch: Vec<RpcRequest> = Vec::new();
        std::mem::swap(&mut self.pending, &mut batch);
        batch.push(request);
        assert(requests_view(batch@) =~= before.push(call@.with_id(id)));
        if n + 1 < BATCH_LIMIT {
            self.pending = batch;
            (id, None)
        } else {
            assert(self@ =~= Seq::<RequestView>::empty());
            (id, Some(batch))
        }
    }
}

} // verus!
