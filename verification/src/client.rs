//! The decisions of the HTTP client: admission, pacing, retries and
//! statistics. The exchange itself is made by the embedding program.

use crate::config::Config;
use crate::error::{ErrorModel, FerrisFetcherError};
use crate::text::concat2;
use crate::time::duration_nanos;
use crate::types::{RequestStats, RetryPolicy};
use std::time::Duration;
use url::Url;
use vstd::prelude::*;
use vstd::string::*;

verus! {

/// The status line of a status code: the number and its canonical reason
/// phrase, as the `http` crate prints a `StatusCode`.
pub uninterp spec fn status_line(code: u16) -> Seq<char>;

/// What the URL parser says of an address: `None` when it is an absolute
/// URL, otherwise the text of the parser's complaint.
pub uninterp spec fn url_error(address: Seq<char>) -> Option<Seq<char>>;

/// Calls `StatusCode::from_u16` and prints the status. Every number from
/// 100 to 999 is accepted as a status code.
#[verifier::external_body]
fn describe_status(code: u16) -> (line: String)
    requires
        100 <= code <= 999,
    ensures
        line@ == status_line(code),
{
    match reqwest::StatusCode::from_u16(code) {
        Ok(status) => status.to_string(),
        Err(e) => e.to_string(),
    }
}

/// Calls `Url::parse`. An address that does not parse gives the parser's
/// error as text.
#[verifier::external_body]
fn parse_address(address: &str) -> (r: Result<Url, String>)
    ensures
        match r {
            Ok(_) => url_error(address@) is None,
            Err(complaint) => url_error(address@) == Some(complaint@),
        },
{
    match Url::parse(address) {
        Ok(url) => Ok(url),
        Err(e) => Err(e.to_string()),
    }
}

/// Whether a status code reports a server failure (5xx).
pub open spec fn is_server_error(status: u16) -> bool {
    500 <= status < 600
}

/// The admission gate as plain values.
pub ghost struct GateModel {
    pub ceiling: nat,
    pub in_flight: nat,
    pub closed: bool,
    pub delay: Option<Duration>,
}

/// The answer to a request for admission.
#[derive(Debug, Clone, Copy)]
pub enum Admission {
    /// A slot was taken. The caller waits for the pacing delay, if there is
    /// one, and must release the slot when its request is over.
    Admitted { delay: Option<Duration> },
    /// Every slot is taken; the caller waits for a release.
    Busy,
    /// Admission was closed; the caller gives up.
    Closed,
}

impl GateModel {
    /// Whether the requests in flight are within the ceiling.
    pub open spec fn bounded(self) -> bool {
        self.in_flight <= self.ceiling
    }

    /// Whether a request for admission takes a slot.
    pub open spec fn admits(self) -> bool {
        !self.closed && self.in_flight < self.ceiling
    }

    /// The state after a request for admission.
    pub open spec fn acquire(self) -> GateModel {
        if self.admits() {
            GateModel { in_flight: self.in_flight + 1, ..self }
        } else {
            self
        }
    }

    /// The state after a slot was given back.
    pub open spec fn release(self) -> GateModel {
        if self.in_flight > 0 {
            GateModel { in_flight: (self.in_flight - 1) as nat, ..self }
        } else {
            self
        }
    }

    /// The state after admission was closed.
    pub open spec fn close(self) -> GateModel {
        GateModel { closed: true, ..self }
    }
}

/// What can happen to admission control.
pub ghost enum GateEvent {
    Acquire,
    Release,
    Close,
}

/// The state after one event.
pub open spec fn gate_after(gate: GateModel, event: GateEvent) -> GateModel {
    match event {
        GateEvent::Acquire => gate.acquire(),
        GateEvent::Release => gate.release(),
        GateEvent::Close => gate.close(),
    }
}

/// The state after a sequence of events.
pub open spec fn gate_after_all(gate: GateModel, events: Seq<GateEvent>) -> GateModel
    decreases events.len(),
{
    if events.len() == 0 {
        gate
    } else {
        gate_after(gate_after_all(gate, events.drop_last()), events.last())
    }
}

/// However many requests ask for admission, and in whatever order slots are
/// taken and given back, the number of requests in flight never exceeds the
/// ceiling, and the ceiling never changes.
pub proof fn lemma_gate_never_exceeds_ceiling(gate: GateModel, events: Seq<GateEvent>)
    requires
        gate.bounded(),
    ensures
        gate_after_all(gate, events).bounded(),
        gate_after_all(gate, events).ceiling == gate.ceiling,
    decreases events.len(),
{
    if events.len() > 0 {
        lemma_gate_never_exceeds_ceiling(gate, events.drop_last());
    }
}

/// Once every slot is taken, a request for admission is turned away until a
/// slot is given back.
pub proof fn lemma_full_gate_admits_nobody(gate: GateModel)
    requires
        gate.in_flight >= gate.ceiling,
    ensures
        !gate.admits(),
        gate.acquire() == gate,
{
}

/// Admission control: bounds the requests in flight to a fixed ceiling and
/// hands out the fixed pacing delay with every admission.
#[derive(Debug)]
pub struct RequestGate {
    ceiling: usize,
    in_flight: usize,
    delay: Option<Duration>,
    closed: bool,
}

impl View for RequestGate {
    type V = GateModel;

    closed spec fn view(&self) -> GateModel {
        GateModel {
            ceiling: self.ceiling as nat,
            in_flight: self.in_flight as nat,
            closed: self.closed,
            delay: self.delay,
        }
    }
}

impl RequestGate {
    #[verifier::type_invariant]
    spec fn within_ceiling(&self) -> bool {
        self.in_flight <= self.ceiling
    }

    /// A gate with `ceiling` free slots.
    pub fn new(ceiling: usize, delay: Option<Duration>) -> (gate: Self)
        ensures
            gate@ == (GateModel { ceiling: ceiling as nat, in_flight: 0, closed: false, delay }),
    {
        RequestGate { ceiling, in_flight: 0, delay, closed: false }
    }

    /// Asks for a slot.
    pub fn try_acquire(&mut self) -> (r: Admission)
        ensures
            final(self)@ == old(self)@.acquire(),
            final(self)@.bounded(),
            match r {
                Admission::Admitted { delay } => old(self)@.admits() && delay == old(self)@.delay,
                Admission::Busy => !old(self)@.closed && old(self)@.in_flight
                    >= old(self)@.ceiling,
                Admission::Closed => old(self)@.closed,
            },
    {
        proof {
            use_type_invariant(&*self);
        }
        if self.closed {
            Admission::Closed
        } else if self.in_flight < self.ceiling {
            self.in_flight = self.in_flight + 1;
            Admission::Admitted { delay: self.delay }
        } else {
            Admission::Busy
        }
    }

    /// Gives a slot back.
    pub fn release(&mut self)
        ensures
            final(self)@ == old(self)@.release(),
            final(self)@.bounded(),
    {
        proof {
            use_type_invariant(&*self);
        }
        if self.in_flight > 0 {
            self.in_flight = self.in_flight - 1;
        }
    }

    /// Closes admission: whoever asks from now on is told to give up.
    pub fn close(&mut self)
        ensures
            final(self)@ == old(self)@.close(),
            final(self)@.bounded(),
    {
        proof {
            use_type_invariant(&*self);
        }
        self.closed = true;
    }

    /// The number of requests in flight.
    pub fn in_flight(&self) -> (n: usize)
        ensures
            n == self@.in_flight,
            n <= self@.ceiling,
    {
        proof {
            use_type_invariant(self);
        }
        self.in_flight
    }

    /// The most requests that may be in flight at once.
    pub fn ceiling(&self) -> (n: usize)
        ensures
            n == self@.ceiling,
    {
        self.ceiling
    }
}

/// What one physical attempt against the transport produced.
#[derive(Debug)]
pub enum AttemptOutcome {
    /// The transport delivered a response with this status code.
    Response { status: u16 },
    /// The transport failed; the text says how.
    TransportFailure(String),
}

/// An attempt's outcome as plain values.
pub ghost enum OutcomeModel {
    Response { status: u16 },
    TransportFailure(Seq<char>),
}

impl View for AttemptOutcome {
    type V = OutcomeModel;

    open spec fn view(&self) -> OutcomeModel {
        match *self {
            AttemptOutcome::Response { status } => OutcomeModel::Response { status },
            AttemptOutcome::TransportFailure(text) => OutcomeModel::TransportFailure(text@),
        }
    }
}

impl OutcomeModel {
    /// Whether the outcome ends the request: any response that is no server
    /// failure is handed to the caller as it is.
    pub open spec fn is_final(self) -> bool {
        self is Response && !is_server_error(self->status)
    }

    /// The failure that a retryable outcome is remembered as.
    pub open spec fn failure(self) -> ErrorModel {
        match self {
            OutcomeModel::Response { status } => ErrorModel::NetworkError(
                "Server error: "@ + status_line(status),
            ),
            OutcomeModel::TransportFailure(text) => ErrorModel::HttpError(text),
        }
    }
}

/// What to do next for a request.
#[derive(Debug)]
pub enum AttemptPlan {
    /// Make the attempt with this number, counted from 1.
    Send { attempt: u32 },
    /// Give up with this error.
    Abort(FerrisFetcherError),
}

/// A plan as plain values.
pub ghost enum PlanModel {
    Send { attempt: nat },
    Abort(ErrorModel),
}

impl View for AttemptPlan {
    type V = PlanModel;

    open spec fn view(&self) -> PlanModel {
        match *self {
            AttemptPlan::Send { attempt } => PlanModel::Send { attempt: attempt as nat },
            AttemptPlan::Abort(e) => PlanModel::Abort(e@),
        }
    }
}

/// What an attempt's outcome means for the request.
#[derive(Debug, Clone, Copy)]
pub enum RetryDecision {
    /// Hand the response to the caller.
    Deliver,
    /// Wait this long, then ask for the next plan.
    Backoff(Duration),
    /// No attempt is left; the next plan carries the error.
    Exhausted,
}

/// The progress of one logical request as plain values.
pub ghost struct RetryModel {
    pub policy: RetryPolicy,
    pub attempts: nat,
    pub last_error: Option<ErrorModel>,
}

/// The complaint about a request whose body cannot be sent again.
pub open spec fn not_replayable_complaint() -> Seq<char> {
    "Request body is not cloneable for retry"@
}

impl RetryModel {
    /// A request of which nothing was attempted yet.
    pub open spec fn fresh(policy: RetryPolicy) -> RetryModel {
        RetryModel { policy, attempts: 0, last_error: None }
    }

    /// The plan for the next attempt: give up with the last failure once the
    /// permitted attempts are used up, or right away when the body cannot be
    /// sent again; otherwise make the next attempt.
    pub open spec fn plan(self, replayable: bool) -> PlanModel {
        if self.attempts >= self.policy.max_attempts {
            PlanModel::Abort(
                match self.last_error {
                    Some(e) => e,
                    None => ErrorModel::RetryExhausted,
                },
            )
        } else if !replayable {
            PlanModel::Abort(ErrorModel::ConfigError(not_replayable_complaint()))
        } else {
            PlanModel::Send { attempt: self.attempts + 1 }
        }
    }

    /// The progress after the plan was taken: an attempt that is to be made
    /// is counted, and a failure that was handed out is no longer held.
    pub open spec fn planned(self, replayable: bool) -> RetryModel {
        if self.attempts >= self.policy.max_attempts {
            RetryModel { last_error: None, ..self }
        } else if !replayable {
            self
        } else {
            RetryModel { attempts: self.attempts + 1, ..self }
        }
    }

    /// Whether a retryable failure of the current attempt leaves another
    /// attempt.
    pub open spec fn may_retry(self) -> bool {
        self.attempts < self.policy.max_attempts
    }

    /// The progress after the outcome of the current attempt was recorded.
    pub open spec fn judged(self, outcome: OutcomeModel) -> RetryModel {
        if outcome.is_final() {
            self
        } else {
            RetryModel { last_error: Some(outcome.failure()), ..self }
        }
    }
}

/// What the outcome of the current attempt means: a final outcome is
/// delivered; a retryable failure leads to a pause of `delay_nanos`
/// nanoseconds or, when no attempt is left, to exhaustion.
pub ghost enum DecisionModel {
    Deliver,
    Backoff { delay_nanos: nat },
    Exhausted,
}

/// The decision on the outcome of the current attempt.
pub open spec fn decision_on(progress: RetryModel, outcome: OutcomeModel) -> DecisionModel {
    if outcome.is_final() {
        DecisionModel::Deliver
    } else if progress.may_retry() {
        DecisionModel::Backoff { delay_nanos: progress.policy.spec_backoff_nanos(progress.attempts) }
    } else {
        DecisionModel::Exhausted
    }
}

/// The progress after the attempt under way was settled: as after its
/// outcome was recorded, but a failure that ends the request is handed out
/// and no longer held.
pub open spec fn settled(progress: RetryModel, outcome: OutcomeModel) -> RetryModel {
    if decision_on(progress, outcome) is Exhausted {
        RetryModel { last_error: None, ..progress.judged(outcome) }
    } else {
        progress.judged(outcome)
    }
}

/// Whether an executable decision is the given one.
pub open spec fn decision_is(decision: RetryDecision, model: DecisionModel) -> bool {
    match decision {
        RetryDecision::Deliver => model is Deliver,
        RetryDecision::Backoff(delay) => model is Backoff && duration_nanos(delay)
            == model->delay_nanos,
        RetryDecision::Exhausted => model is Exhausted,
    }
}

/// How a request ended.
pub ghost enum RequestEnd {
    /// A response with this status was delivered.
    Delivered { status: u16 },
    /// The request failed with this error.
    Failed(ErrorModel),
    /// The transport was not asked often enough to tell.
    Open,
}

/// The end of a request and the number of attempts made.
pub ghost struct RequestRun {
    pub attempts: nat,
    pub end: RequestEnd,
}

/// Runs a request whose body can be sent again against a transport that
/// answers the attempts with `outcomes`, in order.
pub open spec fn run_request(progress: RetryModel, outcomes: Seq<OutcomeModel>) -> RequestRun
    decreases outcomes.len(),
{
    match progress.plan(true) {
        PlanModel::Abort(e) => RequestRun { attempts: progress.attempts, end: RequestEnd::Failed(e) },
        PlanModel::Send { attempt } => if outcomes.len() == 0 {
            RequestRun { attempts: progress.attempts, end: RequestEnd::Open }
        } else if outcomes.first().is_final() {
            RequestRun {
                attempts: attempt,
                end: RequestEnd::Delivered { status: outcomes.first()->status },
            }
        } else {
            run_request(progress.planned(true).judged(outcomes.first()), outcomes.drop_first())
        },
    }
}

/// Against a transport whose every answer is a retryable failure, a request
/// makes exactly as many attempts as are left to it, and fails with the last
/// failure it saw.
pub proof fn lemma_failing_transport_exhausts_attempts(
    progress: RetryModel,
    outcomes: Seq<OutcomeModel>,
)
    requires
        progress.attempts < progress.policy.max_attempts,
        outcomes.len() >= progress.policy.max_attempts - progress.attempts,
        forall|i: int| 0 <= i < outcomes.len() ==> !(#[trigger] outcomes[i]).is_final(),
    ensures
        run_request(progress, outcomes).attempts == progress.policy.max_attempts,
        run_request(progress, outcomes).end == RequestEnd::Failed(
            outcomes[progress.policy.max_attempts - progress.attempts - 1].failure(),
        ),
    decreases outcomes.len(),
{
    let next = progress.planned(true).judged(outcomes.first());
    let rest = outcomes.drop_first();
    assert(!outcomes[0].is_final());
    if next.attempts < next.policy.max_attempts {
        assert forall|i: int| 0 <= i < rest.len() implies !(#[trigger] rest[i]).is_final() by {
            assert(rest[i] == outcomes[i + 1]);
        }
        lemma_failing_transport_exhausts_attempts(next, rest);
        assert(rest[next.policy.max_attempts - next.attempts - 1] == outcomes[progress.policy.max_attempts
            - progress.attempts - 1]);
    } else {
        assert(run_request(next, rest).end == RequestEnd::Failed(outcomes[0].failure()));
    }
}

/// Against a transport that always answers with a server failure, a new
/// request with `max_attempts` of at least one makes exactly `max_attempts`
/// attempts and fails with the server error of the last answer.
pub proof fn lemma_server_errors_use_every_attempt(policy: RetryPolicy, statuses: Seq<u16>)
    requires
        policy.max_attempts >= 1,
        statuses.len() >= policy.max_attempts,
        forall|i: int| 0 <= i < statuses.len() ==> is_server_error(#[trigger] statuses[i]),
    ensures
        run_request(
            RetryModel::fresh(policy),
            Seq::new(statuses.len(), |i: int| OutcomeModel::Response { status: statuses[i] }),
        ) == (RequestRun {
            attempts: policy.max_attempts as nat,
            end: RequestEnd::Failed(
                ErrorModel::NetworkError(
                    "Server error: "@ + status_line(statuses[policy.max_attempts - 1]),
                ),
            ),
        }),
{
    let outcomes = Seq::new(statuses.len(), |i: int| OutcomeModel::Response { status: statuses[i] });
    lemma_failing_transport_exhausts_attempts(RetryModel::fresh(policy), outcomes);
}

/// The retrying executor: one logical request as up to `max_attempts`
/// physical attempts.
#[derive(Debug)]
pub struct RetryState {
    policy: RetryPolicy,
    attempts: u32,
    last_error: Option<FerrisFetcherError>,
}

impl View for RetryState {
    type V = RetryModel;

    closed spec fn view(&self) -> RetryModel {
        RetryModel {
            policy: self.policy,
            attempts: self.attempts as nat,
            last_error: match self.last_error {
                Some(e) => Some(e@),
                None => None,
            },
        }
    }
}

impl RetryState {
    /// A request of which nothing was attempted yet.
    pub fn new(policy: RetryPolicy) -> (state: Self)
        ensures
            state@ == RetryModel::fresh(policy),
    {
        RetryState { policy, attempts: 0, last_error: None }
    }

    /// The number of attempts planned so far.
    pub fn attempts(&self) -> (n: u32)
        ensures
            n == self@.attempts,
    {
        self.attempts
    }

    /// The policy that governs the attempts.
    pub fn policy(&self) -> (policy: RetryPolicy)
        ensures
            policy == self@.policy,
    {
        self.policy
    }

    /// Plans the next attempt. `replayable` says whether the request's body
    /// can be sent again.
    pub fn next_attempt(&mut self, replayable: bool) -> (plan: AttemptPlan)
        ensures
            plan@ == old(self)@.plan(replayable),
            final(self)@ == old(self)@.planned(replayable),
    {
        if self.attempts >= self.policy.max_attempts {
            let mut last: Option<FerrisFetcherError> = None;
            core::mem::swap(&mut self.last_error, &mut last);
            AttemptPlan::Abort(
                match last {
                    Some(e) => e,
                    None => FerrisFetcherError::RetryExhausted,
                },
            )
        } else if !replayable {
            AttemptPlan::Abort(
                FerrisFetcherError::ConfigError(
                    "Request body is not cloneable for retry".to_owned(),
                ),
            )
        } else {
            self.attempts = self.attempts + 1;
            AttemptPlan::Send { attempt: self.attempts }
        }
    }

    /// Records the outcome of the attempt that was planned last.
    pub fn record(&mut self, outcome: AttemptOutcome) -> (decision: RetryDecision)
        requires
            old(self)@.attempts >= 1,
        ensures
            final(self)@ == old(self)@.judged(outcome@),
            decision_is(decision, decision_on(old(self)@, outcome@)),
    {
        let failure = match outcome {
            AttemptOutcome::Response { status } => {
                if status >= 500 && status < 600 {
                    FerrisFetcherError::NetworkError(
                        concat2("Server error: ", describe_status(status).as_str()),
                    )
                } else {
                    return RetryDecision::Deliver;
                }
            },
            AttemptOutcome::TransportFailure(text) => FerrisFetcherError::HttpError(text),
        };
        self.last_error = Some(failure);
        if self.attempts < self.policy.max_attempts {
            RetryDecision::Backoff(self.policy.backoff_delay(self.attempts))
        } else {
            RetryDecision::Exhausted
        }
    }
}

/// Where a request stands on its way through the client.
#[derive(Debug, Clone, Copy, PartialEq, Eq, Structural)]
pub enum RequestStage {
    /// It waits to be let in.
    Queued,
    /// It holds a slot and no attempt is under way.
    Admitted,
    /// It holds a slot and an attempt is under way.
    Sending,
    /// It is over and holds no slot.
    Finished,
}

impl RequestStage {
    /// Whether a request at this stage holds a slot.
    pub open spec fn holds_slot(self) -> bool {
        self is Admitted || self is Sending
    }
}

/// The answer to a request that asks to be let in.
#[derive(Debug)]
pub enum Entry {
    /// The request holds a slot. Its caller waits for the pacing delay, if
    /// there is one, and goes on.
    Admitted { delay: Option<Duration> },
    /// Every slot is taken; the caller waits for one to be given back and
    /// asks again.
    Wait,
    /// Admission was closed; the request fails with this error.
    Cancelled(FerrisFetcherError),
}

/// How an attempt was settled.
#[derive(Debug)]
pub enum Settlement {
    /// Hand the response to the caller.
    Deliver,
    /// Wait this long, then plan the next attempt.
    Pause(Duration),
    /// The request failed with this error.
    Fail(FerrisFetcherError),
}

/// A request on its way through the client, as plain values.
pub ghost struct FlowModel {
    pub stage: RequestStage,
    pub retry: RetryModel,
}

/// One request on its way through the client: whether it holds a slot,
/// and how far its attempts have got.
#[derive(Debug)]
pub struct RequestFlow {
    stage: RequestStage,
    retry: RetryState,
}

impl View for RequestFlow {
    type V = FlowModel;

    closed spec fn view(&self) -> FlowModel {
        FlowModel { stage: self.stage, retry: self.retry@ }
    }
}

impl RequestFlow {
    /// While an attempt is under way, at least one attempt has been
    /// planned.
    #[verifier::type_invariant]
    spec fn attempt_counted(&self) -> bool {
        self.stage is Sending ==> self.retry@.attempts >= 1
    }

    /// Where the request stands.
    pub fn stage(&self) -> (stage: RequestStage)
        ensures
            stage == self@.stage,
    {
        self.stage
    }

    /// Whether the request holds a slot.
    pub fn holds_slot(&self) -> (b: bool)
        ensures
            b == self@.stage.holds_slot(),
    {
        matches!(self.stage, RequestStage::Admitted | RequestStage::Sending)
    }

    /// The number of attempts planned so far.
    pub fn attempts(&self) -> (n: u32)
        ensures
            n == self@.retry.attempts,
    {
        self.retry.attempts()
    }

    /// Moves the request to a stage at which no attempt is under way.
    fn set_stage(&mut self, stage: RequestStage)
        requires
            !(stage is Sending),
        ensures
            final(self)@ == (FlowModel { stage, ..old(self)@ }),
    {
        self.stage = stage;
    }

    /// Takes the retry state out, leaving a fresh one in its place.
    fn take_retry(&mut self) -> (retry: RetryState)
        requires
            !(old(self).stage is Sending),
        ensures
            retry == old(self).retry,
            final(self).stage == old(self).stage,
    {
        let mut retry = RetryState::new(self.retry.policy());
        core::mem::swap(&mut self.retry, &mut retry);
        retry
    }

    /// Plans the next attempt; a request that is given up is over.
    fn plan_attempt(&mut self, replayable: bool) -> (plan: AttemptPlan)
        requires
            old(self)@.stage is Admitted,
        ensures
            plan@ == old(self)@.retry.plan(replayable),
            final(self)@.retry == old(self)@.retry.planned(replayable),
            final(self)@.stage == (match plan {
                AttemptPlan::Send { .. } => RequestStage::Sending,
                AttemptPlan::Abort(_) => RequestStage::Finished,
            }),
    {
        let mut retry = self.take_retry();
        let plan = retry.next_attempt(replayable);
        let stage = match &plan {
            AttemptPlan::Send { .. } => RequestStage::Sending,
            AttemptPlan::Abort(_) => RequestStage::Finished,
        };
        *self = RequestFlow { stage, retry };
        plan
    }

    /// Judges the outcome of the attempt under way.
    fn judge(&mut self, outcome: AttemptOutcome) -> (r: Settlement)
        requires
            old(self)@.stage is Sending,
        ensures
            final(self)@.retry == settled(old(self)@.retry, outcome@),
            match decision_on(old(self)@.retry, outcome@) {
                DecisionModel::Deliver => r is Deliver && final(self)@.stage is Finished,
                DecisionModel::Backoff { delay_nanos } => r is Pause && duration_nanos(r->Pause_0)
                    == delay_nanos && final(self)@.stage is Admitted,
                DecisionModel::Exhausted => r is Fail && r->Fail_0@ == outcome@.failure() && final(self)@.stage is Finished,
            },
    {
        proof {
            use_type_invariant(&*self);
        }
        self.stage = RequestStage::Admitted;
        let mut retry = self.take_retry();
        let decision = retry.record(outcome);
        match decision {
            RetryDecision::Deliver => {
                *self = RequestFlow { stage: RequestStage::Finished, retry };
                Settlement::Deliver
            },
            RetryDecision::Backoff(delay) => {
                *self = RequestFlow { stage: RequestStage::Admitted, retry };
                Settlement::Pause(delay)
            },
            RetryDecision::Exhausted => {
                let plan = retry.next_attempt(true);
                *self = RequestFlow { stage: RequestStage::Finished, retry };
                match plan {
                    AttemptPlan::Abort(e) => Settlement::Fail(e),
                    AttemptPlan::Send { .. } => Settlement::Fail(FerrisFetcherError::RetryExhausted),
                }
            },
        }
    }
}

/// How the transport is to be set up for a configuration.
#[derive(Debug, Clone, Copy)]
pub struct TransportSettings {
    /// Time allowed for a whole exchange.
    pub timeout: Duration,
    /// Time allowed for connecting.
    pub connect_timeout: Duration,
    /// Interval of TCP keep-alive probes.
    pub tcp_keep_alive: Duration,
    /// Most idle connections kept per host: a quarter of the pool.
    pub pool_max_idle_per_host: usize,
    /// Time after which an idle connection is dropped.
    pub pool_idle_timeout: Duration,
    /// How many redirects to follow; `None` to follow none.
    pub redirect_limit: Option<usize>,
    /// Whether cookies are kept between requests.
    pub cookie_store: bool,
}

/// HTTP client with rate limiting and retry capabilities.
#[derive(Debug)]
pub struct HttpClient {
    config: Config,
    gate: RequestGate,
    stats: RequestStats,
}

impl HttpClient {
    /// The configuration.
    pub closed spec fn spec_config(&self) -> Config {
        self.config
    }

    /// The admission gate.
    pub closed spec fn spec_gate(&self) -> RequestGate {
        self.gate
    }

    /// The statistics.
    pub closed spec fn spec_stats(&self) -> RequestStats {
        self.stats
    }

    /// The pacing delay of a configuration: the delay between requests of
    /// its rate limit.
    pub open spec fn pacing_delay(config: Config) -> Option<Duration> {
        match config.rate_limit {
            Some(limit) => Some(limit.delay_between_requests),
            None => None,
        }
    }

    /// Create a new HTTP client with the given configuration, which must be
    /// valid.
    pub fn new(config: Config) -> (r: Result<Self, FerrisFetcherError>)
        ensures
            match r {
                Ok(client) => {
                    &&& config.spec_problem() is None
                    &&& client.spec_config() == config
                    &&& client.spec_gate()@ == (GateModel {
                        ceiling: config.max_concurrent_requests as nat,
                        in_flight: 0,
                        closed: false,
                        delay: Self::pacing_delay(config),
                    })
                    &&& client.spec_stats() == RequestStats::spec_new()
                },
                Err(e) => e@ is ConfigError && config.spec_problem() == Some(e@->ConfigError_0),
            },
    {
        config.validate()?;
        let delay = match &config.rate_limit {
            Some(limit) => Some(limit.delay_between_requests),
            None => None,
        };
        let gate = RequestGate::new(config.max_concurrent_requests, delay);
        Ok(HttpClient { config, gate, stats: RequestStats::new() })
    }

    /// How the transport is to be set up.
    pub fn transport_settings(&self) -> (s: TransportSettings)
        ensures
            s.timeout == self.spec_config().timeout,
            s.connect_timeout == self.spec_config().connect_timeout,
            s.tcp_keep_alive == self.spec_config().tcp_keep_alive,
            s.pool_max_idle_per_host == self.spec_config().connection_pool_size / 4,
            s.pool_idle_timeout == self.spec_config().keep_alive_timeout,
            s.redirect_limit == if self.spec_config().follow_redirects {
                Some(self.spec_config().max_redirects)
            } else {
                None
            },
            s.cookie_store == self.spec_config().cookie_jar,
    {
        TransportSettings {
            timeout: self.config.timeout,
            connect_timeout: self.config.connect_timeout,
            tcp_keep_alive: self.config.tcp_keep_alive,
            pool_max_idle_per_host: self.config.connection_pool_size / 4,
            pool_idle_timeout: self.config.keep_alive_timeout,
            redirect_limit: if self.config.follow_redirects {
                Some(self.config.max_redirects)
            } else {
                None
            },
            cookie_store: self.config.cookie_jar,
        }
    }

    /// The configuration.
    pub fn config(&self) -> (c: &Config)
        ensures
            *c == self.spec_config(),
    {
        &self.config
    }

    /// Checks the address of a request.
    pub fn parse_url(address: &str) -> (r: Result<Url, FerrisFetcherError>)
        ensures
            match r {
                Ok(_) => url_error(address@) is None,
                Err(e) => url_error(address@) is Some && e@ == ErrorModel::InvalidUrl(
                    url_error(address@)->Some_0,
                ),
            },
    {
        match parse_address(address) {
            Ok(url) => Ok(url),
            Err(complaint) => Err(FerrisFetcherError::InvalidUrl(complaint)),
        }
    }

    /// A request that waits to be let in.
    pub fn new_request(&self) -> (flow: RequestFlow)
        ensures
            flow@ == (FlowModel {
                stage: RequestStage::Queued,
                retry: RetryModel::fresh(self.spec_config().retry_policy),
            }),
    {
        RequestFlow { stage: RequestStage::Queued, retry: RetryState::new(self.config.retry_policy) }
    }

    /// Asks for a slot for a request that waits to be let in. The request
    /// is let in while a slot is free and told to wait while none is; once
    /// admission is closed it fails as cancelled. A request that is never
    /// let in is not counted in the statistics.
    pub fn enter(&mut self, flow: &mut RequestFlow) -> (r: Entry)
        requires
            old(flow)@.stage is Queued,
        ensures
            final(self).spec_config() == old(self).spec_config(),
            final(self).spec_stats() == old(self).spec_stats(),
            final(self).spec_gate()@ == old(self).spec_gate()@.acquire(),
            final(flow)@.retry == old(flow)@.retry,
            match r {
                Entry::Admitted { delay } => {
                    &&& old(self).spec_gate()@.admits()
                    &&& delay == old(self).spec_gate()@.delay
                    &&& final(flow)@.stage is Admitted
                },
                Entry::Wait => {
                    &&& !old(self).spec_gate()@.closed
                    &&& old(self).spec_gate()@.in_flight >= old(self).spec_gate()@.ceiling
                    &&& final(flow)@.stage is Queued
                },
                Entry::Cancelled(e) => {
                    &&& old(self).spec_gate()@.closed
                    &&& e@ == ErrorModel::TaskCancelled
                    &&& final(flow)@.stage is Finished
                },
            },
    {
        match self.gate.try_acquire() {
            Admission::Admitted { delay } => {
                flow.set_stage(RequestStage::Admitted);
                Entry::Admitted { delay }
            },
            Admission::Busy => Entry::Wait,
            Admission::Closed => {
                flow.set_stage(RequestStage::Finished);
                Entry::Cancelled(FerrisFetcherError::TaskCancelled)
            },
        }
    }

    /// Closes admission: requests that wait to be let in fail as cancelled
    /// when they ask next. Requests that hold a slot go on.
    pub fn close(&mut self)
        ensures
            final(self).spec_config() == old(self).spec_config(),
            final(self).spec_stats() == old(self).spec_stats(),
            final(self).spec_gate()@ == old(self).spec_gate()@.close(),
    {
        self.gate.close();
    }

    /// Checks the address of a request that was let in. A request with an
    /// invalid address ends here: it gives its slot back and counts as
    /// failed, with the time `elapsed` that it took.
    pub fn check_address(
        &mut self,
        flow: &mut RequestFlow,
        address: &str,
        elapsed: Duration,
    ) -> (r: Result<Url, FerrisFetcherError>)
        requires
            old(flow)@.stage is Admitted,
        ensures
            final(self).spec_config() == old(self).spec_config(),
            final(flow)@.retry == old(flow)@.retry,
            match r {
                Ok(_) => {
                    &&& url_error(address@) is None
                    &&& final(flow)@.stage is Admitted
                    &&& final(self).spec_gate()@ == old(self).spec_gate()@
                    &&& final(self).spec_stats() == old(self).spec_stats()
                },
                Err(e) => {
                    &&& url_error(address@) is Some
                    &&& e@ == ErrorModel::InvalidUrl(url_error(address@)->Some_0)
                    &&& final(flow)@.stage is Finished
                    &&& final(self).spec_gate()@ == old(self).spec_gate()@.release()
                    &&& final(self).spec_stats() == old(self).spec_stats().spec_failed(elapsed)
                },
            },
    {
        match Self::parse_url(address) {
            Ok(url) => Ok(url),
            Err(e) => {
                self.gate.release();
                self.stats.record(false, elapsed, None);
                flow.set_stage(RequestStage::Finished);
                Err(e)
            },
        }
    }

    /// Plans the next attempt of a request that was let in. `replayable`
    /// says whether the request's body can be sent again. A request that is
    /// given up ends here: it gives its slot back and counts as failed,
    /// with the time `elapsed` that it took.
    pub fn attempt(&mut self, flow: &mut RequestFlow, replayable: bool, elapsed: Duration) -> (plan:
        AttemptPlan)
        requires
            old(flow)@.stage is Admitted,
        ensures
            final(self).spec_config() == old(self).spec_config(),
            plan@ == old(flow)@.retry.plan(replayable),
            final(flow)@.retry == old(flow)@.retry.planned(replayable),
            match plan {
                AttemptPlan::Send { .. } => {
                    &&& final(flow)@.stage is Sending
                    &&& final(self).spec_gate()@ == old(self).spec_gate()@
                    &&& final(self).spec_stats() == old(self).spec_stats()
                },
                AttemptPlan::Abort(_) => {
                    &&& final(flow)@.stage is Finished
                    &&& final(self).spec_gate()@ == old(self).spec_gate()@.release()
                    &&& final(self).spec_stats() == old(self).spec_stats().spec_failed(elapsed)
                },
            },
    {
        let plan = flow.plan_attempt(replayable);
        match &plan {
            AttemptPlan::Send { .. } => {},
            AttemptPlan::Abort(_) => {
                self.gate.release();
                self.stats.record(false, elapsed, None);
            },
        }
        plan
    }

    /// Settles the attempt that is being sent. A response that is no server
    /// failure is delivered: the request counts as a success with the time
    /// it took and the bytes it announced, and gives its slot back. A
    /// retryable failure leads to a pause while an attempt is left, with
    /// the slot kept; when none is left the request fails with that
    /// failure: it gives its slot back and counts as failed, with the time
    /// it took.
    pub fn settle(
        &mut self,
        flow: &mut RequestFlow,
        outcome: AttemptOutcome,
        elapsed: Duration,
        bytes: Option<u64>,
    ) -> (r: Settlement)
        requires
            old(flow)@.stage is Sending,
        ensures
            final(self).spec_config() == old(self).spec_config(),
            final(flow)@.retry == settled(old(flow)@.retry, outcome@),
            match decision_on(old(flow)@.retry, outcome@) {
                DecisionModel::Deliver => {
                    &&& r is Deliver
                    &&& final(flow)@.stage is Finished
                    &&& final(self).spec_gate()@ == old(self).spec_gate()@.release()
                    &&& final(self).spec_stats() == old(self).spec_stats().spec_record(
                        true,
                        crate::time::spec_whole_millis(elapsed) as u64,
                        bytes,
                    )
                },
                DecisionModel::Backoff { delay_nanos } => {
                    &&& r is Pause
                    &&& duration_nanos(r->Pause_0) == delay_nanos
                    &&& final(flow)@.stage is Admitted
                    &&& final(self).spec_gate()@ == old(self).spec_gate()@
                    &&& final(self).spec_stats() == old(self).spec_stats()
                },
                DecisionModel::Exhausted => {
                    &&& r is Fail
                    &&& r->Fail_0@ == outcome@.failure()
                    &&& final(flow)@.stage is Finished
                    &&& final(self).spec_gate()@ == old(self).spec_gate()@.release()
                    &&& final(self).spec_stats() == old(self).spec_stats().spec_failed(elapsed)
                },
            },
    {
        match flow.judge(outcome) {
            Settlement::Deliver => {
                self.gate.release();
                self.stats.record(true, elapsed, bytes);
                Settlement::Deliver
            },
            Settlement::Pause(delay) => Settlement::Pause(delay),
            Settlement::Fail(e) => {
                self.gate.release();
                self.stats.record(false, elapsed, None);
                Settlement::Fail(e)
            },
        }
    }

    /// Ends a request wherever it stands, as when its caller went away. A
    /// request that held a slot gives it back and counts as failed, with
    /// the time `elapsed` that it took; one that held none leaves no trace.
    pub fn abandon(&mut self, flow: &mut RequestFlow, elapsed: Duration)
        ensures
            final(self).spec_config() == old(self).spec_config(),
            final(flow)@.stage is Finished,
            final(flow)@.retry == old(flow)@.retry,
            final(self).spec_gate()@ == if old(flow)@.stage.holds_slot() {
                old(self).spec_gate()@.release()
            } else {
                old(self).spec_gate()@
            },
            final(self).spec_stats() == if old(flow)@.stage.holds_slot() {
                old(self).spec_stats().spec_failed(elapsed)
            } else {
                old(self).spec_stats()
            },
    {
        if flow.holds_slot() {
            self.gate.release();
            self.stats.record(false, elapsed, None);
        }
        flow.set_stage(RequestStage::Finished);
    }

    /// Calculate retry delay based on attempt number and policy.
    pub fn calculate_retry_delay(&self, attempt: u32) -> (d: Duration)
        requires
            attempt >= 1,
        ensures
            duration_nanos(d) == self.spec_config().retry_policy.spec_backoff_nanos(
                attempt as nat,
            ),
    {
        self.config.retry_policy.backoff_delay(attempt)
    }

    /// Update request statistics.
    pub fn update_stats(&mut self, success: bool, duration: Duration, bytes: Option<u64>)
        ensures
            final(self).spec_stats() == old(self).spec_stats().spec_record(
                success,
                crate::time::spec_whole_millis(duration) as u64,
                bytes,
            ),
            final(self).spec_config() == old(self).spec_config(),
            final(self).spec_gate() == old(self).spec_gate(),
    {
        self.stats.record(success, duration, bytes);
    }

    /// Get current request statistics.
    pub fn get_stats(&self) -> (s: RequestStats)
        ensures
            s == self.spec_stats(),
    {
        self.stats
    }

    /// Reset request statistics.
    pub fn reset_stats(&mut self)
        ensures
            final(self).spec_stats() == RequestStats::spec_new(),
            final(self).spec_stats().total_requests == 0,
            final(self).spec_stats().spec_success_rate().numerator == 0,
            final(self).spec_config() == old(self).spec_config(),
            final(self).spec_gate() == old(self).spec_gate(),
    {
        self.stats.reset();
    }

    /// Check if the client is configured for rate limiting.
    pub fn has_rate_limiting(&self) -> (b: bool)
        ensures
            b == (self.spec_config().rate_limit is Some),
    {
        self.config.rate_limit.is_some()
    }

    /// Get the maximum concurrent requests.
    pub fn max_concurrent_requests(&self) -> (n: usize)
        ensures
            n == self.spec_config().max_concurrent_requests,
    {
        self.config.max_concurrent_requests
    }
}

} // verus!
