//! The execution engine: which chunk goes to which node, when to wait, and when a
//! submission is over. The engine decides; its driver sends, waits and reports back.

use vstd::prelude::*;

use crate::error::{Cause, Error};

verus! {

/// What a status code means for the attempt that received it.
#[derive(Clone, Copy, Debug, PartialEq, Eq)]
pub enum StatusClass {
    /// The request was accepted for processing.
    Success,
    /// The node could not take the request now; another attempt may succeed.
    Retryable,
    /// The request was rejected; no attempt will succeed.
    Fatal,
}

/// The table that sorts status codes into classes: the codes that mean success, the
/// codes that are retried, and every other code, which is fatal.
#[derive(Clone, Debug, PartialEq, Eq)]
pub struct StatusTable {
    pub success: Vec<i32>,
    pub retryable: Vec<i32>,
}

/// How often and how patiently one chunk is attempted.
#[derive(Clone, Copy, Debug, PartialEq, Eq)]
pub struct RetryPolicy {
    /// The number of attempts per chunk. At least one attempt is always made.
    pub max_attempts: u32,
    /// The wait after the first failed attempt, in milliseconds.
    pub min_backoff_millis: u64,
    /// The longest wait between two attempts, in milliseconds.
    pub max_backoff_millis: u64,
}

/// What a submission depends on besides the events: how many nodes and chunks there
/// are, the retry policy, the time budget, and the status table.
#[derive(Clone, Debug, PartialEq, Eq)]
pub struct EngineConfig {
    pub nodes: usize,
    pub chunks: u32,
    pub policy: RetryPolicy,
    pub timeout_millis: Option<u64>,
    pub table: StatusTable,
}

/// What the engine asks its driver to do next.
#[derive(Clone, Copy, Debug, PartialEq, Eq)]
pub enum Action {
    /// Send chunk number `chunk` to the node at position `node` of the node list.
    Send { chunk: u32, node: usize },
    /// Wait this long, then report that the wait is over.
    Wait { millis: u64 },
    /// Every chunk was accepted; the submission is over.
    Complete { chunks: u32 },
    /// The submission is over without success. `accepted` chunks were accepted before.
    Fail { error: Error, accepted: u32 },
}

/// What the driver reports back. Every event says how many milliseconds have passed
/// since the submission began.
#[derive(Clone, Copy, Debug, PartialEq, Eq)]
pub enum Event {
    /// The node answered the last request with this status code.
    Response { status: i32, elapsed_millis: u64 },
    /// The transport failed to deliver the last request or its response.
    TransportError { elapsed_millis: u64 },
    /// The wait that was asked for is over.
    BackoffElapsed { elapsed_millis: u64 },
}

/// Where a submission stands: the chunk in work, the number of the current attempt on
/// it, the round-robin cursor into the node list, the last transient failure seen, and
/// the action that is pending.
#[derive(Clone, Copy, Debug, PartialEq, Eq)]
pub struct EngineState {
    pub chunk: u32,
    pub attempt: u32,
    pub cursor: usize,
    pub last: Option<Cause>,
    pub pending: Action,
}

/// The class of `code` under the table of `success` and `retryable` codes.
pub open spec fn spec_classify(table: StatusTable, code: i32) -> StatusClass {
    if table.success@.contains(code) {
        StatusClass::Success
    } else if table.retryable@.contains(code) {
        StatusClass::Retryable
    } else {
        StatusClass::Fatal
    }
}

/// The smaller of two numbers.
pub open spec fn spec_min(a: nat, b: nat) -> nat {
    if a <= b {
        a
    } else {
        b
    }
}

/// The wait after failed attempt number `attempt` (counted from one): the minimum
/// after the first, doubled after each further one, and never above the maximum.
pub open spec fn spec_backoff(policy: RetryPolicy, attempt: nat) -> nat
    decreases attempt,
{
    if attempt <= 1 {
        spec_min(policy.min_backoff_millis as nat, policy.max_backoff_millis as nat)
    } else {
        spec_min(2 * spec_backoff(policy, (attempt - 1) as nat), policy.max_backoff_millis as nat)
    }
}

/// Whether the time budget of `config` is exceeded after `elapsed` milliseconds: more
/// time has passed than the budget holds. A submission that has used exactly its budget
/// may still start an attempt.
pub open spec fn spec_timed_out(config: EngineConfig, elapsed: u64) -> bool {
    config.timeout_millis is Some && elapsed > config.timeout_millis->Some_0
}

/// The state in which the action `pending` has just been issued.
pub open spec fn issue(s: EngineState, pending: Action) -> EngineState {
    EngineState { pending, ..s }
}

/// The start of an attempt on chunk `s.chunk` with the cursor at `s.cursor`: the
/// submission is complete where no chunk is left; it fails where there is no node or
/// the time budget is exceeded; else the chunk goes to the node under the cursor.
pub open spec fn spec_attempt(config: EngineConfig, s: EngineState, elapsed: u64) -> EngineState {
    if s.chunk >= config.chunks {
        issue(s, Action::Complete { chunks: config.chunks })
    } else if config.nodes == 0 {
        issue(s, Action::Fail { error: Error::MissingNodeList, accepted: s.chunk })
    } else if spec_timed_out(config, elapsed) {
        issue(s, Action::Fail { error: Error::TimeoutExceeded { last_seen: s.last }, accepted: s.chunk })
    } else {
        issue(s, Action::Send { chunk: s.chunk, node: (s.cursor % config.nodes) as usize })
    }
}

/// The cursor after it has moved on by one node, wrapping at the end of the list.
pub open spec fn spec_advance(config: EngineConfig, cursor: usize) -> usize {
    if config.nodes == 0 {
        0
    } else {
        ((cursor % config.nodes + 1) % (config.nodes as int)) as usize
    }
}

/// The state in which a submission begins: the first attempt on the first chunk, at
/// the first node.
pub open spec fn spec_begin(config: EngineConfig, elapsed: u64) -> EngineState {
    spec_attempt(
        config,
        EngineState {
            chunk: 0,
            attempt: 1,
            cursor: 0,
            last: None,
            pending: Action::Complete { chunks: 0 },
        },
        elapsed,
    )
}

/// The state after a transient failure of the current attempt: the submission fails
/// where that was the last permitted attempt; else the backoff of that attempt is asked
/// for as a wait, whatever is left of the time budget. The budget is looked at again
/// when the wait is over.
pub open spec fn spec_transient(config: EngineConfig, s: EngineState, cause: Cause) -> EngineState {
    if s.attempt >= config.policy.max_attempts {
        EngineState {
            last: Some(cause),
            pending: Action::Fail {
                error: Error::MaxAttemptsExceeded { last: cause },
                accepted: s.chunk,
            },
            ..s
        }
    } else {
        EngineState {
            last: Some(cause),
            pending: Action::Wait { millis: spec_backoff(config.policy, s.attempt as nat) as u64 },
            ..s
        }
    }
}

/// The state after `event`. An answer counts only while a request is out, and the end
/// of a wait only while a wait is pending; any other event leaves the state as it is,
/// so that the pending action is issued again.
pub open spec fn spec_step(config: EngineConfig, s: EngineState, event: Event) -> EngineState {
    match (s.pending, event) {
        (Action::Send { .. }, Event::Response { status, elapsed_millis }) => {
            match spec_classify(config.table, status) {
                StatusClass::Success => spec_attempt(
                    config,
                    EngineState {
                        chunk: (s.chunk + 1) as u32,
                        attempt: 1,
                        cursor: spec_advance(config, s.cursor),
                        ..s
                    },
                    elapsed_millis,
                ),
                StatusClass::Retryable => spec_transient(config, s, Cause::Status(status)),
                StatusClass::Fatal => issue(
                    s,
                    Action::Fail {
                        error: Error::FatalProtocolFailure { status },
                        accepted: s.chunk,
                    },
                ),
            }
        },
        (Action::Send { .. }, Event::TransportError { .. }) => spec_transient(
            config,
            s,
            Cause::Transport,
        ),
        (Action::Wait { .. }, Event::BackoffElapsed { elapsed_millis }) => spec_attempt(
            config,
            EngineState {
                attempt: (s.attempt + 1) as u32,
                cursor: spec_advance(config, s.cursor),
                ..s
            },
            elapsed_millis,
        ),
        _ => s,
    }
}

/// Whether `s` is a state that a submission under `config` can be in: attempts are
/// counted from one; a request is out only for the chunk in work, which exists, and to
/// a node of the list; and a wait is pending only while another attempt is permitted,
/// and is the backoff of the attempt that failed.
pub open spec fn reachable(config: EngineConfig, s: EngineState) -> bool {
    &&& s.attempt >= 1
    &&& s.chunk <= config.chunks
    &&& s.pending is Send ==> s.chunk < config.chunks && s.pending->Send_chunk == s.chunk
        && s.pending->Send_node < config.nodes
    &&& s.pending is Wait ==> s.chunk < config.chunks && config.nodes > 0 && s.attempt
        < config.policy.max_attempts && s.pending->Wait_millis == spec_backoff(
        config.policy,
        s.attempt as nat,
    )
}

impl StatusTable {
    /// The table of the network as it stands: `OK` means success; `BUSY`,
    /// `PLATFORM_NOT_ACTIVE` and `THROTTLED_AT_CONSENSUS` are retried.
    pub fn standard() -> (table: StatusTable)
        ensures
            table.success@ == seq![0i32],
            table.retryable@ == seq![12i32, 67i32, 366i32],
    {
        StatusTable { success: vec![0i32], retryable: vec![12i32, 67i32, 366i32] }
    }

    /// The class of `code` under this table.
    pub fn classify(&self, code: i32) -> (class: StatusClass)
        ensures
            class == spec_classify(*self, code),
    {
        if contains_code(&self.success, code) {
            StatusClass::Success
        } else if contains_code(&self.retryable, code) {
            StatusClass::Retryable
        } else {
            StatusClass::Fatal
        }
    }
}

/// Whether `code` is one of `codes`.
fn contains_code(codes: &Vec<i32>, code: i32) -> (found: bool)
    ensures
        found == codes@.contains(code),
{
    let mut i: usize = 0;
    while i < codes.len()
        invariant
            i <= codes.len(),
            forall|j: int| 0 <= j < i ==> codes@[j] != code,
        decreases codes.len() - i,
    {
        if codes[i] == code {
            return true;
        }
        i += 1;
    }
    false
}

/// The wait never exceeds the maximum.
pub proof fn lemma_backoff_capped(policy: RetryPolicy, attempt: nat)
    ensures
        spec_backoff(policy, attempt) <= policy.max_backoff_millis,
    decreases attempt,
{
    if attempt > 1 {
        lemma_backoff_capped(policy, (attempt - 1) as nat);
    }
}

/// The wait never shrinks from one attempt to the next.
pub proof fn lemma_backoff_monotonic(policy: RetryPolicy, attempt: nat)
    ensures
        spec_backoff(policy, attempt) <= spec_backoff(policy, attempt + 1),
{
    lemma_backoff_capped(policy, attempt);
    if attempt == 0 {
        assert(spec_backoff(policy, 0) == spec_backoff(policy, 1));
    }
}

/// Once the wait has reached the maximum, or where it starts at zero, it stays there.
proof fn lemma_backoff_settles(policy: RetryPolicy, from: nat, to: nat)
    requires
        1 <= from <= to,
        spec_backoff(policy, from) == policy.max_backoff_millis || spec_backoff(policy, from) == 0,
    ensures
        spec_backoff(policy, to) == spec_backoff(policy, from),
    decreases to - from,
{
    if from < to {
        lemma_backoff_settles(policy, from, (to - 1) as nat);
    }
}

impl RetryPolicy {
    /// The policy of a client that sets none: ten attempts, waits from a quarter of a
    /// second up to eight seconds.
    pub fn standard() -> (policy: RetryPolicy)
        ensures
            policy == (RetryPolicy {
                max_attempts: 10,
                min_backoff_millis: 250,
                max_backoff_millis: 8000,
            }),
    {
        RetryPolicy { max_attempts: 10, min_backoff_millis: 250, max_backoff_millis: 8000 }
    }

    /// The wait after failed attempt number `attempt`, in milliseconds.
    pub fn backoff_millis(&self, attempt: u32) -> (millis: u64)
        ensures
            millis == spec_backoff(*self, attempt as nat),
    {
        let max = self.max_backoff_millis;
        let mut wait: u64 = if self.min_backoff_millis <= max {
            self.min_backoff_millis
        } else {
            max
        };
        let mut i: u32 = 1;
        while i < attempt && wait < max && wait > 0
            invariant
                i >= 1,
                max == self.max_backoff_millis,
                wait == spec_backoff(*self, i as nat),
                wait <= max,
                i <= attempt || i == 1,
            decreases attempt - i,
        {
            wait = if wait > max / 2 {
                max
            } else {
                2 * wait
            };
            i += 1;
        }
        proof {
            if attempt == 0 {
                assert(spec_backoff(*self, 0) == spec_backoff(*self, 1));
            } else if i < attempt {
                lemma_backoff_settles(*self, i as nat, attempt as nat);
            }
        }
        wait
    }
}

/// One submission in progress: what it depends on and where it stands.
#[derive(Debug, PartialEq, Eq)]
pub struct Execution {
    config: EngineConfig,
    state: EngineState,
}

impl Execution {
    #[verifier::type_invariant]
    spec fn inv(self) -> bool {
        reachable(self.config, self.state)
    }

    /// What this submission depends on, as a value.
    pub closed spec fn spec_config(&self) -> EngineConfig {
        self.config
    }

    /// Where this submission stands, as a value.
    pub closed spec fn spec_state(&self) -> EngineState {
        self.state
    }

    /// Starts an attempt.
    fn attempt(config: &EngineConfig, s: EngineState, elapsed: u64) -> (next: EngineState)
        ensures
            next == spec_attempt(*config, s, elapsed),
    {
        let pending = if s.chunk >= config.chunks {
            Action::Complete { chunks: config.chunks }
        } else if config.nodes == 0 {
            Action::Fail { error: Error::MissingNodeList, accepted: s.chunk }
        } else if timed_out(config, elapsed) {
            Action::Fail { error: Error::TimeoutExceeded { last_seen: s.last }, accepted: s.chunk }
        } else {
            Action::Send { chunk: s.chunk, node: s.cursor % config.nodes }
        };
        EngineState { chunk: s.chunk, attempt: s.attempt, cursor: s.cursor, last: s.last, pending }
    }

    /// Handles a transient failure.
    fn transient(config: &EngineConfig, s: EngineState, cause: Cause) -> (next: EngineState)
        ensures
            next == spec_transient(*config, s, cause),
    {
        let pending = if s.attempt >= config.policy.max_attempts {
            Action::Fail { error: Error::MaxAttemptsExceeded { last: cause }, accepted: s.chunk }
        } else {
            Action::Wait { millis: config.policy.backoff_millis(s.attempt) }
        };
        EngineState {
            chunk: s.chunk,
            attempt: s.attempt,
            cursor: s.cursor,
            last: Some(cause),
            pending,
        }
    }

    /// Begins a submission of `config.chunks` chunks to `config.nodes` nodes,
    /// `elapsed_millis` milliseconds into its time budget. The first action is pending at
    /// once: the first chunk goes to the first node, unless there is nothing to send,
    /// nowhere to send it, or the time budget is exceeded.
    pub fn begin(config: EngineConfig, elapsed_millis: u64) -> (run: Execution)
        ensures
            run.spec_config() == config,
            run.spec_state() == spec_begin(config, elapsed_millis),
    {
        let start = EngineState {
            chunk: 0,
            attempt: 1,
            cursor: 0,
            last: None,
            pending: Action::Complete { chunks: 0 },
        };
        let state = Execution::attempt(&config, start, elapsed_millis);
        Execution { config, state }
    }

    /// What this submission depends on.
    pub fn config(&self) -> (config: &EngineConfig)
        ensures
            *config == self.spec_config(),
    {
        &self.config
    }

    /// Where this submission stands.
    pub fn state(&self) -> (state: EngineState)
        ensures
            state == self.spec_state(),
            reachable(self.spec_config(), state),
    {
        proof {
            use_type_invariant(self);
        }
        self.state
    }

    /// The action that is pending: what the driver is to do next.
    pub fn pending(&self) -> (action: Action)
        ensures
            action == self.spec_state().pending,
            reachable(self.spec_config(), self.spec_state()),
    {
        proof {
            use_type_invariant(self);
        }
        self.state.pending
    }

    /// Whether the submission is over, with or without success.
    pub fn is_finished(&self) -> (done: bool)
        ensures
            done == (self.spec_state().pending is Complete || self.spec_state().pending is Fail),
    {
        match self.state.pending {
            Action::Complete { .. } => true,
            Action::Fail { .. } => true,
            _ => false,
        }
    }

    /// Takes in what the driver reports and returns what it is to do next.
    ///
    /// A success status moves on to the next chunk and the next node; a retryable status
    /// or a transport error asks for the backoff of the failed attempt as a wait, or ends
    /// the submission where it was the last permitted attempt; any other status ends the
    /// submission at once. The end of
    /// a wait starts the next attempt at the next node, unless the time budget is used
    /// up. An event that does not answer the pending action changes nothing.
    pub fn step(&mut self, event: Event) -> (action: Action)
        ensures
            final(self).spec_config() == old(self).spec_config(),
            final(self).spec_state() == spec_step(old(self).spec_config(), old(self).spec_state(), event),
            action == final(self).spec_state().pending,
            reachable(final(self).spec_config(), final(self).spec_state()),
    {
        proof {
            use_type_invariant(&*self);
        }
        let s = self.state;
        let next = match (s.pending, event) {
            (Action::Send { .. }, Event::Response { status, elapsed_millis }) => {
                match self.config.table.classify(status) {
                    StatusClass::Success => Execution::attempt(
                        &self.config,
                        EngineState {
                            chunk: s.chunk + 1,
                            attempt: 1,
                            cursor: advance(&self.config, s.cursor),
                            last: s.last,
                            pending: s.pending,
                        },
                        elapsed_millis,
                    ),
                    StatusClass::Retryable => Execution::transient(
                        &self.config,
                        s,
                        Cause::Status(status),
                    ),
                    StatusClass::Fatal => EngineState {
                        chunk: s.chunk,
                        attempt: s.attempt,
                        cursor: s.cursor,
                        last: s.last,
                        pending: Action::Fail {
                            error: Error::FatalProtocolFailure { status },
                            accepted: s.chunk,
                        },
                    },
                }
            },
            (Action::Send { .. }, Event::TransportError { .. }) => Execution::transient(
                &self.config,
                s,
                Cause::Transport,
            ),
            (Action::Wait { .. }, Event::BackoffElapsed { elapsed_millis }) => Execution::attempt(
                &self.config,
                EngineState {
                    chunk: s.chunk,
                    attempt: s.attempt + 1,
                    cursor: advance(&self.config, s.cursor),
                    last: s.last,
                    pending: s.pending,
                },
                elapsed_millis,
            ),
            _ => s,
        };
        self.state = next;
        next.pending
    }
}

/// The backoff law, for every time budget. The wait that follows a failed attempt is
/// the backoff of that attempt and nothing else: it depends on the retry policy and the
/// number of the attempt alone, and never exceeds the maximum. From one failed attempt
/// on a chunk to the next the wait never shrinks. The time budget never shortens a wait;
/// it ends the submission when a wait is over and the budget is exceeded.
pub proof fn lemma_waits_never_shrink(
    config: EngineConfig,
    s: EngineState,
    elapsed_millis: u64,
    failure: Event,
)
    requires
        reachable(config, s),
        s.pending is Wait,
    ensures
        s.pending->Wait_millis == spec_backoff(config.policy, s.attempt as nat),
        s.pending->Wait_millis <= config.policy.max_backoff_millis,
        ({
            let resumed = spec_step(config, s, Event::BackoffElapsed { elapsed_millis });
            let next = spec_step(config, resumed, failure);
            &&& resumed.pending is Send <==> !spec_timed_out(config, elapsed_millis)
            &&& resumed.pending is Send ==> resumed.chunk == s.chunk && resumed.attempt
                == s.attempt + 1
            &&& next.pending is Wait ==> next.chunk == s.chunk && next.attempt == s.attempt + 1
                && s.pending->Wait_millis <= next.pending->Wait_millis
                <= config.policy.max_backoff_millis
        }),
{
    lemma_backoff_capped(config.policy, s.attempt as nat);
    lemma_backoff_capped(config.policy, (s.attempt + 1) as nat);
    lemma_backoff_monotonic(config.policy, s.attempt as nat);
    let resumed = spec_step(config, s, Event::BackoffElapsed { elapsed_millis });
    lemma_step_reachable(config, s, Event::BackoffElapsed { elapsed_millis });
    lemma_step_reachable(config, resumed, failure);
}

/// Every step leads from a state that a submission can be in to another such state.
pub proof fn lemma_step_reachable(config: EngineConfig, s: EngineState, event: Event)
    requires
        reachable(config, s),
    ensures
        reachable(config, spec_step(config, s, event)),
{
    if config.nodes > 0 {
        let next = spec_step(config, s, event);
        vstd::arithmetic::div_mod::lemma_mod_bound(next.cursor as int, config.nodes as int);
    }
}

/// Chunks go out in order, one at a time. A step never goes back to an earlier chunk,
/// and it moves on to the next chunk only when a node has accepted the one in work. A
/// submission that is over stays as it is.
pub proof fn lemma_chunks_in_order(config: EngineConfig, s: EngineState, event: Event)
    requires
        reachable(config, s),
    ensures
        ({
            let next = spec_step(config, s, event);
            &&& next.chunk == s.chunk || next.chunk == s.chunk + 1
            &&& next.chunk == s.chunk + 1 ==> s.pending is Send && event is Response
                && spec_classify(config.table, event->Response_status) == StatusClass::Success
            &&& next.pending is Send ==> next.pending->Send_chunk == next.chunk
                && next.pending->Send_node < config.nodes
            &&& s.pending is Complete || s.pending is Fail ==> next == s
        }),
{
    lemma_step_reachable(config, s, event);
}

/// The state after each of `events` in turn.
pub open spec fn spec_run(config: EngineConfig, s: EngineState, events: Seq<Event>) -> EngineState
    decreases events.len(),
{
    if events.len() == 0 {
        s
    } else {
        spec_step(config, spec_run(config, s, events.drop_last()), events.last())
    }
}

/// Whether `event` reports a transient failure: a transport error, or an answer whose
/// status code is of the retryable class.
pub open spec fn is_transient(config: EngineConfig, event: Event) -> bool {
    event is TransportError || (event is Response && spec_classify(
        config.table,
        event->Response_status,
    ) == StatusClass::Retryable)
}

/// The events of failed rounds: each failure is followed by the end of the wait it
/// caused, where `ends` says when each wait ended.
pub open spec fn retry_rounds(failures: Seq<Event>, ends: Seq<u64>) -> Seq<Event>
    decreases failures.len(),
{
    if failures.len() == 0 || ends.len() == 0 {
        Seq::empty()
    } else {
        retry_rounds(failures.drop_last(), ends.drop_last()).push(failures.last()).push(
            Event::BackoffElapsed { elapsed_millis: ends.last() },
        )
    }
}

/// Whether the first chunk of a submission under `config` can be retried as often as
/// `ends` has entries without running out of nodes, attempts or time: there is a node
/// and a chunk, the retries are fewer than the permitted attempts, and the time budget
/// holds at the beginning and at the end of every wait.
pub open spec fn retries_permitted(config: EngineConfig, began: u64, ends: Seq<u64>) -> bool {
    &&& config.nodes > 0
    &&& config.chunks > 0
    &&& ends.len() < config.policy.max_attempts
    &&& !spec_timed_out(config, began)
    &&& forall|i: int| 0 <= i < ends.len() ==> !spec_timed_out(config, #[trigger] ends[i])
}

/// After `failures.len()` transient failures, each followed by its wait, the next
/// attempt is out at the node that round-robin order gives it.
proof fn lemma_retry_rounds(config: EngineConfig, began: u64, failures: Seq<Event>, ends: Seq<u64>)
    requires
        retries_permitted(config, began, ends),
        failures.len() == ends.len(),
        forall|i: int| 0 <= i < failures.len() ==> is_transient(config, #[trigger] failures[i]),
    ensures
        ({
            let s = spec_run(config, spec_begin(config, began), retry_rounds(failures, ends));
            &&& s.chunk == 0
            &&& s.attempt == failures.len() + 1
            &&& s.cursor == failures.len() % (config.nodes as nat)
            &&& s.pending == (Action::Send {
                chunk: 0,
                node: (failures.len() % (config.nodes as nat)) as usize,
            })
        }),
    decreases failures.len(),
{
    let k = failures.len();
    let n = config.nodes as int;
    if k == 0 {
        vstd::arithmetic::div_mod::lemma_small_mod(0, n as nat);
    } else {
        let before_failures = failures.drop_last();
        let before_ends = ends.drop_last();
        lemma_retry_rounds(config, began, before_failures, before_ends);
        let events = retry_rounds(failures, ends);
        let earlier = retry_rounds(before_failures, before_ends);
        let s0 = spec_run(config, spec_begin(config, began), earlier);
        assert(events.drop_last() =~= earlier.push(failures.last()));
        assert(events.drop_last().drop_last() =~= earlier);
        let s1 = spec_step(config, s0, failures.last());
        assert(spec_run(config, spec_begin(config, began), events.drop_last()) == s1);
        assert(is_transient(config, failures[k - 1]));
        assert(s1.pending is Wait);
        assert(!spec_timed_out(config, ends[k - 1]));
        vstd::arithmetic::div_mod::lemma_mod_bound(k - 1, n);
        vstd::arithmetic::div_mod::lemma_mod_bound(k as int, n);
        vstd::arithmetic::div_mod::lemma_mod_twice(k - 1, n);
        vstd::arithmetic::div_mod::lemma_add_mod_noop(k - 1, 1, n);
        if n == 1 {
            assert(((k - 1) % n + 1) % n == 0);
        } else {
            vstd::arithmetic::div_mod::lemma_small_mod(1, n as nat);
        }
        vstd::arithmetic::div_mod::lemma_mod_twice(k as int, n);
        assert(((k - 1) % n + 1) % n == (k as int) % n);
    }
}

/// The retry law. Where the first chunk fails transiently `k` times, with `k` below the
/// number of permitted attempts, and the time budget holds, the attempts go to the nodes
/// in round-robin order, wrapping at the end of the list: attempt number `j + 1` goes to
/// node `j` modulo the number of nodes. A success on the attempt after the last failure
/// completes a submission of one chunk, and moves a longer one on to its second chunk at
/// the next node.
pub proof fn lemma_retry_then_success(
    config: EngineConfig,
    began: u64,
    failures: Seq<Event>,
    ends: Seq<u64>,
    status: i32,
    elapsed: u64,
)
    requires
        retries_permitted(config, began, ends),
        failures.len() == ends.len(),
        forall|i: int| 0 <= i < failures.len() ==> is_transient(config, #[trigger] failures[i]),
        spec_classify(config.table, status) == StatusClass::Success,
    ensures
        forall|j: int|
            0 <= j <= failures.len() ==> (#[trigger] spec_run(
                config,
                spec_begin(config, began),
                retry_rounds(failures.take(j), ends.take(j)),
            )).pending == (Action::Send { chunk: 0, node: (j % (config.nodes as int)) as usize }),
        config.chunks == 1 ==> spec_step(
            config,
            spec_run(config, spec_begin(config, began), retry_rounds(failures, ends)),
            Event::Response { status, elapsed_millis: elapsed },
        ).pending == (Action::Complete { chunks: 1 }),
        config.chunks > 1 && !spec_timed_out(config, elapsed) ==> spec_step(
            config,
            spec_run(config, spec_begin(config, began), retry_rounds(failures, ends)),
            Event::Response { status, elapsed_millis: elapsed },
        ).pending == (Action::Send {
            chunk: 1,
            node: ((failures.len() as int + 1) % (config.nodes as int)) as usize,
        }),
{
    assert forall|j: int| 0 <= j <= failures.len() implies (#[trigger] spec_run(
        config,
        spec_begin(config, began),
        retry_rounds(failures.take(j), ends.take(j)),
    )).pending == (Action::Send { chunk: 0, node: (j % (config.nodes as int)) as usize }) by {
        lemma_retry_rounds(config, began, failures.take(j), ends.take(j));
    }
    lemma_retry_rounds(config, began, failures, ends);
    let k = failures.len() as int;
    let n = config.nodes as int;
    vstd::arithmetic::div_mod::lemma_mod_twice(k, n);
    vstd::arithmetic::div_mod::lemma_add_mod_noop(k, 1, n);
    vstd::arithmetic::div_mod::lemma_mod_bound(k, n);
    vstd::arithmetic::div_mod::lemma_mod_bound(k + 1, n);
    vstd::arithmetic::div_mod::lemma_mod_twice(k + 1, n);
    let c = k % n;
    assert((c % n + 1) % n == (k + 1) % n) by {
        if n > 1 {
            vstd::arithmetic::div_mod::lemma_small_mod(1, n as nat);
        } else {
            assert((c % n + 1) % n == 0);
            assert((k + 1) % n == 0);
        }
    }
    let s = spec_run(config, spec_begin(config, began), retry_rounds(failures, ends));
    assert(s.cursor == c);
    assert(spec_advance(config, s.cursor) == (k + 1) % n);
}

/// The fail-fast law. A status code of the fatal class on the first attempt ends the
/// submission at once, with that code and nothing accepted; no wait is asked for, no
/// second attempt is made, and no later event changes the outcome.
pub proof fn lemma_fatal_aborts_at_once(config: EngineConfig, began: u64, status: i32, elapsed: u64)
    requires
        config.nodes > 0,
        config.chunks > 0,
        !spec_timed_out(config, began),
        spec_classify(config.table, status) == StatusClass::Fatal,
    ensures
        spec_begin(config, began).pending == (Action::Send { chunk: 0, node: 0 }),
        ({
            let s = spec_step(
                config,
                spec_begin(config, began),
                Event::Response { status, elapsed_millis: elapsed },
            );
            &&& s.pending == (Action::Fail {
                error: Error::FatalProtocolFailure { status },
                accepted: 0,
            })
            &&& s.attempt == 1
            &&& forall|later: Event| spec_step(config, s, later) == s
        }),
{
    vstd::arithmetic::div_mod::lemma_small_mod(0, config.nodes as nat);
}

/// Whether the time budget of `config` is exceeded after `elapsed` milliseconds.
fn timed_out(config: &EngineConfig, elapsed: u64) -> (out: bool)
    ensures
        out == spec_timed_out(*config, elapsed),
{
    match config.timeout_millis {
        Some(limit) => elapsed > limit,
        None => false,
    }
}

/// The cursor after it has moved on by one node, wrapping at the end of the list.
fn advance(config: &EngineConfig, cursor: usize) -> (next: usize)
    ensures
        next == spec_advance(*config, cursor),
{
    if config.nodes == 0 {
        0
    } else {
        let at = cursor % config.nodes;
        if at + 1 == config.nodes {
            proof {
                vstd::arithmetic::div_mod::lemma_mod_self_0(config.nodes as int);
            }
            0
        } else {
            proof {
                vstd::arithmetic::div_mod::lemma_small_mod((at + 1) as nat, config.nodes as nat);
            }
            at + 1
        }
    }
}

} // verus!
