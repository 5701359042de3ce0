use vstd::prelude::*;

verus! {

/// Attempts per call.
pub const MAX_RETRIES: u32 = 3;

/// Delay before the first retry, in milliseconds.
pub const BASE_DELAY_MS: u64 = 300;

/// Longest sleep between two cancellation checks, in milliseconds.
pub const POLL_SLICE_MS: u64 = 50;

/// Two to the power `n`.
pub open spec fn pow2(n: nat) -> nat
    decreases n,
{
    if n == 0 {
        1
    } else {
        2 * pow2((n - 1) as nat)
    }
}

/// The wait after failed attempt `attempt` (counted from 1): base × 2^(attempt−1),
/// held at the largest `u64`.
pub open spec fn backoff_spec(base: u64, attempt: nat) -> nat {
    let d: nat = (base as nat) * pow2((attempt - 1) as nat);
    if d <= u64::MAX {
        d
    } else {
        u64::MAX as nat
    }
}

proof fn lemma_pow2_pos(n: nat)
    ensures
        pow2(n) >= 1,
    decreases n,
{
    if n > 0 {
        lemma_pow2_pos((n - 1) as nat);
    }
}

/// The backoff delay in milliseconds after failed attempt `attempt`.
pub fn backoff_delay_ms(base: u64, attempt: u32) -> (r: u64)
    requires
        attempt >= 1,
    ensures
        r == backoff_spec(base, attempt as nat),
{
    let mut d: u64 = base;
    let mut k: u32 = 1;
    assert(pow2(0) == 1);
    assert((base as nat) * pow2(0) == base as nat);
    while k < attempt
        invariant
            1 <= k <= attempt,
            d == backoff_spec(base, k as nat),
        decreases attempt - k,
    {
        proof {
            lemma_pow2_pos((k - 1) as nat);
            assert(pow2(k as nat) == 2 * pow2((k - 1) as nat));
            assert(base * pow2(k as nat) == 2 * (base * pow2((k - 1) as nat))) by (nonlinear_arith)
                requires pow2(k as nat) == 2 * pow2((k - 1) as nat);
        }
        if d > u64::MAX / 2 {
            d = u64::MAX;
        } else {
            d = d * 2;
        }
        k = k + 1;
    }
    d
}

/// How one call retries: the attempt ceiling, the first delay and the
/// longest sleep between two cancellation checks.
#[derive(Clone, Copy, Debug, PartialEq, Eq, Structural)]
pub struct RetryConfig {
    pub max_attempts: u32,
    pub base_delay_ms: u64,
    pub slice_ms: u64,
}

impl RetryConfig {
    /// At least one attempt, and sleeps of at least one millisecond.
    pub open spec fn valid(self) -> bool {
        self.max_attempts >= 1 && self.slice_ms >= 1
    }

    /// Three attempts, 300 ms before the first retry, checks every 50 ms.
    pub fn standard() -> (r: RetryConfig)
        ensures
            r.valid(),
            r.max_attempts == MAX_RETRIES,
            r.base_delay_ms == BASE_DELAY_MS,
            r.slice_ms == POLL_SLICE_MS,
    {
        RetryConfig { max_attempts: MAX_RETRIES, base_delay_ms: BASE_DELAY_MS, slice_ms: POLL_SLICE_MS }
    }
}

/// How one exchange with the backend ended, as the retry engine sees it.
/// A transport error, a timeout and a malformed reply are all failures.
pub enum AttemptResult {
    Replied(String),
    Failed(String),
}

/// How a call ended.
pub enum CallOutcome {
    Success(String),
    Cancelled,
    Exhausted { attempts: u32, last_error: String },
}

/// Where a call stands between two events.
#[derive(Clone, Copy, Debug, PartialEq, Eq, Structural)]
pub enum Phase {
    Attempting,
    Backoff { total_ms: u64, waited_ms: u64 },
    Finished,
}

/// What the driver of a call does next.
#[derive(Clone, Copy, Debug, PartialEq, Eq, Structural)]
pub enum Action {
    /// Check for cancellation, then send attempt number `attempt`, racing it
    /// against cancellation.
    Send { attempt: u32 },
    /// Check for cancellation, then sleep `ms` milliseconds.
    Sleep { ms: u64 },
    /// The call is over.
    Stop,
}

/// The retry state machine of one call.
#[derive(Clone, Copy, Debug, PartialEq, Eq, Structural)]
pub struct RetryEngine {
    pub config: RetryConfig,
    pub attempt: u32,
    pub phase: Phase,
}

/// The smaller of `a` and `b`.
pub open spec fn min_u64(a: u64, b: u64) -> u64 {
    if a <= b { a } else { b }
}

/// The action that a state asks for.
pub open spec fn action_of(e: RetryEngine) -> Action {
    match e.phase {
        Phase::Attempting => Action::Send { attempt: e.attempt },
        Phase::Backoff { total_ms, waited_ms } => Action::Sleep {
            ms: min_u64(e.config.slice_ms, (total_ms - waited_ms) as u64),
        },
        Phase::Finished => Action::Stop,
    }
}

impl RetryEngine {
    /// The attempt counter stays within the ceiling, and a backoff wait has
    /// time left and the length the failed attempt calls for.
    pub open spec fn valid(self) -> bool {
        &&& self.config.valid()
        &&& 1 <= self.attempt <= self.config.max_attempts
        &&& match self.phase {
            Phase::Backoff { total_ms, waited_ms } => waited_ms < total_ms
                && self.attempt < self.config.max_attempts
                && total_ms == backoff_spec(self.config.base_delay_ms, self.attempt as nat),
            _ => true,
        }
    }

    /// A call about to make its first attempt.
    pub fn new(config: RetryConfig) -> (r: RetryEngine)
        requires
            config.valid(),
        ensures
            r.valid(),
            r == (RetryEngine { config, attempt: 1, phase: Phase::Attempting }),
    {
        RetryEngine { config, attempt: 1, phase: Phase::Attempting }
    }

    /// What the driver does next.
    pub fn next_action(&self) -> (r: Action)
        requires
            self.valid(),
        ensures
            r == action_of(*self),
    {
        match self.phase {
            Phase::Attempting => Action::Send { attempt: self.attempt },
            Phase::Backoff { total_ms, waited_ms } => {
                let left = total_ms - waited_ms;
                Action::Sleep { ms: if self.config.slice_ms <= left { self.config.slice_ms } else { left } }
            },
            Phase::Finished => Action::Stop,
        }
    }

    /// A cancellation was observed: the call ends, whatever attempts are left.
    pub fn on_cancel(&mut self) -> (r: CallOutcome)
        ensures
            r is Cancelled,
            *final(self) == (RetryEngine { phase: Phase::Finished, ..*old(self) }),
    {
        self.phase = Phase::Finished;
        CallOutcome::Cancelled
    }

    /// The attempt in flight ended. A reply ends the call; a failure ends it
    /// when the ceiling is reached, and otherwise starts the backoff wait.
    pub fn on_attempt_result(&mut self, res: AttemptResult) -> (r: Option<CallOutcome>)
        requires
            old(self).valid(),
            old(self).phase is Attempting,
        ensures
            final(self).valid(),
            final(self).config == old(self).config,
            match res {
                AttemptResult::Replied(t) => final(self).phase is Finished
                    && final(self).attempt == old(self).attempt
                    && r == Some(CallOutcome::Success(t)),
                AttemptResult::Failed(e) => if old(self).attempt >= old(self).config.max_attempts {
                    final(self).phase is Finished && final(self).attempt == old(self).attempt && r == Some(
                        CallOutcome::Exhausted { attempts: old(self).attempt, last_error: e },
                    )
                } else if backoff_spec(old(self).config.base_delay_ms, old(self).attempt as nat) == 0 {
                    r is None && final(self).phase is Attempting
                        && final(self).attempt == old(self).attempt + 1
                } else {
                    r is None && final(self).attempt == old(self).attempt
                        && final(self).phase == Phase::Backoff {
                        total_ms: backoff_spec(old(self).config.base_delay_ms, old(self).attempt as nat) as u64,
                        waited_ms: 0,
                    }
                },
            },
    {
        match res {
            AttemptResult::Replied(t) => {
                self.phase = Phase::Finished;
                Some(CallOutcome::Success(t))
            },
            AttemptResult::Failed(e) => {
                if self.attempt >= self.config.max_attempts {
                    self.phase = Phase::Finished;
                    Some(CallOutcome::Exhausted { attempts: self.attempt, last_error: e })
                } else {
                    let total = backoff_delay_ms(self.config.base_delay_ms, self.attempt);
                    if total == 0 {
                        self.attempt = self.attempt + 1;
                        self.phase = Phase::Attempting;
                        None
                    } else {
                        self.phase = Phase::Backoff { total_ms: total, waited_ms: 0 };
                        None
                    }
                }
            },
        }
    }

    /// A sleep of the length `next_action` asked for has passed. When the
    /// whole delay has passed, the next attempt is due.
    pub fn on_slept(&mut self)
        requires
            old(self).valid(),
            old(self).phase is Backoff,
        ensures
            final(self).valid(),
            final(self).config == old(self).config,
            ({
                let total = old(self).phase->total_ms;
                let waited = old(self).phase->waited_ms;
                let now = waited + min_u64(old(self).config.slice_ms, (total - waited) as u64);
                if now >= total {
                    final(self).attempt == old(self).attempt + 1 && final(self).phase is Attempting
                } else {
                    final(self).attempt == old(self).attempt
                        && final(self).phase == Phase::Backoff { total_ms: total, waited_ms: now as u64 }
                }
            }),
    {
        if let Phase::Backoff { total_ms, waited_ms } = self.phase {
            let left = total_ms - waited_ms;
            let step = if self.config.slice_ms <= left { self.config.slice_ms } else { left };
            let now = waited_ms + step;
            if now >= total_ms {
                self.attempt = self.attempt + 1;
                self.phase = Phase::Attempting;
            } else {
                self.phase = Phase::Backoff { total_ms, waited_ms: now };
            }
        }
    }
}

/// Whether the scripted backend fails attempt number `k + 1`: a script that
/// has run out fails every further attempt.
pub open spec fn fails_at(replies: Seq<AttemptResult>, k: int) -> bool {
    k >= replies.len() || replies[k] is Failed
}

/// The error text of attempt number `k + 1` of the script.
pub open spec fn error_at(replies: Seq<AttemptResult>, k: int) -> Seq<char> {
    if 0 <= k < replies.len() {
        match replies[k] {
            AttemptResult::Failed(e) => e@,
            AttemptResult::Replied(_) => Seq::empty(),
        }
    } else {
        Seq::empty()
    }
}

/// What a call did against a scripted backend on a simulated clock.
pub struct CallReport {
    pub outcome: CallOutcome,
    /// The clock, in milliseconds, at each attempt sent.
    pub sends_at_ms: Vec<u64>,
    /// Each backoff delay that ran to its end, in order.
    pub waits_ms: Vec<u64>,
    /// The clock when the call ended.
    pub elapsed_ms: u64,
}

fn script_entry(replies: &Vec<AttemptResult>, k: usize) -> (r: AttemptResult)
    ensures
        fails_at(replies@, k as int) <==> r is Failed,
        r is Failed ==> (r->Failed_0)@ == error_at(replies@, k as int),
        !fails_at(replies@, k as int) ==> r == replies@[k as int],
{
    if k < replies.len() {
        match &replies[k] {
            AttemptResult::Replied(t) => AttemptResult::Replied(t.clone()),
            AttemptResult::Failed(e) => AttemptResult::Failed(e.clone()),
        }
    } else {
        AttemptResult::Failed(String::new())
    }
}

fn cancel_seen(cancel_at_ms: Option<u64>, now: u64) -> (r: bool)
    ensures
        r == (cancel_at_ms is Some && cancel_at_ms->0 <= now),
{
    match cancel_at_ms {
        Some(c) => c <= now,
        None => false,
    }
}

/// `x` held at the largest `u64`.
pub open spec fn capped(x: int) -> int {
    if x > u64::MAX {
        u64::MAX as int
    } else {
        x
    }
}

/// When attempt number `k + 1` is sent if every attempt before it failed and
/// no cancellation came: attempts take no time and each backoff wait runs to
/// its end. The clock stops at the largest `u64`.
pub open spec fn send_time(config: RetryConfig, k: nat) -> int
    decreases k,
{
    if k == 0 {
        0
    } else {
        capped(send_time(config, (k - 1) as nat) + backoff_spec(config.base_delay_ms, k))
    }
}

proof fn lemma_send_time_monotone(config: RetryConfig, i: nat, j: nat)
    requires
        i <= j,
    ensures
        0 <= send_time(config, i) <= send_time(config, j) <= u64::MAX,
    decreases j,
{
    if j > 0 {
        if i < j {
            lemma_send_time_monotone(config, i, (j - 1) as nat);
        }
        lemma_send_time_monotone(config, (j - 1) as nat, (j - 1) as nat);
    }
}

/// What the loop of a simulated call establishes.
pub open spec fn simulation_core(
    config: RetryConfig,
    replies: Seq<AttemptResult>,
    cancel_at_ms: Option<u64>,
    r: CallReport,
) -> bool {
    &&& r.sends_at_ms@.len() <= config.max_attempts
    &&& forall|k: int| 0 <= k < r.waits_ms@.len()
        ==> r.waits_ms@[k] == backoff_spec(config.base_delay_ms, (k + 1) as nat)
    &&& r.waits_ms@.len() == r.sends_at_ms@.len() - 1
        || (r.outcome is Cancelled && r.waits_ms@.len() == r.sends_at_ms@.len())
    &&& forall|k: int| 0 <= k < r.sends_at_ms@.len() ==> r.sends_at_ms@[k] == send_time(config, k as nat)
    &&& match r.outcome {
        CallOutcome::Success(t) => {
            &&& r.sends_at_ms@.len() >= 1
            &&& replies[r.sends_at_ms@.len() - 1] == AttemptResult::Replied(t)
            &&& !fails_at(replies, r.sends_at_ms@.len() - 1)
            &&& forall|k: int| 0 <= k < r.sends_at_ms@.len() - 1 ==> fails_at(replies, k)
            &&& r.elapsed_ms == r.sends_at_ms@.last()
        },
        CallOutcome::Exhausted { attempts, last_error } => {
            &&& attempts == config.max_attempts
            &&& r.sends_at_ms@.len() == attempts
            &&& forall|k: int| 0 <= k < attempts ==> fails_at(replies, k)
            &&& last_error@ == error_at(replies, attempts - 1)
            &&& r.elapsed_ms == r.sends_at_ms@.last()
        },
        CallOutcome::Cancelled => {
            &&& cancel_at_ms is Some
            &&& cancel_at_ms->0 <= r.elapsed_ms < cancel_at_ms->0 + config.slice_ms
            &&& r.elapsed_ms <= send_time(config, r.sends_at_ms@.len())
            &&& forall|k: int| 0 <= k < r.sends_at_ms@.len() ==> fails_at(replies, k)
        },
    }
    &&& cancel_at_ms is Some ==> forall|k: int| 0 <= k < r.sends_at_ms@.len()
        ==> r.sends_at_ms@[k] < cancel_at_ms->0
    &&& cancel_at_ms is Some && !(r.outcome is Cancelled) ==> r.elapsed_ms < cancel_at_ms->0
    &&& cancel_at_ms is None ==> !(r.outcome is Cancelled)
    &&& (cancel_at_ms is None && forall|k: int| 0 <= k < config.max_attempts ==> fails_at(replies, k))
        ==> (r.outcome is Exhausted && r.sends_at_ms@.len() == config.max_attempts
            && r.waits_ms@.len() == config.max_attempts - 1)
}

/// Whether a cancellation at `c` falls inside the backoff wait that follows
/// attempt number `k` (or at its very end), when attempts 1 to `k` failed.
pub open spec fn cancel_in_wait_after(
    config: RetryConfig,
    replies: Seq<AttemptResult>,
    c: u64,
    k: nat,
) -> bool {
    &&& 1 <= k < config.max_attempts
    &&& send_time(config, (k - 1) as nat) < c <= send_time(config, k)
    &&& forall|j: int| 0 <= j < k ==> fails_at(replies, j)
}

/// What a call run by `simulate_call` does, for every script and every
/// cancellation time.
pub open spec fn simulation_holds(
    config: RetryConfig,
    replies: Seq<AttemptResult>,
    cancel_at_ms: Option<u64>,
    r: CallReport,
) -> bool {
    &&& simulation_core(config, replies, cancel_at_ms, r)
    // the clock: the first attempt goes out at once, and each later one
    // exactly when the backoff wait before it has run out
    &&& r.sends_at_ms@.len() > 0 ==> r.sends_at_ms@[0] == 0
    &&& forall|k: int| 0 <= k < r.sends_at_ms@.len() - 1
        ==> #[trigger] r.sends_at_ms@[k + 1] == capped(r.sends_at_ms@[k] + r.waits_ms@[k])
    // a cancellation during the wait after attempt k ends the call within
    // one slice, with no further attempt
    &&& forall|k: nat| cancel_at_ms is Some && #[trigger] cancel_in_wait_after(config, replies, cancel_at_ms->0, k)
        ==> r.outcome is Cancelled && r.sends_at_ms@.len() == k
            && r.elapsed_ms < cancel_at_ms->0 + config.slice_ms
}

proof fn lemma_simulation_holds(
    config: RetryConfig,
    replies: Seq<AttemptResult>,
    cancel_at_ms: Option<u64>,
    r: CallReport,
)
    requires
        config.valid(),
        simulation_core(config, replies, cancel_at_ms, r),
    ensures
        simulation_holds(config, replies, cancel_at_ms, r),
{
    let n = r.sends_at_ms@.len();
    assert forall|k: int| 0 <= k < n - 1
        implies #[trigger] r.sends_at_ms@[k + 1] == capped(r.sends_at_ms@[k] + r.waits_ms@[k]) by {
        assert(r.sends_at_ms@[k + 1] == send_time(config, (k + 1) as nat));
        assert(r.sends_at_ms@[k] == send_time(config, k as nat));
        assert(r.waits_ms@.len() >= n - 1);
    }
    assert forall|k: nat| cancel_at_ms is Some && #[trigger] cancel_in_wait_after(config, replies, cancel_at_ms->0, k)
        implies r.outcome is Cancelled && r.sends_at_ms@.len() == k
            && r.elapsed_ms < cancel_at_ms->0 + config.slice_ms by {
        let c = cancel_at_ms->0;
        if n >= k + 1 {
            assert(r.sends_at_ms@[k as int] == send_time(config, k));
            assert(false);
        }
        match r.outcome {
            CallOutcome::Success(_) => {
                if n - 1 < k {
                    assert(fails_at(replies, n - 1));
                }
            },
            CallOutcome::Exhausted { .. } => {},
            CallOutcome::Cancelled => {
                if n < k {
                    lemma_send_time_monotone(config, n, (k - 1) as nat);
                }
            },
        }
    }
}

/// Runs one call through the retry engine against a scripted backend: entry
/// `k` of `replies` answers attempt `k + 1`, and attempts take no time. The
/// clock advances only by the sleeps the engine asks for. A cancellation
/// emitted at `cancel_at_ms` is seen at the first check at or after it; the
/// engine checks before every attempt and before every sleep.
pub fn simulate_call(config: RetryConfig, replies: &Vec<AttemptResult>, cancel_at_ms: Option<u64>) -> (r: CallReport)
    requires
        config.valid(),
    ensures
        simulation_holds(config, replies@, cancel_at_ms, r),
{
    let r = drive_call(config, replies, cancel_at_ms);
    proof {
        lemma_simulation_holds(config, replies@, cancel_at_ms, r);
    }
    r
}

fn drive_call(config: RetryConfig, replies: &Vec<AttemptResult>, cancel_at_ms: Option<u64>) -> (r: CallReport)
    requires
        config.valid(),
    ensures
        simulation_core(config, replies@, cancel_at_ms, r),
{
    let mut engine = RetryEngine::new(config);
    let mut elapsed: u64 = 0;
    let mut sends: Vec<u64> = Vec::new();
    let mut waits: Vec<u64> = Vec::new();
    let ghost mut last_check: int = -1;
    loop
        invariant
            engine.valid(),
            engine.config == config,
            !(engine.phase is Finished),
            engine.phase is Attempting ==> sends@.len() == engine.attempt - 1,
            engine.phase is Backoff ==> sends@.len() == engine.attempt,
            waits@.len() == engine.attempt - 1,
            forall|k: int| 0 <= k < waits@.len()
                ==> waits@[k] == backoff_spec(config.base_delay_ms, (k + 1) as nat),
            forall|k: int| 0 <= k < sends@.len() ==> fails_at(replies@, k),
            forall|k: int| 0 <= k < sends@.len() ==> sends@[k] == send_time(config, k as nat),
            engine.phase is Attempting ==> elapsed == send_time(config, sends@.len()),
            match engine.phase {
                Phase::Backoff { total_ms, waited_ms } => {
                    &&& sends@.len() >= 1
                    &&& elapsed == capped(sends@.last() + waited_ms)
                    &&& send_time(config, sends@.len()) == capped(sends@.last() + total_ms)
                },
                _ => true,
            },
            cancel_at_ms is Some ==> last_check < cancel_at_ms->0,
            cancel_at_ms is Some ==> forall|k: int| 0 <= k < sends@.len() ==> sends@[k] < cancel_at_ms->0,
            elapsed <= last_check + config.slice_ms,
        decreases
            config.max_attempts - engine.attempt,
            if engine.phase is Attempting { 1int } else { 0int },
            match engine.phase {
                Phase::Backoff { total_ms, waited_ms } => total_ms - waited_ms,
                _ => 0,
            },
    {
        if cancel_seen(cancel_at_ms, elapsed) {
            let outcome = engine.on_cancel();
            return CallReport { outcome, sends_at_ms: sends, waits_ms: waits, elapsed_ms: elapsed };
        }
        proof {
            last_check = elapsed as int;
        }
        match engine.next_action() {
            Action::Send { attempt } => {
                sends.push(elapsed);
                let res = script_entry(replies, (attempt - 1) as usize);
                proof {
                    let n = sends@.len();
                    assert(send_time(config, n) == capped(send_time(config, (n - 1) as nat)
                        + backoff_spec(config.base_delay_ms, n)));
                    lemma_send_time_monotone(config, (n - 1) as nat, (n - 1) as nat);
                }
                match engine.on_attempt_result(res) {
                    Some(outcome) => {
                        return CallReport { outcome, sends_at_ms: sends, waits_ms: waits, elapsed_ms: elapsed };
                    },
                    None => {
                        if engine.phase == Phase::Attempting {
                            waits.push(0);
                        }
                    },
                }
            },
            Action::Sleep { ms } => {
                let before = engine;
                engine.on_slept();
                elapsed = if elapsed > u64::MAX - ms { u64::MAX } else { elapsed + ms };
                if engine.phase == Phase::Attempting {
                    if let Phase::Backoff { total_ms, waited_ms: _ } = before.phase {
                        waits.push(total_ms);
                    }
                }
            },
            Action::Stop => {
                // not reached: the loop returns as soon as the engine finishes
                return CallReport { outcome: CallOutcome::Cancelled, sends_at_ms: sends, waits_ms: waits, elapsed_ms: elapsed };
            },
        }
    }
}

} // verus!
