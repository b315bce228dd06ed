use vstd::prelude::*;

verus! {

/// A named destructive action. Every dispatch branch has its own, so a
/// checkpoint can be keyed by the operation and the coordinator's device.
#[derive(Clone, Copy, Debug, PartialEq, Eq, Structural)]
pub enum Operation {
    WipeSmr,
    WipeOptane,
    WipeHybrid,
    WipeEmmc,
    WipeUfs,
    WipeNvmeAdvanced,
    WipeNvmeBasic,
    WipeSsd,
    WipeHdd,
    WipeRaidMember,
}

/// Number of distinct operations, and so of checkpoint slots.
pub const OPERATION_COUNT: usize = 10;

pub open spec fn operation_slot(op: Operation) -> int {
    match op {
        Operation::WipeSmr => 0,
        Operation::WipeOptane => 1,
        Operation::WipeHybrid => 2,
        Operation::WipeEmmc => 3,
        Operation::WipeUfs => 4,
        Operation::WipeNvmeAdvanced => 5,
        Operation::WipeNvmeBasic => 6,
        Operation::WipeSsd => 7,
        Operation::WipeHdd => 8,
        Operation::WipeRaidMember => 9,
    }
}

pub open spec fn operation_at_slot(i: int) -> Operation {
    if i == 0 {
        Operation::WipeSmr
    } else if i == 1 {
        Operation::WipeOptane
    } else if i == 2 {
        Operation::WipeHybrid
    } else if i == 3 {
        Operation::WipeEmmc
    } else if i == 4 {
        Operation::WipeUfs
    } else if i == 5 {
        Operation::WipeNvmeAdvanced
    } else if i == 6 {
        Operation::WipeNvmeBasic
    } else if i == 7 {
        Operation::WipeSsd
    } else if i == 8 {
        Operation::WipeHdd
    } else {
        Operation::WipeRaidMember
    }
}

proof fn lemma_slot_round_trip(op: Operation)
    ensures
        operation_at_slot(operation_slot(op)) == op,
        0 <= operation_slot(op) < OPERATION_COUNT,
{
}

proof fn lemma_slots_distinct()
    ensures
        forall|a: Operation, b: Operation|
            #[trigger] operation_slot(a) == #[trigger] operation_slot(b) ==> a == b,
{
    assert forall|a: Operation, b: Operation|
        #[trigger] operation_slot(a) == #[trigger] operation_slot(b) implies a == b by {
        lemma_slot_round_trip(a);
        lemma_slot_round_trip(b);
    }
}

/// The name under which `op`'s checkpoint is stored and its failures are
/// reported.
pub open spec fn operation_name(op: Operation) -> Seq<char> {
    match op {
        Operation::WipeSmr => "wipe_smr_drive"@,
        Operation::WipeOptane => "wipe_optane_drive"@,
        Operation::WipeHybrid => "wipe_hybrid_drive"@,
        Operation::WipeEmmc => "wipe_emmc_drive"@,
        Operation::WipeUfs => "wipe_ufs_drive"@,
        Operation::WipeNvmeAdvanced => "wipe_nvme_advanced"@,
        Operation::WipeNvmeBasic => "wipe_nvme_basic"@,
        Operation::WipeSsd => "wipe_ssd_drive"@,
        Operation::WipeHdd => "wipe_hdd_drive"@,
        Operation::WipeRaidMember => "wipe_raid_member"@,
    }
}

impl Operation {
    pub fn name(self) -> (r: &'static str)
        ensures
            r@ == operation_name(self),
    {
        match self {
            Operation::WipeSmr => "wipe_smr_drive",
            Operation::WipeOptane => "wipe_optane_drive",
            Operation::WipeHybrid => "wipe_hybrid_drive",
            Operation::WipeEmmc => "wipe_emmc_drive",
            Operation::WipeUfs => "wipe_ufs_drive",
            Operation::WipeNvmeAdvanced => "wipe_nvme_advanced",
            Operation::WipeNvmeBasic => "wipe_nvme_basic",
            Operation::WipeSsd => "wipe_ssd_drive",
            Operation::WipeHdd => "wipe_hdd_drive",
            Operation::WipeRaidMember => "wipe_raid_member",
        }
    }

    /// Index of this operation's checkpoint slot.
    pub fn slot(self) -> (r: usize)
        ensures
            r as int == operation_slot(self),
            r < OPERATION_COUNT,
    {
        match self {
            Operation::WipeSmr => 0,
            Operation::WipeOptane => 1,
            Operation::WipeHybrid => 2,
            Operation::WipeEmmc => 3,
            Operation::WipeUfs => 4,
            Operation::WipeNvmeAdvanced => 5,
            Operation::WipeNvmeBasic => 6,
            Operation::WipeSsd => 7,
            Operation::WipeHdd => 8,
            Operation::WipeRaidMember => 9,
        }
    }
}

/// Whether a failed attempt is worth repeating (a busy device, a timeout) or
/// not (an unsupported command, a denied authorisation).
#[derive(Clone, Copy, Debug, PartialEq, Eq, Structural)]
pub enum FailureKind {
    Transient,
    Permanent,
}

/// Durable record of a failed attempt.
#[derive(Clone, Debug)]
pub struct Checkpoint {
    pub retry_count: u32,
    pub last_error: FailureKind,
    pub message: String,
    pub timestamp: u64,
}

pub struct CheckpointView {
    pub retry_count: u32,
    pub last_error: FailureKind,
    pub message: Seq<char>,
    pub timestamp: u64,
}

impl View for Checkpoint {
    type V = CheckpointView;

    open spec fn view(&self) -> CheckpointView {
        CheckpointView {
            retry_count: self.retry_count,
            last_error: self.last_error,
            message: self.message@,
            timestamp: self.timestamp,
        }
    }
}

/// What one attempt of the supervised action came to.
#[derive(Clone, Debug)]
pub enum Outcome {
    Succeeded,
    Failed(FailureKind, String),
}

pub enum OutcomeView {
    Succeeded,
    Failed(FailureKind, Seq<char>),
}

impl View for Outcome {
    type V = OutcomeView;

    open spec fn view(&self) -> OutcomeView {
        match self {
            Outcome::Succeeded => OutcomeView::Succeeded,
            Outcome::Failed(kind, message) => OutcomeView::Failed(*kind, message@),
        }
    }
}

#[derive(Clone, Copy, Debug, PartialEq, Eq, Structural)]
pub enum RecoveryErrorKind {
    /// The retry budget of the operation is used up.
    Exhausted,
    /// The action failed in a way that retrying cannot mend.
    Permanent,
}

/// Terminal failure of a supervised operation, naming the operation, the
/// device and the last error seen.
#[derive(Clone, Debug)]
pub struct RecoveryError {
    pub operation: Operation,
    pub device: String,
    pub kind: RecoveryErrorKind,
    pub retries: u32,
    pub message: String,
}

/// What the caller is to do after recording an outcome.
#[derive(Clone, Debug)]
pub enum Decision {
    /// The action succeeded and its checkpoint is gone.
    Finished,
    /// Wait this many milliseconds, then attempt the action again.
    RetryAfter(u64),
    /// Give up with this error; the checkpoint stays as a terminal record.
    Abort(RecoveryError),
}

/// The class of a decision, for reasoning about whole runs.
#[derive(Clone, Copy, Debug, PartialEq, Eq, Structural)]
pub enum Verdict {
    Finished,
    Retry,
    Exhausted,
    Failed,
}

impl Decision {
    pub open spec fn verdict(&self) -> Verdict {
        match self {
            Decision::Finished => Verdict::Finished,
            Decision::RetryAfter(_) => Verdict::Retry,
            Decision::Abort(e) => if e.kind == RecoveryErrorKind::Exhausted {
                Verdict::Exhausted
            } else {
                Verdict::Failed
            },
        }
    }
}

/// Delay before the first retry, in milliseconds.
pub const BASE_DELAY_MS: u64 = 100;

/// Longest delay between two attempts, in milliseconds.
pub const MAX_DELAY_MS: u64 = 10000;

/// Exponential backoff: the base delay, doubled for each further retry, capped.
pub open spec fn backoff_ms(retry: nat) -> nat
    decreases retry,
{
    if retry <= 1 {
        BASE_DELAY_MS as nat
    } else {
        let doubled = 2 * backoff_ms((retry - 1) as nat);
        if doubled > MAX_DELAY_MS {
            MAX_DELAY_MS as nat
        } else {
            doubled
        }
    }
}

proof fn lemma_backoff_capped(from: nat, to: nat)
    requires
        from <= to,
        backoff_ms(from) == MAX_DELAY_MS,
    ensures
        backoff_ms(to) == MAX_DELAY_MS,
    decreases to,
{
    if to > from {
        lemma_backoff_capped(from, (to - 1) as nat);
    }
}

/// The delay to wait before the attempt that follows the `retry`-th failure.
pub fn backoff_delay_ms(retry: u32) -> (r: u64)
    ensures
        r as nat == backoff_ms(retry as nat),
        BASE_DELAY_MS <= r <= MAX_DELAY_MS,
{
    let mut delay: u64 = BASE_DELAY_MS;
    let mut i: u32 = 1;
    while i < retry && delay < MAX_DELAY_MS
        invariant
            1 <= i,
            i <= retry || i == 1,
            delay as nat == backoff_ms(i as nat),
            BASE_DELAY_MS <= delay <= MAX_DELAY_MS,
        decreases retry - i,
    {
        let doubled = 2 * delay;
        delay = if doubled > MAX_DELAY_MS {
            MAX_DELAY_MS
        } else {
            doubled
        };
        i = i + 1;
    }
    proof {
        if delay >= MAX_DELAY_MS && i < retry {
            lemma_backoff_capped(i as nat, retry as nat);
        }
    }
    delay
}

/// The coordinator's state in mathematical terms: the device it serves, the
/// retry budget, and the checkpoint store keyed by operation.
pub struct RecoveryModel {
    pub device: Seq<char>,
    pub max_retries: u32,
    pub store: Map<Operation, CheckpointView>,
}

/// Failed attempts recorded so far for `op`.
pub open spec fn prior_retries(m: RecoveryModel, op: Operation) -> u32 {
    if m.store.contains_key(op) {
        m.store[op].retry_count
    } else {
        0
    }
}

/// The retry budget of `op` is used up: the action must not be invoked again.
pub open spec fn is_exhausted(m: RecoveryModel, op: Operation) -> bool {
    m.store.contains_key(op) && m.store[op].retry_count >= m.max_retries
}

/// The retry count after one more failure; it never passes the budget.
pub open spec fn bumped(count: u32, max_retries: u32) -> u32 {
    if count < max_retries {
        (count + 1) as u32
    } else {
        count
    }
}

/// The state after recording an outcome of `op` at time `now`: success
/// deletes the checkpoint, failure writes it with one more retry.
pub open spec fn after_outcome(
    m: RecoveryModel,
    op: Operation,
    outcome: OutcomeView,
    now: u64,
) -> RecoveryModel {
    match outcome {
        OutcomeView::Succeeded => RecoveryModel {
            device: m.device,
            max_retries: m.max_retries,
            store: m.store.remove(op),
        },
        OutcomeView::Failed(kind, message) => RecoveryModel {
            device: m.device,
            max_retries: m.max_retries,
            store: m.store.insert(
                op,
                CheckpointView {
                    retry_count: bumped(prior_retries(m, op), m.max_retries),
                    last_error: kind,
                    message,
                    timestamp: now,
                },
            ),
        },
    }
}

/// The verdict on an outcome of `op`: a transient failure is retried until
/// the budget is used up, a permanent one ends the operation at once.
pub open spec fn verdict_of(m: RecoveryModel, op: Operation, outcome: OutcomeView) -> Verdict {
    match outcome {
        OutcomeView::Succeeded => Verdict::Finished,
        OutcomeView::Failed(kind, _) => if kind == FailureKind::Permanent {
            Verdict::Failed
        } else if bumped(prior_retries(m, op), m.max_retries) >= m.max_retries {
            Verdict::Exhausted
        } else {
            Verdict::Retry
        },
    }
}

pub open spec fn is_transient_failure(outcome: OutcomeView) -> bool {
    outcome matches OutcomeView::Failed(kind, _) && kind == FailureKind::Transient
}

/// One supervised run of `op`: before each attempt the store is consulted,
/// and each attempt's outcome (with its time) is recorded; on a retry
/// verdict the action is invoked again. When the events are used up while
/// one more invocation is due, the run ends with a retry verdict.
pub open spec fn run(
    m: RecoveryModel,
    op: Operation,
    events: Seq<(OutcomeView, u64)>,
) -> (RecoveryModel, Verdict)
    decreases events.len(),
{
    if is_exhausted(m, op) {
        (m, Verdict::Exhausted)
    } else if events.len() == 0 {
        (m, Verdict::Retry)
    } else {
        let next = after_outcome(m, op, events[0].0, events[0].1);
        let verdict = verdict_of(m, op, events[0].0);
        if verdict == Verdict::Retry {
            run(next, op, events.drop_first())
        } else {
            (next, verdict)
        }
    }
}

/// How many times the action is invoked in the run that `run` describes.
pub open spec fn attempts(m: RecoveryModel, op: Operation, events: Seq<(OutcomeView, u64)>) -> nat
    decreases events.len(),
{
    if is_exhausted(m, op) || events.len() == 0 {
        0
    } else if verdict_of(m, op, events[0].0) == Verdict::Retry {
        1 + attempts(after_outcome(m, op, events[0].0, events[0].1), op, events.drop_first())
    } else {
        1
    }
}

/// Supervises the destructive actions of one device with a bounded retry
/// budget and a checkpoint per operation.
pub struct RecoveryCoordinator {
    device_id: String,
    max_retries: u32,
    slots: [Option<Checkpoint>; OPERATION_COUNT],
}

impl View for RecoveryCoordinator {
    type V = RecoveryModel;

    closed spec fn view(&self) -> RecoveryModel {
        RecoveryModel {
            device: self.device_id@,
            max_retries: self.max_retries,
            store: Map::new(
                |op: Operation| self.slots@[operation_slot(op)] is Some,
                |op: Operation| self.slots@[operation_slot(op)]->Some_0@,
            ),
        }
    }
}

impl RecoveryCoordinator {
    /// A coordinator for `device_id` with an empty checkpoint store.
    pub fn new(device_id: String, max_retries: u32) -> (r: Self)
        ensures
            r@.device == device_id@,
            r@.max_retries == max_retries,
            r@.store == Map::<Operation, CheckpointView>::empty(),
    {
        let slots: [Option<Checkpoint>; OPERATION_COUNT] = [
            None,
            None,
            None,
            None,
            None,
            None,
            None,
            None,
            None,
            None,
        ];
        let r = RecoveryCoordinator { device_id, max_retries, slots };
        proof {
            assert forall|op: Operation| !r@.store.contains_key(op) by {
                lemma_slot_round_trip(op);
            }
            assert(r@.store =~= Map::<Operation, CheckpointView>::empty());
        }
        r
    }

    /// The device whose operations this coordinator supervises.
    pub fn device_id(&self) -> (r: &String)
        ensures
            r@ == self@.device,
    {
        &self.device_id
    }

    pub fn max_retries(&self) -> (r: u32)
        ensures
            r == self@.max_retries,
    {
        self.max_retries
    }

    /// The checkpoint recorded for `op`, if any.
    pub fn checkpoint(&self, op: Operation) -> (r: Option<&Checkpoint>)
        ensures
            r is Some <==> self@.store.contains_key(op),
            r matches Some(c) ==> c@ == self@.store[op],
    {
        proof {
            lemma_slot_round_trip(op);
        }
        match &self.slots[op.slot()] {
            Some(c) => Some(c),
            None => None,
        }
    }

    fn prior_retries(&self, op: Operation) -> (r: u32)
        ensures
            r == prior_retries(self@, op),
    {
        match self.checkpoint(op) {
            Some(c) => c.retry_count,
            None => 0,
        }
    }

    /// Asked before each attempt of `op`: refuses with an `Exhausted` error,
    /// without the action being invoked, once the retry budget is used up.
    pub fn begin(&self, op: Operation) -> (r: Result<(), RecoveryError>)
        ensures
            r is Err <==> is_exhausted(self@, op),
            r matches Err(e) ==> {
                &&& e.operation == op
                &&& e.device@ == self@.device
                &&& e.kind == RecoveryErrorKind::Exhausted
                &&& e.retries == self@.store[op].retry_count
                &&& e.message@ == self@.store[op].message
            },
    {
        match self.checkpoint(op) {
            Some(c) => {
                if c.retry_count >= self.max_retries {
                    Err(
                        RecoveryError {
                            operation: op,
                            device: self.device_id.clone(),
                            kind: RecoveryErrorKind::Exhausted,
                            retries: c.retry_count,
                            message: c.message.clone(),
                        },
                    )
                } else {
                    Ok(())
                }
            },
            None => Ok(()),
        }
    }

    /// Reinstates a checkpoint of `op` read back from durable storage, so that
    /// a restarted process sees the attempts made before it.
    pub fn restore(&mut self, op: Operation, checkpoint: Checkpoint)
        ensures
            final(self)@ == (RecoveryModel {
                device: old(self)@.device,
                max_retries: old(self)@.max_retries,
                store: old(self)@.store.insert(op, checkpoint@),
            }),
    {
        let slot = op.slot();
        proof {
            lemma_slots_distinct();
        }
        let ghost restored = checkpoint@;
        self.slots[slot] = Some(checkpoint);
        proof {
            assert(self@.store =~= old(self)@.store.insert(op, restored));
        }
    }

    /// Records the outcome of an attempt of `op` made at time `now`, and says
    /// what comes next.
    pub fn record(&mut self, op: Operation, outcome: Outcome, now: u64) -> (r: Decision)
        ensures
            final(self)@ == after_outcome(old(self)@, op, outcome@, now),
            r.verdict() == verdict_of(old(self)@, op, outcome@),
            outcome@ is Failed ==> final(self)@.store[op].retry_count >= prior_retries(
                old(self)@,
                op,
            ),
            r matches Decision::RetryAfter(delay) ==> delay as nat == backoff_ms(
                bumped(prior_retries(old(self)@, op), old(self)@.max_retries) as nat,
            ),
            r matches Decision::Abort(e) ==> {
                &&& e.operation == op
                &&& e.device@ == old(self)@.device
                &&& e.retries == bumped(prior_retries(old(self)@, op), old(self)@.max_retries)
                &&& (outcome@ matches OutcomeView::Failed(_, message) && e.message@ == message)
            },
    {
        let slot = op.slot();
        let prior = self.prior_retries(op);
        proof {
            lemma_slots_distinct();
        }
        match outcome {
            Outcome::Succeeded => {
                self.slots[slot] = None;
                proof {
                    assert(self@.store =~= old(self)@.store.remove(op));
                }
                Decision::Finished
            },
            Outcome::Failed(kind, message) => {
                let count = if prior < self.max_retries {
                    prior + 1
                } else {
                    prior
                };
                let error_message = message.clone();
                let checkpoint = Checkpoint {
                    retry_count: count,
                    last_error: kind,
                    message,
                    timestamp: now,
                };
                self.slots[slot] = Some(checkpoint);
                proof {
                    assert(self@.store =~= old(self)@.store.insert(op, checkpoint@));
                }
                let abort_kind = match kind {
                    FailureKind::Permanent => RecoveryErrorKind::Permanent,
                    FailureKind::Transient => {
                        if count < self.max_retries {
                            return Decision::RetryAfter(backoff_delay_ms(count));
                        }
                        RecoveryErrorKind::Exhausted
                    },
                };
                Decision::Abort(
                    RecoveryError {
                        operation: op,
                        device: self.device_id.clone(),
                        kind: abort_kind,
                        retries: count,
                        message: error_message,
                    },
                )
            },
        }
    }
}

proof fn lemma_run_finishes(m: RecoveryModel, op: Operation, events: Seq<(OutcomeView, u64)>, k: nat)
    requires
        prior_retries(m, op) + k < m.max_retries,
        k < events.len(),
        forall|i: int| 0 <= i < k ==> is_transient_failure(#[trigger] events[i].0),
        events[k as int].0 is Succeeded,
    ensures
        run(m, op, events).1 == Verdict::Finished,
        attempts(m, op, events) == k + 1,
        run(m, op, events).0 == (RecoveryModel {
            device: m.device,
            max_retries: m.max_retries,
            store: m.store.remove(op),
        }),
    decreases k,
{
    if k > 0 {
        let next = after_outcome(m, op, events[0].0, events[0].1);
        let rest = events.drop_first();
        assert forall|i: int| 0 <= i < k - 1 implies is_transient_failure(#[trigger] rest[i].0) by {
            assert(rest[i] == events[i + 1]);
        }
        assert(rest[k - 1] == events[k as int]);
        lemma_run_finishes(next, op, rest, (k - 1) as nat);
        assert(next.store.remove(op) =~= m.store.remove(op));
    }
}

/// An action that fails transiently `k` times, with `k` below the retry
/// budget, and then succeeds ends in success after `k + 1` invocations and
/// leaves no checkpoint behind.
pub proof fn lemma_transient_failures_then_success(
    m: RecoveryModel,
    op: Operation,
    events: Seq<(OutcomeView, u64)>,
    k: nat,
)
    requires
        !m.store.contains_key(op),
        k < m.max_retries,
        k < events.len(),
        forall|i: int| 0 <= i < k ==> is_transient_failure(#[trigger] events[i].0),
        events[k as int].0 is Succeeded,
    ensures
        run(m, op, events).1 == Verdict::Finished,
        attempts(m, op, events) == k + 1,
        !run(m, op, events).0.store.contains_key(op),
        run(m, op, events).0 == m,
{
    lemma_run_finishes(m, op, events, k);
    assert(m.store.remove(op) =~= m.store);
}

proof fn lemma_run_exhausts(m: RecoveryModel, op: Operation, events: Seq<(OutcomeView, u64)>)
    requires
        prior_retries(m, op) <= m.max_retries,
        m.store.contains_key(op) || events.len() > 0,
        events.len() + prior_retries(m, op) >= m.max_retries,
        forall|i: int| 0 <= i < events.len() ==> is_transient_failure(#[trigger] events[i].0),
    ensures
        run(m, op, events).1 == Verdict::Exhausted,
        run(m, op, events).0.store.contains_key(op),
        run(m, op, events).0.store[op].retry_count == m.max_retries,
        attempts(m, op, events) == if is_exhausted(m, op) {
            0
        } else if m.max_retries == 0 {
            1
        } else {
            m.max_retries - prior_retries(m, op)
        },
    decreases events.len(),
{
    if !is_exhausted(m, op) {
        let next = after_outcome(m, op, events[0].0, events[0].1);
        let rest = events.drop_first();
        if verdict_of(m, op, events[0].0) == Verdict::Retry {
            assert forall|i: int| 0 <= i < rest.len() implies is_transient_failure(#[trigger] rest[i].0) by {
                assert(rest[i] == events[i + 1]);
            }
            lemma_run_exhausts(next, op, rest);
        }
    }
}

/// An action that keeps failing transiently until its retry budget is used
/// up ends with `Exhausted` after as many invocations as the budget (one when
/// the budget is zero), and leaves a checkpoint whose retry count equals the
/// budget.
pub proof fn lemma_always_failing_exhausts(
    m: RecoveryModel,
    op: Operation,
    events: Seq<(OutcomeView, u64)>,
)
    requires
        !m.store.contains_key(op),
        events.len() > 0,
        events.len() >= m.max_retries,
        forall|i: int| 0 <= i < events.len() ==> is_transient_failure(#[trigger] events[i].0),
    ensures
        run(m, op, events).1 == Verdict::Exhausted,
        run(m, op, events).0.store.contains_key(op),
        run(m, op, events).0.store[op].retry_count == m.max_retries,
        attempts(m, op, events) == if m.max_retries == 0 {
            1
        } else {
            m.max_retries as nat
        },
{
    lemma_run_exhausts(m, op, events);
}

} // verus!
