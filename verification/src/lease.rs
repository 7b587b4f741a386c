//! Leadership over a renewable, time-bounded lease.
//!
//! A replica starts as `NotLeader` and asks for the lease until it holds it.
//! As `Leader` it renews on a fixed cadence. A reply that says the lease is
//! held by someone else ends the process; a transport error does not. The
//! program around this module makes the calls and the pauses, and reports
//! each reply of the lease client to `LeaseState::observe`.

use vstd::prelude::*;

verus! {

/// Seconds between two attempts to acquire the lease.
pub const ACQUIRE_BACKOFF_SECS: u64 = 1;

/// Seconds between two renewals of the lease.
pub const RENEWAL_PERIOD_SECS: u64 = 5;

/// Exit status of a process that lost the lease.
pub const LOST_LEASE_EXIT_CODE: i32 = 1;

/// Where a replica stands.
#[derive(Clone, Copy, Debug, PartialEq, Eq, Structural)]
pub enum Phase {
    NotLeader,
    Leader,
    Terminated,
}

/// What one call of the lease client's acquire-or-renew operation gave.
#[derive(Clone, Copy, Debug, PartialEq, Eq, Structural)]
pub enum Reply {
    /// The call succeeded and this replica holds the lease.
    Held,
    /// The call succeeded and this replica does not hold the lease.
    NotHeld,
    /// The call itself failed.
    Failed,
}

/// What the program does next.
#[derive(Clone, Copy, Debug, PartialEq, Eq, Structural)]
pub enum Directive {
    /// Pause, then try to acquire again.
    RetryAcquire { after_secs: u64 },
    /// Leadership is won: start renewing, the first time after the pause, and
    /// enter the poll loop.
    StartWatchdog { after_secs: u64 },
    /// Pause, then renew again.
    Renew { after_secs: u64 },
    /// Log a warning, pause, then renew again.
    WarnAndRenew { after_secs: u64 },
    /// The lease cannot be reached at startup: hand the error to the caller.
    FailStartup,
    /// Leadership is lost: end the process with this status.
    Exit { code: i32 },
    /// The replica has terminated already: nothing is left to do.
    Halted,
}

/// The phase that follows a reply. A replica that is not leader becomes leader
/// when it holds the lease, keeps waiting when it does not, and terminates
/// when the lease cannot be reached. A leader terminates only when it is told
/// that it does not hold the lease. Nothing leads out of `Terminated`.
pub open spec fn next_phase(phase: Phase, reply: Reply) -> Phase {
    match (phase, reply) {
        (Phase::NotLeader, Reply::Held) => Phase::Leader,
        (Phase::NotLeader, Reply::NotHeld) => Phase::NotLeader,
        (Phase::NotLeader, Reply::Failed) => Phase::Terminated,
        (Phase::Leader, Reply::NotHeld) => Phase::Terminated,
        (Phase::Leader, _) => Phase::Leader,
        (Phase::Terminated, _) => Phase::Terminated,
    }
}

/// What the program is told to do upon a reply.
pub open spec fn directive_for(phase: Phase, reply: Reply) -> Directive {
    match (phase, reply) {
        (Phase::NotLeader, Reply::Held) => Directive::StartWatchdog {
            after_secs: RENEWAL_PERIOD_SECS,
        },
        (Phase::NotLeader, Reply::NotHeld) => Directive::RetryAcquire {
            after_secs: ACQUIRE_BACKOFF_SECS,
        },
        (Phase::NotLeader, Reply::Failed) => Directive::FailStartup,
        (Phase::Leader, Reply::Held) => Directive::Renew { after_secs: RENEWAL_PERIOD_SECS },
        (Phase::Leader, Reply::Failed) => Directive::WarnAndRenew {
            after_secs: RENEWAL_PERIOD_SECS,
        },
        (Phase::Leader, Reply::NotHeld) => Directive::Exit { code: LOST_LEASE_EXIT_CODE },
        (Phase::Terminated, _) => Directive::Halted,
    }
}

/// The phase after a run of replies.
pub open spec fn phase_after(phase: Phase, replies: Seq<Reply>) -> Phase
    decreases replies.len(),
{
    if replies.len() == 0 {
        phase
    } else {
        phase_after(next_phase(phase, replies[0]), replies.drop_first())
    }
}

/// How often a run of replies tells the program to exit.
pub open spec fn exits(phase: Phase, replies: Seq<Reply>) -> nat
    decreases replies.len(),
{
    if replies.len() == 0 {
        0
    } else {
        let now: nat = if directive_for(phase, replies[0]) is Exit {
            1
        } else {
            0
        };
        now + exits(next_phase(phase, replies[0]), replies.drop_first())
    }
}

/// The lease of this process: its parameters and where the replica stands.
/// Only `observe` changes it.
#[derive(Debug)]
pub struct LeaseState {
    holder_id: String,
    lease_name: String,
    ttl_secs: u64,
    phase: Phase,
}

/// A lease as plain values.
pub struct LeaseView {
    pub holder_id: Seq<char>,
    pub lease_name: Seq<char>,
    pub ttl_secs: u64,
    pub phase: Phase,
}

impl View for LeaseState {
    type V = LeaseView;

    closed spec fn view(&self) -> LeaseView {
        LeaseView {
            holder_id: self.holder_id@,
            lease_name: self.lease_name@,
            ttl_secs: self.ttl_secs,
            phase: self.phase,
        }
    }
}

impl LeaseState {
    /// A lease that has not been asked for yet.
    pub fn new(holder_id: String, lease_name: String, ttl_secs: u64) -> (lease: LeaseState)
        ensures
            lease@ == (LeaseView {
                holder_id: holder_id@,
                lease_name: lease_name@,
                ttl_secs,
                phase: Phase::NotLeader,
            }),
    {
        LeaseState { holder_id, lease_name, ttl_secs, phase: Phase::NotLeader }
    }

    /// The identity under which this replica asks for the lease.
    pub fn holder_id(&self) -> (holder_id: &String)
        ensures
            holder_id@ == self@.holder_id,
    {
        &self.holder_id
    }

    /// The name of the shared lease.
    pub fn lease_name(&self) -> (lease_name: &String)
        ensures
            lease_name@ == self@.lease_name,
    {
        &self.lease_name
    }

    /// The time to live of the lease, in seconds.
    pub fn ttl_secs(&self) -> (ttl_secs: u64)
        ensures
            ttl_secs == self@.ttl_secs,
    {
        self.ttl_secs
    }

    /// Where this replica stands.
    pub fn phase(&self) -> (phase: Phase)
        ensures
            phase == self@.phase,
    {
        self.phase
    }

    /// Whether this replica holds the lease.
    pub fn acquired(&self) -> (held: bool)
        ensures
            held == (self@.phase == Phase::Leader),
    {
        match self.phase {
            Phase::Leader => true,
            _ => false,
        }
    }

    /// Takes in one reply of the lease client and says what to do next. The
    /// parameters of the lease stay as they are.
    pub fn observe(&mut self, reply: Reply) -> (directive: Directive)
        ensures
            final(self)@ == (LeaseView {
                phase: next_phase(old(self)@.phase, reply),
                ..old(self)@
            }),
            directive == directive_for(old(self)@.phase, reply),
    {
        let (phase, directive) = match (self.phase, reply) {
            (Phase::NotLeader, Reply::Held) => (
                Phase::Leader,
                Directive::StartWatchdog { after_secs: RENEWAL_PERIOD_SECS },
            ),
            (Phase::NotLeader, Reply::NotHeld) => (
                Phase::NotLeader,
                Directive::RetryAcquire { after_secs: ACQUIRE_BACKOFF_SECS },
            ),
            (Phase::NotLeader, Reply::Failed) => (Phase::Terminated, Directive::FailStartup),
            (Phase::Leader, Reply::Held) => (
                Phase::Leader,
                Directive::Renew { after_secs: RENEWAL_PERIOD_SECS },
            ),
            (Phase::Leader, Reply::Failed) => (
                Phase::Leader,
                Directive::WarnAndRenew { after_secs: RENEWAL_PERIOD_SECS },
            ),
            (Phase::Leader, Reply::NotHeld) => (
                Phase::Terminated,
                Directive::Exit { code: LOST_LEASE_EXIT_CODE },
            ),
            (Phase::Terminated, _) => (Phase::Terminated, Directive::Halted),
        };
        self.phase = phase;
        directive
    }
}

/// Nothing leads out of `Terminated`, and nothing there tells the program to
/// exit again.
pub proof fn lemma_terminated_is_final(replies: Seq<Reply>)
    ensures
        phase_after(Phase::Terminated, replies) == Phase::Terminated,
        exits(Phase::Terminated, replies) == 0,
    decreases replies.len(),
{
    if replies.len() > 0 {
        lemma_terminated_is_final(replies.drop_first());
    }
}

/// A leader whose renewals succeed or fail in transit stays leader and is
/// never told to exit.
pub proof fn lemma_transient_errors_keep_leadership(replies: Seq<Reply>)
    requires
        forall|i: int| 0 <= i < replies.len() ==> replies[i] != Reply::NotHeld,
    ensures
        phase_after(Phase::Leader, replies) == Phase::Leader,
        exits(Phase::Leader, replies) == 0,
    decreases replies.len(),
{
    if replies.len() > 0 {
        lemma_transient_errors_keep_leadership(replies.drop_first());
    }
}

/// The first reply that says the lease is not held terminates a leader, and
/// the program is told to exit exactly once: however many renewals succeeded
/// or failed in transit before it, and whatever is reported after it.
pub proof fn lemma_lost_lease_exits_once(before: Seq<Reply>, after: Seq<Reply>)
    requires
        forall|i: int| 0 <= i < before.len() ==> before[i] != Reply::NotHeld,
    ensures
        phase_after(Phase::Leader, before.push(Reply::NotHeld) + after) == Phase::Terminated,
        exits(Phase::Leader, before.push(Reply::NotHeld) + after) == 1,
    decreases before.len(),
{
    let run = before.push(Reply::NotHeld) + after;
    if before.len() == 0 {
        assert(run[0] == Reply::NotHeld);
        assert(run.drop_first() =~= after);
        lemma_terminated_is_final(after);
    } else {
        assert(run[0] == before[0]);
        assert(run.drop_first() =~= before.drop_first().push(Reply::NotHeld) + after);
        lemma_lost_lease_exits_once(before.drop_first(), after);
    }
}

/// A replica that is told "not held" any number of times and then "held"
/// becomes leader, and is never told to exit on the way.
pub proof fn lemma_acquire_blocks_until_held(waits: Seq<Reply>)
    requires
        forall|i: int| 0 <= i < waits.len() ==> waits[i] == Reply::NotHeld,
    ensures
        phase_after(Phase::NotLeader, waits.push(Reply::Held)) == Phase::Leader,
        exits(Phase::NotLeader, waits.push(Reply::Held)) == 0,
    decreases waits.len(),
{
    let run = waits.push(Reply::Held);
    if waits.len() == 0 {
        assert(run.drop_first() =~= Seq::<Reply>::empty());
        assert(phase_after(Phase::Leader, run.drop_first()) == Phase::Leader);
        assert(exits(Phase::Leader, run.drop_first()) == 0);
    } else {
        assert(run[0] == waits[0]);
        assert(run.drop_first() =~= waits.drop_first().push(Reply::Held));
        lemma_acquire_blocks_until_held(waits.drop_first());
    }
}

} // verus!
