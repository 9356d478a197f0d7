//! The per-provider interval scheduler: a two-state machine (running,
//! stopped) over millisecond instants. A fresh scheduler is due
//! immediately, so the first refresh happens before the first interval
//! elapses; when a tick is delayed, missed ticks are skipped rather than
//! replayed; once stopped, it never fires again.

use vstd::prelude::*;

verus! {

/// The scheduler's state: running, or terminally stopped.
#[derive(Clone, Copy, Debug, PartialEq, Eq, Structural)]
pub enum SchedulerState {
    Running,
    Stopped,
}

/// The interval scheduler for one running provider instance.
#[derive(Clone, Copy, Debug)]
pub struct IntervalScheduler {
    period_ms: u64,
    state: SchedulerState,
    next_due_ms: u64,
}

impl IntervalScheduler {
    /// The fixed tick period, in milliseconds.
    pub closed spec fn period(self) -> u64 {
        self.period_ms
    }

    /// The scheduler's current state.
    pub closed spec fn state(self) -> SchedulerState {
        self.state
    }

    /// The earliest instant at which the next refresh is due.
    pub closed spec fn next_due(self) -> u64 {
        self.next_due_ms
    }

    /// Whether the scheduler is still running.
    pub open spec fn running(self) -> bool {
        self.state() == SchedulerState::Running
    }

    /// Well-formedness: the period is at least one millisecond.
    pub open spec fn wf(self) -> bool {
        self.period() >= 1
    }

    /// Whether a poll at `now` triggers a refresh: the scheduler is
    /// running and the next refresh is due.
    pub open spec fn should_fire(self, now: u64) -> bool {
        self.running() && now >= self.next_due()
    }

    /// What one poll at `now` does: it fires exactly when a refresh is
    /// due, and a fired poll re-arms the timer one full period after
    /// `now` itself, not after the originally due instant, so missed
    /// ticks are skipped, never replayed as a burst.
    pub open spec fn poll_transition(pre: Self, post: Self, now: u64, fired: bool) -> bool {
        &&& fired == pre.should_fire(now)
        &&& post.period() == pre.period()
        &&& post.state() == pre.state()
        &&& (if fired {
            post.next_due() == now + pre.period()
        } else {
            post.next_due() == pre.next_due()
        })
    }

    /// Creates a running scheduler that is due immediately, at its
    /// creation instant `now_ms`.
    pub fn new(period_ms: u64, now_ms: u64) -> (s: IntervalScheduler)
        requires
            period_ms >= 1,
        ensures
            s.wf(),
            s.running(),
            s.period() == period_ms,
            s.next_due() == now_ms,
    {
        IntervalScheduler { period_ms, state: SchedulerState::Running, next_due_ms: now_ms }
    }

    /// One poll of the timer at instant `now_ms`: reports whether a
    /// refresh must run now, and if so re-arms the timer one period
    /// later.
    pub fn poll(&mut self, now_ms: u64) -> (fired: bool)
        requires
            old(self).wf(),
            now_ms + old(self).period() <= u64::MAX,
        ensures
            final(self).wf(),
            Self::poll_transition(*old(self), *final(self), now_ms, fired),
    {
        match self.state {
            SchedulerState::Running => {
                if now_ms >= self.next_due_ms {
                    self.next_due_ms = now_ms + self.period_ms;
                    true
                } else {
                    false
                }
            },
            SchedulerState::Stopped => false,
        }
    }

    /// Observes the stop signal: the scheduler transitions to its
    /// terminal state and never fires again.
    pub fn stop(&mut self)
        ensures
            final(self).state() == SchedulerState::Stopped,
            final(self).period() == old(self).period(),
            final(self).next_due() == old(self).next_due(),
    {
        self.state = SchedulerState::Stopped;
    }

    /// Whether the scheduler is still running.
    pub fn is_running(&self) -> (b: bool)
        ensures
            b == self.running(),
    {
        match self.state {
            SchedulerState::Running => true,
            SchedulerState::Stopped => false,
        }
    }
}

/// Immediate first emission: a freshly created scheduler is due at its
/// creation instant, so a poll at any instant from creation on fires — in
/// particular before the first configured interval has elapsed.
pub proof fn lemma_immediate_first_emission(s: IntervalScheduler, start: u64, now: u64)
    requires
        s.running(),
        s.next_due() == start,
        start <= now,
    ensures
        s.should_fire(now),
{
}

/// Skip, not burst: once a (possibly long delayed) poll has fired at
/// `now`, no further poll fires before a full period has passed after
/// `now`, whatever backlog of missed ticks preceded it — at most one
/// refresh runs to catch up.
pub proof fn lemma_skip_not_burst(
    pre: IntervalScheduler,
    mid: IntervalScheduler,
    post: IntervalScheduler,
    now: u64,
    later: u64,
    fired_again: bool,
)
    requires
        pre.wf(),
        IntervalScheduler::poll_transition(pre, mid, now, true),
        IntervalScheduler::poll_transition(mid, post, later, fired_again),
        later < now + pre.period(),
    ensures
        !fired_again,
        post.next_due() == mid.next_due(),
        post.state() == mid.state(),
{
}

/// Teardown is final: a stopped scheduler fires at no instant, so no
/// refresh and no emission follows the stop signal.
pub proof fn lemma_stopped_never_fires(s: IntervalScheduler, now: u64)
    requires
        s.state() == SchedulerState::Stopped,
    ensures
        !s.should_fire(now),
{
}

} // verus!
