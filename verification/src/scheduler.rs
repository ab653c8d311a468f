//! The round scheduler: once a tick it looks for the stop signal and counts
//! towards the next round.

use grin_util::StopState;
use vstd::arithmetic::div_mod::{lemma_fundamental_div_mod, lemma_fundamental_div_mod_converse};
use vstd::prelude::*;

verus! {

/// The stop signal of the process, `grin_util::StopState`. Whoever shuts the
/// process down sets it; the scheduler only reads it.
#[verifier::external_type_specification]
#[verifier::external_body]
pub struct ExStopState(StopState);

/// `grin_util::StopState::is_stopped` loads a flag that any thread may set at
/// any time. Nothing is claimed of what it returns.
pub assume_specification[ StopState::is_stopped ](stop_state: &StopState) -> (stopped: bool);

/// Seconds that the driver waits at one pass of the loop.
pub const TICK_SECONDS: u64 = 1;

/// What the scheduler asks of its driver at one pass of the loop.
#[derive(Clone, Copy, Debug, PartialEq, Eq, Structural)]
pub enum Tick {
    /// The stop signal was seen: close the transport and leave the loop.
    Shutdown,
    /// Wait for one tick.
    Wait,
    /// Wait for one tick, then run a round on the engine.
    Round,
    /// The scheduler had stopped before: nothing is left to do.
    Finished,
}

/// The scheduler as a mathematical value.
pub struct Schedule {
    /// Ticks from one round to the next.
    pub interval: nat,
    /// Ticks counted since the last round.
    pub elapsed: nat,
    /// Whether the stop signal has been seen.
    pub stopped: bool,
}

impl Schedule {
    /// The count stays below the interval, which is not zero.
    pub open spec fn wf(self) -> bool {
        0 < self.interval && self.elapsed < self.interval
    }

    /// A running schedule that has counted nothing yet.
    pub open spec fn fresh(interval: nat) -> Schedule {
        Schedule { interval, elapsed: 0, stopped: false }
    }

    /// The count after one more tick.
    pub open spec fn advanced(self) -> nat {
        (self.elapsed + 1) % self.interval
    }

    /// The schedule after one pass that saw the stop signal set or unset.
    pub open spec fn next(self, stop: bool) -> Schedule {
        if self.stopped {
            self
        } else if stop {
            Schedule { interval: self.interval, elapsed: self.elapsed, stopped: true }
        } else {
            Schedule { interval: self.interval, elapsed: self.advanced(), stopped: false }
        }
    }

    /// What one pass asks of the driver.
    pub open spec fn action(self, stop: bool) -> Tick {
        if self.stopped {
            Tick::Finished
        } else if stop {
            Tick::Shutdown
        } else if self.advanced() == 0 {
            Tick::Round
        } else {
            Tick::Wait
        }
    }

    /// The schedule after a run of passes, one signal reading for each.
    pub open spec fn after(self, signals: Seq<bool>) -> Schedule
        decreases signals.len(),
    {
        if signals.len() == 0 {
            self
        } else {
            self.after(signals.drop_last()).next(signals.last())
        }
    }

    /// What pass number `i` of a run asks of the driver, counting from zero.
    pub open spec fn action_at(self, signals: Seq<bool>, i: int) -> Tick
        recommends
            0 <= i < signals.len(),
    {
        self.after(signals.take(i)).action(signals[i])
    }

    /// Whether a round is due at the pass that follows `passed` passes
    /// without a stop signal.
    pub open spec fn due_after(self, passed: int) -> bool {
        (self.elapsed + passed + 1) % (self.interval as int) == 0
    }

    /// The number of rounds that a run asks for.
    pub open spec fn rounds(self, signals: Seq<bool>) -> nat
        decreases signals.len(),
    {
        if signals.len() == 0 {
            0
        } else {
            let before = self.rounds(signals.drop_last());
            if self.after(signals.drop_last()).action(signals.last()) == Tick::Round {
                before + 1
            } else {
                before
            }
        }
    }
}

/// A run of `n` passes that never see the stop signal.
pub open spec fn quiet(n: nat) -> Seq<bool> {
    Seq::new(n, |i: int| false)
}

/// The scheduler of rounds. It holds the interval it was made with, the ticks
/// counted since the last round, and whether it has stopped.
pub struct RoundScheduler {
    interval_s: u32,
    secs: u32,
    stopped: bool,
}

impl View for RoundScheduler {
    type V = Schedule;

    closed spec fn view(&self) -> Schedule {
        Schedule {
            interval: self.interval_s as nat,
            elapsed: self.secs as nat,
            stopped: self.stopped,
        }
    }
}

impl RoundScheduler {
    #[verifier::type_invariant]
    spec fn inv(self) -> bool {
        0 < self.interval_s && self.secs < self.interval_s
    }

    /// A running scheduler for rounds every `interval_s` ticks.
    pub fn new(interval_s: u32) -> (scheduler: RoundScheduler)
        requires
            interval_s > 0,
        ensures
            scheduler@ == Schedule::fresh(interval_s as nat),
    {
        RoundScheduler { interval_s, secs: 0, stopped: false }
    }

    /// One pass of the loop. `stop` is the stop signal as read at this pass.
    /// A set signal stops the scheduler for good; otherwise the count moves
    /// on by one, and a round is due whenever it comes back to zero.
    pub fn tick(&mut self, stop: bool) -> (action: Tick)
        ensures
            old(self)@.wf(),
            final(self)@.wf(),
            action == old(self)@.action(stop),
            final(self)@ == old(self)@.next(stop),
    {
        proof {
            use_type_invariant(&*self);
        }
        if self.stopped {
            Tick::Finished
        } else if stop {
            self.stopped = true;
            Tick::Shutdown
        } else {
            self.secs = (self.secs + 1) % self.interval_s;
            if self.secs == 0 {
                Tick::Round
            } else {
                Tick::Wait
            }
        }
    }

    /// One pass of the loop, with the stop signal read from `stop_state` as
    /// the pass begins. Whatever is read there, the pass is the one that
    /// [`RoundScheduler::tick`] makes of it.
    pub fn poll(&mut self, stop_state: &StopState) -> (action: Tick)
        ensures
            old(self)@.wf(),
            final(self)@.wf(),
            exists|stop: bool|
                action == #[trigger] old(self)@.action(stop) && final(self)@ == old(self)@.next(
                    stop,
                ),
    {
        let stop = stop_state.is_stopped();
        self.tick(stop)
    }

    /// Whether the stop signal has been seen.
    pub fn is_stopped(&self) -> (stopped: bool)
        ensures
            stopped == self@.stopped,
    {
        self.stopped
    }

    /// Ticks from one round to the next.
    pub fn interval_s(&self) -> (interval_s: u32)
        ensures
            interval_s == self@.interval,
            self@.wf(),
    {
        proof {
            use_type_invariant(self);
        }
        self.interval_s
    }
}

/// One more tick moves the remainder on by one and the quotient up by one
/// exactly when the remainder comes back to zero.
proof fn lemma_count_one_more(a: nat, m: nat)
    requires
        0 < m,
    ensures
        (a + 1) % m == ((a % m) + 1) % m,
        (a + 1) / m == a / m + if (a + 1) % m == 0 {
            1nat
        } else {
            0nat
        },
{
    let (a, m) = (a as int, m as int);
    let (q, r) = (a / m, a % m);
    lemma_fundamental_div_mod(a, m);
    assert(a == q * m + r) by (nonlinear_arith)
        requires
            a == m * q + r,
    ;
    if r + 1 < m {
        lemma_fundamental_div_mod_converse(a + 1, m, q, r + 1);
        lemma_fundamental_div_mod_converse(r + 1, m, 0, r + 1);
    } else {
        assert(a + 1 == (q + 1) * m + 0) by (nonlinear_arith)
            requires
                a == q * m + r,
                r + 1 == m,
        ;
        lemma_fundamental_div_mod_converse(a + 1, m, q + 1, 0);
        lemma_fundamental_div_mod_converse(r + 1, m, 1, 0);
    }
}

/// A run taken one pass further.
proof fn lemma_one_more_pass(s: Schedule, signals: Seq<bool>, i: int)
    requires
        0 <= i < signals.len(),
    ensures
        s.after(signals.take(i + 1)) == s.after(signals.take(i)).next(signals[i]),
        s.rounds(signals.take(i + 1)) == s.rounds(signals.take(i)) + if s.action_at(signals, i)
            == Tick::Round {
            1nat
        } else {
            0nat
        },
{
    assert(signals.take(i + 1).drop_last() =~= signals.take(i));
}

/// While no stop is signalled, a round is due once per interval: pass `i` asks
/// for one exactly when the count comes back to zero, so `n` passes ask for as
/// many rounds as whole intervals have gone by.
pub proof fn lemma_round_every_interval(s: Schedule, n: nat)
    requires
        s.wf(),
        !s.stopped,
    ensures
        s.after(quiet(n)) == (Schedule {
            interval: s.interval,
            elapsed: (s.elapsed + n) % s.interval,
            stopped: false,
        }),
        s.rounds(quiet(n)) == (s.elapsed + n) / s.interval,
        forall|i: int|
            0 <= i < n ==> #[trigger] s.action_at(quiet(n), i) == if s.due_after(i) {
                Tick::Round
            } else {
                Tick::Wait
            },
    decreases n,
{
    let m = s.interval as int;
    if n == 0 {
        lemma_fundamental_div_mod_converse(s.elapsed as int, m, 0, s.elapsed as int);
    } else {
        let k = (n - 1) as nat;
        lemma_round_every_interval(s, k);
        assert(quiet(n).drop_last() =~= quiet(k));
        lemma_count_one_more(s.elapsed + k, s.interval);
        assert forall|i: int| 0 <= i < n implies #[trigger] s.action_at(quiet(n), i) == if s.due_after(
            i,
        ) {
            Tick::Round
        } else {
            Tick::Wait
        } by {
            assert(quiet(n).take(i) =~= quiet(i as nat));
            lemma_round_every_interval(s, i as nat);
            lemma_count_one_more(s.elapsed + i as nat, s.interval);
        }
    }
}

/// A scheduler that starts afresh and sees no stop signal asks for one round
/// in every interval: after `n` passes, for `n / interval` of them.
pub proof fn lemma_fresh_schedule_rounds(interval: nat, n: nat)
    requires
        0 < interval,
    ensures
        Schedule::fresh(interval).rounds(quiet(n)) == n / interval,
        !Schedule::fresh(interval).after(quiet(n)).stopped,
{
    lemma_round_every_interval(Schedule::fresh(interval), n);
}

/// A stopped scheduler stays as it is and asks for no round, whatever is
/// signalled afterwards.
pub proof fn lemma_stopped_is_final(s: Schedule, signals: Seq<bool>)
    requires
        s.stopped,
    ensures
        s.after(signals) == s,
        s.rounds(signals) == 0,
        forall|i: int|
            0 <= i < signals.len() ==> #[trigger] s.action_at(signals, i) == Tick::Finished,
    decreases signals.len(),
{
    if signals.len() > 0 {
        lemma_stopped_is_final(s, signals.drop_last());
        assert forall|i: int| 0 <= i < signals.len() implies #[trigger] s.action_at(signals, i)
            == Tick::Finished by {
            lemma_stopped_is_final(s, signals.take(i));
        }
    }
}

/// The stop signal is obeyed at the very pass that first sees it: that pass
/// asks for the shutdown, every later one finds the scheduler stopped, and
/// the only rounds of the run are those that were due before.
pub proof fn lemma_stop_within_one_tick(s: Schedule, signals: Seq<bool>, k: int)
    requires
        s.wf(),
        !s.stopped,
        0 <= k < signals.len(),
        signals[k],
        forall|j: int| 0 <= j < k ==> !signals[j],
    ensures
        s.action_at(signals, k) == Tick::Shutdown,
        s.after(signals).stopped,
        forall|i: int|
            k < i < signals.len() ==> #[trigger] s.action_at(signals, i) == Tick::Finished,
        s.rounds(signals) == (s.elapsed + k) / (s.interval as int),
{
    lemma_stopped_from(s, signals, k, signals.len() as int);
    assert(signals.take(signals.len() as int) =~= signals);
    assert forall|i: int| k < i < signals.len() implies #[trigger] s.action_at(signals, i)
        == Tick::Finished by {
        lemma_stopped_from(s, signals, k, i);
    }
}

/// After the pass that first sees the stop signal, every prefix of the run
/// ends stopped and holds no more rounds than were due before that pass.
proof fn lemma_stopped_from(s: Schedule, signals: Seq<bool>, k: int, i: int)
    requires
        s.wf(),
        !s.stopped,
        0 <= k < i <= signals.len(),
        signals[k],
        forall|j: int| 0 <= j < k ==> !signals[j],
    ensures
        s.action_at(signals, k) == Tick::Shutdown,
        s.after(signals.take(i)).stopped,
        s.rounds(signals.take(i)) == (s.elapsed + k) / (s.interval as int),
    decreases i,
{
    assert(signals.take(k) =~= quiet(k as nat));
    lemma_round_every_interval(s, k as nat);
    lemma_one_more_pass(s, signals, i - 1);
    if i - 1 > k {
        lemma_stopped_from(s, signals, k, i - 1);
    }
}

} // verus!
