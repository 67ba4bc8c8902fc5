//! The scheduling decisions of the spinner: which triggers are due on a
//! tick, how long the spinner yields, and what it does with a trigger that
//! is due.

use vstd::prelude::*;
use vstd::multiset::Multiset;

verus! {

broadcast use vstd::seq_lib::group_to_multiset_ensures;

/// When an installed trigger next fires.
pub struct TriggerTemporalState {
    pub trigger_id: String,
    /// The next tick, in milliseconds since the Unix epoch.
    pub next_tick: i64,
}

/// The temporal states of the installed triggers.
pub struct TemporalStates {
    states: Vec<TriggerTemporalState>,
}

/// Whether the states of a sequence come in non-decreasing tick order.
pub open spec fn ticks_sorted(s: Seq<TriggerTemporalState>) -> bool {
    forall|i: int, j: int| 0 <= i <= j < s.len() ==> s[i].next_tick <= s[j].next_tick
}

impl TemporalStates {
    /// The states held, in no particular order.
    pub closed spec fn states(&self) -> Multiset<TriggerTemporalState> {
        self.states@.to_multiset()
    }

    /// No state.
    pub fn new() -> (t: TemporalStates)
        ensures
            t.states() =~= Multiset::empty(),
    {
        TemporalStates { states: Vec::new() }
    }

    /// The number of states.
    pub fn len(&self) -> (n: usize)
        ensures
            n == self.states().len(),
    {
        self.states.len()
    }

    /// Adds a state.
    pub fn push(&mut self, state: TriggerTemporalState)
        ensures
            final(self).states() == old(self).states().insert(state),
    {
        self.states.push(state);
    }

    fn earliest_index(&self) -> (idx: usize)
        requires
            self.states@.len() > 0,
        ensures
            idx < self.states@.len(),
            forall|j: int| 0 <= j < self.states@.len() ==> self.states@[idx as int].next_tick
                <= self.states@[j].next_tick,
    {
        let mut idx: usize = 0;
        let n = self.states.len();
        for i in 1..n
            invariant
                n == self.states@.len(),
                idx < n,
                forall|j: int| 0 <= j < i ==> self.states@[idx as int].next_tick <= self.states@[j].next_tick,
        {
            if self.states[i].next_tick < self.states[idx].next_tick {
                idx = i;
            }
        }
        idx
    }

    /// Takes the triggers that are due at `now`, earliest first, at most
    /// `max_triggers_per_tick` of them; those left are kept for later. When
    /// fewer than the maximum were taken, nothing due is left behind.
    pub fn take_due(&mut self, now: i64, max_triggers_per_tick: u64) -> (due: Vec<TriggerTemporalState>)
        ensures
            due@.len() <= max_triggers_per_tick,
            forall|i: int| 0 <= i < due@.len() ==> due@[i].next_tick <= now,
            ticks_sorted(due@),
            old(self).states() == final(self).states().add(due@.to_multiset()),
            forall|s: TriggerTemporalState| #[trigger] final(self).states().count(s) > 0 && due@.len() > 0
                ==> due@.last().next_tick <= s.next_tick,
            due@.len() < max_triggers_per_tick ==> forall|s: TriggerTemporalState|
                #[trigger] final(self).states().count(s) > 0 ==> s.next_tick > now,
    {
        let mut due: Vec<TriggerTemporalState> = Vec::new();
        let mut count: u64 = 0;
        let mut done = false;
        while count < max_triggers_per_tick && !done
            invariant
                count == due@.len(),
                count <= max_triggers_per_tick,
                forall|i: int| 0 <= i < due@.len() ==> due@[i].next_tick <= now,
                ticks_sorted(due@),
                old(self).states() == self.states().add(due@.to_multiset()),
                forall|j: int| 0 <= j < self.states@.len() && due@.len() > 0 ==> due@.last().next_tick
                    <= #[trigger] self.states@[j].next_tick,
                done ==> forall|j: int| 0 <= j < self.states@.len() ==> #[trigger] self.states@[j].next_tick > now,
            decreases max_triggers_per_tick - count + (if done { 0int } else { 1int }),
        {
            if self.states.len() == 0 {
                done = true;
            } else {
                let idx = self.earliest_index();
                if self.states[idx].next_tick <= now {
                    let ghost before = self.states@;
                    let ghost due_before = due@;
                    let state = self.states.remove(idx);
                    assert(self.states@.to_multiset() == before.to_multiset().remove(state));
                    assert forall|j: int| 0 <= j < self.states@.len() implies state.next_tick
                        <= #[trigger] self.states@[j].next_tick by {
                        if j < idx {
                            assert(self.states@[j] == before[j]);
                        } else {
                            assert(self.states@[j] == before[j + 1]);
                        }
                    }
                    due.push(state);
                    assert(due@.to_multiset() == due_before.to_multiset().insert(state));
                    count = count + 1;
                } else {
                    done = true;
                }
            }
        }
        proof {
            assert forall|s: TriggerTemporalState| #[trigger] self.states().count(s) > 0 implies (due@.len() > 0
                ==> due@.last().next_tick <= s.next_tick) && (done ==> s.next_tick > now) by {
                assert(self.states@.contains(s));
                let j = choose|j: int| 0 <= j < self.states@.len() && self.states@[j] == s;
            }
        }
        due
    }
}

/// The states of a multiset that are due at `now`.
pub open spec fn due_at(states: Multiset<TriggerTemporalState>, now: int) -> Multiset<TriggerTemporalState> {
    states.filter(|s: TriggerTemporalState| s.next_tick <= now)
}

/// One tick of the spinner takes, of the states due at `now`, the
/// `max_triggers_per_tick` earliest ones (all of them when there are fewer),
/// and leaves every other state where it was: `before` is the spinner's
/// states before the tick, `due` what `TemporalStates::take_due` took and
/// `after` what it left.
pub proof fn lemma_tick_takes_earliest_due(
    before: Multiset<TriggerTemporalState>,
    after: Multiset<TriggerTemporalState>,
    due: Seq<TriggerTemporalState>,
    now: int,
    max_triggers_per_tick: nat,
)
    requires
        due.len() <= max_triggers_per_tick,
        forall|i: int| 0 <= i < due.len() ==> due[i].next_tick <= now,
        ticks_sorted(due),
        before == after.add(due.to_multiset()),
        forall|s: TriggerTemporalState| #[trigger] after.count(s) > 0 && due.len() > 0 ==> due.last().next_tick
            <= s.next_tick,
        due.len() < max_triggers_per_tick ==> forall|s: TriggerTemporalState| #[trigger] after.count(s) > 0
            ==> s.next_tick > now,
    ensures
        due.len() == (if due_at(before, now).len() <= max_triggers_per_tick {
            due_at(before, now).len()
        } else {
            max_triggers_per_tick
        }),
        forall|s: TriggerTemporalState| #[trigger] due.to_multiset().count(s) <= due_at(before, now).count(s),
        forall|s: TriggerTemporalState, i: int| #[trigger] after.count(s) > 0 && 0 <= i < due.len() ==> #[trigger] due[i].next_tick
            <= s.next_tick,
        forall|s: TriggerTemporalState| #[trigger] before.count(s) > 0 && s.next_tick > now ==> after.count(s)
            == before.count(s),
{
    broadcast use vstd::multiset::group_multiset_axioms;
    broadcast use vstd::multiset::lemma_multiset_empty_len;

    let pred = |s: TriggerTemporalState| s.next_tick <= now;
    let taken = due.to_multiset();
    assert forall|s: TriggerTemporalState| taken.count(s) > 0 implies s.next_tick <= now by {
        assert(due.contains(s));
        let i = choose|i: int| 0 <= i < due.len() && due[i] == s;
    }
    assert(taken.filter(pred) =~= taken);
    assert(due_at(before, now) =~= after.filter(pred).add(taken));
    assert(due_at(before, now).len() == after.filter(pred).len() + due.len());
    if due.len() < max_triggers_per_tick {
        assert(after.filter(pred) =~= Multiset::empty()) by {
            assert forall|s: TriggerTemporalState| after.filter(pred).count(s) == 0 by {
                if after.count(s) > 0 {
                    assert(s.next_tick > now);
                }
            }
        }
    }
    assert forall|s: TriggerTemporalState, i: int| #[trigger] after.count(s) > 0 && 0 <= i < due.len() implies #[trigger] due[i].next_tick
        <= s.next_tick by {
        assert(due[i].next_tick <= due[due.len() - 1].next_tick);
    }
    assert forall|s: TriggerTemporalState| #[trigger] before.count(s) > 0 && s.next_tick > now implies after.count(s)
        == before.count(s) by {
        assert(taken.count(s) == 0);
    }
}

/// How long the spinner sleeps after a tick: what is left of the maximum
/// yield time once the tick's work took `elapsed_ms`, zero if none.
pub fn yield_duration_ms(yield_max_ms: u64, elapsed_ms: u64) -> (d: u64)
    ensures
        d == (if elapsed_ms < yield_max_ms { yield_max_ms - elapsed_ms } else { 0 }),
{
    yield_max_ms.saturating_sub(elapsed_ms)
}

/// Whether a trigger's dispatch lags behind its schedule by more than ten
/// seconds, the point where the spinner warns.
pub fn lag_exceeded(now_ms: i64, scheduled_ms: i64) -> (r: bool)
    ensures
        r == (now_ms - scheduled_ms > 10_000),
{
    (now_ms as i128 - scheduled_ms as i128) > 10_000
}

/// Whether the tick hit the cap on dispatches per tick.
pub fn reached_tick_cap(dispatched: usize, max_triggers_per_tick: u64) -> (r: bool)
    ensures
        r == (dispatched == max_triggers_per_tick),
{
    dispatched as u128 == max_triggers_per_tick as u128
}

/// The state of an installed trigger as the spinner sees it.
#[derive(PartialEq, Eq, Structural)]
pub enum TriggerStatus {
    Scheduled,
    OnDemand,
    Expired,
    Cancelled,
    Paused,
}

/// What the spinner does with a due trigger.
#[derive(PartialEq, Eq, Structural)]
pub enum DispatchDecision {
    /// The trigger is gone from the active map: nothing to do.
    Ignore,
    /// The trigger is paused: the tick is skipped but counts as done.
    SkipPaused,
    /// A run is dispatched.
    Dispatch,
}

/// Decides what a due trigger leads to, given its status in the active map
/// (`None` when it was removed meanwhile).
pub fn dispatch_decision(status: Option<&TriggerStatus>) -> (d: DispatchDecision)
    ensures
        status is None ==> d == DispatchDecision::Ignore,
        status matches Some(s) && *s == TriggerStatus::Paused ==> d == DispatchDecision::SkipPaused,
        status matches Some(s) && *s != TriggerStatus::Paused ==> d == DispatchDecision::Dispatch,
{
    match status {
        None => DispatchDecision::Ignore,
        Some(s) => {
            if *s == TriggerStatus::Paused {
                DispatchDecision::SkipPaused
            } else {
                DispatchDecision::Dispatch
            }
        },
    }
}

/// A dispatch handed to the runtime, as the spinner tracks it: the trigger,
/// when it ran, and the runtime's handle on it.
pub struct InflightDispatch<H> {
    pub trigger_id: String,
    pub ran_at: i64,
    pub handle: H,
}

/// How a tracked dispatch stands at the start of a tick.
pub enum DispatchProgress {
    /// Not finished yet.
    Running,
    /// Finished without error.
    Succeeded,
    /// Finished with an error.
    Failed,
}

/// The tracked dispatches that are still running, in order.
pub open spec fn still_running<H>(inflight: Seq<InflightDispatch<H>>, progress: Seq<DispatchProgress>) -> Seq<
    InflightDispatch<H>,
>
    decreases inflight.len(),
{
    if inflight.len() == 0 {
        seq![]
    } else {
        let rest = still_running(inflight.drop_last(), progress.drop_last());
        if progress[inflight.len() - 1] is Running {
            rest.push(inflight.last())
        } else {
            rest
        }
    }
}

/// The trigger ids and run times of the tracked dispatches that succeeded,
/// in order.
pub open spec fn succeeded_runs<H>(inflight: Seq<InflightDispatch<H>>, progress: Seq<DispatchProgress>) -> Seq<
    (String, i64),
>
    decreases inflight.len(),
{
    if inflight.len() == 0 {
        seq![]
    } else {
        let rest = succeeded_runs(inflight.drop_last(), progress.drop_last());
        if progress[inflight.len() - 1] is Succeeded {
            rest.push((inflight.last().trigger_id, inflight.last().ran_at))
        } else {
            rest
        }
    }
}

/// Settles the tracked dispatches at the start of a tick: those still
/// running stay tracked, those that succeeded give the trigger and run time
/// to record as the trigger's last run, and those that failed are dropped.
pub fn settle_inflight<H>(inflight: Vec<InflightDispatch<H>>, progress: &Vec<DispatchProgress>) -> (r: (
    Vec<InflightDispatch<H>>,
    Vec<(String, i64)>,
))
    requires
        inflight@.len() == progress@.len(),
    ensures
        r.0@ == still_running(inflight@, progress@),
        r.1@ == succeeded_runs(inflight@, progress@),
{
    let ghost all = inflight@;
    let mut pending: Vec<InflightDispatch<H>> = Vec::new();
    let mut succeeded: Vec<(String, i64)> = Vec::new();
    let n = progress.len();
    let mut i: usize = 0;
    for d in it: inflight.into_iter()
        invariant
            it.seq() == all,
            all.len() == progress@.len(),
            n == progress@.len(),
            i == it.index(),
            pending@ == still_running(all.take(i as int), progress@.take(i as int)),
            succeeded@ == succeeded_runs(all.take(i as int), progress@.take(i as int)),
    {
        assert(all.take(i + 1).drop_last() == all.take(i as int));
        assert(progress@.take(i + 1).drop_last() == progress@.take(i as int));
        match progress[i] {
            DispatchProgress::Running => pending.push(d),
            DispatchProgress::Succeeded => succeeded.push((d.trigger_id, d.ran_at)),
            DispatchProgress::Failed => {},
        }
        i = i + 1;
    }
    assert(all.take(all.len() as int) == all);
    assert(progress@.take(all.len() as int) == progress@);
    (pending, succeeded)
}

/// The dispatched triggers that have a next tick, moved to it, in order.
pub open spec fn rescheduled(due: Seq<TriggerTemporalState>, advanced: Seq<Option<i64>>) -> Seq<
    TriggerTemporalState,
>
    decreases due.len(),
{
    if due.len() == 0 {
        seq![]
    } else {
        let rest = rescheduled(due.drop_last(), advanced.drop_last());
        match advanced[due.len() - 1] {
            Some(t) => rest.push(TriggerTemporalState { trigger_id: due.last().trigger_id, next_tick: t }),
            None => rest,
        }
    }
}

/// The ids of the dispatched triggers that have no next tick, in order.
pub open spec fn retired(due: Seq<TriggerTemporalState>, advanced: Seq<Option<i64>>) -> Seq<String>
    decreases due.len(),
{
    if due.len() == 0 {
        seq![]
    } else {
        let rest = retired(due.drop_last(), advanced.drop_last());
        match advanced[due.len() - 1] {
            Some(_) => rest,
            None => rest.push(due.last().trigger_id),
        }
    }
}

impl TemporalStates {
    /// Puts the triggers dispatched on this tick back, each at the next tick
    /// its schedule gave (`advanced`, in the same order); gives the ids of
    /// those whose schedule has no tick left, to be flushed to the store.
    pub fn requeue(&mut self, due: Vec<TriggerTemporalState>, advanced: &Vec<Option<i64>>) -> (flush: Vec<String>)
        requires
            due@.len() == advanced@.len(),
        ensures
            final(self).states() == old(self).states().add(rescheduled(due@, advanced@).to_multiset()),
            flush@ == retired(due@, advanced@),
    {
        let ghost all = due@;
        let ghost start = self.states();
        let ghost mut pushed: Seq<TriggerTemporalState> = seq![];
        let mut flush: Vec<String> = Vec::new();
        let n = advanced.len();
        let mut i: usize = 0;
        for state in it: due.into_iter()
            invariant
                it.seq() == all,
                all.len() == advanced@.len(),
                n == advanced@.len(),
                i == it.index(),
                pushed == rescheduled(all.take(i as int), advanced@.take(i as int)),
                self.states() == start.add(pushed.to_multiset()),
                flush@ == retired(all.take(i as int), advanced@.take(i as int)),
        {
            assert(all.take(i + 1).drop_last() == all.take(i as int));
            assert(advanced@.take(i + 1).drop_last() == advanced@.take(i as int));
            match advanced[i] {
                Some(t) => {
                    let moved = TriggerTemporalState { trigger_id: state.trigger_id, next_tick: t };
                    proof {
                        pushed = pushed.push(moved);
                    }
                    self.push(moved);
                },
                None => flush.push(state.trigger_id),
            }
            i = i + 1;
        }
        assert(all.take(all.len() as int) == all);
        assert(advanced@.take(all.len() as int) == advanced@);
        flush
    }
}

} // verus!
