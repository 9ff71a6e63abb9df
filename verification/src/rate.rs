//! The rate law of the click pacer.
//!
//! A run of the driver loop is modelled as a sequence of ticks, each
//! with its monotonic time and a flag saying whether a click could be
//! emitted then (the loop live, activation on, and the emission
//! succeeding — a failed emission leaves no trace, exactly like an
//! inactive tick). The pacer fires when the flag is up and the last
//! click lies at least one interval back, which is word for word the
//! condition of [`crate::scheduler::spec_wants_click`]; firing records
//! the tick's time, as [`crate::scheduler::Scheduler::record_click`]
//! does.
//!
//! Two laws are proved of every run. However the ticks fall, a run
//! whose times stay within a window of length `d` fires at most
//! `d / interval + 1` times: clicks can never outpace the schedule.
//! And a run that ticks densely — every `quantum` at the most — with
//! the flag up throughout fires often enough that only the one quantum
//! of jitter per click is lost against the ideal rate.

use vstd::prelude::*;

verus! {

/// One tick of the model: the monotonic time, and whether a click
/// could be emitted then.
pub ghost struct RateTick {
    pub time_ns: u64,
    pub can_click: bool,
}

/// The pacer's state while a run is replayed: the time of the last
/// click, if any, and how many clicks have fired.
pub ghost struct PacerState {
    pub last_click_ns: Option<u64>,
    pub clicks: nat,
}

/// The pacer before any tick: no click on record.
pub open spec fn pacer_init() -> PacerState {
    PacerState { last_click_ns: Option::None, clicks: 0 }
}

/// Whether the pacer fires on one tick: same condition as
/// [`crate::scheduler::spec_wants_click`].
pub open spec fn pacer_fires(interval_ns: u64, st: PacerState, tick: RateTick) -> bool {
    &&& tick.can_click
    &&& match st.last_click_ns {
        Option::None => true,
        Option::Some(l) => l + interval_ns <= tick.time_ns,
    }
}

/// The pacer after one tick.
pub open spec fn pacer_step(interval_ns: u64, st: PacerState, tick: RateTick) -> PacerState {
    if pacer_fires(interval_ns, st, tick) {
        PacerState { last_click_ns: Option::Some(tick.time_ns), clicks: st.clicks + 1 }
    } else {
        st
    }
}

/// The pacer after a whole run of ticks.
pub open spec fn pacer_run(interval_ns: u64, ticks: Seq<RateTick>) -> PacerState
    decreases ticks.len(),
{
    if ticks.len() == 0 {
        pacer_init()
    } else {
        pacer_step(interval_ns, pacer_run(interval_ns, ticks.drop_last()), ticks.last())
    }
}

/// Internal invariant of a replayed run: once a click has fired, the
/// recorded time is one of the run's times, and the click count is paid
/// for — the `n`-th click cannot have fired before `(n-1) * interval`.
proof fn lemma_pacer_run_invariant(interval_ns: u64, ticks: Seq<RateTick>)
    requires
        1 <= interval_ns,
    ensures
        ({
            let st = pacer_run(interval_ns, ticks);
            &&& (st.clicks == 0 <==> st.last_click_ns is None)
            &&& st.last_click_ns matches Option::Some(l) ==> {
                &&& exists|i: int| 0 <= i < ticks.len() && ticks[i].time_ns == l
                &&& (st.clicks - 1) * interval_ns <= l
            }
        }),
    decreases ticks.len(),
{
    if ticks.len() > 0 {
        lemma_pacer_run_invariant(interval_ns, ticks.drop_last());
        let prev = pacer_run(interval_ns, ticks.drop_last());
        let st = pacer_run(interval_ns, ticks);
        let t = ticks.last();
        if pacer_fires(interval_ns, prev, t) {
            assert(ticks[ticks.len() - 1].time_ns == t.time_ns);
            match prev.last_click_ns {
                Option::None => {
                    assert((st.clicks - 1) * interval_ns == 0) by (nonlinear_arith)
                        requires
                            st.clicks == 1,
                    ;
                },
                Option::Some(l) => {
                    assert((prev.clicks - 1) * interval_ns <= l);
                    assert(st.clicks - 1 == prev.clicks);
                    assert((st.clicks - 1) * interval_ns == (prev.clicks - 1) * interval_ns
                        + interval_ns) by (nonlinear_arith)
                        requires
                            st.clicks == prev.clicks + 1,
                            prev.clicks >= 1,
                    ;
                    assert((st.clicks - 1) * interval_ns <= l + interval_ns <= t.time_ns);
                },
            }
        } else {
            if prev.last_click_ns is Some {
                let l = prev.last_click_ns->Some_0;
                let i = choose|i: int| 0 <= i < ticks.drop_last().len()
                    && ticks.drop_last()[i].time_ns == l;
                assert(ticks[i].time_ns == l);
            }
        }
    }
}

/// Rate law, upper half: if every tick of a run falls at or before
/// time `d`, the run fires at most `d / interval + 1` clicks — never
/// more, however dense the ticks and however long activation lasts.
pub proof fn lemma_click_count_never_more(interval_ns: u64, ticks: Seq<RateTick>, d: u64)
    requires
        1 <= interval_ns,
        forall|i: int| 0 <= i < ticks.len() ==> ticks[i].time_ns <= d,
    ensures
        pacer_run(interval_ns, ticks).clicks <= d as int / interval_ns as int + 1,
{
    lemma_pacer_run_invariant(interval_ns, ticks);
    let st = pacer_run(interval_ns, ticks);
    match st.last_click_ns {
        Option::None => {
        },
        Option::Some(l) => {
            assert(l <= d);
            assert((st.clicks - 1) * interval_ns <= d);
            assert(st.clicks - 1 <= d as int / interval_ns as int) by (nonlinear_arith)
                requires
                    1 <= interval_ns,
                    (st.clicks - 1) * interval_ns <= d,
                    st.clicks >= 1,
            ;
        },
    }
}

/// Internal invariant of a dense, fully able run: after each tick the
/// last click is recent (less than one interval old), and the click
/// count keeps pace — `clicks * (interval + quantum)` stays ahead of
/// the clock.
proof fn lemma_pacer_dense_invariant(interval_ns: u64, quantum_ns: u64, ticks: Seq<RateTick>)
    requires
        1 <= interval_ns,
        1 <= quantum_ns,
        ticks.len() >= 1,
        ticks[0].time_ns == 0,
        forall|i: int| 0 <= i < ticks.len() ==> ticks[i].can_click,
        forall|i: int| 0 <= i < ticks.len() - 1 ==> #[trigger] ticks[i + 1].time_ns
            <= ticks[i].time_ns + quantum_ns,
    ensures
        ({
            let st = pacer_run(interval_ns, ticks);
            &&& st.last_click_ns matches Option::Some(l) && {
                &&& l + interval_ns > ticks.last().time_ns
                &&& st.clicks * (interval_ns + quantum_ns) >= l + quantum_ns
            }
        }),
    decreases ticks.len(),
{
    let st = pacer_run(interval_ns, ticks);
    let t = ticks.last();
    if ticks.len() == 1 {
        assert(pacer_fires(interval_ns, pacer_init(), t));
        assert(st.clicks == 1);
        assert(1 * (interval_ns + quantum_ns) >= quantum_ns);
    } else {
        let shorter = ticks.drop_last();
        lemma_pacer_dense_invariant(interval_ns, quantum_ns, shorter);
        let prev = pacer_run(interval_ns, shorter);
        let pl = prev.last_click_ns->Some_0;
        let pt = shorter.last();
        assert(pt == ticks[ticks.len() - 2]);
        assert(ticks[(ticks.len() - 2) + 1].time_ns <= ticks[ticks.len() - 2].time_ns
            + quantum_ns);
        assert(t.time_ns <= pt.time_ns + quantum_ns);
        if pacer_fires(interval_ns, prev, t) {
            // The new click is recorded at this tick's time, which the
            // previous recency bound keeps within one gap of pace.
            assert(st.clicks == prev.clicks + 1);
            assert(pl + interval_ns > pt.time_ns);
            assert(t.time_ns < pl + interval_ns + quantum_ns);
            assert(prev.clicks * (interval_ns + quantum_ns) >= pl + quantum_ns);
            assert(st.clicks * (interval_ns + quantum_ns) == prev.clicks * (interval_ns
                + quantum_ns) + (interval_ns + quantum_ns)) by (nonlinear_arith)
                requires
                    st.clicks == prev.clicks + 1,
            ;
            assert(st.clicks * (interval_ns + quantum_ns) >= pl + quantum_ns + interval_ns
                + quantum_ns > t.time_ns + quantum_ns);
        } else {
            // No click: the old one is still less than an interval old.
            assert(st == prev);
            assert(pl + interval_ns > t.time_ns);
        }
    }
}

/// Rate law, lower half: a run that starts ticking at time zero, ticks
/// at least every `quantum`, reaches past time `d`, and can click at
/// every tick (active throughout, no emission failures) fires more
/// than `(d - interval + quantum) / (interval + quantum)` clicks. With
/// the quantum small against the interval this is the ideal
/// `d / interval` short of at most the one-quantum-per-click jitter.
pub proof fn lemma_click_count_keeps_pace(
    interval_ns: u64,
    quantum_ns: u64,
    ticks: Seq<RateTick>,
    d: u64,
)
    requires
        1 <= interval_ns,
        1 <= quantum_ns,
        ticks.len() >= 1,
        ticks[0].time_ns == 0,
        ticks.last().time_ns >= d,
        forall|i: int| 0 <= i < ticks.len() ==> ticks[i].can_click,
        forall|i: int| 0 <= i < ticks.len() - 1 ==> #[trigger] ticks[i + 1].time_ns
            <= ticks[i].time_ns + quantum_ns,
    ensures
        pacer_run(interval_ns, ticks).clicks * (interval_ns + quantum_ns) + interval_ns
            > d as int,
{
    lemma_pacer_dense_invariant(interval_ns, quantum_ns, ticks);
    let st = pacer_run(interval_ns, ticks);
    let l = st.last_click_ns->Some_0;
    assert(l + interval_ns > d);
    assert(st.clicks * (interval_ns + quantum_ns) >= l + quantum_ns);
}

} // verus!
