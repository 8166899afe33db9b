//! Wall-clock accumulation for hosts that render independently of the
//! fixed-step simulation. Integer microseconds avoid the cumulative rounding
//! drift of 16,666/16,667-microsecond ticks; long stalls discard their excess
//! debt, and loading a world resets the clock.
use vstd::prelude::*;

verus! {

/// Simulation ticks per second.
pub const TICK_HZ: u64 = 60;

/// Most ticks one frame may run, whatever time has passed.
pub const MAX_CATCH_UP_TICKS: u32 = 4;

/// Microseconds in a second, the unit of the phase accumulator.
pub const MICROS: u64 = 1_000_000;

/// The accumulator after `now`: the previous phase plus the elapsed time
/// scaled by the tick rate, both saturating at `u64::MAX`. It counts
/// millionths of a tick.
pub open spec fn accumulated(previous: u64, phase: u64, now: u64) -> nat {
    let elapsed: nat = if now >= previous {
        (now - previous) as nat
    } else {
        0
    };
    let scaled: nat = if elapsed * 60 > u64::MAX {
        u64::MAX as nat
    } else {
        elapsed * 60
    };
    if phase + scaled > u64::MAX {
        u64::MAX as nat
    } else {
        (phase + scaled) as nat
    }
}

/// Ticks due after `now`, capped at `MAX_CATCH_UP_TICKS`.
pub open spec fn ticks_due(previous: u64, phase: u64, now: u64) -> nat {
    let due = accumulated(previous, phase, now) / 1_000_000;
    if due > 4 {
        4
    } else {
        due
    }
}

/// Phase left after `now`: the fraction of a tick not yet run.
pub open spec fn phase_after(previous: u64, phase: u64, now: u64) -> nat {
    accumulated(previous, phase, now) % 1_000_000
}

pub struct FixedClock {
    previous_us: u64,
    phase: u64,
}

impl FixedClock {
    #[verifier::type_invariant]
    spec fn phase_below_one_tick(self) -> bool {
        self.phase < 1_000_000
    }

    /// Timestamp of the last `new`, `reset` or `advance`.
    pub closed spec fn previous(self) -> u64 {
        self.previous_us
    }

    /// Millionths of a tick accumulated but not yet run.
    pub closed spec fn phase(self) -> u64 {
        self.phase
    }

    pub fn new(now_us: u64) -> (r: Self)
        ensures
            r.previous() == now_us,
            r.phase() == 0,
    {
        Self { previous_us: now_us, phase: 0 }
    }

    /// Forgets any accumulated time; the next interval starts at `now_us`.
    pub fn reset(&mut self, now_us: u64)
        ensures
            final(self).previous() == now_us,
            final(self).phase() == 0,
    {
        *self = Self { previous_us: now_us, phase: 0 };
    }

    /// Ticks to run for the time since the previous call, at most
    /// `MAX_CATCH_UP_TICKS`; the remainder of a tick carries over and any
    /// excess beyond the cap is dropped.
    pub fn advance(&mut self, now_us: u64) -> (r: u32)
        ensures
            r == ticks_due(old(self).previous(), old(self).phase(), now_us),
            r <= MAX_CATCH_UP_TICKS,
            final(self).previous() == now_us,
            final(self).phase() == phase_after(old(self).previous(), old(self).phase(), now_us),
            final(self).phase() < MICROS,
    {
        let elapsed = now_us.saturating_sub(self.previous_us);
        let scaled = match elapsed.checked_mul(TICK_HZ) {
            Some(v) => v,
            None => u64::MAX,
        };
        let total = self.phase.saturating_add(scaled);
        let due = total / MICROS;
        *self = Self { previous_us: now_us, phase: total % MICROS };
        if due > MAX_CATCH_UP_TICKS as u64 {
            MAX_CATCH_UP_TICKS
        } else {
            due as u32
        }
    }

    /// Millionths of a tick accumulated but not yet run; the renderer's
    /// interpolation weight is this divided by one million.
    pub fn phase_us(&self) -> (r: u64)
        ensures
            r == self.phase(),
            r < MICROS,
    {
        proof {
            use_type_invariant(self);
        }
        self.phase
    }
}

/// The clock after a run of `advance` calls at `times`, from `previous` and
/// `phase`: total ticks returned, last timestamp and remaining phase.
pub open spec fn run(previous: u64, phase: u64, times: Seq<u64>) -> (nat, u64, nat)
    decreases times.len(),
{
    if times.len() == 0 {
        (0, previous, phase as nat)
    } else {
        let (ticks, last, rest) = run(previous, phase, times.drop_last());
        let now = times.last();
        (
            ticks + ticks_due(last, rest as u64, now),
            now,
            phase_after(last, rest as u64, now),
        )
    }
}

/// Frame pacing never loses or gains simulation time: for timestamps that
/// never go backwards and are at most 66,666 us apart (so no frame reaches
/// the catch-up cap), every microsecond shows up either as run ticks or as
/// the carried phase, whatever the spacing of the frames.
pub proof fn lemma_no_drift(previous: u64, phase: u64, times: Seq<u64>)
    requires
        phase < 1_000_000,
        forall|i: int|
            0 <= i < times.len() ==> #[trigger] times[i] >= (if i == 0 {
                previous
            } else {
                times[i - 1]
            }) && times[i] - (if i == 0 {
                previous
            } else {
                times[i - 1]
            }) <= 66_666,
    ensures
        ({
            let (ticks, last, rest) = run(previous, phase, times);
            &&& last == (if times.len() == 0 {
                previous
            } else {
                times.last()
            })
            &&& rest < 1_000_000
            &&& ticks * 1_000_000 + rest == phase + (last - previous) * 60
        }),
    decreases times.len(),
{
    if times.len() > 0 {
        let init = times.drop_last();
        assert forall|i: int| 0 <= i < init.len() implies #[trigger] init[i] >= (if i == 0 {
            previous
        } else {
            init[i - 1]
        }) && init[i] - (if i == 0 {
            previous
        } else {
            init[i - 1]
        }) <= 66_666 by {
            assert(init[i] == times[i]);
            if i > 0 {
                assert(init[i - 1] == times[i - 1]);
            }
        }
        lemma_no_drift(previous, phase, init);
        let (ticks, last, rest) = run(previous, phase, init);
        let now = times.last();
        let k = times.len() - 1;
        assert(times[k] >= (if k == 0 {
            previous
        } else {
            times[k - 1]
        }));
        if k > 0 {
            assert(last == times[k - 1]);
        }
        assert(now >= last && now - last <= 66_666);
        let acc = accumulated(last, rest as u64, now);
        assert(acc == rest + (now - last) * 60);
        assert(acc < 5_000_000);
        vstd::arithmetic::div_mod::lemma_fundamental_div_mod(acc as int, 1_000_000);
        assert(ticks_due(last, rest as u64, now) == acc / 1_000_000);
    }
}

/// Timestamps that never go backwards, starting from `previous`.
pub open spec fn monotone_from(previous: u64, times: Seq<u64>) -> bool {
    forall|i: int|
        0 <= i < times.len() ==> #[trigger] times[i] >= (if i == 0 {
            previous
        } else {
            times[i - 1]
        })
}

/// Every call of the run at `times` returned fewer than
/// `MAX_CATCH_UP_TICKS` ticks.
pub open spec fn below_cap(previous: u64, phase: u64, times: Seq<u64>) -> bool {
    forall|k: int|
        0 <= k < times.len() ==> {
            let (ticks, last, rest) = #[trigger] run(previous, phase, times.take(k));
            ticks_due(last, rest as u64, times[k]) < 4
        }
}

/// No drift, whatever the spacing of the frames: while no call of a run
/// reaches the catch-up cap, the ticks returned and the carried phase
/// account for every microsecond; from a fresh clock the ticks are exactly
/// the elapsed microseconds times 60, divided by one million.
pub proof fn lemma_no_drift_below_cap(previous: u64, phase: u64, times: Seq<u64>)
    requires
        phase < 1_000_000,
        monotone_from(previous, times),
        below_cap(previous, phase, times),
    ensures
        ({
            let (ticks, last, rest) = run(previous, phase, times);
            &&& last == (if times.len() == 0 {
                previous
            } else {
                times.last()
            })
            &&& rest < 1_000_000
            &&& ticks * 1_000_000 + rest == phase + (last - previous) * 60
            &&& phase == 0 ==> ticks == (last - previous) * 60 / 1_000_000
        }),
    decreases times.len(),
{
    if times.len() > 0 {
        let init = times.drop_last();
        let k = times.len() - 1;
        assert forall|i: int| 0 <= i < init.len() implies #[trigger] init[i] >= (if i == 0 {
            previous
        } else {
            init[i - 1]
        }) by {
            assert(init[i] == times[i]);
            assert(times[i] >= (if i == 0 {
                previous
            } else {
                times[i - 1]
            }));
        }
        assert forall|j: int| 0 <= j < init.len() implies {
            let (ticks, last, rest) = #[trigger] run(previous, phase, init.take(j));
            ticks_due(last, rest as u64, init[j]) < 4
        } by {
            assert(init.take(j) =~= times.take(j));
            assert(init[j] == times[j]);
            let (ticks, last, rest) = run(previous, phase, times.take(j));
            assert(ticks_due(last, rest as u64, times[j]) < 4);
        }
        lemma_no_drift_below_cap(previous, phase, init);
        let (ticks, last, rest) = run(previous, phase, init);
        let now = times.last();
        assert(times.take(k) =~= init);
        let (t2, l2, r2) = run(previous, phase, times.take(k));
        assert(ticks_due(l2, r2 as u64, times[k]) < 4);
        assert(times[k] >= (if k == 0 {
            previous
        } else {
            times[k - 1]
        }));
        if k > 0 {
            assert(last == times[k - 1]);
        }
        assert(now >= last);
        let acc = accumulated(last, rest as u64, now);
        assert(acc < 4_000_000);
        assert(acc == rest + (now - last) * 60);
        vstd::arithmetic::div_mod::lemma_fundamental_div_mod(acc as int, 1_000_000);
        let (t3, l3, r3) = run(previous, phase, times);
        assert(t3 * 1_000_000 + r3 == phase + (l3 - previous) * 60);
        if phase == 0 {
            vstd::arithmetic::div_mod::lemma_fundamental_div_mod_converse(
                (phase + (l3 - previous) * 60) as int,
                1_000_000,
                t3 as int,
                r3 as int,
            );
        }
    } else {
        if phase == 0 {
            assert((previous - previous) * 60 / 1_000_000 == 0);
        }
    }
}

} // verus!
