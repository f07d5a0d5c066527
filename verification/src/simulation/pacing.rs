//! Host time to ticks, pause and input epochs.
use vstd::arithmetic::div_mod::{
    lemma_fundamental_div_mod, lemma_fundamental_div_mod_converse, lemma_mod_bound,
};
use vstd::prelude::*;

verus! {

/// Catch-up cap so a stalled host does not spiral the world clock.
pub const MAX_ADVANCE_NS: u64 = 250_000_000;

/// World time one manual step covers while paused.
pub const STEP_NS: u64 = 16_000_000;

/// Ticks an operator may step at once.
pub const MAX_STEP_TICKS: u64 = 60_000;

/// Ticks in one manual step while paused: the first tick boundary at or after
/// [`STEP_NS`], so a step is never shorter than 16 ms.
pub fn step_ticks(tick_ns: u64) -> (r: u64)
    requires
        tick_ns > 0,
    ensures
        r >= 1,
        r * tick_ns >= STEP_NS,
        (r - 1) * tick_ns < STEP_NS,
        r * tick_ns >= 16_000_000,
        (r - 1) * tick_ns < 16_000_000,
{
    let whole: u64 = STEP_NS / tick_ns;
    let rest: u64 = STEP_NS % tick_ns;
    proof {
        lemma_fundamental_div_mod(STEP_NS as int, tick_ns as int);
        lemma_mod_bound(STEP_NS as int, tick_ns as int);
        assert(whole * tick_ns == tick_ns * whole) by (nonlinear_arith);
        assert((whole + 1) * tick_ns == whole * tick_ns + tick_ns) by (nonlinear_arith);
        assert((whole - 1) * tick_ns == whole * tick_ns - tick_ns) by (nonlinear_arith);
        assert(whole == 0 ==> whole * tick_ns == 0) by (nonlinear_arith);
    }
    if rest > 0 {
        whole + 1
    } else {
        whole
    }
}

/// Whether the host is paused, and the host time it has not stepped yet.
#[derive(Clone, Copy, Debug, PartialEq, Eq, Structural)]
pub struct Pacing {
    /// Length of a tick.
    pub tick_ns: u64,
    /// The host is paused.
    pub paused: bool,
    /// Counter of pause transitions. Inputs and shots stamped with another
    /// epoch are refused.
    pub input_epoch: u64,
    /// Host time not yet turned into a whole tick.
    pub carry_ns: u64,
}

impl Pacing {
    /// Less than a tick is carried.
    pub open spec fn wf(self) -> bool {
        self.tick_ns > 0 && self.carry_ns < self.tick_ns
    }

    /// No host time seen yet.
    pub fn new(tick_ns: u64, paused: bool) -> (r: Pacing)
        requires
            tick_ns > 0,
        ensures
            r == (Pacing { tick_ns, paused, input_epoch: 0, carry_ns: 0 }),
            r.wf(),
    {
        Pacing { tick_ns, paused, input_epoch: 0, carry_ns: 0 }
    }

    /// Host time that passes: at most [`MAX_ADVANCE_NS`] at once.
    pub open spec fn passed(delta_ns: u64) -> u64 {
        if delta_ns < MAX_ADVANCE_NS {
            delta_ns
        } else {
            MAX_ADVANCE_NS
        }
    }

    /// Whole ticks in what is carried and what passes.
    pub open spec fn ticks(self, delta_ns: u64) -> int {
        (self.carry_ns + Pacing::passed(delta_ns)) / self.tick_ns as int
    }

    /// The pacing once host time has passed: what is not stepped is carried.
    pub open spec fn advanced(self, delta_ns: u64) -> Pacing {
        Pacing {
            carry_ns: ((self.carry_ns + Pacing::passed(delta_ns)) % self.tick_ns as int) as u64,
            ..self
        }
    }

    /// Turn host time into ticks, capped at [`MAX_ADVANCE_NS`]; nothing passes
    /// while paused. No host time is lost but for the cap: what is not stepped
    /// is carried.
    pub fn advance(&mut self, delta_ns: u64) -> (r: u64)
        requires
            old(self).wf(),
            old(self).carry_ns + MAX_ADVANCE_NS <= u64::MAX,
        ensures
            r == (if old(self).paused {
                0
            } else {
                old(self).ticks(delta_ns)
            }),
            *final(self) == (if old(self).paused {
                *old(self)
            } else {
                old(self).advanced(delta_ns)
            }),
            final(self).wf(),
    {
        if self.paused {
            return 0;
        }
        let passed: u64 = if delta_ns < MAX_ADVANCE_NS {
            delta_ns
        } else {
            MAX_ADVANCE_NS
        };
        let total: u64 = self.carry_ns + passed;
        let ticks: u64 = total / self.tick_ns;
        proof {
            lemma_mod_bound(total as int, self.tick_ns as int);
        }
        self.carry_ns = total % self.tick_ns;
        ticks
    }

    /// Host time that passes in all, each piece capped on its own.
    pub open spec fn passed_in_all(deltas_ns: Seq<u64>) -> int
        decreases deltas_ns.len(),
    {
        if deltas_ns.len() == 0 {
            0
        } else {
            Pacing::passed_in_all(deltas_ns.drop_last()) + Pacing::passed(deltas_ns.last())
        }
    }

    /// The pacing once host time has passed piece by piece.
    pub open spec fn advanced_by(self, deltas_ns: Seq<u64>) -> Pacing
        decreases deltas_ns.len(),
    {
        if deltas_ns.len() == 0 || self.paused {
            self
        } else {
            self.advanced_by(deltas_ns.drop_last()).advanced(deltas_ns.last())
        }
    }

    /// Whole ticks in host time that passes piece by piece.
    pub open spec fn ticks_by(self, deltas_ns: Seq<u64>) -> int
        decreases deltas_ns.len(),
    {
        if deltas_ns.len() == 0 || self.paused {
            0
        } else {
            self.ticks_by(deltas_ns.drop_last()) + self.advanced_by(deltas_ns.drop_last()).ticks(
                deltas_ns.last(),
            )
        }
    }

    /// However many pieces host time comes in, each capped on its own, the ticks
    /// in all are the whole ticks in what was carried and what passed, and the
    /// rest is carried: no host time below the cap is lost between two pieces.
    /// While paused no piece steps or changes anything.
    pub proof fn host_time_adds_up(self, deltas_ns: Seq<u64>)
        requires
            self.wf(),
        ensures
            self.paused ==> self.ticks_by(deltas_ns) == 0 && self.advanced_by(deltas_ns) == self,
            !self.paused ==> {
                let total = self.carry_ns + Pacing::passed_in_all(deltas_ns);
                &&& self.ticks_by(deltas_ns) == total / self.tick_ns as int
                &&& self.advanced_by(deltas_ns) == (Pacing {
                    carry_ns: (total % self.tick_ns as int) as u64,
                    ..self
                })
                &&& self.advanced_by(deltas_ns).wf()
            },
        decreases deltas_ns.len(),
    {
        let p = self.tick_ns as int;
        if !self.paused {
            if deltas_ns.len() == 0 {
                lemma_fundamental_div_mod_converse(self.carry_ns as int, p, 0, self.carry_ns as int);
            } else {
                let head = deltas_ns.drop_last();
                self.host_time_adds_up(head);
                let a = self.carry_ns + Pacing::passed_in_all(head);
                let d = Pacing::passed(deltas_ns.last()) as int;
                let c = a + d;
                lemma_fundamental_div_mod(a, p);
                lemma_mod_bound(a, p);
                let b = a % p + d;
                lemma_fundamental_div_mod(b, p);
                lemma_mod_bound(b, p);
                let q = a / p + b / p;
                assert(p * (a / p) + p * (b / p) == p * q) by (nonlinear_arith)
                    requires
                        q == a / p + b / p,
                ;
                assert(q * p == p * q) by (nonlinear_arith);
                lemma_fundamental_div_mod_converse(c, p, q, b % p);
            }
        }
    }

    /// Set the pause flag. A change starts a new epoch and discards un-ticked
    /// host time. Returns whether it changed.
    pub fn set_paused(&mut self, paused: bool) -> (r: bool)
        requires
            old(self).wf(),
            old(self).paused != paused ==> old(self).input_epoch < u64::MAX,
        ensures
            r == (old(self).paused != paused),
            *final(self) == (if r {
                Pacing {
                    paused,
                    input_epoch: (old(self).input_epoch + 1) as u64,
                    carry_ns: 0,
                    ..*old(self)
                }
            } else {
                *old(self)
            }),
            final(self).wf(),
    {
        if self.paused == paused {
            return false;
        }
        self.input_epoch = self.input_epoch + 1;
        self.carry_ns = 0;
        self.paused = paused;
        true
    }

    /// Whether an operator may step so many ticks.
    pub fn check_step(ticks: u64) -> (r: Result<(), &'static str>)
        ensures
            r == (if ticks == 0 || ticks > MAX_STEP_TICKS {
                Err("step between 1 and 60000 ticks")
            } else {
                Ok(())
            }),
            r is Ok <==> 1 <= ticks <= 60_000,
    {
        if ticks == 0 || ticks > MAX_STEP_TICKS {
            Err("step between 1 and 60000 ticks")
        } else {
            Ok(())
        }
    }
}

/// Host time counts up to a quarter of a second a call, and no more than has
/// passed.
pub proof fn a_call_passes_a_quarter_second_at_most(delta_ns: u64)
    ensures
        delta_ns <= 250_000_000 ==> Pacing::passed(delta_ns) == delta_ns,
        delta_ns >= 250_000_000 ==> Pacing::passed(delta_ns) == 250_000_000,
{
}

/// No host time is lost or made up: the ticks a call steps and what is carried
/// on are together what was carried before and what has passed, and what is
/// carried is less than a tick.
pub proof fn no_host_time_is_lost(pacing: Pacing, delta_ns: u64)
    requires
        pacing.wf(),
        delta_ns <= 250_000_000,
    ensures
        pacing.ticks(delta_ns) * pacing.tick_ns + pacing.advanced(delta_ns).carry_ns
            == pacing.carry_ns + delta_ns,
        0 <= pacing.advanced(delta_ns).carry_ns < pacing.tick_ns,
        pacing.advanced(delta_ns).tick_ns == pacing.tick_ns,
        pacing.advanced(delta_ns).paused == pacing.paused,
        pacing.advanced(delta_ns).input_epoch == pacing.input_epoch,
{
    let total = pacing.carry_ns + delta_ns;
    vstd::arithmetic::div_mod::lemma_fundamental_div_mod(total, pacing.tick_ns as int);
    assert(0 <= total % (pacing.tick_ns as int) < pacing.tick_ns) by (nonlinear_arith)
        requires
            pacing.tick_ns > 0,
    ;
    assert(pacing.ticks(delta_ns) * pacing.tick_ns == pacing.tick_ns * (total
        / pacing.tick_ns as int)) by (nonlinear_arith)
        requires
            pacing.ticks(delta_ns) == total / pacing.tick_ns as int,
    ;
}

} // verus!
