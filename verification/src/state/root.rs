//! The realm-wide root: configuration, counters and the reset schedule.

use vstd::prelude::*;
use vstd::arithmetic::div_mod::{lemma_fundamental_div_mod, lemma_mod_bound, lemma_div_pos_is_pos};
use crate::clock::Clock;
use crate::pubkey::Pubkey;

verus! {

/// The schedule by which temporary voter weight is forgotten.
#[derive(Clone, Copy, Debug, PartialEq, Eq, Structural)]
pub struct VoterWeightReset {
    /// The time of the next reset.
    pub next_reset_time: i64,
    /// The distance in seconds between two resets; zero for a reset
    /// that happens once.
    pub step: u64,
}

/// The bump seeds of the addresses derived for a root.
#[derive(Clone, Copy, Debug, PartialEq, Eq, Structural)]
pub struct RootBumps {
    pub root: u8,
    pub max_voter_weight: u8,
    pub lock_authority: u8,
}

/// The singleton of a realm and governing token mint.
#[derive(Clone, Copy, Debug, PartialEq, Eq)]
pub struct Root {
    pub governance_program: Pubkey,
    pub realm: Pubkey,
    pub governing_token_mint: Pubkey,
    pub voting_weight_plugin: Pubkey,
    pub max_proposal_lifetime: u64,
    pub voter_weight_reset: Option<VoterWeightReset>,
    pub clan_count: u64,
    pub member_count: u64,
    pub bumps: RootBumps,
    pub paused: bool,
}

/// The first time of the form `start + k * step`, with `k >= 1`, that
/// lies strictly after `now`. Meant for `step > 0` and `now >= start`.
pub open spec fn first_boundary_after(start: int, step: int, now: int) -> int {
    start + ((now - start) / step + 1) * step
}

/// `first_boundary_after` is a boundary, lies after `now`, and no
/// boundary lies between `now` and it.
pub proof fn lemma_first_boundary_after(start: int, step: int, now: int)
    requires
        step > 0,
        now >= start,
    ensures
        now < first_boundary_after(start, step, now) <= now + step,
        (first_boundary_after(start, step, now) - start) % step == 0,
        first_boundary_after(start, step, now) > start,
        forall|k: int| start + k * step > now ==> #[trigger] (k * step) + start
            >= first_boundary_after(start, step, now),
{
    let d = now - start;
    let q = d / step;
    lemma_fundamental_div_mod(d, step);
    lemma_mod_bound(d, step);
    lemma_div_pos_is_pos(d, step);
    assert((q + 1) * step == step * q + step) by (nonlinear_arith);
    assert(((q + 1) * step) % step == 0) by (nonlinear_arith)
        requires
            step > 0,
    {
        vstd::arithmetic::div_mod::lemma_mod_multiples_basic(q + 1, step);
    }
    assert forall|k: int| start + k * step > now implies #[trigger] (k * step) + start
        >= first_boundary_after(start, step, now) by {
        assert(k >= q + 1) by (nonlinear_arith)
            requires
                k * step > step * q,
                step > 0,
        ;
        assert(k * step >= (q + 1) * step) by (nonlinear_arith)
            requires
                k >= q + 1,
                step > 0,
        ;
    }
}

/// Bringing a schedule up to the same time twice gives what doing
/// it once gives.
pub proof fn rollover_is_idempotent(root: Root, now: i64)
    requires
        root.rollover_fits(now),
    ensures
        root.rolled_over(now).rollover_fits(now),
        root.rolled_over(now).rolled_over(now) == root.rolled_over(now),
{
    if let Some(reset) = root.voter_weight_reset {
        if now >= reset.next_reset_time && reset.step > 0 {
            lemma_first_boundary_after(reset.next_reset_time as int, reset.step as int, now as int);
        }
    }
}

/// A schedule that is brought up to date either ends, which only one
/// with a step of zero does, or keeps its step and has its next reset
/// after the time it was brought up to, and not before where it was.
pub proof fn rollover_moves_forward(root: Root, now: i64)
    requires
        root.rollover_fits(now),
    ensures
        root.voter_weight_reset is None ==> root.schedule_at(now) is None,
        root.voter_weight_reset matches Some(before) ==> match root.schedule_at(now) {
            Some(after) => {
                &&& after.step == before.step
                &&& after.next_reset_time >= before.next_reset_time
                &&& after.next_reset_time > now
            },
            None => before.step == 0 && now >= before.next_reset_time,
        },
{
    if let Some(reset) = root.voter_weight_reset {
        if now >= reset.next_reset_time && reset.step > 0 {
            lemma_first_boundary_after(reset.next_reset_time as int, reset.step as int, now as int);
        }
    }
}

impl Root {
    /// The schedule that `self` has once the time `now` has been
    /// taken into account: unchanged before the next reset time; at or
    /// after it, moved to the first boundary after `now`, or dropped
    /// if the step is zero.
    pub open spec fn schedule_at(&self, now: i64) -> Option<VoterWeightReset> {
        match self.voter_weight_reset {
            None => None,
            Some(r) => if now < r.next_reset_time {
                Some(r)
            } else if r.step == 0 {
                None
            } else {
                Some(
                    VoterWeightReset {
                        next_reset_time: first_boundary_after(
                            r.next_reset_time as int,
                            r.step as int,
                            now as int,
                        ) as i64,
                        step: r.step,
                    },
                )
            },
        }
    }

    /// Whether the next reset time that `now` leads to can be stored.
    pub open spec fn rollover_fits(&self, now: i64) -> bool {
        self.voter_weight_reset matches Some(r) ==> (now >= r.next_reset_time && r.step > 0
            ==> first_boundary_after(r.next_reset_time as int, r.step as int, now as int)
            <= i64::MAX)
    }

    /// Computes `rollover_fits` for the time of `clock`.
    pub fn rollover_is_storable(&self, clock: &Clock) -> (fits: bool)
        ensures
            fits == self.rollover_fits(clock.unix_timestamp),
    {
        let now = clock.unix_timestamp;
        match self.voter_weight_reset {
            None => true,
            Some(r) => {
                if now >= r.next_reset_time && r.step > 0 {
                    let elapsed: u128 = (now as i128 - r.next_reset_time as i128) as u128;
                    let step: u128 = r.step as u128;
                    let epochs: u128 = elapsed / step + 1;
                    assert(epochs * step <= elapsed + step) by (nonlinear_arith)
                        requires
                            epochs == elapsed / step + 1,
                            step > 0,
                    {
                        lemma_fundamental_div_mod(elapsed as int, step as int);
                        lemma_mod_bound(elapsed as int, step as int);
                    }
                    let advance: u128 = epochs * step;
                    r.next_reset_time as i128 + advance as i128 <= i64::MAX as i128
                } else {
                    true
                }
            },
        }
    }

    /// `self` with its schedule brought up to the time `now`.
    pub open spec fn rolled_over(&self, now: i64) -> Root {
        Root { voter_weight_reset: self.schedule_at(now), ..*self }
    }

    /// Brings the schedule up to the time of `clock`.
    pub fn update_next_voter_weight_reset_time(&mut self, clock: &Clock)
        requires
            old(self).rollover_fits(clock.unix_timestamp),
        ensures
            *final(self) == old(self).rolled_over(clock.unix_timestamp),
    {
        let now = clock.unix_timestamp;
        match self.voter_weight_reset {
            None => {},
            Some(r) => {
                if now >= r.next_reset_time {
                    if r.step > 0 {
                        proof {
                            lemma_first_boundary_after(
                                r.next_reset_time as int,
                                r.step as int,
                                now as int,
                            );
                        }
                        let elapsed: u128 = (now as i128 - r.next_reset_time as i128) as u128;
                        let step: u128 = r.step as u128;
                        let epochs: u128 = elapsed / step + 1;
                        assert(epochs * step <= elapsed + step) by (nonlinear_arith)
                            requires
                                epochs == elapsed / step + 1,
                                step > 0,
                        {
                            lemma_fundamental_div_mod(elapsed as int, step as int);
                            lemma_mod_bound(elapsed as int, step as int);
                        }
                        let advance: u128 = epochs * step;
                        let next: i128 = r.next_reset_time as i128 + advance as i128;
                        self.voter_weight_reset = Some(
                            VoterWeightReset { next_reset_time: next as i64, step: r.step },
                        );
                    } else {
                        self.voter_weight_reset = None;
                    }
                }
            },
        }
    }

    /// The time of the next reset, if a schedule is set.
    pub fn next_voter_weight_reset_time(&self) -> (time: Option<i64>)
        ensures
            time == self.spec_next_voter_weight_reset_time(),
    {
        match self.voter_weight_reset {
            Some(r) => Some(r.next_reset_time),
            None => None,
        }
    }

    /// The time of the next reset, if a schedule is set.
    pub open spec fn spec_next_voter_weight_reset_time(&self) -> Option<i64> {
        match self.voter_weight_reset {
            Some(r) => Some(r.next_reset_time),
            None => None,
        }
    }
}

} // verus!
