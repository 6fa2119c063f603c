//! Bounded random challenge generation, backed by the process-wide
//! pseudorandom source of the `rand` crate.

use vstd::prelude::*;
use rand::distributions::Distribution;
use crate::config::{ConfigError, Mode};
use crate::round::Base;

verus! {

/// Relies on `rand::distributions::Uniform::new(0, max)` and
/// `Distribution::sample`: a draw from the half-open range `[0, max)`.
/// `Uniform::new` panics when `low >= high`, so a positive bound is
/// demanded here.
#[verifier::external_body]
fn draw_below(max: i64) -> (r: i64)
    requires
        max > 0,
    ensures
        0 <= r < max,
{
    let step = rand::distributions::Uniform::new(0i64, max);
    step.sample(&mut rand::thread_rng())
}

/// Draws challenges uniformly below a fixed positive bound.
pub struct ChallengeGen {
    pub max_bound: i64,
}

impl ChallengeGen {
    /// The bound is positive, as the underlying distribution demands.
    pub open spec fn wf(&self) -> bool {
        self.max_bound > 0
    }

    /// Build a generator. A bound at or below zero would make the
    /// uniform distribution construction invalid, so it is rejected
    /// up front as a fatal configuration error.
    pub fn new(max_bound: i64) -> (r: Result<ChallengeGen, ConfigError>)
        ensures
            max_bound > 0 ==> r == Ok::<ChallengeGen, ConfigError>(
                ChallengeGen { max_bound: max_bound },
            ) && r->Ok_0.wf(),
            max_bound <= 0 ==> r == Err::<ChallengeGen, ConfigError>(
                ConfigError::InvalidDistributionBound,
            ),
    {
        if max_bound > 0 {
            Ok(ChallengeGen { max_bound })
        } else {
            Err(ConfigError::InvalidDistributionBound)
        }
    }

    /// Draw one challenge: every value returned lies in `[0, max_bound)`.
    pub fn draw(&self) -> (c: i64)
        requires
            self.wf(),
        ensures
            0 <= c < self.max_bound,
    {
        draw_below(self.max_bound)
    }
}

/// The answer base for one round. The fixed modes pin it; mixed mode
/// takes a fresh draw and lets its parity decide, odd for hexadecimal
/// and even for decimal.
pub fn base_for_round(mode: Mode, selector: i64) -> (b: Base)
    requires
        selector >= 0,
    ensures
        mode == Mode::DecToHex ==> b == Base::Hex,
        mode == Mode::HexToDec ==> b == Base::Dec,
        mode == Mode::Mixed ==> b == (if selector % 2 == 1 {
            Base::Hex
        } else {
            Base::Dec
        }),
{
    match mode {
        Mode::DecToHex => Base::Hex,
        Mode::HexToDec => Base::Dec,
        Mode::Mixed => {
            if selector % 2 == 1 {
                Base::Hex
            } else {
                Base::Dec
            }
        },
    }
}

} // verus!
