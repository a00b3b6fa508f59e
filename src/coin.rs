use vstd::prelude::*;

use rand::distributions::{Bernoulli, Distribution};

verus! {

/// Relies on rand's `Bernoulli::from_ratio` and `Bernoulli::sample` with the
/// thread-local generator: `from_ratio` succeeds when the denominator is
/// non-zero and not below the numerator; the distribution it makes of
/// `(0, d)` never yields `true`, and the one of `(d, d)` always does.
#[verifier::external_body]
fn bernoulli_draw(numerator: u32, denominator: u32) -> (r: bool)
    requires
        denominator != 0,
        numerator <= denominator,
    ensures
        numerator == 0 ==> !r,
        numerator == denominator ==> r,
{
    match Bernoulli::from_ratio(numerator, denominator) {
        Ok(dist) => dist.sample(&mut rand::thread_rng()),
        Err(_) => false,
    }
}

/// Largest percentage a coin accepts.
pub const MAX_PERCENTAGE: u8 = 100;

/// A biased coin that lands heads with probability `numerator / denominator`.
#[derive(Clone, Copy, Debug)]
pub struct Coin {
    numerator: u32,
    denominator: u32,
}

/// The error of an invalid forging configuration.
#[derive(Clone, Copy, Debug, PartialEq, Eq)]
pub enum ConfigError {
    /// The percentage lies outside `0..=100`.
    InvalidPercentage(u8),
}

impl Coin {
    pub closed spec fn numerator_spec(&self) -> u32 {
        self.numerator
    }

    pub closed spec fn denominator_spec(&self) -> u32 {
        self.denominator
    }

    pub closed spec fn wf(&self) -> bool {
        self.denominator != 0 && self.numerator <= self.denominator
    }

    /// A coin for `percentage` percent, or an error when it exceeds 100.
    pub fn from_percentage(percentage: u8) -> (r: Result<Coin, ConfigError>)
        ensures
            percentage <= 100 <==> r is Ok,
            r matches Ok(c) ==> c.wf() && c.numerator_spec() == percentage as u32
                && c.denominator_spec() == 100,
            r matches Err(e) ==> e == ConfigError::InvalidPercentage(percentage),
    {
        if percentage <= MAX_PERCENTAGE {
            Ok(Coin { numerator: percentage as u32, denominator: MAX_PERCENTAGE as u32 })
        } else {
            Err(ConfigError::InvalidPercentage(percentage))
        }
    }

    /// Flips the coin once.
    pub fn flip(&self) -> (r: bool)
        requires
            self.wf(),
        ensures
            self.numerator_spec() == 0 ==> !r,
            self.numerator_spec() == self.denominator_spec() ==> r,
    {
        bernoulli_draw(self.numerator, self.denominator)
    }
}

/// The command-line options of the garbage-candidate node.
#[derive(Clone, Copy, Debug, PartialEq, Eq)]
pub struct SuggestGarbageCandidateOptions {
    /// Percentage of seconding requests that are replaced by a forged
    /// candidate; must lie in `0..=100`.
    pub percentage: u8,
}

impl SuggestGarbageCandidateOptions {
    /// Options with `percentage`, rejected when it exceeds 100.
    pub fn new(percentage: u8) -> (r: Result<SuggestGarbageCandidateOptions, ConfigError>)
        ensures
            percentage <= 100 ==> r == Ok::<_, ConfigError>(SuggestGarbageCandidateOptions { percentage }),
            percentage > 100 ==> r == Err::<SuggestGarbageCandidateOptions, _>(ConfigError::InvalidPercentage(percentage)),
    {
        if percentage <= MAX_PERCENTAGE {
            Ok(SuggestGarbageCandidateOptions { percentage })
        } else {
            Err(ConfigError::InvalidPercentage(percentage))
        }
    }
}

} // verus!
