//! What the panels know of the processing engine: the whole-number part of
//! its configuration.

use vstd::prelude::*;

verus! {

/// The processing engine's configuration, as far as the panels read and
/// change it.
#[derive(Debug, Clone, Copy, PartialEq, Eq)]
pub struct Config {
    /// The gain applied to the samples, as a whole number.
    pub volume: u64,
    /// How many bars the engine hands out.
    pub bar_count: usize,
    /// The resolution of the frequency transform.
    pub fft_resolution: usize,
    /// How many buffers are averaged.
    pub buffering: usize,
    pub smoothing_size: usize,
    pub smoothing_amount: usize,
    /// How often per second the engine refreshes its bars.
    pub refresh_rate: usize,
    /// The highest frequency shown, in hertz.
    pub max_frequency: usize,
    pub frequency_scale_amount: usize,
    pub frequency_scale_range: (usize, usize),
}

/// The highest frequency that the engine is ever asked to show, in hertz.
pub const FREQUENCY_LIMIT: usize = 20_000;

/// The configuration with which the engine is started, given the engine's own
/// defaults: full frequency range, a volume of one hundred, and one pass of
/// frequency scaling over the whole range.
pub open spec fn startup(defaults: Config) -> Config {
    Config {
        volume: 100,
        max_frequency: FREQUENCY_LIMIT,
        frequency_scale_amount: 1,
        frequency_scale_range: (0, 100),
        ..defaults
    }
}

/// The configuration with which the engine is started.
pub fn startup_config(defaults: Config) -> (config: Config)
    ensures
        config == startup(defaults),
{
    Config {
        volume: 100,
        max_frequency: FREQUENCY_LIMIT,
        frequency_scale_amount: 1,
        frequency_scale_range: (0, 100),
        ..defaults
    }
}

/// The whole-number square root: the largest number whose square does not
/// exceed `n`.
pub open spec fn is_root(r: int, n: int) -> bool {
    0 <= r && r * r <= n < (r + 1) * (r + 1)
}

/// Computes the whole-number square root of `n`.
pub fn integer_sqrt(n: u64) -> (root: u32)
    ensures
        is_root(root as int, n as int),
{
    let mut low: u64 = 0;
    let mut high: u64 = 0x1_0000_0000;
    while high - low > 1
        invariant
            low < high <= 0x1_0000_0000,
            low * low <= n < high * high,
        decreases high - low,
    {
        let mid: u64 = low + (high - low) / 2;
        assert(mid * mid <= 0xFFFF_FFFF * 0xFFFF_FFFF) by (nonlinear_arith)
            requires
                0 <= mid <= 0xFFFF_FFFF,
        ;
        if mid * mid <= n {
            low = mid;
        } else {
            high = mid;
        }
    }
    low as u32
}

} // verus!
