//! The resolved configuration of a run, and the periods of its two timers.

use vstd::prelude::*;

verus! {

/// Nanoseconds in one second.
pub const NANOS_PER_SECOND: u64 = 1_000_000_000;

/// The period of the progress report, in seconds.
pub const REPORT_PERIOD_SECS: u64 = 1;

/// The request rate of a run that names none, in requests per second.
pub const DEFAULT_TARGET_RATE: u64 = 1;

/// The bound on requests in flight of a run that names none.
pub const DEFAULT_MAX_CONCURRENCY: usize = 1;

/// The cap on redirect hops of a run that names none: redirects are not
/// followed.
pub const DEFAULT_FOLLOW_REDIRECTS: usize = 0;

/// Why a set of values is no configuration.
#[derive(Clone, Copy, Debug, PartialEq, Eq, Structural)]
pub enum ConfigError {
    /// The bound on requests in flight is zero.
    ZeroMaxConcurrency,
    /// The target rate is zero.
    ZeroTargetRate,
}

/// The configuration of a run. It does not change once it is made: the
/// bound on requests in flight and the target rate are both at least one.
#[derive(Clone, Copy, Debug)]
pub struct Config {
    max_concurrency: usize,
    target_rate: u64,
    follow_redirects: usize,
    debug: bool,
}

/// The error, if any, that keeps a bound and a rate out of a configuration.
/// A zero bound is reported before a zero rate.
pub open spec fn rejection(max_concurrency: usize, target_rate: u64) -> Option<ConfigError> {
    if max_concurrency == 0 {
        Some(ConfigError::ZeroMaxConcurrency)
    } else if target_rate == 0 {
        Some(ConfigError::ZeroTargetRate)
    } else {
        None
    }
}

/// The period of the dispatch timer for a rate of `target_rate` requests per
/// second, in whole nanoseconds.
pub open spec fn tick_period(target_rate: u64) -> int
    recommends
        target_rate > 0,
{
    NANOS_PER_SECOND as int / target_rate as int
}

/// The number of ticks of the dispatch timer in a window of `seconds`
/// seconds for a rate of `target_rate`, on a timer without jitter: the
/// whole periods that fit into the window.
pub open spec fn ticks_in_window(target_rate: u64, seconds: nat) -> int
    recommends
        1 <= target_rate <= NANOS_PER_SECOND,
{
    (seconds * NANOS_PER_SECOND as int) / tick_period(target_rate)
}

/// For a rate between one request per second and one per nanosecond, the
/// dispatch timer ticks at least `target_rate` times in each second of a
/// window, and exactly that often where the rate divides the nanoseconds of
/// a second evenly. The period is rounded down, so for other rates the
/// timer runs a little fast, never slow.
pub proof fn lemma_ticks_in_window(target_rate: u64, seconds: nat)
    requires
        1 <= target_rate <= NANOS_PER_SECOND,
    ensures
        tick_period(target_rate) >= 1,
        ticks_in_window(target_rate, seconds) >= target_rate * seconds,
        NANOS_PER_SECOND as int % target_rate as int == 0 ==> ticks_in_window(
            target_rate,
            seconds,
        ) == target_rate * seconds,
{
    let rate = target_rate as int;
    let second = NANOS_PER_SECOND as int;
    let period = second / rate;
    let window = seconds * second;
    assert(period >= 1 && rate * period <= second && (second % rate == 0 ==> rate * period
        == second)) by (nonlinear_arith)
        requires
            1 <= rate <= second,
            period == second / rate,
    ;
    assert(window / period >= rate * seconds && (second % rate == 0 ==> window / period == rate
        * seconds)) by (nonlinear_arith)
        requires
            period >= 1,
            rate >= 1,
            seconds >= 0,
            rate * period <= second,
            second % rate == 0 ==> rate * period == second,
            window == seconds * second,
    ;
}

impl Config {
    #[verifier::type_invariant]
    spec fn well_formed(&self) -> bool {
        self.max_concurrency >= 1 && self.target_rate >= 1
    }

    /// The bound on requests in flight.
    pub closed spec fn spec_max_concurrency(&self) -> usize {
        self.max_concurrency
    }

    /// The target rate, in requests per second.
    pub closed spec fn spec_target_rate(&self) -> u64 {
        self.target_rate
    }

    /// The cap on redirect hops.
    pub closed spec fn spec_follow_redirects(&self) -> usize {
        self.follow_redirects
    }

    /// Whether each response is reported in full.
    pub closed spec fn spec_debug(&self) -> bool {
        self.debug
    }

    /// Whether `self` holds exactly these four values.
    pub open spec fn holds(
        &self,
        max_concurrency: usize,
        target_rate: u64,
        follow_redirects: usize,
        debug: bool,
    ) -> bool {
        &&& self.spec_max_concurrency() == max_concurrency
        &&& self.spec_target_rate() == target_rate
        &&& self.spec_follow_redirects() == follow_redirects
        &&& self.spec_debug() == debug
    }

    /// A configuration of the four values, or the reason why they make none:
    /// a bound of zero, or a rate of zero.
    pub fn new(max_concurrency: usize, target_rate: u64, follow_redirects: usize, debug: bool) -> (r:
        Result<Config, ConfigError>)
        ensures
            match r {
                Ok(config) => rejection(max_concurrency, target_rate) is None && config.holds(
                    max_concurrency,
                    target_rate,
                    follow_redirects,
                    debug,
                ),
                Err(e) => rejection(max_concurrency, target_rate) == Some(e),
            },
    {
        if max_concurrency == 0 {
            Err(ConfigError::ZeroMaxConcurrency)
        } else if target_rate == 0 {
            Err(ConfigError::ZeroTargetRate)
        } else {
            Ok(Config { max_concurrency, target_rate, follow_redirects, debug })
        }
    }

    /// A configuration in which each value that was not given takes its
    /// default: a bound of one request in flight, one request per second,
    /// no redirect followed.
    pub fn resolve(
        max_concurrency: Option<usize>,
        target_rate: Option<u64>,
        follow_redirects: Option<usize>,
        debug: bool,
    ) -> (r: Result<Config, ConfigError>)
        ensures
            ({
                let m = max_concurrency.unwrap_or(DEFAULT_MAX_CONCURRENCY);
                let t = target_rate.unwrap_or(DEFAULT_TARGET_RATE);
                let f = follow_redirects.unwrap_or(DEFAULT_FOLLOW_REDIRECTS);
                match r {
                    Ok(config) => rejection(m, t) is None && config.holds(m, t, f, debug),
                    Err(e) => rejection(m, t) == Some(e),
                }
            }),
    {
        let m = match max_concurrency {
            Some(m) => m,
            None => DEFAULT_MAX_CONCURRENCY,
        };
        let t = match target_rate {
            Some(t) => t,
            None => DEFAULT_TARGET_RATE,
        };
        let f = match follow_redirects {
            Some(f) => f,
            None => DEFAULT_FOLLOW_REDIRECTS,
        };
        Config::new(m, t, f, debug)
    }

    /// The bound on requests in flight; at least one.
    pub fn max_concurrency(&self) -> (m: usize)
        ensures
            m == self.spec_max_concurrency(),
            m >= 1,
    {
        proof {
            use_type_invariant(self);
        }
        self.max_concurrency
    }

    /// The target rate, in requests per second; at least one.
    pub fn target_rate(&self) -> (t: u64)
        ensures
            t == self.spec_target_rate(),
            t >= 1,
    {
        proof {
            use_type_invariant(self);
        }
        self.target_rate
    }

    /// The cap on redirect hops.
    pub fn follow_redirects(&self) -> (f: usize)
        ensures
            f == self.spec_follow_redirects(),
    {
        self.follow_redirects
    }

    /// Whether each response is reported in full.
    pub fn debug(&self) -> (d: bool)
        ensures
            d == self.spec_debug(),
    {
        self.debug
    }

    /// The period of the dispatch timer in nanoseconds: a second divided by
    /// the target rate, rounded down. It is zero only for a rate above one
    /// request per nanosecond.
    pub fn tick_period_nanos(&self) -> (period: u64)
        ensures
            period == tick_period(self.spec_target_rate()),
            period <= NANOS_PER_SECOND,
            period == 0 <==> self.spec_target_rate() > NANOS_PER_SECOND,
    {
        proof {
            use_type_invariant(self);
        }
        let rate = self.target_rate;
        let period = NANOS_PER_SECOND / rate;
        assert(period == 0 <==> rate > 1_000_000_000) by (nonlinear_arith)
            requires
                rate >= 1,
                period == 1_000_000_000int / (rate as int),
        ;
        period
    }
}

} // verus!
