use vstd::prelude::*;

verus! {

/// How long one HTTP attempt may take when no timeout is given, in seconds.
pub const DEFAULT_TIMEOUT_SECS: u64 = 5;

/// An option of the command line that takes a value.
#[derive(Debug, Clone, Copy, PartialEq, Eq)]
pub enum Flag {
    File,
    Workers,
    Timeout,
    Retries,
}

/// Why a run cannot start. Each is reported before any probe is made.
#[derive(Debug, Clone, Copy, PartialEq, Eq)]
pub enum ConfigError {
    /// The option came last, without its value.
    MissingValue(Flag),
    /// The option's value is not a non-negative decimal number in range.
    InvalidNumber(Flag),
    /// No URL was supplied.
    NoUrls,
    /// The worker count is zero.
    NoWorkers,
    /// The per-request timeout is zero.
    ZeroTimeout,
}

/// Everything one run needs; fixed once constructed.
#[derive(Debug, Clone, PartialEq, Eq)]
pub struct Config {
    /// The URLs to probe, in input order; repetitions are probed separately.
    pub urls: Vec<String>,
    /// How many workers probe concurrently.
    pub worker_count: usize,
    /// The bound on each HTTP attempt, in seconds.
    pub timeout_secs: u64,
    /// How many times a failed attempt is retried.
    pub retry_count: usize,
}

impl Config {
    /// A configuration a run can start from.
    pub open spec fn wf(&self) -> bool {
        &&& self.urls.len() > 0
        &&& self.worker_count > 0
        &&& self.timeout_secs > 0
    }

    /// Checks and builds a configuration: the URL list must not be empty, and
    /// the worker count and the timeout must be positive, checked in that
    /// order.
    pub fn new(urls: Vec<String>, worker_count: usize, timeout_secs: u64, retry_count: usize) -> (r:
        Result<Config, ConfigError>)
        ensures
            urls.len() == 0 <==> r == Err::<Config, ConfigError>(ConfigError::NoUrls),
            urls.len() > 0 && worker_count == 0 <==> r == Err::<Config, ConfigError>(
                ConfigError::NoWorkers,
            ),
            urls.len() > 0 && worker_count > 0 && timeout_secs == 0 <==> r == Err::<
                Config,
                ConfigError,
            >(ConfigError::ZeroTimeout),
            r is Ok <==> urls.len() > 0 && worker_count > 0 && timeout_secs > 0,
            r matches Ok(c) ==> c.wf() && c.urls@ == urls@ && c.worker_count == worker_count
                && c.timeout_secs == timeout_secs && c.retry_count == retry_count,
    {
        if urls.len() == 0 {
            Err(ConfigError::NoUrls)
        } else if worker_count == 0 {
            Err(ConfigError::NoWorkers)
        } else if timeout_secs == 0 {
            Err(ConfigError::ZeroTimeout)
        } else {
            Ok(Config { urls, worker_count, timeout_secs, retry_count })
        }
    }
}

} // verus!
