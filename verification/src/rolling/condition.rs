//! Conditions under which the engine leaves the active file for a new one.
use crate::error::ConfigError;
use crate::error::RollingError;
use crate::file::FileStat;
use vstd::prelude::*;

verus! {

/// A rule that looks at the active file and the clock and says whether the
/// file has had its time.
pub trait RollingCondition {
    /// What the condition answers for a file in state `stat` when the clock
    /// reads `now`: whether to roll, or why it cannot tell.
    spec fn verdict(&self, stat: FileStat, now: int) -> Result<bool, RollingError>;

    /// Whether to roll now.
    fn should_roll(&self, stat: &FileStat, now: i128) -> (answer: Result<bool, RollingError>)
        ensures
            answer == self.verdict(*stat, now as int),
    ;
}

/// Rolls once the file holds a given number of bytes.
#[derive(Clone, Copy, Debug)]
pub struct RollingBySize {
    desired_size: usize,
}

impl RollingBySize {
    /// The number of bytes from which the condition holds.
    pub closed spec fn threshold(&self) -> nat {
        self.desired_size as nat
    }

    /// A condition that holds from `desired_size` bytes on. A threshold of
    /// zero would hold of every file and is refused.
    pub fn new(desired_size: usize) -> (made: Result<Self, ConfigError>)
        ensures
            desired_size == 0 ==> made == Err::<Self, ConfigError>(ConfigError::ZeroSize),
            desired_size > 0 ==> made is Ok && made->Ok_0.threshold() == desired_size,
    {
        if desired_size == 0 {
            return Err(ConfigError::ZeroSize);
        }
        Ok(RollingBySize { desired_size })
    }
}

impl RollingCondition for RollingBySize {
    open spec fn verdict(&self, stat: FileStat, now: int) -> Result<bool, RollingError> {
        Ok(self.threshold() <= stat.len)
    }

    fn should_roll(&self, stat: &FileStat, now: i128) -> (answer: Result<bool, RollingError>) {
        Ok(self.desired_size <= stat.len())
    }
}

/// Rolls once the file is a given time old.
#[derive(Clone, Copy, Debug)]
pub struct RollingByDuration {
    duration: u128,
}

impl RollingByDuration {
    /// The age, in nanoseconds, from which the condition holds.
    pub closed spec fn age_limit(&self) -> nat {
        self.duration as nat
    }

    /// A condition that holds of a file created `duration` nanoseconds ago
    /// or earlier. An empty duration would hold of every file and is
    /// refused.
    pub fn new(duration: u128) -> (made: Result<Self, ConfigError>)
        ensures
            duration == 0 ==> made == Err::<Self, ConfigError>(ConfigError::ZeroDuration),
            duration > 0 ==> made is Ok && made->Ok_0.age_limit() == duration,
    {
        if duration == 0 {
            return Err(ConfigError::ZeroDuration);
        }
        Ok(RollingByDuration { duration })
    }
}

impl RollingCondition for RollingByDuration {
    open spec fn verdict(&self, stat: FileStat, now: int) -> Result<bool, RollingError> {
        Ok(stat.created + self.age_limit() <= now)
    }

    fn should_roll(&self, stat: &FileStat, now: i128) -> (answer: Result<bool, RollingError>) {
        // `created + duration <= now`, without leaving the range of `i128`:
        // a file from the future is never old enough.
        if now < stat.created() {
            return Ok(false);
        }
        let created: i128 = stat.created();
        let age: u128 = if created >= 0 || now < 0 {
            (now - created) as u128
        } else {
            (now as u128) + ((-(created + 1)) as u128) + 1
        };
        Ok(self.duration <= age)
    }
}

/// Either of the two conditions, for an engine that is to roll by size and
/// by age at once.
#[derive(Clone, Copy, Debug)]
pub enum RollingBy {
    Size(RollingBySize),
    Duration(RollingByDuration),
}

impl RollingCondition for RollingBy {
    open spec fn verdict(&self, stat: FileStat, now: int) -> Result<bool, RollingError> {
        match self {
            RollingBy::Size(by_size) => by_size.verdict(stat, now),
            RollingBy::Duration(by_duration) => by_duration.verdict(stat, now),
        }
    }

    fn should_roll(&self, stat: &FileStat, now: i128) -> (answer: Result<bool, RollingError>) {
        match self {
            RollingBy::Size(by_size) => by_size.should_roll(stat, now),
            RollingBy::Duration(by_duration) => by_duration.should_roll(stat, now),
        }
    }
}

} // verus!
