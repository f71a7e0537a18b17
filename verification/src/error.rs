//! The errors of the library.
use vstd::prelude::*;
use vstd::string::StringExecFns;

verus! {

/// A configuration that cannot be built.
#[derive(Clone, Copy, Debug, PartialEq, Eq, Structural)]
pub enum ConfigError {
    /// A size condition was asked for with a threshold of zero bytes.
    ZeroSize,
    /// A duration condition was asked for with an empty duration.
    ZeroDuration,
    /// An engine was asked for without a naming policy.
    MissingFileNameProvider,
}

/// A failure while the engine runs.
#[derive(Clone, Copy, Debug, PartialEq, Eq, Structural)]
pub enum RollingError {
    /// The instant lies outside the range of dates that can be formatted.
    TimestampOutOfRange,
    /// The date-time format of the naming policy is not a valid description.
    InvalidFormat,
    /// The instant could not be written in the date-time format.
    Unformattable,
    /// More names were asked for within one formatted instant than can be
    /// numbered.
    NamesExhausted,
    /// A policy supplied by the caller could not answer.
    Policy,
    /// The creation time of a file that retention has to rank is unknown:
    /// the file at this place of the listing.
    CreationTimeUnknown(usize),
    /// The event does not answer the action that the engine asked for.
    UnexpectedEvent,
    /// The length of the active file would leave the range of `usize`.
    FileTooLong,
}

impl ConfigError {
    /// The text of the error.
    pub open spec fn spec_message(self) -> Seq<char> {
        match self {
            ConfigError::ZeroSize => "`desired_size` must be greater than 0"@,
            ConfigError::ZeroDuration => "`duration` must be greater than 0"@,
            ConfigError::MissingFileNameProvider => "`file_name_provider` is required"@,
        }
    }

    /// The text of the error, for display.
    pub fn message(&self) -> (text: String)
        ensures
            text@ == self.spec_message(),
    {
        match self {
            ConfigError::ZeroSize => String::from_str("`desired_size` must be greater than 0"),
            ConfigError::ZeroDuration => String::from_str("`duration` must be greater than 0"),
            ConfigError::MissingFileNameProvider => String::from_str(
                "`file_name_provider` is required",
            ),
        }
    }
}

} // verus!
