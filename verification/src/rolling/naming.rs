//! Naming policies: what the next file is called, and which files of a
//! directory belong to the same scheme.
use crate::clock::described;
use crate::clock::flat_description;
use crate::clock::format_utc;
use crate::clock::formatted_utc;
use crate::clock::in_calendar;
use crate::clock::is_flat;
use crate::error::RollingError;
use crate::text::decimal;
use crate::text::decimal_text;
use crate::text::ends_with;
use crate::text::starts_with;
use vstd::prelude::*;
use vstd::string::StringExecFns;

verus! {

/// A result that carries text, by the characters of the text.
pub open spec fn text_of(outcome: Result<String, RollingError>) -> Result<Seq<char>, RollingError> {
    match outcome {
        Ok(text) => Ok(text@),
        Err(e) => Err(e),
    }
}

/// A policy that names the files of a rotation.
pub trait RollingFileNameProvider {
    /// Whether `file_name` is one that this policy could have given, or why
    /// the policy cannot tell.
    spec fn judged(&self, file_name: Seq<char>) -> Result<bool, RollingError>;

    /// Whether a call at the instant `now` may end with `outcome` and leave
    /// the policy as `after`.
    spec fn names(&self, now: int, outcome: Result<Seq<char>, RollingError>, after: &Self) -> bool;

    /// Whether a file of the directory belongs to this rotation.
    fn acceptable(&self, file_name: &str) -> (answer: Result<bool, RollingError>)
        ensures
            answer == self.judged(file_name@),
    ;

    /// The name of the file to open at the instant `now`, in nanoseconds
    /// since the Unix epoch.
    fn next_file_name(&mut self, now: i128) -> (name: Result<String, RollingError>)
        ensures
            old(self).names(now as int, text_of(name), final(self)),
    ;
}

/// What a name carries between its date and its suffix: nothing for the
/// first file of a formatted instant, `-1` for the second, `-2` for the
/// third, and so on.
pub open spec fn counter(hits: nat) -> Seq<char> {
    if hits == 0 {
        Seq::empty()
    } else {
        seq!['-'] + decimal(hits)
    }
}

/// The default policy as a value: its fixed parts, and the formatted
/// instant of the name it gave last with the number of names it has given
/// for that instant after the first.
pub struct NamingState {
    pub prefix: Option<Seq<char>>,
    pub suffix: Option<Seq<char>>,
    pub datetime_format: Seq<char>,
    pub last_datetime: Option<Seq<char>>,
    pub hits: nat,
}

impl NamingState {
    /// The prefix of every name; empty where none is configured.
    pub open spec fn fixed_prefix(self) -> Seq<char> {
        match self.prefix {
            Some(prefix) => prefix,
            None => Seq::empty(),
        }
    }

    /// The suffix of every name; empty where none is configured.
    pub open spec fn fixed_suffix(self) -> Seq<char> {
        match self.suffix {
            Some(suffix) => suffix,
            None => Seq::empty(),
        }
    }

    /// A name belongs to the scheme where it begins with the prefix and ends
    /// with the suffix, as far as they are configured. What stands between
    /// them is not looked at.
    pub open spec fn accepts(self, file_name: Seq<char>) -> bool {
        &&& self.prefix matches Some(prefix) ==> prefix.is_prefix_of(file_name)
        &&& self.suffix matches Some(suffix) ==> suffix.is_suffix_of(file_name)
    }

    /// The name of file number `hits` of the formatted instant `datetime`.
    pub open spec fn file_name(self, datetime: Seq<char>, hits: nat) -> Seq<char> {
        self.fixed_prefix() + datetime + counter(hits) + self.fixed_suffix()
    }

    /// The number that the next name for `datetime` carries: one more than
    /// the last where the formatted instant repeats, else zero.
    pub open spec fn next_hits(self, datetime: Seq<char>) -> nat {
        if self.last_datetime == Some(datetime) {
            self.hits + 1
        } else {
            0
        }
    }

    /// The outcome of asking for a name when the instant formats to
    /// `datetime`.
    pub open spec fn named(self, datetime: Seq<char>) -> Result<Seq<char>, RollingError> {
        if self.next_hits(datetime) > u64::MAX {
            Err(RollingError::NamesExhausted)
        } else {
            Ok(self.file_name(datetime, self.next_hits(datetime)))
        }
    }

    /// The policy after it was asked for a name when the instant formats to
    /// `datetime`.
    pub open spec fn after_naming(self, datetime: Seq<char>) -> NamingState {
        if self.next_hits(datetime) > u64::MAX {
            self
        } else {
            NamingState {
                last_datetime: Some(datetime),
                hits: self.next_hits(datetime),
                ..self
            }
        }
    }

    /// The formatted instant of a rollover at `now`, or why there is none:
    /// the description holds a bracket inside a component, the instant has
    /// no date, the description cannot be read, or the instant cannot be
    /// written so.
    pub open spec fn datetime_at(self, now: int) -> Result<Seq<char>, RollingError> {
        if !flat_description(self.datetime_format) {
            Err(RollingError::InvalidFormat)
        } else if !in_calendar(now) {
            Err(RollingError::TimestampOutOfRange)
        } else if !described(self.datetime_format) {
            Err(RollingError::InvalidFormat)
        } else {
            match formatted_utc(now, self.datetime_format) {
                Some(datetime) => Ok(datetime),
                None => Err(RollingError::Unformattable),
            }
        }
    }

    /// The outcome of asking for a name at the instant `now`.
    pub open spec fn named_at(self, now: int) -> Result<Seq<char>, RollingError> {
        match self.datetime_at(now) {
            Ok(datetime) => self.named(datetime),
            Err(e) => Err(e),
        }
    }

    /// The policy after it was asked for a name at the instant `now`: as it
    /// was, where the instant could not be formatted.
    pub open spec fn after_naming_at(self, now: int) -> NamingState {
        match self.datetime_at(now) {
            Ok(datetime) => self.after_naming(datetime),
            Err(_) => self,
        }
    }
}

/// The characters of an optional text.
pub open spec fn optional_text(text: Option<String>) -> Option<Seq<char>> {
    match text {
        Some(text) => Some(text@),
        None => None,
    }
}

/// The date-time format of a policy that was given none: year, month and
/// day, a `T`, then hour, minute and second.
pub open spec fn default_datetime_format() -> Seq<char> {
    "[year][month][day]T[hour][minute][second]"@
}

/// Names made of a fixed prefix, the formatted instant of the rollover and a
/// fixed suffix. Rollovers within one formatted instant are told apart by a
/// counter after the date.
#[derive(Debug)]
pub struct DefaultRollingFileNameProvider {
    file_name_prefix: Option<String>,
    file_name_suffix: Option<String>,
    file_name_datetime_format: String,
    prev_file_name_datetime: Option<String>,
    prev_file_name_datetime_hits: u64,
}

impl View for DefaultRollingFileNameProvider {
    type V = NamingState;

    closed spec fn view(&self) -> NamingState {
        NamingState {
            prefix: optional_text(self.file_name_prefix),
            suffix: optional_text(self.file_name_suffix),
            datetime_format: self.file_name_datetime_format@,
            last_datetime: optional_text(self.prev_file_name_datetime),
            hits: self.prev_file_name_datetime_hits as nat,
        }
    }
}

impl DefaultRollingFileNameProvider {
    /// The name for a rollover at an instant that formats to `datetime`.
    /// The first name of a formatted instant is bare; each further one
    /// carries the next number.
    pub fn name_in_bucket(&mut self, datetime: String) -> (name: Result<String, RollingError>)
        ensures
            text_of(name) == old(self)@.named(datetime@),
            final(self)@ == old(self)@.after_naming(datetime@),
    {
        let repeats = match &self.prev_file_name_datetime {
            Some(prev) => *prev == datetime,
            None => false,
        };
        let hits: u64 = if repeats {
            if self.prev_file_name_datetime_hits == u64::MAX {
                return Err(RollingError::NamesExhausted);
            }
            self.prev_file_name_datetime_hits + 1
        } else {
            0
        };
        proof {
            reveal_strlit("");
            reveal_strlit("-");
        }
        let mut name = String::from_str(
            match &self.file_name_prefix {
                Some(prefix) => prefix.as_str(),
                None => "",
            },
        );
        name.append(datetime.as_str());
        if hits != 0 {
            name.append("-");
            name.append(decimal_text(hits).as_str());
        }
        name.append(
            match &self.file_name_suffix {
                Some(suffix) => suffix.as_str(),
                None => "",
            },
        );
        assert(name@ =~= old(self)@.file_name(datetime@, hits as nat));
        self.prev_file_name_datetime = Some(datetime);
        self.prev_file_name_datetime_hits = hits;
        Ok(name)
    }
}

impl RollingFileNameProvider for DefaultRollingFileNameProvider {
    open spec fn judged(&self, file_name: Seq<char>) -> Result<bool, RollingError> {
        Ok(self@.accepts(file_name))
    }

    open spec fn names(
        &self,
        now: int,
        outcome: Result<Seq<char>, RollingError>,
        after: &Self,
    ) -> bool {
        &&& outcome == self@.named_at(now)
        &&& after@ == self@.after_naming_at(now)
    }

    fn acceptable(&self, file_name: &str) -> (answer: Result<bool, RollingError>) {
        if let Some(prefix) = &self.file_name_prefix {
            if !starts_with(file_name, prefix.as_str()) {
                return Ok(false);
            }
        }
        if let Some(suffix) = &self.file_name_suffix {
            if !ends_with(file_name, suffix.as_str()) {
                return Ok(false);
            }
        }
        Ok(true)
    }

    fn next_file_name(&mut self, now: i128) -> (name: Result<String, RollingError>) {
        if !is_flat(self.file_name_datetime_format.as_str()) {
            return Err(RollingError::InvalidFormat);
        }
        match format_utc(now, self.file_name_datetime_format.as_str()) {
            Ok(datetime) => self.name_in_bucket(datetime),
            Err(e) => Err(e),
        }
    }
}

/// The builder's settings as a value.
pub struct NamingSettings {
    pub prefix: Option<Seq<char>>,
    pub suffix: Option<Seq<char>>,
    pub datetime_format: Option<Seq<char>>,
}

/// Collects the settings of a [`DefaultRollingFileNameProvider`].
#[derive(Debug)]
pub struct DefaultRollingFileNameProviderBuilder {
    file_name_suffix: Option<String>,
    file_name_prefix: Option<String>,
    file_name_datetime_format: Option<String>,
}

impl View for DefaultRollingFileNameProviderBuilder {
    type V = NamingSettings;

    closed spec fn view(&self) -> NamingSettings {
        NamingSettings {
            prefix: optional_text(self.file_name_prefix),
            suffix: optional_text(self.file_name_suffix),
            datetime_format: optional_text(self.file_name_datetime_format),
        }
    }
}

impl Default for DefaultRollingFileNameProviderBuilder {
    /// A builder with nothing set.
    fn default() -> (builder: Self)
        ensures
            builder@ == (NamingSettings { prefix: None, suffix: None, datetime_format: None }),
    {
        DefaultRollingFileNameProviderBuilder {
            file_name_suffix: None,
            file_name_prefix: None,
            file_name_datetime_format: None,
        }
    }
}

impl DefaultRollingFileNameProviderBuilder {
    /// Every name begins with `prefix`.
    pub fn file_name_prefix(self, prefix: &str) -> (builder: Self)
        ensures
            builder@ == (NamingSettings { prefix: Some(prefix@), ..self@ }),
    {
        let mut builder = self;
        builder.file_name_prefix = Some(String::from_str(prefix));
        builder
    }

    /// Every name ends with `suffix`.
    pub fn file_name_suffix(self, suffix: &str) -> (builder: Self)
        ensures
            builder@ == (NamingSettings { suffix: Some(suffix@), ..self@ }),
    {
        let mut builder = self;
        builder.file_name_suffix = Some(String::from_str(suffix));
        builder
    }

    /// The instant of a rollover is written as `format` describes.
    pub fn file_name_datetime_format(self, format: &str) -> (builder: Self)
        ensures
            builder@ == (NamingSettings { datetime_format: Some(format@), ..self@ }),
    {
        let mut builder = self;
        builder.file_name_datetime_format = Some(String::from_str(format));
        builder
    }

    /// The policy with these settings, which has given no name yet.
    pub fn finish(self) -> (provider: DefaultRollingFileNameProvider)
        ensures
            provider@ == (NamingState {
                prefix: self@.prefix,
                suffix: self@.suffix,
                datetime_format: match self@.datetime_format {
                    Some(format) => format,
                    None => default_datetime_format(),
                },
                last_datetime: None,
                hits: 0,
            }),
    {
        let format = match self.file_name_datetime_format {
            Some(format) => format,
            None => String::from_str("[year][month][day]T[hour][minute][second]"),
        };
        DefaultRollingFileNameProvider {
            file_name_prefix: self.file_name_prefix,
            file_name_suffix: self.file_name_suffix,
            file_name_datetime_format: format,
            prev_file_name_datetime: None,
            prev_file_name_datetime_hits: 0,
        }
    }
}

/// Names within one formatted instant: the first is the bare date between
/// prefix and suffix, the second carries `-1`, the third `-2`.
pub proof fn lemma_names_within_one_instant(policy: NamingState, datetime: Seq<char>)
    requires
        policy.last_datetime != Some(datetime),
    ensures
        ({
            let second = policy.after_naming(datetime);
            let third = second.after_naming(datetime);
            &&& policy.named(datetime) == Ok::<Seq<char>, RollingError>(
                policy.fixed_prefix() + datetime + policy.fixed_suffix(),
            )
            &&& second.named(datetime) == Ok::<Seq<char>, RollingError>(
                policy.fixed_prefix() + datetime + "-1"@ + policy.fixed_suffix(),
            )
            &&& third.named(datetime) == Ok::<Seq<char>, RollingError>(
                policy.fixed_prefix() + datetime + "-2"@ + policy.fixed_suffix(),
            )
        }),
{
    reveal_strlit("-1");
    reveal_strlit("-2");
    reveal_with_fuel(decimal, 2);
    assert(counter(0) =~= Seq::<char>::empty());
    assert(counter(1) =~= "-1"@);
    assert(counter(2) =~= "-2"@);
    assert(policy.fixed_prefix() + datetime + Seq::<char>::empty() =~= policy.fixed_prefix()
        + datetime);
}

/// Each further name within one formatted instant carries the next number.
pub proof fn lemma_names_count_up(policy: NamingState, datetime: Seq<char>)
    requires
        policy.last_datetime == Some(datetime),
        policy.hits < u64::MAX,
    ensures
        policy.named(datetime) == Ok::<Seq<char>, RollingError>(
            policy.file_name(datetime, policy.hits + 1),
        ),
        policy.after_naming(datetime).last_datetime == Some(datetime),
        policy.after_naming(datetime).hits == policy.hits + 1,
{
}

} // verus!
