//! The rotation engine: when to leave the active file, what follows what
//! during a rollover, and which files go afterwards.
//!
//! The engine never touches a file. It answers each [`Event`] with the
//! [`Action`] that the owner of the file handle has to perform next, and
//! expects the event that reports it.
use crate::clock::utc_now;
use crate::error::ConfigError;
use crate::error::RollingError;
use crate::file::FileOpenOptions;
use crate::file::FileStat;
use crate::rolling::condition::RollingCondition;
use crate::rolling::naming::optional_text;
use crate::rolling::naming::RollingFileNameProvider;
use crate::rolling::retention::expired;
use crate::rolling::retention::faultless;
use crate::rolling::retention::is_expired;
use crate::rolling::retention::is_first_fault;
use crate::rolling::retention::DirectoryEntry;
use vstd::prelude::*;
use vstd::string::StringExecFns;

pub mod condition;
pub mod laws;
pub mod naming;
pub mod retention;

verus! {

/// What the engine waits for.
#[derive(Clone, Copy, Debug, PartialEq, Eq, Structural)]
pub enum Phase {
    /// Nothing is under way.
    Idle,
    /// The active file is being flushed before it is left.
    Flushing,
    /// The next file is being opened; no file is open.
    Opening,
    /// The directory is being listed for pruning.
    Listing,
    /// Files that outlived the limit are being deleted.
    Removing,
    /// Bytes are being written to the active file.
    Writing,
}

/// What has happened outside the engine.
#[derive(Debug)]
pub enum Event {
    /// Bytes are waiting to be written.
    Append,
    /// The active file's buffer has reached the file, and its handle is
    /// released.
    Flushed,
    /// The file named by the engine is open, with this creation time and
    /// size.
    Opened(FileStat),
    /// The directory holds these entries.
    Listed(Vec<DirectoryEntry>),
    /// The files chosen for deletion are gone.
    Removed,
    /// The active file has accepted this many of the waiting bytes.
    Written(usize),
}

/// What the owner of the file handle has to do next.
#[derive(Debug)]
pub enum Action {
    /// Flush the active file and release its handle, then report
    /// [`Event::Flushed`]. Where the flush fails, keep the handle and report
    /// nothing.
    Flush,
    /// Make sure the directory exists, open the file of this name in it
    /// (emptying it where `truncate` is set, else appending to it), then
    /// report [`Event::Opened`].
    Open { file_name: String, truncate: bool },
    /// List the directory, then report [`Event::Listed`].
    List,
    /// Delete the entries at these places of the listing, in this order,
    /// then report [`Event::Removed`].
    Remove(Vec<usize>),
    /// Write the waiting bytes to the active file, then report
    /// [`Event::Written`].
    Write,
    /// Nothing: the bytes are written.
    Done,
}

/// An [`Action`] by what it holds.
pub enum ActionView {
    Flush,
    Open { file_name: Seq<char>, truncate: bool },
    List,
    Remove(Seq<usize>),
    Write,
    Done,
}

impl View for Action {
    type V = ActionView;

    open spec fn view(&self) -> ActionView {
        match self {
            Action::Flush => ActionView::Flush,
            Action::Open { file_name, truncate } => ActionView::Open {
                file_name: file_name@,
                truncate: *truncate,
            },
            Action::List => ActionView::List,
            Action::Remove(removed) => ActionView::Remove(removed@),
            Action::Write => ActionView::Write,
            Action::Done => ActionView::Done,
        }
    }
}

/// The answer to an event, by what it holds.
pub open spec fn answer_of(answer: Result<Action, RollingError>) -> Result<
    ActionView,
    RollingError,
> {
    match answer {
        Ok(action) => Ok(action@),
        Err(e) => Err(e),
    }
}

/// What the conditions say together of a file in state `stat` at the
/// instant `now`: they are asked in order, and the first that does not
/// answer "no" decides, be it with "yes" or with an error.
pub open spec fn first_verdict<C: RollingCondition>(
    conditions: Seq<C>,
    stat: FileStat,
    now: int,
) -> Result<bool, RollingError>
    decreases conditions.len(),
{
    if conditions.len() == 0 {
        Ok(false)
    } else {
        match conditions[0].verdict(stat, now) {
            Ok(false) => first_verdict(conditions.drop_first(), stat, now),
            decided => decided,
        }
    }
}

/// The engine as a value.
pub struct RollingFileView<T, C> {
    /// The active file, if one is open.
    pub file: Option<FileStat>,
    pub directory: Seq<char>,
    pub file_name_provider: T,
    pub truncate: bool,
    pub max_file_count: Option<usize>,
    pub rolling_conditions: Seq<C>,
    pub phase: Phase,
}

impl<T: RollingFileNameProvider, C: RollingCondition> RollingFileView<T, C> {
    /// Whether a rollover is due at the instant `now`: always while no file
    /// is open, else where a condition says so.
    pub open spec fn should_roll(self, now: int) -> Result<bool, RollingError> {
        match self.file {
            None => Ok(true),
            Some(stat) => first_verdict(self.rolling_conditions, stat, now),
        }
    }

    /// The phase fits the active file: none is open while the next is being
    /// opened, and one is open while it is flushed or written to and while
    /// the directory is pruned.
    pub open spec fn well_formed(self) -> bool {
        match self.phase {
            Phase::Idle => true,
            Phase::Opening => self.file is None,
            _ => self.file is Some,
        }
    }

    /// The engine with another active file, in another phase.
    pub open spec fn at(self, file: Option<FileStat>, phase: Phase) -> Self {
        RollingFileView { file, phase, ..self }
    }

    /// The engine refuses an event that it did not ask for, and stays as it
    /// is.
    pub open spec fn refusing(self, after: Self, answer: Result<ActionView, RollingError>) -> bool {
        after == self && answer == Err::<ActionView, RollingError>(RollingError::UnexpectedEvent)
    }

    /// With no file open, the engine asks its naming policy for the next
    /// name and has that file opened. Where the policy fails, no file is
    /// open afterwards.
    pub open spec fn naming(
        self,
        now: int,
        after: Self,
        answer: Result<ActionView, RollingError>,
    ) -> bool {
        &&& after == (RollingFileView {
            file: None,
            phase: if answer is Ok {
                Phase::Opening
            } else {
                Phase::Idle
            },
            file_name_provider: after.file_name_provider,
            ..self
        })
        &&& match answer {
            Ok(action) => {
                &&& action matches ActionView::Open { file_name, truncate }
                &&& truncate == self.truncate
                &&& self.file_name_provider.names(
                    now,
                    Ok(file_name),
                    &after.file_name_provider,
                )
            },
            Err(e) => self.file_name_provider.names(now, Err(e), &after.file_name_provider),
        }
    }

    /// A rollover begins with the flush of the active file; where none is
    /// open, with the naming of the next.
    pub open spec fn rolling(
        self,
        now: int,
        after: Self,
        answer: Result<ActionView, RollingError>,
    ) -> bool {
        if self.file is Some {
            after == self.at(self.file, Phase::Flushing) && answer == Ok::<
                ActionView,
                RollingError,
            >(ActionView::Flush)
        } else {
            self.naming(now, after, answer)
        }
    }

    /// Before bytes are written the conditions are asked: a rollover begins
    /// where one is due, the bytes go to the active file where none is, and
    /// nothing happens where a condition fails.
    pub open spec fn settling(
        self,
        now: int,
        after: Self,
        answer: Result<ActionView, RollingError>,
    ) -> bool {
        match self.should_roll(now) {
            Err(e) => after == self.at(self.file, Phase::Idle) && answer == Err::<
                ActionView,
                RollingError,
            >(e),
            Ok(false) => after == self.at(self.file, Phase::Writing) && answer == Ok::<
                ActionView,
                RollingError,
            >(ActionView::Write),
            Ok(true) => self.rolling(now, after, answer),
        }
    }

    /// With the directory listed, the files beyond the limit are chosen for
    /// deletion; an entry that stops the pruning ends it with nothing
    /// chosen.
    pub open spec fn pruning(
        self,
        entries: Seq<DirectoryEntry>,
        keep: nat,
        after: Self,
        answer: Result<ActionView, RollingError>,
    ) -> bool {
        match answer {
            Ok(action) => {
                &&& action matches ActionView::Remove(removed)
                &&& faultless(&self.file_name_provider, entries)
                &&& is_expired(&self.file_name_provider, entries, keep, removed)
                &&& after == self.at(self.file, Phase::Removing)
            },
            Err(e) => {
                &&& exists|i: int| is_first_fault(&self.file_name_provider, entries, i, e)
                &&& after == self.at(self.file, Phase::Idle)
            },
        }
    }

    /// The bytes that the active file accepted are added to its length.
    pub open spec fn recording(
        self,
        written: usize,
        after: Self,
        answer: Result<ActionView, RollingError>,
    ) -> bool {
        match self.file {
            Some(stat) if stat.len + written <= usize::MAX => {
                &&& after == self.at(Some(stat.grown(written as nat)), Phase::Idle)
                &&& answer == Ok::<ActionView, RollingError>(ActionView::Done)
            },
            _ => {
                &&& after == self.at(self.file, Phase::Idle)
                &&& answer == Err::<ActionView, RollingError>(RollingError::FileTooLong)
            },
        }
    }

    /// How the engine answers `event` at the instant `now`, and what it is
    /// afterwards. `Append` is taken in every phase and starts afresh; every
    /// other event only in the phase that waits for it.
    pub open spec fn steps(
        self,
        event: Event,
        now: int,
        after: Self,
        answer: Result<ActionView, RollingError>,
    ) -> bool {
        match event {
            Event::Append => self.settling(now, after, answer),
            Event::Flushed => if self.phase == Phase::Flushing {
                self.at(None, self.phase).naming(now, after, answer)
            } else {
                self.refusing(after, answer)
            },
            Event::Opened(stat) => if self.phase == Phase::Opening {
                if self.max_file_count is Some {
                    after == self.at(Some(stat), Phase::Listing) && answer == Ok::<
                        ActionView,
                        RollingError,
                    >(ActionView::List)
                } else {
                    self.at(Some(stat), self.phase).settling(now, after, answer)
                }
            } else {
                self.refusing(after, answer)
            },
            Event::Listed(entries) => if self.phase == Phase::Listing && self.max_file_count
                is Some {
                self.pruning(entries@, self.max_file_count->0 as nat, after, answer)
            } else {
                self.refusing(after, answer)
            },
            Event::Removed => if self.phase == Phase::Removing {
                self.settling(now, after, answer)
            } else {
                self.refusing(after, answer)
            },
            Event::Written(written) => if self.phase == Phase::Writing {
                self.recording(written, after, answer)
            } else {
                self.refusing(after, answer)
            },
        }
    }
}

/// The rotation engine: an active file at most, a directory, a naming
/// policy, the way files are opened, a retention limit and the rolling
/// conditions.
#[derive(Debug)]
pub struct RollingFile<T: RollingFileNameProvider, C: RollingCondition> {
    file: Option<FileStat>,
    directory: String,
    file_name_provider: T,
    file_open_options: FileOpenOptions,
    max_file_count: Option<usize>,
    rolling_conditions: Vec<C>,
    phase: Phase,
}

impl<T: RollingFileNameProvider, C: RollingCondition> View for RollingFile<T, C> {
    type V = RollingFileView<T, C>;

    closed spec fn view(&self) -> RollingFileView<T, C> {
        RollingFileView {
            file: self.file,
            directory: self.directory@,
            file_name_provider: self.file_name_provider,
            truncate: self.file_open_options.truncate,
            max_file_count: self.max_file_count,
            rolling_conditions: self.rolling_conditions@,
            phase: self.phase,
        }
    }
}

impl<T: RollingFileNameProvider, C: RollingCondition> RollingFile<T, C> {
    /// The directory that holds the files.
    pub fn directory(&self) -> (directory: &str)
        ensures
            directory@ == self@.directory,
    {
        self.directory.as_str()
    }

    /// The active file, if one is open.
    pub fn stat(&self) -> (stat: Option<FileStat>)
        ensures
            stat == self@.file,
    {
        self.file
    }

    /// The number of files of the rotation that pruning leaves, if it is
    /// limited.
    pub fn max_file_count(&self) -> (limit: Option<usize>)
        ensures
            limit == self@.max_file_count,
    {
        self.max_file_count
    }

    /// What the engine waits for.
    pub fn phase(&self) -> (phase: Phase)
        ensures
            phase == self@.phase,
    {
        self.phase
    }

    /// Whether a rollover is due when the clock reads `now`.
    pub fn should_roll_at(&self, now: i128) -> (due: Result<bool, RollingError>)
        ensures
            due == self@.should_roll(now as int),
    {
        let stat = match self.file {
            None => return Ok(true),
            Some(stat) => stat,
        };
        let ghost conditions = self.rolling_conditions@;
        let mut i: usize = 0;
        assert(conditions.skip(0) =~= conditions);
        while i < self.rolling_conditions.len()
            invariant
                i <= conditions.len(),
                conditions == self.rolling_conditions@,
                self.file == Some(stat),
                first_verdict(conditions, stat, now as int) == first_verdict(
                    conditions.skip(i as int),
                    stat,
                    now as int,
                ),
            decreases conditions.len() - i,
        {
            assert(conditions.skip(i as int).drop_first() =~= conditions.skip(i + 1));
            assert(conditions.skip(i as int)[0] == conditions[i as int]);
            let verdict = self.rolling_conditions[i].should_roll(&stat, now);
            match verdict {
                Ok(false) => {},
                _ => {
                    return verdict;
                },
            }
            i += 1;
        }
        Ok(false)
    }

    /// Whether a rollover is due now. The answer is the one that
    /// [`Self::should_roll_at`] gives for the reading of the clock.
    pub fn should_roll(&self) -> (due: Result<bool, RollingError>)
        ensures
            exists|now: int| due == self@.should_roll(now),
            self@.file is None ==> due == Ok::<bool, RollingError>(true),
    {
        let now = utc_now();
        self.should_roll_at(now)
    }

    /// Asks the naming policy for the next name, with no file open.
    fn open_next_file(&mut self, now: i128) -> (answer: Result<Action, RollingError>)
        ensures
            old(self)@.naming(now as int, final(self)@, answer_of(answer)),
    {
        self.file = None;
        match self.file_name_provider.next_file_name(now) {
            Ok(file_name) => {
                self.phase = Phase::Opening;
                Ok(Action::Open { file_name, truncate: self.file_open_options.truncate })
            },
            Err(e) => {
                self.phase = Phase::Idle;
                Err(e)
            },
        }
    }

    /// Begins a rollover when the clock reads `now`, whatever the
    /// conditions say: the active file has to be flushed; where none is
    /// open, the next file is named and has to be opened.
    pub fn roll_at(&mut self, now: i128) -> (answer: Result<Action, RollingError>)
        ensures
            old(self)@.rolling(now as int, final(self)@, answer_of(answer)),
    {
        if self.file.is_some() {
            self.phase = Phase::Flushing;
            Ok(Action::Flush)
        } else {
            self.open_next_file(now)
        }
    }

    /// Begins a rollover now, as [`Self::roll_at`] does for the reading of
    /// the clock.
    pub fn roll(&mut self) -> (answer: Result<Action, RollingError>)
        ensures
            exists|now: int| old(self)@.rolling(now, final(self)@, answer_of(answer)),
    {
        let now = utc_now();
        self.roll_at(now)
    }

    /// Decides between rolling and writing when the clock reads `now`.
    fn settle(&mut self, now: i128) -> (answer: Result<Action, RollingError>)
        ensures
            old(self)@.settling(now as int, final(self)@, answer_of(answer)),
    {
        match self.should_roll_at(now) {
            Err(e) => {
                self.phase = Phase::Idle;
                Err(e)
            },
            Ok(false) => {
                self.phase = Phase::Writing;
                Ok(Action::Write)
            },
            Ok(true) => self.roll_at(now),
        }
    }

    /// Answers `event` when the clock reads `now`.
    pub fn step_at(&mut self, event: Event, now: i128) -> (answer: Result<Action, RollingError>)
        ensures
            old(self)@.steps(event, now as int, final(self)@, answer_of(answer)),
    {
        match event {
            Event::Append => self.settle(now),
            Event::Flushed => match self.phase {
                Phase::Flushing => self.open_next_file(now),
                _ => Err(RollingError::UnexpectedEvent),
            },
            Event::Opened(stat) => match self.phase {
                Phase::Opening => {
                    self.file = Some(stat);
                    if self.max_file_count.is_some() {
                        self.phase = Phase::Listing;
                        Ok(Action::List)
                    } else {
                        self.settle(now)
                    }
                },
                _ => Err(RollingError::UnexpectedEvent),
            },
            Event::Listed(entries) => match (self.phase, self.max_file_count) {
                (Phase::Listing, Some(keep)) => {
                    match expired(&self.file_name_provider, &entries, keep) {
                        Ok(removed) => {
                            self.phase = Phase::Removing;
                            Ok(Action::Remove(removed))
                        },
                        Err(e) => {
                            self.phase = Phase::Idle;
                            Err(e)
                        },
                    }
                },
                _ => Err(RollingError::UnexpectedEvent),
            },
            Event::Removed => match self.phase {
                Phase::Removing => self.settle(now),
                _ => Err(RollingError::UnexpectedEvent),
            },
            Event::Written(written) => match self.phase {
                Phase::Writing => {
                    self.phase = Phase::Idle;
                    match self.file {
                        Some(stat) => {
                            if written <= usize::MAX - stat.len {
                                let mut stat = stat;
                                stat.record_write(written);
                                self.file = Some(stat);
                                Ok(Action::Done)
                            } else {
                                Err(RollingError::FileTooLong)
                            }
                        },
                        None => Err(RollingError::FileTooLong),
                    }
                },
                _ => Err(RollingError::UnexpectedEvent),
            },
        }
    }

    /// Answers `event` now, as [`Self::step_at`] does for the reading of the
    /// clock.
    pub fn step(&mut self, event: Event) -> (answer: Result<Action, RollingError>)
        ensures
            exists|now: int| old(self)@.steps(event, now, final(self)@, answer_of(answer)),
    {
        let now = utc_now();
        self.step_at(event, now)
    }
}

/// The settings of an engine as a value.
pub struct RollingFileSettings<T, C> {
    pub directory: Option<Seq<char>>,
    pub file_name_provider: Option<T>,
    pub file_open_options: Option<FileOpenOptions>,
    pub max_file_count: Option<usize>,
    pub rolling_conditions: Seq<C>,
}

impl<T: RollingFileNameProvider, C: RollingCondition> RollingFileSettings<T, C> {
    /// The engine that these settings describe, with no file open. The
    /// directory is `.` where none is set; files are appended to where no
    /// way of opening is set.
    pub open spec fn engine(self) -> RollingFileView<T, C>
        recommends
            self.file_name_provider is Some,
    {
        RollingFileView {
            file: None,
            directory: match self.directory {
                Some(directory) => directory,
                None => "."@,
            },
            file_name_provider: self.file_name_provider->0,
            truncate: match self.file_open_options {
                Some(options) => options.truncate,
                None => false,
            },
            max_file_count: self.max_file_count,
            rolling_conditions: self.rolling_conditions,
            phase: Phase::Idle,
        }
    }
}

/// Collects the settings of a [`RollingFile`].
#[derive(Debug)]
pub struct RollingFileBuilder<T: RollingFileNameProvider, C: RollingCondition> {
    directory: Option<String>,
    file_name_provider: Option<T>,
    file_open_options: Option<FileOpenOptions>,
    max_file_count: Option<usize>,
    rolling_conditions: Vec<C>,
}

impl<T: RollingFileNameProvider, C: RollingCondition> View for RollingFileBuilder<T, C> {
    type V = RollingFileSettings<T, C>;

    closed spec fn view(&self) -> RollingFileSettings<T, C> {
        RollingFileSettings {
            directory: optional_text(self.directory),
            file_name_provider: self.file_name_provider,
            file_open_options: self.file_open_options,
            max_file_count: self.max_file_count,
            rolling_conditions: self.rolling_conditions@,
        }
    }
}

impl<T: RollingFileNameProvider, C: RollingCondition> RollingFileBuilder<T, C> {
    /// A builder with nothing set.
    pub fn new() -> (builder: Self)
        ensures
            builder@ == (RollingFileSettings::<T, C> {
                directory: None,
                file_name_provider: None,
                file_open_options: None,
                max_file_count: None,
                rolling_conditions: Seq::empty(),
            }),
    {
        RollingFileBuilder {
            directory: None,
            file_name_provider: None,
            file_open_options: None,
            max_file_count: None,
            rolling_conditions: Vec::new(),
        }
    }

    /// The files live in `directory`.
    pub fn directory(self, directory: &str) -> (builder: Self)
        ensures
            builder@ == (RollingFileSettings { directory: Some(directory@), ..self@ }),
    {
        let mut builder = self;
        builder.directory = Some(String::from_str(directory));
        builder
    }

    /// The files are named by `file_name_provider`.
    pub fn file_name_provider(self, file_name_provider: T) -> (builder: Self)
        ensures
            builder@ == (RollingFileSettings {
                file_name_provider: Some(file_name_provider),
                ..self@
            }),
    {
        let mut builder = self;
        builder.file_name_provider = Some(file_name_provider);
        builder
    }

    /// The files are opened as `options` say.
    pub fn file_open_options(self, options: FileOpenOptions) -> (builder: Self)
        ensures
            builder@ == (RollingFileSettings { file_open_options: Some(options), ..self@ }),
    {
        let mut builder = self;
        builder.file_open_options = Some(options);
        builder
    }

    /// Pruning leaves the `max_file_count` newest files of the rotation.
    pub fn max_file_count(self, max_file_count: usize) -> (builder: Self)
        ensures
            builder@ == (RollingFileSettings { max_file_count: Some(max_file_count), ..self@ }),
    {
        let mut builder = self;
        builder.max_file_count = Some(max_file_count);
        builder
    }

    /// One more condition, asked after those already attached.
    pub fn rolling_condition(self, cond: C) -> (builder: Self)
        ensures
            builder@ == (RollingFileSettings {
                rolling_conditions: self@.rolling_conditions.push(cond),
                ..self@
            }),
    {
        let mut builder = self;
        builder.rolling_conditions.push(cond);
        builder
    }

    /// The engine with these settings. There is none without a naming
    /// policy.
    pub fn finish(self) -> (built: Result<RollingFile<T, C>, ConfigError>)
        ensures
            match built {
                Ok(engine) => self@.file_name_provider is Some && engine@ == self@.engine()
                    && engine@.well_formed(),
                Err(e) => self@.file_name_provider is None && e
                    == ConfigError::MissingFileNameProvider,
            },
    {
        let file_name_provider = match self.file_name_provider {
            Some(file_name_provider) => file_name_provider,
            None => return Err(ConfigError::MissingFileNameProvider),
        };
        let directory = match self.directory {
            Some(directory) => directory,
            None => String::from_str("."),
        };
        let file_open_options = match self.file_open_options {
            Some(options) => options,
            None => FileOpenOptions::default(),
        };
        Ok(
            RollingFile {
                file: None,
                directory,
                file_name_provider,
                file_open_options,
                max_file_count: self.max_file_count,
                rolling_conditions: self.rolling_conditions,
                phase: Phase::Idle,
            },
        )
    }
}

} // verus!
