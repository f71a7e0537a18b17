use rolling_writer::error::ConfigError;
use rolling_writer::error::RollingError;
use rolling_writer::file::FileOpenOptions;
use rolling_writer::file::FileStat;
use rolling_writer::rolling::condition::RollingBy;
use rolling_writer::rolling::condition::RollingByDuration;
use rolling_writer::rolling::condition::RollingBySize;
use rolling_writer::rolling::naming::DefaultRollingFileNameProvider;
use rolling_writer::rolling::naming::DefaultRollingFileNameProviderBuilder;
use rolling_writer::rolling::retention::DirectoryEntry;
use rolling_writer::rolling::Action;
use rolling_writer::rolling::Event;
use rolling_writer::rolling::Phase;
use rolling_writer::rolling::RollingFile;
use rolling_writer::rolling::RollingFileBuilder;

/// 2019-01-01 00:00:00 UTC.
const NEW_YEAR: i128 = 1_546_300_800_000_000_000;
const SECOND: i128 = 1_000_000_000;

type BySize = RollingFile<DefaultRollingFileNameProvider, RollingBySize>;
type ByDuration = RollingFile<DefaultRollingFileNameProvider, RollingByDuration>;

fn app_log() -> DefaultRollingFileNameProvider {
    DefaultRollingFileNameProviderBuilder::default()
        .file_name_prefix("app-")
        .file_name_suffix(".log")
        .finish()
}

fn by_size(threshold: usize, max_file_count: Option<usize>) -> BySize {
    let builder = RollingFileBuilder::new()
        .directory("logs")
        .file_name_provider(app_log())
        .rolling_condition(RollingBySize::new(threshold).unwrap());
    match max_file_count {
        Some(count) => builder.max_file_count(count).finish().unwrap(),
        None => builder.finish().unwrap(),
    }
}

/// A directory as the engine's owner would keep it: names with creation
/// time and length, in the order of creation.
struct Directory {
    files: Vec<(String, i128, usize)>,
    active: Option<usize>,
}

impl Directory {
    fn new() -> Self {
        Directory { files: Vec::new(), active: None }
    }

    fn names(&self) -> Vec<&str> {
        self.files.iter().map(|f| f.0.as_str()).collect()
    }

    /// Appends `bytes` bytes at the instant `now`, doing what the engine
    /// asks; returns the actions in the order in which they were asked.
    fn append<C: rolling_writer::rolling::condition::RollingCondition>(
        &mut self,
        engine: &mut RollingFile<DefaultRollingFileNameProvider, C>,
        now: i128,
        bytes: usize,
    ) -> Result<Vec<String>, RollingError> {
        let mut log = Vec::new();
        let mut action = engine.step_at(Event::Append, now)?;
        loop {
            let event = match action {
                Action::Flush => {
                    log.push("flush".to_string());
                    Event::Flushed
                }
                Action::Open { file_name, truncate } => {
                    log.push(format!("open {file_name}"));
                    self.active = None;
                    let at = match self.files.iter().position(|f| f.0 == file_name) {
                        Some(at) => {
                            if truncate {
                                self.files[at].2 = 0;
                            }
                            at
                        }
                        None => {
                            self.files.push((file_name, now, 0));
                            self.files.len() - 1
                        }
                    };
                    self.active = Some(at);
                    Event::Opened(FileStat::new(self.files[at].1, self.files[at].2))
                }
                Action::List => {
                    log.push("list".to_string());
                    Event::Listed(
                        self.files.iter().map(|f| DirectoryEntry::new(&f.0, true, Some(f.1))).collect(),
                    )
                }
                Action::Remove(removed) => {
                    log.push(format!("remove {removed:?}"));
                    let gone: Vec<String> =
                        removed.iter().map(|&i| self.files[i].0.clone()).collect();
                    let active = self.active.map(|at| self.files[at].0.clone());
                    self.files.retain(|f| !gone.contains(&f.0));
                    self.active =
                        active.and_then(|name| self.files.iter().position(|f| f.0 == name));
                    Event::Removed
                }
                Action::Write => {
                    log.push("write".to_string());
                    let at = self.active.unwrap();
                    self.files[at].2 += bytes;
                    Event::Written(bytes)
                }
                Action::Done => return Ok(log),
            };
            action = engine.step_at(event, now)?;
        }
    }
}

#[test]
fn no_engine_without_a_naming_policy() {
    let builder: RollingFileBuilder<DefaultRollingFileNameProvider, RollingBySize> =
        RollingFileBuilder::new();
    assert!(matches!(builder.finish(), Err(ConfigError::MissingFileNameProvider)));
    let builder: RollingFileBuilder<DefaultRollingFileNameProvider, RollingBySize> =
        RollingFileBuilder::new();
    let builder = builder
        .directory("logs")
        .max_file_count(3)
        .file_open_options(FileOpenOptions::new(true))
        .rolling_condition(RollingBySize::new(1).unwrap());
    assert!(matches!(builder.finish(), Err(ConfigError::MissingFileNameProvider)));
}

#[test]
fn a_new_engine_has_its_settings_and_no_file() {
    let engine = by_size(10, Some(2));
    assert_eq!(engine.directory(), "logs");
    assert_eq!(engine.max_file_count(), Some(2));
    assert_eq!(engine.stat(), None);
    assert_eq!(engine.phase(), Phase::Idle);
}

#[test]
fn a_new_engine_has_defaults_where_nothing_is_set() {
    let builder: RollingFileBuilder<DefaultRollingFileNameProvider, RollingBySize> =
        RollingFileBuilder::new();
    let mut engine = builder.file_name_provider(app_log()).finish().unwrap();
    assert_eq!(engine.directory(), ".");
    assert_eq!(engine.max_file_count(), None);
    match engine.step_at(Event::Append, NEW_YEAR) {
        Ok(Action::Open { file_name, truncate }) => {
            assert_eq!(file_name, "app-20190101T000000.log");
            assert!(!truncate);
        }
        other => panic!("{other:?}"),
    }
}

#[test]
fn open_options_reach_the_open_action() {
    let builder: RollingFileBuilder<DefaultRollingFileNameProvider, RollingBySize> =
        RollingFileBuilder::new();
    let mut engine = builder
        .file_name_provider(app_log())
        .file_open_options(FileOpenOptions::new(true))
        .finish()
        .unwrap();
    match engine.step_at(Event::Append, NEW_YEAR) {
        Ok(Action::Open { truncate, .. }) => assert!(truncate),
        other => panic!("{other:?}"),
    }
}

#[test]
fn rollover_is_due_while_no_file_is_open() {
    let engine = by_size(10, None);
    assert_eq!(engine.should_roll_at(NEW_YEAR), Ok(true));
    assert_eq!(engine.should_roll_at(i128::MIN), Ok(true));
    assert_eq!(engine.should_roll(), Ok(true));
}

#[test]
fn three_writes_of_five_bytes_with_a_threshold_of_ten() {
    let mut engine = by_size(10, Some(2));
    let mut directory = Directory::new();

    let log = directory.append(&mut engine, NEW_YEAR, 5).unwrap();
    assert_eq!(log, ["open app-20190101T000000.log", "list", "remove []", "write"]);
    assert_eq!(engine.stat(), Some(FileStat::new(NEW_YEAR, 5)));
    assert_eq!(directory.files, [("app-20190101T000000.log".to_string(), NEW_YEAR, 5)]);

    let log = directory.append(&mut engine, NEW_YEAR + SECOND, 5).unwrap();
    assert_eq!(log, ["write"]);
    assert_eq!(engine.stat(), Some(FileStat::new(NEW_YEAR, 10)));

    let log = directory.append(&mut engine, NEW_YEAR + 2 * SECOND, 5).unwrap();
    assert_eq!(log, ["flush", "open app-20190101T000002.log", "list", "remove []", "write"]);
    assert_eq!(engine.stat(), Some(FileStat::new(NEW_YEAR + 2 * SECOND, 5)));
    assert_eq!(
        directory.files,
        [
            ("app-20190101T000000.log".to_string(), NEW_YEAR, 10),
            ("app-20190101T000002.log".to_string(), NEW_YEAR + 2 * SECOND, 5),
        ]
    );
    assert_eq!(engine.phase(), Phase::Idle);
}

#[test]
fn writes_that_fire_no_condition_fill_one_file() {
    let mut engine = by_size(1_000, Some(2));
    let mut directory = Directory::new();
    let writes = [3usize, 0, 40, 7, 100, 1];
    let mut total = 0;
    for (i, &bytes) in writes.iter().enumerate() {
        let log = directory.append(&mut engine, NEW_YEAR + i as i128 * SECOND, bytes).unwrap();
        if i > 0 {
            assert_eq!(log, ["write"]);
        }
        total += bytes;
        assert_eq!(engine.stat(), Some(FileStat::new(NEW_YEAR, total)));
    }
    assert_eq!(total, 151);
    assert_eq!(directory.files, [("app-20190101T000000.log".to_string(), NEW_YEAR, 151)]);
}

#[test]
fn an_engine_without_conditions_rolls_once() {
    let builder: RollingFileBuilder<DefaultRollingFileNameProvider, RollingBySize> =
        RollingFileBuilder::new();
    let mut engine = builder.file_name_provider(app_log()).finish().unwrap();
    let mut directory = Directory::new();
    let log = directory.append(&mut engine, NEW_YEAR, 5).unwrap();
    assert_eq!(log, ["open app-20190101T000000.log", "write"]);
    for i in 1..20 {
        let log = directory.append(&mut engine, NEW_YEAR + i * 86_400 * SECOND, 1_000).unwrap();
        assert_eq!(log, ["write"]);
    }
    assert_eq!(directory.names(), ["app-20190101T000000.log"]);
    assert_eq!(engine.stat(), Some(FileStat::new(NEW_YEAR, 19_005)));
}

#[test]
fn a_full_file_is_left_before_the_next_write() {
    let mut engine = by_size(10, None);
    let mut directory = Directory::new();
    directory.append(&mut engine, NEW_YEAR, 25).unwrap();
    assert_eq!(engine.should_roll_at(NEW_YEAR), Ok(true));
    assert!(matches!(engine.step_at(Event::Append, NEW_YEAR + SECOND), Ok(Action::Flush)));
    assert_eq!(engine.stat(), Some(FileStat::new(NEW_YEAR, 25)));
    assert_eq!(engine.phase(), Phase::Flushing);
    match engine.step_at(Event::Flushed, NEW_YEAR + SECOND) {
        Ok(Action::Open { file_name, .. }) => assert_eq!(file_name, "app-20190101T000001.log"),
        other => panic!("{other:?}"),
    }
    assert_eq!(engine.stat(), None);
    assert_eq!(engine.phase(), Phase::Opening);
    let opened = FileStat::new(NEW_YEAR + SECOND, 0);
    assert!(matches!(
        engine.step_at(Event::Opened(opened), NEW_YEAR + SECOND),
        Ok(Action::Write)
    ));
    assert_eq!(engine.stat(), Some(opened));
    assert!(matches!(engine.step_at(Event::Written(4), NEW_YEAR + SECOND), Ok(Action::Done)));
    assert_eq!(engine.stat(), Some(FileStat::new(NEW_YEAR + SECOND, 4)));
}

#[test]
fn a_leftover_file_counts_with_the_size_it_has() {
    let mut engine = by_size(10, None);
    assert!(matches!(engine.step_at(Event::Append, NEW_YEAR), Ok(Action::Open { .. })));
    let leftover = FileStat::new(NEW_YEAR - 3_600 * SECOND, 7);
    assert!(matches!(engine.step_at(Event::Opened(leftover), NEW_YEAR), Ok(Action::Write)));
    assert_eq!(engine.stat(), Some(leftover));
    assert!(matches!(engine.step_at(Event::Written(3), NEW_YEAR), Ok(Action::Done)));
    assert_eq!(engine.stat(), Some(FileStat::new(NEW_YEAR - 3_600 * SECOND, 10)));
    assert!(matches!(engine.step_at(Event::Append, NEW_YEAR), Ok(Action::Flush)));
}

#[test]
fn a_leftover_file_that_is_full_is_left_at_once() {
    let mut engine = by_size(10, None);
    assert!(matches!(engine.step_at(Event::Append, NEW_YEAR), Ok(Action::Open { .. })));
    let leftover = FileStat::new(NEW_YEAR - 3_600 * SECOND, 10);
    assert!(matches!(engine.step_at(Event::Opened(leftover), NEW_YEAR), Ok(Action::Flush)));
    match engine.step_at(Event::Flushed, NEW_YEAR) {
        Ok(Action::Open { file_name, .. }) => assert_eq!(file_name, "app-20190101T000000-1.log"),
        other => panic!("{other:?}"),
    }
}

#[test]
fn an_old_file_is_left_whatever_its_length() {
    let builder: RollingFileBuilder<DefaultRollingFileNameProvider, RollingByDuration> =
        RollingFileBuilder::new();
    let mut engine: ByDuration = builder
        .file_name_provider(app_log())
        .rolling_condition(RollingByDuration::new(3_600 * SECOND as u128).unwrap())
        .finish()
        .unwrap();
    let mut directory = Directory::new();
    let log = directory.append(&mut engine, NEW_YEAR, 0).unwrap();
    assert_eq!(log, ["open app-20190101T000000.log", "write"]);
    let log = directory.append(&mut engine, NEW_YEAR + 3_600 * SECOND - 1, 1_000_000).unwrap();
    assert_eq!(log, ["write"]);
    let log = directory.append(&mut engine, NEW_YEAR + 3_600 * SECOND, 1).unwrap();
    assert_eq!(log, ["flush", "open app-20190101T010000.log", "write"]);
    assert_eq!(engine.stat(), Some(FileStat::new(NEW_YEAR + 3_600 * SECOND, 1)));
    assert_eq!(directory.names(), ["app-20190101T000000.log", "app-20190101T010000.log"]);
}

#[test]
fn any_of_several_conditions_is_enough() {
    let builder: RollingFileBuilder<DefaultRollingFileNameProvider, RollingBySize> =
        RollingFileBuilder::new();
    let mut engine = builder
        .file_name_provider(app_log())
        .rolling_condition(RollingBySize::new(100).unwrap())
        .rolling_condition(RollingBySize::new(10).unwrap())
        .rolling_condition(RollingBySize::new(1_000).unwrap())
        .finish()
        .unwrap();
    let mut directory = Directory::new();
    directory.append(&mut engine, NEW_YEAR, 9).unwrap();
    assert_eq!(engine.should_roll_at(NEW_YEAR), Ok(false));
    directory.append(&mut engine, NEW_YEAR, 1).unwrap();
    assert_eq!(engine.should_roll_at(NEW_YEAR), Ok(true));
}

#[test]
fn pruning_keeps_the_newest_files_after_each_rollover() {
    let mut engine = by_size(1, Some(2));
    let mut directory = Directory::new();
    directory.files.push(("notes.txt".to_string(), 1, 50));
    directory.files.push(("app-20181231T235958.log".to_string(), NEW_YEAR - 2 * SECOND, 9));
    directory.files.push(("app-20181231T235959.log".to_string(), NEW_YEAR - SECOND, 9));
    directory.files.push(("app-20181231T235957.log".to_string(), NEW_YEAR - 3 * SECOND, 9));

    let log = directory.append(&mut engine, NEW_YEAR, 5).unwrap();
    assert_eq!(log, ["open app-20190101T000000.log", "list", "remove [1, 3]", "write"]);
    assert_eq!(
        directory.names(),
        ["notes.txt", "app-20181231T235959.log", "app-20190101T000000.log"]
    );

    let log = directory.append(&mut engine, NEW_YEAR + SECOND, 5).unwrap();
    assert_eq!(log, ["flush", "open app-20190101T000001.log", "list", "remove [1]", "write"]);
    assert_eq!(
        directory.names(),
        ["notes.txt", "app-20190101T000000.log", "app-20190101T000001.log"]
    );
    assert_eq!(engine.stat(), Some(FileStat::new(NEW_YEAR + SECOND, 5)));
}

#[test]
fn a_listing_that_cannot_be_ranked_ends_the_append() {
    let mut engine = by_size(10, Some(1));
    assert!(matches!(engine.step_at(Event::Append, NEW_YEAR), Ok(Action::Open { .. })));
    let opened = FileStat::new(NEW_YEAR, 0);
    assert!(matches!(engine.step_at(Event::Opened(opened), NEW_YEAR), Ok(Action::List)));
    let entries = vec![
        DirectoryEntry::new("app-20190101T000000.log", true, Some(NEW_YEAR)),
        DirectoryEntry::new("app-old.log", true, None),
    ];
    assert_eq!(
        engine.step_at(Event::Listed(entries), NEW_YEAR).unwrap_err(),
        RollingError::CreationTimeUnknown(1)
    );
    assert_eq!(engine.phase(), Phase::Idle);
    assert_eq!(engine.stat(), Some(opened));
    assert!(matches!(engine.step_at(Event::Append, NEW_YEAR), Ok(Action::Write)));
}

#[test]
fn a_name_that_cannot_be_made_leaves_no_file_open() {
    let provider = DefaultRollingFileNameProviderBuilder::default()
        .file_name_datetime_format("[year")
        .finish();
    let builder: RollingFileBuilder<DefaultRollingFileNameProvider, RollingBySize> =
        RollingFileBuilder::new();
    let mut engine = builder.file_name_provider(provider).finish().unwrap();
    assert_eq!(engine.step_at(Event::Append, NEW_YEAR).unwrap_err(), RollingError::InvalidFormat);
    assert_eq!(engine.stat(), None);
    assert_eq!(engine.phase(), Phase::Idle);
    assert_eq!(engine.roll_at(NEW_YEAR).unwrap_err(), RollingError::InvalidFormat);
    assert_eq!(engine.step_at(Event::Append, NEW_YEAR).unwrap_err(), RollingError::InvalidFormat);
}

#[test]
fn a_failed_naming_after_the_flush_closes_the_file() {
    let mut engine = by_size(10, None);
    let mut directory = Directory::new();
    directory.append(&mut engine, NEW_YEAR, 10).unwrap();
    assert!(matches!(engine.step_at(Event::Append, i128::MAX), Ok(Action::Flush)));
    assert_eq!(
        engine.step_at(Event::Flushed, i128::MAX).unwrap_err(),
        RollingError::TimestampOutOfRange
    );
    assert_eq!(engine.stat(), None);
    assert_eq!(engine.phase(), Phase::Idle);
    match engine.step_at(Event::Append, NEW_YEAR + SECOND) {
        Ok(Action::Open { file_name, .. }) => assert_eq!(file_name, "app-20190101T000001.log"),
        other => panic!("{other:?}"),
    }
}

#[test]
fn events_out_of_turn_are_refused() {
    let mut engine = by_size(10, Some(1));
    for _ in 0..2 {
        assert_eq!(
            engine.step_at(Event::Flushed, NEW_YEAR).unwrap_err(),
            RollingError::UnexpectedEvent
        );
        assert_eq!(
            engine.step_at(Event::Opened(FileStat::new(0, 0)), NEW_YEAR).unwrap_err(),
            RollingError::UnexpectedEvent
        );
        assert_eq!(
            engine.step_at(Event::Listed(vec![]), NEW_YEAR).unwrap_err(),
            RollingError::UnexpectedEvent
        );
        assert_eq!(
            engine.step_at(Event::Removed, NEW_YEAR).unwrap_err(),
            RollingError::UnexpectedEvent
        );
        assert_eq!(
            engine.step_at(Event::Written(1), NEW_YEAR).unwrap_err(),
            RollingError::UnexpectedEvent
        );
        assert_eq!(engine.stat(), None);
        assert_eq!(engine.phase(), Phase::Idle);
    }
    assert!(matches!(engine.step_at(Event::Append, NEW_YEAR), Ok(Action::Open { .. })));
    assert_eq!(
        engine.step_at(Event::Written(1), NEW_YEAR).unwrap_err(),
        RollingError::UnexpectedEvent
    );
    assert_eq!(engine.phase(), Phase::Opening);
}

#[test]
fn listing_is_not_asked_for_without_a_limit() {
    let mut engine = by_size(10, None);
    assert!(matches!(engine.step_at(Event::Append, NEW_YEAR), Ok(Action::Open { .. })));
    assert!(matches!(
        engine.step_at(Event::Opened(FileStat::new(NEW_YEAR, 0)), NEW_YEAR),
        Ok(Action::Write)
    ));
    assert_eq!(
        engine.step_at(Event::Listed(vec![]), NEW_YEAR).unwrap_err(),
        RollingError::UnexpectedEvent
    );
}

#[test]
fn an_append_starts_afresh_after_a_failure_outside() {
    let mut engine = by_size(10, Some(1));
    assert!(matches!(engine.step_at(Event::Append, NEW_YEAR), Ok(Action::Open { .. })));
    match engine.step_at(Event::Append, NEW_YEAR) {
        Ok(Action::Open { file_name, .. }) => assert_eq!(file_name, "app-20190101T000000-1.log"),
        other => panic!("{other:?}"),
    }
    assert!(matches!(
        engine.step_at(Event::Opened(FileStat::new(NEW_YEAR, 0)), NEW_YEAR),
        Ok(Action::List)
    ));
    assert!(matches!(engine.step_at(Event::Append, NEW_YEAR), Ok(Action::Write)));
}

#[test]
fn a_length_beyond_the_range_is_refused() {
    let mut engine = by_size(usize::MAX, None);
    assert!(matches!(engine.step_at(Event::Append, NEW_YEAR), Ok(Action::Open { .. })));
    let nearly_full = FileStat::new(NEW_YEAR, usize::MAX - 1);
    assert!(matches!(engine.step_at(Event::Opened(nearly_full), NEW_YEAR), Ok(Action::Write)));
    assert_eq!(
        engine.step_at(Event::Written(2), NEW_YEAR).unwrap_err(),
        RollingError::FileTooLong
    );
    assert_eq!(engine.stat(), Some(nearly_full));
    assert!(matches!(engine.step_at(Event::Append, NEW_YEAR), Ok(Action::Write)));
    assert!(matches!(engine.step_at(Event::Written(1), NEW_YEAR), Ok(Action::Done)));
    assert_eq!(engine.stat(), Some(FileStat::new(NEW_YEAR, usize::MAX)));
}

#[test]
fn roll_begins_a_rollover_whatever_the_conditions_say() {
    let mut engine = by_size(1_000, None);
    let mut directory = Directory::new();
    directory.append(&mut engine, NEW_YEAR, 1).unwrap();
    assert_eq!(engine.should_roll_at(NEW_YEAR), Ok(false));
    assert!(matches!(engine.roll_at(NEW_YEAR), Ok(Action::Flush)));
    assert_eq!(engine.phase(), Phase::Flushing);
    match engine.step_at(Event::Flushed, NEW_YEAR) {
        Ok(Action::Open { file_name, .. }) => assert_eq!(file_name, "app-20190101T000000-1.log"),
        other => panic!("{other:?}"),
    }
}

#[test]
fn the_engine_reads_the_clock_itself() {
    let mut engine = by_size(10, None);
    let file_name = match engine.step(Event::Append) {
        Ok(Action::Open { file_name, .. }) => file_name,
        other => panic!("{other:?}"),
    };
    assert!(file_name.starts_with("app-2"));
    assert_eq!(file_name.len(), "app-".len() + 15 + ".log".len());
    assert!(matches!(engine.step(Event::Opened(FileStat::new(0, 10))), Ok(Action::Flush)));
    assert!(matches!(engine.step(Event::Flushed), Ok(Action::Open { .. })));
    assert!(matches!(engine.step(Event::Opened(FileStat::new(0, 0))), Ok(Action::Write)));
    assert!(matches!(engine.step(Event::Written(3)), Ok(Action::Done)));
    assert_eq!(engine.should_roll(), Ok(false));
    assert!(matches!(engine.roll(), Ok(Action::Flush)));
}

#[test]
fn size_and_age_together() {
    let builder: RollingFileBuilder<DefaultRollingFileNameProvider, RollingBy> =
        RollingFileBuilder::new();
    let mut engine = builder
        .file_name_provider(app_log())
        .rolling_condition(RollingBy::Size(RollingBySize::new(10).unwrap()))
        .rolling_condition(RollingBy::Duration(RollingByDuration::new(60 * SECOND as u128).unwrap()))
        .finish()
        .unwrap();
    let mut directory = Directory::new();
    let log = directory.append(&mut engine, NEW_YEAR, 4).unwrap();
    assert_eq!(log, ["open app-20190101T000000.log", "write"]);
    let log = directory.append(&mut engine, NEW_YEAR + 59 * SECOND, 6).unwrap();
    assert_eq!(log, ["write"]);
    let log = directory.append(&mut engine, NEW_YEAR + 59 * SECOND, 1).unwrap();
    assert_eq!(log, ["flush", "open app-20190101T000059.log", "write"]);
    let log = directory.append(&mut engine, NEW_YEAR + 118 * SECOND, 1).unwrap();
    assert_eq!(log, ["write"]);
    let log = directory.append(&mut engine, NEW_YEAR + 119 * SECOND, 1).unwrap();
    assert_eq!(log, ["flush", "open app-20190101T000159.log", "write"]);
    assert_eq!(engine.stat(), Some(FileStat::new(NEW_YEAR + 119 * SECOND, 1)));
}
