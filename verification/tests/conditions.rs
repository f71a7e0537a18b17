use rolling_writer::error::ConfigError;
use rolling_writer::file::FileOpenOptions;
use rolling_writer::file::FileStat;
use rolling_writer::rolling::condition::RollingByDuration;
use rolling_writer::rolling::condition::RollingBySize;
use rolling_writer::rolling::condition::RollingCondition;

const SECOND: i128 = 1_000_000_000;

#[test]
fn size_condition_rejects_zero() {
    assert!(matches!(RollingBySize::new(0), Err(ConfigError::ZeroSize)));
}

#[test]
fn duration_condition_rejects_zero() {
    assert!(matches!(RollingByDuration::new(0), Err(ConfigError::ZeroDuration)));
}

#[test]
fn size_condition_accepts_one_byte() {
    let condition = RollingBySize::new(1).unwrap();
    assert_eq!(condition.should_roll(&FileStat::new(0, 0), 0), Ok(false));
    assert_eq!(condition.should_roll(&FileStat::new(0, 1), 0), Ok(true));
}

#[test]
fn size_condition_fires_from_threshold() {
    let condition = RollingBySize::new(10).unwrap();
    assert_eq!(condition.should_roll(&FileStat::new(0, 9), 0), Ok(false));
    assert_eq!(condition.should_roll(&FileStat::new(0, 10), 0), Ok(true));
    assert_eq!(condition.should_roll(&FileStat::new(0, 11), 0), Ok(true));
    assert_eq!(condition.should_roll(&FileStat::new(0, usize::MAX), 0), Ok(true));
}

#[test]
fn size_condition_ignores_the_clock() {
    let condition = RollingBySize::new(10).unwrap();
    assert_eq!(condition.should_roll(&FileStat::new(0, 3), i128::MAX), Ok(false));
    assert_eq!(condition.should_roll(&FileStat::new(i128::MAX, 30), i128::MIN), Ok(true));
}

#[test]
fn duration_condition_fires_from_age() {
    let condition = RollingByDuration::new(60 * SECOND as u128).unwrap();
    let stat = FileStat::new(1_000 * SECOND, 0);
    assert_eq!(condition.should_roll(&stat, 1_000 * SECOND), Ok(false));
    assert_eq!(condition.should_roll(&stat, 1_060 * SECOND - 1), Ok(false));
    assert_eq!(condition.should_roll(&stat, 1_060 * SECOND), Ok(true));
    assert_eq!(condition.should_roll(&stat, 2_000 * SECOND), Ok(true));
}

#[test]
fn duration_condition_ignores_the_length() {
    let condition = RollingByDuration::new(5).unwrap();
    assert_eq!(condition.should_roll(&FileStat::new(0, 0), 5), Ok(true));
    assert_eq!(condition.should_roll(&FileStat::new(0, usize::MAX), 5), Ok(true));
    assert_eq!(condition.should_roll(&FileStat::new(0, usize::MAX), 4), Ok(false));
}

#[test]
fn duration_condition_with_file_from_the_future() {
    let condition = RollingByDuration::new(1).unwrap();
    assert_eq!(condition.should_roll(&FileStat::new(10, 0), 9), Ok(false));
    assert_eq!(condition.should_roll(&FileStat::new(10, 0), 10), Ok(false));
    assert_eq!(condition.should_roll(&FileStat::new(10, 0), 11), Ok(true));
}

#[test]
fn duration_condition_before_the_epoch() {
    let condition = RollingByDuration::new(100).unwrap();
    assert_eq!(condition.should_roll(&FileStat::new(-150, 0), -51), Ok(false));
    assert_eq!(condition.should_roll(&FileStat::new(-150, 0), -50), Ok(true));
    assert_eq!(condition.should_roll(&FileStat::new(-50, 0), 49), Ok(false));
    assert_eq!(condition.should_roll(&FileStat::new(-50, 0), 50), Ok(true));
}

#[test]
fn duration_condition_at_the_ends_of_the_range() {
    let longest = RollingByDuration::new(u128::MAX).unwrap();
    assert_eq!(longest.should_roll(&FileStat::new(i128::MIN, 0), i128::MAX), Ok(true));
    assert_eq!(longest.should_roll(&FileStat::new(i128::MIN + 1, 0), i128::MAX), Ok(false));
    assert_eq!(longest.should_roll(&FileStat::new(0, 0), i128::MAX), Ok(false));
    let shortest = RollingByDuration::new(1).unwrap();
    assert_eq!(shortest.should_roll(&FileStat::new(i128::MAX, 0), i128::MAX), Ok(false));
    assert_eq!(shortest.should_roll(&FileStat::new(i128::MIN, 0), i128::MIN + 1), Ok(true));
    assert_eq!(shortest.should_roll(&FileStat::new(i128::MAX, 0), i128::MIN), Ok(false));
}

#[test]
fn file_stat_keeps_what_it_was_given() {
    let stat = FileStat::new(42, 7);
    assert_eq!(stat.created(), 42);
    assert_eq!(stat.len(), 7);
}

#[test]
fn file_stat_grows_by_the_bytes_written() {
    let mut stat = FileStat::new(42, 7);
    stat.record_write(5);
    assert_eq!(stat, FileStat::new(42, 12));
    stat.record_write(0);
    assert_eq!(stat, FileStat::new(42, 12));
}

#[test]
fn open_options_append_by_default() {
    assert!(!FileOpenOptions::default().truncate);
    assert!(FileOpenOptions::new(true).truncate);
    assert!(!FileOpenOptions::new(false).truncate);
}

#[test]
fn config_errors_say_what_is_wrong() {
    assert_eq!(ConfigError::ZeroSize.message(), "`desired_size` must be greater than 0");
    assert_eq!(ConfigError::ZeroDuration.message(), "`duration` must be greater than 0");
    assert_eq!(
        ConfigError::MissingFileNameProvider.message(),
        "`file_name_provider` is required"
    );
}
