use rs_logger::{
    format_timestamp, BaseLogger, Destination, InitGuard, Level, LevelFilter, LogAppender, LogFileWriter, LogWriter,
    Logger, NopAppender, Stderr, Stdout, StdoutLogger,
};

const NEW_YEAR_2024_MS: u64 = 1_704_067_200_000;

struct PidLogAppender;

impl LogAppender for PidLogAppender {
    // Only the verifier reads the segment; at run time `append` does the work.
    fn segment(_line: vstd::seq::Seq<char>) -> vstd::seq::Seq<char> {
        panic!("segment is read by the verifier only")
    }

    fn append(line: &mut String) -> bool {
        line.push_str("[PID: 4242]");
        true
    }
}

struct SilentButHonestAppender;

impl LogAppender for SilentButHonestAppender {
    fn segment(_line: vstd::seq::Seq<char>) -> vstd::seq::Seq<char> {
        vstd::seq::Seq::empty()
    }

    fn append(_line: &mut String) -> bool {
        false
    }
}

const ALL_LEVELS: [Level; 5] = [Level::Error, Level::Warn, Level::Info, Level::Debug, Level::Trace];

fn rank(level: Level) -> u8 {
    match level {
        Level::Error => 1,
        Level::Warn => 2,
        Level::Info => 3,
        Level::Debug => 4,
        Level::Trace => 5,
    }
}

fn filter_rank(filter: LevelFilter) -> u8 {
    match filter {
        LevelFilter::Off => 0,
        LevelFilter::Error => 1,
        LevelFilter::Warn => 2,
        LevelFilter::Info => 3,
        LevelFilter::Debug => 4,
        LevelFilter::Trace => 5,
    }
}

#[test]
fn test_log_appender() {
    type MyLogger = BaseLogger<PidLogAppender>;
    let logger = MyLogger::init(LevelFilter::Debug);
    let line = logger.log(NEW_YEAR_2024_MS, Level::Error, Some("rs_logger::tests"), "test log message");
    assert_eq!(line, "[2024-01-01T00:00:00.000Z ERROR rs_logger::tests] [PID: 4242] - test log message\n");
}

#[test]
fn test_log_print_macro() {
    let line = Logger::print_line(0, Level::Debug, "rs_logger::tests", "test log message with log_print!");
    assert_eq!(line, "[1970-01-01T00:00:00.000Z DEBUG rs_logger::tests] - test log message with log_print!\n");
}

#[test]
fn info_threshold_drops_debug_and_renders_error() {
    let logger = Logger::init(LevelFilter::Info);
    assert!(!logger.enabled(Level::Debug));
    assert!(logger.enabled(Level::Error));
    assert_eq!(
        logger.log(NEW_YEAR_2024_MS, Level::Error, Some("app::db"), "conn lost"),
        "[2024-01-01T00:00:00.000Z ERROR app::db] - conn lost\n"
    );
}

#[test]
fn levels_below_threshold_produce_nothing() {
    let filters = [
        LevelFilter::Off,
        LevelFilter::Error,
        LevelFilter::Warn,
        LevelFilter::Info,
        LevelFilter::Debug,
        LevelFilter::Trace,
    ];
    for filter in filters {
        let logger = Logger::init(filter);
        for level in ALL_LEVELS {
            let expected = rank(level) <= filter_rank(filter);
            assert_eq!(logger.enabled(level), expected);
        }
    }
}

#[test]
fn levels_at_threshold_produce_one_labelled_line() {
    let logger = StdoutLogger::init(LevelFilter::Trace);
    for level in ALL_LEVELS {
        let line = logger.log(NEW_YEAR_2024_MS, level, Some("app"), "hello");
        let expected = format!("[2024-01-01T00:00:00.000Z {} app] - hello\n", level.as_str());
        assert_eq!(line, expected);
        assert_eq!(line.matches('\n').count(), 1);
    }
}

#[test]
fn log_renders_whatever_the_facade_hands_over() {
    let logger = Logger::init(LevelFilter::Error);
    assert!(!logger.enabled(Level::Debug));
    assert_eq!(
        logger.log(NEW_YEAR_2024_MS, Level::Debug, Some("app::db"), "pool size 4"),
        "[2024-01-01T00:00:00.000Z DEBUG app::db] - pool size 4\n"
    );
}

#[test]
fn missing_module_is_unknown() {
    let logger = Logger::init(LevelFilter::Warn);
    assert_eq!(
        logger.log(NEW_YEAR_2024_MS, Level::Warn, None, "disk low"),
        "[2024-01-01T00:00:00.000Z WARN unknown] - disk low\n"
    );
}

#[test]
fn nop_appender_matches_plain_line() {
    let with_nop = BaseLogger::<NopAppender>::format_record("T", Level::Info, Some("m"), "msg");
    let plain = Logger::print_line(NEW_YEAR_2024_MS, Level::Info, "m", "msg");
    assert_eq!(with_nop, "[T INFO m] - msg\n");
    assert_eq!(plain, "[2024-01-01T00:00:00.000Z INFO m] - msg\n");
    let silent = BaseLogger::<SilentButHonestAppender>::format_record("T", Level::Info, Some("m"), "msg");
    assert_eq!(silent, with_nop);
}

#[test]
fn appender_segment_has_single_separators() {
    let line = BaseLogger::<PidLogAppender>::format_record("T", Level::Warn, Some("m"), "msg");
    assert_eq!(line, "[T WARN m] [PID: 4242] - msg\n");
    assert_eq!(line.matches("[PID: 4242]").count(), 1);
    assert!(!line.contains("  "));
}

#[test]
fn print_ignores_any_threshold() {
    let logger = Logger::init(LevelFilter::Off);
    assert!(!logger.enabled(Level::Error));
    let line = Logger::print_line(NEW_YEAR_2024_MS, Level::Trace, "boot", "before init");
    assert_eq!(line, "[2024-01-01T00:00:00.000Z TRACE boot] - before init\n");
    assert_eq!(logger.log(NEW_YEAR_2024_MS, Level::Trace, Some("boot"), "before init"), line);
}

#[test]
fn second_install_keeps_first_configuration() {
    let mut guard: InitGuard<(LevelFilter, Destination)> = InitGuard::new();
    assert!(!guard.is_installed());
    assert!(guard.installed().is_none());
    assert!(guard.install((LevelFilter::Info, Destination::Stderr)));
    assert!(!guard.install((LevelFilter::Trace, Destination::Stdout)));
    assert!(guard.is_installed());
    assert_eq!(guard.installed(), Some(&(LevelFilter::Info, Destination::Stderr)));
}

#[test]
fn init_records_threshold_and_writer() {
    let logger = Logger::init(LevelFilter::Debug);
    assert_eq!(logger.level(), LevelFilter::Debug);
    assert_eq!(logger.writer().get(), Destination::Stderr);
    let logger = StdoutLogger::init(LevelFilter::Error);
    assert_eq!(logger.level(), LevelFilter::Error);
    assert_eq!(logger.writer().get(), Destination::Stdout);
    let logger = BaseLogger::<NopAppender, Stdout>::init_with_writer(LevelFilter::Warn, Stdout);
    assert_eq!(logger.writer().get(), Destination::Stdout);
    assert_eq!(Stderr.get(), Destination::Stderr);
    let file_writer = LogFileWriter::new(7u32);
    assert_eq!(*file_writer.file(), 7);
    assert_eq!(file_writer.get(), Destination::File);
    let logger = BaseLogger::<NopAppender, LogFileWriter<u32>>::init_with_writer(LevelFilter::Info, file_writer);
    assert_eq!(logger.writer().get(), Destination::File);
}

#[test]
fn nop_appender_writes_nothing() {
    let mut line = String::from("[T INFO m] ");
    assert!(!NopAppender::append(&mut line));
    assert_eq!(line, "[T INFO m] ");
}

#[test]
fn timestamp_is_iso_utc_with_milliseconds() {
    assert_eq!(format_timestamp(0), "1970-01-01T00:00:00.000Z");
    assert_eq!(format_timestamp(NEW_YEAR_2024_MS + 1_234), "2024-01-01T00:00:01.234Z");
    assert_eq!(format_timestamp(951_782_400_000), "2000-02-29T00:00:00.000Z");
}

#[test]
fn level_names_and_labels() {
    assert_eq!(Level::Error.as_str(), "ERROR");
    assert_eq!(Level::Trace.as_str(), "TRACE");
    assert_eq!(LevelFilter::Off.as_str(), "OFF");
    assert_eq!(Level::Info.styled(false), "INFO");
    assert_eq!(Level::Error.styled(true), "\x1b[91;1mERROR\x1b[0m");
    assert_eq!(Level::Warn.styled(true), "\x1b[33mWARN\x1b[0m");
    assert_eq!(Level::Info.styled(true), "\x1b[32mINFO\x1b[0m");
    assert_eq!(Level::Debug.styled(true), "\x1b[34mDEBUG\x1b[0m");
    assert_eq!(Level::Trace.styled(true), "\x1b[36mTRACE\x1b[0m");
    assert_eq!(Logger::styled_level(Level::Debug), "DEBUG");
    assert!(LevelFilter::Warn.admits_level(Level::Error));
    assert!(!LevelFilter::Warn.admits_level(Level::Info));
    assert!(!LevelFilter::Off.admits_level(Level::Error));
}
