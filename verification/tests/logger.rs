use ios::logger::{Level, SimpleLogger};

#[test]
fn messages_of_info_and_above_are_written() {
    let logger = SimpleLogger;
    assert!(logger.enabled(Level::Error));
    assert!(logger.enabled(Level::Warn));
    assert!(logger.enabled(Level::Info));
    assert!(!logger.enabled(Level::Debug));
    assert!(!logger.enabled(Level::Trace));
}

#[test]
fn a_message_carries_its_time_and_origin() {
    let logger = SimpleLogger;
    assert_eq!(
        logger.message("Jan-01-2024 10:00:00 AM", "ios", "src/lib.rs", 42, "Searching"),
        format!(
            "{}  [{}:{}:{}]  {}",
            "Jan-01-2024 10:00:00 AM", "ios", "src/lib.rs", 42, "Searching"
        )
    );
    assert_eq!(logger.message("t", "x", "", 0, ""), "t  [x::0]  ");
}

#[test]
fn each_level_has_its_coloured_name() {
    let logger = SimpleLogger;
    let msg = "hello";
    assert_eq!(
        logger.line(Level::Error, msg),
        format!("{}ERROR{}:{:<6}{}", "\x1b[91m", "\x1b[0m", "", msg)
    );
    assert_eq!(
        logger.line(Level::Warn, msg),
        format!("{}WARNING{}:{:<4}{}", "\x1b[93m", "\x1b[0m", "", msg)
    );
    assert_eq!(
        logger.line(Level::Info, msg),
        format!("{}INFO{}:{:<7}{}", "\x1b[92m", "\x1b[0m", "", msg)
    );
    assert_eq!(
        logger.line(Level::Debug, msg),
        format!("{}DEBUG{}:{:<6}{}", "\x1b[32m", "\x1b[0m", "", msg)
    );
    assert_eq!(
        logger.line(Level::Trace, msg),
        format!("{}{}CRITICAL{}:{:<1}{}", "\x1b[32m", "\x1b[1m", "\x1b[0m", "", msg)
    );
}
