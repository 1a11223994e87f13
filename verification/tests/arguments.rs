use ios::arguments::{
    complete, default_ios_backup_directory, default_output_directory, default_workers, env_names,
    helper, organizer, parse_arguments, ArgConfig, ConfigError, ParseStop, RawArguments,
    Surroundings,
};
use ios::policy::Organizer;

fn line(words: &[&str]) -> Vec<String> {
    let mut arguments = vec!["ios".to_string()];
    for word in words {
        arguments.push(word.to_string());
    }
    arguments
}

fn nothing() -> RawArguments {
    RawArguments {
        version: false,
        list: false,
        all: false,
        debug: false,
        serial: String::new(),
        workers: String::new(),
        env_file: String::new(),
        backup_dir: String::new(),
        output_dir: String::new(),
        organize: Organizer::Auto,
    }
}

fn around() -> Surroundings {
    Surroundings {
        serial: None,
        output_dir: None,
        default_backup_dir: "/home/me/backups".to_string(),
        backup_dir_exists: true,
        cores: Some(8),
    }
}

#[test]
fn an_empty_command_line_gives_nothing() {
    assert_eq!(parse_arguments(&line(&[])), Ok(nothing()));
    assert_eq!(parse_arguments(&Vec::new()), Ok(nothing()));
}

#[test]
fn switches_are_set() {
    let raw = parse_arguments(&line(&["--list", "--all", "--debug", "-v"])).unwrap();
    assert!(raw.list && raw.all && raw.debug && raw.version);
    assert!(parse_arguments(&line(&["-V"])).unwrap().version);
    assert!(parse_arguments(&line(&["--version"])).unwrap().version);
}

#[test]
fn flags_take_the_next_argument() {
    let raw = parse_arguments(&line(&[
        "--serial",
        "A1,B2",
        "--workers",
        "4",
        "--env",
        "my.env",
        "--organize",
        "size",
        "--backup-dir",
        "/b",
        "--output-dir",
        "/o",
    ]))
    .unwrap();
    assert_eq!(
        raw,
        RawArguments {
            serial: "A1,B2".to_string(),
            workers: "4".to_string(),
            env_file: "my.env".to_string(),
            backup_dir: "/b".to_string(),
            output_dir: "/o".to_string(),
            organize: Organizer::Size,
            ..nothing()
        }
    );
}

#[test]
fn every_spelling_of_a_flag_is_read() {
    assert_eq!(parse_arguments(&line(&["--threads", "2"])).unwrap().workers, "2");
    assert_eq!(parse_arguments(&line(&["--env-file", "e"])).unwrap().env_file, "e");
    for flag in ["--backup-dir", "--backup_dir", "--source", "--src"] {
        assert_eq!(parse_arguments(&line(&[flag, "/b"])).unwrap().backup_dir, "/b");
    }
    for flag in ["--output-dir", "--output_dir", "--destination", "--dst"] {
        assert_eq!(parse_arguments(&line(&[flag, "/o"])).unwrap().output_dir, "/o");
    }
}

#[test]
fn a_value_may_look_like_a_flag() {
    assert_eq!(parse_arguments(&line(&["--serial", "--list"])).unwrap().serial, "--list");
    assert!(!parse_arguments(&line(&["--serial", "--list"])).unwrap().list);
}

#[test]
fn the_later_flag_wins() {
    let raw = parse_arguments(&line(&["--serial", "A", "--serial", "B"])).unwrap();
    assert_eq!(raw.serial, "B");
}

#[test]
fn each_layout_has_its_name() {
    assert_eq!(organizer("type"), Some(Organizer::Type));
    assert_eq!(organizer("size"), Some(Organizer::Size));
    assert_eq!(organizer("root"), Some(Organizer::Root));
    assert_eq!(organizer("auto"), Some(Organizer::Auto));
    assert_eq!(organizer("Type"), None);
    assert_eq!(organizer(""), None);
    assert_eq!(
        parse_arguments(&line(&["--organize", "root"])).unwrap().organize,
        Organizer::Root
    );
}

#[test]
fn help_stops_the_reading() {
    for flag in ["-h", "--help", "-H"] {
        assert_eq!(parse_arguments(&line(&["--list", flag, "--bogus"])), Err(ParseStop::Help));
    }
    assert_eq!(ParseStop::Help.exit_code(), 0);
    assert_eq!(
        ParseStop::Help.message("ios"),
        format!("Usage: ios [OPTIONS]\n\n{}", helper())
    );
}

#[test]
fn a_flag_without_value_stops_the_reading() {
    let stop = parse_arguments(&line(&["--list", "--workers"])).unwrap_err();
    assert_eq!(stop, ParseStop::MissingValue("--workers".to_string()));
    assert_eq!(stop.message("ios"), "ERROR: '--workers' flag requires a value.");
    assert_eq!(stop.exit_code(), 1);
}

#[test]
fn an_unknown_layout_stops_the_reading() {
    let stop = parse_arguments(&line(&["--organize", "date"])).unwrap_err();
    assert_eq!(stop, ParseStop::InvalidOrganize);
    assert_eq!(
        stop.message("ios"),
        "ERROR: '--organize' can only be 'type', 'size', 'root' or 'auto' (default)"
    );
    assert_eq!(stop.exit_code(), 1);
}

#[test]
fn an_unknown_argument_stops_the_reading() {
    let stop = parse_arguments(&line(&["--list", "extra", "--help"])).unwrap_err();
    assert_eq!(stop, ParseStop::UnknownArgument("extra".to_string()));
    assert_eq!(
        stop.message("ios"),
        format!("\nERROR: Unknown argument: extra\n\n{}", helper())
    );
    assert_eq!(stop.exit_code(), 1);
}

#[test]
fn the_usage_names_every_flag() {
    let usage = helper();
    assert!(usage.starts_with("ios crate takes the following arguments\n\n\t--version: "));
    assert!(usage.ends_with("Defaults to 'extracted' in current path.\n"));
    assert_eq!(usage.lines().filter(|line| line.starts_with("\t--")).count(), 9);
}

#[test]
fn the_output_directory_defaults_to_extracted() {
    assert_eq!(default_output_directory(None), "extracted");
    assert_eq!(default_output_directory(Some(String::new())), "extracted");
    assert_eq!(default_output_directory(Some("/o".to_string())), "/o");
}

#[test]
fn the_backup_directory_defaults_to_the_systems_own() {
    assert_eq!(
        default_ios_backup_directory(None, false, "/Users/me", false),
        "/Users/me/Library/Application Support/MobileSync/Backup"
    );
    assert_eq!(
        default_ios_backup_directory(None, false, "C:/Users/me", true),
        "C:/Users/me/AppData/Roaming/Apple Computer/MobileSync/Backup"
    );
    assert_eq!(
        default_ios_backup_directory(Some("/b".to_string()), true, "/Users/me", false),
        "/b"
    );
    assert_eq!(
        default_ios_backup_directory(Some("/gone".to_string()), false, "/Users/me", false),
        "/Users/me/Library/Application Support/MobileSync/Backup"
    );
}

#[test]
fn workers_default_to_the_processors() {
    assert_eq!(default_workers(Some(8)), 8);
    assert_eq!(default_workers(Some(1)), 1);
    assert_eq!(default_workers(Some(0)), 1);
    assert_eq!(default_workers(None), 1);
}

#[test]
fn settings_are_looked_up_in_both_cases() {
    assert_eq!(env_names("serial", None), vec!["SERIAL", "serial"]);
    assert_eq!(
        env_names("output_dir", Some(vec!["destination".to_string(), "Dst".to_string()])),
        vec!["DESTINATION", "destination", "DST", "dst", "OUTPUT_DIR", "output_dir"]
    );
    assert_eq!(
        env_names("src", Some(vec!["src".to_string(), "source".to_string()])),
        vec!["SRC", "src", "SOURCE", "source"]
    );
}

#[test]
fn open_settings_come_from_the_surroundings() {
    assert_eq!(
        complete(nothing(), around()),
        Ok(ArgConfig {
            list: false,
            all: false,
            debug: false,
            serial_numbers: vec![],
            backup_dir: "/home/me/backups".to_string(),
            output_dir: "extracted".to_string(),
            workers: 8,
            organize: Organizer::Auto,
        })
    );
    let found = Surroundings {
        serial: Some("A1,,B2,".to_string()),
        output_dir: Some("/env/out".to_string()),
        cores: None,
        ..around()
    };
    let config = complete(nothing(), found).unwrap();
    assert_eq!(config.serial_numbers, vec!["A1", "B2"]);
    assert_eq!(config.output_dir, "/env/out");
    assert_eq!(config.workers, 1);
}

#[test]
fn the_command_line_goes_before_the_surroundings() {
    let raw = RawArguments {
        list: true,
        serial: "X9".to_string(),
        workers: "+3".to_string(),
        backup_dir: "/b".to_string(),
        output_dir: "/o".to_string(),
        organize: Organizer::Type,
        ..nothing()
    };
    let found = Surroundings {
        serial: Some("A1".to_string()),
        output_dir: Some("/env/out".to_string()),
        ..around()
    };
    assert_eq!(
        complete(raw, found),
        Ok(ArgConfig {
            list: true,
            all: false,
            debug: false,
            serial_numbers: vec!["X9".to_string()],
            backup_dir: "/b".to_string(),
            output_dir: "/o".to_string(),
            workers: 3,
            organize: Organizer::Type,
        })
    );
}

#[test]
fn a_backup_directory_that_is_named_must_exist() {
    let raw = RawArguments { backup_dir: "/gone".to_string(), ..nothing() };
    let found = Surroundings { backup_dir_exists: false, ..around() };
    assert_eq!(complete(raw, found), Err(ConfigError::NoBackupDirectory("/gone".to_string())));
    let found = Surroundings { backup_dir_exists: false, ..around() };
    assert!(complete(nothing(), found).is_ok());
}

#[test]
fn workers_must_be_a_count() {
    for text in ["four", "-1", "1.5", " 2", "+", "99999999999999999999999999"] {
        let raw = RawArguments { workers: text.to_string(), ..nothing() };
        assert_eq!(complete(raw, around()), Err(ConfigError::InvalidWorkers(text.to_string())));
    }
    for (text, count) in
        [("0", 0usize), ("1", 1), ("007", 7), ("+16", 16), ("18446744073709551615", usize::MAX)]
    {
        let raw = RawArguments { workers: text.to_string(), ..nothing() };
        assert_eq!(complete(raw, around()).unwrap().workers, count);
    }
}

#[test]
fn no_workers_may_be_asked_for_a_list() {
    let raw = RawArguments { list: true, workers: "0".to_string(), ..nothing() };
    let config = complete(raw, around()).unwrap();
    assert!(config.list);
    assert_eq!(config.workers, 0);
}
