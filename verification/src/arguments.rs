//! The command line: what it asks for, and what a run is configured with.

use vstd::prelude::*;
use crate::paths::{join, joined};
use crate::policy::Organizer;
use crate::text::{
    fields, fields_of, lowercase, owned, parse_count, same_text, stated_count, to_lowercase,
    to_uppercase, uppercase, views_of,
};

verus! {

/// What a run is configured with.
#[derive(Debug, PartialEq, Eq)]
pub struct ArgConfig {
    /// List the backups and extract nothing.
    pub list: bool,
    /// Whether every backup was asked for. The flag is kept as it was
    /// given; which backups a run takes goes by `list` and the serial
    /// numbers.
    pub all: bool,
    /// Log at debug level.
    pub debug: bool,
    /// The serial numbers of the devices whose backups are extracted.
    pub serial_numbers: Vec<String>,
    /// The directory that holds the backups.
    pub backup_dir: String,
    /// The directory that takes the extracted files.
    pub output_dir: String,
    /// The number of workers that copy files, as it was asked for. A pool
    /// cannot be made of none.
    pub workers: usize,
    /// How the extracted files are laid out.
    pub organize: Organizer,
}

/// An `ArgConfig` by view.
pub struct ArgConfigView {
    pub list: bool,
    pub all: bool,
    pub debug: bool,
    pub serial_numbers: Seq<Seq<char>>,
    pub backup_dir: Seq<char>,
    pub output_dir: Seq<char>,
    pub workers: usize,
    pub organize: Organizer,
}

impl View for ArgConfig {
    type V = ArgConfigView;

    open spec fn view(&self) -> ArgConfigView {
        ArgConfigView {
            list: self.list,
            all: self.all,
            debug: self.debug,
            serial_numbers: views_of(self.serial_numbers@),
            backup_dir: self.backup_dir@,
            output_dir: self.output_dir@,
            workers: self.workers,
            organize: self.organize,
        }
    }
}

/// The arguments of a command line as they were written. A text that was
/// not given is empty.
#[derive(Debug, PartialEq, Eq)]
pub struct RawArguments {
    pub version: bool,
    pub list: bool,
    pub all: bool,
    pub debug: bool,
    pub serial: String,
    pub workers: String,
    pub env_file: String,
    pub backup_dir: String,
    pub output_dir: String,
    pub organize: Organizer,
}

/// A `RawArguments` by view.
pub struct RawArgumentsView {
    pub version: bool,
    pub list: bool,
    pub all: bool,
    pub debug: bool,
    pub serial: Seq<char>,
    pub workers: Seq<char>,
    pub env_file: Seq<char>,
    pub backup_dir: Seq<char>,
    pub output_dir: Seq<char>,
    pub organize: Organizer,
}

impl View for RawArguments {
    type V = RawArgumentsView;

    open spec fn view(&self) -> RawArgumentsView {
        RawArgumentsView {
            version: self.version,
            list: self.list,
            all: self.all,
            debug: self.debug,
            serial: self.serial@,
            workers: self.workers@,
            env_file: self.env_file@,
            backup_dir: self.backup_dir@,
            output_dir: self.output_dir@,
            organize: self.organize,
        }
    }
}

/// The arguments of a command line on which nothing was given.
pub open spec fn nothing_given() -> RawArgumentsView {
    RawArgumentsView {
        version: false,
        list: false,
        all: false,
        debug: false,
        serial: Seq::empty(),
        workers: Seq::empty(),
        env_file: Seq::empty(),
        backup_dir: Seq::empty(),
        output_dir: Seq::empty(),
        organize: Organizer::Auto,
    }
}

/// Why reading a command line stopped before its end.
#[derive(Debug, PartialEq, Eq)]
pub enum ParseStop {
    /// The usage was asked for.
    Help,
    /// The flag named stands last and has no value behind it.
    MissingValue(String),
    /// The layout named is none of `type`, `size`, `root` and `auto`.
    InvalidOrganize,
    /// The argument named is no flag.
    UnknownArgument(String),
}

/// A `ParseStop` by view.
pub enum ParseStopView {
    Help,
    MissingValue(Seq<char>),
    InvalidOrganize,
    UnknownArgument(Seq<char>),
}

impl View for ParseStop {
    type V = ParseStopView;

    open spec fn view(&self) -> ParseStopView {
        match *self {
            ParseStop::Help => ParseStopView::Help,
            ParseStop::MissingValue(flag) => ParseStopView::MissingValue(flag@),
            ParseStop::InvalidOrganize => ParseStopView::InvalidOrganize,
            ParseStop::UnknownArgument(argument) => ParseStopView::UnknownArgument(argument@),
        }
    }
}

/// What an argument of the command line asks for.
#[derive(Debug, Clone, Copy, PartialEq, Eq, Structural)]
pub enum Flag {
    Help,
    Version,
    List,
    All,
    Debug,
    Serial,
    Workers,
    EnvFile,
    Organize,
    BackupDir,
    OutputDir,
}

/// The flag that `argument` spells; none where it spells no flag.
pub open spec fn flag_of(argument: Seq<char>) -> Option<Flag> {
    if argument == "-h"@ || argument == "--help"@ || argument == "-H"@ {
        Some(Flag::Help)
    } else if argument == "-V"@ || argument == "-v"@ || argument == "--version"@ {
        Some(Flag::Version)
    } else if argument == "--list"@ {
        Some(Flag::List)
    } else if argument == "--all"@ {
        Some(Flag::All)
    } else if argument == "--debug"@ {
        Some(Flag::Debug)
    } else if argument == "--serial"@ {
        Some(Flag::Serial)
    } else if argument == "--workers"@ || argument == "--threads"@ {
        Some(Flag::Workers)
    } else if argument == "--env"@ || argument == "--env-file"@ {
        Some(Flag::EnvFile)
    } else if argument == "--organize"@ {
        Some(Flag::Organize)
    } else if argument == "--backup-dir"@ || argument == "--backup_dir"@ || argument == "--source"@
        || argument == "--src"@ {
        Some(Flag::BackupDir)
    } else if argument == "--output-dir"@ || argument == "--output_dir"@ || argument
        == "--destination"@ || argument == "--dst"@ {
        Some(Flag::OutputDir)
    } else {
        None
    }
}

/// The layout that `name` names.
pub open spec fn organizer_of(name: Seq<char>) -> Option<Organizer> {
    if name == "type"@ {
        Some(Organizer::Type)
    } else if name == "size"@ {
        Some(Organizer::Size)
    } else if name == "root"@ {
        Some(Organizer::Root)
    } else if name == "auto"@ {
        Some(Organizer::Auto)
    } else {
        None
    }
}

/// Whether `flag` takes the argument behind it as its value.
pub open spec fn takes_value(flag: Flag) -> bool {
    match flag {
        Flag::Serial | Flag::Workers | Flag::EnvFile | Flag::Organize | Flag::BackupDir
        | Flag::OutputDir => true,
        _ => false,
    }
}

/// `raw` after a flag without value.
pub open spec fn switched(raw: RawArgumentsView, flag: Flag) -> RawArgumentsView {
    match flag {
        Flag::Version => RawArgumentsView { version: true, ..raw },
        Flag::List => RawArgumentsView { list: true, ..raw },
        Flag::All => RawArgumentsView { all: true, ..raw },
        Flag::Debug => RawArgumentsView { debug: true, ..raw },
        _ => raw,
    }
}

/// `raw` after a flag with the value `value`; a stop where the value is not
/// one that the flag takes.
pub open spec fn valued(raw: RawArgumentsView, flag: Flag, value: Seq<char>) -> Result<
    RawArgumentsView,
    ParseStopView,
> {
    match flag {
        Flag::Serial => Ok(RawArgumentsView { serial: value, ..raw }),
        Flag::Workers => Ok(RawArgumentsView { workers: value, ..raw }),
        Flag::EnvFile => Ok(RawArgumentsView { env_file: value, ..raw }),
        Flag::BackupDir => Ok(RawArgumentsView { backup_dir: value, ..raw }),
        Flag::OutputDir => Ok(RawArgumentsView { output_dir: value, ..raw }),
        Flag::Organize => match organizer_of(value) {
            Some(organize) => Ok(RawArgumentsView { organize, ..raw }),
            None => Err(ParseStopView::InvalidOrganize),
        },
        _ => Ok(raw),
    }
}

/// What reading `arguments` from position `from` on makes of `raw`. The
/// arguments are read from left to right; a later flag replaces an earlier
/// one of its kind, and the first stop ends the reading.
pub open spec fn read_from(arguments: Seq<Seq<char>>, from: nat, raw: RawArgumentsView) -> Result<
    RawArgumentsView,
    ParseStopView,
>
    decreases arguments.len() - from,
{
    if from >= arguments.len() {
        Ok(raw)
    } else {
        match flag_of(arguments[from as int]) {
            None => Err(ParseStopView::UnknownArgument(arguments[from as int])),
            Some(Flag::Help) => Err(ParseStopView::Help),
            Some(flag) => if takes_value(flag) {
                if from + 1 < arguments.len() {
                    match valued(raw, flag, arguments[from as int + 1]) {
                        Ok(next) => read_from(arguments, from + 2, next),
                        Err(stop) => Err(stop),
                    }
                } else {
                    Err(ParseStopView::MissingValue(arguments[from as int]))
                }
            } else {
                read_from(arguments, from + 1, switched(raw, flag))
            },
        }
    }
}

/// What the command line `arguments` asks for. Its first text is the
/// program's name and is not read.
pub open spec fn read(arguments: Seq<Seq<char>>) -> Result<RawArgumentsView, ParseStopView> {
    read_from(arguments, 1, nothing_given())
}

fn flag(argument: &str) -> (r: Option<Flag>)
    ensures
        r == flag_of(argument@),
{
    if same_text(argument, "-h") || same_text(argument, "--help") || same_text(argument, "-H") {
        Some(Flag::Help)
    } else if same_text(argument, "-V") || same_text(argument, "-v") || same_text(
        argument,
        "--version",
    ) {
        Some(Flag::Version)
    } else if same_text(argument, "--list") {
        Some(Flag::List)
    } else if same_text(argument, "--all") {
        Some(Flag::All)
    } else if same_text(argument, "--debug") {
        Some(Flag::Debug)
    } else if same_text(argument, "--serial") {
        Some(Flag::Serial)
    } else if same_text(argument, "--workers") || same_text(argument, "--threads") {
        Some(Flag::Workers)
    } else if same_text(argument, "--env") || same_text(argument, "--env-file") {
        Some(Flag::EnvFile)
    } else if same_text(argument, "--organize") {
        Some(Flag::Organize)
    } else if same_text(argument, "--backup-dir") || same_text(argument, "--backup_dir")
        || same_text(argument, "--source") || same_text(argument, "--src") {
        Some(Flag::BackupDir)
    } else if same_text(argument, "--output-dir") || same_text(argument, "--output_dir")
        || same_text(argument, "--destination") || same_text(argument, "--dst") {
        Some(Flag::OutputDir)
    } else {
        None
    }
}

/// The layout that `name` names: one of `type`, `size`, `root` and `auto`.
pub fn organizer(name: &str) -> (r: Option<Organizer>)
    ensures
        r == organizer_of(name@),
{
    if same_text(name, "type") {
        Some(Organizer::Type)
    } else if same_text(name, "size") {
        Some(Organizer::Size)
    } else if same_text(name, "root") {
        Some(Organizer::Root)
    } else if same_text(name, "auto") {
        Some(Organizer::Auto)
    } else {
        None
    }
}

/// Reads the command line `arguments`, whose first text is the program's
/// name.
pub fn parse_arguments(arguments: &Vec<String>) -> (r: Result<RawArguments, ParseStop>)
    ensures
        match r {
            Ok(raw) => read(views_of(arguments@)) == Ok::<RawArgumentsView, ParseStopView>(raw@),
            Err(stop) => read(views_of(arguments@)) == Err::<RawArgumentsView, ParseStopView>(
                stop@,
            ),
        },
{
    let ghost texts = views_of(arguments@);
    let mut raw = RawArguments {
        version: false,
        list: false,
        all: false,
        debug: false,
        serial: String::new(),
        workers: String::new(),
        env_file: String::new(),
        backup_dir: String::new(),
        output_dir: String::new(),
        organize: Organizer::Auto,
    };
    let mut i: usize = 1;
    while i < arguments.len()
        invariant
            1 <= i,
            texts == views_of(arguments@),
            read_from(texts, i as nat, raw@) == read(texts),
        decreases arguments.len() - i,
    {
        let argument = arguments[i].as_str();
        match flag(argument) {
            None => {
                return Err(ParseStop::UnknownArgument(arguments[i].clone()));
            },
            Some(Flag::Help) => {
                return Err(ParseStop::Help);
            },
            Some(Flag::Version) => {
                raw.version = true;
                i += 1;
            },
            Some(Flag::List) => {
                raw.list = true;
                i += 1;
            },
            Some(Flag::All) => {
                raw.all = true;
                i += 1;
            },
            Some(Flag::Debug) => {
                raw.debug = true;
                i += 1;
            },
            Some(kind) => {
                if i + 1 >= arguments.len() {
                    return Err(ParseStop::MissingValue(arguments[i].clone()));
                }
                let value = arguments[i + 1].clone();
                match kind {
                    Flag::Serial => {
                        raw.serial = value;
                    },
                    Flag::Workers => {
                        raw.workers = value;
                    },
                    Flag::EnvFile => {
                        raw.env_file = value;
                    },
                    Flag::BackupDir => {
                        raw.backup_dir = value;
                    },
                    Flag::OutputDir => {
                        raw.output_dir = value;
                    },
                    _ => {
                        match organizer(value.as_str()) {
                            Some(organize) => {
                                raw.organize = organize;
                            },
                            None => {
                                return Err(ParseStop::InvalidOrganize);
                            },
                        }
                    },
                }
                i += 2;
            },
        }
    }
    Ok(raw)
}

/// The usage of the program, flag by flag.
pub open spec fn helper_text() -> Seq<char> {
    "ios crate takes the following arguments\n\n\t--version: Print project version.\n\n\t--list: List the available backups.\n\t--debug: Enable debug level logging.\n\t--all: Extract all available backups.\n\t--serial: Initiate backup extraction for given serial number(s).\n\t--organize: Organize the extracted files by type, size, root, and auto.\n\t--workers | --threads: Numbers of workers (threads) to spin up for extraction.\n\t--backup-dir | --source: Custom path for the backup. Defaults to OS specific path.\n\t--output-dir | --destination: Destination directory. Defaults to 'extracted' in current path.\n"@
}

/// The usage of the program, flag by flag.
pub fn helper() -> (r: String)
    ensures
        r@ == helper_text(),
{
    owned(
        "ios crate takes the following arguments\n\n\t--version: Print project version.\n\n\t--list: List the available backups.\n\t--debug: Enable debug level logging.\n\t--all: Extract all available backups.\n\t--serial: Initiate backup extraction for given serial number(s).\n\t--organize: Organize the extracted files by type, size, root, and auto.\n\t--workers | --threads: Numbers of workers (threads) to spin up for extraction.\n\t--backup-dir | --source: Custom path for the backup. Defaults to OS specific path.\n\t--output-dir | --destination: Destination directory. Defaults to 'extracted' in current path.\n",
    )
}

/// What is printed when reading the command line of `program` stops.
pub open spec fn stop_message(stop: ParseStopView, program: Seq<char>) -> Seq<char> {
    match stop {
        ParseStopView::Help => "Usage: "@ + program + " [OPTIONS]\n\n"@ + helper_text(),
        ParseStopView::MissingValue(flag) => "ERROR: '"@ + flag + "' flag requires a value."@,
        ParseStopView::InvalidOrganize =>
            "ERROR: '--organize' can only be 'type', 'size', 'root' or 'auto' (default)"@,
        ParseStopView::UnknownArgument(argument) => "\nERROR: Unknown argument: "@ + argument
            + "\n\n"@ + helper_text(),
    }
}

impl ParseStop {
    /// What to print for this stop.
    pub fn message(&self, program: &str) -> (r: String)
        ensures
            r@ == stop_message(self@, program@),
    {
        match self {
            ParseStop::Help => {
                let mut r = owned("Usage: ");
                r.append(program);
                r.append(" [OPTIONS]\n\n");
                r.append(helper().as_str());
                r
            },
            ParseStop::MissingValue(flag) => {
                let mut r = owned("ERROR: '");
                r.append(flag.as_str());
                r.append("' flag requires a value.");
                r
            },
            ParseStop::InvalidOrganize => owned(
                "ERROR: '--organize' can only be 'type', 'size', 'root' or 'auto' (default)",
            ),
            ParseStop::UnknownArgument(argument) => {
                let mut r = owned("\nERROR: Unknown argument: ");
                r.append(argument.as_str());
                r.append("\n\n");
                r.append(helper().as_str());
                r
            },
        }
    }

    /// The status with which the program ends on this stop: success where
    /// the usage was asked for, failure otherwise.
    pub fn exit_code(&self) -> (r: i32)
        ensures
            r == if self is Help {
                0i32
            } else {
                1i32
            },
    {
        match self {
            ParseStop::Help => 0,
            _ => 1,
        }
    }
}

/// The output directory where the command line names none: the one that the
/// environment names, or `extracted`.
pub open spec fn output_directory_or_default(found: Option<Seq<char>>) -> Seq<char> {
    match found {
        Some(directory) => if directory.len() == 0 {
            "extracted"@
        } else {
            directory
        },
        None => "extracted"@,
    }
}

/// The output directory where the command line names none. `found` is what
/// the environment names.
pub fn default_output_directory(found: Option<String>) -> (r: String)
    ensures
        r@ == output_directory_or_default(
            match found {
                Some(directory) => Some(directory@),
                None => None,
            },
        ),
{
    match found {
        Some(directory) => {
            if directory.as_str().unicode_len() == 0 {
                owned("extracted")
            } else {
                directory
            }
        },
        None => owned("extracted"),
    }
}

/// Where a system keeps the backups, below the home directory.
pub open spec fn backup_directory_below_home(windows: bool) -> Seq<char> {
    if windows {
        "AppData/Roaming/Apple Computer/MobileSync/Backup"@
    } else {
        "Library/Application Support/MobileSync/Backup"@
    }
}

/// The backup directory where the command line names none: the directory
/// `found` that the environment names, where it exists, and otherwise the
/// system's own place below `home`.
pub fn default_ios_backup_directory(
    found: Option<String>,
    found_exists: bool,
    home: &str,
    windows: bool,
) -> (r: String)
    ensures
        r@ == match found {
            Some(directory) => if found_exists {
                directory@
            } else {
                joined(home@, backup_directory_below_home(windows))
            },
            None => joined(home@, backup_directory_below_home(windows)),
        },
{
    match found {
        Some(directory) => {
            if found_exists {
                return directory;
            }
        },
        None => {},
    }
    if windows {
        join(home, "AppData/Roaming/Apple Computer/MobileSync/Backup")
    } else {
        join(home, "Library/Application Support/MobileSync/Backup")
    }
}

/// The number of workers where the command line names none: one for each
/// logical processor, and one where their number is not known.
pub fn default_workers(cores: Option<usize>) -> (r: usize)
    ensures
        r == match cores {
            Some(count) => if count >= 1 {
                count
            } else {
                1
            },
            None => 1,
        },
        r >= 1,
{
    match cores {
        Some(count) => if count >= 1 {
            count
        } else {
            1
        },
        None => 1,
    }
}

/// The names under which a setting may stand in the environment: `key` and
/// each alias, each in upper case and then in lower case, in the order in
/// which they are tried.
pub open spec fn environment_names(names: Seq<Seq<char>>) -> Seq<Seq<char>>
    decreases names.len(),
{
    if names.len() == 0 {
        Seq::empty()
    } else {
        environment_names(names.drop_last()).push(uppercase(names.last())).push(
            lowercase(names.last()),
        )
    }
}

/// The names that are tried for the setting `key`: the aliases, with `key`
/// behind them unless it is one of them; `key` alone where no alias is given.
pub open spec fn setting_names(key: Seq<char>, alias: Option<Seq<Seq<char>>>) -> Seq<Seq<char>> {
    match alias {
        Some(names) => if names.contains(key) {
            names
        } else {
            names.push(key)
        },
        None => seq![key],
    }
}

fn holds_text(names: &Vec<String>, key: &str) -> (r: bool)
    ensures
        r == views_of(names@).contains(key@),
{
    let mut i: usize = 0;
    while i < names.len()
        invariant
            i <= names.len(),
            forall|j: int| 0 <= j < i ==> views_of(names@)[j] != key@,
        decreases names.len() - i,
    {
        if same_text(names[i].as_str(), key) {
            assert(views_of(names@)[i as int] == key@);
            return true;
        }
        i += 1;
    }
    false
}

/// The names of the environment variables that may hold the setting `key`,
/// in the order in which they are to be tried.
pub fn env_names(key: &str, alias: Option<Vec<String>>) -> (r: Vec<String>)
    ensures
        views_of(r@) == environment_names(
            setting_names(
                key@,
                match alias {
                    Some(names) => Some(views_of(names@)),
                    None => None,
                },
            ),
        ),
{
    let mut names: Vec<String> = match alias {
        Some(names) => names,
        None => Vec::new(),
    };
    let listed = holds_text(&names, key);
    if !listed {
        let ghost before = views_of(names@);
        names.push(owned(key));
        assert(views_of(names@) =~= before.push(key@));
    }
    let ghost wanted = views_of(names@);
    let mut r: Vec<String> = Vec::new();
    let mut i: usize = 0;
    while i < names.len()
        invariant
            i <= names.len(),
            wanted == views_of(names@),
            views_of(r@) == environment_names(wanted.take(i as int)),
        decreases names.len() - i,
    {
        let upper = to_uppercase(names[i].as_str());
        let lower = to_lowercase(names[i].as_str());
        r.push(upper);
        r.push(lower);
        assert(wanted.take(i + 1).drop_last() =~= wanted.take(i as int));
        i += 1;
    }
    assert(wanted.take(i as int) =~= wanted);
    r
}

/// What the surroundings of the program hold for its configuration, as far
/// as the command line leaves it open.
#[derive(Debug, PartialEq, Eq)]
pub struct Surroundings {
    /// The serial numbers that the environment names.
    pub serial: Option<String>,
    /// The output directory that the environment names.
    pub output_dir: Option<String>,
    /// The backup directory to use where the command line names none.
    pub default_backup_dir: String,
    /// Whether the backup directory that the command line names exists.
    pub backup_dir_exists: bool,
    /// The number of logical processors, where it is known.
    pub cores: Option<usize>,
}

/// Why a command line that was read gives no configuration.
#[derive(Debug, PartialEq, Eq)]
pub enum ConfigError {
    /// The backup directory named does not exist.
    NoBackupDirectory(String),
    /// The number of workers named is no count that fits.
    InvalidWorkers(String),
}

/// The number of workers that `text` asks for: the default where it is
/// empty, and otherwise the count that it states, none included. There is no
/// such number where the text states no count that fits.
pub open spec fn workers_of(text: Seq<char>, cores: Option<usize>) -> Option<usize> {
    if text.len() == 0 {
        Some(
            match cores {
                Some(count) => if count >= 1 {
                    count
                } else {
                    1usize
                },
                None => 1usize,
            },
        )
    } else {
        match stated_count(text) {
            Some(count) => if count <= usize::MAX {
                Some(count as usize)
            } else {
                None
            },
            None => None,
        }
    }
}

/// The serial numbers that a run is configured with: those of the command
/// line, or else those of the environment, between commas.
pub open spec fn serials_of(given: Seq<char>, found: Option<Seq<char>>) -> Seq<Seq<char>> {
    if given.len() > 0 {
        fields_of(given, ',')
    } else {
        match found {
            Some(serial) => fields_of(serial, ','),
            None => Seq::empty(),
        }
    }
}

/// Completes what the command line gave with what the surroundings hold.
///
/// A backup directory that the command line names must exist. A number of
/// workers that it names must be a count that fits, and is taken as it
/// stands. What it leaves open comes from `around`.
pub fn complete(raw: RawArguments, around: Surroundings) -> (r: Result<ArgConfig, ConfigError>)
    ensures
        match r {
            Ok(config) => {
                &&& raw.backup_dir@.len() > 0 ==> around.backup_dir_exists
                &&& workers_of(raw.workers@, around.cores) == Some(config.workers)
                &&& config.list == raw.list
                &&& config.all == raw.all
                &&& config.debug == raw.debug
                &&& config.organize == raw.organize
                &&& config.backup_dir@ == if raw.backup_dir@.len() > 0 {
                    raw.backup_dir@
                } else {
                    around.default_backup_dir@
                }
                &&& config.output_dir@ == if raw.output_dir@.len() > 0 {
                    raw.output_dir@
                } else {
                    output_directory_or_default(
                        match around.output_dir {
                            Some(directory) => Some(directory@),
                            None => None,
                        },
                    )
                }
                &&& views_of(config.serial_numbers@) == serials_of(
                    raw.serial@,
                    match around.serial {
                        Some(serial) => Some(serial@),
                        None => None,
                    },
                )
            },
            Err(ConfigError::NoBackupDirectory(directory)) => {
                &&& raw.backup_dir@.len() > 0
                &&& !around.backup_dir_exists
                &&& directory@ == raw.backup_dir@
            },
            Err(ConfigError::InvalidWorkers(text)) => {
                &&& raw.backup_dir@.len() > 0 ==> around.backup_dir_exists
                &&& workers_of(raw.workers@, around.cores) is None
                &&& text@ == raw.workers@
            },
        },
{
    let RawArguments {
        version,
        list,
        all,
        debug,
        serial,
        workers,
        env_file,
        backup_dir,
        output_dir,
        organize,
    } = raw;
    let Surroundings { serial: found_serial, output_dir: found_output, default_backup_dir, backup_dir_exists, cores } =
        around;
    let backup_dir_final = if backup_dir.as_str().unicode_len() == 0 {
        default_backup_dir
    } else if backup_dir_exists {
        backup_dir
    } else {
        return Err(ConfigError::NoBackupDirectory(backup_dir));
    };
    let output_dir_final = if output_dir.as_str().unicode_len() == 0 {
        default_output_directory(found_output)
    } else {
        output_dir
    };
    let workers_final = if workers.as_str().unicode_len() == 0 {
        default_workers(cores)
    } else {
        match parse_count(workers.as_str()) {
            Some(count) => count,
            None => {
                return Err(ConfigError::InvalidWorkers(workers));
            },
        }
    };
    let serial_numbers = if serial.as_str().unicode_len() > 0 {
        fields(serial.as_str(), ',')
    } else {
        match found_serial {
            Some(found) => fields(found.as_str(), ','),
            None => {
                let none: Vec<String> = Vec::new();
                none
            },
        }
    };
    Ok(
        ArgConfig {
            list,
            all,
            debug,
            serial_numbers,
            backup_dir: backup_dir_final,
            output_dir: output_dir_final,
            workers: workers_final,
            organize,
        },
    )
}

} // verus!
