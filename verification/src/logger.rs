//! The lines of the log.

use vstd::prelude::*;
use crate::text::{decimal, owned, push_decimal};

verus! {

/// How much a message matters, most first.
#[derive(Debug, Clone, Copy, PartialEq, Eq, Structural)]
pub enum Level {
    Error,
    Warn,
    Info,
    Debug,
    Trace,
}

/// A logger that writes one coloured line for each message.
#[derive(Debug, Clone, Copy, PartialEq, Eq, Structural)]
pub struct SimpleLogger;

/// What stands before the message of a line of `level`: the level's name in
/// its colour, a colon, and blanks up to the message.
pub open spec fn prefix_of(level: Level) -> Seq<char> {
    match level {
        Level::Error => "\x1b[91mERROR\x1b[0m:      "@,
        Level::Warn => "\x1b[93mWARNING\x1b[0m:    "@,
        Level::Info => "\x1b[92mINFO\x1b[0m:       "@,
        Level::Debug => "\x1b[32mDEBUG\x1b[0m:      "@,
        Level::Trace => "\x1b[32m\x1b[1mCRITICAL\x1b[0m: "@,
    }
}

/// A message with its time and origin before it.
pub open spec fn message_of(
    time: Seq<char>,
    target: Seq<char>,
    file: Seq<char>,
    line: u32,
    text: Seq<char>,
) -> Seq<char> {
    time + "  ["@ + target + ":"@ + file + ":"@ + decimal(line as nat) + "]  "@ + text
}

impl SimpleLogger {
    /// Whether messages of `level` are written at all: those of `Info` and
    /// above.
    pub fn enabled(&self, level: Level) -> (r: bool)
        ensures
            r == (level == Level::Error || level == Level::Warn || level == Level::Info),
    {
        match level {
            Level::Error | Level::Warn | Level::Info => true,
            _ => false,
        }
    }

    /// The message `text`, written at `time` by `target` at `line` of
    /// `file`.
    pub fn message(&self, time: &str, target: &str, file: &str, line: u32, text: &str) -> (r:
        String)
        ensures
            r@ == message_of(time@, target@, file@, line, text@),
    {
        let mut r = owned(time);
        r.append("  [");
        r.append(target);
        r.append(":");
        r.append(file);
        r.append(":");
        push_decimal(&mut r, line as u128);
        r.append("]  ");
        r.append(text);
        r
    }

    /// The line that shows `message` at `level`.
    pub fn line(&self, level: Level, message: &str) -> (r: String)
        ensures
            r@ == prefix_of(level) + message@,
    {
        let mut r = match level {
            Level::Error => owned("\x1b[91mERROR\x1b[0m:      "),
            Level::Warn => owned("\x1b[93mWARNING\x1b[0m:    "),
            Level::Info => owned("\x1b[92mINFO\x1b[0m:       "),
            Level::Debug => owned("\x1b[32mDEBUG\x1b[0m:      "),
            Level::Trace => owned("\x1b[32m\x1b[1mCRITICAL\x1b[0m: "),
        };
        r.append(message);
        r
    }
}

} // verus!
