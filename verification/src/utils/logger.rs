//! How the log lines are coloured.

use vstd::prelude::*;

verus! {

#[derive(Debug, Clone, Copy, PartialEq, Eq, Structural, Hash)]
pub enum Level {
    Error,
    Warn,
    Info,
    Debug,
    Trace,
}

#[derive(Debug, Clone, Copy, PartialEq, Eq, Structural, Hash)]
pub enum Color {
    Red,
    Yellow,
    Green,
    Blue,
    Purple,
    Cyan,
    Normal,
}

/// The colour of a level in a log line.
pub open spec fn spec_level_color(level: Level) -> Color {
    match level {
        Level::Error => Color::Red,
        Level::Warn => Color::Yellow,
        Level::Info => Color::Green,
        Level::Debug => Color::Blue,
        Level::Trace => Color::Purple,
    }
}

/// The colour of a response status in a log line, by its class.
pub open spec fn spec_status_color(status: u16) -> Color {
    if 500 <= status <= 599 {
        Color::Red
    } else if 400 <= status <= 499 {
        Color::Yellow
    } else if 300 <= status <= 399 {
        Color::Blue
    } else if 200 <= status <= 299 {
        Color::Green
    } else if 100 <= status <= 199 {
        Color::Purple
    } else {
        Color::Normal
    }
}

#[verifier::when_used_as_spec(spec_level_color)]
pub fn level_color(level: Level) -> (color: Color)
    ensures
        color == spec_level_color(level),
{
    match level {
        Level::Error => Color::Red,
        Level::Warn => Color::Yellow,
        Level::Info => Color::Green,
        Level::Debug => Color::Blue,
        Level::Trace => Color::Purple,
    }
}

#[verifier::when_used_as_spec(spec_status_color)]
pub fn status_color(status: u16) -> (color: Color)
    ensures
        color == spec_status_color(status),
{
    if status >= 500 && status <= 599 {
        Color::Red
    } else if status >= 400 && status <= 499 {
        Color::Yellow
    } else if status >= 300 && status <= 399 {
        Color::Blue
    } else if status >= 200 && status <= 299 {
        Color::Green
    } else if status >= 100 && status <= 199 {
        Color::Purple
    } else {
        Color::Normal
    }
}

} // verus!
