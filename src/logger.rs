use vstd::prelude::*;

verus! {

/// Severity of a log record, from the most to the least severe.
#[derive(Clone, Copy, Debug, PartialEq, Eq, Structural)]
pub enum LogLevel {
    /// Stops the application.
    Fatal,
    /// A critical runtime problem that makes the application run improperly or not at all.
    Error,
    /// A non-critical problem that makes the application run suboptimally.
    Warn,
    /// Informational.
    Info,
    /// For debugging.
    Debug,
    /// Verbose debugging.
    Trace,
}

impl LogLevel {
    pub open spec fn spec_rank(self) -> u8 {
        match self {
            LogLevel::Fatal => 0,
            LogLevel::Error => 1,
            LogLevel::Warn => 2,
            LogLevel::Info => 3,
            LogLevel::Debug => 4,
            LogLevel::Trace => 5,
        }
    }

    pub open spec fn spec_prefix(self) -> Seq<char> {
        match self {
            LogLevel::Fatal => "[FATAL]: "@,
            LogLevel::Error => "[ERROR]: "@,
            LogLevel::Warn => "[WARN]:  "@,
            LogLevel::Info => "[INFO]:  "@,
            LogLevel::Debug => "[DEBUG]: "@,
            LogLevel::Trace => "[TRACE]: "@,
        }
    }

    pub open spec fn spec_colour(self) -> Seq<char> {
        match self {
            LogLevel::Fatal => "0;41"@,
            LogLevel::Error => "1;31"@,
            LogLevel::Warn => "1;33"@,
            LogLevel::Info => "1;32"@,
            LogLevel::Debug => "1;34"@,
            LogLevel::Trace => "1;30"@,
        }
    }

    /// Position in the order of severity; 0 is the most severe.
    pub fn rank(self) -> (r: u8)
        ensures
            r == self.spec_rank(),
    {
        match self {
            LogLevel::Fatal => 0,
            LogLevel::Error => 1,
            LogLevel::Warn => 2,
            LogLevel::Info => 3,
            LogLevel::Debug => 4,
            LogLevel::Trace => 5,
        }
    }

    /// The tag that starts a record of this level.
    pub fn prefix(self) -> (r: &'static str)
        ensures
            r@ == self.spec_prefix(),
    {
        match self {
            LogLevel::Fatal => "[FATAL]: ",
            LogLevel::Error => "[ERROR]: ",
            LogLevel::Warn => "[WARN]:  ",
            LogLevel::Info => "[INFO]:  ",
            LogLevel::Debug => "[DEBUG]: ",
            LogLevel::Trace => "[TRACE]: ",
        }
    }

    /// The ANSI colour attributes a console shows records of this level in.
    pub fn colour(self) -> (r: &'static str)
        ensures
            r@ == self.spec_colour(),
    {
        match self {
            LogLevel::Fatal => "0;41",
            LogLevel::Error => "1;31",
            LogLevel::Warn => "1;33",
            LogLevel::Info => "1;32",
            LogLevel::Debug => "1;34",
            LogLevel::Trace => "1;30",
        }
    }

    /// Whether records of this level go to the error stream: those more severe
    /// than warnings.
    pub fn is_error(self) -> (r: bool)
        ensures
            r == (self.spec_rank() < LogLevel::Warn.spec_rank()),
    {
        self.rank() < LogLevel::Warn.rank()
    }
}

/// The record for `message` at `level`: the level's tag, the message and a
/// line break.
pub fn log_output(level: LogLevel, message: &str) -> (r: String)
    ensures
        r@ == level.spec_prefix() + message@ + seq!['\n'],
{
    let mut out = String::from_str(level.prefix());
    out.append(message);
    out.append("\n");
    proof {
        reveal_strlit("\n");
    }
    out
}

} // verus!
