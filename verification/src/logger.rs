//! The log of a rendering session: where it is kept and what is written to
//! it. Writing itself is left to the caller.

use vstd::prelude::*;
use vstd::string::StringExecFns;

verus! {

/// A log kept in one file.
pub struct Logger {
    log_file: String,
}

/// The first words of a log, in front of the time at which it was started.
pub open spec fn header_prefix() -> Seq<char> {
    "GL_LOG_FILE log. local time "@
}

/// The rest of the head of a log, behind the time at which it was started.
pub open spec fn header_suffix() -> Seq<char> {
    "build version: ??? ?? ???? ??:??:??\n\n"@
}

impl Logger {
    /// The path of the file that the log is kept in.
    pub closed spec fn path(&self) -> Seq<char> {
        self.log_file@
    }

    /// Makes the logger of the file at `log_file`.
    pub fn new(log_file: &str) -> (logger: Logger)
        ensures
            logger.path() == log_file@,
    {
        Logger { log_file: String::from_str(log_file) }
    }

    /// Makes the logger of the file at `log_file`.
    pub fn from_log_file(log_file: &str) -> (logger: Logger)
        ensures
            logger.path() == log_file@,
    {
        Logger { log_file: String::from_str(log_file) }
    }

    /// The path of the file that the log is kept in.
    pub fn log_file(&self) -> (path: &str)
        ensures
            path@ == self.path(),
    {
        self.log_file.as_str()
    }

    /// The head of a log started at the time that `date` spells out.
    pub fn header(&self, date: &str) -> (text: String)
        ensures
            text@ == header_prefix() + date@ + header_suffix(),
    {
        String::from_str("GL_LOG_FILE log. local time ").concat(date).concat(
            "build version: ??? ?? ???? ??:??:??\n\n",
        )
    }

    /// The line that records `message`.
    pub fn entry(&self, message: &str) -> (text: String)
        ensures
            text@ == message@ + "\n"@,
    {
        String::from_str(message).concat("\n")
    }
}

} // verus!
