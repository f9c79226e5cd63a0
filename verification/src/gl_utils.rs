//! Helpers of the rendering front end that need no graphics context.

use vstd::prelude::*;

use crate::logger::Logger;

verus! {

/// Starts over with the log kept at `log_file`.
pub fn restart_gl_log(log_file: &str) -> (logger: Logger)
    ensures
        logger.path() == log_file@,
{
    Logger::from_log_file(log_file)
}

} // verus!
