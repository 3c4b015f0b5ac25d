//! The validated configuration the CLI shell hands to the core, and the
//! log-level selection rule.

use vstd::prelude::*;
use crate::rename::FileRenamer;

verus! {

/// Everything one rename invocation needs, fully validated by the shell:
/// the directory to scan, the extension to keep, the pattern to replace and
/// its replacement, and the chosen log level.
#[derive(Debug, Clone)]
pub struct RenameCommandArgs {
    pub path: String,
    pub file_type: String,
    pub current: String,
    pub new: String,
    pub loglevel: String,
}

/// The fixed set of log levels the shell may select.
#[derive(Debug, Clone, Copy, PartialEq, Eq, Structural)]
pub enum LogChoice {
    Info,
    Debug,
    Error,
    Warn,
}

/// The level a configured name selects: `info`, `debug` and `error` name
/// themselves, and every other string falls back to `warn`.
pub fn chosen_log_level(level: &str) -> (r: LogChoice)
    ensures
        r == (if level@ == "info"@ {
            LogChoice::Info
        } else if level@ == "debug"@ {
            LogChoice::Debug
        } else if level@ == "error"@ {
            LogChoice::Error
        } else {
            LogChoice::Warn
        }),
{
    if crate::names::str_eq(level, "info") {
        LogChoice::Info
    } else if crate::names::str_eq(level, "debug") {
        LogChoice::Debug
    } else if crate::names::str_eq(level, "error") {
        LogChoice::Error
    } else {
        LogChoice::Warn
    }
}

impl RenameCommandArgs {
    /// The renamer this configuration describes.
    pub fn renamer(&self) -> (r: FileRenamer)
        ensures
            r.file_type@ == self.file_type@,
            r.current@ == self.current@,
            r.new@ == self.new@,
    {
        FileRenamer {
            file_type: self.file_type.clone(),
            current: self.current.clone(),
            new: self.new.clone(),
        }
    }
}

} // verus!
