//! The fixed set-up of the shell's log: how much is logged, and where to.

use vstd::prelude::*;
use vstd::string::StringExecFns;
use crate::log_access::{download_path_of, joined, log_file_name_of};

verus! {

/// How much is logged: records of the level chosen and of every level named
/// before it.
#[derive(Clone, Copy, Debug, PartialEq, Eq, Structural)]
pub enum LogLevel {
    Error,
    Warn,
    Info,
    Debug,
    Trace,
}

/// One place that log records go to.
#[derive(Debug, PartialEq, Eq)]
pub enum LogTarget {
    /// A file in the directory that the platform names for the application's
    /// logs; the file's name is `file_stem` and the log suffix.
    LogDir { file_stem: String },
    /// The standard output.
    Stdout,
}

/// The level at which the shell logs.
pub const LOG_LEVEL: LogLevel = LogLevel::Info;

impl LogTarget {
    /// Whether this target is the file named after `app_id` in the log
    /// directory.
    pub open spec fn is_log_file_of(self, app_id: Seq<char>) -> bool {
        self matches LogTarget::LogDir { file_stem } && file_stem@ == app_id
    }

    /// The path of the file that this target writes, if it writes one, given
    /// the directory that the platform names for the application's logs.
    pub open spec fn file_in(self, app_log_dir: Seq<char>) -> Option<Seq<char>> {
        match self {
            LogTarget::LogDir { file_stem } => Some(
                joined(app_log_dir, log_file_name_of(file_stem@)),
            ),
            LogTarget::Stdout => None,
        }
    }
}

/// The places that the log of the application `app_id` goes to: its log file
/// first, then the standard output.
pub fn log_targets(app_id: &str) -> (targets: Vec<LogTarget>)
    ensures
        targets@.len() == 2,
        targets@[0].is_log_file_of(app_id@),
        targets@[1] == LogTarget::Stdout,
{
    let mut targets: Vec<LogTarget> = Vec::new();
    targets.push(LogTarget::LogDir { file_stem: String::from_str(app_id) });
    targets.push(LogTarget::Stdout);
    targets
}

/// The file that the log is written to is the file that a download reads:
/// both lie in the platform's log directory under the log file's name.
pub proof fn lemma_download_reads_what_is_written(
    target: LogTarget,
    app_log_dir: Seq<char>,
    app_id: Seq<char>,
)
    requires
        target.is_log_file_of(app_id),
    ensures
        target.file_in(app_log_dir) == Some(download_path_of(app_log_dir, app_id)),
{
}

} // verus!
