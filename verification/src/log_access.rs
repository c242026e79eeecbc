//! Where the log file lies, and what a request for its contents is answered
//! with.
//!
//! Nothing here touches the file system. The shell supplies the directories
//! that the platform names and reports what it found at a path; the rules for
//! building the paths and for answering are here.

use vstd::prelude::*;
use vstd::string::StrSliceExecFns;
use vstd::string::StringExecFns;

verus! {

/// The character that separates the segments of a path.
pub const SEPARATOR: char = '/';

/// `base` with `segment` appended as a further path segment: one separator
/// goes between them, unless `base` is empty or ends in one already.
pub open spec fn joined(base: Seq<char>, segment: Seq<char>) -> Seq<char> {
    if base.len() == 0 || base.last() == SEPARATOR {
        base + segment
    } else {
        base + seq![SEPARATOR] + segment
    }
}

/// The name of the log file of the application `app_id`.
pub open spec fn log_file_name_of(app_id: Seq<char>) -> Seq<char> {
    app_id + ".log"@
}

/// The log file's place below the platform's directory for local
/// application data: the application's own folder, `logs` in it, and the log
/// file in that.
pub open spec fn log_path_of(local_data_dir: Seq<char>, app_id: Seq<char>) -> Seq<char> {
    joined(joined(joined(local_data_dir, app_id), "logs"@), log_file_name_of(app_id))
}

/// The log file's place in the directory that the platform names for the
/// application's logs.
pub open spec fn download_path_of(app_log_dir: Seq<char>, app_id: Seq<char>) -> Seq<char> {
    joined(app_log_dir, log_file_name_of(app_id))
}

/// What the message of a missing log file begins with; the path follows.
pub open spec fn not_found_prefix() -> Seq<char> {
    "Log file not found: "@
}

/// Whether `part` stands somewhere in `text`, whole and in one piece.
pub open spec fn occurs_in(part: Seq<char>, text: Seq<char>) -> bool {
    exists|start: int|
        0 <= start && start + part.len() <= text.len() && #[trigger] text.subrange(
            start,
            start + part.len(),
        ) == part
}

/// Appends `segment` to `base` as a further path segment.
pub fn join(base: &str, segment: &str) -> (path: String)
    ensures
        path@ == joined(base@, segment@),
{
    let length = base.unicode_len();
    let mut path = String::from_str(base);
    if length > 0 && base.get_char(length - 1) != SEPARATOR {
        proof {
            reveal_strlit("/");
            assert("/"@ =~= seq![SEPARATOR]);
        }
        path.append("/");
    }
    path.append(segment);
    path
}

/// The name of the log file of the application `app_id`.
pub fn log_file_name(app_id: &str) -> (name: String)
    ensures
        name@ == log_file_name_of(app_id@),
{
    let mut name = String::from_str(app_id);
    name.append(".log");
    name
}

/// The path of the log file, given the platform's directory for local
/// application data. Where the platform names no such directory there is no
/// path, and that is no error. No directory is looked at or made.
pub fn get_log_path(local_data_dir: Option<&str>, app_id: &str) -> (path: Option<String>)
    ensures
        match local_data_dir {
            Some(dir) => path matches Some(found) && found@ == log_path_of(dir@, app_id@),
            None => path is None,
        },
        path matches Some(found) ==> (seq!['l', 'o', 'g', 's', SEPARATOR] + log_file_name_of(
            app_id@,
        )).is_suffix_of(found@),
{
    match local_data_dir {
        Some(dir) => {
            let home = join(dir, app_id);
            let folder = join(home.as_str(), "logs");
            let name = log_file_name(app_id);
            let found = join(folder.as_str(), name.as_str());
            proof {
                lemma_log_path_ends_in_logs(dir@, app_id@);
            }
            Some(found)
        },
        None => None,
    }
}

/// The path from which the log file is read for download, given the
/// directory that the platform names for the application's logs.
pub fn download_path(app_log_dir: &str, app_id: &str) -> (path: String)
    ensures
        path@ == download_path_of(app_log_dir@, app_id@),
{
    let name = log_file_name(app_id);
    join(app_log_dir, name.as_str())
}

/// What the shell found when it went to read a file.
#[derive(Debug, PartialEq, Eq)]
pub enum FileProbe {
    /// There is no file at the path.
    Missing,
    /// The file was read; these are its bytes, all of them.
    Contents(Vec<u8>),
    /// Reading failed; this is how the system describes the failure.
    Failed(String),
}

/// Why the log could not be handed over.
#[derive(Debug, PartialEq, Eq)]
pub enum LogError {
    /// There is no log file at `path`.
    NotFound { path: String },
    /// Reading the log file failed.
    Io { description: String },
}

impl LogError {
    /// The text of the error.
    pub open spec fn message_of(self) -> Seq<char> {
        match self {
            LogError::NotFound { path } => not_found_prefix() + path@,
            LogError::Io { description } => description@,
        }
    }

    /// The text of the error, as the front end is shown it: for a missing
    /// file it ends in the path that was tried, for a failed read it is the
    /// system's own description.
    pub fn message(&self) -> (text: String)
        ensures
            text@ == self.message_of(),
            self matches LogError::NotFound { path } ==> occurs_in(path@, text@),
    {
        match self {
            LogError::NotFound { path } => {
                let mut text = String::from_str("Log file not found: ");
                text.append(path.as_str());
                proof {
                    lemma_not_found_names_path(path@);
                }
                text
            },
            LogError::Io { description } => description.clone(),
        }
    }
}

/// Answers a request for the log's contents, given the path that was tried
/// and what the shell found there: the bytes as they were read, or the error
/// that says why there are none.
pub fn download_log(path: &str, probe: FileProbe) -> (outcome: Result<Vec<u8>, LogError>)
    ensures
        match probe {
            FileProbe::Missing => outcome matches Err(LogError::NotFound { path: tried })
                && tried@ == path@,
            FileProbe::Contents(bytes) => outcome == Ok::<Vec<u8>, LogError>(bytes),
            FileProbe::Failed(description) => outcome == Err::<Vec<u8>, LogError>(
                LogError::Io { description },
            ),
        },
{
    match probe {
        FileProbe::Missing => Err(LogError::NotFound { path: String::from_str(path) }),
        FileProbe::Contents(bytes) => Ok(bytes),
        FileProbe::Failed(description) => Err(LogError::Io { description }),
    }
}

/// Whatever the directory and the application, the log path ends in the
/// `logs` folder, one separator and the log file's name.
pub proof fn lemma_log_path_ends_in_logs(local_data_dir: Seq<char>, app_id: Seq<char>)
    ensures
        (seq!['l', 'o', 'g', 's', SEPARATOR] + log_file_name_of(app_id)).is_suffix_of(
            log_path_of(local_data_dir, app_id),
        ),
{
    reveal_strlit("logs");
    let home = joined(local_data_dir, app_id);
    let folder = joined(home, "logs"@);
    let name = log_file_name_of(app_id);
    let path = joined(folder, name);
    let tail = seq!['l', 'o', 'g', 's', SEPARATOR] + name;
    let lead = if home.len() == 0 || home.last() == SEPARATOR {
        home
    } else {
        home + seq![SEPARATOR]
    };
    assert(folder =~= lead + "logs"@);
    assert(folder.last() == 's');
    assert(path =~= lead + tail);
    assert(path.subrange(path.len() - tail.len(), path.len() as int) =~= tail);
}

/// The two derivations name one file exactly where the platform's log
/// directory is the `logs` folder of the application's local data. Where the
/// platform keeps logs elsewhere, the path that is shown and the path that is
/// read differ.
pub proof fn lemma_paths_meet(local_data_dir: Seq<char>, app_log_dir: Seq<char>, app_id: Seq<char>)
    requires
        app_log_dir == joined(joined(local_data_dir, app_id), "logs"@),
    ensures
        download_path_of(app_log_dir, app_id) == log_path_of(local_data_dir, app_id),
{
}

/// The message of a missing log file holds the path that was tried.
pub proof fn lemma_not_found_names_path(path: Seq<char>)
    ensures
        occurs_in(path, not_found_prefix() + path),
{
    let text = not_found_prefix() + path;
    let start = not_found_prefix().len() as int;
    assert(text.subrange(start, start + path.len()) =~= path);
}

} // verus!
