//! File organization: moving files into category subdirectories.
//!
//! The library decides the moves; the surrounding binary performs them.
//! `FileOrganizer::move_to_category` turns one file and its category into
//! a `MovePlan` that says which directory must exist and which rename to
//! perform, and yields the `Operation` record that makes the move
//! reversible.  `OperationLog` collects those records for one run.

use vstd::prelude::*;

use crate::strpath::file_name_of;
use crate::strpath::join_path;
use crate::strpath::spec_file_name;
use crate::strpath::spec_join;

verus! {

/// A record of one completed move: where the file was, where it went,
/// and under which category.
#[derive(Debug, Clone)]
pub struct Operation {
    /// The path of the file before organization.
    pub original_path: String,
    /// The path of the file after organization.
    pub new_path: String,
    /// The directory name of the category the file was moved to.
    pub category: String,
}

/// The ordered record of all moves of one organization run.
#[derive(Debug, Clone)]
pub struct OperationLog {
    /// ISO-8601 timestamp of when the run started.
    pub timestamp: String,
    /// The directory the run organized.
    pub base_path: String,
    /// Every move performed, in the order it was performed.
    pub operations: Vec<Operation>,
}

/// Relies on chrono::Utc::now and DateTime::to_rfc3339 for the current
/// time rendered as an ISO-8601 string; nothing is assumed of the value.
#[verifier::external_body]
fn utc_now_rfc3339() -> (r: String) {
    chrono::Utc::now().to_rfc3339()
}

/// The fixed name of the history file kept inside an organized directory.
pub fn history_file_name() -> (r: &'static str)
    ensures
        r@ == ".dirtidy_history.json"@,
{
    ".dirtidy_history.json"
}

impl OperationLog {
    /// Creates an empty log for a run over `base_path`, stamped with the
    /// current time.
    pub fn new(base_path: String) -> (r: Self)
        ensures
            r.base_path@ == base_path@,
            r.operations@ == Seq::<Operation>::empty(),
    {
        OperationLog { timestamp: utc_now_rfc3339(), base_path, operations: Vec::new() }
    }

    /// Appends one completed move to the log.
    pub fn add_operation(&mut self, operation: Operation)
        ensures
            final(self).operations@ == old(self).operations@.push(operation),
            final(self).timestamp@ == old(self).timestamp@,
            final(self).base_path@ == old(self).base_path@,
    {
        self.operations.push(operation);
    }

    /// The path of the history file for a base directory.
    pub fn history_file_path(base_path: &str) -> (r: String)
        ensures
            r@ == spec_join(base_path@, ".dirtidy_history.json"@),
    {
        join_path(base_path, history_file_name())
    }
}

/// Errors that can occur during organization and undo.  Causes that the
/// filesystem reported are carried as rendered strings.
#[derive(Debug, Clone)]
pub enum OrganizeError {
    /// A category directory could not be created.
    DirectoryCreationFailed {
        /// The directory that could not be created.
        path: String,
        /// The underlying cause.
        source: String,
    },
    /// A file could not be moved to its category directory.
    FileMoveFailure {
        /// The file that was to be moved.
        source: String,
        /// Where it was to be moved.
        destination: String,
        /// The underlying cause.
        source_error: String,
    },
    /// The base directory is missing.
    InvalidBasePath {
        /// The missing directory.
        path: String,
        /// The underlying cause.
        source: String,
    },
    /// The history file could not be written.
    HistoryWriteFailed {
        /// The underlying cause.
        source: String,
    },
    /// The history file could not be read.
    HistoryReadFailed {
        /// The underlying cause.
        source: String,
    },
    /// The history file does not hold a well-formed record.
    InvalidHistoryFormat {
        /// Which part is missing or malformed.
        reason: String,
    },
}

impl OrganizeError {
    /// A human-readable rendering of the error.
    pub fn message(&self) -> (r: String)
        ensures
            r@ == match *self {
                OrganizeError::DirectoryCreationFailed { ref path, ref source } =>
                    "Failed to create directory "@ + path@ + ": "@ + source@,
                OrganizeError::FileMoveFailure { ref source, ref destination, ref source_error } =>
                    "Failed to move "@ + source@ + " to "@ + destination@ + ": "@ + source_error@,
                OrganizeError::InvalidBasePath { ref path, ref source } => "Invalid base path "@
                    + path@ + ": "@ + source@,
                OrganizeError::HistoryWriteFailed { ref source } =>
                    "Failed to write history file: "@ + source@,
                OrganizeError::HistoryReadFailed { ref source } =>
                    "Failed to read history file: "@ + source@,
                OrganizeError::InvalidHistoryFormat { ref reason } =>
                    "Invalid history file format: "@ + reason@,
            },
    {
        match self {
            OrganizeError::DirectoryCreationFailed { path, source } => {
                "Failed to create directory ".to_owned().concat(path.as_str()).concat(": ").concat(
                    source.as_str(),
                )
            },
            OrganizeError::FileMoveFailure { source, destination, source_error } => {
                "Failed to move ".to_owned().concat(source.as_str()).concat(" to ").concat(
                    destination.as_str(),
                ).concat(": ").concat(source_error.as_str())
            },
            OrganizeError::InvalidBasePath { path, source } => {
                "Invalid base path ".to_owned().concat(path.as_str()).concat(": ").concat(
                    source.as_str(),
                )
            },
            OrganizeError::HistoryWriteFailed { source } => {
                "Failed to write history file: ".to_owned().concat(source.as_str())
            },
            OrganizeError::HistoryReadFailed { source } => {
                "Failed to read history file: ".to_owned().concat(source.as_str())
            },
            OrganizeError::InvalidHistoryFormat { reason } => {
                "Invalid history file format: ".to_owned().concat(reason.as_str())
            },
        }
    }
}

/// Result type for organization operations.
pub type OrganizeResult<T> = Result<T, OrganizeError>;

/// The decided actions for moving one file into its category directory:
/// make sure `category_path` exists, then rename the file from
/// `operation.original_path` to `operation.new_path`.
#[derive(Debug, Clone)]
pub struct MovePlan {
    /// The category directory to create when absent.
    pub category_path: String,
    /// The reversible record of the move, naming source and destination.
    pub operation: Operation,
}

/// What the move decision must look like for the given inputs.
pub open spec fn move_to_category_post(
    base_path: Seq<char>,
    file_path: Seq<char>,
    category_dir_name: Seq<char>,
    base_path_exists: bool,
    r: OrganizeResult<MovePlan>,
) -> bool {
    let category_path = spec_join(base_path, category_dir_name);
    if !base_path_exists {
        match r {
            Err(OrganizeError::InvalidBasePath { path, source }) => path@ == base_path && source@
                == "base path does not exist"@,
            _ => false,
        }
    } else {
        match spec_file_name(file_path) {
            None => match r {
                Err(OrganizeError::FileMoveFailure { source, destination, source_error }) => {
                    &&& source@ == file_path
                    &&& destination@ == category_path
                    &&& source_error@ == "file has no name component"@
                },
                _ => false,
            },
            Some(name) => match r {
                Ok(plan) => {
                    &&& plan.category_path@ == category_path
                    &&& plan.operation.original_path@ == file_path
                    &&& plan.operation.new_path@ == spec_join(category_path, name)
                    &&& plan.operation.category@ == category_dir_name
                },
                _ => false,
            },
        }
    }
}

/// Organizes files by deciding their moves into category subdirectories.
pub struct FileOrganizer;

impl FileOrganizer {
    /// Decides the move of one file into its category directory inside
    /// the base directory.  The caller reports whether the base
    /// directory exists and performs the decided actions; a missing base
    /// directory or a path without a file name is rejected here.
    pub fn move_to_category(
        base_path: &str,
        file_path: &str,
        category_dir_name: &str,
        base_path_exists: bool,
    ) -> (r: OrganizeResult<MovePlan>)
        ensures
            move_to_category_post(
                base_path@,
                file_path@,
                category_dir_name@,
                base_path_exists,
                r,
            ),
    {
        if !base_path_exists {
            return Err(
                OrganizeError::InvalidBasePath {
                    path: base_path.to_owned(),
                    source: "base path does not exist".to_owned(),
                },
            );
        }
        let category_path = join_path(base_path, category_dir_name);
        match file_name_of(file_path) {
            None => Err(
                OrganizeError::FileMoveFailure {
                    source: file_path.to_owned(),
                    destination: category_path,
                    source_error: "file has no name component".to_owned(),
                },
            ),
            Some(name) => {
                let destination_path = join_path(category_path.as_str(), name.as_str());
                Ok(
                    MovePlan {
                        category_path,
                        operation: Operation {
                            original_path: file_path.to_owned(),
                            new_path: destination_path,
                            category: category_dir_name.to_owned(),
                        },
                    },
                )
            },
        }
    }
}

} // verus!
