//! Undoing a recorded organization.
//!
//! Operations are replayed in reverse order of recording.  For each one
//! the library decides a `RestorePlan` from what the caller observed on
//! the filesystem: skip the record when the moved file is gone, rename a
//! conflicting occupant of the original location aside first, then move
//! the file back.  The caller performs the renames and reports each
//! outcome into an `UndoReport`; the stored log may be deleted only
//! after a completely successful undo.
//!
//! The module also carries a model of the moves as a map from paths to
//! file contents, with the proof that undoing in reverse order restores
//! the state before the organization.

use vstd::prelude::*;

use crate::file_organizer::Operation;
use crate::strpath::file_name_of;
use crate::strpath::parent_of;
use crate::strpath::join_path;
use crate::strpath::spec_file_name;
use crate::strpath::spec_join;
use crate::strpath::spec_parent;

verus! {

/// The outcome of one undo invocation.
#[derive(Debug)]
pub struct UndoReport {
    /// Number of files successfully restored.
    pub restored_files: usize,
    /// Files that could not be restored, with the reason.
    pub failed_restores: Vec<(String, String)>,
    /// Files that were skipped (the moved file was gone), with the reason.
    pub skipped_files: Vec<(String, String)>,
}

impl UndoReport {
    /// Creates an empty report.
    pub fn new() -> (r: Self)
        ensures
            r.restored_files == 0,
            r.failed_restores@ == Seq::<(String, String)>::empty(),
            r.skipped_files@ == Seq::<(String, String)>::empty(),
    {
        UndoReport { restored_files: 0, failed_restores: Vec::new(), skipped_files: Vec::new() }
    }

    /// The total number of operations processed.
    pub fn total_processed(&self) -> (r: usize)
        requires
            self.restored_files + self.failed_restores@.len() + self.skipped_files@.len()
                <= usize::MAX,
        ensures
            r == self.restored_files + self.failed_restores@.len() + self.skipped_files@.len(),
    {
        self.restored_files + self.failed_restores.len() + self.skipped_files.len()
    }

    /// Whether every operation was restored: nothing failed and nothing
    /// was skipped.  The stored history may be deleted exactly when this
    /// holds.
    pub fn is_complete_success(&self) -> (r: bool)
        ensures
            r == (self.failed_restores@.len() == 0 && self.skipped_files@.len() == 0),
    {
        self.failed_restores.len() == 0 && self.skipped_files.len() == 0
    }

    /// Counts one successfully restored file.
    pub fn record_restored(&mut self)
        requires
            old(self).restored_files < usize::MAX,
        ensures
            final(self).restored_files == old(self).restored_files + 1,
            final(self).failed_restores@ == old(self).failed_restores@,
            final(self).skipped_files@ == old(self).skipped_files@,
    {
        self.restored_files = self.restored_files + 1;
    }

    /// Records one skipped operation with its reason.
    pub fn record_skipped(&mut self, path: String, reason: String)
        ensures
            final(self).skipped_files@ == old(self).skipped_files@.push((path, reason)),
            final(self).failed_restores@ == old(self).failed_restores@,
            final(self).restored_files == old(self).restored_files,
    {
        self.skipped_files.push((path, reason));
    }

    /// Records one failed restore with its reason.
    pub fn record_failed(&mut self, path: String, reason: String)
        ensures
            final(self).failed_restores@ == old(self).failed_restores@.push((path, reason)),
            final(self).skipped_files@ == old(self).skipped_files@,
            final(self).restored_files == old(self).restored_files,
    {
        self.failed_restores.push((path, reason));
    }
}

/// Relies on chrono::Local::now and DateTime::format for the current
/// local time rendered compactly; nothing is assumed of the value.
#[verifier::external_body]
fn local_timestamp() -> (r: String) {
    chrono::Local::now().format("%Y%m%d-%H%M%S").to_string()
}

/// The backup name for a conflicting occupant: the file name with
/// `.bak.` and a timestamp appended.
pub open spec fn spec_backup_name(name: Seq<char>, timestamp: Seq<char>) -> Seq<char> {
    name + ".bak."@ + timestamp
}

/// The backup path for a conflicting occupant: the backup name beside it
/// in the same parent directory.
pub open spec fn spec_backup_path(path: Seq<char>, timestamp: Seq<char>) -> Seq<char> {
    let name = match spec_file_name(path) {
        Some(n) => n,
        None => "file"@,
    };
    match spec_parent(path) {
        Some(p) => spec_join(p, spec_backup_name(name, timestamp)),
        None => spec_backup_name(name, timestamp),
    }
}

/// Builds the backup path for `original_path` with the given timestamp.
pub fn backup_path_for(original_path: &str, timestamp: &str) -> (r: String)
    ensures
        r@ == spec_backup_path(original_path@, timestamp@),
{
    let name: String = match file_name_of(original_path) {
        Some(n) => n,
        None => "file".to_owned(),
    };
    let backup_name = name.concat(".bak.").concat(timestamp);
    match parent_of(original_path) {
        Some(parent) => join_path(parent.as_str(), backup_name.as_str()),
        None => backup_name,
    }
}

/// The decided actions for restoring one recorded move.
#[derive(Debug, Clone)]
pub enum RestorePlan {
    /// The moved file is no longer at its recorded location; nothing is
    /// done and the operation is reported as skipped.
    Skip {
        /// The recorded location the file is missing from.
        path: String,
        /// Why the operation is skipped.
        reason: String,
    },
    /// Move the file at `from` back to `to`; when `backup` is set, first
    /// rename the conflicting occupant aside as it says.
    Restore {
        /// A conflicting occupant of the original location and the
        /// backup path it is renamed to, when one is present.
        backup: Option<(String, String)>,
        /// The file's current (recorded new) location.
        from: String,
        /// The file's original location.
        to: String,
    },
}

/// What the restore decision must look like, given what the caller
/// observed about the two locations.
pub open spec fn restore_plan_post(
    operation: Operation,
    new_path_exists: bool,
    original_path_exists: bool,
    r: RestorePlan,
) -> bool {
    if !new_path_exists {
        match r {
            RestorePlan::Skip { path, reason } => path@ == operation.new_path@ && reason@
                == "File not found at expected location"@,
            _ => false,
        }
    } else {
        match r {
            RestorePlan::Restore { backup, from, to } => {
                &&& from@ == operation.new_path@
                &&& to@ == operation.original_path@
                &&& if original_path_exists {
                    match backup {
                        Some(b) => b.0@ == operation.original_path@ && exists|ts: Seq<char>|
                            b.1@ == spec_backup_path(operation.original_path@, ts),
                        None => false,
                    }
                } else {
                    backup is None
                }
            },
            _ => false,
        }
    }
}

/// Decides how a recorded organization is reversed, one operation at a
/// time.
pub struct UndoManager;

impl UndoManager {
    /// Decides the restore actions for one recorded operation.  The
    /// caller reports whether a file currently sits at the recorded new
    /// location and at the original location; a missing moved file is
    /// skipped, a conflicting occupant is renamed aside to a
    /// timestamped backup, and otherwise the file is simply moved back.
    pub fn restore_plan(
        operation: &Operation,
        new_path_exists: bool,
        original_path_exists: bool,
    ) -> (r: RestorePlan)
        ensures
            restore_plan_post(*operation, new_path_exists, original_path_exists, r),
    {
        if !new_path_exists {
            return RestorePlan::Skip {
                path: operation.new_path.clone(),
                reason: "File not found at expected location".to_owned(),
            };
        }
        let backup: Option<(String, String)> = if original_path_exists {
            let timestamp = local_timestamp();
            let backup_path = backup_path_for(operation.original_path.as_str(), timestamp.as_str());
            Some((operation.original_path.clone(), backup_path))
        } else {
            None
        };
        RestorePlan::Restore {
            backup,
            from: operation.new_path.clone(),
            to: operation.original_path.clone(),
        }
    }
}

/// A filesystem model: the regular files as a map from path to content.
pub type FileMap = Map<Seq<char>, Seq<u8>>;

/// One recorded move is possible: the source exists, the destination
/// does not, and the two differ.
pub open spec fn can_move(fs: FileMap, op: Operation) -> bool {
    &&& fs.dom().contains(op.original_path@)
    &&& !fs.dom().contains(op.new_path@)
    &&& op.original_path@ != op.new_path@
}

/// The effect of one recorded move on the model.
pub open spec fn apply_move(fs: FileMap, op: Operation) -> FileMap {
    fs.remove(op.original_path@).insert(op.new_path@, fs[op.original_path@])
}

/// The effect of the whole recorded sequence, in order.
pub open spec fn apply_moves(fs: FileMap, ops: Seq<Operation>) -> FileMap
    decreases ops.len(),
{
    if ops.len() == 0 {
        fs
    } else {
        apply_move(apply_moves(fs, ops.drop_last()), ops.last())
    }
}

/// Every move of the sequence is possible at its turn.
pub open spec fn can_move_all(fs: FileMap, ops: Seq<Operation>) -> bool
    decreases ops.len(),
{
    ops.len() == 0 || {
        &&& can_move_all(fs, ops.drop_last())
        &&& can_move(apply_moves(fs, ops.drop_last()), ops.last())
    }
}

/// The effect of restoring one recorded move: whatever content now sits
/// at the recorded new location goes back to the original location.
pub open spec fn apply_restore(fs: FileMap, op: Operation) -> FileMap {
    fs.remove(op.new_path@).insert(op.original_path@, fs[op.new_path@])
}

/// The effect of undoing the whole recorded sequence, last move first.
pub open spec fn undo_moves(fs: FileMap, ops: Seq<Operation>) -> FileMap
    decreases ops.len(),
{
    if ops.len() == 0 {
        fs
    } else {
        undo_moves(apply_restore(fs, ops.last()), ops.drop_last())
    }
}

/// Restoring a move undoes it exactly.
pub proof fn lemma_restore_undoes_move(fs: FileMap, op: Operation)
    requires
        can_move(fs, op),
    ensures
        apply_restore(apply_move(fs, op), op) == fs,
{
    assert(apply_restore(apply_move(fs, op), op) =~= fs);
}

/// Organizing and then undoing is the identity: replaying the recorded
/// moves in reverse restores every file to its original path with its
/// original content.
pub proof fn lemma_organize_then_undo_round_trip(fs: FileMap, ops: Seq<Operation>)
    requires
        can_move_all(fs, ops),
    ensures
        undo_moves(apply_moves(fs, ops), ops) == fs,
    decreases ops.len(),
{
    if ops.len() > 0 {
        let prev = apply_moves(fs, ops.drop_last());
        lemma_restore_undoes_move(prev, ops.last());
        lemma_organize_then_undo_round_trip(fs, ops.drop_last());
    }
}

/// The effect of renaming a conflicting occupant aside before a
/// restore.
pub open spec fn apply_backup(fs: FileMap, path: Seq<char>, backup: Seq<char>) -> FileMap {
    fs.remove(path).insert(backup, fs[path])
}

/// A conflicting occupant of the original location is renamed aside,
/// never overwritten or deleted: after the backup move and the restore,
/// the backup path holds the occupant's content, the original location
/// holds the moved file's content, and the recorded new location is
/// empty.
pub proof fn lemma_backup_preserves_occupant(fs: FileMap, op: Operation, backup: Seq<char>)
    requires
        fs.dom().contains(op.new_path@),
        fs.dom().contains(op.original_path@),
        !fs.dom().contains(backup),
        backup != op.new_path@,
        backup != op.original_path@,
        op.original_path@ != op.new_path@,
    ensures
        ({
            let after = apply_restore(apply_backup(fs, op.original_path@, backup), op);
            &&& after.dom().contains(backup)
            &&& after[backup] == fs[op.original_path@]
            &&& after.dom().contains(op.original_path@)
            &&& after[op.original_path@] == fs[op.new_path@]
            &&& !after.dom().contains(op.new_path@)
        }),
{
}

/// A restore moves the content that sits at the recorded new location
/// now: a mutation made after the organization is preserved by the
/// restore, not discarded.
pub proof fn lemma_restore_uses_current_content(fs: FileMap, op: Operation)
    requires
        fs.dom().contains(op.new_path@),
    ensures
        undo_moves(fs, seq![op]).dom().contains(op.original_path@),
        undo_moves(fs, seq![op])[op.original_path@] == fs[op.new_path@],
{
    let ops = seq![op];
    assert(ops.len() == 1);
    assert(ops.last() == op);
    assert(ops.drop_last() =~= Seq::<Operation>::empty());
    assert(undo_moves(fs, ops) == undo_moves(apply_restore(fs, op), ops.drop_last()));
    assert(undo_moves(apply_restore(fs, op), ops.drop_last()) == apply_restore(fs, op));
}

} // verus!
