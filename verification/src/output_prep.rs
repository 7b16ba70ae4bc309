//! Priming of the output path before a container is launched.
//!
//! Directories are never valid output targets: a directory found at the
//! output path (stale state from an earlier crashed run) is removed, and the
//! output file is then created fresh and empty. A container that writes
//! nothing therefore still leaves an empty, readable file behind.

use vstd::prelude::*;

verus! {

/// What a filesystem path may hold, as the priming step models it.
pub enum PathModel {
    Absent,
    File { bytes: Seq<u8> },
    Dir,
}

/// What the coordinator observed a path to hold: a regular file, a
/// directory, or (`Missing`) neither — the path absent, something else, or
/// the inspection itself failing.
pub enum PathKind {
    Missing,
    IsFile,
    IsDir,
}

/// The observation that a path in a given model state produces.
pub open spec fn kind_of(m: PathModel) -> PathKind {
    match m {
        PathModel::Absent => PathKind::Missing,
        PathModel::File { .. } => PathKind::IsFile,
        PathModel::Dir => PathKind::IsDir,
    }
}

/// Removing a directory tree: defined only on a directory, and leaves the
/// path absent.
pub open spec fn remove_dir_all_model(m: PathModel) -> Option<PathModel> {
    match m {
        PathModel::Dir => Some(PathModel::Absent),
        _ => None,
    }
}

/// Opening a path with create + write + truncate: fails on a directory, and
/// otherwise leaves a regular, empty file whatever was there before.
pub open spec fn create_truncate_model(m: PathModel) -> Option<PathModel> {
    match m {
        PathModel::Dir => None,
        _ => Some(PathModel::File { bytes: Seq::empty() }),
    }
}

/// The state the output path reaches when the priming plan `remove_first`
/// is carried out on a path in state `m`.
pub open spec fn apply_prime_plan(m: PathModel, remove_first: bool) -> Option<PathModel> {
    if remove_first {
        match remove_dir_all_model(m) {
            Some(m2) => create_truncate_model(m2),
            None => None,
        }
    } else {
        create_truncate_model(m)
    }
}

/// Decides the priming plan from what was observed at the output path:
/// remove the directory tree first exactly when a directory is in the way,
/// then (in either case) create the output file fresh and empty.
pub fn prime_plan(kind: &PathKind) -> (remove_first: bool)
    ensures
        remove_first == (kind is IsDir),
{
    match kind {
        PathKind::IsDir => true,
        _ => false,
    }
}

/// Idempotent output priming: whatever the output path held before (absent,
/// an empty file, a non-empty file, or a directory), carrying out the plan
/// that `prime_plan` picks for that state always succeeds and always leaves
/// a regular, empty file.
pub proof fn lemma_priming_always_leaves_empty_file(m: PathModel)
    ensures
        apply_prime_plan(m, kind_of(m) is IsDir) == Some(
            PathModel::File { bytes: Seq::<u8>::empty() },
        ),
{
}

} // verus!
