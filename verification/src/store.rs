//! Config store decisions: what the idempotent global-config bootstrap does
//! for each state of the config directory and file.
//!
//! The caller inspects the filesystem, asks `ensure_global_plan` what to do,
//! and executes the plan: create the directory, write the synthesized
//! default content, stop on a conflict, or just load what is there. The
//! ghost `StoreState` models the two filesystem facts the plan reads plus
//! the file's content, which lets the idempotence of the whole operation be
//! stated and proved here even though the writes happen outside.

use vstd::prelude::*;

verus! {

/// What the bootstrap does about the global config file itself.
#[derive(Clone, Copy, PartialEq, Eq, Structural, Debug)]
pub enum EnsureAction {
    /// No file: write the synthesized default content, then load it.
    WriteDefault,
    /// Something that is not a regular file sits at the expected path;
    /// fatal (`RmndError::PathConflict`).
    Conflict,
    /// A regular file is present: load it, writing nothing.
    LoadExisting,
}

/// The full bootstrap plan: whether to create the config directory first,
/// then what to do about the file.
#[derive(Clone, Copy, PartialEq, Eq, Structural, Debug)]
pub struct EnsurePlan {
    pub create_dir: bool,
    pub action: EnsureAction,
}

/// The plan for a given filesystem state: `dir_exists` and `entry_exists`
/// say whether the config directory and anything at the file path exist,
/// `entry_is_file` whether that something is a regular file.
pub open spec fn spec_ensure_plan(
    dir_exists: bool,
    entry_exists: bool,
    entry_is_file: bool,
) -> EnsurePlan {
    EnsurePlan {
        create_dir: !dir_exists,
        action: if !entry_exists {
            EnsureAction::WriteDefault
        } else if !entry_is_file {
            EnsureAction::Conflict
        } else {
            EnsureAction::LoadExisting
        },
    }
}

/// Decides what the global-config bootstrap must do. The caller executes
/// the plan and, for `WriteDefault`, writes the serialized form of
/// `ConfigFile::default_global_config`.
pub fn ensure_global_plan(dir_exists: bool, entry_exists: bool, entry_is_file: bool) -> (r:
    EnsurePlan)
    ensures
        r == spec_ensure_plan(dir_exists, entry_exists, entry_is_file),
{
    EnsurePlan {
        create_dir: !dir_exists,
        action: if !entry_exists {
            EnsureAction::WriteDefault
        } else if !entry_is_file {
            EnsureAction::Conflict
        } else {
            EnsureAction::LoadExisting
        },
    }
}

/// What occupies the global config's expected file path.
pub enum FsEntry {
    Missing,
    RegularFile { content: Seq<char> },
    OtherKind,
}

/// The slice of filesystem state the bootstrap reads and writes.
pub struct StoreState {
    pub dir_exists: bool,
    pub entry: FsEntry,
}

/// The plan the bootstrap picks in state `s`.
pub open spec fn plan_for(s: StoreState) -> EnsurePlan {
    spec_ensure_plan(s.dir_exists, !(s.entry is Missing), s.entry is RegularFile)
}

/// The state after a plan is executed; `written` is whatever content the
/// caller's serializer produces for the default config.
pub open spec fn apply_plan(s: StoreState, plan: EnsurePlan, written: Seq<char>) -> StoreState {
    StoreState {
        dir_exists: s.dir_exists || plan.create_dir,
        entry: if plan.action is WriteDefault {
            FsEntry::RegularFile { content: written }
        } else {
            s.entry
        },
    }
}

/// One whole bootstrap run against state `s`.
pub open spec fn run_ensure(s: StoreState, written: Seq<char>) -> StoreState {
    apply_plan(s, plan_for(s), written)
}

/// Law: the bootstrap is idempotent. After one run that did not stop on a
/// conflict, a second run (with no intervening external filesystem change)
/// creates nothing and writes nothing — its plan is exactly "load what is
/// there" — so the file's content, byte for byte, is whatever the first run
/// left, whatever content `w2` a second serialization would have produced:
/// the synthesized default where the file was missing, the untouched
/// existing content otherwise.
pub proof fn lemma_ensure_global_idempotent(s: StoreState, w1: Seq<char>, w2: Seq<char>)
    requires
        !(s.entry is OtherKind),
    ensures
        plan_for(run_ensure(s, w1)) == (EnsurePlan {
            create_dir: false,
            action: EnsureAction::LoadExisting,
        }),
        run_ensure(run_ensure(s, w1), w2) == run_ensure(s, w1),
        s.entry is Missing ==> run_ensure(s, w1).entry == (FsEntry::RegularFile { content: w1 }),
        s.entry is RegularFile ==> run_ensure(s, w1).entry == s.entry,
{
}

} // verus!
