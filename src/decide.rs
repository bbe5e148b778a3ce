use vstd::prelude::*;
use crate::hook::Hook;
use crate::path_utils::PathResult;

verus! {

/// Why a hook was refused or left alone; where a policy flag would unlock
/// the action, the reason names it.
#[derive(Clone, Copy, Debug, PartialEq, Eq, Structural)]
pub enum Reason {
    /// `create` is false.
    CreateDisabled,
    /// `pull` is false.
    PullDisabled,
    /// The destination is occupied and `force` is false.
    ForceNotSet,
    /// The destination is a dangling link and `relink` is false.
    RelinkNotSet,
    /// The destination is of a type that is never replaced.
    UnsupportedType,
    /// The live hook is a link, whose content lives elsewhere.
    SourceIsLink,
    /// The live hook is a directory.
    SourceIsDir,
    /// There is no live hook to move.
    SourceMissing,
    /// The live hook is of an unsupported type.
    SourceUnknown,
    /// Something already stands at the store path.
    StoreOccupied,
}

/// How the entry at a destination is removed before it is replaced.
#[derive(Clone, Copy, Debug, PartialEq, Eq, Structural)]
pub enum Removal {
    File,
    Dir,
}

/// What to do at a live hook slot when pushing.
#[derive(Clone, Copy, Debug, PartialEq, Eq, Structural)]
pub enum Action {
    CreateLink,
    ReplaceAndLink(Removal),
    Refuse(Reason),
    Noop(Reason),
}

/// The push decision table.
pub open spec fn decide_spec(state: PathResult, hook: Hook) -> Action {
    if !hook.create {
        Action::Noop(Reason::CreateDisabled)
    } else {
        match state {
            PathResult::NonExisting => Action::CreateLink,
            PathResult::ExistingFile | PathResult::ExistingLink => if hook.force {
                Action::ReplaceAndLink(Removal::File)
            } else {
                Action::Refuse(Reason::ForceNotSet)
            },
            PathResult::ExistingDir => if hook.force {
                Action::ReplaceAndLink(Removal::Dir)
            } else {
                Action::Refuse(Reason::ForceNotSet)
            },
            PathResult::InvalidLink => if hook.relink {
                Action::ReplaceAndLink(Removal::File)
            } else {
                Action::Refuse(Reason::RelinkNotSet)
            },
            PathResult::Unknown => Action::Refuse(Reason::UnsupportedType),
        }
    }
}

/// Decides what pushing `hook` does at a live slot found in `state`.
pub fn decide(state: PathResult, hook: &Hook) -> (r: Action)
    ensures
        r == decide_spec(state, *hook),
{
    if !hook.create {
        return Action::Noop(Reason::CreateDisabled);
    }
    match state {
        PathResult::NonExisting => Action::CreateLink,
        PathResult::ExistingFile | PathResult::ExistingLink => {
            if hook.force {
                Action::ReplaceAndLink(Removal::File)
            } else {
                Action::Refuse(Reason::ForceNotSet)
            }
        },
        PathResult::ExistingDir => {
            if hook.force {
                Action::ReplaceAndLink(Removal::Dir)
            } else {
                Action::Refuse(Reason::ForceNotSet)
            }
        },
        PathResult::InvalidLink => {
            if hook.relink {
                Action::ReplaceAndLink(Removal::File)
            } else {
                Action::Refuse(Reason::RelinkNotSet)
            }
        },
        PathResult::Unknown => Action::Refuse(Reason::UnsupportedType),
    }
}

/// Why a live hook in `state` cannot be pulled into the store; `None` for a
/// regular file, the one kind that is moved.
pub open spec fn source_refusal_spec(state: PathResult) -> Option<Reason> {
    match state {
        PathResult::ExistingFile => None,
        PathResult::ExistingLink | PathResult::InvalidLink => Some(Reason::SourceIsLink),
        PathResult::ExistingDir => Some(Reason::SourceIsDir),
        PathResult::NonExisting => Some(Reason::SourceMissing),
        PathResult::Unknown => Some(Reason::SourceUnknown),
    }
}

/// Checks whether a live hook found in `state` can be pulled into the store.
pub fn source_refusal(state: PathResult) -> (r: Option<Reason>)
    ensures
        r == source_refusal_spec(state),
{
    match state {
        PathResult::ExistingFile => None,
        PathResult::ExistingLink | PathResult::InvalidLink => Some(Reason::SourceIsLink),
        PathResult::ExistingDir => Some(Reason::SourceIsDir),
        PathResult::NonExisting => Some(Reason::SourceMissing),
        PathResult::Unknown => Some(Reason::SourceUnknown),
    }
}

/// A run-wide failure: nothing of the run's per-hook work is attempted.
#[derive(Clone, Copy, Debug, PartialEq, Eq, Structural)]
pub enum RunError {
    /// The store root exists and is not a directory.
    StoreRootOccupied(PathResult),
    /// The store root could not be inspected.
    StoreRootUninspectable,
    /// The store root was absent and could not be created.
    StoreRootNotCreated,
}

/// The pull precondition on the store root: `Ok(true)` when it must be
/// created first, `Ok(false)` when it is a directory already.
pub open spec fn root_check_spec(state: PathResult) -> Result<bool, RunError> {
    match state {
        PathResult::ExistingDir => Ok(false),
        PathResult::NonExisting => Ok(true),
        _ => Err(RunError::StoreRootOccupied(state)),
    }
}

/// Checks the pull precondition on a store root found in `state`.
pub fn root_check(state: PathResult) -> (r: Result<bool, RunError>)
    ensures
        r == root_check_spec(state),
{
    match state {
        PathResult::ExistingDir => Ok(false),
        PathResult::NonExisting => Ok(true),
        _ => Err(RunError::StoreRootOccupied(state)),
    }
}

} // verus!
