use vstd::prelude::*;

verus! {

/// The hook points of a single-install configuration entry.
#[derive(Clone, Copy, Debug, PartialEq, Eq, Structural)]
pub enum Hook {
    ApplypatchMsg,
    PreApplypatch,
    PostApplypatch,
    PreCommit,
    PreMergeCommit,
    PrepareCommitMsg,
    CommitMsg,
    PostCommit,
    PreRebase,
    PostCheckout,
    PostMerge,
    PrePush,
    PreReceive,
    Update,
    PostReceive,
    PostUpdate,
    ReferenceTransaction,
    PushToCheckout,
    PreAutoGc,
    PostRewrite,
    SendemailValidate,
    FsmonitorWatchman,
    P4Changelist,
    P4PrepareChangelist,
    P4PostChangelist,
    P4PreSubmit,
    PostIndexChange,
}

/// A single-install configuration entry: one hook point and its flags.
#[derive(Clone, Copy, Debug, PartialEq, Eq, Structural)]
pub struct GitHookedConfig {
    pub name: Hook,
    /// Whether the hook is created if necessary.
    pub create: bool,
    /// Whether the hook is linked over whatever stands at its place.
    pub force: bool,
    /// Whether broken links at the hook's place are overwritten.
    pub relink: bool,
}

pub fn default_create() -> (r: bool)
    ensures
        r,
{
    true
}

pub fn default_force() -> (r: bool)
    ensures
        !r,
{
    false
}

pub fn default_relink() -> (r: bool)
    ensures
        r,
{
    true
}

impl GitHookedConfig {
    /// An entry for `name` with the default flags.
    pub fn new(name: Hook) -> (r: GitHookedConfig)
        ensures
            r.name == name,
            r.create,
            !r.force,
            r.relink,
    {
        GitHookedConfig {
            name,
            create: default_create(),
            force: default_force(),
            relink: default_relink(),
        }
    }
}

/// The loaded configuration: the ordered list of hooks, if any was given.
pub struct Config {
    pub hooks: Option<Vec<crate::hook::Hook>>,
}

} // verus!
