use vstd::prelude::*;
use heck::KebabCase;
use crate::config::Config;
use crate::reconcile::{Mode, Reconciler, Stage};

verus! {

/// The hook points that git invokes.
#[derive(Clone, Copy, Debug, PartialEq, Eq, Structural)]
pub enum HookType {
    ApplypatchMsg,
    PreApplyPatch,
    PostApplyPatch,
    PreCommit,
    PreMergeCommit,
    PrepareCommitMsg,
    CommitMsg,
    PostCommit,
    PreRebase,
    PostCheckout,
    PostMerge,
    PrePush,
    PreReceive,
    Update,
    PostReceive,
    PostUpdate,
    ReferenceTransaction,
    PushToCheckout,
    PreAutoGc,
    PostRewrite,
    SendemailValidate,
    FsmonitorWatchman,
    P4Changelist,
    P4PrepareChangelist,
    P4PostChangelist,
    P4PreSubmit,
    PostIndexChange,
}

impl HookType {
    /// The tag of the hook point, in upper camel case.
    pub open spec fn tag(self) -> Seq<char> {
        match self {
            HookType::ApplypatchMsg => "ApplypatchMsg"@,
            HookType::PreApplyPatch => "PreApplyPatch"@,
            HookType::PostApplyPatch => "PostApplyPatch"@,
            HookType::PreCommit => "PreCommit"@,
            HookType::PreMergeCommit => "PreMergeCommit"@,
            HookType::PrepareCommitMsg => "PrepareCommitMsg"@,
            HookType::CommitMsg => "CommitMsg"@,
            HookType::PostCommit => "PostCommit"@,
            HookType::PreRebase => "PreRebase"@,
            HookType::PostCheckout => "PostCheckout"@,
            HookType::PostMerge => "PostMerge"@,
            HookType::PrePush => "PrePush"@,
            HookType::PreReceive => "PreReceive"@,
            HookType::Update => "Update"@,
            HookType::PostReceive => "PostReceive"@,
            HookType::PostUpdate => "PostUpdate"@,
            HookType::ReferenceTransaction => "ReferenceTransaction"@,
            HookType::PushToCheckout => "PushToCheckout"@,
            HookType::PreAutoGc => "PreAutoGc"@,
            HookType::PostRewrite => "PostRewrite"@,
            HookType::SendemailValidate => "SendemailValidate"@,
            HookType::FsmonitorWatchman => "FsmonitorWatchman"@,
            HookType::P4Changelist => "P4Changelist"@,
            HookType::P4PrepareChangelist => "P4PrepareChangelist"@,
            HookType::P4PostChangelist => "P4PostChangelist"@,
            HookType::P4PreSubmit => "P4PreSubmit"@,
            HookType::PostIndexChange => "PostIndexChange"@,
        }
    }

    /// The tag of the hook point, in upper camel case.
    pub fn as_str(self) -> (r: &'static str)
        ensures
            r@ == self.tag(),
    {
        match self {
            HookType::ApplypatchMsg => "ApplypatchMsg",
            HookType::PreApplyPatch => "PreApplyPatch",
            HookType::PostApplyPatch => "PostApplyPatch",
            HookType::PreCommit => "PreCommit",
            HookType::PreMergeCommit => "PreMergeCommit",
            HookType::PrepareCommitMsg => "PrepareCommitMsg",
            HookType::CommitMsg => "CommitMsg",
            HookType::PostCommit => "PostCommit",
            HookType::PreRebase => "PreRebase",
            HookType::PostCheckout => "PostCheckout",
            HookType::PostMerge => "PostMerge",
            HookType::PrePush => "PrePush",
            HookType::PreReceive => "PreReceive",
            HookType::Update => "Update",
            HookType::PostReceive => "PostReceive",
            HookType::PostUpdate => "PostUpdate",
            HookType::ReferenceTransaction => "ReferenceTransaction",
            HookType::PushToCheckout => "PushToCheckout",
            HookType::PreAutoGc => "PreAutoGc",
            HookType::PostRewrite => "PostRewrite",
            HookType::SendemailValidate => "SendemailValidate",
            HookType::FsmonitorWatchman => "FsmonitorWatchman",
            HookType::P4Changelist => "P4Changelist",
            HookType::P4PrepareChangelist => "P4PrepareChangelist",
            HookType::P4PostChangelist => "P4PostChangelist",
            HookType::P4PreSubmit => "P4PreSubmit",
            HookType::PostIndexChange => "PostIndexChange",
        }
    }
}

/// What heck's kebab-case conversion makes of a string.
pub uninterp spec fn kebab_of(s: Seq<char>) -> Seq<char>;

/// Relies on heck's `KebabCase::to_kebab_case` for `str`: lower-case words
/// joined by hyphens, depending on the characters alone.
#[verifier::external_body]
fn to_kebab(s: &str) -> (r: String)
    ensures
        r@ == kebab_of(s@),
{
    s.to_kebab_case()
}

/// One configured hook: its identity and the policy for its reconciliation.
#[derive(Clone, Copy, Debug, PartialEq, Eq, Structural)]
pub struct Hook {
    pub name: HookType,
    /// Whether the hook is installed at all.
    pub create: bool,
    /// Whether an occupied destination (file, directory, valid link) may be overwritten.
    pub force: bool,
    /// Whether a dangling link at the destination may be overwritten.
    pub relink: bool,
    /// Whether the hook takes part in pulling live hooks into the store.
    pub pull: bool,
}

pub fn default_true() -> (r: bool)
    ensures
        r,
{
    true
}

pub fn default_false() -> (r: bool)
    ensures
        !r,
{
    false
}

impl Hook {
    /// A hook with the default policy: created, relinked and pulled, never forced.
    pub fn new(name: HookType) -> (r: Hook)
        ensures
            r.name == name,
            r.create,
            !r.force,
            r.relink,
            r.pull,
    {
        Hook {
            name,
            create: default_true(),
            force: default_false(),
            relink: default_true(),
            pull: default_true(),
        }
    }
}

/// Name of the directory, under the repository root, that holds the hook store.
pub open spec fn store_dir_name() -> Seq<char> {
    ".git_hooks"@
}

/// `comp` appended to `base` as one more path component.
pub open spec fn join(base: Seq<char>, comp: Seq<char>) -> Seq<char> {
    if base.len() == 0 {
        comp
    } else if base.last() == '/' {
        base + comp
    } else {
        base + seq!['/'] + comp
    }
}

/// File name of a hook, in the store and in `.git/hooks` alike.
pub open spec fn file_name(name: HookType) -> Seq<char> {
    kebab_of(name.tag())
}

/// `<root>/.git_hooks`
pub open spec fn store_root_path(root: Seq<char>) -> Seq<char> {
    join(root, store_dir_name())
}

/// `<root>/.git_hooks/<name>`
pub open spec fn store_path(root: Seq<char>, name: HookType) -> Seq<char> {
    join(store_root_path(root), file_name(name))
}

/// `<root>/.git/hooks/<name>`
pub open spec fn live_path(root: Seq<char>, name: HookType) -> Seq<char> {
    join(join(join(root, ".git"@), "hooks"@), file_name(name))
}

/// Appends `comp` to `base` as one more path component.
pub fn join_path(base: &String, comp: &str) -> (r: String)
    ensures
        r@ == join(base@, comp@),
{
    let n = base.as_str().unicode_len();
    if n == 0 {
        return comp.to_string();
    }
    let mut r = base.clone();
    if base.as_str().get_char(n - 1) != '/' {
        r.append("/");
        proof {
            reveal_strlit("/");
        }
    }
    r.append(comp);
    r
}

/// The store path of `hook`, or the store root itself when no hook is given.
pub fn git_hooked_path(root_path: &String, hook: Option<&Hook>) -> (r: String)
    ensures
        r@ == match hook {
            Some(h) => store_path(root_path@, h.name),
            None => store_root_path(root_path@),
        },
{
    let dir = ".git_hooks";
    proof {
        assert(dir@ == store_dir_name());
    }
    let path = join_path(root_path, dir);
    match hook {
        Some(h) => {
            let name = to_kebab(h.name.as_str());
            join_path(&path, name.as_str())
        },
        None => path,
    }
}

/// The live path of `hook` under `.git/hooks`.
pub fn git_hooks_path(root_path: &String, hook: &Hook) -> (r: String)
    ensures
        r@ == live_path(root_path@, hook.name),
{
    let git = join_path(root_path, ".git");
    let hooks = join_path(&git, "hooks");
    let name = to_kebab(hook.name.as_str());
    join_path(&hooks, name.as_str())
}

fn copy_hooks(hooks: &Vec<Hook>) -> (r: Vec<Hook>)
    ensures
        r@ == hooks@,
{
    let mut r: Vec<Hook> = Vec::new();
    let mut i: usize = 0;
    while i < hooks.len()
        invariant
            i <= hooks@.len(),
            r@ == hooks@.subrange(0, i as int),
        decreases hooks@.len() - i,
    {
        r.push(hooks[i]);
        i = i + 1;
    }
    assert(r@ == hooks@.subrange(0, hooks@.len() as int));
    r
}

fn run_over(mode: Mode, config: &Config, root_path: &String) -> (r: Reconciler)
    ensures
        r@.wf(),
        r@.mode == mode,
        r@.root == root_path@,
        r@.outcomes.len() == 0,
        match config.hooks {
            Some(hs) => r@.hooks == hs@ && r@.stage == Stage::Start,
            None => r@.hooks.len() == 0 && r@.stage == Stage::Finished,
        },
{
    match &config.hooks {
        Some(hooks) => Reconciler::new(mode, root_path.clone(), copy_hooks(hooks)),
        None => Reconciler::finished(mode, root_path.clone()),
    }
}

/// A run that links each configured hook's store entry into its live slot.
/// With no hooks configured the run is over from the start.
pub fn push(config: &Config, root_path: &String) -> (r: Reconciler)
    ensures
        r@.wf(),
        r@.mode == Mode::Push,
        r@.root == root_path@,
        r@.outcomes.len() == 0,
        match config.hooks {
            Some(hs) => r@.hooks == hs@ && r@.stage == Stage::Start,
            None => r@.hooks.len() == 0 && r@.stage == Stage::Finished,
        },
{
    run_over(Mode::Push, config, root_path)
}

/// A run that moves each configured live hook file into the store and links
/// it back. With no hooks configured the run is over from the start.
pub fn pull(config: &Config, root_path: &String) -> (r: Reconciler)
    ensures
        r@.wf(),
        r@.mode == Mode::Pull,
        r@.root == root_path@,
        r@.outcomes.len() == 0,
        match config.hooks {
            Some(hs) => r@.hooks == hs@ && r@.stage == Stage::Start,
            None => r@.hooks.len() == 0 && r@.stage == Stage::Finished,
        },
{
    run_over(Mode::Pull, config, root_path)
}

} // verus!
