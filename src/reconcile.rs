use vstd::prelude::*;
use crate::decide::{
    decide, decide_spec, root_check, root_check_spec, source_refusal, source_refusal_spec,
    Action, Reason, Removal, RunError,
};
use crate::hook::{
    git_hooked_path, git_hooks_path, join_path, live_path, store_path, store_root_path, Hook,
};
use crate::path_utils::PathResult;

verus! {

/// Direction of a run.
#[derive(Clone, Copy, Debug, PartialEq, Eq, Structural)]
pub enum Mode {
    /// Link each store entry into its live hook slot.
    Push,
    /// Move each live hook file into the store and link it back.
    Pull,
}

/// The filesystem step that failed for a hook.
#[derive(Clone, Copy, Debug, PartialEq, Eq, Structural)]
pub enum Failure {
    Inspection,
    Remove,
    Link,
    Move,
}

/// Result of processing one hook.
#[derive(Clone, Copy, Debug, PartialEq, Eq, Structural)]
pub enum HookOutcome {
    Installed,
    Skipped(Reason),
    Refused(Reason),
    Relocated,
    Failed(Failure),
}

/// What the caller reports after carrying out a request.
#[derive(Clone, Copy, Debug, PartialEq, Eq, Structural)]
pub enum Event {
    /// The inspected path was found in this state.
    Inspected(PathResult),
    /// The inspection failed for another reason than absence.
    InspectFailed,
    /// The mutation succeeded.
    Done,
    /// The mutation failed.
    Failed,
}

/// Where a run stands.
#[derive(Clone, Copy, Debug, PartialEq, Eq, Structural)]
pub enum Stage {
    Start,
    /// Waiting for the inspection of the store root (pull).
    RootCheck,
    /// Waiting for the creation of the store root (pull).
    RootCreate,
    /// Waiting for the inspection of the current hook's live path.
    LiveCheck,
    /// Waiting for the removal of the entry at the live path (push).
    Removing(Removal),
    /// Waiting for the link at the live path to be made (push).
    Linking,
    /// Waiting for the inspection of the current hook's store path (pull).
    StoreCheck,
    /// Waiting for the live hook to be moved to the store path (pull).
    Moving,
    /// Waiting for the link back from the live path to be made (pull).
    BackLinking,
    Finished,
    Aborted(RunError),
}

/// The next thing the caller has to do.
#[derive(Debug)]
pub enum Request {
    /// Classify the path.
    Inspect(String),
    /// Remove the file or link at the path.
    RemoveFile(String),
    /// Remove the (empty) directory at the path.
    RemoveDir(String),
    /// Create a symbolic link at `link` pointing to `target`.
    Symlink { target: String, link: String },
    /// Move the entry at `from` to `to`.
    Rename { from: String, to: String },
    /// Create the directory at the path.
    CreateDir(String),
    /// The run is over; the outcomes are complete.
    Finished,
    /// The run was stopped before any per-hook work.
    Aborted(RunError),
}

/// Progress of the current hook after an event.
#[derive(Clone, Copy, Debug, PartialEq, Eq, Structural)]
pub enum Progress {
    Await(Stage),
    Settle(HookOutcome),
}

/// Whether a hook takes part in a run of this mode.
pub open spec fn active(mode: Mode, hook: Hook) -> bool {
    match mode {
        Mode::Push => hook.create,
        Mode::Pull => hook.pull,
    }
}

/// The outcome of a hook that does not take part in a run of this mode.
pub open spec fn skip_outcome(mode: Mode) -> HookOutcome {
    match mode {
        Mode::Push => HookOutcome::Skipped(Reason::CreateDisabled),
        Mode::Pull => HookOutcome::Skipped(Reason::PullDisabled),
    }
}

/// Whether a stage is one of the stages of a single hook.
pub open spec fn is_hook_stage(stage: Stage) -> bool {
    match stage {
        Stage::LiveCheck | Stage::Removing(_) | Stage::Linking | Stage::StoreCheck
        | Stage::Moving | Stage::BackLinking => true,
        _ => false,
    }
}

/// How the current hook moves on when `ev` is reported at `stage`.
pub open spec fn hook_step_spec(mode: Mode, hook: Hook, stage: Stage, ev: Event) -> Progress {
    match stage {
        Stage::LiveCheck => match ev {
            Event::Inspected(s) => match mode {
                Mode::Push => match decide_spec(s, hook) {
                    Action::CreateLink => Progress::Await(Stage::Linking),
                    Action::ReplaceAndLink(rm) => Progress::Await(Stage::Removing(rm)),
                    Action::Refuse(r) => Progress::Settle(HookOutcome::Refused(r)),
                    Action::Noop(r) => Progress::Settle(HookOutcome::Skipped(r)),
                },
                Mode::Pull => match source_refusal_spec(s) {
                    None => Progress::Await(Stage::StoreCheck),
                    Some(r) => Progress::Settle(HookOutcome::Refused(r)),
                },
            },
            _ => Progress::Settle(HookOutcome::Failed(Failure::Inspection)),
        },
        Stage::Removing(_) => if ev == Event::Done {
            Progress::Await(Stage::Linking)
        } else {
            Progress::Settle(HookOutcome::Failed(Failure::Remove))
        },
        Stage::Linking => if ev == Event::Done {
            Progress::Settle(HookOutcome::Installed)
        } else {
            Progress::Settle(HookOutcome::Failed(Failure::Link))
        },
        Stage::StoreCheck => match ev {
            Event::Inspected(PathResult::NonExisting) => Progress::Await(Stage::Moving),
            Event::Inspected(_) => Progress::Settle(HookOutcome::Refused(Reason::StoreOccupied)),
            _ => Progress::Settle(HookOutcome::Failed(Failure::Inspection)),
        },
        Stage::Moving => if ev == Event::Done {
            Progress::Await(Stage::BackLinking)
        } else {
            Progress::Settle(HookOutcome::Failed(Failure::Move))
        },
        Stage::BackLinking => if ev == Event::Done {
            Progress::Settle(HookOutcome::Relocated)
        } else {
            Progress::Settle(HookOutcome::Failed(Failure::Link))
        },
        _ => Progress::Await(stage),
    }
}

/// Records the hooks from `outs.len()` on that do not take part, up to the
/// next one that does; the stage is then that hook's first, or the end.
pub open spec fn advance_spec(mode: Mode, hooks: Seq<Hook>, outs: Seq<HookOutcome>) -> (Stage, Seq<HookOutcome>)
    decreases hooks.len() - outs.len(),
{
    if outs.len() >= hooks.len() {
        (Stage::Finished, outs)
    } else if active(mode, hooks[outs.len() as int]) {
        (Stage::LiveCheck, outs)
    } else {
        advance_spec(mode, hooks, outs.push(skip_outcome(mode)))
    }
}

/// A recorded outcome is the skip outcome exactly for the hooks that do not
/// take part in the run.
pub open spec fn skips_match(mode: Mode, hooks: Seq<Hook>, outs: Seq<HookOutcome>) -> bool {
    forall|k: int|
        0 <= k < outs.len() ==> (#[trigger] outs[k] == skip_outcome(mode) <==> !active(
            mode,
            hooks[k],
        ))
}

/// The model of a run.
pub struct RunView {
    pub mode: Mode,
    pub root: Seq<char>,
    pub hooks: Seq<Hook>,
    pub stage: Stage,
    pub outcomes: Seq<HookOutcome>,
}

impl RunView {
    /// Index of the hook being processed.
    pub open spec fn current(self) -> int {
        self.outcomes.len() as int
    }

    /// The invariant of every reachable run.
    pub open spec fn wf(self) -> bool {
        &&& self.outcomes.len() <= self.hooks.len()
        &&& skips_match(self.mode, self.hooks, self.outcomes)
        &&& is_hook_stage(self.stage) ==> self.current() < self.hooks.len() && active(
            self.mode,
            self.hooks[self.current()],
        )
        &&& self.stage == Stage::Finished ==> self.outcomes.len() == self.hooks.len()
        &&& match self.stage {
            Stage::Start | Stage::RootCheck | Stage::RootCreate | Stage::Aborted(_) =>
                self.outcomes.len() == 0,
            _ => true,
        }
    }

    /// Live path of the hook being processed.
    pub open spec fn live(self) -> Seq<char> {
        live_path(self.root, self.hooks[self.current()].name)
    }

    /// Store path of the hook being processed.
    pub open spec fn store(self) -> Seq<char> {
        store_path(self.root, self.hooks[self.current()].name)
    }

    /// Stage and outcomes after `ev` is reported.
    pub open spec fn next(self, ev: Event) -> (Stage, Seq<HookOutcome>) {
        match self.stage {
            Stage::Start => match self.mode {
                Mode::Push => advance_spec(self.mode, self.hooks, self.outcomes),
                Mode::Pull => (Stage::RootCheck, self.outcomes),
            },
            Stage::RootCheck => match ev {
                Event::Inspected(s) => match root_check_spec(s) {
                    Ok(false) => advance_spec(self.mode, self.hooks, self.outcomes),
                    Ok(true) => (Stage::RootCreate, self.outcomes),
                    Err(e) => (Stage::Aborted(e), self.outcomes),
                },
                _ => (Stage::Aborted(RunError::StoreRootUninspectable), self.outcomes),
            },
            Stage::RootCreate => if ev == Event::Done {
                advance_spec(self.mode, self.hooks, self.outcomes)
            } else {
                (Stage::Aborted(RunError::StoreRootNotCreated), self.outcomes)
            },
            Stage::Finished | Stage::Aborted(_) => (self.stage, self.outcomes),
            _ => match hook_step_spec(self.mode, self.hooks[self.current()], self.stage, ev) {
                Progress::Await(s) => (s, self.outcomes),
                Progress::Settle(o) => advance_spec(self.mode, self.hooks, self.outcomes.push(o)),
            },
        }
    }

    /// The run after `ev` is reported.
    pub open spec fn after(self, ev: Event) -> RunView {
        RunView { stage: self.next(ev).0, outcomes: self.next(ev).1, ..self }
    }

    /// Whether `r` is the request that belongs to this run's stage.
    pub open spec fn asks(self, r: Request) -> bool {
        match self.stage {
            Stage::RootCheck => r matches Request::Inspect(p) && p@ == store_root_path(self.root),
            Stage::RootCreate => r matches Request::CreateDir(p) && p@ == store_root_path(self.root),
            Stage::LiveCheck => r matches Request::Inspect(p) && p@ == self.live(),
            Stage::Removing(Removal::File) => r matches Request::RemoveFile(p) && p@ == self.live(),
            Stage::Removing(Removal::Dir) => r matches Request::RemoveDir(p) && p@ == self.live(),
            Stage::Linking => r matches Request::Symlink { target, link } && target@ == self.store()
                && link@ == self.live(),
            Stage::StoreCheck => r matches Request::Inspect(p) && p@ == self.store(),
            Stage::Moving => r matches Request::Rename { from, to } && from@ == self.live() && to@
                == self.store(),
            Stage::BackLinking => r matches Request::Symlink { target, link } && target@
                == self.store() && link@ == self.live(),
            Stage::Finished => r is Finished,
            Stage::Aborted(e) => r matches Request::Aborted(e2) && e2 == e,
            Stage::Start => false,
        }
    }
}

/// Whether `hook` takes part in a run of `mode`.
pub fn is_active(mode: Mode, hook: &Hook) -> (r: bool)
    ensures
        r == active(mode, *hook),
{
    match mode {
        Mode::Push => hook.create,
        Mode::Pull => hook.pull,
    }
}

fn skip_for(mode: Mode) -> (r: HookOutcome)
    ensures
        r == skip_outcome(mode),
{
    match mode {
        Mode::Push => HookOutcome::Skipped(Reason::CreateDisabled),
        Mode::Pull => HookOutcome::Skipped(Reason::PullDisabled),
    }
}

/// A push or pull run over a list of hooks, driven one request at a time.
///
/// The caller asks for the first request with `step` (the event passed
/// then is not looked at), carries it out, and reports the result with the
/// next call of `step`, until the request is `Finished` or `Aborted`. Each
/// hook is processed to completion before the next one starts; a hook's
/// failure never stops the others.
pub struct Reconciler {
    mode: Mode,
    root: String,
    hooks: Vec<Hook>,
    stage: Stage,
    outcomes: Vec<HookOutcome>,
}

impl View for Reconciler {
    type V = RunView;

    closed spec fn view(&self) -> RunView {
        RunView {
            mode: self.mode,
            root: self.root@,
            hooks: self.hooks@,
            stage: self.stage,
            outcomes: self.outcomes@,
        }
    }
}

impl Reconciler {
    /// A run of `mode` over `hooks` below the repository root `root`.
    pub fn new(mode: Mode, root: String, hooks: Vec<Hook>) -> (r: Self)
        ensures
            r@.wf(),
            r@.mode == mode,
            r@.root == root@,
            r@.hooks == hooks@,
            r@.stage == Stage::Start,
            r@.outcomes == Seq::<HookOutcome>::empty(),
    {
        Reconciler { mode, root, hooks, stage: Stage::Start, outcomes: Vec::new() }
    }

    /// A run that has nothing to do.
    pub fn finished(mode: Mode, root: String) -> (r: Self)
        ensures
            r@.wf(),
            r@.mode == mode,
            r@.root == root@,
            r@.hooks == Seq::<Hook>::empty(),
            r@.stage == Stage::Finished,
            r@.outcomes == Seq::<HookOutcome>::empty(),
    {
        Reconciler { mode, root, hooks: Vec::new(), stage: Stage::Finished, outcomes: Vec::new() }
    }

    pub fn mode(&self) -> (r: Mode)
        ensures
            r == self@.mode,
    {
        self.mode
    }

    pub fn root(&self) -> (r: &String)
        ensures
            r@ == self@.root,
    {
        &self.root
    }

    pub fn hooks(&self) -> (r: &Vec<Hook>)
        ensures
            r@ == self@.hooks,
    {
        &self.hooks
    }

    pub fn stage(&self) -> (r: Stage)
        ensures
            r == self@.stage,
    {
        self.stage
    }

    /// The outcomes so far, one for each processed hook, in the hooks' order.
    pub fn outcomes(&self) -> (r: &Vec<HookOutcome>)
        ensures
            r@ == self@.outcomes,
    {
        &self.outcomes
    }

    /// How the current hook moves on after `ev`.
    fn hook_step(&self, ev: Event) -> (p: Progress)
        requires
            self@.wf(),
            is_hook_stage(self@.stage),
        ensures
            p == hook_step_spec(self@.mode, self@.hooks[self@.current()], self@.stage, ev),
    {
        let hook = &self.hooks[self.outcomes.len()];
        match self.stage {
            Stage::LiveCheck => match ev {
                Event::Inspected(s) => match self.mode {
                    Mode::Push => match decide(s, hook) {
                        Action::CreateLink => Progress::Await(Stage::Linking),
                        Action::ReplaceAndLink(rm) => Progress::Await(Stage::Removing(rm)),
                        Action::Refuse(r) => Progress::Settle(HookOutcome::Refused(r)),
                        Action::Noop(r) => Progress::Settle(HookOutcome::Skipped(r)),
                    },
                    Mode::Pull => match source_refusal(s) {
                        None => Progress::Await(Stage::StoreCheck),
                        Some(r) => Progress::Settle(HookOutcome::Refused(r)),
                    },
                },
                _ => Progress::Settle(HookOutcome::Failed(Failure::Inspection)),
            },
            Stage::Removing(_) => if ev == Event::Done {
                Progress::Await(Stage::Linking)
            } else {
                Progress::Settle(HookOutcome::Failed(Failure::Remove))
            },
            Stage::Linking => if ev == Event::Done {
                Progress::Settle(HookOutcome::Installed)
            } else {
                Progress::Settle(HookOutcome::Failed(Failure::Link))
            },
            Stage::StoreCheck => match ev {
                Event::Inspected(PathResult::NonExisting) => Progress::Await(Stage::Moving),
                Event::Inspected(_) => Progress::Settle(HookOutcome::Refused(Reason::StoreOccupied)),
                _ => Progress::Settle(HookOutcome::Failed(Failure::Inspection)),
            },
            Stage::Moving => if ev == Event::Done {
                Progress::Await(Stage::BackLinking)
            } else {
                Progress::Settle(HookOutcome::Failed(Failure::Move))
            },
            Stage::BackLinking => if ev == Event::Done {
                Progress::Settle(HookOutcome::Relocated)
            } else {
                Progress::Settle(HookOutcome::Failed(Failure::Link))
            },
            _ => Progress::Await(self.stage),
        }
    }

    /// Records the skip outcome of each following hook that does not take
    /// part, and moves to the next one that does, or to the end.
    fn advance(&mut self)
        requires
            old(self)@.outcomes.len() <= old(self)@.hooks.len(),
            skips_match(old(self)@.mode, old(self)@.hooks, old(self)@.outcomes),
        ensures
            final(self)@.mode == old(self)@.mode,
            final(self)@.root == old(self)@.root,
            final(self)@.hooks == old(self)@.hooks,
            (final(self)@.stage, final(self)@.outcomes) == advance_spec(
                old(self)@.mode,
                old(self)@.hooks,
                old(self)@.outcomes,
            ),
            final(self)@.stage == Stage::LiveCheck || final(self)@.stage == Stage::Finished,
            final(self)@.wf(),
    {
        let ghost target = advance_spec(self.mode, self.hooks@, self.outcomes@);
        let mut i: usize = self.outcomes.len();
        while i < self.hooks.len() && !is_active(self.mode, &self.hooks[i])
            invariant
                i == self.outcomes@.len(),
                i <= self.hooks@.len(),
                self.mode == old(self).mode,
                self.root@ == old(self).root@,
                self.hooks@ == old(self).hooks@,
                advance_spec(self.mode, self.hooks@, self.outcomes@) == target,
                skips_match(self.mode, self.hooks@, self.outcomes@),
            decreases self.hooks@.len() - i,
        {
            let o = skip_for(self.mode);
            self.outcomes.push(o);
            i = i + 1;
        }
        if i < self.hooks.len() {
            self.stage = Stage::LiveCheck;
        } else {
            self.stage = Stage::Finished;
        }
    }

    /// The request that belongs to the current stage.
    fn request(&self) -> (r: Request)
        requires
            self@.wf(),
            self@.stage != Stage::Start,
        ensures
            self@.asks(r),
    {
        let cur = self.outcomes.len();
        match self.stage {
            Stage::RootCheck => Request::Inspect(git_hooked_path(&self.root, None)),
            Stage::RootCreate => Request::CreateDir(git_hooked_path(&self.root, None)),
            Stage::LiveCheck => Request::Inspect(git_hooks_path(&self.root, &self.hooks[cur])),
            Stage::Removing(Removal::File) => Request::RemoveFile(
                git_hooks_path(&self.root, &self.hooks[cur]),
            ),
            Stage::Removing(Removal::Dir) => Request::RemoveDir(
                git_hooks_path(&self.root, &self.hooks[cur]),
            ),
            Stage::Linking | Stage::BackLinking => Request::Symlink {
                target: git_hooked_path(&self.root, Some(&self.hooks[cur])),
                link: git_hooks_path(&self.root, &self.hooks[cur]),
            },
            Stage::StoreCheck => Request::Inspect(
                git_hooked_path(&self.root, Some(&self.hooks[cur])),
            ),
            Stage::Moving => Request::Rename {
                from: git_hooks_path(&self.root, &self.hooks[cur]),
                to: git_hooked_path(&self.root, Some(&self.hooks[cur])),
            },
            Stage::Finished => Request::Finished,
            Stage::Aborted(e) => Request::Aborted(e),
            Stage::Start => Request::Finished,
        }
    }

    /// Takes the report of the last request and returns the next one.
    pub fn step(&mut self, ev: Event) -> (r: Request)
        requires
            old(self)@.wf(),
        ensures
            final(self)@.wf(),
            final(self)@ == old(self)@.after(ev),
            final(self)@.asks(r),
    {
        match self.stage {
            Stage::Start => match self.mode {
                Mode::Push => self.advance(),
                Mode::Pull => self.stage = Stage::RootCheck,
            },
            Stage::RootCheck => match ev {
                Event::Inspected(s) => match root_check(s) {
                    Ok(false) => self.advance(),
                    Ok(true) => self.stage = Stage::RootCreate,
                    Err(e) => self.stage = Stage::Aborted(e),
                },
                _ => self.stage = Stage::Aborted(RunError::StoreRootUninspectable),
            },
            Stage::RootCreate => if ev == Event::Done {
                self.advance();
            } else {
                self.stage = Stage::Aborted(RunError::StoreRootNotCreated);
            },
            Stage::Finished | Stage::Aborted(_) => {},
            _ => match self.hook_step(ev) {
                Progress::Await(s) => {
                    assert(is_hook_stage(s));
                    self.stage = s;
                },
                Progress::Settle(o) => {
                    self.outcomes.push(o);
                    self.advance();
                },
            },
        }
        self.request()
    }
}

} // verus!
