use vstd::prelude::*;
use crate::decide::{decide_spec, Action, Reason, Removal, RunError};
use crate::hook::Hook;
use crate::path_utils::{classify_spec, EntryKind, PathProbe, PathResult};
use crate::reconcile::{
    active, hook_step_spec, skip_outcome, Event, HookOutcome, Mode, Progress, Request, RunView,
    Stage,
};

verus! {

/// Each of the six states is reported for exactly one shape of probe: a
/// readable link decides before any metadata, and a dangling link is never
/// reported as absent.
pub proof fn classify_is_exact(p: PathProbe)
    ensures
        classify_spec(p) == PathResult::ExistingLink <==> p.link == Some(true),
        classify_spec(p) == PathResult::InvalidLink <==> p.link == Some(false),
        classify_spec(p) == PathResult::ExistingFile <==> p.link is None && p.metadata == Some(
            EntryKind::File,
        ),
        classify_spec(p) == PathResult::ExistingDir <==> p.link is None && p.metadata == Some(
            EntryKind::Dir,
        ),
        classify_spec(p) == PathResult::Unknown <==> p.link is None && p.metadata == Some(
            EntryKind::Other,
        ),
        classify_spec(p) == PathResult::NonExisting <==> p.link is None && p.metadata is None,
{
}

/// An empty live slot is always linked, whatever `force` and `relink` say,
/// as long as the hook is to be created at all.
pub proof fn absent_slot_is_linked(hook: Hook)
    requires
        hook.create,
    ensures
        decide_spec(PathResult::NonExisting, hook) == Action::CreateLink,
{
}

/// A regular file in the slot is replaced exactly when `force` is set; no
/// other flag has a say.
pub proof fn file_slot_follows_force(hook: Hook, other: Hook)
    requires
        hook.create,
        other.create,
        other.force == hook.force,
    ensures
        decide_spec(PathResult::ExistingFile, hook) == (if hook.force {
            Action::ReplaceAndLink(Removal::File)
        } else {
            Action::Refuse(Reason::ForceNotSet)
        }),
        decide_spec(PathResult::ExistingFile, other) == decide_spec(PathResult::ExistingFile, hook),
{
}

/// A dangling link in the slot is replaced exactly when `relink` is set;
/// `force` has no say.
pub proof fn dangling_slot_follows_relink(hook: Hook, other: Hook)
    requires
        hook.create,
        other.create,
        other.relink == hook.relink,
    ensures
        decide_spec(PathResult::InvalidLink, hook) == (if hook.relink {
            Action::ReplaceAndLink(Removal::File)
        } else {
            Action::Refuse(Reason::RelinkNotSet)
        }),
        decide_spec(PathResult::InvalidLink, other) == decide_spec(PathResult::InvalidLink, hook),
{
}

/// Pushing twice changes nothing the second time: the first push of an
/// empty slot makes the link and ends `Installed`; the slot then holds that
/// link (valid or, while the store entry is missing, dangling), and with
/// `force` and `relink` unset the second push refuses without a mutation.
pub proof fn push_twice_is_idempotent(hook: Hook, linked: PathResult)
    requires
        hook.create,
        !hook.force,
        !hook.relink,
        linked == PathResult::ExistingLink || linked == PathResult::InvalidLink,
    ensures
        hook_step_spec(Mode::Push, hook, Stage::LiveCheck, Event::Inspected(PathResult::NonExisting))
            == Progress::Await(Stage::Linking),
        hook_step_spec(Mode::Push, hook, Stage::Linking, Event::Done) == Progress::Settle(
            HookOutcome::Installed,
        ),
        hook_step_spec(Mode::Push, hook, Stage::LiveCheck, Event::Inspected(linked)) matches
            Progress::Settle(HookOutcome::Refused(_)),
{
}

/// Pulling a regular file into an empty store path inspects the store path,
/// moves the file there, links the live path back to it and ends
/// `Relocated`. A push of the same hook afterwards, which finds a valid link
/// in the slot, refuses without `force` and skips the hook without `create`.
pub proof fn pull_round_trip(v: RunView)
    requires
        v.wf(),
        v.mode == Mode::Pull,
        v.stage == Stage::LiveCheck,
        !v.hooks[v.current()].force,
    ensures
        ({
            let v1 = v.after(Event::Inspected(PathResult::ExistingFile));
            let v2 = v1.after(Event::Inspected(PathResult::NonExisting));
            let v3 = v2.after(Event::Done);
            let v4 = v3.after(Event::Done);
            &&& v1.stage == Stage::StoreCheck && v1.outcomes == v.outcomes
            &&& v2.stage == Stage::Moving && v2.outcomes == v.outcomes
            &&& v3.stage == Stage::BackLinking && v3.outcomes == v.outcomes
            &&& v4.outcomes.len() > v.outcomes.len()
            &&& v4.outcomes.subrange(0, v.outcomes.len() as int) == v.outcomes
            &&& v4.outcomes[v.current()] == HookOutcome::Relocated
            &&& forall|r: Request| #[trigger]
                v1.asks(r) ==> (r matches Request::Inspect(p) && p@ == v.store())
            &&& forall|r: Request| #[trigger]
                v2.asks(r) ==> (r matches Request::Rename { from, to } && from@ == v.live()
                    && to@ == v.store())
            &&& forall|r: Request| #[trigger]
                v3.asks(r) ==> (r matches Request::Symlink { target, link } && target@
                    == v.store() && link@ == v.live())
        }),
        ({
            let hook = v.hooks[v.current()];
            &&& !hook.create ==> !active(Mode::Push, hook)
            &&& hook.create ==> hook_step_spec(
                Mode::Push,
                hook,
                Stage::LiveCheck,
                Event::Inspected(PathResult::ExistingLink),
            ) == Progress::Settle(HookOutcome::Refused(Reason::ForceNotSet))
        }),
{
    let v1 = v.after(Event::Inspected(PathResult::ExistingFile));
    let v2 = v1.after(Event::Inspected(PathResult::NonExisting));
    let v3 = v2.after(Event::Done);
    let o = v.outcomes.push(HookOutcome::Relocated);
    assert(v3.next(Event::Done) == crate::reconcile::advance_spec(v.mode, v.hooks, o));
    advance_keeps_prefix(v.mode, v.hooks, o);
    let v4 = v3.after(Event::Done);
    assert(v4.outcomes.subrange(0, o.len() as int) == o);
    assert(v4.outcomes[v.current()] == o.subrange(0, o.len() as int)[v.current()]);
    assert(o.subrange(0, v.outcomes.len() as int) == v.outcomes);
    assert(v4.outcomes.subrange(0, v.outcomes.len() as int) == v4.outcomes.subrange(
        0,
        o.len() as int,
    ).subrange(0, v.outcomes.len() as int));
}

/// Advancing only appends outcomes.
proof fn advance_keeps_prefix(mode: Mode, hooks: Seq<Hook>, outs: Seq<HookOutcome>)
    ensures
        ({
            let r = crate::reconcile::advance_spec(mode, hooks, outs).1;
            r.len() >= outs.len() && r.subrange(0, outs.len() as int) == outs
        }),
    decreases hooks.len() - outs.len(),
{
    if outs.len() < hooks.len() && !active(mode, hooks[outs.len() as int]) {
        let next = outs.push(skip_outcome(mode));
        advance_keeps_prefix(mode, hooks, next);
        let r = crate::reconcile::advance_spec(mode, hooks, next).1;
        assert(r.subrange(0, outs.len() as int) == r.subrange(0, next.len() as int).subrange(
            0,
            outs.len() as int,
        ));
        assert(next.subrange(0, outs.len() as int) == outs);
    } else {
        assert(outs.subrange(0, outs.len() as int) == outs);
    }
}

/// A pull whose store root is something other than a directory is stopped
/// by the one inspection that precedes all work: the run is aborted with
/// the precondition error, no hook has an outcome, and the only request
/// after the inspection is the abort itself.
pub proof fn pull_stops_on_occupied_root(v: RunView, root_state: PathResult)
    requires
        v.wf(),
        v.mode == Mode::Pull,
        v.stage == Stage::Start,
        root_state != PathResult::ExistingDir,
        root_state != PathResult::NonExisting,
    ensures
        v.after(Event::Done).stage == Stage::RootCheck,
        v.after(Event::Done).after(Event::Inspected(root_state)).stage == Stage::Aborted(
            RunError::StoreRootOccupied(root_state),
        ),
        v.after(Event::Done).after(Event::Inspected(root_state)).outcomes.len() == 0,
        forall|r: Request| #[trigger]
            v.after(Event::Done).after(Event::Inspected(root_state)).asks(r) ==> r
                == Request::Aborted(RunError::StoreRootOccupied(root_state)),
{
}

/// A finished run has one outcome per hook, in the hooks' order, and a hook
/// is skipped exactly when it does not take part in the run (`create` unset
/// for a push, `pull` unset for a pull).
pub proof fn finished_run_outcomes(v: RunView)
    requires
        v.wf(),
        v.stage == Stage::Finished,
    ensures
        v.outcomes.len() == v.hooks.len(),
        forall|k: int|
            0 <= k < v.hooks.len() ==> (#[trigger] v.outcomes[k] == skip_outcome(v.mode) <==> !active(
                v.mode,
                v.hooks[k],
            )),
{
}

} // verus!
