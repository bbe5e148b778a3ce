use git_hooked::config::Config;
use git_hooked::decide::{decide, Action, Reason, Removal, RunError};
use git_hooked::hook::{git_hooked_path, git_hooks_path, pull, push, Hook, HookType};
use git_hooked::path_utils::{classify, EntryKind, PathProbe, PathResult};
use git_hooked::reconcile::{Event, Failure, HookOutcome, Mode, Reconciler, Request};
use std::collections::BTreeMap;

#[derive(Clone, Debug, PartialEq)]
enum Node {
    File(String),
    Dir,
    Link(String),
    Socket,
}

#[derive(Clone, Debug, PartialEq, Default)]
struct FakeFs {
    nodes: BTreeMap<String, Node>,
    fail_remove: bool,
    fail_link: bool,
    fail_inspect: bool,
    fail_mkdir: bool,
    mutations: usize,
}

impl FakeFs {
    fn probe(&self, path: &str) -> PathProbe {
        match self.nodes.get(path) {
            Some(Node::Link(t)) => PathProbe {
                link: Some(self.nodes.contains_key(t.as_str())),
                metadata: Some(EntryKind::Other),
            },
            Some(Node::File(_)) => PathProbe { link: None, metadata: Some(EntryKind::File) },
            Some(Node::Dir) => PathProbe { link: None, metadata: Some(EntryKind::Dir) },
            Some(Node::Socket) => PathProbe { link: None, metadata: Some(EntryKind::Other) },
            None => PathProbe { link: None, metadata: None },
        }
    }

    fn inspect(&self, path: &str) -> PathResult {
        classify(self.probe(path))
    }

    fn perform(&mut self, req: &Request) -> Event {
        match req {
            Request::Inspect(p) => {
                if self.fail_inspect {
                    Event::InspectFailed
                } else {
                    Event::Inspected(self.inspect(p))
                }
            }
            Request::RemoveFile(p) => {
                if self.fail_remove {
                    return Event::Failed;
                }
                match self.nodes.get(p.as_str()) {
                    Some(Node::File(_)) | Some(Node::Link(_)) => {
                        self.nodes.remove(p.as_str());
                        self.mutations += 1;
                        Event::Done
                    }
                    _ => Event::Failed,
                }
            }
            Request::RemoveDir(p) => {
                if self.fail_remove {
                    return Event::Failed;
                }
                match self.nodes.get(p.as_str()) {
                    Some(Node::Dir) => {
                        self.nodes.remove(p.as_str());
                        self.mutations += 1;
                        Event::Done
                    }
                    _ => Event::Failed,
                }
            }
            Request::Symlink { target, link } => {
                if self.fail_link || self.nodes.contains_key(link.as_str()) {
                    return Event::Failed;
                }
                self.nodes.insert(link.clone(), Node::Link(target.clone()));
                self.mutations += 1;
                Event::Done
            }
            Request::Rename { from, to } => match self.nodes.remove(from.as_str()) {
                Some(n) => {
                    self.nodes.insert(to.clone(), n);
                    self.mutations += 1;
                    Event::Done
                }
                None => Event::Failed,
            },
            Request::CreateDir(p) => {
                if self.fail_mkdir || self.nodes.contains_key(p.as_str()) {
                    return Event::Failed;
                }
                self.nodes.insert(p.clone(), Node::Dir);
                self.mutations += 1;
                Event::Done
            }
            Request::Finished | Request::Aborted(_) => Event::Done,
        }
    }

    /// Drives the run to its end; returns the abort error, if any.
    fn drive(&mut self, run: &mut Reconciler) -> Option<RunError> {
        let mut req = run.step(Event::Done);
        loop {
            match req {
                Request::Finished => return None,
                Request::Aborted(e) => return Some(e),
                _ => {
                    let ev = self.perform(&req);
                    req = run.step(ev);
                }
            }
        }
    }
}

const ROOT: &str = "/repo";

fn hook(name: HookType, create: bool, force: bool, relink: bool, pull: bool) -> Hook {
    Hook { name, create, force, relink, pull }
}

fn live(h: HookType) -> String {
    git_hooks_path(&ROOT.to_string(), &Hook::new(h))
}

fn store(h: HookType) -> String {
    git_hooked_path(&ROOT.to_string(), Some(&Hook::new(h)))
}

fn run_push(fs: &mut FakeFs, hooks: Vec<Hook>) -> (Option<RunError>, Vec<HookOutcome>) {
    let mut run = Reconciler::new(Mode::Push, ROOT.to_string(), hooks);
    let e = fs.drive(&mut run);
    (e, run.outcomes().clone())
}

fn run_pull(fs: &mut FakeFs, hooks: Vec<Hook>) -> (Option<RunError>, Vec<HookOutcome>) {
    let mut run = Reconciler::new(Mode::Pull, ROOT.to_string(), hooks);
    let e = fs.drive(&mut run);
    (e, run.outcomes().clone())
}

fn all_policies() -> Vec<Hook> {
    let mut v = Vec::new();
    for bits in 0..8u8 {
        v.push(hook(HookType::PreCommit, true, bits & 1 != 0, bits & 2 != 0, bits & 4 != 0));
    }
    v
}

#[test]
fn paths_follow_layout() {
    assert_eq!(live(HookType::PreCommit), "/repo/.git/hooks/pre-commit");
    assert_eq!(store(HookType::PreCommit), "/repo/.git_hooks/pre-commit");
    assert_eq!(git_hooked_path(&ROOT.to_string(), None), "/repo/.git_hooks");
    assert_eq!(live(HookType::PreApplyPatch), "/repo/.git/hooks/pre-apply-patch");
    assert_eq!(store(HookType::PreAutoGc), "/repo/.git_hooks/pre-auto-gc");
}

#[test]
fn paths_join_trailing_slash_and_empty_root() {
    let h = Hook::new(HookType::CommitMsg);
    assert_eq!(git_hooks_path(&"/repo/".to_string(), &h), "/repo/.git/hooks/commit-msg");
    assert_eq!(git_hooked_path(&String::new(), Some(&h)), ".git_hooks/commit-msg");
    assert_eq!(HookType::PostCheckout.as_str(), "PostCheckout");
}

#[test]
fn inspect_reports_each_state() {
    let mut fs = FakeFs::default();
    fs.nodes.insert("/f".to_string(), Node::File("x".to_string()));
    fs.nodes.insert("/d".to_string(), Node::Dir);
    fs.nodes.insert("/good".to_string(), Node::Link("/f".to_string()));
    fs.nodes.insert("/dangling".to_string(), Node::Link("/nowhere".to_string()));
    fs.nodes.insert("/sock".to_string(), Node::Socket);
    assert_eq!(fs.inspect("/f"), PathResult::ExistingFile);
    assert_eq!(fs.inspect("/d"), PathResult::ExistingDir);
    assert_eq!(fs.inspect("/good"), PathResult::ExistingLink);
    assert_eq!(fs.inspect("/dangling"), PathResult::InvalidLink);
    assert_eq!(fs.inspect("/sock"), PathResult::Unknown);
    assert_eq!(fs.inspect("/absent"), PathResult::NonExisting);
}

#[test]
fn inspect_link_wins_over_metadata() {
    // A dangling link has metadata of its own, yet is reported as a link.
    let p = PathProbe { link: Some(false), metadata: Some(EntryKind::File) };
    assert_eq!(classify(p), PathResult::InvalidLink);
    let p = PathProbe { link: Some(true), metadata: Some(EntryKind::Dir) };
    assert_eq!(classify(p), PathResult::ExistingLink);
    let p = PathProbe { link: Some(false), metadata: None };
    assert_eq!(classify(p), PathResult::InvalidLink);
}

#[test]
fn decide_absent_always_links() {
    for h in all_policies() {
        assert_eq!(decide(PathResult::NonExisting, &h), Action::CreateLink);
    }
}

#[test]
fn decide_occupied_follows_force() {
    for h in all_policies() {
        let want = if h.force {
            Action::ReplaceAndLink(Removal::File)
        } else {
            Action::Refuse(Reason::ForceNotSet)
        };
        assert_eq!(decide(PathResult::ExistingFile, &h), want);
        assert_eq!(decide(PathResult::ExistingLink, &h), want);
        let want_dir = if h.force {
            Action::ReplaceAndLink(Removal::Dir)
        } else {
            Action::Refuse(Reason::ForceNotSet)
        };
        assert_eq!(decide(PathResult::ExistingDir, &h), want_dir);
    }
}

#[test]
fn decide_dangling_follows_relink() {
    for h in all_policies() {
        let want = if h.relink {
            Action::ReplaceAndLink(Removal::File)
        } else {
            Action::Refuse(Reason::RelinkNotSet)
        };
        assert_eq!(decide(PathResult::InvalidLink, &h), want);
    }
}

#[test]
fn decide_unknown_and_disabled() {
    for h in all_policies() {
        assert_eq!(decide(PathResult::Unknown, &h), Action::Refuse(Reason::UnsupportedType));
        let off = Hook { create: false, ..h };
        assert_eq!(decide(PathResult::NonExisting, &off), Action::Noop(Reason::CreateDisabled));
        assert_eq!(decide(PathResult::ExistingFile, &off), Action::Noop(Reason::CreateDisabled));
    }
}

#[test]
fn push_creates_link() {
    let mut fs = FakeFs::default();
    let (e, outs) = run_push(&mut fs, vec![Hook::new(HookType::PreCommit)]);
    assert_eq!(e, None);
    assert_eq!(outs, vec![HookOutcome::Installed]);
    assert_eq!(
        fs.nodes.get(&live(HookType::PreCommit)),
        Some(&Node::Link(store(HookType::PreCommit)))
    );
}

#[test]
fn push_twice_changes_nothing() {
    let mut fs = FakeFs::default();
    fs.nodes.insert(store(HookType::PreCommit), Node::File("#!/bin/sh".to_string()));
    let h = hook(HookType::PreCommit, true, false, false, true);
    let (_, first) = run_push(&mut fs, vec![h]);
    assert_eq!(first, vec![HookOutcome::Installed]);
    let snapshot = fs.clone();
    let (_, second) = run_push(&mut fs, vec![h]);
    assert_eq!(second, vec![HookOutcome::Refused(Reason::ForceNotSet)]);
    assert_eq!(fs, snapshot);
}

#[test]
fn push_twice_with_missing_store_entry_changes_nothing() {
    let mut fs = FakeFs::default();
    let h = hook(HookType::PrePush, true, false, false, true);
    run_push(&mut fs, vec![h]);
    let snapshot = fs.clone();
    let (_, second) = run_push(&mut fs, vec![h]);
    assert_eq!(second, vec![HookOutcome::Refused(Reason::RelinkNotSet)]);
    assert_eq!(fs, snapshot);
}

#[test]
fn push_force_replaces_file_and_dir() {
    let mut fs = FakeFs::default();
    fs.nodes.insert(live(HookType::PreCommit), Node::File("old".to_string()));
    fs.nodes.insert(live(HookType::PostMerge), Node::Dir);
    let (_, outs) = run_push(
        &mut fs,
        vec![
            hook(HookType::PreCommit, true, true, false, true),
            hook(HookType::PostMerge, true, true, false, true),
        ],
    );
    assert_eq!(outs, vec![HookOutcome::Installed, HookOutcome::Installed]);
    assert_eq!(
        fs.nodes.get(&live(HookType::PostMerge)),
        Some(&Node::Link(store(HookType::PostMerge)))
    );
}

#[test]
fn push_refuses_occupied_without_force() {
    let mut fs = FakeFs::default();
    fs.nodes.insert(live(HookType::PreCommit), Node::File("mine".to_string()));
    fs.nodes.insert(live(HookType::PostCommit), Node::Socket);
    let snapshot = fs.clone();
    let (_, outs) = run_push(
        &mut fs,
        vec![Hook::new(HookType::PreCommit), Hook::new(HookType::PostCommit)],
    );
    assert_eq!(
        outs,
        vec![
            HookOutcome::Refused(Reason::ForceNotSet),
            HookOutcome::Refused(Reason::UnsupportedType)
        ]
    );
    assert_eq!(fs, snapshot);
}

#[test]
fn push_relinks_dangling_by_default() {
    let mut fs = FakeFs::default();
    fs.nodes.insert(live(HookType::PreCommit), Node::Link("/gone".to_string()));
    let (_, outs) = run_push(&mut fs, vec![Hook::new(HookType::PreCommit)]);
    assert_eq!(outs, vec![HookOutcome::Installed]);
    assert_eq!(
        fs.nodes.get(&live(HookType::PreCommit)),
        Some(&Node::Link(store(HookType::PreCommit)))
    );
}

#[test]
fn push_reports_failures_and_continues() {
    let mut fs = FakeFs::default();
    fs.nodes.insert(live(HookType::PreCommit), Node::File("old".to_string()));
    fs.fail_remove = true;
    let (_, outs) = run_push(
        &mut fs,
        vec![
            hook(HookType::PreCommit, true, true, true, true),
            hook(HookType::PostCommit, true, false, true, true),
        ],
    );
    assert_eq!(outs, vec![HookOutcome::Failed(Failure::Remove), HookOutcome::Installed]);

    let mut fs = FakeFs::default();
    fs.fail_link = true;
    let (_, outs) = run_push(&mut fs, vec![Hook::new(HookType::PreCommit)]);
    assert_eq!(outs, vec![HookOutcome::Failed(Failure::Link)]);

    let mut fs = FakeFs::default();
    fs.fail_inspect = true;
    let (_, outs) = run_push(&mut fs, vec![Hook::new(HookType::PreCommit)]);
    assert_eq!(outs, vec![HookOutcome::Failed(Failure::Inspection)]);
}

#[test]
fn push_five_hooks_one_disabled() {
    let mut fs = FakeFs::default();
    let hooks = vec![
        Hook::new(HookType::PreCommit),
        Hook::new(HookType::CommitMsg),
        hook(HookType::PostCommit, false, false, true, true),
        Hook::new(HookType::PrePush),
        Hook::new(HookType::PostMerge),
    ];
    let (e, outs) = run_push(&mut fs, hooks);
    assert_eq!(e, None);
    assert_eq!(
        outs,
        vec![
            HookOutcome::Installed,
            HookOutcome::Installed,
            HookOutcome::Skipped(Reason::CreateDisabled),
            HookOutcome::Installed,
            HookOutcome::Installed
        ]
    );
    assert!(!fs.nodes.contains_key(&live(HookType::PostCommit)));
    assert_eq!(fs.mutations, 4);
}

#[test]
fn pull_round_trip_then_push() {
    let mut fs = FakeFs::default();
    fs.nodes.insert(live(HookType::PreCommit), Node::File("echo hi".to_string()));
    let h = Hook::new(HookType::PreCommit);
    let (e, outs) = run_pull(&mut fs, vec![h]);
    assert_eq!(e, None);
    assert_eq!(outs, vec![HookOutcome::Relocated]);
    assert_eq!(fs.nodes.get("/repo/.git_hooks"), Some(&Node::Dir));
    assert_eq!(
        fs.nodes.get(&store(HookType::PreCommit)),
        Some(&Node::File("echo hi".to_string()))
    );
    assert_eq!(
        fs.nodes.get(&live(HookType::PreCommit)),
        Some(&Node::Link(store(HookType::PreCommit)))
    );
    assert_eq!(fs.inspect(&live(HookType::PreCommit)), PathResult::ExistingLink);

    let snapshot = fs.clone();
    let (_, outs) = run_push(&mut fs, vec![h]);
    assert_eq!(outs, vec![HookOutcome::Refused(Reason::ForceNotSet)]);
    let (_, outs) = run_push(&mut fs, vec![hook(HookType::PreCommit, false, false, true, true)]);
    assert_eq!(outs, vec![HookOutcome::Skipped(Reason::CreateDisabled)]);
    assert_eq!(fs, snapshot);
}

#[test]
fn pull_aborts_when_store_root_is_file() {
    for occupant in [Node::File("x".to_string()), Node::Link("/x".to_string()), Node::Socket] {
        let mut fs = FakeFs::default();
        fs.nodes.insert("/repo/.git_hooks".to_string(), occupant);
        fs.nodes.insert(live(HookType::PreCommit), Node::File("echo".to_string()));
        let snapshot = fs.clone();
        let (e, outs) = run_pull(&mut fs, vec![Hook::new(HookType::PreCommit)]);
        assert!(matches!(e, Some(RunError::StoreRootOccupied(_))));
        assert!(outs.is_empty());
        assert_eq!(fs, snapshot);
    }
    let mut fs = FakeFs::default();
    fs.nodes.insert("/repo/.git_hooks".to_string(), Node::File("x".to_string()));
    let (e, _) = run_pull(&mut fs, vec![]);
    assert_eq!(e, Some(RunError::StoreRootOccupied(PathResult::ExistingFile)));
}

#[test]
fn pull_root_errors() {
    let mut fs = FakeFs::default();
    fs.fail_inspect = true;
    let (e, _) = run_pull(&mut fs, vec![Hook::new(HookType::PreCommit)]);
    assert_eq!(e, Some(RunError::StoreRootUninspectable));

    let mut fs = FakeFs::default();
    fs.fail_mkdir = true;
    let (e, _) = run_pull(&mut fs, vec![Hook::new(HookType::PreCommit)]);
    assert_eq!(e, Some(RunError::StoreRootNotCreated));
    assert_eq!(fs.mutations, 0);
}

#[test]
fn pull_refuses_everything_but_files() {
    let mut fs = FakeFs::default();
    fs.nodes.insert("/repo/.git_hooks".to_string(), Node::Dir);
    fs.nodes.insert(live(HookType::PreCommit), Node::Link("/x".to_string()));
    fs.nodes.insert(live(HookType::CommitMsg), Node::Dir);
    fs.nodes.insert(live(HookType::PostCommit), Node::Socket);
    fs.nodes.insert(live(HookType::PostMerge), Node::File("a".to_string()));
    fs.nodes.insert(store(HookType::PostMerge), Node::File("b".to_string()));
    let snapshot = fs.clone();
    let (e, outs) = run_pull(
        &mut fs,
        vec![
            Hook::new(HookType::PreCommit),
            Hook::new(HookType::CommitMsg),
            Hook::new(HookType::PostCommit),
            Hook::new(HookType::PrePush),
            Hook::new(HookType::PostMerge),
            hook(HookType::Update, true, false, true, false),
        ],
    );
    assert_eq!(e, None);
    assert_eq!(
        outs,
        vec![
            HookOutcome::Refused(Reason::SourceIsLink),
            HookOutcome::Refused(Reason::SourceIsDir),
            HookOutcome::Refused(Reason::SourceUnknown),
            HookOutcome::Refused(Reason::SourceMissing),
            HookOutcome::Refused(Reason::StoreOccupied),
            HookOutcome::Skipped(Reason::PullDisabled)
        ]
    );
    assert_eq!(fs, snapshot);
}

#[test]
fn pull_move_failure_is_reported() {
    let mut fs = FakeFs::default();
    fs.nodes.insert("/repo/.git_hooks".to_string(), Node::Dir);
    fs.nodes.insert(live(HookType::PreCommit), Node::File("a".to_string()));
    fs.fail_link = true;
    let (_, outs) = run_pull(&mut fs, vec![Hook::new(HookType::PreCommit)]);
    assert_eq!(outs, vec![HookOutcome::Failed(Failure::Link)]);
    let mut run = Reconciler::new(Mode::Pull, ROOT.to_string(), vec![Hook::new(HookType::PreCommit)]);
    run.step(Event::Done);
    run.step(Event::Inspected(PathResult::ExistingDir));
    run.step(Event::Inspected(PathResult::ExistingFile));
    let req = run.step(Event::Inspected(PathResult::NonExisting));
    assert!(matches!(req, Request::Rename { .. }));
    let req = run.step(Event::Failed);
    assert!(matches!(req, Request::Finished));
    assert_eq!(run.outcomes(), &vec![HookOutcome::Failed(Failure::Move)]);
}

#[test]
fn config_without_hooks_does_nothing() {
    let cfg = Config { hooks: None };
    let mut run = push(&cfg, &ROOT.to_string());
    assert!(matches!(run.step(Event::Done), Request::Finished));
    assert!(run.outcomes().is_empty());
    let mut run = pull(&cfg, &ROOT.to_string());
    assert!(matches!(run.step(Event::Done), Request::Finished));
    let cfg = Config { hooks: Some(vec![Hook::new(HookType::PreCommit)]) };
    let run = push(&cfg, &ROOT.to_string());
    assert_eq!(run.hooks().len(), 1);
    assert_eq!(run.mode(), Mode::Push);
    let mut run = pull(&cfg, &ROOT.to_string());
    match run.step(Event::Done) {
        Request::Inspect(p) => assert_eq!(p, "/repo/.git_hooks"),
        other => panic!("unexpected request {:?}", other),
    }
}
