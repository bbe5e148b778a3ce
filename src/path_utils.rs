use vstd::prelude::*;

verus! {

/// State of a filesystem path at the moment it was inspected.
#[derive(Clone, Copy, Debug, PartialEq, Eq, Structural)]
pub enum PathResult {
    /// A regular file.
    ExistingFile,
    /// A directory.
    ExistingDir,
    /// A symbolic link whose target exists.
    ExistingLink,
    /// A symbolic link whose target does not exist.
    InvalidLink,
    /// Something that exists but is neither a file, a directory nor a link.
    Unknown,
    /// Nothing at all.
    NonExisting,
}

/// The kind of an entry as reported by its (non-following) metadata.
#[derive(Clone, Copy, Debug, PartialEq, Eq, Structural)]
pub enum EntryKind {
    File,
    Dir,
    Other,
}

/// What was learned by probing a path, in the order the probes are made.
///
/// `link` is `Some(target_exists)` when the path could be read as a symbolic
/// link, `None` otherwise. `metadata` is the kind of the entry when its
/// metadata could be queried, `None` when the path is absent.
#[derive(Clone, Copy, Debug, PartialEq, Eq, Structural)]
pub struct PathProbe {
    pub link: Option<bool>,
    pub metadata: Option<EntryKind>,
}

/// Classification of a probe: a readable link wins over the metadata, so a
/// valid link is never reported through its target's type and a dangling
/// link is never reported as absent.
pub open spec fn classify_spec(p: PathProbe) -> PathResult {
    match p.link {
        Some(true) => PathResult::ExistingLink,
        Some(false) => PathResult::InvalidLink,
        None => match p.metadata {
            Some(EntryKind::File) => PathResult::ExistingFile,
            Some(EntryKind::Dir) => PathResult::ExistingDir,
            Some(EntryKind::Other) => PathResult::Unknown,
            None => PathResult::NonExisting,
        },
    }
}

/// Classifies what was learned about a path.
pub fn classify(p: PathProbe) -> (r: PathResult)
    ensures
        r == classify_spec(p),
{
    match p.link {
        Some(target_exists) => {
            if target_exists {
                PathResult::ExistingLink
            } else {
                PathResult::InvalidLink
            }
        },
        None => match p.metadata {
            Some(EntryKind::File) => PathResult::ExistingFile,
            Some(EntryKind::Dir) => PathResult::ExistingDir,
            Some(EntryKind::Other) => PathResult::Unknown,
            None => PathResult::NonExisting,
        },
    }
}

} // verus!
