//! The push-event record and its construction from plain commit data.
//!
//! The surrounding program resolves revisions and walks trees through its
//! git capability and hands the results over as `CommitSource` values;
//! everything decided about them — defaults for missing text, the
//! classification of tree-diff deltas, the root-commit case and the final
//! payload assembly — happens here.

use crate::config::Config;
use vstd::prelude::*;

verus! {

/// A commit identity (author or committer); fields missing from the
/// underlying object become empty strings, never absent.
#[derive(Debug, Clone)]
pub struct User {
    pub name: String,
    pub email: String,
}

/// One commit of the pushed range, as delivered: identifiers, message,
/// timestamp, identities, and the paths touched relative to the first
/// parent.
#[derive(Debug, Clone)]
pub struct Commit {
    pub id: String,
    pub tree_id: String,
    pub message: String,
    pub timestamp: String,
    pub author: User,
    pub committer: User,
    pub added: Vec<String>,
    pub removed: Vec<String>,
    pub modified: Vec<String>,
}

/// The delivered description of the repository itself: its configured
/// name, free-text description and owner identity.  The optional
/// configuration values arrive as empty strings when unset.
#[derive(Debug, Clone)]
pub struct Repo {
    pub name: String,
    pub description: String,
    pub owner: User,
}

/// The push event delivered to each hook URL.
#[derive(Debug, Clone)]
pub struct Payload {
    pub ref_: String,
    pub before: String,
    pub after: String,
    pub commits: Vec<Commit>,
    pub head_commit: Commit,
    pub repository: Repo,
    pub pusher: User,
}

/// The status of one path in a tree-to-tree diff.
#[derive(Debug, Clone, Copy, PartialEq, Eq, Structural)]
pub enum DeltaStatus {
    Added,
    Deleted,
    Modified,
    Renamed,
    /// Any status the relay does not report (copied, ignored, …).
    Other,
}

/// One per-path delta of a tree-to-tree diff.  `path` is the destination
/// side; `None` stands for a path that could not be represented and is
/// reported as empty.
#[derive(Debug, Clone)]
pub struct Delta {
    pub status: DeltaStatus,
    pub path: Option<String>,
}

/// A commit identity as read from the repository: either field may be
/// missing.
#[derive(Debug, Clone)]
pub struct SigSource {
    pub name: Option<String>,
    pub email: Option<String>,
}

/// Everything the git capability reports about one commit.
/// `parent_deltas` is `None` for a root commit (no first parent to diff
/// against) and otherwise holds the tree-diff deltas against the first
/// parent.
#[derive(Debug)]
pub struct CommitSource {
    pub id: String,
    pub tree_id: String,
    pub message: Option<String>,
    pub timestamp: String,
    pub author: SigSource,
    pub committer: SigSource,
    pub parent_deltas: Option<Vec<Delta>>,
}

/// The view of an optional string, defaulting to empty.
pub open spec fn opt_text(o: Option<String>) -> Seq<char> {
    match o {
        Option::Some(s) => s@,
        Option::None => Seq::empty(),
    }
}

/// The reported path of a delta: the destination path, or empty when it
/// could not be represented.
pub open spec fn delta_path(d: Delta) -> Seq<char> {
    opt_text(d.path)
}

/// The paths of the deltas with status `Added`, in order.
pub open spec fn added_of(ds: Seq<Delta>) -> Seq<Seq<char>>
    decreases ds.len(),
{
    if ds.len() == 0 {
        Seq::empty()
    } else {
        added_of(ds.drop_last()) + (if ds.last().status == DeltaStatus::Added {
            seq![delta_path(ds.last())]
        } else {
            Seq::empty()
        })
    }
}

/// The paths of the deltas with status `Deleted`, in order.
pub open spec fn removed_of(ds: Seq<Delta>) -> Seq<Seq<char>>
    decreases ds.len(),
{
    if ds.len() == 0 {
        Seq::empty()
    } else {
        removed_of(ds.drop_last()) + (if ds.last().status == DeltaStatus::Deleted {
            seq![delta_path(ds.last())]
        } else {
            Seq::empty()
        })
    }
}

/// The paths of the deltas with status `Modified` or `Renamed`, in order.
pub open spec fn modified_of(ds: Seq<Delta>) -> Seq<Seq<char>>
    decreases ds.len(),
{
    if ds.len() == 0 {
        Seq::empty()
    } else {
        modified_of(ds.drop_last()) + (if ds.last().status == DeltaStatus::Modified
            || ds.last().status == DeltaStatus::Renamed {
            seq![delta_path(ds.last())]
        } else {
            Seq::empty()
        })
    }
}

/// The optional string as an owned value, defaulting to empty.
fn opt_to_string(o: &Option<String>) -> (r: String)
    ensures
        r@ == opt_text(*o),
{
    match o {
        Some(s) => s.clone(),
        None => String::new(),
    }
}

/// Classifies tree-diff deltas into the added, removed and modified path
/// lists: `Added` paths first, `Deleted` paths second, `Modified` and
/// `Renamed` paths third; every other status is ignored.
pub fn classify_deltas(deltas: &Vec<Delta>) -> (r: (Vec<String>, Vec<String>, Vec<String>))
    ensures
        r.0.deep_view() == added_of(deltas@),
        r.1.deep_view() == removed_of(deltas@),
        r.2.deep_view() == modified_of(deltas@),
{
    let mut added: Vec<String> = Vec::new();
    let mut removed: Vec<String> = Vec::new();
    let mut modified: Vec<String> = Vec::new();
    proof {
        assert(added.deep_view() =~= added_of(deltas@.take(0)));
        assert(removed.deep_view() =~= removed_of(deltas@.take(0)));
        assert(modified.deep_view() =~= modified_of(deltas@.take(0)));
    }
    let mut i: usize = 0;
    while i < deltas.len()
        invariant
            i <= deltas@.len(),
            added.deep_view() == added_of(deltas@.take(i as int)),
            removed.deep_view() == removed_of(deltas@.take(i as int)),
            modified.deep_view() == modified_of(deltas@.take(i as int)),
        decreases deltas@.len() - i,
    {
        proof {
            assert(deltas@.take(i + 1).drop_last() =~= deltas@.take(i as int));
            assert(deltas@.take(i + 1).last() == deltas@[i as int]);
        }
        let path = opt_to_string(&deltas[i].path);
        let ghost a0 = added.deep_view();
        let ghost r0 = removed.deep_view();
        let ghost m0 = modified.deep_view();
        match deltas[i].status {
            DeltaStatus::Added => {
                added.push(path);
                proof {
                    assert(added.deep_view() =~= a0 + seq![delta_path(deltas@[i as int])]);
                }
            },
            DeltaStatus::Deleted => {
                removed.push(path);
                proof {
                    assert(removed.deep_view() =~= r0 + seq![delta_path(deltas@[i as int])]);
                }
            },
            DeltaStatus::Modified => {
                modified.push(path);
                proof {
                    assert(modified.deep_view() =~= m0 + seq![delta_path(deltas@[i as int])]);
                }
            },
            DeltaStatus::Renamed => {
                modified.push(path);
                proof {
                    assert(modified.deep_view() =~= m0 + seq![delta_path(deltas@[i as int])]);
                }
            },
            DeltaStatus::Other => {
                proof {
                    assert(added.deep_view() =~= a0 + Seq::<Seq<char>>::empty());
                    assert(removed.deep_view() =~= r0 + Seq::<Seq<char>>::empty());
                    assert(modified.deep_view() =~= m0 + Seq::<Seq<char>>::empty());
                }
            },
        }
        proof {
            assert(a0 + Seq::<Seq<char>>::empty() =~= a0);
            assert(r0 + Seq::<Seq<char>>::empty() =~= r0);
            assert(m0 + Seq::<Seq<char>>::empty() =~= m0);
        }
        i = i + 1;
    }
    proof {
        assert(deltas@.take(deltas@.len() as int) =~= deltas@);
    }
    (added, removed, modified)
}

impl User {
    /// Builds an identity from a possibly incomplete signature; missing
    /// fields become empty strings.
    pub fn from(sig: &SigSource) -> (r: User)
        ensures
            r.name@ == opt_text(sig.name),
            r.email@ == opt_text(sig.email),
    {
        User { name: opt_to_string(&sig.name), email: opt_to_string(&sig.email) }
    }
}

impl Commit {
    /// Builds the delivered record of one commit from what the git
    /// capability reported.  A root commit (no first parent) yields empty
    /// path lists rather than failing; otherwise the deltas are
    /// classified by status.
    pub fn from(src: CommitSource) -> (r: Commit)
        ensures
            r.id@ == src.id@,
            r.tree_id@ == src.tree_id@,
            r.message@ == opt_text(src.message),
            r.timestamp@ == src.timestamp@,
            r.author.name@ == opt_text(src.author.name),
            r.author.email@ == opt_text(src.author.email),
            r.committer.name@ == opt_text(src.committer.name),
            r.committer.email@ == opt_text(src.committer.email),
            src.parent_deltas is None ==> r.added@.len() == 0 && r.removed@.len() == 0
                && r.modified@.len() == 0,
            src.parent_deltas matches Some(ds) ==> r.added.deep_view() == added_of(ds@)
                && r.removed.deep_view() == removed_of(ds@) && r.modified.deep_view()
                == modified_of(ds@),
    {
        let (added, removed, modified) = match &src.parent_deltas {
            Some(ds) => classify_deltas(ds),
            None => (Vec::new(), Vec::new(), Vec::new()),
        };
        Commit {
            id: src.id,
            tree_id: src.tree_id,
            message: opt_to_string(&src.message),
            timestamp: src.timestamp,
            author: User::from(&src.author),
            committer: User::from(&src.committer),
            added,
            removed,
            modified,
        }
    }
}

impl Repo {
    /// The delivered repository record: the configured name, description
    /// and owner identity, copied unchanged.
    pub fn from(config: &Config) -> (r: Repo)
        ensures
            r.name@ == config.repo_name@,
            r.description@ == config.repo_description@,
            r.owner.name@ == config.repo_owner_name@,
            r.owner.email@ == config.repo_owner_email@,
    {
        Repo {
            name: config.repo_name.clone(),
            description: config.repo_description.clone(),
            owner: User {
                name: config.repo_owner_name.clone(),
                email: config.repo_owner_email.clone(),
            },
        }
    }
}

impl Payload {
    /// Assembles the push event: the ref and range identifiers as given,
    /// the commits in the order the range walk yielded them, the head
    /// commit, the repository description from the configuration, and the
    /// head commit's committer as pusher.
    pub fn from(
        config: &Config,
        head_commit: Commit,
        commits: Vec<Commit>,
        before: &str,
        after: &str,
        ref_: &str,
    ) -> (r: Payload)
        ensures
            r.ref_@ == ref_@,
            r.before@ == before@,
            r.after@ == after@,
            r.commits == commits,
            r.head_commit == head_commit,
            r.repository.name@ == config.repo_name@,
            r.repository.description@ == config.repo_description@,
            r.repository.owner.name@ == config.repo_owner_name@,
            r.repository.owner.email@ == config.repo_owner_email@,
            r.pusher.name@ == head_commit.committer.name@,
            r.pusher.email@ == head_commit.committer.email@,
    {
        let pusher = User {
            name: head_commit.committer.name.clone(),
            email: head_commit.committer.email.clone(),
        };
        Payload {
            ref_: ref_.to_owned(),
            before: before.to_owned(),
            after: after.to_owned(),
            commits,
            head_commit,
            repository: Repo::from(config),
            pusher,
        }
    }
}

} // verus!
