//! The path authorizer: whether a path, existing or not, lies inside one of
//! the allowed directories.
//!
//! The authorizer reads no disk. What the disk said of the paths in question
//! is handed to it as a snapshot, and it decides on that alone.
use crate::path::{
    ancestors, has_root, join, lemma_ancestors_of_ancestor, lemma_join_stays_below,
    path_ancestors, path_starts_with, starts_with,
};
use crate::text::{appended, option_view, same_text, views};
use vstd::prelude::*;

verus! {

/// What the disk said of one path: whether it exists, and its absolute form
/// with links and `..` resolved, where that could be had.
#[derive(Debug)]
pub struct Probe {
    pub path: String,
    pub present: bool,
    pub canonical: Option<String>,
}

/// What the disk said of a set of paths. Of a path that was asked twice the
/// first answer counts; a path that was not asked counts as not existing.
#[derive(Debug)]
pub struct FsSnapshot {
    pub probes: Vec<Probe>,
}

/// The resolved form of `p` by the first probe for it from `i` on, if that
/// probe found `p` and could resolve it.
pub open spec fn canonical_from(probes: Seq<Probe>, p: Seq<char>, i: int) -> Option<Seq<char>>
    decreases probes.len() - i,
{
    if i < 0 || i >= probes.len() {
        None
    } else if probes[i].path@ == p {
        if probes[i].present {
            option_view(probes[i].canonical)
        } else {
            None
        }
    } else {
        canonical_from(probes, p, i + 1)
    }
}

/// Whether the first probe for `p` from `i` on found it.
pub open spec fn present_from(probes: Seq<Probe>, p: Seq<char>, i: int) -> bool
    decreases probes.len() - i,
{
    if i < 0 || i >= probes.len() {
        false
    } else if probes[i].path@ == p {
        probes[i].present
    } else {
        present_from(probes, p, i + 1)
    }
}

impl FsSnapshot {
    /// The resolved form of `p`, where `p` exists and could be resolved.
    pub open spec fn canonical(self, p: Seq<char>) -> Option<Seq<char>> {
        canonical_from(self.probes@, p, 0)
    }

    /// Whether `p` exists.
    pub open spec fn is_present(self, p: Seq<char>) -> bool {
        present_from(self.probes@, p, 0)
    }

    /// The form of `p` that is compared: its resolved form, or `p` as it is
    /// where it does not exist or could not be resolved.
    pub open spec fn resolved(self, p: Seq<char>) -> Seq<char> {
        match self.canonical(p) {
            Some(c) => c,
            None => p,
        }
    }

    /// A snapshot in which nothing was asked.
    pub fn new() -> (fs: FsSnapshot)
        ensures
            fs.probes@.len() == 0,
    {
        FsSnapshot { probes: Vec::new() }
    }

    /// Add what the disk said of `path`, behind the answers already held.
    pub fn record(&mut self, path: String, present: bool, canonical: Option<String>)
        ensures
            final(self).probes@ == old(self).probes@.push(Probe { path, present, canonical }),
    {
        self.probes.push(Probe { path, present, canonical });
    }

    /// The resolved form of `p`, where `p` exists and could be resolved.
    pub fn lookup_canonical(&self, p: &str) -> (r: Option<String>)
        ensures
            option_view(r) == self.canonical(p@),
    {
        let mut i: usize = 0;
        while i < self.probes.len()
            invariant
                i <= self.probes.len(),
                self.canonical(p@) == canonical_from(self.probes@, p@, i as int),
            decreases self.probes.len() - i,
        {
            if same_text(self.probes[i].path.as_str(), p) {
                if self.probes[i].present {
                    return match &self.probes[i].canonical {
                        Some(c) => Some(c.clone()),
                        None => None,
                    };
                }
                return None;
            }
            i += 1;
        }
        None
    }

    /// Whether `p` exists.
    pub fn lookup_present(&self, p: &str) -> (r: bool)
        ensures
            r == self.is_present(p@),
    {
        let mut i: usize = 0;
        while i < self.probes.len()
            invariant
                i <= self.probes.len(),
                self.is_present(p@) == present_from(self.probes@, p@, i as int),
            decreases self.probes.len() - i,
        {
            if same_text(self.probes[i].path.as_str(), p) {
                return self.probes[i].present;
            }
            i += 1;
        }
        false
    }
}

/// Whether the allowed directory `dir` admits `candidate`: `dir` exists and
/// could be resolved, and the compared form of `candidate` starts with the
/// resolved form of `dir`. A directory that cannot be resolved admits
/// nothing.
pub open spec fn root_admits(fs: FsSnapshot, dir: Seq<char>, candidate: Seq<char>) -> bool {
    match fs.canonical(dir) {
        Some(root) => starts_with(fs.resolved(candidate), root),
        None => false,
    }
}

/// Whether one of `dirs` admits `candidate`.
pub open spec fn any_root_admits(
    fs: FsSnapshot,
    dirs: Seq<Seq<char>>,
    candidate: Seq<char>,
) -> bool {
    exists|j: int| 0 <= j < dirs.len() && root_admits(fs, #[trigger] dirs[j], candidate)
}

/// Whether `path` is allowed: the path itself, or one of the directories
/// above it, is admitted by one of `dirs`. With no directory in `dirs`
/// nothing is allowed.
pub open spec fn path_allowed(fs: FsSnapshot, dirs: Seq<Seq<char>>, path: Seq<char>) -> bool {
    exists|k: int|
        0 <= k < ancestors(path).len() && any_root_admits(fs, dirs, #[trigger] ancestors(path)[k])
}

/// Why a path was refused.
#[derive(Debug, Clone, Copy, PartialEq, Eq, Structural)]
pub enum Denial {
    /// No directory is allowed at all.
    NoRoots,
    /// Neither the path nor a directory above it lies in an allowed one.
    OutsideRoots,
}

/// The answer of the authorizer for one path.
#[derive(Debug, Clone, Copy, PartialEq, Eq, Structural)]
pub enum PathDecision {
    Allowed,
    Denied(Denial),
}

/// The answer that is due for `path`.
pub open spec fn decision(fs: FsSnapshot, dirs: Seq<Seq<char>>, path: Seq<char>) -> PathDecision {
    if dirs.len() == 0 {
        PathDecision::Denied(Denial::NoRoots)
    } else if path_allowed(fs, dirs, path) {
        PathDecision::Allowed
    } else {
        PathDecision::Denied(Denial::OutsideRoots)
    }
}

/// The paths of which the authorizer wants to know what the disk says,
/// before it decides on `path`: `path` and the directories above it, then
/// the allowed directories.
pub open spec fn wanted_probes(dirs: Seq<Seq<char>>, path: Seq<char>) -> Seq<Seq<char>> {
    ancestors(path) + dirs
}

/// The paths to ask the disk about before a decision on `path`.
pub fn probe_paths(path: &str, allowed_dirs: &Vec<String>) -> (r: Vec<String>)
    ensures
        views(r@) == wanted_probes(views(allowed_dirs@), path@),
{
    let mut r = path_ancestors(path);
    let ghost lead = views(r@);
    let mut k: usize = 0;
    while k < allowed_dirs.len()
        invariant
            k <= allowed_dirs.len(),
            views(r@) == lead + views(allowed_dirs@).take(k as int),
        decreases allowed_dirs.len() - k,
    {
        let ghost before = views(r@);
        r.push(allowed_dirs[k].clone());
        assert(views(r@) == before + seq![allowed_dirs@[k as int]@]);
        assert(views(allowed_dirs@).take(k + 1) == views(allowed_dirs@).take(k as int) + seq![
            allowed_dirs@[k as int]@,
        ]);
        k += 1;
    }
    assert(views(allowed_dirs@).take(k as int) == views(allowed_dirs@));
    r
}

/// Whether one of the allowed directories admits `candidate`.
fn admitted(fs: &FsSnapshot, allowed_dirs: &Vec<String>, candidate: &str) -> (r: bool)
    ensures
        r == any_root_admits(*fs, views(allowed_dirs@), candidate@),
{
    let compared: String = match fs.lookup_canonical(candidate) {
        Some(c) => c,
        None => candidate.to_owned(),
    };
    assert(compared@ == fs.resolved(candidate@));
    let mut j: usize = 0;
    while j < allowed_dirs.len()
        invariant
            j <= allowed_dirs.len(),
            compared@ == fs.resolved(candidate@),
            forall|m: int|
                0 <= m < j ==> !root_admits(*fs, #[trigger] views(allowed_dirs@)[m], candidate@),
        decreases allowed_dirs.len() - j,
    {
        assert(views(allowed_dirs@)[j as int] == allowed_dirs@[j as int]@);
        match fs.lookup_canonical(allowed_dirs[j].as_str()) {
            Some(root) => {
                if path_starts_with(compared.as_str(), root.as_str()) {
                    return true;
                }
            },
            None => {},
        }
        j += 1;
    }
    false
}

/// Decide whether `path` lies inside one of the allowed directories.
///
/// The path and then each directory above it is compared, in its resolved
/// form where the disk gave one, with the resolved form of each allowed
/// directory. So a path that does not exist yet is allowed where a directory
/// above it is.
pub fn authorize(path: &str, allowed_dirs: &Vec<String>, fs: &FsSnapshot) -> (r: PathDecision)
    ensures
        r == decision(*fs, views(allowed_dirs@), path@),
{
    if allowed_dirs.len() == 0 {
        return PathDecision::Denied(Denial::NoRoots);
    }
    let chain = path_ancestors(path);
    let mut k: usize = 0;
    while k < chain.len()
        invariant
            k <= chain.len(),
            views(chain@) == ancestors(path@),
            forall|m: int|
                0 <= m < k ==> !any_root_admits(
                    *fs,
                    views(allowed_dirs@),
                    #[trigger] ancestors(path@)[m],
                ),
        decreases chain.len() - k,
    {
        assert(views(chain@)[k as int] == chain@[k as int]@);
        if admitted(fs, allowed_dirs, chain[k].as_str()) {
            return PathDecision::Allowed;
        }
        k += 1;
    }
    PathDecision::Denied(Denial::OutsideRoots)
}

/// Whether `path` lies inside one of the allowed directories.
pub fn is_path_allowed(path: &str, allowed_dirs: &Vec<String>, fs: &FsSnapshot) -> (r: bool)
    ensures
        r == (allowed_dirs@.len() > 0 && path_allowed(*fs, views(allowed_dirs@), path@)),
{
    match authorize(path, allowed_dirs, fs) {
        PathDecision::Allowed => true,
        PathDecision::Denied(_) => false,
    }
}

/// The message for a path that was refused.
pub open spec fn denied_message(path: Seq<char>) -> Seq<char> {
    "Access denied: "@ + path
        + " is not within allowed directories. Use the allowed_directories resource to view permitted locations."@
}

/// The message for a refused path that is the source or the target of a
/// move; `role` is `source` or `target`.
pub open spec fn denied_role_message(role: Seq<char>, path: Seq<char>) -> Seq<char> {
    "Access denied: "@ + role + " path "@ + path + " is not within allowed directories"@
}

/// `Ok` where `path` is allowed, else the message for the caller.
pub fn validate_path_or_error(path: &str, allowed_dirs: &Vec<String>, fs: &FsSnapshot) -> (r:
    Result<(), String>)
    ensures
        match r {
            Ok(_) => decision(*fs, views(allowed_dirs@), path@) == PathDecision::Allowed,
            Err(message) => decision(*fs, views(allowed_dirs@), path@) != PathDecision::Allowed
                && message@ == denied_message(path@),
        },
{
    if !is_path_allowed(path, allowed_dirs, fs) {
        let head = appended("Access denied: ", path);
        Err(
            appended(
                head.as_str(),
                " is not within allowed directories. Use the allowed_directories resource to view permitted locations.",
            ),
        )
    } else {
        Ok(())
    }
}

fn role_message(role: &str, path: &str) -> (r: String)
    ensures
        r@ == denied_role_message(role@, path@),
{
    let a = appended("Access denied: ", role);
    let b = appended(a.as_str(), " path ");
    let c = appended(b.as_str(), path);
    appended(c.as_str(), " is not within allowed directories")
}

/// `Ok` where both paths of a move are allowed; else the message that names
/// the one that is not, the source first.
pub fn validate_paths_or_error(
    source: &str,
    target: &str,
    allowed_dirs: &Vec<String>,
    fs: &FsSnapshot,
) -> (r: Result<(), String>)
    ensures
        match r {
            Ok(_) => decision(*fs, views(allowed_dirs@), source@) == PathDecision::Allowed
                && decision(*fs, views(allowed_dirs@), target@) == PathDecision::Allowed,
            Err(message) => if decision(*fs, views(allowed_dirs@), source@)
                != PathDecision::Allowed {
                message@ == denied_role_message("source"@, source@)
            } else {
                decision(*fs, views(allowed_dirs@), target@) != PathDecision::Allowed && message@
                    == denied_role_message("target"@, target@)
            },
        },
{
    if !is_path_allowed(source, allowed_dirs, fs) {
        Err(role_message("source", source))
    } else if !is_path_allowed(target, allowed_dirs, fs) {
        Err(role_message("target", target))
    } else {
        Ok(())
    }
}

/// With no allowed directory every path is refused, the root of the file
/// system too, whatever the disk holds.
pub proof fn lemma_no_roots_denies_all(fs: FsSnapshot, path: Seq<char>)
    ensures
        decision(fs, Seq::<Seq<char>>::empty(), path) == PathDecision::Denied(Denial::NoRoots),
        !path_allowed(fs, Seq::<Seq<char>>::empty(), path),
{
}

/// A path is allowed where it, or a directory above it, in the form that is
/// compared, starts with the resolved form of an allowed directory.
pub proof fn lemma_inside_root_allowed(
    fs: FsSnapshot,
    dirs: Seq<Seq<char>>,
    path: Seq<char>,
    k: int,
    j: int,
)
    requires
        0 <= k < ancestors(path).len(),
        0 <= j < dirs.len(),
        fs.canonical(dirs[j]) is Some,
        starts_with(fs.resolved(ancestors(path)[k]), fs.canonical(dirs[j])->0),
    ensures
        decision(fs, dirs, path) == PathDecision::Allowed,
{
    assert(root_admits(fs, dirs[j], ancestors(path)[k]));
    assert(any_root_admits(fs, dirs, ancestors(path)[k]));
}

/// A path is refused where neither it nor a directory above it, in the form
/// that is compared, starts with the resolved form of an allowed directory.
pub proof fn lemma_outside_roots_denied(fs: FsSnapshot, dirs: Seq<Seq<char>>, path: Seq<char>)
    requires
        forall|k: int, j: int|
            0 <= k < ancestors(path).len() && 0 <= j < dirs.len() && fs.canonical(dirs[j]) is Some
                ==> !starts_with(
                fs.resolved(#[trigger] ancestors(path)[k]),
                fs.canonical(#[trigger] dirs[j])->0,
            ),
    ensures
        decision(fs, dirs, path) is Denied,
{
}

/// A path made by joining a name without a root below the resolved form of
/// an allowed directory is allowed, where the disk does not resolve it to
/// another place. The name may hold `..`: only the disk resolves that.
pub proof fn lemma_joined_below_root_allowed(
    fs: FsSnapshot,
    dirs: Seq<Seq<char>>,
    j: int,
    name: Seq<char>,
)
    requires
        0 <= j < dirs.len(),
        fs.canonical(dirs[j]) is Some,
        !has_root(name),
        fs.canonical(join(fs.canonical(dirs[j])->0, name)) is None,
    ensures
        decision(fs, dirs, join(fs.canonical(dirs[j])->0, name)) == PathDecision::Allowed,
{
    let root = fs.canonical(dirs[j])->0;
    let path = join(root, name);
    lemma_join_stays_below(root, name);
    assert(ancestors(path)[0] == path);
    lemma_inside_root_allowed(fs, dirs, path, 0, j);
}

/// A path is allowed where a directory above it is allowed, whatever the
/// path itself resolves to: a link that leads out of the allowed directories
/// is allowed as long as it lies in one of them.
pub proof fn lemma_allowed_below_allowed(
    fs: FsSnapshot,
    dirs: Seq<Seq<char>>,
    path: Seq<char>,
    k: int,
)
    requires
        0 <= k < ancestors(path).len(),
        decision(fs, dirs, ancestors(path)[k]) == PathDecision::Allowed,
    ensures
        decision(fs, dirs, path) == PathDecision::Allowed,
{
    let above = ancestors(path)[k];
    lemma_ancestors_of_ancestor(path, k);
    let i = choose|i: int|
        0 <= i < ancestors(above).len() && any_root_admits(fs, dirs, #[trigger] ancestors(above)[i]);
    assert(ancestors(above)[i] == ancestors(path)[k + i]);
    assert(any_root_admits(fs, dirs, ancestors(path)[k + i]));
}

/// An allowed directory that does not exist, or that could not be resolved,
/// admits nothing.
pub proof fn lemma_unresolved_root_admits_nothing(
    fs: FsSnapshot,
    dir: Seq<char>,
    candidate: Seq<char>,
)
    requires
        fs.canonical(dir) is None,
    ensures
        !root_admits(fs, dir, candidate),
{
}

/// A file that does not exist yet is allowed where the nearest directory
/// above it that exists resolves to a path inside an allowed directory.
pub proof fn lemma_new_path_allowed(
    fs: FsSnapshot,
    dirs: Seq<Seq<char>>,
    path: Seq<char>,
    k: int,
    j: int,
)
    requires
        0 < k < ancestors(path).len(),
        forall|m: int| 0 <= m < k ==> !fs.is_present(#[trigger] ancestors(path)[m]),
        fs.is_present(ancestors(path)[k]),
        fs.canonical(ancestors(path)[k]) is Some,
        0 <= j < dirs.len(),
        fs.canonical(dirs[j]) is Some,
        starts_with(fs.canonical(ancestors(path)[k])->0, fs.canonical(dirs[j])->0),
    ensures
        decision(fs, dirs, path) == PathDecision::Allowed,
{
    lemma_inside_root_allowed(fs, dirs, path, k, j);
}

} // verus!
