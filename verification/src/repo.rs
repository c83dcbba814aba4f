//! Finding the repository that a changed path belongs to.
use crate::authorize::FsSnapshot;
use crate::path::{
    ancestors, join, lemma_ancestors_start_the_path, path_ancestors, path_join, starts_with,
    strip_prefix,
};
use crate::text::{option_view, views};
use vstd::prelude::*;

verus! {

/// The name of the marker that a repository's directory holds.
pub open spec fn marker_name() -> Seq<char> {
    ".git"@
}

/// The marker paths to ask the disk about: the marker below each directory
/// above `path`, the nearest first.
pub open spec fn marker_paths(path: Seq<char>) -> Seq<Seq<char>> {
    Seq::new(
        (ancestors(path).len() - 1) as nat,
        |k: int| join(ancestors(path)[k + 1], marker_name()),
    )
}

/// The first directory of `chain` from `k` on that holds a marker.
pub open spec fn repo_from(fs: FsSnapshot, chain: Seq<Seq<char>>, k: int) -> Option<Seq<char>>
    decreases chain.len() - k,
{
    if k < 0 || k >= chain.len() {
        None
    } else if fs.is_present(join(chain[k], marker_name())) {
        Some(chain[k])
    } else {
        repo_from(fs, chain, k + 1)
    }
}

/// The nearest directory above `path` that holds a repository marker.
pub open spec fn git_repo(fs: FsSnapshot, path: Seq<char>) -> Option<Seq<char>> {
    repo_from(fs, ancestors(path), 1)
}

/// The marker paths to ask the disk about before `find_git_repo`.
pub fn repo_marker_paths(path: &str) -> (r: Vec<String>)
    ensures
        views(r@) == marker_paths(path@),
{
    let chain = path_ancestors(path);
    let mut r: Vec<String> = Vec::new();
    assert(views(chain@).len() == chain@.len());
    let mut k: usize = 1;
    while k < chain.len()
        invariant
            1 <= k <= chain.len(),
            views(chain@) == ancestors(path@),
            views(r@) == marker_paths(path@).take(k - 1),
        decreases chain.len() - k,
    {
        assert(views(chain@)[k as int] == chain@[k as int]@);
        let marker = path_join(chain[k].as_str(), ".git");
        let ghost before = views(r@);
        r.push(marker);
        assert(views(r@) == before + seq![join(ancestors(path@)[k as int], marker_name())]);
        assert(marker_paths(path@).take(k as int) == marker_paths(path@).take(k - 1) + seq![
            join(ancestors(path@)[k as int], marker_name()),
        ]);
        k += 1;
    }
    assert(marker_paths(path@).take(k - 1) == marker_paths(path@));
    r
}

/// The nearest directory above `path` in which the disk showed a
/// repository marker.
pub fn find_git_repo(path: &str, fs: &FsSnapshot) -> (r: Option<String>)
    ensures
        option_view(r) == git_repo(*fs, path@),
{
    let chain = path_ancestors(path);
    let mut k: usize = 1;
    while k < chain.len()
        invariant
            1 <= k,
            views(chain@) == ancestors(path@),
            git_repo(*fs, path@) == repo_from(*fs, ancestors(path@), k as int),
        decreases chain.len() - k,
    {
        assert(views(chain@)[k as int] == chain@[k as int]@);
        let marker = path_join(chain[k].as_str(), ".git");
        if fs.lookup_present(marker.as_str()) {
            return Some(chain[k].clone());
        }
        k += 1;
    }
    None
}

/// Whatever `repo_from` finds stands in the chain, at `k` or behind it.
pub proof fn lemma_repo_from_is_in_chain(fs: FsSnapshot, chain: Seq<Seq<char>>, k: int)
    requires
        0 <= k,
        repo_from(fs, chain, k) is Some,
    ensures
        exists|i: int| k <= i < chain.len() && #[trigger] chain[i] == repo_from(fs, chain, k)->0,
    decreases chain.len() - k,
{
    if k < chain.len() && !fs.is_present(join(chain[k], marker_name())) {
        lemma_repo_from_is_in_chain(fs, chain, k + 1);
    }
}

/// The repository of a path is a directory above it: the path starts with
/// it, and something is left of the path behind it.
pub proof fn lemma_repo_is_above(fs: FsSnapshot, path: Seq<char>)
    requires
        git_repo(fs, path) is Some,
    ensures
        starts_with(path, git_repo(fs, path)->0),
        strip_prefix(path, git_repo(fs, path)->0) is Some,
{
    lemma_repo_from_is_in_chain(fs, ancestors(path), 1);
    let i = choose|i: int|
        1 <= i < ancestors(path).len() && #[trigger] ancestors(path)[i] == git_repo(fs, path)->0;
    lemma_ancestors_start_the_path(path, i);
}

} // verus!
