use vstd::prelude::*;

verus! {

/// What a candidate path turned out to be on disk.
#[derive(Clone, Copy, Debug, PartialEq, Eq, Structural)]
pub enum PathKind {
    Missing,
    Directory,
    NotDirectory,
}

/// One direct entry of a directory listing.
#[derive(Debug)]
pub struct ListedEntry {
    pub name: String,
    pub is_file: bool,
}

pub open spec fn views(s: Seq<String>) -> Seq<Seq<char>> {
    s.map_values(|v: String| v@)
}

/// `s` without repeats, each path kept where it first occurs.
pub open spec fn dedup(s: Seq<Seq<char>>) -> Seq<Seq<char>>
    decreases s.len(),
{
    if s.len() == 0 {
        Seq::empty()
    } else {
        let d = dedup(s.drop_last());
        if d.contains(s.last()) {
            d
        } else {
            d.push(s.last())
        }
    }
}

/// The repository candidates in priority order: install-only repositories, then the
/// other user repositories, then the built-in defaults, each path once.
pub open spec fn candidate_order(
    install_repos: Seq<Seq<char>>,
    repos: Seq<Seq<char>>,
    defaults: Seq<Seq<char>>,
) -> Seq<Seq<char>> {
    dedup(install_repos + repos + defaults)
}

/// Whether `p` is among `v`.
fn holds_path(v: &Vec<String>, p: &String) -> (r: bool)
    ensures
        r == views(v@).contains(p@),
{
    let mut i: usize = 0;
    while i < v.len()
        invariant
            i <= v.len(),
            forall|k: int| 0 <= k < i ==> v@[k]@ != p@,
        decreases v.len() - i,
    {
        if v[i] == *p {
            assert(views(v@)[i as int] == p@);
            return true;
        }
        i = i + 1;
    }
    proof {
        if views(v@).contains(p@) {
            let k = choose|k: int| 0 <= k < views(v@).len() && views(v@)[k] == p@;
            assert(v@[k]@ == p@);
        }
    }
    false
}

/// Appends to `out` each path of `paths` that it does not hold yet.
fn push_new(out: &mut Vec<String>, paths: &Vec<String>, Ghost(before): Ghost<Seq<Seq<char>>>)
    requires
        views(old(out)@) == dedup(before),
    ensures
        views(final(out)@) == dedup(before + views(paths@)),
{
    let mut i: usize = 0;
    while i < paths.len()
        invariant
            i <= paths.len(),
            views(out@) == dedup(before + views(paths@).take(i as int)),
        decreases paths.len() - i,
    {
        let ghost prev = before + views(paths@).take(i as int);
        let ghost next = before + views(paths@).take(i + 1);
        assert(next.drop_last() =~= prev);
        assert(next.last() == paths@[i as int]@);
        if !holds_path(out, &paths[i]) {
            out.push(paths[i].clone());
            assert(views(out@) =~= dedup(prev).push(paths@[i as int]@));
        }
        i = i + 1;
    }
    assert(views(paths@).take(paths.len() as int) =~= views(paths@));
}

/// Orders the repository candidates: install-only repositories first, then the other
/// user repositories, then the built-in defaults, dropping repeated paths.
pub fn candidate_repos(install_repos: &Vec<String>, repos: &Vec<String>, defaults: &Vec<String>) -> (r:
    Vec<String>)
    ensures
        views(r@) == candidate_order(views(install_repos@), views(repos@), views(defaults@)),
{
    let mut out: Vec<String> = Vec::new();
    assert(views(out@) =~= dedup(Seq::empty()));
    push_new(&mut out, install_repos, Ghost(Seq::empty()));
    assert(Seq::<Seq<char>>::empty() + views(install_repos@) =~= views(install_repos@));
    push_new(&mut out, repos, Ghost(views(install_repos@)));
    push_new(&mut out, defaults, Ghost(views(install_repos@) + views(repos@)));
    out
}

/// The candidates that exist as directories, in their order.
pub open spec fn existing_dirs(paths: Seq<Seq<char>>, kinds: Seq<PathKind>) -> Seq<Seq<char>>
    decreases paths.len(),
{
    if paths.len() == 0 {
        Seq::empty()
    } else {
        let rest = existing_dirs(paths.drop_last(), kinds);
        if kinds[paths.len() - 1] == PathKind::Directory {
            rest.push(paths.last())
        } else {
            rest
        }
    }
}

/// The repositories to search for a cached artifact: the candidates found to be
/// directories. `kinds[i]` is what `candidates[i]` is on disk.
pub fn search_set(candidates: &Vec<String>, kinds: &Vec<PathKind>) -> (r: Vec<String>)
    requires
        candidates.len() == kinds.len(),
    ensures
        views(r@) == existing_dirs(views(candidates@), kinds@),
{
    let mut out: Vec<String> = Vec::new();
    let mut i: usize = 0;
    while i < candidates.len()
        invariant
            i <= candidates.len(),
            candidates.len() == kinds.len(),
            views(out@) == existing_dirs(views(candidates@).take(i as int), kinds@),
        decreases candidates.len() - i,
    {
        let ghost t = views(candidates@).take(i + 1);
        assert(t.drop_last() =~= views(candidates@).take(i as int));
        if kinds[i] == PathKind::Directory {
            out.push(candidates[i].clone());
            assert(views(out@) =~= existing_dirs(views(candidates@).take(i as int), kinds@).push(
                candidates@[i as int]@,
            ));
        }
        i = i + 1;
    }
    assert(views(candidates@).take(candidates.len() as int) =~= views(candidates@));
    out
}

/// The entry is the cached artifact of `version`: a regular file named exactly so.
pub open spec fn is_artifact(e: ListedEntry, version: Seq<char>) -> bool {
    e.is_file && e.name@ == version
}

/// The position of the cached artifact of `version` in one directory listing: the first
/// regular file named exactly after the version.
pub fn find_in_listing(entries: &Vec<ListedEntry>, version: &String) -> (r: Option<usize>)
    ensures
        match r {
            Some(i) => i < entries.len() && is_artifact(entries@[i as int], version@) && forall|
                k: int,
            |
                0 <= k < i ==> !is_artifact(#[trigger] entries@[k], version@),
            None => forall|k: int|
                0 <= k < entries.len() ==> !is_artifact(#[trigger] entries@[k], version@),
        },
{
    let mut i: usize = 0;
    while i < entries.len()
        invariant
            i <= entries.len(),
            forall|k: int| 0 <= k < i ==> !is_artifact(#[trigger] entries@[k], version@),
        decreases entries.len() - i,
    {
        if entries[i].is_file && entries[i].name == *version {
            return Some(i);
        }
        i = i + 1;
    }
    None
}

} // verus!
