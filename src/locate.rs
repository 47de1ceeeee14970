//! Finding a program on the search path: directories in order, and within
//! each directory the candidate names in the caller's order, following
//! symbolic links to what they finally name. The driver looks at the file
//! system; the search decides what to look at next.

use vstd::prelude::*;

verus! {

/// What the driver found at a path, without following a link there.
pub enum Entry {
    /// Nothing is there.
    Missing,
    /// A symbolic link, pointing to the given path.
    Link(String),
    /// Something other than a link, at the given path.
    File(String),
    /// The entry could not be read; the driver holds the cause.
    Unreadable,
}

/// Why a search failed.
#[derive(PartialEq, Eq, Structural, Clone, Copy, Debug)]
pub enum LocateError {
    /// No directory holds any of the candidates.
    NotFound,
    /// An entry could not be read, or a chain of links is broken; the driver
    /// holds the cause.
    Io,
}

/// What a search asks its driver to do next.
pub enum SearchAction {
    /// Look at candidate `name` in directory `dir`, both indices into the
    /// caller's lists.
    InspectCandidate { dir: usize, name: usize },
    /// Look at the path that a link pointed to.
    InspectPath(String),
    /// The program is at this path.
    Found(String),
    /// The search failed.
    Fail(LocateError),
}

/// A search over `dirs` directories and `names` candidate names.
pub struct PathSearch {
    pub dirs: usize,
    pub names: usize,
    pub dir: usize,
    pub name: usize,
    pub following: bool,
    pub done: bool,
}

/// The place of candidate `name` in directory `dir` in the order of search.
pub open spec fn rank(names: nat, dir: nat, name: nat) -> nat {
    dir * names + name
}

/// The candidate searched after (`dir`, `name`), if any is left.
pub open spec fn successor(dirs: nat, names: nat, dir: nat, name: nat) -> Option<(nat, nat)> {
    if name + 1 < names {
        Some((dir, name + 1))
    } else if dir + 1 < dirs {
        Some((dir + 1, 0))
    } else {
        None
    }
}

/// One step of a search: from `s`, on what was found, to the next search
/// and what it asks for.
pub open spec fn search_step(s: PathSearch, e: Entry) -> (PathSearch, SearchAction) {
    match e {
        Entry::File(p) => (PathSearch { done: true, ..s }, SearchAction::Found(p)),
        Entry::Link(t) => (PathSearch { following: true, ..s }, SearchAction::InspectPath(t)),
        Entry::Unreadable => (PathSearch { done: true, ..s }, SearchAction::Fail(LocateError::Io)),
        Entry::Missing => if s.following {
            (PathSearch { done: true, ..s }, SearchAction::Fail(LocateError::Io))
        } else if s.name + 1 < s.names {
            (
                PathSearch { name: (s.name + 1) as usize, ..s },
                SearchAction::InspectCandidate { dir: s.dir, name: (s.name + 1) as usize },
            )
        } else if s.dir + 1 < s.dirs {
            (
                PathSearch { dir: (s.dir + 1) as usize, name: 0, ..s },
                SearchAction::InspectCandidate { dir: (s.dir + 1) as usize, name: 0 },
            )
        } else {
            (PathSearch { done: true, ..s }, SearchAction::Fail(LocateError::NotFound))
        },
    }
}

/// What a driver finds for an action, in a file system where looking at
/// candidate (`dir`, `name`) gives `cand(dir, name)` and looking at a path
/// gives `at(path)`.
pub open spec fn observe(
    a: SearchAction,
    cand: spec_fn(nat, nat) -> Entry,
    at: spec_fn(Seq<char>) -> Entry,
) -> Entry {
    match a {
        SearchAction::InspectCandidate { dir, name } => cand(dir as nat, name as nat),
        SearchAction::InspectPath(p) => at(p@),
        _ => Entry::Unreadable,
    }
}

/// Where a search that stands at `s`, having asked for `a`, is after at most
/// `fuel` more steps in that file system: the final answer, or the action
/// still pending.
pub open spec fn run(
    s: PathSearch,
    a: SearchAction,
    cand: spec_fn(nat, nat) -> Entry,
    at: spec_fn(Seq<char>) -> Entry,
    fuel: nat,
) -> SearchAction
    decreases fuel,
{
    if fuel == 0 || a is Found || a is Fail {
        a
    } else {
        let (s2, a2) = search_step(s, observe(a, cand, at));
        run(s2, a2, cand, at, (fuel - 1) as nat)
    }
}

/// Where a chain of at most `k` links that starts at entry `e` ends: the
/// path of the first entry in it that is not a link.
pub open spec fn chain_end(e: Entry, at: spec_fn(Seq<char>) -> Entry, k: nat) -> Option<String>
    decreases k,
{
    match e {
        Entry::File(p) => Some(p),
        Entry::Link(t) => if k == 0 {
            None
        } else {
            chain_end(at(t@), at, (k - 1) as nat)
        },
        _ => None,
    }
}

/// The search at its start over `dirs` directories and `names` names.
pub open spec fn initial(dirs: usize, names: usize) -> PathSearch {
    PathSearch { dirs, names, dir: 0, name: 0, following: false, done: false }
}

impl PathSearch {
    /// The search stands at a candidate that exists.
    pub open spec fn wf(&self) -> bool {
        !self.done ==> self.dir < self.dirs && self.name < self.names
    }

    /// Starts a search over `dirs` directories and `names` candidate names.
    pub fn start(dirs: usize, names: usize) -> (r: (PathSearch, SearchAction))
        ensures
            r.0.wf(),
            r.0.dirs == dirs,
            r.0.names == names,
            dirs == 0 || names == 0 ==> r.0.done && r.1 == SearchAction::Fail(LocateError::NotFound),
            dirs > 0 && names > 0 ==> r.0 == initial(dirs, names) && r.1 == (
            SearchAction::InspectCandidate { dir: 0, name: 0 }),
    {
        if dirs == 0 || names == 0 {
            let s = PathSearch { dirs, names, dir: 0, name: 0, following: false, done: true };
            (s, SearchAction::Fail(LocateError::NotFound))
        } else {
            let s = PathSearch { dirs, names, dir: 0, name: 0, following: false, done: false };
            (s, SearchAction::InspectCandidate { dir: 0, name: 0 })
        }
    }

    /// Moves the search on by what was found at the last path looked at.
    pub fn step(&mut self, e: Entry) -> (r: SearchAction)
        requires
            old(self).wf(),
            !old(self).done,
        ensures
            final(self).wf(),
            (*final(self), r) == search_step(*old(self), e),
            final(self).dirs == old(self).dirs,
            final(self).names == old(self).names,
            e matches Entry::File(p) ==> r == SearchAction::Found(p) && final(self).done,
            e matches Entry::Link(t) ==> r == SearchAction::InspectPath(t) && !final(self).done
                && final(self).following && final(self).dir == old(self).dir
                && final(self).name == old(self).name,
            e is Unreadable ==> r == SearchAction::Fail(LocateError::Io) && final(self).done,
            e is Missing && old(self).following ==> r == SearchAction::Fail(LocateError::Io)
                && final(self).done,
            e is Missing && !old(self).following ==> match successor(
                old(self).dirs as nat,
                old(self).names as nat,
                old(self).dir as nat,
                old(self).name as nat,
            ) {
                Some((d, n)) => r == (SearchAction::InspectCandidate {
                    dir: d as usize,
                    name: n as usize,
                }) && !final(self).done && !final(self).following && final(self).dir == d
                    && final(self).name == n,
                None => r == SearchAction::Fail(LocateError::NotFound) && final(self).done,
            },
    {
        match e {
            Entry::File(p) => {
                self.done = true;
                SearchAction::Found(p)
            },
            Entry::Link(t) => {
                self.following = true;
                SearchAction::InspectPath(t)
            },
            Entry::Unreadable => {
                self.done = true;
                SearchAction::Fail(LocateError::Io)
            },
            Entry::Missing => {
                if self.following {
                    self.done = true;
                    SearchAction::Fail(LocateError::Io)
                } else if self.name + 1 < self.names {
                    self.name = self.name + 1;
                    SearchAction::InspectCandidate { dir: self.dir, name: self.name }
                } else if self.dir + 1 < self.dirs {
                    self.dir = self.dir + 1;
                    self.name = 0;
                    SearchAction::InspectCandidate { dir: self.dir, name: self.name }
                } else {
                    self.done = true;
                    SearchAction::Fail(LocateError::NotFound)
                }
            },
        }
    }
}

/// Candidates are searched one after another, directory by directory and
/// by name within a directory, none skipped: the candidate after one stands
/// next to it in that order, and only the very last has none after it.
pub proof fn lemma_search_order(dirs: nat, names: nat, dir: nat, name: nat)
    requires
        dir < dirs,
        name < names,
    ensures
        successor(dirs, names, dir, name) matches Some((d, n)) ==> rank(names, d, n) == rank(
            names,
            dir,
            name,
        ) + 1 && d < dirs && n < names,
        successor(dirs, names, dir, name) is None <==> rank(names, dir, name) + 1 == dirs * names,
{
    if name + 1 >= names {
        assert(rank(names, dir + 1, 0) == rank(names, dir, name) + 1) by (nonlinear_arith)
            requires
                name + 1 == names,
        ;
    }
    if dir + 1 < dirs {
        assert(rank(names, dir, name) + 1 < dirs * names) by (nonlinear_arith)
            requires
                dir + 1 < dirs,
                name < names,
        ;
    } else {
        assert(rank(names, dir, name) + 1 == dirs * names <==> name + 1 == names)
            by (nonlinear_arith)
            requires
                dir + 1 == dirs,
                name < names,
        ;
    }
}

/// Following a chain of links from a candidate that the search stands at
/// ends at the chain's last entry.
proof fn lemma_chain_followed(
    s: PathSearch,
    a: SearchAction,
    cand: spec_fn(nat, nat) -> Entry,
    at: spec_fn(Seq<char>) -> Entry,
    k: nat,
    p: String,
)
    requires
        !s.done,
        a is InspectCandidate || a is InspectPath,
        chain_end(observe(a, cand, at), at, k) == Some(p),
    ensures
        run(s, a, cand, at, k + 1) == SearchAction::Found(p),
    decreases k,
{
    let (s2, a2) = search_step(s, observe(a, cand, at));
    assert(run(s, a, cand, at, k + 1) == run(s2, a2, cand, at, k));
    match observe(a, cand, at) {
        Entry::File(q) => {
            assert(a2 == SearchAction::Found(p));
            assert(run(s2, a2, cand, at, k) == a2);
        },
        Entry::Link(t) => {
            assert(a2 == SearchAction::InspectPath(t));
            assert(observe(a2, cand, at) == at(t@));
            lemma_chain_followed(s2, a2, cand, at, (k - 1) as nat, p);
            assert((k - 1) as nat + 1 == k);
        },
        _ => {},
    }
}

/// Passing over missing candidates: from candidate (`dir`, `name`), with
/// every candidate from there up to but not including (`d`, `n`) missing,
/// the search reaches (`d`, `n`) in as many steps as lie between them.
proof fn lemma_missing_skipped(
    s: PathSearch,
    cand: spec_fn(nat, nat) -> Entry,
    at: spec_fn(Seq<char>) -> Entry,
    d: nat,
    n: nat,
    fuel: nat,
)
    requires
        s.wf(),
        !s.done,
        !s.following,
        d < s.dirs,
        n < s.names,
        rank(s.names as nat, s.dir as nat, s.name as nat) <= rank(s.names as nat, d, n),
        forall|i: nat, j: nat|
            #![trigger cand(i, j)]
            i < s.dirs && j < s.names && rank(s.names as nat, s.dir as nat, s.name as nat) <= rank(
                s.names as nat,
                i,
                j,
            ) < rank(s.names as nat, d, n) ==> cand(i, j) is Missing,
    ensures
        run(
            s,
            SearchAction::InspectCandidate { dir: s.dir, name: s.name },
            cand,
            at,
            (fuel + (rank(s.names as nat, d, n) - rank(s.names as nat, s.dir as nat, s.name as nat))) as nat,
        ) == run(
            PathSearch { dir: d as usize, name: n as usize, ..s },
            SearchAction::InspectCandidate { dir: d as usize, name: n as usize },
            cand,
            at,
            fuel,
        ),
    decreases rank(s.names as nat, d, n) - rank(s.names as nat, s.dir as nat, s.name as nat),
{
    let names = s.names as nat;
    let here = rank(names, s.dir as nat, s.name as nat);
    let goal = rank(names, d, n);
    if here == goal {
        lemma_rank_injective(names, s.dir as nat, s.name as nat, d, n);
        assert(PathSearch { dir: d as usize, name: n as usize, ..s } == s);
    } else {
        let a = SearchAction::InspectCandidate { dir: s.dir, name: s.name };
        assert(cand(s.dir as nat, s.name as nat) is Missing);
        assert(observe(a, cand, at) == Entry::Missing);
        lemma_search_order(s.dirs as nat, names, s.dir as nat, s.name as nat);
        lemma_rank_bound(names, d, n, s.dirs as nat);
        let (s2, a2) = search_step(s, Entry::Missing);
        assert(s2.dirs == s.dirs && s2.names == s.names && !s2.done && !s2.following);
        assert(a2 == SearchAction::InspectCandidate { dir: s2.dir, name: s2.name });
        assert(rank(names, s2.dir as nat, s2.name as nat) == here + 1);
        lemma_missing_skipped(s2, cand, at, d, n, fuel);
        assert(PathSearch { dir: d as usize, name: n as usize, ..s2 } == PathSearch {
            dir: d as usize,
            name: n as usize,
            ..s
        });
        assert(fuel + (goal - here) == (fuel + (goal - (here + 1))) + 1);
    }
}

proof fn lemma_rank_injective(names: nat, d1: nat, n1: nat, d2: nat, n2: nat)
    requires
        n1 < names,
        n2 < names,
        rank(names, d1, n1) == rank(names, d2, n2),
    ensures
        d1 == d2 && n1 == n2,
{
    assert(d1 == d2) by (nonlinear_arith)
        requires
            n1 < names,
            n2 < names,
            d1 * names + n1 == d2 * names + n2,
    ;
}

proof fn lemma_rank_bound(names: nat, d: nat, n: nat, dirs: nat)
    requires
        d < dirs,
        n < names,
    ensures
        rank(names, d, n) < dirs * names,
{
    assert(d * names + n < dirs * names) by (nonlinear_arith)
        requires
            d < dirs,
            n < names,
    ;
}

/// A whole search finds the first candidate, directory by directory and by
/// name within a directory, that is present, and follows its chain of links
/// to the chain's end: when every candidate before (`d`, `n`) is missing and
/// the entry of (`d`, `n`) leads through at most `k` links to `p`, the search
/// answers `p`. Being a function of the file system alone, the answer is the
/// same for every search over the same one.
pub proof fn lemma_search_finds_first(
    dirs: usize,
    names: usize,
    cand: spec_fn(nat, nat) -> Entry,
    at: spec_fn(Seq<char>) -> Entry,
    d: nat,
    n: nat,
    k: nat,
    p: String,
)
    requires
        d < dirs,
        n < names,
        forall|i: nat, j: nat|
            #![trigger cand(i, j)]
            i < dirs && j < names && rank(names as nat, i, j) < rank(names as nat, d, n)
                ==> cand(i, j) is Missing,
        chain_end(cand(d, n), at, k) == Some(p),
    ensures
        run(
            initial(dirs, names),
            SearchAction::InspectCandidate { dir: 0, name: 0 },
            cand,
            at,
            rank(names as nat, d, n) + k + 1,
        ) == SearchAction::Found(p),
{
    let s = initial(dirs, names);
    assert(rank(names as nat, 0, 0) == 0);
    lemma_missing_skipped(s, cand, at, d, n, k + 1);
    let s2 = PathSearch { dir: d as usize, name: n as usize, ..s };
    let a2 = SearchAction::InspectCandidate { dir: d as usize, name: n as usize };
    assert(observe(a2, cand, at) == cand(d, n));
    lemma_chain_followed(s2, a2, cand, at, k, p);
    assert(rank(names as nat, d, n) + k + 1 == (k + 1) + (rank(names as nat, d, n) - 0));
}

} // verus!
