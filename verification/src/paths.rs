//! Path resolver: decides which registered local configuration files are in
//! scope for a working directory, and which single one is nearest.
//!
//! A path is modeled as its sequence of components below the filesystem
//! root, already canonicalized (no `.`/`..`, no symlinks, no empty
//! components). The caller canonicalizes real paths before handing them in;
//! component sequences make the ancestor/descendant tests and the distance
//! measure exact. The root directory itself is the empty sequence.

use vstd::prelude::*;

verus! {

/// A canonicalized absolute path: its components below the root, in order.
/// For a config-file path the last component is the file name.
pub struct AbsPath {
    pub parts: Vec<String>,
}

impl View for AbsPath {
    type V = Seq<Seq<char>>;

    open spec fn view(&self) -> Seq<Seq<char>> {
        Seq::new(self.parts@.len(), |i: int| self.parts@[i]@)
    }
}

impl AbsPath {
    /// A copy with the same components.
    pub fn duplicate(&self) -> (r: Self)
        ensures
            r@ == self@,
    {
        let parts = self.parts.clone();
        proof {
            assert(parts@ =~= self.parts@);
            assert(AbsPath { parts }@ =~= self@);
        }
        AbsPath { parts }
    }
}

/// The directory containing the file at path `p`: all components but the
/// file name.
pub open spec fn scope_dir(p: Seq<Seq<char>>) -> Seq<Seq<char>> {
    p.drop_last()
}

/// The working directory `cwd` is inside the scope of the config file at
/// `p`: it equals or descends from `p`'s parent directory.
pub open spec fn in_scope(p: Seq<Seq<char>>, cwd: Seq<Seq<char>>) -> bool {
    p.len() >= 1 && scope_dir(p).is_prefix_of(cwd)
}

/// Number of path components between `p`'s parent directory and `cwd`
/// (0 = the config file sits directly in `cwd`). Meaningful when
/// `in_scope(p, cwd)` holds.
pub open spec fn scope_distance(p: Seq<Seq<char>>, cwd: Seq<Seq<char>>) -> int {
    cwd.len() - (p.len() - 1)
}

/// Whether `cwd` equals or descends from the parent directory of the
/// config-file path `p`.
pub fn path_in_scope(p: &AbsPath, cwd: &AbsPath) -> (r: bool)
    ensures
        r == in_scope(p@, cwd@),
{
    let n = p.parts.len();
    if n == 0 {
        return false;
    }
    if n - 1 > cwd.parts.len() {
        return false;
    }
    let mut i: usize = 0;
    while i < n - 1
        invariant
            n == p.parts.len(),
            1 <= n,
            n - 1 <= cwd.parts.len(),
            0 <= i <= n - 1,
            forall|j: int| 0 <= j < i ==> p@[j] == cwd@[j],
        decreases n - 1 - i,
    {
        if !(p.parts[i] == cwd.parts[i]) {
            proof {
                assert(p@[i as int] != cwd@[i as int]);
                assert(!in_scope(p@, cwd@)) by {
                    if scope_dir(p@).is_prefix_of(cwd@) {
                        assert(scope_dir(p@)[i as int] == cwd@.subrange(
                            0,
                            scope_dir(p@).len() as int,
                        )[i as int]);
                    }
                }
            }
            return false;
        }
        i += 1;
    }
    proof {
        assert(scope_dir(p@) =~= cwd@.subrange(0, (n - 1) as int));
    }
    true
}

/// The component views of a sequence of paths.
pub open spec fn path_views(s: Seq<AbsPath>) -> Seq<Seq<Seq<char>>> {
    Seq::new(s.len(), |i: int| s[i]@)
}

/// The registered paths whose scope contains `cwd`, in registration order.
pub open spec fn in_scope_views(reg: Seq<AbsPath>, cwd: Seq<Seq<char>>) -> Seq<Seq<Seq<char>>> {
    path_views(reg).filter(|v: Seq<Seq<char>>| in_scope(v, cwd))
}

proof fn lemma_in_scope_views_push(reg: Seq<AbsPath>, p: AbsPath, cwd: Seq<Seq<char>>)
    ensures
        in_scope_views(reg.push(p), cwd) == if in_scope(p@, cwd) {
            in_scope_views(reg, cwd).push(p@)
        } else {
            in_scope_views(reg, cwd)
        },
{
    reveal(Seq::filter);
    assert(path_views(reg.push(p)) =~= path_views(reg).push(p@));
    assert(path_views(reg).push(p@).drop_last() =~= path_views(reg));
}

/// Every registered path whose parent directory equals `cwd` or is an
/// ancestor of it, in registration order. Registration alone makes a local
/// config discoverable; this never walks the filesystem.
pub fn find_all_in_scope(cwd: &AbsPath, registered: &Vec<AbsPath>) -> (r: Vec<AbsPath>)
    ensures
        path_views(r@) == in_scope_views(registered@, cwd@),
{
    let mut out: Vec<AbsPath> = Vec::new();
    let mut i: usize = 0;
    proof {
        reveal(Seq::filter);
        assert(path_views(out@) =~= in_scope_views(registered@.take(0), cwd@));
    }
    while i < registered.len()
        invariant
            0 <= i <= registered.len(),
            path_views(out@) == in_scope_views(registered@.take(i as int), cwd@),
        decreases registered.len() - i,
    {
        let ghost pre = out@;
        if path_in_scope(&registered[i], cwd) {
            out.push(registered[i].duplicate());
        }
        proof {
            lemma_in_scope_views_push(registered@.take(i as int), registered@[i as int], cwd@);
            assert(registered@.take(i as int).push(registered@[i as int]) =~= registered@.take(
                i as int + 1,
            ));
            if in_scope(registered@[i as int]@, cwd@) {
                assert(path_views(out@) =~= path_views(pre).push(registered@[i as int]@));
            }
        }
        i += 1;
    }
    proof {
        assert(registered@.take(registered@.len() as int) =~= registered@);
    }
    out
}

/// Some registered path is in scope for `cwd`.
pub open spec fn has_candidate(reg: Seq<AbsPath>, cwd: Seq<Seq<char>>) -> bool {
    exists|i: int| 0 <= i < reg.len() && in_scope(#[trigger] reg[i]@, cwd)
}

/// `reg[k]` is in scope for `cwd`, no in-scope registered path is strictly
/// nearer, and among equally near ones `k` is the first registered.
pub open spec fn is_nearest_choice(reg: Seq<AbsPath>, cwd: Seq<Seq<char>>, k: int) -> bool {
    &&& 0 <= k < reg.len()
    &&& in_scope(reg[k]@, cwd)
    &&& forall|j: int|
        0 <= j < reg.len() && in_scope(#[trigger] reg[j]@, cwd) ==> scope_distance(reg[k]@, cwd)
            <= scope_distance(reg[j]@, cwd)
    &&& forall|j: int|
        0 <= j < k && in_scope(#[trigger] reg[j]@, cwd) ==> scope_distance(reg[k]@, cwd)
            < scope_distance(reg[j]@, cwd)
}

/// Resolves the effective local scope for `cwd`.
///
/// `config_in_cwd` says whether a regular file with the well-known config
/// file name exists directly in `cwd`; direct presence wins over the
/// registry. Otherwise the in-scope registered path with the smallest
/// ancestor distance wins; equally distant candidates are broken toward the
/// first registered, a deterministic rule kept from the original behavior.
/// With no candidate at all, the global config's own path is the result, so
/// every operation has some resolvable config.
pub fn find_nearest_local(
    cwd: &AbsPath,
    registered: &Vec<AbsPath>,
    global_path: &AbsPath,
    config_in_cwd: bool,
) -> (r: AbsPath)
    ensures
        config_in_cwd ==> r@ == cwd@.push(crate::spec_config_file_name()),
        !config_in_cwd && !has_candidate(registered@, cwd@) ==> r@ == global_path@,
        !config_in_cwd && has_candidate(registered@, cwd@) ==> exists|k: int|
            #[trigger] is_nearest_choice(registered@, cwd@, k) && r@ == registered@[k]@,
{
    if config_in_cwd {
        let mut direct = cwd.duplicate();
        direct.parts.push(crate::config_file_name().to_owned());
        proof {
            assert(direct@ =~= cwd@.push(crate::spec_config_file_name()));
        }
        return direct;
    }
    let mut best: usize = 0;
    let mut best_dist: usize = 0;
    let mut found = false;
    let mut i: usize = 0;
    while i < registered.len()
        invariant
            0 <= i <= registered.len(),
            !found ==> forall|j: int| 0 <= j < i ==> !in_scope(#[trigger] registered@[j]@, cwd@),
            found ==> {
                &&& 0 <= best < i
                &&& in_scope(registered@[best as int]@, cwd@)
                &&& best_dist == scope_distance(registered@[best as int]@, cwd@)
                &&& forall|j: int|
                    0 <= j < i && in_scope(#[trigger] registered@[j]@, cwd@) ==> best_dist
                        <= scope_distance(registered@[j]@, cwd@)
                &&& forall|j: int|
                    0 <= j < best && in_scope(#[trigger] registered@[j]@, cwd@) ==> best_dist
                        < scope_distance(registered@[j]@, cwd@)
            },
        decreases registered.len() - i,
    {
        let p = &registered[i];
        if path_in_scope(p, cwd) {
            let d: usize = cwd.parts.len() - (p.parts.len() - 1);
            if !found || d < best_dist {
                best = i;
                best_dist = d;
                found = true;
            }
        }
        i += 1;
    }
    if found {
        proof {
            assert(is_nearest_choice(registered@, cwd@, best as int));
        }
        registered[best].duplicate()
    } else {
        global_path.duplicate()
    }
}

/// Law: `find_all_in_scope` keeps a registered path exactly when the
/// working directory equals or descends from that path's parent directory.
pub proof fn lemma_in_scope_views_membership(reg: Seq<AbsPath>, cwd: Seq<Seq<char>>, i: int)
    requires
        0 <= i < reg.len(),
    ensures
        in_scope_views(reg, cwd).contains(reg[i]@) <==> in_scope(reg[i]@, cwd),
{
    let pred = |v: Seq<Seq<char>>| in_scope(v, cwd);
    let views = path_views(reg);
    if in_scope(reg[i]@, cwd) {
        views.lemma_filter_contains(pred, i);
    }
    if views.filter(pred).contains(reg[i]@) {
        let j = choose|j: int|
            0 <= j < views.filter(pred).len() && views.filter(pred)[j] == reg[i]@;
        views.lemma_filter_pred(pred, j);
    }
}

/// Law: when exactly one registered path is in scope, the nearest choice is
/// that path, whatever its distance.
pub proof fn lemma_single_candidate_is_nearest(
    reg: Seq<AbsPath>,
    cwd: Seq<Seq<char>>,
    k: int,
    j: int,
)
    requires
        is_nearest_choice(reg, cwd, k),
        0 <= j < reg.len(),
        in_scope(reg[j]@, cwd),
        forall|m: int| 0 <= m < reg.len() && m != j ==> !in_scope(#[trigger] reg[m]@, cwd),
    ensures
        k == j,
{
}

} // verus!
