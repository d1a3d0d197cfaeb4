//! The runtime-root resolver: a prioritised list of candidate directories is
//! searched for the launch scripts and the payload directory.
use vstd::prelude::*;
use crate::fs::{is_directory, path_views, present, FsModel, FsSnapshot};
use crate::path::{joined, opt_view, parent_of, DirPath, PathModel};
use crate::platform::Platform;

verus! {

/// How many parents of the executable's directory, and of the working
/// directory, are searched.
pub const ANCESTOR_DEPTH: usize = 16;

/// How many directories one chain of parents holds: the start and its
/// searched parents.
pub const CHAIN_LEN: usize = ANCESTOR_DEPTH + 1;

/// The places where a script named `name` is looked for under `root`, in order.
pub open spec fn script_locations(root: PathModel, name: Seq<char>) -> Seq<PathModel> {
    seq![
        joined(root, name),
        joined(joined(root, "resources"@), name),
        joined(joined(root, "scripts"@), name),
    ]
}

/// The first existing entry of `s`, if any.
pub open spec fn first_present(fs: FsModel, s: Seq<PathModel>) -> Option<PathModel>
    decreases s.len(),
{
    if s.len() == 0 {
        None
    } else if present(fs, s[0]) {
        Some(s[0])
    } else {
        first_present(fs, s.drop_first())
    }
}

/// Where the script `name` is found under `root`: directly, under
/// `resources`, or under `scripts`, the first that exists.
pub open spec fn script_path(fs: FsModel, root: PathModel, name: Seq<char>) -> Option<PathModel> {
    first_present(fs, script_locations(root, name))
}

/// A launch script of either platform can be found under `base`.
pub open spec fn launch_scripts_at(fs: FsModel, base: PathModel) -> bool {
    script_path(fs, base, "runlivuals.bat"@) is Some
        || script_path(fs, base, "runlivuals_macos.sh"@) is Some
}

/// The payload directory exists under `base`.
pub open spec fn payload_at(fs: FsModel, base: PathModel) -> bool {
    is_directory(fs, joined(base, "livuals"@))
}

/// `d` qualifies as a root: it has the launch scripts, and the payload too
/// when `both` is asked.
pub open spec fn qualifies(fs: FsModel, d: PathModel, both: bool) -> bool {
    launch_scripts_at(fs, d) && (!both || payload_at(fs, d))
}

/// The directories tried for one candidate, in order.
pub open spec fn probe_dirs(c: PathModel) -> Seq<PathModel> {
    seq![c, joined(c, "iaarabes"@), joined(c, "resources"@)]
}

/// The first directory tried for candidate `c` that qualifies.
pub open spec fn pick_in(fs: FsModel, c: PathModel, both: bool) -> Option<PathModel> {
    if qualifies(fs, c, both) {
        Some(c)
    } else if qualifies(fs, joined(c, "iaarabes"@), both) {
        Some(joined(c, "iaarabes"@))
    } else if qualifies(fs, joined(c, "resources"@), both) {
        Some(joined(c, "resources"@))
    } else {
        None
    }
}

/// The first qualifying directory over the candidates in order.
pub open spec fn first_root(fs: FsModel, cands: Seq<PathModel>, both: bool) -> Option<PathModel>
    decreases cands.len(),
{
    if cands.len() == 0 {
        None
    } else if pick_in(fs, cands[0], both) is Some {
        pick_in(fs, cands[0], both)
    } else {
        first_root(fs, cands.drop_first(), both)
    }
}

/// `o` and at most `n - 1` of its successive parents.
pub open spec fn ancestors(o: Option<PathModel>, n: nat) -> Seq<PathModel>
    decreases n,
{
    match o {
        None => Seq::empty(),
        Some(p) => if n == 0 {
            Seq::empty()
        } else {
            seq![p] + ancestors(parent_of(p), (n - 1) as nat)
        },
    }
}

pub open spec fn parent_opt(o: Option<PathModel>) -> Option<PathModel> {
    match o {
        Some(p) => parent_of(p),
        None => None,
    }
}

/// The resources directory of an application bundle whose executable is `exe`
/// (`<bundle>/Contents/MacOS/<exe>` next to `<bundle>/Contents/Resources`).
pub open spec fn bundle_resources(platform: Platform, exe: Option<PathModel>) -> Seq<PathModel> {
    match parent_opt(parent_opt(exe)) {
        Some(contents) => if platform == Platform::MacOs {
            seq![joined(contents, "Resources"@)]
        } else {
            Seq::empty()
        },
        None => Seq::empty(),
    }
}

pub open spec fn hint_candidates(hint: Option<PathModel>) -> Seq<PathModel> {
    match hint {
        Some(h) => seq![h],
        None => Seq::empty(),
    }
}

/// The candidate directories in priority order: the packaged-resource hint,
/// the executable's directory and up to sixteen of its parents, the
/// bundle's resources directory, the working directory and up to sixteen of
/// its parents.
pub open spec fn candidate_list(
    platform: Platform,
    hint: Option<PathModel>,
    exe: Option<PathModel>,
    cwd: Option<PathModel>,
) -> Seq<PathModel> {
    hint_candidates(hint) + ancestors(parent_opt(exe), CHAIN_LEN as nat)
        + bundle_resources(platform, exe) + ancestors(cwd, CHAIN_LEN as nat)
}

/// The current directory, written as a relative path.
pub open spec fn dot_path() -> PathModel {
    PathModel { root: Seq::empty(), parts: seq!["."@] }
}

/// Where resolution ends when no candidate qualifies.
pub open spec fn fallback_root(hint: Option<PathModel>, cwd: Option<PathModel>) -> PathModel {
    match hint {
        Some(h) => h,
        None => match cwd {
            Some(c) => c,
            None => dot_path(),
        },
    }
}

/// The runtime root: the first candidate with scripts and payload, else the
/// first with scripts, else the fallback.
pub open spec fn resolved_root(
    platform: Platform,
    fs: FsModel,
    hint: Option<PathModel>,
    exe: Option<PathModel>,
    cwd: Option<PathModel>,
) -> PathModel {
    let cands = candidate_list(platform, hint, exe, cwd);
    match first_root(fs, cands, true) {
        Some(r) => r,
        None => match first_root(fs, cands, false) {
            Some(r) => r,
            None => fallback_root(hint, cwd),
        },
    }
}

/// Finds the script `basename` under `ia_root`: directly, under `resources`,
/// or under `scripts`.
pub fn resolve_script(fs: &FsSnapshot, ia_root: &DirPath, basename: &str) -> (r: Option<DirPath>)
    ensures
        opt_view(r) == script_path(fs@, ia_root@, basename@),
{
    let ghost locs = script_locations(ia_root@, basename@);
    assert(locs.drop_first() =~= seq![locs[1], locs[2]]);
    assert(locs.drop_first().drop_first() =~= seq![locs[2]]);
    assert(locs.drop_first().drop_first().drop_first() =~= Seq::<PathModel>::empty());
    let direct = ia_root.join(basename);
    if fs.contains_path(&direct) {
        return Some(direct);
    }
    assert(first_present(fs@, locs) == first_present(fs@, locs.drop_first()));
    let in_resources = ia_root.join("resources").join(basename);
    assert(locs.drop_first()[0] == in_resources@);
    if fs.contains_path(&in_resources) {
        return Some(in_resources);
    }
    assert(first_present(fs@, locs.drop_first()) == first_present(
        fs@,
        locs.drop_first().drop_first(),
    ));
    let in_scripts = ia_root.join("scripts").join(basename);
    assert(locs.drop_first().drop_first()[0] == in_scripts@);
    assert(first_present(fs@, locs.drop_first().drop_first().drop_first()) is None);
    if fs.contains_path(&in_scripts) {
        Some(in_scripts)
    } else {
        None
    }
}

/// Whether a launch script of either platform lies under `base`.
pub fn has_scripts(fs: &FsSnapshot, base: &DirPath) -> (r: bool)
    ensures
        r == launch_scripts_at(fs@, base@),
{
    resolve_script(fs, base, "runlivuals.bat").is_some()
        || resolve_script(fs, base, "runlivuals_macos.sh").is_some()
}

/// Whether the payload directory lies under `base`.
pub fn has_livuals(fs: &FsSnapshot, base: &DirPath) -> (r: bool)
    ensures
        r == payload_at(fs@, base@),
{
    fs.is_dir(&base.join("livuals"))
}

fn qualifies_exec(fs: &FsSnapshot, d: &DirPath, both: bool) -> (r: bool)
    ensures
        r == qualifies(fs@, d@, both),
{
    has_scripts(fs, d) && (!both || has_livuals(fs, d))
}

fn pick_in_exec(fs: &FsSnapshot, c: &DirPath, both: bool) -> (r: Option<DirPath>)
    ensures
        opt_view(r) == pick_in(fs@, c@, both),
{
    if qualifies_exec(fs, c, both) {
        return Some(c.duplicate());
    }
    let nested = c.join("iaarabes");
    if qualifies_exec(fs, &nested, both) {
        return Some(nested);
    }
    let nested2 = c.join("resources");
    if qualifies_exec(fs, &nested2, both) {
        Some(nested2)
    } else {
        None
    }
}

fn first_root_exec(fs: &FsSnapshot, cands: &Vec<DirPath>, both: bool) -> (r: Option<DirPath>)
    ensures
        opt_view(r) == first_root(fs@, path_views(cands@), both),
{
    let ghost all = path_views(cands@);
    assert(all.subrange(0, all.len() as int) =~= all);
    let mut i: usize = 0;
    while i < cands.len()
        invariant
            i <= cands@.len(),
            all == path_views(cands@),
            first_root(fs@, all, both) == first_root(
                fs@,
                all.subrange(i as int, all.len() as int),
                both,
            ),
        decreases cands@.len() - i,
    {
        let ghost rest = all.subrange(i as int, all.len() as int);
        assert(rest[0] == cands@[i as int]@);
        assert(rest.drop_first() =~= all.subrange(i + 1, all.len() as int));
        let found = pick_in_exec(fs, &cands[i], both);
        if found.is_some() {
            return found;
        }
        i = i + 1;
    }
    assert(all.subrange(i as int, all.len() as int).len() == 0);
    None
}

fn push_ancestors(out: &mut Vec<DirPath>, start: Option<DirPath>)
    ensures
        path_views(final(out)@) == path_views(old(out)@) + ancestors(
            opt_view(start),
            CHAIN_LEN as nat,
        ),
{
    let mut cur = start;
    let mut i: usize = 0;
    while i < CHAIN_LEN && cur.is_some()
        invariant
            i <= CHAIN_LEN,
            path_views(out@) + ancestors(opt_view(cur), (CHAIN_LEN - i) as nat)
                == path_views(old(out)@) + ancestors(opt_view(start), CHAIN_LEN as nat),
        decreases CHAIN_LEN - i,
    {
        let p = cur.unwrap();
        let ghost before = path_views(out@);
        let next = p.parent();
        assert(ancestors(opt_view(Some(p)), (CHAIN_LEN - i) as nat) == seq![p@]
            + ancestors(opt_view(next), (CHAIN_LEN - i - 1) as nat));
        out.push(p);
        assert(path_views(out@) =~= before.push(p@));
        assert(before + (seq![p@] + ancestors(opt_view(next), (CHAIN_LEN - i - 1) as nat))
            =~= before.push(p@) + ancestors(opt_view(next), (CHAIN_LEN - i - 1) as nat));
        cur = next;
        i = i + 1;
    }
    assert(ancestors(opt_view(cur), (CHAIN_LEN - i) as nat).len() == 0);
    assert(path_views(out@) + ancestors(opt_view(cur), (CHAIN_LEN - i) as nat)
        =~= path_views(out@));
}

fn parent_of_opt(o: &Option<DirPath>) -> (r: Option<DirPath>)
    ensures
        opt_view(r) == parent_opt(opt_view(*o)),
{
    match o {
        Some(p) => p.parent(),
        None => None,
    }
}

/// The candidate directories in priority order.
pub fn candidate_dirs(
    platform: Platform,
    hint: &Option<DirPath>,
    exe: &Option<DirPath>,
    cwd: &Option<DirPath>,
) -> (r: Vec<DirPath>)
    ensures
        path_views(r@) == candidate_list(platform, opt_view(*hint), opt_view(*exe), opt_view(*cwd)),
{
    let mut out: Vec<DirPath> = Vec::new();
    match hint {
        Some(h) => {
            out.push(h.duplicate());
        },
        None => {},
    }
    assert(path_views(out@) =~= hint_candidates(opt_view(*hint)));
    let exe_dir = parent_of_opt(exe);
    let contents = parent_of_opt(&exe_dir);
    push_ancestors(&mut out, exe_dir);
    let ghost after_exe = path_views(out@);
    match contents {
        Some(c) => {
            if platform == Platform::MacOs {
                out.push(c.join("Resources"));
            }
        },
        None => {},
    }
    assert(path_views(out@) =~= after_exe + bundle_resources(platform, opt_view(*exe)));
    let cwd_copy = match cwd {
        Some(c) => Some(c.duplicate()),
        None => None,
    };
    push_ancestors(&mut out, cwd_copy);
    out
}

fn fallback_exec(hint: &Option<DirPath>, cwd: &Option<DirPath>) -> (r: DirPath)
    ensures
        r@ == fallback_root(opt_view(*hint), opt_view(*cwd)),
{
    match hint {
        Some(h) => h.duplicate(),
        None => match cwd {
            Some(c) => c.duplicate(),
            None => {
                let mut parts: Vec<String> = Vec::new();
                parts.push(".".to_owned());
                let r = DirPath::new(String::new(), parts);
                assert(r@.parts =~= seq!["."@]);
                assert(r@.root =~= Seq::<char>::empty());
                r
            },
        },
    }
}

/// Resolves the runtime root from the packaged-resource hint, the path of the
/// running executable and the working directory (each absent when unknown),
/// given what exists on disk. Resolution never fails.
pub fn find_ia_root_with(
    platform: Platform,
    fs: &FsSnapshot,
    hint: &Option<DirPath>,
    exe: &Option<DirPath>,
    cwd: &Option<DirPath>,
) -> (r: DirPath)
    ensures
        r@ == resolved_root(platform, fs@, opt_view(*hint), opt_view(*exe), opt_view(*cwd)),
{
    let cands = candidate_dirs(platform, hint, exe, cwd);
    match first_root_exec(fs, &cands, true) {
        Some(r) => r,
        None => match first_root_exec(fs, &cands, false) {
            Some(r) => r,
            None => fallback_exec(hint, cwd),
        },
    }
}

/// The paths whose presence decides whether `d` has the launch scripts and
/// the payload.
pub open spec fn dir_queries(d: PathModel) -> Seq<PathModel> {
    seq![joined(d, "livuals"@)] + script_locations(d, "runlivuals.bat"@) + script_locations(
        d,
        "runlivuals_macos.sh"@,
    )
}

/// The paths read for one candidate: those of the directories tried for it.
pub open spec fn candidate_queries(c: PathModel) -> Seq<PathModel> {
    dir_queries(c) + dir_queries(joined(c, "iaarabes"@)) + dir_queries(joined(c, "resources"@))
}

/// The paths read for all candidates, in order.
pub open spec fn all_queries(cands: Seq<PathModel>) -> Seq<PathModel>
    decreases cands.len(),
{
    if cands.len() == 0 {
        Seq::empty()
    } else {
        all_queries(cands.drop_last()) + candidate_queries(cands.last())
    }
}

fn push_script_locations(out: &mut Vec<DirPath>, d: &DirPath, name: &str)
    ensures
        path_views(final(out)@) == path_views(old(out)@) + script_locations(d@, name@),
{
    let ghost before = path_views(out@);
    out.push(d.join(name));
    out.push(d.join("resources").join(name));
    out.push(d.join("scripts").join(name));
    assert(path_views(out@) =~= before + script_locations(d@, name@));
}

fn push_dir_queries(out: &mut Vec<DirPath>, d: &DirPath)
    ensures
        path_views(final(out)@) == path_views(old(out)@) + dir_queries(d@),
{
    let ghost before = path_views(out@);
    out.push(d.join("livuals"));
    assert(path_views(out@) =~= before + seq![joined(d@, "livuals"@)]);
    push_script_locations(out, d, "runlivuals.bat");
    push_script_locations(out, d, "runlivuals_macos.sh");
    assert(path_views(out@) =~= before + dir_queries(d@));
}

/// Every path whose presence the resolver reads, for the candidates that
/// `candidate_dirs` lists; what exists among them is what resolution needs.
pub fn resolver_queries(cands: &Vec<DirPath>) -> (r: Vec<DirPath>)
    ensures
        path_views(r@) == all_queries(path_views(cands@)),
{
    let mut out: Vec<DirPath> = Vec::new();
    let mut i: usize = 0;
    while i < cands.len()
        invariant
            i <= cands@.len(),
            path_views(out@) == all_queries(path_views(cands@).subrange(0, i as int)),
        decreases cands@.len() - i,
    {
        let ghost before = path_views(out@);
        let ghost next = path_views(cands@).subrange(0, i + 1);
        assert(next.drop_last() =~= path_views(cands@).subrange(0, i as int));
        let c = &cands[i];
        push_dir_queries(&mut out, c);
        push_dir_queries(&mut out, &c.join("iaarabes"));
        push_dir_queries(&mut out, &c.join("resources"));
        assert(path_views(out@) =~= before + candidate_queries(c@));
        i = i + 1;
    }
    assert(path_views(cands@).subrange(0, i as int) =~= path_views(cands@));
    out
}

proof fn lemma_pick_in_qualifies(fs: FsModel, c: PathModel, both: bool)
    ensures
        pick_in(fs, c, both) is Some <==> exists|j: int|
            0 <= j < 3 && qualifies(fs, #[trigger] probe_dirs(c)[j], both),
        pick_in(fs, c, both) is Some ==> qualifies(fs, pick_in(fs, c, both).unwrap(), both)
            && probe_dirs(c).contains(pick_in(fs, c, both).unwrap()),
{
    let d = probe_dirs(c);
    if qualifies(fs, c, both) {
        assert(d[0] == c);
    } else if qualifies(fs, joined(c, "iaarabes"@), both) {
        assert(d[1] == joined(c, "iaarabes"@));
    } else if qualifies(fs, joined(c, "resources"@), both) {
        assert(d[2] == joined(c, "resources"@));
    } else {
        assert forall|j: int| 0 <= j < 3 implies !qualifies(fs, #[trigger] d[j], both) by {
            if j == 0 {
            } else if j == 1 {
            } else {
            }
        }
    }
}

proof fn lemma_first_root_least(fs: FsModel, cands: Seq<PathModel>, both: bool, i: int)
    requires
        0 <= i < cands.len(),
        pick_in(fs, cands[i], both) is Some,
    ensures
        exists|k: int|
            0 <= k <= i && #[trigger] pick_in(fs, cands[k], both) is Some && (forall|m: int|
                0 <= m < k ==> pick_in(fs, #[trigger] cands[m], both) is None) && first_root(
                fs,
                cands,
                both,
            ) == pick_in(fs, cands[k], both),
    decreases cands.len(),
{
    if pick_in(fs, cands[0], both) is Some {
        assert(pick_in(fs, cands[0], both) is Some);
    } else {
        let rest = cands.drop_first();
        assert(rest[i - 1] == cands[i]);
        lemma_first_root_least(fs, rest, both, i - 1);
        let k0 = choose|k: int|
            0 <= k <= i - 1 && #[trigger] pick_in(fs, rest[k], both) is Some && (forall|m: int|
                0 <= m < k ==> pick_in(fs, #[trigger] rest[m], both) is None) && first_root(
                fs,
                rest,
                both,
            ) == pick_in(fs, rest[k], both);
        assert(rest[k0] == cands[k0 + 1]);
        assert forall|m: int| 0 <= m < k0 + 1 implies pick_in(
            fs,
            #[trigger] cands[m],
            both,
        ) is None by {
            if m > 0 {
                assert(cands[m] == rest[m - 1]);
            }
        }
    }
}

/// When some directory tried for some candidate has both the launch scripts
/// and the payload, the resolved root has both as well and is one of the
/// directories tried for a candidate at that position or earlier: it is not
/// a fallback.
pub proof fn lemma_qualifying_candidate_is_resolved(
    platform: Platform,
    fs: FsModel,
    hint: Option<PathModel>,
    exe: Option<PathModel>,
    cwd: Option<PathModel>,
    i: int,
    j: int,
)
    requires
        0 <= i < candidate_list(platform, hint, exe, cwd).len(),
        0 <= j < 3,
        qualifies(fs, probe_dirs(candidate_list(platform, hint, exe, cwd)[i])[j], true),
    ensures
        qualifies(fs, resolved_root(platform, fs, hint, exe, cwd), true),
        exists|k: int|
            0 <= k <= i && probe_dirs(#[trigger] candidate_list(platform, hint, exe, cwd)[k]).contains(
                resolved_root(platform, fs, hint, exe, cwd),
            ),
{
    let cands = candidate_list(platform, hint, exe, cwd);
    lemma_pick_in_qualifies(fs, cands[i], true);
    lemma_first_root_least(fs, cands, true, i);
    let k = choose|k: int|
        0 <= k <= i && #[trigger] pick_in(fs, cands[k], true) is Some && (forall|m: int|
            0 <= m < k ==> pick_in(fs, #[trigger] cands[m], true) is None) && first_root(
            fs,
            cands,
            true,
        ) == pick_in(fs, cands[k], true);
    lemma_pick_in_qualifies(fs, cands[k], true);
}

/// Of two candidates that qualify with scripts and payload, the one earlier
/// in priority order (hint, executable ancestors, bundle resources, working
/// directory ancestors) decides: the resolved root is the first qualifying
/// directory of the first qualifying candidate, which lies no later than the
/// earlier of the two.
pub proof fn lemma_earlier_candidate_wins(
    platform: Platform,
    fs: FsModel,
    hint: Option<PathModel>,
    exe: Option<PathModel>,
    cwd: Option<PathModel>,
    i: int,
    i2: int,
)
    requires
        0 <= i < i2 < candidate_list(platform, hint, exe, cwd).len(),
        pick_in(fs, candidate_list(platform, hint, exe, cwd)[i], true) is Some,
        pick_in(fs, candidate_list(platform, hint, exe, cwd)[i2], true) is Some,
    ensures
        exists|k: int|
            0 <= k <= i && (forall|m: int|
                0 <= m < k ==> pick_in(
                    fs,
                    #[trigger] candidate_list(platform, hint, exe, cwd)[m],
                    true,
                ) is None) && Some(resolved_root(platform, fs, hint, exe, cwd)) == pick_in(
                fs,
                candidate_list(platform, hint, exe, cwd)[k],
                true,
            ),
{
    let cands = candidate_list(platform, hint, exe, cwd);
    lemma_first_root_least(fs, cands, true, i);
}

/// Resolution is a function of the platform, the filesystem, the hint, the
/// executable path and the working directory: resolving twice with all of
/// them unchanged gives the same root.
pub proof fn lemma_resolution_repeatable(
    platform: Platform,
    fs: FsModel,
    hint: Option<PathModel>,
    exe: Option<PathModel>,
    cwd: Option<PathModel>,
    first: PathModel,
    second: PathModel,
)
    requires
        first == resolved_root(platform, fs, hint, exe, cwd),
        second == resolved_root(platform, fs, hint, exe, cwd),
    ensures
        first == second,
{
}

} // verus!
