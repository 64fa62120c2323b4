//! Classification of the folders beside the launcher: which look like Z3R
//! projects, how ready each one is, and in what order they are listed.

use vstd::prelude::*;
use crate::actions::{args1, args2, args3};
use crate::models::{opt_view, AppScan, PathProbe, ProjectCandidate, ProjectCandidateView};
use crate::text::owned;

verus! {

// ---------------------------------------------------------------- finding files

/// The path of the first probe that is an existing file.
pub open spec fn spec_first_existing(probes: Seq<PathProbe>) -> Option<Seq<char>>
    decreases probes.len(),
{
    if probes.len() == 0 {
        None
    } else if probes[0].is_file {
        Some(probes[0].path@)
    } else {
        spec_first_existing(probes.drop_first())
    }
}

/// The first existing file wins: when probe `i` is a file and no earlier
/// probe is, the search yields probe `i`'s path; when no probe is a file it
/// yields nothing.
pub proof fn law_first_existing(probes: Seq<PathProbe>, i: int)
    requires
        0 <= i <= probes.len(),
        forall|j: int| 0 <= j < i ==> !(#[trigger] probes[j]).is_file,
        i == probes.len() || probes[i].is_file,
    ensures
        i < probes.len() ==> spec_first_existing(probes) == Some(probes[i].path@),
        i == probes.len() ==> spec_first_existing(probes) == None::<Seq<char>>,
{
    lemma_first_existing_at(probes, i);
    if i == probes.len() {
        assert(probes.skip(i).len() == 0);
    } else {
        assert(probes.skip(i)[0] == probes[i]);
    }
}

proof fn lemma_first_existing_at(probes: Seq<PathProbe>, i: int)
    requires
        0 <= i <= probes.len(),
        forall|j: int| 0 <= j < i ==> !(#[trigger] probes[j]).is_file,
    ensures
        spec_first_existing(probes) == spec_first_existing(probes.skip(i)),
    decreases i,
{
    if i > 0 {
        lemma_first_existing_at(probes.drop_first(), i - 1);
        assert(probes.drop_first().skip(i - 1) =~= probes.skip(i));
    } else {
        assert(probes.skip(0) =~= probes);
    }
}

/// The first probed path that is a file, in probe order.
pub fn first_existing(probes: &Vec<PathProbe>) -> (r: Option<String>)
    ensures
        opt_view(r) == spec_first_existing(probes@),
{
    let mut i: usize = 0;
    while i < probes.len()
        invariant
            0 <= i <= probes.len(),
            forall|j: int| 0 <= j < i ==> !(#[trigger] probes@[j]).is_file,
        decreases probes.len() - i,
    {
        if probes[i].is_file {
            proof {
                lemma_first_existing_at(probes@, i as int);
            }
            return Some(probes[i].path.clone());
        }
        i += 1;
    }
    proof {
        lemma_first_existing_at(probes@, i as int);
    }
    None
}

pub const ASSET_FILE: &'static str = "zelda3_assets.dat";

/// Where a project may hold its asset bundle, relative to the project
/// folder, in the order they are tried: the root, `tables/`, then the two
/// Visual Studio deploy folders.
pub open spec fn asset_candidates() -> Seq<Seq<Seq<char>>> {
    seq![
        seq![ASSET_FILE@],
        seq!["tables"@, ASSET_FILE@],
        seq!["bin"@, "x64-ReleaseDeploy"@, ASSET_FILE@],
        seq!["bin"@, "Win32-ReleaseDeploy"@, ASSET_FILE@],
    ]
}

/// The relative paths, as folder segments, probed for the asset bundle.
pub fn asset_candidate_segments() -> (r: Vec<Vec<String>>)
    ensures
        r.deep_view() == asset_candidates(),
{
    let mut r = Vec::new();
    r.push(args1(ASSET_FILE));
    r.push(args2("tables", ASSET_FILE));
    r.push(args3("bin", "x64-ReleaseDeploy", ASSET_FILE));
    r.push(args3("bin", "Win32-ReleaseDeploy", ASSET_FILE));
    assert(r.deep_view() =~= asset_candidates());
    r
}

/// Searches the probed asset locations for the game's asset bundle.
pub fn find_asset(probes: &Vec<PathProbe>) -> (r: Option<String>)
    ensures
        opt_view(r) == spec_first_existing(probes@),
{
    first_existing(probes)
}

/// The executable's file name on this platform.
pub open spec fn executable_name(is_windows: bool) -> Seq<char> {
    if is_windows {
        "zelda3.exe"@
    } else {
        "zelda3"@
    }
}

/// Where a project may hold its executable, relative to the project folder,
/// in the order they are tried: the root, then the Release and
/// ReleaseDeploy output folders of both Visual Studio platforms.
pub open spec fn executable_candidates(is_windows: bool) -> Seq<Seq<Seq<char>>> {
    let n = executable_name(is_windows);
    seq![
        seq![n],
        seq!["bin"@, "x64-Release"@, n],
        seq!["bin"@, "x64-ReleaseDeploy"@, n],
        seq!["bin"@, "Win32-Release"@, n],
        seq!["bin"@, "Win32-ReleaseDeploy"@, n],
    ]
}

/// The relative paths, as folder segments, probed for the executable.
pub fn executable_candidate_segments(is_windows: bool) -> (r: Vec<Vec<String>>)
    ensures
        r.deep_view() == executable_candidates(is_windows),
{
    let name = if is_windows {
        "zelda3.exe"
    } else {
        "zelda3"
    };
    let mut r = Vec::new();
    r.push(args1(name));
    r.push(args3("bin", "x64-Release", name));
    r.push(args3("bin", "x64-ReleaseDeploy", name));
    r.push(args3("bin", "Win32-Release", name));
    r.push(args3("bin", "Win32-ReleaseDeploy", name));
    assert(r.deep_view() =~= executable_candidates(is_windows));
    r
}

/// Searches the probed output locations for the game executable.
pub fn find_executable(probes: &Vec<PathProbe>) -> (r: Option<String>)
    ensures
        opt_view(r) == spec_first_existing(probes@),
{
    first_existing(probes)
}

// ---------------------------------------------------------------- classifying

/// What was found in one folder.
#[derive(Clone, Debug, PartialEq, Eq)]
pub struct CandidateProbe {
    /// The folder's own name.
    pub name: String,
    /// The folder's path as shown to the user.
    pub path: String,
    pub asset_path: Option<String>,
    pub executable_path: Option<String>,
    /// A `Makefile`, `Zelda3.sln` or `run_with_tcc.bat` is present.
    pub has_source: bool,
    /// The asset bundle and the executable are in the same folder.
    pub asset_beside_executable: bool,
}

pub const STATUS_READY: &'static str = "ready";

pub const STATUS_NEEDS_DEPLOY_COPY: &'static str = "needs-deploy-copy";

pub const STATUS_ASSETS_READY: &'static str = "assets-ready";

pub const STATUS_MISSING_ASSETS: &'static str = "missing-assets";

pub const STATUS_SOURCE_ONLY: &'static str = "source-only";

pub const NOTE_NOT_BESIDE: &'static str = "Executable and zelda3_assets.dat are not beside each other; use a deploy build or copy assets beside the executable.";

/// The readiness status of a project.
pub open spec fn spec_status(p: CandidateProbe) -> Seq<char> {
    match (p.asset_path, p.executable_path) {
        (Some(_), Some(_)) => if p.asset_beside_executable {
            STATUS_READY@
        } else {
            STATUS_NEEDS_DEPLOY_COPY@
        },
        (Some(_), None) => STATUS_ASSETS_READY@,
        (None, Some(_)) => STATUS_MISSING_ASSETS@,
        (None, None) => STATUS_SOURCE_ONLY@,
    }
}

/// The notes shown with a project.
pub open spec fn spec_notes(p: CandidateProbe) -> Seq<Seq<char>> {
    if p.asset_path is Some && p.executable_path is Some && !p.asset_beside_executable {
        seq![NOTE_NOT_BESIDE@]
    } else {
        Seq::empty()
    }
}

/// A folder counts as a project when it holds source, assets or an executable.
pub open spec fn spec_is_project(p: CandidateProbe) -> bool {
    p.asset_path is Some || p.executable_path is Some || p.has_source
}

/// The readiness status: `ready` when the assets sit beside the executable,
/// `needs-deploy-copy` when both exist apart, `assets-ready` with assets
/// only, `missing-assets` with an executable only, and `source-only` with
/// neither. Source files never change the status; they only decide whether
/// a folder with neither assets nor executable is a project at all. Only a
/// `needs-deploy-copy` project carries a note.
pub proof fn law_status(p: CandidateProbe)
    ensures
        p.asset_path is Some && p.executable_path is Some && p.asset_beside_executable ==> spec_status(p)
            == "ready"@,
        p.asset_path is Some && p.executable_path is Some && !p.asset_beside_executable ==> spec_status(
            p,
        ) == "needs-deploy-copy"@,
        p.asset_path is Some && p.executable_path is None ==> spec_status(p) == "assets-ready"@,
        p.asset_path is None && p.executable_path is Some ==> spec_status(p) == "missing-assets"@,
        p.asset_path is None && p.executable_path is None ==> spec_status(p) == "source-only"@,
        spec_notes(p).len() > 0 <==> spec_status(p) == "needs-deploy-copy"@,
        spec_is_project(p) <==> (p.asset_path is Some || p.executable_path is Some || p.has_source),
{
    reveal_strlit("ready");
    reveal_strlit("needs-deploy-copy");
    reveal_strlit("assets-ready");
    reveal_strlit("missing-assets");
    reveal_strlit("source-only");
    assert("needs-deploy-copy"@.len() == 17);
    assert("ready"@.len() == 5);
    assert("assets-ready"@.len() == 12);
    assert("missing-assets"@.len() == 14);
    assert("source-only"@.len() == 11);
}

/// Two probes that differ only in whether source files are present get
/// the same status and notes.
pub proof fn law_status_ignores_source(p: CandidateProbe, q: CandidateProbe)
    requires
        q.asset_path == p.asset_path,
        q.executable_path == p.executable_path,
        q.asset_beside_executable == p.asset_beside_executable,
    ensures
        spec_status(p) == spec_status(q),
        spec_notes(p) == spec_notes(q),
{
    law_status(p);
    law_status(q);
}

/// Builds a candidate summary for a folder that holds source, assets or an
/// executable; `owner` is set for folders found in the nested
/// `{owner}/{repo}` layout.
pub fn inspect_candidate(probe: CandidateProbe, owner: Option<String>) -> (r: Option<ProjectCandidate>)
    ensures
        !spec_is_project(probe) ==> r is None,
        spec_is_project(probe) ==> (r matches Some(c) && c@ == (ProjectCandidateView {
            name: probe.name@,
            owner: opt_view(owner),
            path: probe.path@,
            asset_path: opt_view(probe.asset_path),
            executable_path: opt_view(probe.executable_path),
            status: spec_status(probe),
            notes: spec_notes(probe),
        })),
{
    let ghost p = probe;
    let CandidateProbe {
        name,
        path,
        asset_path,
        executable_path,
        has_source,
        asset_beside_executable,
    } = probe;
    if asset_path.is_none() && executable_path.is_none() && !has_source {
        return None;
    }
    let mut notes: Vec<String> = Vec::new();
    let status = match (&asset_path, &executable_path) {
        (Some(_), Some(_)) => {
            if asset_beside_executable {
                owned(STATUS_READY)
            } else {
                notes.push(owned(NOTE_NOT_BESIDE));
                owned(STATUS_NEEDS_DEPLOY_COPY)
            }
        },
        (Some(_), None) => owned(STATUS_ASSETS_READY),
        (None, Some(_)) => owned(STATUS_MISSING_ASSETS),
        (None, None) => owned(STATUS_SOURCE_ONLY),
    };
    assert(notes.deep_view() =~= spec_notes(p));
    Some(ProjectCandidate { name, owner, path, asset_path, executable_path, status, notes })
}

/// The owner recorded for projects inside a folder with this name: folders
/// whose name is unknown or starts with `.` are never owners.
pub open spec fn spec_owner_folder_name(name: Option<Seq<char>>) -> Option<Seq<char>> {
    match name {
        Some(n) => if n.len() > 0 && n[0] == '.' {
            None
        } else {
            Some(n)
        },
        None => None,
    }
}

/// A folder name becomes the owner unchanged unless it starts with `.`;
/// an unknown name never does.
pub proof fn law_owner_folder_name(name: Option<Seq<char>>)
    ensures
        name is None ==> spec_owner_folder_name(name) is None,
        name matches Some(n) ==> (n.len() > 0 && n[0] == '.' <==> spec_owner_folder_name(name) is None),
        name matches Some(n) ==> (spec_owner_folder_name(name) is Some ==> spec_owner_folder_name(
            name,
        ) == Some(n)),
{
}

/// Accepts a folder as a potential owner folder unless it is a dot-folder
/// such as `.git` or `.cache`.
pub fn owner_folder_name(name: Option<String>) -> (r: Option<String>)
    ensures
        opt_view(r) == spec_owner_folder_name(opt_view(name)),
{
    match name {
        Some(n) => {
            let starts_with_dot = n.as_str().unicode_len() > 0 && n.as_str().get_char(0) == '.';
            if starts_with_dot {
                None
            } else {
                Some(n)
            }
        },
        None => None,
    }
}

// ---------------------------------------------------------------- ordering

/// `a` is below `b` in the order of `str::cmp` (by character code, a proper
/// prefix first), with `i` the first position where they differ.
pub open spec fn lex_lt_at(a: Seq<char>, b: Seq<char>, i: int) -> bool {
    &&& 0 <= i <= a.len()
    &&& i <= b.len()
    &&& forall|j: int| 0 <= j < i ==> #[trigger] a[j] == b[j]
    &&& ((i == a.len() && i < b.len()) || (i < a.len() && i < b.len() && (a[i] as u32) < (
    b[i] as u32)))
}

/// `a < b` for strings: lexicographic by character code.
pub open spec fn lex_lt(a: Seq<char>, b: Seq<char>) -> bool {
    exists|i: int| lex_lt_at(a, b, i)
}

pub proof fn lemma_lex_lt_irreflexive(a: Seq<char>)
    ensures
        !lex_lt(a, a),
{
}

pub proof fn lemma_lex_lt_transitive(a: Seq<char>, b: Seq<char>, c: Seq<char>)
    requires
        lex_lt(a, b),
        lex_lt(b, c),
    ensures
        lex_lt(a, c),
{
    let i = choose|i: int| lex_lt_at(a, b, i);
    let j = choose|j: int| lex_lt_at(b, c, j);
    if i < j {
        assert(b[i] == c[i]);
        assert(lex_lt_at(a, c, i));
    } else if j < i {
        assert(a[j] == b[j]);
        assert(lex_lt_at(a, c, j));
    } else {
        assert(lex_lt_at(a, c, i));
    }
}

/// The name order is a strict total order that puts a proper prefix first
/// and otherwise goes by the code of the first differing character.
pub proof fn law_lex_order(a: Seq<char>, b: Seq<char>, i: int)
    ensures
        !lex_lt(a, a),
        lex_lt(a, b) ==> !lex_lt(b, a),
        a != b ==> lex_lt(a, b) || lex_lt(b, a),
        b.len() > a.len() && b.take(a.len() as int) == a ==> lex_lt(a, b),
        0 <= i < a.len() && i < b.len() && a.take(i) == b.take(i) ==> (lex_lt(a, b) <==> (a[i] as u32)
            < (b[i] as u32) || (a[i] == b[i] && lex_lt(a.skip(i + 1), b.skip(i + 1)))),
{
    if lex_lt(a, b) && lex_lt(b, a) {
        lemma_lex_lt_transitive(a, b, a);
    }
    if a != b {
        lemma_lex_total(a, b);
    }
    if b.len() > a.len() && b.take(a.len() as int) == a {
        assert forall|j: int| 0 <= j < a.len() implies #[trigger] a[j] == b[j] by {
            assert(b.take(a.len() as int)[j] == b[j]);
        }
        assert(lex_lt_at(a, b, a.len() as int));
    }
    if 0 <= i < a.len() && i < b.len() && a.take(i) == b.take(i) {
        assert forall|j: int| 0 <= j < i implies #[trigger] a[j] == b[j] by {
            assert(a.take(i)[j] == b.take(i)[j]);
        }
        let a2 = a.skip(i + 1);
        let b2 = b.skip(i + 1);
        if lex_lt(a, b) {
            let k = choose|k: int| lex_lt_at(a, b, k);
            if (a[i] as u32) >= (b[i] as u32) {
                assert(k > i);
                assert(a[i] == b[i]);
                assert(lex_lt_at(a2, b2, k - i - 1)) by {
                    assert forall|j: int| 0 <= j < k - i - 1 implies #[trigger] a2[j] == b2[j] by {
                        assert(a[j + i + 1] == b[j + i + 1]);
                    }
                }
            }
        }
        if (a[i] as u32) < (b[i] as u32) {
            assert(lex_lt_at(a, b, i));
        } else if a[i] == b[i] && lex_lt(a2, b2) {
            let k = choose|k: int| lex_lt_at(a2, b2, k);
            assert(lex_lt_at(a, b, k + i + 1)) by {
                assert forall|j: int| 0 <= j < k + i + 1 implies #[trigger] a[j] == b[j] by {
                    if j > i {
                        assert(a2[j - i - 1] == b2[j - i - 1]);
                    }
                }
            }
        }
    }
}

proof fn lemma_char_code_injective(c: char, d: char)
    requires
        c != d,
    ensures
        c as u32 != d as u32,
{
}

/// Two different strings are ordered one way or the other.
pub proof fn lemma_lex_total(a: Seq<char>, b: Seq<char>)
    requires
        a != b,
    ensures
        lex_lt(a, b) || lex_lt(b, a),
    decreases a.len(),
{
    if a.len() == 0 {
        assert(b.len() > 0) by {
            if b.len() == 0 {
                assert(a =~= b);
            }
        }
        assert(lex_lt_at(a, b, 0));
    } else if b.len() == 0 {
        assert(lex_lt_at(b, a, 0));
    } else if a[0] != b[0] {
        lemma_char_code_injective(a[0], b[0]);
        if (a[0] as u32) < (b[0] as u32) {
            assert(lex_lt_at(a, b, 0));
        } else {
            assert(lex_lt_at(b, a, 0));
        }
    } else {
        let a2 = a.drop_first();
        let b2 = b.drop_first();
        assert(a2 != b2) by {
            if a2 == b2 {
                assert(a =~= seq![a[0]] + a2);
                assert(b =~= seq![b[0]] + b2);
            }
        }
        lemma_lex_total(a2, b2);
        if lex_lt(a2, b2) {
            let k = choose|k: int| lex_lt_at(a2, b2, k);
            assert(lex_lt_at(a, b, k + 1)) by {
                assert forall|j: int| 0 <= j < k + 1 implies #[trigger] a[j] == b[j] by {
                    if j > 0 {
                        assert(a2[j - 1] == b2[j - 1]);
                    }
                }
            }
        } else {
            let k = choose|k: int| lex_lt_at(b2, a2, k);
            assert(lex_lt_at(b, a, k + 1)) by {
                assert forall|j: int| 0 <= j < k + 1 implies #[trigger] b[j] == a[j] by {
                    if j > 0 {
                        assert(b2[j - 1] == a2[j - 1]);
                    }
                }
            }
        }
    }
}

/// `a < b` for the order that `String`'s `cmp` gives.
pub fn name_less(a: &str, b: &str) -> (r: bool)
    ensures
        r == lex_lt(a@, b@),
{
    let x = crate::text::chars_of(a);
    let y = crate::text::chars_of(b);
    let mut i: usize = 0;
    while i < x.len() && i < y.len() && x[i] == y[i]
        invariant
            x@ == a@,
            y@ == b@,
            i <= x.len(),
            i <= y.len(),
            forall|j: int| 0 <= j < i ==> #[trigger] x@[j] == y@[j],
        decreases x.len() - i,
    {
        i += 1;
    }
    if i == x.len() {
        let r = i < y.len();
        if r {
            assert(lex_lt_at(a@, b@, i as int));
        } else {
            assert forall|k: int| !lex_lt_at(a@, b@, k) by {
                if lex_lt_at(a@, b@, k) && k < i {
                    assert(x@[k] == y@[k]);
                }
            }
        }
        r
    } else if i == y.len() {
        assert forall|k: int| !lex_lt_at(a@, b@, k) by {
            if lex_lt_at(a@, b@, k) && k < i {
                assert(x@[k] == y@[k]);
            }
        }
        false
    } else {
        let r = (x[i] as u32) < (y[i] as u32);
        if r {
            assert(lex_lt_at(a@, b@, i as int));
        } else {
            assert forall|k: int| !lex_lt_at(a@, b@, k) by {
                if lex_lt_at(a@, b@, k) {
                    if k < i {
                        assert(x@[k] == y@[k]);
                    } else if k > i {
                        assert(a@[i as int] == b@[i as int]);
                    }
                }
            }
        }
        r
    }
}

/// The views of a sequence of candidates.
pub open spec fn views(s: Seq<ProjectCandidate>) -> Seq<ProjectCandidateView> {
    s.map_values(|c: ProjectCandidate| c@)
}

/// Candidates in non-decreasing order of name.
pub open spec fn sorted_by_name(s: Seq<ProjectCandidateView>) -> bool {
    forall|i: int, j: int| 0 <= i < j < s.len() ==> !lex_lt(#[trigger] s[j].name, #[trigger] s[i].name)
}

/// The candidates named `k`, in their order.
pub open spec fn named(s: Seq<ProjectCandidateView>, k: Seq<char>) -> Seq<ProjectCandidateView> {
    s.filter(|c: ProjectCandidateView| c.name == k)
}

proof fn lemma_named_single(x: ProjectCandidateView, k: Seq<char>)
    ensures
        named(seq![x], k) == if x.name == k {
            seq![x]
        } else {
            Seq::<ProjectCandidateView>::empty()
        },
{
    reveal_with_fuel(Seq::filter, 2);
    assert(seq![x].drop_last() =~= Seq::<ProjectCandidateView>::empty());
}

proof fn lemma_named_none(s: Seq<ProjectCandidateView>, k: Seq<char>)
    requires
        forall|j: int| 0 <= j < s.len() ==> (#[trigger] s[j]).name != k,
    ensures
        named(s, k) == Seq::<ProjectCandidateView>::empty(),
    decreases s.len(),
{
    reveal(Seq::filter);
    if s.len() > 0 {
        let t = s.drop_last();
        assert forall|j: int| 0 <= j < t.len() implies (#[trigger] t[j]).name != k by {
            assert(t[j] == s[j]);
        }
        lemma_named_none(t, k);
        assert(s.last().name != k);
    }
}

/// Sorts candidates by name, keeping the discovery order of candidates with
/// equal names (as a stable sort does): the result is in non-decreasing
/// order of name and, for every name, lists the candidates of that name
/// exactly as the input does.
pub fn sort_candidates(candidates: Vec<ProjectCandidate>) -> (r: Vec<ProjectCandidate>)
    ensures
        sorted_by_name(views(r@)),
        forall|k: Seq<char>| #[trigger] named(views(r@), k) == named(views(candidates@), k),
{
    broadcast use vstd::seq::Seq::filter_distributes_over_add;

    let ghost input = candidates@;
    let mut rest = candidates;
    let mut r: Vec<ProjectCandidate> = Vec::new();
    let ghost mut i: int = 0;
    assert(input.skip(0) =~= input);
    assert forall|k: Seq<char>| #[trigger] named(views(r@), k) == named(views(input.take(0)), k) by {
        assert(views(r@) =~= views(input.take(0)));
    }
    while rest.len() > 0
        invariant
            0 <= i <= input.len(),
            rest@ == input.skip(i),
            sorted_by_name(views(r@)),
            forall|k: Seq<char>| #[trigger] named(views(r@), k) == named(views(input.take(i)), k),
        decreases rest.len(),
    {
        let x = rest.remove(0);
        assert(x == input[i]);
        let mut p: usize = 0;
        while p < r.len() && !name_less(x.name.as_str(), r[p].name.as_str())
            invariant
                p <= r.len(),
                forall|q: int| 0 <= q < p ==> !lex_lt(x.name@, (#[trigger] r@[q]).name@),
            decreases r.len() - p,
        {
            p += 1;
        }
        let ghost old_r = r@;
        let ghost rv = views(old_r);
        let ghost xv = x@;
        r.insert(p, x);
        proof {
            let nv = views(r@);
            assert(nv =~= rv.take(p as int) + seq![xv] + rv.skip(p as int));
            assert(rv =~= rv.take(p as int) + rv.skip(p as int));
            // nothing from position p on sorts before x or shares its name
            assert forall|q: int| p <= q < rv.len() implies !lex_lt(#[trigger] rv[q].name, xv.name)
                && rv[q].name != xv.name by {
                assert(old_r[p as int]@ == rv[p as int]);
                assert(lex_lt(xv.name, rv[p as int].name));
                if q > p {
                    assert(!lex_lt(rv[q].name, rv[p as int].name));
                    if lex_lt(rv[q].name, xv.name) {
                        lemma_lex_lt_transitive(rv[q].name, xv.name, rv[p as int].name);
                    }
                } else {
                    lemma_lex_lt_irreflexive(xv.name);
                    if lex_lt(rv[q].name, xv.name) {
                        lemma_lex_lt_transitive(xv.name, rv[q].name, xv.name);
                    }
                }
            }
            assert(sorted_by_name(nv)) by {
                assert forall|a: int, b: int| 0 <= a < b < nv.len() implies !lex_lt(
                    #[trigger] nv[b].name,
                    #[trigger] nv[a].name,
                ) by {
                    if a < p && b < p {
                        assert(nv[a] == rv[a] && nv[b] == rv[b]);
                    } else if a < p && b == p {
                        assert(nv[a] == rv[a]);
                        assert(old_r[a]@ == rv[a]);
                    } else if a < p && b > p {
                        assert(nv[a] == rv[a] && nv[b] == rv[b - 1]);
                    } else if a == p {
                        assert(nv[b] == rv[b - 1]);
                    } else {
                        assert(nv[a] == rv[a - 1] && nv[b] == rv[b - 1]);
                    }
                }
            }
            let tv = views(input.take(i + 1));
            assert(tv =~= views(input.take(i)) + seq![xv]);
            assert forall|k: Seq<char>| #[trigger] named(nv, k) == named(tv, k) by {
                lemma_named_single(xv, k);
                assert(named(nv, k) == named(rv.take(p as int), k) + named(seq![xv], k) + named(
                    rv.skip(p as int),
                    k,
                ));
                assert(named(rv, k) == named(rv.take(p as int), k) + named(rv.skip(p as int), k));
                assert(named(tv, k) == named(views(input.take(i)), k) + named(seq![xv], k));
                if xv.name == k {
                    let sk = rv.skip(p as int);
                    assert forall|j: int| 0 <= j < sk.len() implies (#[trigger] sk[j]).name != k by {
                        assert(sk[j] == rv[j + p]);
                    }
                    lemma_named_none(sk, k);
                    assert(named(nv, k) =~= named(rv.take(p as int), k) + seq![xv]);
                    assert(named(rv, k) =~= named(rv.take(p as int), k));
                } else {
                    assert(named(nv, k) =~= named(rv, k));
                }
            }
            i = i + 1;
            assert(rest@ =~= input.skip(i));
        }
    }
    assert(input.take(i) =~= input);
    r
}

/// The outcome of a scan: the scanned folder and its candidates, sorted by name.
pub fn app_scan(launcher_parent: String, candidates: Vec<ProjectCandidate>) -> (s: AppScan)
    ensures
        s.launcher_parent@ == launcher_parent@,
        sorted_by_name(views(s.candidates@)),
        forall|k: Seq<char>| #[trigger] named(views(s.candidates@), k) == named(views(candidates@), k),
{
    AppScan { launcher_parent, candidates: sort_candidates(candidates) }
}

} // verus!
