//! How commands are started: Flatpak host spawning on Linux, and the
//! search path that Finder-launched macOS apps need to find build tools.

use vstd::prelude::*;
use crate::actions::{args2, args3, args4};
use crate::discovery::{first_existing, spec_first_existing};
use crate::models::PathProbe;
use crate::text::owned;

verus! {

/// Commands run on the host toolchain when the launcher runs as a Flatpak:
/// only on Linux, and only when `/.flatpak-info` is a file.
pub fn is_flatpak_runtime(is_linux: bool, flatpak_info_is_file: bool) -> (b: bool)
    ensures
        b == (is_linux && flatpak_info_is_file),
{
    is_linux && flatpak_info_is_file
}

/// A directory of the command search path, with the components of its path
/// (as `Path::components` gives them); two entries name the same directory
/// exactly when their components are equal.
#[derive(Clone, Debug, PartialEq, Eq)]
pub struct SearchPath {
    pub text: String,
    pub components: Vec<String>,
}

pub struct SearchPathView {
    pub text: Seq<char>,
    pub components: Seq<Seq<char>>,
}

impl View for SearchPath {
    type V = SearchPathView;

    open spec fn view(&self) -> SearchPathView {
        SearchPathView { text: self.text@, components: self.components.deep_view() }
    }
}

/// The views of a sequence of search path entries.
pub open spec fn path_views(s: Seq<SearchPath>) -> Seq<SearchPathView> {
    s.map_values(|p: SearchPath| p@)
}

/// Some entry of `paths` names the same directory as `p`.
pub open spec fn has_path(paths: Seq<SearchPathView>, p: SearchPathView) -> bool {
    exists|i: int| 0 <= i < paths.len() && (#[trigger] paths[i]).components == p.components
}

/// `p` appended to `paths` unless it already names one of them.
pub open spec fn spec_push_unique(paths: Seq<SearchPathView>, p: SearchPathView) -> Seq<SearchPathView> {
    if has_path(paths, p) {
        paths
    } else {
        paths.push(p)
    }
}

/// The entries of `s` in order, each directory kept at its first occurrence.
pub open spec fn spec_dedup(s: Seq<SearchPathView>) -> Seq<SearchPathView>
    decreases s.len(),
{
    if s.len() == 0 {
        Seq::empty()
    } else {
        spec_push_unique(spec_dedup(s.drop_last()), s.last())
    }
}

fn same_components(a: &Vec<String>, b: &Vec<String>) -> (r: bool)
    ensures
        r == (a.deep_view() == b.deep_view()),
{
    if a.len() != b.len() {
        assert(a.deep_view().len() != b.deep_view().len());
        return false;
    }
    let mut i: usize = 0;
    while i < a.len()
        invariant
            a.len() == b.len(),
            0 <= i <= a.len(),
            forall|j: int| 0 <= j < i ==> (#[trigger] a@[j])@ == b@[j]@,
        decreases a.len() - i,
    {
        if a[i] != b[i] {
            assert(a.deep_view()[i as int] != b.deep_view()[i as int]);
            return false;
        }
        i += 1;
    }
    assert(a.deep_view() =~= b.deep_view());
    true
}

/// Adds a directory to the search path unless it is already there, so that
/// the resulting `PATH` lists each directory once.
pub fn push_unique_path(paths: &mut Vec<SearchPath>, path: SearchPath)
    ensures
        path_views(final(paths)@) == spec_push_unique(path_views(old(paths)@), path@),
{
    let ghost pv = path_views(paths@);
    let mut i: usize = 0;
    while i < paths.len()
        invariant
            0 <= i <= paths.len(),
            pv == path_views(paths@),
            forall|j: int| 0 <= j < i ==> (#[trigger] pv[j]).components != path@.components,
        decreases paths.len() - i,
    {
        if same_components(&paths[i].components, &path.components) {
            assert(pv[i as int].components == path@.components);
            assert(has_path(pv, path@));
            return;
        }
        i += 1;
    }
    assert(!has_path(pv, path@));
    paths.push(path);
    assert(path_views(paths@) =~= pv.push(path@));
}

/// The package-manager directories searched first on macOS, in order.
pub open spec fn fixed_search_paths() -> Seq<SearchPathView> {
    seq![
        SearchPathView { text: "/opt/homebrew/bin"@, components: seq!["/"@, "opt"@, "homebrew"@, "bin"@] },
        SearchPathView { text: "/opt/homebrew/opt/sdl2/bin"@, components: seq!["/"@, "opt"@, "homebrew"@, "opt"@, "sdl2"@, "bin"@] },
        SearchPathView { text: "/usr/local/bin"@, components: seq!["/"@, "usr"@, "local"@, "bin"@] },
        SearchPathView { text: "/usr/local/opt/sdl2/bin"@, components: seq!["/"@, "usr"@, "local"@, "opt"@, "sdl2"@, "bin"@] },
        SearchPathView { text: "/opt/local/bin"@, components: seq!["/"@, "opt"@, "local"@, "bin"@] },
        SearchPathView { text: "/usr/bin"@, components: seq!["/"@, "usr"@, "bin"@] },
        SearchPathView { text: "/bin"@, components: seq!["/"@, "bin"@] },
        SearchPathView { text: "/usr/sbin"@, components: seq!["/"@, "usr"@, "sbin"@] },
        SearchPathView { text: "/sbin"@, components: seq!["/"@, "sbin"@] },
    ]
}

fn search_path(text: &str, components: Vec<String>) -> (p: SearchPath)
    ensures
        p@ == (SearchPathView { text: text@, components: components.deep_view() }),
{
    SearchPath { text: owned(text), components }
}

fn fixed_search_path_entries() -> (v: Vec<SearchPath>)
    ensures
        path_views(v@) == fixed_search_paths(),
{
    let mut v = Vec::new();
    v.push(search_path("/opt/homebrew/bin", args4("/", "opt", "homebrew", "bin")));
    v.push(search_path("/opt/homebrew/opt/sdl2/bin", args6("/", "opt", "homebrew", "opt", "sdl2", "bin")));
    v.push(search_path("/usr/local/bin", args4("/", "usr", "local", "bin")));
    v.push(search_path("/usr/local/opt/sdl2/bin", args6("/", "usr", "local", "opt", "sdl2", "bin")));
    v.push(search_path("/opt/local/bin", args4("/", "opt", "local", "bin")));
    v.push(search_path("/usr/bin", args3("/", "usr", "bin")));
    v.push(search_path("/bin", args2("/", "bin")));
    v.push(search_path("/usr/sbin", args3("/", "usr", "sbin")));
    v.push(search_path("/sbin", args2("/", "sbin")));
    assert(path_views(v@) =~= fixed_search_paths());
    v
}

fn args6(a: &str, b: &str, c: &str, d: &str, e: &str, f: &str) -> (v: Vec<String>)
    ensures
        v.deep_view() == seq![a@, b@, c@, d@, e@, f@],
{
    let mut v = Vec::new();
    v.push(owned(a));
    v.push(owned(b));
    v.push(owned(c));
    v.push(owned(d));
    v.push(owned(e));
    v.push(owned(f));
    assert(v.deep_view() =~= seq![a@, b@, c@, d@, e@, f@]);
    v
}

fn push_all_unique(paths: &mut Vec<SearchPath>, items: Vec<SearchPath>)
    requires
        path_views(old(paths)@) == spec_dedup(path_views(old(paths)@)),
    ensures
        path_views(final(paths)@) == spec_dedup(path_views(old(paths)@) + path_views(items@)),
{
    let ghost base = path_views(paths@);
    let ghost all = path_views(items@);
    let mut rest = items;
    let ghost mut i: int = 0;
    assert(base + all.take(0) =~= base);
    while rest.len() > 0
        invariant
            0 <= i <= all.len(),
            all == path_views(items@),
            path_views(rest@) == all.skip(i),
            path_views(paths@) == spec_dedup(base + all.take(i)),
        decreases rest.len(),
    {
        let ghost before = path_views(rest@);
        let ghost old_rest = rest@;
        let x = rest.remove(0);
        proof {
            assert(before.len() == all.len() - i);
            assert(before[0] == x@);
            assert(all.skip(i)[0] == all[i]);
        }
        push_unique_path(paths, x);
        proof {
            assert((base + all.take(i + 1)).drop_last() =~= base + all.take(i));
            assert((base + all.take(i + 1)).last() == all[i]);
            assert forall|k: int| 0 <= k < rest@.len() implies #[trigger] path_views(rest@)[k]
                == all.skip(i + 1)[k] by {
                assert(rest@[k] == old_rest[k + 1]);
                assert(before[k + 1] == all.skip(i)[k + 1]);
            }
            i = i + 1;
            assert(path_views(rest@) =~= all.skip(i));
        }
    }
    assert(all.take(i) =~= all);
}

/// The macOS command search path: the package-manager directories first,
/// then the inherited `PATH` entries, each directory listed once, at its
/// first occurrence.
pub fn macos_search_paths(inherited: Vec<SearchPath>) -> (paths: Vec<SearchPath>)
    ensures
        path_views(paths@) == spec_dedup(fixed_search_paths() + path_views(inherited@)),
{
    let mut items = fixed_search_path_entries();
    let mut inherited = inherited;
    let ghost inh = path_views(inherited@);
    items.append(&mut inherited);
    assert(path_views(items@) =~= fixed_search_paths() + inh);
    let mut paths: Vec<SearchPath> = Vec::new();
    assert(path_views(paths@) =~= spec_dedup(path_views(paths@)));
    push_all_unique(&mut paths, items);
    assert(path_views(paths@) == spec_dedup(Seq::<SearchPathView>::empty() + fixed_search_paths() + inh));
    assert(Seq::<SearchPathView>::empty() + fixed_search_paths() + inh =~= fixed_search_paths() + inh);
    paths
}

/// Adding the same directory twice leaves the search path as adding it once.
pub proof fn law_push_unique_idempotent(paths: Seq<SearchPathView>, p: SearchPathView)
    ensures
        spec_push_unique(spec_push_unique(paths, p), p) == spec_push_unique(paths, p),
{
    if !has_path(paths, p) {
        let q = paths.push(p);
        assert(q[paths.len() as int] == p);
        assert(has_path(q, p));
    }
}

/// No two entries of a deduplicated search path name the same directory.
pub proof fn lemma_dedup_unique(s: Seq<SearchPathView>)
    ensures
        forall|i: int, j: int|
            0 <= i < j < spec_dedup(s).len() ==> (#[trigger] spec_dedup(s)[i]).components
                != (#[trigger] spec_dedup(s)[j]).components,
    decreases s.len(),
{
    if s.len() > 0 {
        lemma_dedup_unique(s.drop_last());
        let d = spec_dedup(s.drop_last());
        if !has_path(d, s.last()) {
            let e = d.push(s.last());
            assert forall|i: int, j: int| 0 <= i < j < e.len() implies (#[trigger] e[i]).components
                != (#[trigger] e[j]).components by {
                if j == e.len() - 1 {
                    assert(e[i] == d[i]);
                } else {
                    assert(e[i] == d[i] && e[j] == d[j]);
                }
            }
        }
    }
}

/// A search path without repeated directories is its own deduplication.
pub proof fn lemma_dedup_of_unique(s: Seq<SearchPathView>)
    requires
        forall|i: int, j: int|
            0 <= i < j < s.len() ==> (#[trigger] s[i]).components != (#[trigger] s[j]).components,
    ensures
        spec_dedup(s) == s,
    decreases s.len(),
{
    if s.len() > 0 {
        let t = s.drop_last();
        assert forall|i: int, j: int| 0 <= i < j < t.len() implies (#[trigger] t[i]).components
            != (#[trigger] t[j]).components by {
            assert(t[i] == s[i] && t[j] == s[j]);
        }
        lemma_dedup_of_unique(t);
        assert(!has_path(t, s.last())) by {
            if has_path(t, s.last()) {
                let i = choose|i: int| 0 <= i < t.len() && (#[trigger] t[i]).components == s.last().components;
                assert(s[i] == t[i]);
            }
        }
        assert(t.push(s.last()) =~= s);
    }
}

/// Every directory of `s` appears in its deduplication.
pub proof fn lemma_dedup_complete(s: Seq<SearchPathView>, k: int)
    requires
        0 <= k < s.len(),
    ensures
        has_path(spec_dedup(s), s[k]),
    decreases s.len(),
{
    let d = spec_dedup(s.drop_last());
    if k == s.len() - 1 {
        if !has_path(d, s.last()) {
            assert(d.push(s.last())[d.len() as int] == s.last());
        } else {
            let i = choose|i: int| 0 <= i < d.len() && (#[trigger] d[i]).components == s.last().components;
            assert(spec_dedup(s)[i] == d[i]);
        }
    } else {
        lemma_dedup_complete(s.drop_last(), k);
        assert(s.drop_last()[k] == s[k]);
        let i = choose|i: int| 0 <= i < d.len() && (#[trigger] d[i]).components == s[k].components;
        assert(spec_dedup(s)[i] == d[i]);
    }
}

/// The macOS search path lists every directory once, all nine
/// package-manager directories first and in their order, and every
/// inherited `PATH` directory somewhere.
pub proof fn law_macos_search_paths(inherited: Seq<SearchPathView>)
    ensures
        ({
            let r = spec_dedup(fixed_search_paths() + inherited);
            &&& forall|i: int, j: int|
                0 <= i < j < r.len() ==> (#[trigger] r[i]).components != (#[trigger] r[j]).components
            &&& r.len() >= 9
            &&& forall|i: int| 0 <= i < 9 ==> #[trigger] r[i] == fixed_search_paths()[i]
            &&& forall|k: int| 0 <= k < inherited.len() ==> has_path(r, #[trigger] inherited[k])
        }),
{
    let all = fixed_search_paths() + inherited;
    lemma_dedup_unique(all);
    assert forall|k: int| 0 <= k < inherited.len() implies has_path(
        spec_dedup(all),
        #[trigger] inherited[k],
    ) by {
        assert(all[k + 9] == inherited[k]);
        lemma_dedup_complete(all, k + 9);
    }
    lemma_dedup_prefix(fixed_search_paths(), inherited);
}

proof fn lemma_fixed_unique()
    ensures
        forall|i: int, j: int|
            0 <= i < j < 9 ==> (#[trigger] fixed_search_paths()[i]).components
                != (#[trigger] fixed_search_paths()[j]).components,
{
    reveal_strlit("opt");
    reveal_strlit("usr");
    reveal_strlit("bin");
    reveal_strlit("sbin");
    reveal_strlit("homebrew");
    reveal_strlit("local");
    assert("opt"@[0] != "usr"@[0]);
    assert("bin"@.len() != "sbin"@.len());
    assert("homebrew"@.len() != "local"@.len());
    assert("bin"@[0] != "sbin"@[0]);
    let f = fixed_search_paths();
    assert forall|i: int, j: int| 0 <= i < j < 9 implies (#[trigger] f[i]).components
        != (#[trigger] f[j]).components by {
        let a = f[i].components;
        let b = f[j].components;
        if a.len() == b.len() && a[1] == b[1] {
            assert(a[2] != b[2]);
        }
    }
}

proof fn lemma_dedup_prefix(fixed: Seq<SearchPathView>, rest: Seq<SearchPathView>)
    requires
        fixed == fixed_search_paths(),
    ensures
        spec_dedup(fixed + rest).len() >= 9,
        forall|i: int| 0 <= i < 9 ==> #[trigger] spec_dedup(fixed + rest)[i] == fixed[i],
    decreases rest.len(),
{
    if rest.len() == 0 {
        lemma_fixed_unique();
        lemma_dedup_of_unique(fixed);
        assert(fixed + rest =~= fixed);
    } else {
        lemma_dedup_prefix(fixed, rest.drop_last());
        assert((fixed + rest).drop_last() =~= fixed + rest.drop_last());
        let d = spec_dedup(fixed + rest.drop_last());
        assert forall|i: int| 0 <= i < 9 implies #[trigger] spec_dedup(fixed + rest)[i] == fixed[i] by {
            assert(d[i] == fixed[i]);
        }
    }
}

/// Where a program is looked up: on macOS a bare name (no `/` or `\\`) is
/// resolved to the first search-path directory holding it, falling back to
/// the bare name; elsewhere, and for paths, the program is used as given.
pub open spec fn spec_resolve_program(is_macos: bool, program: Seq<char>, candidates: Seq<PathProbe>) -> Seq<char> {
    if !is_macos || program.contains('/') || program.contains('\\') {
        program
    } else {
        match spec_first_existing(candidates) {
            Some(p) => p,
            None => program,
        }
    }
}

/// On macOS a bare program name resolves to the path of the first existing
/// candidate, in search-path order, and stays as given when no candidate
/// exists; a name holding `/` or `\\`, and any name off macOS, is used as
/// given.
pub proof fn law_resolve_program(is_macos: bool, program: Seq<char>, candidates: Seq<PathProbe>, i: int)
    requires
        0 <= i <= candidates.len(),
        forall|j: int| 0 <= j < i ==> !(#[trigger] candidates[j]).is_file,
        i == candidates.len() || candidates[i].is_file,
    ensures
        !is_macos || program.contains('/') || program.contains('\\') ==> spec_resolve_program(
            is_macos,
            program,
            candidates,
        ) == program,
        is_macos && !program.contains('/') && !program.contains('\\') && i < candidates.len()
            ==> spec_resolve_program(is_macos, program, candidates) == candidates[i].path@,
        is_macos && !program.contains('/') && !program.contains('\\') && i == candidates.len()
            ==> spec_resolve_program(is_macos, program, candidates) == program,
{
    crate::discovery::law_first_existing(candidates, i);
}

/// Resolves a program name through the macOS search path; `candidates` are
/// the search-path directories joined with the program name, in order.
pub fn resolve_program(is_macos: bool, program: &str, candidates: &Vec<PathProbe>) -> (r: String)
    ensures
        r@ == spec_resolve_program(is_macos, program@, candidates@),
{
    let v = crate::text::chars_of(program);
    let mut has_separator = false;
    let mut i: usize = 0;
    while i < v.len()
        invariant
            v@ == program@,
            0 <= i <= v.len(),
            has_separator == exists|j: int| 0 <= j < i && (#[trigger] v@[j] == '/' || v@[j] == '\\'),
        decreases v.len() - i,
    {
        if v[i] == '/' || v[i] == '\\' {
            has_separator = true;
        }
        i += 1;
    }
    assert(has_separator == (program@.contains('/') || program@.contains('\\'))) by {
        if program@.contains('/') {
            let j = choose|j: int| 0 <= j < program@.len() && program@[j] == '/';
            assert(v@[j] == '/');
        }
        if program@.contains('\\') {
            let j = choose|j: int| 0 <= j < program@.len() && program@[j] == '\\';
            assert(v@[j] == '\\');
        }
    }
    if !is_macos || has_separator {
        return owned(program);
    }
    match first_existing(candidates) {
        Some(p) => p,
        None => owned(program),
    }
}

} // verus!
