//! Decisions and fixed command plans behind the launcher's user-triggered
//! actions: launching, cloning, virtual environments and asset extraction.

use vstd::prelude::*;
use crate::github::{
    github_repo_owner_and_name, is_safe, is_safe_char, law_normalized_url_shape, law_owner_and_name_round_trip,
    law_owner_and_name_safe,
    normalize_github_url, repo_url, spec_normalize_github_url, spec_owner_and_name, GITHUB_PREFIX,
};
use crate::text::{
    ends_with, has_whitespace, is_whitespace,
    lemma_drop_last_while_at, lemma_drop_while_at, starts_with, trim,
};
use crate::models::{ActionResult, ActionResultView};
use crate::text::{owned, push_char, push_str};

verus! {

/// A program, its arguments, and the message reported when it succeeds.
#[derive(Clone, Debug, PartialEq, Eq)]
pub struct CommandSpec {
    pub program: String,
    pub args: Vec<String>,
    pub success_message: String,
}

pub struct CommandSpecView {
    pub program: Seq<char>,
    pub args: Seq<Seq<char>>,
    pub success_message: Seq<char>,
}

impl View for CommandSpec {
    type V = CommandSpecView;

    open spec fn view(&self) -> CommandSpecView {
        CommandSpecView {
            program: self.program@,
            args: self.args.deep_view(),
            success_message: self.success_message@,
        }
    }
}

/// The command view with these parts.
pub open spec fn command_view(
    program: Seq<char>,
    args: Seq<Seq<char>>,
    success_message: Seq<char>,
) -> CommandSpecView {
    CommandSpecView { program, args, success_message }
}

pub(crate) fn command(program: &str, args: Vec<String>, success_message: &str) -> (c: CommandSpec)
    ensures
        c@ == command_view(program@, args.deep_view(), success_message@),
{
    CommandSpec { program: owned(program), args, success_message: owned(success_message) }
}

pub(crate) fn args1(a: &str) -> (v: Vec<String>)
    ensures
        v.deep_view() == seq![a@],
{
    let mut v = Vec::new();
    v.push(owned(a));
    assert(v.deep_view() =~= seq![a@]);
    v
}

pub(crate) fn args2(a: &str, b: &str) -> (v: Vec<String>)
    ensures
        v.deep_view() == seq![a@, b@],
{
    let mut v = Vec::new();
    v.push(owned(a));
    v.push(owned(b));
    assert(v.deep_view() =~= seq![a@, b@]);
    v
}

pub(crate) fn args3(a: &str, b: &str, c: &str) -> (v: Vec<String>)
    ensures
        v.deep_view() == seq![a@, b@, c@],
{
    let mut v = Vec::new();
    v.push(owned(a));
    v.push(owned(b));
    v.push(owned(c));
    assert(v.deep_view() =~= seq![a@, b@, c@]);
    v
}

pub(crate) fn args4(a: &str, b: &str, c: &str, d: &str) -> (v: Vec<String>)
    ensures
        v.deep_view() == seq![a@, b@, c@, d@],
{
    let mut v = Vec::new();
    v.push(owned(a));
    v.push(owned(b));
    v.push(owned(c));
    v.push(owned(d));
    assert(v.deep_view() =~= seq![a@, b@, c@, d@]);
    v
}

pub(crate) fn args5(a: &str, b: &str, c: &str, d: &str, e: &str) -> (v: Vec<String>)
    ensures
        v.deep_view() == seq![a@, b@, c@, d@, e@],
{
    let mut v = Vec::new();
    v.push(owned(a));
    v.push(owned(b));
    v.push(owned(c));
    v.push(owned(d));
    v.push(owned(e));
    assert(v.deep_view() =~= seq![a@, b@, c@, d@, e@]);
    v
}

// ---------------------------------------------------------------- launching

pub const GAME_LAUNCHED: &'static str = "Game launched.";

pub const MSG_NO_PARENT_FOLDER: &'static str = "The executable path has no parent folder.";

/// What `launch_game` reports once the game process has started.
pub fn launch_game_result() -> (r: ActionResult)
    ensures
        r@ == (ActionResultView {
            ok: true,
            message: GAME_LAUNCHED@,
            stdout: Seq::empty(),
            stderr: Seq::empty(),
        }),
{
    ActionResult {
        ok: true,
        message: owned(GAME_LAUNCHED),
        stdout: String::new(),
        stderr: String::new(),
    }
}

/// What is known of the executable's folders when choosing its working directory.
#[derive(Clone, Debug, PartialEq, Eq)]
pub struct LaunchProbe {
    /// The executable's folder has a parent (the would-be `bin` folder).
    pub executable_dir_has_parent: bool,
    /// That parent has a parent itself (the would-be project folder).
    pub bin_dir_has_parent: bool,
    /// The final name of the would-be `bin` folder.
    pub bin_dir_name: Option<String>,
    /// The final name of the executable.
    pub executable_name: Option<String>,
    /// `SDL2.dll` is a file beside the executable.
    pub sdl_dll_beside_executable: bool,
}

/// The folder a game is launched from.
#[derive(Clone, Copy, Debug, PartialEq, Eq)]
pub enum WorkingDir {
    ExecutableDir,
    ProjectDir,
}

/// ASCII upper-case letters folded to lower case, by code.
pub open spec fn ascii_lower_code(c: char) -> int {
    if 'A' <= c && c <= 'Z' {
        c as u32 + 32
    } else {
        c as u32 as int
    }
}

/// `str::eq_ignore_ascii_case`.
pub open spec fn eq_ignore_ascii_case(a: Seq<char>, b: Seq<char>) -> bool {
    a.len() == b.len() && forall|i: int|
        0 <= i < a.len() ==> ascii_lower_code(#[trigger] a[i]) == ascii_lower_code(b[i])
}

/// The name is present and equals `expected` up to ASCII case.
pub open spec fn name_is(name: Option<String>, expected: Seq<char>) -> bool {
    match name {
        Some(n) => eq_ignore_ascii_case(n@, expected),
        None => false,
    }
}

/// Where `launch_working_dir` starts the game.
pub open spec fn spec_launch_working_dir(is_windows: bool, probe: LaunchProbe) -> WorkingDir {
    if is_windows && probe.executable_dir_has_parent && probe.bin_dir_has_parent && name_is(
        probe.bin_dir_name,
        "bin"@,
    ) && name_is(probe.executable_name, "zelda3.exe"@) && probe.sdl_dll_beside_executable {
        WorkingDir::ProjectDir
    } else {
        WorkingDir::ExecutableDir
    }
}

fn ascii_lower_code_exec(c: char) -> (r: u32)
    ensures
        r == ascii_lower_code(c),
{
    if 'A' <= c && c <= 'Z' {
        c as u32 + 32
    } else {
        c as u32
    }
}

/// `str::eq_ignore_ascii_case`.
pub fn eq_ignore_ascii_case_exec(a: &str, b: &str) -> (r: bool)
    ensures
        r == eq_ignore_ascii_case(a@, b@),
{
    let x = crate::text::chars_of(a);
    let y = crate::text::chars_of(b);
    if x.len() != y.len() {
        return false;
    }
    let mut i: usize = 0;
    while i < x.len()
        invariant
            x@ == a@,
            y@ == b@,
            x.len() == y.len(),
            0 <= i <= x.len(),
            forall|j: int| 0 <= j < i ==> ascii_lower_code(#[trigger] x@[j]) == ascii_lower_code(y@[j]),
        decreases x.len() - i,
    {
        if ascii_lower_code_exec(x[i]) != ascii_lower_code_exec(y[i]) {
            return false;
        }
        i += 1;
    }
    true
}

fn name_is_exec(name: &Option<String>, expected: &str) -> (r: bool)
    ensures
        r == name_is(*name, expected@),
{
    match name {
        Some(n) => eq_ignore_ascii_case_exec(n.as_str(), expected),
        None => false,
    }
}

/// Equality up to ASCII case, by character code: same length, and at every
/// position the codes are equal or differ exactly by an ASCII letter's case
/// (`A`-`Z` against `a`-`z`); no other characters are folded.
pub proof fn law_eq_ignore_ascii_case(a: Seq<char>, b: Seq<char>)
    ensures
        eq_ignore_ascii_case(a, b) <==> (a.len() == b.len() && forall|i: int|
            0 <= i < a.len() ==> {
                let x = #[trigger] a[i] as u32;
                let y = b[i] as u32;
                x == y || (65 <= x <= 90 && y == x + 32) || (65 <= y <= 90 && x == y + 32)
            }),
{
    assert forall|i: int| 0 <= i < a.len() && a.len() == b.len() implies (ascii_lower_code(
        #[trigger] a[i],
    ) == ascii_lower_code(b[i]) <==> {
        let x = a[i] as u32;
        let y = b[i] as u32;
        x == y || (65 <= x <= 90 && y == x + 32) || (65 <= y <= 90 && x == y + 32)
    }) by {
        lemma_ascii_lower_code(a[i], b[i]);
    }
}

proof fn lemma_ascii_lower_code(x: char, y: char)
    ensures
        ascii_lower_code(x) == ascii_lower_code(y) <==> {
            let p = x as u32;
            let q = y as u32;
            p == q || (65 <= p <= 90 && q == p + 32) || (65 <= q <= 90 && p == q + 32)
        },
{
}

/// The project root is chosen only on Windows, only when the executable's
/// folder has a parent and grandparent, `SDL2.dll` sits beside it, the
/// folder above is named `bin` and the executable `zelda3.exe` (both up to
/// ASCII case); in every other case, and everywhere off Windows, the game
/// starts in its own folder.
pub proof fn law_launch_working_dir(is_windows: bool, probe: LaunchProbe)
    ensures
        !is_windows ==> spec_launch_working_dir(is_windows, probe) == WorkingDir::ExecutableDir,
        spec_launch_working_dir(is_windows, probe) == WorkingDir::ProjectDir <==> {
            &&& is_windows
            &&& probe.executable_dir_has_parent
            &&& probe.bin_dir_has_parent
            &&& probe.sdl_dll_beside_executable
            &&& probe.bin_dir_name matches Some(n) && eq_ignore_ascii_case(n@, "bin"@)
            &&& probe.executable_name matches Some(n) && eq_ignore_ascii_case(n@, "zelda3.exe"@)
        },
{
}

/// Picks the folder a game starts in. Visual Studio builds live under
/// `bin/{Platform-Configuration}`, so on Windows a `zelda3.exe` with its
/// `SDL2.dll` inside a folder named `bin` (in any ASCII case) starts from the
/// project root, where its assets are; every other executable starts from
/// its own folder.
pub fn launch_working_dir(is_windows: bool, probe: &LaunchProbe) -> (d: WorkingDir)
    ensures
        d == spec_launch_working_dir(is_windows, *probe),
{
    if !is_windows || !probe.executable_dir_has_parent || !probe.bin_dir_has_parent {
        return WorkingDir::ExecutableDir;
    }
    let is_visual_studio_output = name_is_exec(&probe.bin_dir_name, "bin");
    let has_windows_runtime = name_is_exec(&probe.executable_name, "zelda3.exe")
        && probe.sdl_dll_beside_executable;
    if is_visual_studio_output && has_windows_runtime {
        WorkingDir::ProjectDir
    } else {
        WorkingDir::ExecutableDir
    }
}

// ---------------------------------------------------------------- cloning

pub const CLONE_COMPLETE: &'static str = "Clone complete.";

pub const CUSTOM_CLONE_COMPLETE: &'static str = "Custom clone complete.";

/// The folder the canonical repository is cloned into.
pub const Z3R_FOLDER: &'static str = "Z3R";

pub const TARGET_EXISTS_PREFIX: &'static str = "Target folder already exists: ";

/// The error for a clone whose destination already exists.
pub fn target_exists_error(target: &str) -> (e: String)
    ensures
        e@ == TARGET_EXISTS_PREFIX@ + target@,
{
    let mut e = owned(TARGET_EXISTS_PREFIX);
    push_str(&mut e, target);
    e
}

/// `git clone --recursive <repo_url> Z3R`, run from the scan root.
pub fn clone_project_command(repo_url: &str) -> (c: CommandSpec)
    ensures
        c@ == command_view(
            "git"@,
            seq!["clone"@, "--recursive"@, repo_url@, Z3R_FOLDER@],
            CLONE_COMPLETE@,
        ),
{
    command("git", args4("clone", "--recursive", repo_url, Z3R_FOLDER), CLONE_COMPLETE)
}

/// A validated custom clone: the normalized URL, the owner and repository
/// names, the `{owner}/{repo}` destination below the scan root, and the
/// `git` command that clones into it.
#[derive(Clone, Debug, PartialEq, Eq)]
pub struct CustomClone {
    pub url: String,
    pub owner: String,
    pub repo: String,
    pub relative_target: String,
    pub command: CommandSpec,
}

/// What `plan_custom_clone` yields for `url`: the normalized URL, owner and
/// repository, or the first error met.
pub open spec fn spec_custom_clone(url: Seq<char>) -> Result<
    (Seq<char>, Seq<char>, Seq<char>),
    Seq<char>,
> {
    match spec_normalize_github_url(url) {
        Err(e) => Err(e),
        Ok(u) => match spec_owner_and_name(u) {
            Err(e) => Err(e),
            Ok((owner, repo)) => Ok((u, owner, repo)),
        },
    }
}

/// Validates a user-supplied repository URL and plans its clone into the
/// nested `{owner}/{repo}` folder, so that forks sharing a repository name
/// can sit side by side.
pub fn plan_custom_clone(repo_url: &str) -> (res: Result<CustomClone, String>)
    ensures
        match res {
            Ok(c) => {
                &&& spec_custom_clone(repo_url@) == Ok::<_, Seq<char>>((c.url@, c.owner@, c.repo@))
                &&& c.relative_target@ == c.owner@ + seq!['/'] + c.repo@
                &&& c.command@ == command_view(
                    "git"@,
                    seq!["clone"@, "--recursive"@, c.url@, c.relative_target@],
                    CUSTOM_CLONE_COMPLETE@,
                )
            },
            Err(e) => spec_custom_clone(repo_url@) == Err::<(Seq<char>, Seq<char>, Seq<char>), _>(e@),
        },
{
    let url = match normalize_github_url(repo_url) {
        Ok(u) => u,
        Err(e) => return Err(e),
    };
    let (owner, repo) = match github_repo_owner_and_name(url.as_str()) {
        Ok(p) => p,
        Err(e) => return Err(e),
    };
    let mut relative_target = owner.clone();
    push_char(&mut relative_target, '/');
    push_str(&mut relative_target, repo.as_str());
    let command = command(
        "git",
        args4("clone", "--recursive", url.as_str(), relative_target.as_str()),
        CUSTOM_CLONE_COMPLETE,
    );
    Ok(CustomClone { url, owner, repo, relative_target, command })
}

/// The URL of any folder-safe `owner/repo` (with or without `.git`) passes
/// validation unchanged and is cloned into `owner/repo`.
pub proof fn law_custom_clone_destination(owner: Seq<char>, repo: Seq<char>, git_suffix: bool)
    requires
        owner.len() > 0,
        repo.len() > 0,
        is_safe(owner),
        is_safe(repo),
        !ends_with(repo, ".git"@),
    ensures
        spec_custom_clone(repo_url(owner, repo, git_suffix)) == Ok::<_, Seq<char>>(
            (repo_url(owner, repo, git_suffix), owner, repo),
        ),
{
    reveal_strlit("https://github.com/");
    reveal_strlit(".git");
    reveal_strlit("git clone");
    let p = GITHUB_PREFIX@;
    let g: Seq<char> = if git_suffix {
        ".git"@
    } else {
        Seq::empty()
    };
    let u = repo_url(owner, repo, git_suffix);
    assert(u =~= p + owner + seq!['/'] + repo + g);
    let n1 = 19 + owner.len();
    let n2 = n1 + 1 + repo.len();
    assert forall|j: int| 0 <= j < u.len() implies !is_whitespace(#[trigger] u[j]) by {
        if j < 19 {
            assert(u[j] == p[j]);
        } else if j < n1 {
            assert(u[j] == owner[j - 19]);
            assert(is_safe_char(owner[j - 19]));
        } else if j == n1 {
        } else if j < n2 {
            assert(u[j] == repo[j - n1 - 1]);
            assert(is_safe_char(repo[j - n1 - 1]));
        } else {
            assert(u[j] == g[j - n2]);
        }
    }
    assert(!has_whitespace(u));
    let ws = |c: char| is_whitespace(c);
    lemma_drop_while_at(u, ws, 0);
    assert(u.skip(0) =~= u);
    assert(!ws(u[u.len() - 1]));
    lemma_drop_last_while_at(u, ws, u.len() as int);
    assert(u.take(u.len() as int) =~= u);
    assert(trim(u) == u);
    assert(u.take(9)[0] == 'h');
    assert(!starts_with(u, "git clone"@));
    assert(u.take(19) =~= p);
    assert(starts_with(u, p));
    let slash = |c: char| c == '/';
    if git_suffix {
        assert(u.last() == 't');
    } else {
        assert(u.last() == repo.last());
        assert(is_safe_char(repo[repo.len() - 1]));
    }
    lemma_drop_last_while_at(u, slash, u.len() as int);
    assert(spec_normalize_github_url(u) == Ok::<_, Seq<char>>(u));
    law_owner_and_name_round_trip(owner, repo, git_suffix);
}

/// A planned custom clone goes into `owner/repo` below the scan root: the
/// destination has exactly one `/`, between two non-empty names made only of
/// folder-safe characters, and the cloned URL is a normalized GitHub URL.
pub proof fn law_custom_clone_target_safe(url: Seq<char>)
    requires
        spec_custom_clone(url) is Ok,
    ensures
        ({
            let (u, owner, repo) = spec_custom_clone(url)->Ok_0;
            let target = owner + seq!['/'] + repo;
            &&& owner.len() > 0 && repo.len() > 0
            &&& target[owner.len() as int] == '/'
            &&& forall|i: int|
                0 <= i < target.len() && i != owner.len() ==> is_safe_char(#[trigger] target[i])
            &&& !has_whitespace(u)
            &&& starts_with(u, "https://github.com"@)
        }),
{
    let u = spec_normalize_github_url(url)->Ok_0;
    law_normalized_url_shape(url);
    law_owner_and_name_safe(u);
    let (owner, repo) = spec_owner_and_name(u)->Ok_0;
    let target = owner + seq!['/'] + repo;
    assert forall|i: int| 0 <= i < target.len() && i != owner.len() implies is_safe_char(
        #[trigger] target[i],
    ) by {
        if i < owner.len() {
            assert(target[i] == owner[i]);
        } else {
            assert(target[i] == repo[i - owner.len() - 1]);
        }
    }
}

pub const SFC_COPIED_TO: &'static str = " SFC copied to ";

pub const NO_SFC_TO_COPY: &'static str = " No uploaded SFC is available to copy yet.";

/// The message of a successful clone once the stored ROM copy was tried:
/// `copied_to` is where the ROM was copied, if one was stored.
pub open spec fn spec_rom_copy_message(clone_message: Seq<char>, copied_to: Option<Seq<char>>) -> Seq<
    char,
> {
    match copied_to {
        Some(path) => clone_message + SFC_COPIED_TO@ + path + seq!['.'],
        None => clone_message + NO_SFC_TO_COPY@,
    }
}

/// A successful clone's message keeps the clone message and then says where
/// the ROM went, `" SFC copied to <path>."`, or that none is stored,
/// `" No uploaded SFC is available to copy yet."`.
pub proof fn law_rom_copy_message(clone_message: Seq<char>, copied_to: Option<Seq<char>>)
    ensures
        copied_to matches Some(p) ==> spec_rom_copy_message(clone_message, copied_to) == clone_message
            + " SFC copied to "@ + p + "."@,
        copied_to is None ==> spec_rom_copy_message(clone_message, copied_to) == clone_message
            + " No uploaded SFC is available to copy yet."@,
        spec_rom_copy_message(clone_message, copied_to).take(clone_message.len() as int)
            == clone_message,
{
    reveal_strlit(".");
    let m = spec_rom_copy_message(clone_message, copied_to);
    assert(m.take(clone_message.len() as int) =~= clone_message);
    if let Some(p) = copied_to {
        assert(seq!['.'] =~= "."@);
    }
}

/// Adds the outcome of the ROM copy to a successful clone's message; a
/// failed clone is left untouched.
pub fn attach_rom_copy_message(result: &mut ActionResult, copied_to: Option<String>)
    ensures
        !old(result).ok ==> final(result)@ == old(result)@,
        old(result).ok ==> final(result)@ == (ActionResultView {
            message: spec_rom_copy_message(
                old(result).message@,
                match copied_to {
                    Some(p) => Some(p@),
                    None => None,
                },
            ),
            ..old(result)@
        }),
{
    if !result.ok {
        return;
    }
    match copied_to {
        Some(path) => {
            let ghost m = result.message@;
            push_str(&mut result.message, SFC_COPIED_TO);
            push_str(&mut result.message, path.as_str());
            push_char(&mut result.message, '.');
            assert(result.message@ =~= m + SFC_COPIED_TO@ + path@ + seq!['.']);
        },
        None => {
            push_str(&mut result.message, NO_SFC_TO_COPY);
        },
    }
}

// ---------------------------------------------------------------- Python environment

pub const VENV_CREATED: &'static str = "Virtual environment created.";

pub const DEPENDENCIES_INSTALLED: &'static str = "Python dependencies installed.";

pub const ASSET_EXTRACTION_COMPLETE: &'static str = "Asset extraction complete.";

pub const MSG_VENV_BEFORE_INSTALL: &'static str = "Create a venv before installing dependencies.";

pub const MSG_VENV_BEFORE_EXTRACT: &'static str = "Create a venv before extracting assets.";

/// `py -m venv .venv` on Windows, `python3 -m venv .venv` elsewhere.
pub fn create_venv_command(is_windows: bool) -> (c: CommandSpec)
    ensures
        c@ == command_view(
            if is_windows {
                "py"@
            } else {
                "python3"@
            },
            seq!["-m"@, "venv"@, ".venv"@],
            VENV_CREATED@,
        ),
{
    let program = if is_windows {
        "py"
    } else {
        "python3"
    };
    command(program, args3("-m", "venv", ".venv"), VENV_CREATED)
}

/// `<venv python> -m pip install -r requirements.txt`.
pub fn install_dependencies_command(python: &str) -> (c: CommandSpec)
    ensures
        c@ == command_view(
            python@,
            seq!["-m"@, "pip"@, "install"@, "-r"@, "requirements.txt"@],
            DEPENDENCIES_INSTALLED@,
        ),
{
    command(python, args5("-m", "pip", "install", "-r", "requirements.txt"), DEPENDENCIES_INSTALLED)
}

/// `<venv python> assets/restool.py --extract-from-rom`.
pub fn extract_assets_command(python: &str) -> (c: CommandSpec)
    ensures
        c@ == command_view(
            python@,
            seq!["assets/restool.py"@, "--extract-from-rom"@],
            ASSET_EXTRACTION_COMPLETE@,
        ),
{
    command(python, args2("assets/restool.py", "--extract-from-rom"), ASSET_EXTRACTION_COMPLETE)
}

// ---------------------------------------------------------------- extraction then build

pub const EXTRACT_AND_BUILD_COMPLETE: &'static str = "Asset extraction and build complete.";

pub const BUILD_FAILED_AFTER_EXTRACTION: &'static str = "Build step failed after asset extraction: ";

/// Two stage outputs joined by a line break, an empty one adding nothing.
pub open spec fn spec_join_stage_output(first: Seq<char>, second: Seq<char>) -> Seq<char> {
    if first.len() == 0 {
        second
    } else if second.len() == 0 {
        first
    } else {
        first + seq!['\n'] + second
    }
}

/// Concatenates two stage outputs with a line break between them, skipping
/// empty ones so that no stray separator appears.
pub fn join_stage_output(first: &str, second: &str) -> (s: String)
    ensures
        s@ == spec_join_stage_output(first@, second@),
{
    if first.is_empty() {
        owned(second)
    } else if second.is_empty() {
        owned(first)
    } else {
        let mut s = owned(first);
        push_char(&mut s, '\n');
        push_str(&mut s, second);
        s
    }
}

/// The report of an extraction that succeeded followed by a build.
pub open spec fn spec_combine_stages(extract: ActionResultView, build: ActionResultView) -> ActionResultView {
    ActionResultView {
        ok: build.ok,
        message: if build.ok {
            EXTRACT_AND_BUILD_COMPLETE@
        } else {
            BUILD_FAILED_AFTER_EXTRACTION@ + build.message
        },
        stdout: spec_join_stage_output(extract.stdout, build.stdout),
        stderr: spec_join_stage_output(extract.stderr, build.stderr),
    }
}

/// What an extraction followed, if it succeeded, by a build reports.
pub open spec fn spec_extract_then_build(extract: ActionResultView, build: ActionResultView) -> ActionResultView {
    if extract.ok {
        spec_combine_stages(extract, build)
    } else {
        extract
    }
}

/// A concatenation of stage outputs begins with the first stage's output and
/// ends with the second's; an empty stage adds nothing.
pub proof fn law_join_stage_output_keeps_both(first: Seq<char>, second: Seq<char>)
    ensures
        spec_join_stage_output(first, second).take(first.len() as int) == first,
        spec_join_stage_output(first, second).skip(
            spec_join_stage_output(first, second).len() - second.len(),
        ) == second,
        spec_join_stage_output(first, Seq::empty()) == first,
        spec_join_stage_output(Seq::empty(), second) == second,
{
    let j = spec_join_stage_output(first, second);
    if first.len() == 0 {
        assert(j.take(0) =~= first);
        assert(j.skip(0) =~= j);
    } else if second.len() == 0 {
        assert(j.take(first.len() as int) =~= first);
        assert(j.skip(j.len() as int) =~= second);
    } else {
        assert(j.take(first.len() as int) =~= first);
        assert(j.skip(j.len() - second.len()) =~= second);
    }
}

/// A joined output is exactly as long as both parts plus one line break
/// when both are non-empty, and that line break sits right after the first.
pub proof fn law_join_stage_output_exact(first: Seq<char>, second: Seq<char>)
    ensures
        first.len() > 0 && second.len() > 0 ==> spec_join_stage_output(first, second).len()
            == first.len() + second.len() + 1,
        first.len() > 0 && second.len() > 0 ==> spec_join_stage_output(first, second)[first.len() as int]
            == '\n',
        first.len() == 0 || second.len() == 0 ==> spec_join_stage_output(first, second).len()
            == first.len() + second.len(),
{
    law_join_stage_output_keeps_both(first, second);
}

/// The combined report takes the build's success; its message is
/// `"Asset extraction and build complete."` on success and otherwise
/// `"Build step failed after asset extraction: "` followed by the build's
/// own message.
pub proof fn law_combined_report(extract: ActionResultView, build: ActionResultView)
    ensures
        spec_combine_stages(extract, build).ok == build.ok,
        build.ok ==> spec_combine_stages(extract, build).message
            == "Asset extraction and build complete."@,
        !build.ok ==> spec_combine_stages(extract, build).message
            == "Build step failed after asset extraction: "@ + build.message,
{
}

/// Extraction followed by a build reports success exactly when both stages
/// succeeded; a failed extraction is reported unchanged (the build never
/// runs), and otherwise both stages' output is kept, extraction first.
pub proof fn law_extract_then_build(extract: ActionResultView, build: ActionResultView)
    ensures
        spec_extract_then_build(extract, build).ok == (extract.ok && build.ok),
        !extract.ok ==> spec_extract_then_build(extract, build) == extract,
        extract.ok ==> spec_extract_then_build(extract, build).stdout == spec_join_stage_output(
            extract.stdout,
            build.stdout,
        ),
        extract.ok ==> spec_extract_then_build(extract, build).stderr == spec_join_stage_output(
            extract.stderr,
            build.stderr,
        ),
{
}

/// Running the pipeline's two steps yields `spec_extract_then_build`: the
/// build runs only after a successful extraction, and the report is the
/// extraction's alone or the combined one.
pub proof fn law_pipeline_steps(extract: ActionResultView, build: ActionResultView)
    ensures
        spec_extract_then_build(extract, build) == if extract.ok {
            spec_combine_stages(extract, build)
        } else {
            extract
        },
{
}

/// Where the extract-then-build pipeline stands.
pub enum AssetStage {
    /// Asset extraction is running.
    Extract,
    /// Extraction succeeded with this result and the build is running.
    Build { extract: ActionResult },
}

/// What the pipeline does next.
pub enum AssetNext {
    /// Run the build; the pipeline is then at the given stage.
    RunBuild(AssetStage),
    /// Stop and report this result.
    Report(ActionResult),
}

/// Advances the extract-then-build pipeline with the result of the stage
/// that just finished. A failed extraction is reported as it is, so that its
/// output stays visible; a successful one leads to the build, whose result
/// is reported together with the extraction's output, naming the failing
/// stage when the build fails.
pub fn extract_assets_step(stage: AssetStage, outcome: ActionResult) -> (next: AssetNext)
    ensures
        match stage {
            AssetStage::Extract => if outcome.ok {
                next matches AssetNext::RunBuild(AssetStage::Build { extract }) && extract@ == outcome@
            } else {
                next matches AssetNext::Report(r) && r@ == outcome@
            },
            AssetStage::Build { extract } => next matches AssetNext::Report(r) && r@
                == spec_combine_stages(extract@, outcome@),
        },
{
    match stage {
        AssetStage::Extract => {
            if outcome.ok {
                AssetNext::RunBuild(AssetStage::Build { extract: outcome })
            } else {
                AssetNext::Report(outcome)
            }
        },
        AssetStage::Build { extract } => {
            let stdout = join_stage_output(extract.stdout.as_str(), outcome.stdout.as_str());
            let stderr = join_stage_output(extract.stderr.as_str(), outcome.stderr.as_str());
            let message = if outcome.ok {
                owned(EXTRACT_AND_BUILD_COMPLETE)
            } else {
                let mut m = owned(BUILD_FAILED_AFTER_EXTRACTION);
                push_str(&mut m, outcome.message.as_str());
                m
            };
            AssetNext::Report(ActionResult { ok: outcome.ok, message, stdout, stderr })
        },
    }
}

// ---------------------------------------------------------------- command output

/// `String::from_utf8_lossy`: the bytes decoded as UTF-8, each invalid
/// sequence replaced by U+FFFD.
pub uninterp spec fn spec_utf8_lossy(bytes: Seq<u8>) -> Seq<char>;

/// Calls `String::from_utf8_lossy` (made owned); the contract claims only
/// that the result is `spec_utf8_lossy` of the bytes, a function of the
/// bytes alone, and says nothing of how the decoding goes.
#[verifier::external_body]
fn utf8_lossy(bytes: &[u8]) -> (s: String)
    ensures
        s@ == spec_utf8_lossy(bytes@),
{
    String::from_utf8_lossy(bytes).into_owned()
}

pub const EXITED_WITH_STATUS: &'static str = " exited with status ";

/// The report of a finished command: its success, then the success message
/// or `"<program> exited with status <status>"`, and its decoded output.
pub fn action_result_from_output(
    program: &str,
    success_message: &str,
    success: bool,
    status: &str,
    stdout: String,
    stderr: String,
) -> (r: ActionResult)
    ensures
        r@ == (ActionResultView {
            ok: success,
            message: if success {
                success_message@
            } else {
                program@ + EXITED_WITH_STATUS@ + status@
            },
            stdout: stdout@,
            stderr: stderr@,
        }),
{
    let message = if success {
        owned(success_message)
    } else {
        let mut m = owned(program);
        push_str(&mut m, EXITED_WITH_STATUS);
        push_str(&mut m, status);
        m
    };
    ActionResult { ok: success, message, stdout, stderr }
}

/// The report of a finished command from its raw captured output bytes.
pub fn command_output_result(
    program: &str,
    success_message: &str,
    success: bool,
    status: &str,
    stdout: &[u8],
    stderr: &[u8],
) -> (r: ActionResult)
    ensures
        r@ == (ActionResultView {
            ok: success,
            message: if success {
                success_message@
            } else {
                program@ + EXITED_WITH_STATUS@ + status@
            },
            stdout: spec_utf8_lossy(stdout@),
            stderr: spec_utf8_lossy(stderr@),
        }),
{
    let out = utf8_lossy(stdout);
    let err = utf8_lossy(stderr);
    action_result_from_output(program, success_message, success, status, out, err)
}

} // verus!
