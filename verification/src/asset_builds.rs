//! Build routes after asset extraction: the choice between Make, Visual
//! Studio (MSBuild) and TCC, and the exact commands each route runs.

use vstd::prelude::*;
use crate::actions::{args1, args2, args3, command, command_view, CommandSpec};
use crate::models::{ActionResult, ActionResultView};
use crate::text::{decimal, owned, push_char, push_decimal, push_str};

verus! {

/// The compiler route a build button asks for.
#[derive(Clone, Copy, Debug, PartialEq, Eq)]
pub enum BuildRoute {
    Automatic,
    VisualStudio,
    Tcc,
}

/// The build that actually runs.
#[derive(Clone, Copy, Debug, PartialEq, Eq)]
pub enum BuildStep {
    Make,
    VisualStudio,
    Tcc,
}

/// Which build runs: Make everywhere but Windows; on Windows the route asked
/// for, the automatic route using TCC when the project ships
/// `third_party/tcc/tcc.exe` and Visual Studio otherwise.
pub open spec fn spec_build_step(is_windows: bool, route: BuildRoute, project_has_tcc: bool) -> BuildStep {
    if !is_windows {
        BuildStep::Make
    } else {
        match route {
            BuildRoute::Tcc => BuildStep::Tcc,
            BuildRoute::VisualStudio => BuildStep::VisualStudio,
            BuildRoute::Automatic => if project_has_tcc {
                BuildStep::Tcc
            } else {
                BuildStep::VisualStudio
            },
        }
    }
}

/// Selects the platform compiler route.
pub fn build_executable(is_windows: bool, route: BuildRoute, project_has_tcc: bool) -> (step: BuildStep)
    ensures
        step == spec_build_step(is_windows, route, project_has_tcc),
{
    if !is_windows {
        return BuildStep::Make;
    }
    match route {
        BuildRoute::Tcc => BuildStep::Tcc,
        BuildRoute::VisualStudio => BuildStep::VisualStudio,
        BuildRoute::Automatic => if project_has_tcc {
            BuildStep::Tcc
        } else {
            BuildStep::VisualStudio
        },
    }
}

/// Off Windows every route builds with Make; on Windows the explicit routes
/// are honoured, and the automatic route uses TCC exactly when the project
/// ships its own `tcc.exe`, Visual Studio otherwise. Make never runs on Windows.
pub proof fn law_build_step(is_windows: bool, route: BuildRoute, project_has_tcc: bool)
    ensures
        !is_windows ==> spec_build_step(is_windows, route, project_has_tcc) == BuildStep::Make,
        is_windows ==> spec_build_step(is_windows, route, project_has_tcc) != BuildStep::Make,
        is_windows && route == BuildRoute::Tcc ==> spec_build_step(is_windows, route, project_has_tcc)
            == BuildStep::Tcc,
        is_windows && route == BuildRoute::VisualStudio ==> spec_build_step(
            is_windows,
            route,
            project_has_tcc,
        ) == BuildStep::VisualStudio,
        is_windows && route == BuildRoute::Automatic ==> (spec_build_step(
            is_windows,
            route,
            project_has_tcc,
        ) == BuildStep::Tcc <==> project_has_tcc),
        spec_build_step(is_windows, route, project_has_tcc) == BuildStep::Tcc ==> is_windows,
{
}

/// `make` gets exactly one argument: `-j` followed by the job count in
/// decimal (digits only, denoting that count), or `-j2` when the count is
/// unknown.
pub proof fn law_make_job_arg(jobs: Option<usize>)
    ensures
        spec_make_job_arg(jobs).take(2) == "-j"@,
        jobs is None ==> spec_make_job_arg(jobs) == "-j2"@,
        jobs matches Some(n) ==> crate::text::decimal_value(spec_make_job_arg(jobs).skip(2)) == n,
        forall|i: int|
            2 <= i < spec_make_job_arg(jobs).len() ==> '0' <= #[trigger] spec_make_job_arg(jobs)[i]
                <= '9',
{
    reveal_strlit("-j");
    reveal_strlit("2");
    reveal_strlit("-j2");
    let a = spec_make_job_arg(jobs);
    assert(a.take(2) =~= "-j"@);
    match jobs {
        Some(n) => {
            crate::text::law_decimal(n as nat);
            assert(a.skip(2) =~= decimal(n as nat));
            assert forall|i: int| 2 <= i < a.len() implies '0' <= #[trigger] a[i] <= '9' by {
                assert(a[i] == decimal(n as nat)[i - 2]);
            }
        },
        None => {
            assert(a =~= "-j2"@);
        },
    }
}

pub const BUILD_COMPLETE: &'static str = "Build complete.";

/// The `-j` argument of `make`: the available parallelism, or 2 when it is unknown.
pub open spec fn spec_make_job_arg(jobs: Option<usize>) -> Seq<char> {
    "-j"@ + match jobs {
        Some(n) => decimal(n as nat),
        None => "2"@,
    }
}

/// `make -j<jobs>`.
pub fn make_command(jobs: Option<usize>) -> (c: CommandSpec)
    ensures
        c@ == command_view("make"@, seq![spec_make_job_arg(jobs)], BUILD_COMPLETE@),
{
    let mut job_arg = owned("-j");
    match jobs {
        Some(n) => push_decimal(&mut job_arg, n),
        None => push_str(&mut job_arg, "2"),
    }
    command("make", args1(job_arg.as_str()), BUILD_COMPLETE)
}

pub const VISUAL_STUDIO_BUILD_COMPLETE: &'static str = "Visual Studio build complete.";

pub const MSG_MSBUILD_NOT_FOUND: &'static str = "MSBuild was not found. Install Build Tools for Visual Studio or use the TCC route.";

/// The MSBuild command for the project's solution, given where MSBuild was
/// found; without MSBuild the route fails with advice.
pub fn run_visual_studio_build(msbuild: Option<String>) -> (res: Result<CommandSpec, String>)
    ensures
        match msbuild {
            None => res matches Err(e) && e@ == MSG_MSBUILD_NOT_FOUND@,
            Some(m) => res matches Ok(c) && c@ == command_view(
                m@,
                seq!["Zelda3.sln"@, "/p:Configuration=Release"@, "/p:Platform=x64"@],
                VISUAL_STUDIO_BUILD_COMPLETE@,
            ),
        },
{
    match msbuild {
        None => Err(owned(MSG_MSBUILD_NOT_FOUND)),
        Some(m) => Ok(
            command(
                m.as_str(),
                args3("Zelda3.sln", "/p:Configuration=Release", "/p:Platform=x64"),
                VISUAL_STUDIO_BUILD_COMPLETE,
            ),
        ),
    }
}

/// `path` in double quotes, for a `cmd.exe` command line.
pub fn quote_cmd_path(path: &str) -> (q: String)
    ensures
        q@ == seq!['"'] + path@ + seq!['"'],
{
    let mut q = String::new();
    push_char(&mut q, '"');
    push_str(&mut q, path);
    push_char(&mut q, '"');
    q
}

/// Where the TCC route may find its compiler and SDL2: the project's own
/// `third_party` copies and the launcher's bundled ones.
#[derive(Clone, Debug, PartialEq, Eq)]
pub struct TccProbe {
    pub project_tcc: String,
    pub project_tcc_is_file: bool,
    pub project_sdl_root: String,
    pub project_sdl_dll: String,
    pub project_sdl_dll_is_file: bool,
    pub bundled_tcc: Option<String>,
    pub bundled_sdl_root: Option<String>,
    pub bundled_sdl_dll: Option<String>,
}

/// The compiler and SDL2 copy a TCC build uses.
#[derive(Clone, Debug, PartialEq, Eq)]
pub struct TccToolchain {
    pub tcc: String,
    pub sdl_root: String,
    pub sdl_dll: String,
}

pub const MSG_TCC_NOT_FOUND: &'static str = "TCC was not found in the project or bundled launcher tools.";

pub const MSG_SDL_HEADERS_NOT_FOUND: &'static str = "SDL2 headers were not found in the project or bundled launcher tools.";

pub const MSG_SDL_DLL_NOT_FOUND: &'static str = "SDL2.dll was not found in the project or bundled launcher tools.";

/// The project's TCC when it has one, else the bundled one; the project's
/// SDL2 when its DLL is there, else the bundled headers and DLL. The first
/// missing piece, in that order, is the error.
pub open spec fn spec_select_tcc_toolchain(p: TccProbe) -> Result<(Seq<char>, Seq<char>, Seq<char>), Seq<char>> {
    let tcc = if p.project_tcc_is_file {
        Some(p.project_tcc@)
    } else {
        match p.bundled_tcc {
            Some(t) => Some(t@),
            None => None,
        }
    };
    match tcc {
        None => Err(MSG_TCC_NOT_FOUND@),
        Some(tcc) => if p.project_sdl_dll_is_file {
            Ok((tcc, p.project_sdl_root@, p.project_sdl_dll@))
        } else {
            match (p.bundled_sdl_root, p.bundled_sdl_dll) {
                (None, _) => Err(MSG_SDL_HEADERS_NOT_FOUND@),
                (Some(_), None) => Err(MSG_SDL_DLL_NOT_FOUND@),
                (Some(r), Some(d)) => Ok((tcc, r@, d@)),
            }
        },
    }
}

/// The TCC choice: the project's own compiler whenever it is a file, else
/// the bundled one. The SDL2 choice depends on the project's DLL alone: the
/// project's SDL2 when its DLL is a file, the bundled headers and DLL
/// otherwise, whichever compiler was chosen. A build fails only for a piece
/// that is missing from both places.
pub proof fn law_tcc_toolchain_choice(p: TccProbe)
    ensures
        p.project_tcc_is_file ==> (spec_select_tcc_toolchain(p) matches Ok(t) ==> t.0 == p.project_tcc@),
        !p.project_tcc_is_file && p.bundled_tcc.is_some() ==> (spec_select_tcc_toolchain(p) matches Ok(t)
            ==> t.0 == p.bundled_tcc.unwrap()@),
        !p.project_tcc_is_file && p.bundled_tcc.is_none() ==> spec_select_tcc_toolchain(p) == Err::<
            (Seq<char>, Seq<char>, Seq<char>),
            _,
        >(MSG_TCC_NOT_FOUND@),
        (p.project_tcc_is_file || p.bundled_tcc.is_some()) && p.project_sdl_dll_is_file ==> spec_select_tcc_toolchain(p)
            is Ok && spec_select_tcc_toolchain(p)->Ok_0.1 == p.project_sdl_root@
            && spec_select_tcc_toolchain(p)->Ok_0.2 == p.project_sdl_dll@,
        (p.project_tcc_is_file || p.bundled_tcc.is_some()) && !p.project_sdl_dll_is_file
            && p.bundled_sdl_root.is_some() && p.bundled_sdl_dll.is_some() ==> spec_select_tcc_toolchain(p)
            is Ok && spec_select_tcc_toolchain(p)->Ok_0.1 == p.bundled_sdl_root.unwrap()@
            && spec_select_tcc_toolchain(p)->Ok_0.2 == p.bundled_sdl_dll.unwrap()@,
        (p.project_tcc_is_file || p.bundled_tcc.is_some()) && !p.project_sdl_dll_is_file
            && p.bundled_sdl_root.is_none() ==> spec_select_tcc_toolchain(p) == Err::<
            (Seq<char>, Seq<char>, Seq<char>),
            _,
        >(MSG_SDL_HEADERS_NOT_FOUND@),
        (p.project_tcc_is_file || p.bundled_tcc.is_some()) && !p.project_sdl_dll_is_file
            && p.bundled_sdl_root.is_some() && p.bundled_sdl_dll.is_none() ==> spec_select_tcc_toolchain(p)
            == Err::<(Seq<char>, Seq<char>, Seq<char>), _>(MSG_SDL_DLL_NOT_FOUND@),
{
}

/// Whether the project's own compiler is used does not change which SDL2
/// copy is chosen: two probes that differ only in the project's compiler
/// agree on the SDL2 root and DLL whenever both find a compiler.
pub proof fn law_sdl_choice_ignores_tcc(p: TccProbe, q: TccProbe)
    requires
        q.project_sdl_root == p.project_sdl_root,
        q.project_sdl_dll == p.project_sdl_dll,
        q.project_sdl_dll_is_file == p.project_sdl_dll_is_file,
        q.bundled_sdl_root == p.bundled_sdl_root,
        q.bundled_sdl_dll == p.bundled_sdl_dll,
        spec_select_tcc_toolchain(p) is Ok,
        spec_select_tcc_toolchain(q) is Ok,
    ensures
        spec_select_tcc_toolchain(p)->Ok_0.1 == spec_select_tcc_toolchain(q)->Ok_0.1,
        spec_select_tcc_toolchain(p)->Ok_0.2 == spec_select_tcc_toolchain(q)->Ok_0.2,
{
    law_tcc_toolchain_choice(p);
    law_tcc_toolchain_choice(q);
}

/// Chooses the compiler and SDL2 copy for a TCC build.
pub fn select_tcc_toolchain(probe: TccProbe) -> (res: Result<TccToolchain, String>)
    ensures
        match res {
            Ok(t) => spec_select_tcc_toolchain(probe) == Ok::<_, Seq<char>>((t.tcc@, t.sdl_root@, t.sdl_dll@)),
            Err(e) => spec_select_tcc_toolchain(probe) == Err::<(Seq<char>, Seq<char>, Seq<char>), _>(e@),
        },
{
    let TccProbe {
        project_tcc,
        project_tcc_is_file,
        project_sdl_root,
        project_sdl_dll,
        project_sdl_dll_is_file,
        bundled_tcc,
        bundled_sdl_root,
        bundled_sdl_dll,
    } = probe;
    let tcc = if project_tcc_is_file {
        project_tcc
    } else {
        match bundled_tcc {
            Some(t) => t,
            None => return Err(owned(MSG_TCC_NOT_FOUND)),
        }
    };
    if project_sdl_dll_is_file {
        return Ok(TccToolchain { tcc, sdl_root: project_sdl_root, sdl_dll: project_sdl_dll });
    }
    let sdl_root = match bundled_sdl_root {
        Some(r) => r,
        None => return Err(owned(MSG_SDL_HEADERS_NOT_FOUND)),
    };
    let sdl_dll = match bundled_sdl_dll {
        Some(d) => d,
        None => return Err(owned(MSG_SDL_DLL_NOT_FOUND)),
    };
    Ok(TccToolchain { tcc, sdl_root, sdl_dll })
}

pub const MSG_TCC_EXECUTABLE_MISSING: &'static str = "TCC executable was not found.";

pub const MSG_SDL_DLL_MISSING: &'static str = "SDL2.dll was not found.";

/// The final check that the chosen compiler and DLL are files.
pub fn check_tcc_toolchain(tcc_is_file: bool, sdl_dll_is_file: bool) -> (res: Result<(), String>)
    ensures
        !tcc_is_file ==> (res matches Err(e) && e@ == MSG_TCC_EXECUTABLE_MISSING@),
        tcc_is_file && !sdl_dll_is_file ==> (res matches Err(e) && e@ == MSG_SDL_DLL_MISSING@),
        tcc_is_file && sdl_dll_is_file ==> res is Ok,
{
    if !tcc_is_file {
        return Err(owned(MSG_TCC_EXECUTABLE_MISSING));
    }
    if !sdl_dll_is_file {
        return Err(owned(MSG_SDL_DLL_MISSING));
    }
    Ok(())
}

pub const TCC_FLAGS: &'static str = " -ozelda3.exe -DCOMPILER_TCC=1 -DSTBI_NO_SIMD=1";

pub const TCC_DEFINES: &'static str = "-DHAVE_STDINT_H=1 -D_HAVE_STDINT_H=1 -DSYSTEM_VOLUME_MIXER_AVAILABLE=0";

pub const TCC_SOURCES: &'static str = "-I. src\\*.c snes\\*.c third_party\\gl_core\\gl_core_3_1.c";

pub const TCC_OPUS: &'static str = "third_party\\opus-1.3.1-stripped\\opus_decoder_amalgam.c";

pub const TCC_BUILD_COMPLETE: &'static str = "TCC build complete.";

pub const TCC_BUILD_COMPLETE_SDL_COPIED: &'static str = "TCC build complete and SDL2.dll copied beside zelda3.exe.";

/// The single `cmd.exe` line that compiles the game with TCC; the paths are
/// quoted and the source wildcards are left for the compiler.
pub open spec fn spec_tcc_command_line(tcc: Seq<char>, sdl_include: Seq<char>, sdl_lib: Seq<char>) -> Seq<char> {
    let q = |p: Seq<char>| seq!['"'] + p + seq!['"'];
    q(tcc) + TCC_FLAGS@ + seq![' '] + TCC_DEFINES@ + seq![' '] + "-I"@ + q(sdl_include) + " -L"@
        + q(sdl_lib) + " -lSDL2"@ + seq![' '] + TCC_SOURCES@ + seq![' '] + TCC_OPUS@
}

/// `cmd /C <tcc command line>`; `sdl_include` and `sdl_lib` are the
/// `include` and `lib/x64` folders of the chosen SDL2 root.
pub fn tcc_build_command(tcc: &str, sdl_include: &str, sdl_lib: &str) -> (c: CommandSpec)
    ensures
        c@ == command_view(
            "cmd"@,
            seq!["/C"@, spec_tcc_command_line(tcc@, sdl_include@, sdl_lib@)],
            TCC_BUILD_COMPLETE@,
        ),
{
    let mut line = quote_cmd_path(tcc);
    push_str(&mut line, TCC_FLAGS);
    push_char(&mut line, ' ');
    push_str(&mut line, TCC_DEFINES);
    push_char(&mut line, ' ');
    push_str(&mut line, "-I");
    let inc = quote_cmd_path(sdl_include);
    push_str(&mut line, inc.as_str());
    push_str(&mut line, " -L");
    let lib = quote_cmd_path(sdl_lib);
    push_str(&mut line, lib.as_str());
    push_str(&mut line, " -lSDL2");
    push_char(&mut line, ' ');
    push_str(&mut line, TCC_SOURCES);
    push_char(&mut line, ' ');
    push_str(&mut line, TCC_OPUS);
    proof {
        let q = |p: Seq<char>| seq!['"'] + p + seq!['"'];
        assert(line@ =~= spec_tcc_command_line(tcc@, sdl_include@, sdl_lib@));
    }
    command("cmd", args2("/C", line.as_str()), TCC_BUILD_COMPLETE)
}

pub const PROJECT_TCC_COMMAND_LINE: &'static str = "third_party\\tcc\\tcc.exe -ozelda3.exe -DCOMPILER_TCC=1 -DSTBI_NO_SIMD=1 -DHAVE_STDINT_H=1 -D_HAVE_STDINT_H=1 -DSYSTEM_VOLUME_MIXER_AVAILABLE=0 -Ithird_party\\SDL2-2.26.3\\include -Lthird_party\\SDL2-2.26.3\\lib\\x64 -lSDL2 -I. src\\*.c snes\\*.c third_party\\gl_core\\gl_core_3_1.c third_party\\opus-1.3.1-stripped\\opus_decoder_amalgam.c";

pub const MSG_PROJECT_SDL_DLL_MISSING: &'static str = "SDL2.dll was not found under third_party\\SDL2-2.26.3\\lib\\x64.";

/// The TCC build of a project that ships its own compiler and SDL2 under
/// `third_party`, with project-relative paths: `cmd /C <fixed line>`.
pub fn project_tcc_build_command() -> (c: CommandSpec)
    ensures
        c@ == command_view("cmd"@, seq!["/C"@, PROJECT_TCC_COMMAND_LINE@], TCC_BUILD_COMPLETE@),
{
    command("cmd", args2("/C", PROJECT_TCC_COMMAND_LINE), TCC_BUILD_COMPLETE)
}

/// Records that a successful TCC build also got `SDL2.dll` copied beside
/// the executable.
pub fn note_sdl_copied(result: &mut ActionResult)
    ensures
        final(result)@ == (ActionResultView { message: TCC_BUILD_COMPLETE_SDL_COPIED@, ..old(result)@ }),
{
    result.message = owned(TCC_BUILD_COMPLETE_SDL_COPIED);
}

} // verus!
