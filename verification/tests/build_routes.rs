use z3r_launcher::asset_builds::{
    build_executable, check_tcc_toolchain, make_command, note_sdl_copied, quote_cmd_path,
    run_visual_studio_build, select_tcc_toolchain, tcc_build_command, BuildRoute, BuildStep,
    TccProbe, MSG_MSBUILD_NOT_FOUND, MSG_SDL_DLL_MISSING, MSG_SDL_DLL_NOT_FOUND,
    MSG_SDL_HEADERS_NOT_FOUND, MSG_TCC_EXECUTABLE_MISSING, MSG_TCC_NOT_FOUND,
};
use z3r_launcher::models::ActionResult;

#[test]
fn build_routes() {
    assert_eq!(build_executable(false, BuildRoute::Tcc, true), BuildStep::Make);
    assert_eq!(build_executable(true, BuildRoute::Tcc, false), BuildStep::Tcc);
    assert_eq!(build_executable(true, BuildRoute::VisualStudio, true), BuildStep::VisualStudio);
    assert_eq!(build_executable(true, BuildRoute::Automatic, true), BuildStep::Tcc);
    assert_eq!(build_executable(true, BuildRoute::Automatic, false), BuildStep::VisualStudio);
}

#[test]
fn make_job_argument() {
    assert_eq!(make_command(Some(8)).args, vec!["-j8".to_string()]);
    assert_eq!(make_command(Some(1234567)).args, vec!["-j1234567".to_string()]);
    assert_eq!(make_command(Some(10)).args, vec!["-j10".to_string()]);
    assert_eq!(make_command(None).args, vec!["-j2".to_string()]);
    let c = make_command(Some(usize::MAX));
    assert_eq!(c.args, vec![format!("-j{}", usize::MAX)]);
    assert_eq!(c.program, "make");
    assert_eq!(c.success_message, "Build complete.");
}

#[test]
fn visual_studio_command() {
    let c = run_visual_studio_build(Some("C:\\BuildTools\\MSBuild.exe".to_string())).unwrap();
    assert_eq!(c.program, "C:\\BuildTools\\MSBuild.exe");
    assert_eq!(
        c.args,
        vec!["Zelda3.sln".to_string(), "/p:Configuration=Release".to_string(), "/p:Platform=x64".to_string()]
    );
    assert_eq!(c.success_message, "Visual Studio build complete.");
    assert_eq!(run_visual_studio_build(None), Err(MSG_MSBUILD_NOT_FOUND.to_string()));
}

#[test]
fn quoting() {
    assert_eq!(quote_cmd_path("C:\\Program Files\\tcc.exe"), "\"C:\\Program Files\\tcc.exe\"");
}

fn tcc_probe() -> TccProbe {
    TccProbe {
        project_tcc: "P\\tcc.exe".to_string(),
        project_tcc_is_file: false,
        project_sdl_root: "P\\SDL2".to_string(),
        project_sdl_dll: "P\\SDL2.dll".to_string(),
        project_sdl_dll_is_file: false,
        bundled_tcc: Some("B\\tcc.exe".to_string()),
        bundled_sdl_root: Some("B\\SDL2".to_string()),
        bundled_sdl_dll: Some("B\\SDL2.dll".to_string()),
    }
}

#[test]
fn tcc_prefers_project_tools() {
    let mut p = tcc_probe();
    p.project_tcc_is_file = true;
    p.project_sdl_dll_is_file = true;
    let t = select_tcc_toolchain(p).unwrap();
    assert_eq!((t.tcc.as_str(), t.sdl_root.as_str(), t.sdl_dll.as_str()), ("P\\tcc.exe", "P\\SDL2", "P\\SDL2.dll"));
    let t = select_tcc_toolchain(tcc_probe()).unwrap();
    assert_eq!((t.tcc.as_str(), t.sdl_root.as_str(), t.sdl_dll.as_str()), ("B\\tcc.exe", "B\\SDL2", "B\\SDL2.dll"));
}

#[test]
fn tcc_missing_tools() {
    let mut p = tcc_probe();
    p.bundled_tcc = None;
    p.bundled_sdl_root = None;
    assert_eq!(select_tcc_toolchain(p), Err(MSG_TCC_NOT_FOUND.to_string()));
    let mut p = tcc_probe();
    p.bundled_sdl_root = None;
    assert_eq!(select_tcc_toolchain(p), Err(MSG_SDL_HEADERS_NOT_FOUND.to_string()));
    let mut p = tcc_probe();
    p.bundled_sdl_dll = None;
    assert_eq!(select_tcc_toolchain(p), Err(MSG_SDL_DLL_NOT_FOUND.to_string()));
    assert_eq!(check_tcc_toolchain(false, false), Err(MSG_TCC_EXECUTABLE_MISSING.to_string()));
    assert_eq!(check_tcc_toolchain(true, false), Err(MSG_SDL_DLL_MISSING.to_string()));
    assert_eq!(check_tcc_toolchain(true, true), Ok(()));
}

#[test]
fn tcc_command_line() {
    let c = tcc_build_command("C:\\t\\tcc.exe", "C:\\s\\include", "C:\\s\\lib\\x64");
    assert_eq!(c.program, "cmd");
    assert_eq!(c.args.len(), 2);
    assert_eq!(c.args[0], "/C");
    let expected = [
        "\"C:\\t\\tcc.exe\" -ozelda3.exe -DCOMPILER_TCC=1 -DSTBI_NO_SIMD=1",
        "-DHAVE_STDINT_H=1 -D_HAVE_STDINT_H=1 -DSYSTEM_VOLUME_MIXER_AVAILABLE=0",
        "-I\"C:\\s\\include\" -L\"C:\\s\\lib\\x64\" -lSDL2",
        "-I. src\\*.c snes\\*.c third_party\\gl_core\\gl_core_3_1.c",
        "third_party\\opus-1.3.1-stripped\\opus_decoder_amalgam.c",
    ]
    .join(" ");
    assert_eq!(c.args[1], expected);
    assert_eq!(c.success_message, "TCC build complete.");
}

#[test]
fn sdl_copy_message() {
    let mut r = ActionResult { ok: true, message: "TCC build complete.".to_string(), stdout: "o".to_string(), stderr: String::new() };
    note_sdl_copied(&mut r);
    assert_eq!(r.message, "TCC build complete and SDL2.dll copied beside zelda3.exe.");
    assert_eq!(r.stdout, "o");
}

#[test]
fn project_tcc_command_line() {
    let c = z3r_launcher::asset_builds::project_tcc_build_command();
    assert_eq!(c.program, "cmd");
    let expected = [
        "third_party\\tcc\\tcc.exe -ozelda3.exe -DCOMPILER_TCC=1 -DSTBI_NO_SIMD=1",
        "-DHAVE_STDINT_H=1 -D_HAVE_STDINT_H=1 -DSYSTEM_VOLUME_MIXER_AVAILABLE=0",
        "-Ithird_party\\SDL2-2.26.3\\include -Lthird_party\\SDL2-2.26.3\\lib\\x64 -lSDL2",
        "-I. src\\*.c snes\\*.c third_party\\gl_core\\gl_core_3_1.c",
        "third_party\\opus-1.3.1-stripped\\opus_decoder_amalgam.c",
    ]
    .join(" ");
    assert_eq!(c.args, vec!["/C".to_string(), expected]);
    assert_eq!(c.success_message, "TCC build complete.");
}
