use z3r_launcher::actions::{
    action_result_from_output, attach_rom_copy_message, clone_project_command,
    command_output_result, create_venv_command, eq_ignore_ascii_case_exec,
    extract_assets_command, extract_assets_step, install_dependencies_command, join_stage_output,
    launch_game_result, launch_working_dir, plan_custom_clone, target_exists_error, AssetNext,
    AssetStage, LaunchProbe, WorkingDir,
};
use z3r_launcher::github::MSG_NOT_GITHUB;
use z3r_launcher::models::ActionResult;

fn result(ok: bool, message: &str, stdout: &str, stderr: &str) -> ActionResult {
    ActionResult {
        ok,
        message: message.to_string(),
        stdout: stdout.to_string(),
        stderr: stderr.to_string(),
    }
}

fn strings(items: &[&str]) -> Vec<String> {
    items.iter().map(|s| s.to_string()).collect()
}

#[test]
fn join_stage_output_cases() {
    assert_eq!(join_stage_output("", ""), "");
    assert_eq!(join_stage_output("a", ""), "a");
    assert_eq!(join_stage_output("", "b"), "b");
    assert_eq!(join_stage_output("a", "b"), "a\nb");
}

fn vs_probe(bin: &str, exe: &str, sdl: bool) -> LaunchProbe {
    LaunchProbe {
        executable_dir_has_parent: true,
        bin_dir_has_parent: true,
        bin_dir_name: Some(bin.to_string()),
        executable_name: Some(exe.to_string()),
        sdl_dll_beside_executable: sdl,
    }
}

#[test]
fn visual_studio_output_launches_from_project_root() {
    assert_eq!(launch_working_dir(true, &vs_probe("bin", "zelda3.exe", true)), WorkingDir::ProjectDir);
    assert_eq!(launch_working_dir(true, &vs_probe("BIN", "Zelda3.EXE", true)), WorkingDir::ProjectDir);
}

#[test]
fn other_executables_launch_from_their_folder() {
    assert_eq!(launch_working_dir(false, &vs_probe("bin", "zelda3.exe", true)), WorkingDir::ExecutableDir);
    assert_eq!(launch_working_dir(true, &vs_probe("bin", "zelda3.exe", false)), WorkingDir::ExecutableDir);
    assert_eq!(launch_working_dir(true, &vs_probe("out", "zelda3.exe", true)), WorkingDir::ExecutableDir);
    assert_eq!(launch_working_dir(true, &vs_probe("bin", "zelda3", true)), WorkingDir::ExecutableDir);
    let mut probe = vs_probe("bin", "zelda3.exe", true);
    probe.bin_dir_has_parent = false;
    assert_eq!(launch_working_dir(true, &probe), WorkingDir::ExecutableDir);
}

#[test]
fn ascii_case_comparison() {
    assert!(eq_ignore_ascii_case_exec("Bin", "bIN"));
    assert!(!eq_ignore_ascii_case_exec("bin", "bins"));
    assert!(!eq_ignore_ascii_case_exec("É", "é"));
}

#[test]
fn launch_result() {
    assert_eq!(launch_game_result(), result(true, "Game launched.", "", ""));
}

#[test]
fn clone_commands() {
    let c = clone_project_command("https://github.com/xander/Z3R");
    assert_eq!(c.program, "git");
    assert_eq!(c.args, strings(&["clone", "--recursive", "https://github.com/xander/Z3R", "Z3R"]));
    assert_eq!(c.success_message, "Clone complete.");
    assert_eq!(target_exists_error("/games/Z3R"), "Target folder already exists: /games/Z3R");
}

#[test]
fn custom_clone_plan_nests_owner_and_repo() {
    let plan = plan_custom_clone(" https://github.com/john/zelda3.git/ ").unwrap();
    assert_eq!(plan.url, "https://github.com/john/zelda3.git");
    assert_eq!(plan.owner, "john");
    assert_eq!(plan.repo, "zelda3");
    assert_eq!(plan.relative_target, "john/zelda3");
    assert_eq!(plan.command.program, "git");
    assert_eq!(
        plan.command.args,
        strings(&["clone", "--recursive", "https://github.com/john/zelda3.git", "john/zelda3"])
    );
    assert_eq!(plan.command.success_message, "Custom clone complete.");
    assert_eq!(
        plan_custom_clone("ftp://x/y"),
        Err(MSG_NOT_GITHUB.to_string())
    );
}

#[test]
fn rom_copy_message_on_success_only() {
    let mut r = result(true, "Clone complete.", "o", "e");
    attach_rom_copy_message(&mut r, Some("/games/Z3R/zelda3.sfc".to_string()));
    assert_eq!(r, result(true, "Clone complete. SFC copied to /games/Z3R/zelda3.sfc.", "o", "e"));
    let mut r = result(true, "Clone complete.", "", "");
    attach_rom_copy_message(&mut r, None);
    assert_eq!(r.message, "Clone complete. No uploaded SFC is available to copy yet.");
    let mut r = result(false, "git exited with status 128", "", "fatal");
    attach_rom_copy_message(&mut r, Some("x".to_string()));
    assert_eq!(r, result(false, "git exited with status 128", "", "fatal"));
}

#[test]
fn python_commands() {
    let c = create_venv_command(true);
    assert_eq!((c.program.as_str(), c.args.clone()), ("py", strings(&["-m", "venv", ".venv"])));
    assert_eq!(create_venv_command(false).program, "python3");
    assert_eq!(c.success_message, "Virtual environment created.");
    let c = install_dependencies_command("/p/.venv/bin/python");
    assert_eq!(c.program, "/p/.venv/bin/python");
    assert_eq!(c.args, strings(&["-m", "pip", "install", "-r", "requirements.txt"]));
    let c = extract_assets_command("py");
    assert_eq!(c.args, strings(&["assets/restool.py", "--extract-from-rom"]));
    assert_eq!(c.success_message, "Asset extraction complete.");
}

#[test]
fn failed_extraction_is_reported_unchanged() {
    let extract = result(false, "python exited with status 1", "out", "err");
    match extract_assets_step(AssetStage::Extract, extract.clone()) {
        AssetNext::Report(r) => assert_eq!(r, extract),
        AssetNext::RunBuild(_) => panic!("build must not run"),
    }
}

#[test]
fn successful_extraction_then_build() {
    let extract = result(true, "Asset extraction complete.", "x-out", "");
    let stage = match extract_assets_step(AssetStage::Extract, extract) {
        AssetNext::RunBuild(stage) => stage,
        AssetNext::Report(_) => panic!("build must run"),
    };
    let build = result(true, "Build complete.", "b-out", "b-err");
    match extract_assets_step(stage, build) {
        AssetNext::Report(r) => assert_eq!(
            r,
            result(true, "Asset extraction and build complete.", "x-out\nb-out", "b-err")
        ),
        AssetNext::RunBuild(_) => panic!("pipeline must stop"),
    }
}

#[test]
fn failed_build_names_the_stage() {
    let stage = AssetStage::Build { extract: result(true, "Asset extraction complete.", "", "w") };
    match extract_assets_step(stage, result(false, "make exited with status 2", "", "e")) {
        AssetNext::Report(r) => assert_eq!(
            r,
            result(
                false,
                "Build step failed after asset extraction: make exited with status 2",
                "",
                "w\ne"
            )
        ),
        AssetNext::RunBuild(_) => panic!("pipeline must stop"),
    }
}

#[test]
fn command_output_reports() {
    assert_eq!(
        action_result_from_output("make", "Build complete.", true, "exit status: 0", "o".to_string(), "".to_string()),
        result(true, "Build complete.", "o", "")
    );
    assert_eq!(
        command_output_result("git", "Clone complete.", false, "exit status: 128", b"", b"fatal: bad\xff"),
        result(false, "git exited with status exit status: 128", "", "fatal: bad\u{fffd}")
    );
}
