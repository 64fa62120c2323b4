use z3r_launcher::command_env::{
    is_flatpak_runtime, macos_search_paths, push_unique_path, resolve_program, SearchPath,
};
use z3r_launcher::makefile_patches::{has_snesrev_makefile_patch, makefile_patch_result, project_missing_error};
use z3r_launcher::models::PathProbe;
use z3r_launcher::webview::{configure_linux_webview_runtime, EnvChange};

fn sp(text: &str, components: &[&str]) -> SearchPath {
    SearchPath { text: text.to_string(), components: components.iter().map(|s| s.to_string()).collect() }
}

#[test]
fn flatpak_only_on_linux() {
    assert!(is_flatpak_runtime(true, true));
    assert!(!is_flatpak_runtime(true, false));
    assert!(!is_flatpak_runtime(false, true));
}

#[test]
fn push_unique_compares_components() {
    let mut paths = vec![sp("/usr/bin", &["/", "usr", "bin"])];
    push_unique_path(&mut paths, sp("/usr/bin/", &["/", "usr", "bin"]));
    assert_eq!(paths.len(), 1);
    push_unique_path(&mut paths, sp("/usr/sbin", &["/", "usr", "sbin"]));
    push_unique_path(&mut paths, sp("/usr/sbin", &["/", "usr", "sbin"]));
    assert_eq!(paths.len(), 2);
    assert_eq!(paths[1].text, "/usr/sbin");
}

#[test]
fn macos_paths_put_package_managers_first() {
    let inherited = vec![
        sp("/usr/bin", &["/", "usr", "bin"]),
        sp("/Users/me/bin", &["/", "Users", "me", "bin"]),
        sp("/Users/me/bin", &["/", "Users", "me", "bin"]),
    ];
    let paths = macos_search_paths(inherited);
    let texts: Vec<&str> = paths.iter().map(|p| p.text.as_str()).collect();
    assert_eq!(
        texts,
        vec![
            "/opt/homebrew/bin",
            "/opt/homebrew/opt/sdl2/bin",
            "/usr/local/bin",
            "/usr/local/opt/sdl2/bin",
            "/opt/local/bin",
            "/usr/bin",
            "/bin",
            "/usr/sbin",
            "/sbin",
            "/Users/me/bin",
        ]
    );
    assert_eq!(paths[1].components, vec!["/", "opt", "homebrew", "opt", "sdl2", "bin"]);
}

#[test]
fn program_resolution() {
    let candidates = vec![
        PathProbe { path: "/opt/homebrew/bin/make".to_string(), is_file: false },
        PathProbe { path: "/usr/bin/make".to_string(), is_file: true },
    ];
    assert_eq!(resolve_program(true, "make", &candidates), "/usr/bin/make");
    assert_eq!(resolve_program(false, "make", &candidates), "make");
    assert_eq!(resolve_program(true, "./make", &candidates), "./make");
    assert_eq!(resolve_program(true, "C:\\make", &candidates), "C:\\make");
    assert_eq!(resolve_program(true, "make", &Vec::new()), "make");
}

#[test]
fn webview_environment() {
    let changes = configure_linux_webview_runtime(true);
    assert_eq!(
        changes,
        vec![
            EnvChange::Assign { name: "GIO_USE_VFS".to_string(), value: "local".to_string() },
            EnvChange::Assign { name: "GIO_MODULE_DIR".to_string(), value: "/nonexistent".to_string() },
            EnvChange::Remove { name: "GIO_EXTRA_MODULES".to_string() },
            EnvChange::Assign { name: "WEBKIT_DISABLE_DMABUF_RENDERER".to_string(), value: "1".to_string() },
        ]
    );
    assert!(configure_linux_webview_runtime(false).is_empty());
}

#[test]
fn makefile_patch_reports() {
    assert_eq!(project_missing_error("/p"), "Project folder does not exist: /p");
    let r = makefile_patch_result("/p/Makefile");
    assert!(r.ok);
    assert_eq!(r.message, "Patched Makefile installed at /p/Makefile.");
    assert_eq!((r.stdout.as_str(), r.stderr.as_str()), ("", ""));
    assert!(has_snesrev_makefile_patch(Some("all:\n".to_string()), "all:\n"));
    assert!(!has_snesrev_makefile_patch(Some("all:".to_string()), "all:\n"));
    assert!(!has_snesrev_makefile_patch(None, ""));
}
