use z3r_launcher::discovery::{
    app_scan, asset_candidate_segments, executable_candidate_segments, find_asset,
    find_executable, inspect_candidate, name_less, owner_folder_name, sort_candidates,
    CandidateProbe,
};
use z3r_launcher::models::{PathProbe, ProjectCandidate};

fn probe(asset: Option<&str>, exe: Option<&str>, source: bool, beside: bool) -> CandidateProbe {
    CandidateProbe {
        name: "zelda3".to_string(),
        path: "/games/zelda3".to_string(),
        asset_path: asset.map(|s| s.to_string()),
        executable_path: exe.map(|s| s.to_string()),
        has_source: source,
        asset_beside_executable: beside,
    }
}

fn candidate(name: &str, owner: Option<&str>) -> ProjectCandidate {
    ProjectCandidate {
        name: name.to_string(),
        owner: owner.map(|s| s.to_string()),
        path: format!("/games/{name}"),
        asset_path: None,
        executable_path: None,
        status: "source-only".to_string(),
        notes: Vec::new(),
    }
}

#[test]
fn statuses() {
    let ready = inspect_candidate(probe(Some("a"), Some("e"), false, true), None).unwrap();
    assert_eq!(ready.status, "ready");
    assert!(ready.notes.is_empty());
    let deploy = inspect_candidate(probe(Some("a"), Some("e"), false, false), Some("john".to_string())).unwrap();
    assert_eq!(deploy.status, "needs-deploy-copy");
    assert_eq!(deploy.owner, Some("john".to_string()));
    assert_eq!(deploy.notes, vec!["Executable and zelda3_assets.dat are not beside each other; use a deploy build or copy assets beside the executable.".to_string()]);
    assert_eq!(inspect_candidate(probe(Some("a"), None, true, false), None).unwrap().status, "assets-ready");
    assert_eq!(inspect_candidate(probe(None, Some("e"), false, false), None).unwrap().status, "missing-assets");
    let source = inspect_candidate(probe(None, None, true, false), None).unwrap();
    assert_eq!(source.status, "source-only");
    assert_eq!(source.name, "zelda3");
    assert_eq!(source.path, "/games/zelda3");
    assert_eq!(source.asset_path, None);
    assert!(inspect_candidate(probe(None, None, false, true), None).is_none());
}

#[test]
fn first_existing_file_wins() {
    let probes = vec![
        PathProbe { path: "a".to_string(), is_file: false },
        PathProbe { path: "b".to_string(), is_file: true },
        PathProbe { path: "c".to_string(), is_file: true },
    ];
    assert_eq!(find_asset(&probes), Some("b".to_string()));
    assert_eq!(find_executable(&probes[..1].to_vec()), None);
    assert_eq!(find_executable(&Vec::new()), None);
}

#[test]
fn candidate_locations() {
    let assets = asset_candidate_segments();
    assert_eq!(assets.len(), 4);
    assert_eq!(assets[0], vec!["zelda3_assets.dat".to_string()]);
    assert_eq!(assets[3], vec!["bin".to_string(), "Win32-ReleaseDeploy".to_string(), "zelda3_assets.dat".to_string()]);
    let exes = executable_candidate_segments(true);
    assert_eq!(exes.len(), 5);
    assert_eq!(exes[0], vec!["zelda3.exe".to_string()]);
    assert_eq!(exes[1], vec!["bin".to_string(), "x64-Release".to_string(), "zelda3.exe".to_string()]);
    assert_eq!(executable_candidate_segments(false)[4][2], "zelda3");
}

#[test]
fn dot_folders_are_not_owners() {
    assert_eq!(owner_folder_name(Some(".git".to_string())), None);
    assert_eq!(owner_folder_name(Some("john".to_string())), Some("john".to_string()));
    assert_eq!(owner_folder_name(None), None);
}

#[test]
fn name_order_matches_string_order() {
    let words = ["", "a", "Z3R", "Zelda", "zelda", "zelda3", "é", "ab", "aa"];
    for a in words {
        for b in words {
            assert_eq!(name_less(a, b), a < b, "{a} < {b}");
        }
    }
}

#[test]
fn sort_is_by_name_and_stable() {
    let input = vec![
        candidate("zelda3", Some("steve")),
        candidate("Z3R", None),
        candidate("alttp", None),
        candidate("zelda3", Some("john")),
    ];
    let sorted = sort_candidates(input);
    let names: Vec<(&str, Option<&str>)> =
        sorted.iter().map(|c| (c.name.as_str(), c.owner.as_deref())).collect();
    assert_eq!(
        names,
        vec![("Z3R", None), ("alttp", None), ("zelda3", Some("steve")), ("zelda3", Some("john"))]
    );
}

#[test]
fn scan_result_is_sorted() {
    let scan = app_scan("/games".to_string(), vec![candidate("b", None), candidate("a", None)]);
    assert_eq!(scan.launcher_parent, "/games");
    assert_eq!(scan.candidates[0].name, "a");
    assert_eq!(scan.candidates[1].name, "b");
}
