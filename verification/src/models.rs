//! Data exchanged between the launcher backend and its frontend.

use vstd::prelude::*;

verus! {

/// The result of scanning the launcher's parent folder.
#[derive(Clone, Debug, PartialEq, Eq)]
pub struct AppScan {
    pub launcher_parent: String,
    pub candidates: Vec<ProjectCandidate>,
}

/// A folder that looks like a Z3R project, with its readiness.
#[derive(Clone, Debug, PartialEq, Eq)]
pub struct ProjectCandidate {
    pub name: String,
    /// Set when the project was found inside a nested `{owner}/{repo}` folder.
    pub owner: Option<String>,
    pub path: String,
    pub asset_path: Option<String>,
    pub executable_path: Option<String>,
    pub status: String,
    pub notes: Vec<String>,
}

#[derive(Clone, Debug, PartialEq, Eq)]
pub struct EnvironmentReport {
    pub os: String,
    pub parent_path: String,
    pub checks: Vec<EnvironmentCheck>,
    pub next_steps: Vec<String>,
}

#[derive(Clone, Debug, PartialEq, Eq)]
pub struct EnvironmentCheck {
    pub id: String,
    pub label: String,
    pub state: String,
    pub detail: String,
}

/// The outcome of a user-triggered action, with the captured command output.
#[derive(Clone, Debug, PartialEq, Eq)]
pub struct ActionResult {
    pub ok: bool,
    pub message: String,
    pub stdout: String,
    pub stderr: String,
}

#[derive(Clone, Debug, PartialEq, Eq)]
pub struct RandomizerSetupReport {
    pub project_path: String,
    pub available: bool,
    pub item_options: Vec<RandomizerItemOption>,
    pub config_files: Vec<RandomizerConfigFile>,
}

#[derive(Clone, Debug, PartialEq, Eq)]
pub struct RandomizerItemOption {
    pub id: u8,
    pub label: String,
    pub count: usize,
    pub detail: String,
}

#[derive(Clone, Debug, PartialEq, Eq)]
pub struct RandomizerConfigFile {
    pub label: String,
    pub state: String,
    pub detail: String,
}

#[derive(Clone, Debug, PartialEq, Eq)]
pub struct RandomizerRunOptions {
    pub mode: Option<String>,
    pub seed: Option<String>,
    pub dry_run: bool,
    pub no_spoiler: bool,
    pub include_small_keys: bool,
    pub include_big_chests: bool,
    pub exclude_rooms: Option<String>,
    pub exclude_locations: Option<String>,
    pub exclude_items: Option<String>,
    pub exclude_categories: Option<String>,
}

/// The editable lines of a project's `zelda3.ini`.
#[derive(Clone, Debug, PartialEq, Eq)]
pub struct ZeldaIniSnapshot {
    pub project_path: String,
    pub aspect_ratio: AspectRatioState,
    pub keymap_lines: Vec<IniLineSnapshot>,
    pub gamepad_lines: Vec<IniLineSnapshot>,
}

/// `[General] ExtendedAspectRatio` and `[Graphics] WindowSize` as found in `zelda3.ini`.
#[derive(Clone, Debug, PartialEq, Eq)]
pub struct AspectRatioState {
    pub line_number: usize,
    pub raw_value: String,
    pub window_size_line: usize,
    pub window_size_value: String,
}

/// One editable `zelda3.ini` line; `line_number` is 1-based.
#[derive(Clone, Debug, PartialEq, Eq)]
pub struct IniLineSnapshot {
    pub line_number: usize,
    pub section: String,
    pub key: String,
    pub value: String,
    pub commented: bool,
    pub raw: String,
}

/// The mathematical content of an `ActionResult`.
pub struct ActionResultView {
    pub ok: bool,
    pub message: Seq<char>,
    pub stdout: Seq<char>,
    pub stderr: Seq<char>,
}

impl View for ActionResult {
    type V = ActionResultView;

    open spec fn view(&self) -> ActionResultView {
        ActionResultView {
            ok: self.ok,
            message: self.message@,
            stdout: self.stdout@,
            stderr: self.stderr@,
        }
    }
}

/// The views of an optional string.
pub open spec fn opt_view(o: Option<String>) -> Option<Seq<char>> {
    match o {
        Some(s) => Some(s@),
        None => None,
    }
}

/// The mathematical content of a `ProjectCandidate`.
pub struct ProjectCandidateView {
    pub name: Seq<char>,
    pub owner: Option<Seq<char>>,
    pub path: Seq<char>,
    pub asset_path: Option<Seq<char>>,
    pub executable_path: Option<Seq<char>>,
    pub status: Seq<char>,
    pub notes: Seq<Seq<char>>,
}

impl View for ProjectCandidate {
    type V = ProjectCandidateView;

    open spec fn view(&self) -> ProjectCandidateView {
        ProjectCandidateView {
            name: self.name@,
            owner: opt_view(self.owner),
            path: self.path@,
            asset_path: opt_view(self.asset_path),
            executable_path: opt_view(self.executable_path),
            status: self.status@,
            notes: self.notes.deep_view(),
        }
    }
}

/// A path together with whether it names an existing file.
#[derive(Clone, Debug, PartialEq, Eq)]
pub struct PathProbe {
    pub path: String,
    pub is_file: bool,
}

} // verus!
