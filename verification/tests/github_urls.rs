use z3r_launcher::github::{
    github_repo_owner_and_name, is_safe_segment, normalize_github_url, MSG_GIT_CLONE_COMMAND,
    MSG_NOT_GITHUB, MSG_NOT_OWNER_REPO, MSG_UNSAFE_OWNER, MSG_UNSAFE_REPO, MSG_URL_HAS_SPACES,
};

#[test]
fn normalize_trims_whitespace_and_trailing_slashes() {
    assert_eq!(
        normalize_github_url("  https://github.com/snesrev/zelda3//\n"),
        Ok("https://github.com/snesrev/zelda3".to_string())
    );
}

#[test]
fn normalize_keeps_a_plain_url() {
    assert_eq!(
        normalize_github_url("https://github.com/xander/Z3R"),
        Ok("https://github.com/xander/Z3R".to_string())
    );
}

#[test]
fn normalize_refuses_git_clone_commands() {
    assert_eq!(
        normalize_github_url(" git clone https://github.com/a/b"),
        Err(MSG_GIT_CLONE_COMMAND.to_string())
    );
}

#[test]
fn normalize_refuses_inner_whitespace() {
    assert_eq!(
        normalize_github_url("https://github.com/a b/c"),
        Err(MSG_URL_HAS_SPACES.to_string())
    );
    assert_eq!(
        normalize_github_url("https://github.com/a\u{3000}b/c"),
        Err(MSG_URL_HAS_SPACES.to_string())
    );
}

#[test]
fn normalize_refuses_other_hosts() {
    assert_eq!(
        normalize_github_url("http://github.com/a/b"),
        Err(MSG_NOT_GITHUB.to_string())
    );
    assert_eq!(
        normalize_github_url("https://gitlab.com/a/b"),
        Err(MSG_NOT_GITHUB.to_string())
    );
    assert_eq!(normalize_github_url(""), Err(MSG_NOT_GITHUB.to_string()));
}

#[test]
fn normalize_of_bare_host_loses_the_prefix_slash() {
    assert_eq!(
        normalize_github_url("https://github.com/"),
        Ok("https://github.com".to_string())
    );
    assert_eq!(
        normalize_github_url("https://github.com"),
        Err(MSG_NOT_GITHUB.to_string())
    );
}

#[test]
fn owner_and_name_of_plain_url() {
    assert_eq!(
        github_repo_owner_and_name("https://github.com/snesrev/zelda3"),
        Ok(("snesrev".to_string(), "zelda3".to_string()))
    );
}

#[test]
fn owner_and_name_drops_git_suffix_query_and_fragment() {
    assert_eq!(
        github_repo_owner_and_name("https://github.com/john/zelda3.git"),
        Ok(("john".to_string(), "zelda3".to_string()))
    );
    assert_eq!(
        github_repo_owner_and_name("https://github.com/john/zelda3.git.git?tab=readme#top"),
        Ok(("john".to_string(), "zelda3".to_string()))
    );
    assert_eq!(
        github_repo_owner_and_name("https://github.com/steve/zelda3#readme"),
        Ok(("steve".to_string(), "zelda3".to_string()))
    );
}

#[test]
fn owner_and_name_strips_a_repeated_prefix() {
    assert_eq!(
        github_repo_owner_and_name("https://github.com/https://github.com/a/b"),
        Ok(("a".to_string(), "b".to_string()))
    );
}

#[test]
fn owner_and_name_requires_exactly_two_segments() {
    let shape = Err(MSG_NOT_OWNER_REPO.to_string());
    assert_eq!(github_repo_owner_and_name("https://github.com/owner"), shape);
    assert_eq!(github_repo_owner_and_name("https://github.com/owner/"), shape);
    assert_eq!(github_repo_owner_and_name("https://github.com//repo"), shape);
    assert_eq!(github_repo_owner_and_name("https://github.com/a/b/tree"), shape);
    assert_eq!(github_repo_owner_and_name("https://github.com/a/.git"), shape);
}

#[test]
fn owner_and_name_refuses_unsafe_characters() {
    assert_eq!(
        github_repo_owner_and_name("https://github.com/ow$ner/repo"),
        Err(MSG_UNSAFE_OWNER.to_string())
    );
    assert_eq!(
        github_repo_owner_and_name("https://github.com/owner/re;po"),
        Err(MSG_UNSAFE_REPO.to_string())
    );
    assert_eq!(
        github_repo_owner_and_name("https://github.com/ow$ner/re;po"),
        Err(MSG_UNSAFE_OWNER.to_string())
    );
}

#[test]
fn safe_segments() {
    assert!(is_safe_segment("Zelda3_fork-v1.2"));
    assert!(is_safe_segment(""));
    assert!(!is_safe_segment("a b"));
    assert!(!is_safe_segment("a/b"));
    assert!(!is_safe_segment("é"));
}
