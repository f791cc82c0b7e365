use gitlobster::config::build_filter_patterns;
use gitlobster::errors::MirrorError;
use gitlobster::pattern::{filter_projects, FilterPatterns};
use gitlobster::types::Project;

fn project(path_with_namespace: &str) -> Project {
    Project {
        id: 1,
        description: None,
        empty_repo: false,
        ssh_url_to_repo: format!("git@gitlab.local:{path_with_namespace}.git"),
        http_url_to_repo: format!("https://gitlab.local/{path_with_namespace}.git"),
        name: path_with_namespace.to_string(),
        name_with_namespace: path_with_namespace.to_string(),
        path: path_with_namespace.rsplit('/').next().unwrap().to_string(),
        path_with_namespace: path_with_namespace.to_string(),
    }
}

fn paths(projects: &[Project]) -> Vec<String> {
    projects.iter().map(|p| p.path_with_namespace.clone()).collect()
}

#[test]
fn conflicting_filters_rejected() {
    let r = build_filter_patterns(
        Some(vec!["^a$".to_string()]),
        Some(vec!["^b$".to_string()]),
    );
    assert!(matches!(r, Err(MirrorError::ConflictingFilter)));
}

#[test]
fn single_filter_accepted() {
    let r = build_filter_patterns(Some(vec!["^a$".to_string()]), None).unwrap();
    assert!(matches!(r, Some(FilterPatterns::Include(_))));
    let r = build_filter_patterns(None, Some(vec!["^a$".to_string()])).unwrap();
    assert!(matches!(r, Some(FilterPatterns::Exclude(_))));
    let r = build_filter_patterns(None, None).unwrap();
    assert!(r.is_none());
}

#[test]
fn invalid_pattern_reported() {
    let projects = vec![project("team/api")];
    let patterns = FilterPatterns::Include(vec!["[".to_string()]);
    let r = filter_projects(projects, &patterns, None);
    match r {
        Err(MirrorError::InvalidPattern { pattern }) => assert_eq!(pattern, "["),
        other => panic!("expected InvalidPattern, got {other:?}"),
    }
}

#[test]
fn include_keeps_only_matching() {
    let projects = vec![project("team/api"), project("team/tools/cli"), project("other/x")];
    let patterns = FilterPatterns::Include(vec!["^team/api$".to_string()]);
    let kept = filter_projects(projects, &patterns, None).unwrap();
    assert_eq!(paths(&kept), vec!["team/api".to_string()]);
}

#[test]
fn exclude_keeps_complement() {
    let projects = vec![project("team/api"), project("team/tools/cli"), project("other/x")];
    let patterns = FilterPatterns::Exclude(vec!["^team/api$".to_string()]);
    let kept = filter_projects(projects, &patterns, None).unwrap();
    assert_eq!(
        paths(&kept),
        vec!["team/tools/cli".to_string(), "other/x".to_string()]
    );
}

#[test]
fn include_matches_any_pattern() {
    let projects = vec![project("team/api"), project("team/tools/cli"), project("other/x")];
    let patterns =
        FilterPatterns::Include(vec!["^other/".to_string(), "cli$".to_string()]);
    let kept = filter_projects(projects, &patterns, None).unwrap();
    assert_eq!(
        paths(&kept),
        vec!["team/tools/cli".to_string(), "other/x".to_string()]
    );
}

#[test]
fn limit_truncates_to_first_items_in_order() {
    let projects = vec![project("a/one"), project("a/two"), project("a/three")];
    let patterns = FilterPatterns::Include(vec!["^a/".to_string()]);
    let kept = filter_projects(projects, &patterns, Some(2)).unwrap();
    assert_eq!(paths(&kept), vec!["a/one".to_string(), "a/two".to_string()]);
}

#[test]
fn limit_above_count_is_a_no_op() {
    let projects = vec![project("a/one"), project("a/two")];
    let patterns = FilterPatterns::Include(vec!["^a/".to_string()]);
    let kept = filter_projects(projects, &patterns, Some(10)).unwrap();
    assert_eq!(paths(&kept), vec!["a/one".to_string(), "a/two".to_string()]);
}

#[test]
fn limit_equal_to_count_keeps_everything() {
    let projects = vec![project("a/one"), project("a/two")];
    let patterns = FilterPatterns::Include(vec!["^a/".to_string()]);
    let kept = filter_projects(projects, &patterns, Some(2)).unwrap();
    assert_eq!(paths(&kept), vec!["a/one".to_string(), "a/two".to_string()]);
}

#[test]
fn exclude_with_no_match_keeps_all() {
    let projects = vec![project("team/api"), project("team/tools/cli")];
    let patterns = FilterPatterns::Exclude(vec!["^nothing$".to_string()]);
    let kept = filter_projects(projects, &patterns, None).unwrap();
    assert_eq!(
        paths(&kept),
        vec!["team/api".to_string(), "team/tools/cli".to_string()]
    );
}
