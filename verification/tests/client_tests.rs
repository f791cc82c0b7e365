use gitlobster::client::{
    classify_status, description_with, drop_empty_repos, format_http_auth, initial_query,
    make_project_description, next_query, page_limit, page_step, parse_link_header,
    plan_publish, project_endpoint, group_endpoint, project_update_endpoint,
    projects_list_endpoint, to_absence, PageDecision, PublishStep, StatusClass,
};
use gitlobster::errors::MirrorError;
use gitlobster::types::Project;

fn project(path: &str, empty_repo: bool) -> Project {
    Project {
        id: 7,
        description: None,
        empty_repo,
        ssh_url_to_repo: String::new(),
        http_url_to_repo: String::new(),
        name: path.to_string(),
        name_with_namespace: path.to_string(),
        path: path.to_string(),
        path_with_namespace: path.to_string(),
    }
}

#[test]
fn status_classes() {
    assert!(matches!(classify_status(200), StatusClass::Success));
    assert!(matches!(classify_status(204), StatusClass::Success));
    assert!(matches!(classify_status(299), StatusClass::Success));
    assert!(matches!(classify_status(404), StatusClass::NotFound));
    assert!(matches!(classify_status(301), StatusClass::Failure));
    assert!(matches!(classify_status(500), StatusClass::Failure));
}

#[test]
fn absence_translation() {
    let found: Result<u32, MirrorError> = Ok(5);
    assert_eq!(to_absence(found).unwrap(), Some(5));
    let missing: Result<u32, MirrorError> = Err(MirrorError::Api { status: 404 });
    assert_eq!(to_absence(missing).unwrap(), None);
    let broken: Result<u32, MirrorError> = Err(MirrorError::Api { status: 500 });
    assert!(matches!(
        to_absence(broken),
        Err(MirrorError::Api { status: 500 })
    ));
}

#[test]
fn link_header_extracts_target() {
    let link = "<https://gitlab.example.com/api/v4/projects?per_page=50&order_by=id&sort=asc>; rel=\"next\"";
    let r = parse_link_header(link, 0).unwrap();
    assert_eq!(
        r,
        "https://gitlab.example.com/api/v4/projects?per_page=50&order_by=id&sort=asc"
    );
}

#[test]
fn link_header_positions_and_shapes() {
    let link = "<https://host/api/v4/x?page=2>; rel=\"prev\", <https://host/api/v4/x?page=4>";
    // the second `;`-separated piece begins after the first rel marker
    let r = parse_link_header(link, 1).unwrap();
    assert_eq!(r, "rel=\"prev\", <https://host/api/v4/x?page=4");
    assert!(parse_link_header("<short>", 5).is_none());
    assert!(parse_link_header("tiny", 0).is_none());
}

#[test]
fn next_query_takes_text_after_question_mark() {
    assert_eq!(
        next_query("https://host/api/v4/projects?page=2&per_page=50"),
        "page=2&per_page=50"
    );
    assert_eq!(next_query("no-query-here"), "no-query-here");
}

#[test]
fn initial_query_formula() {
    assert_eq!(
        initial_query(100, false, false, false, false),
        "order_by=id&sort=asc&per_page=100"
    );
    assert_eq!(
        initial_query(50, true, true, true, true),
        "order_by=id&sort=asc&per_page=50&owned=true&only_membership=true&include_subgroups=true&archived=false"
    );
    assert_eq!(
        initial_query(1, false, true, false, false),
        "order_by=id&sort=asc&per_page=1&only_membership=true"
    );
}

#[test]
fn pagination_accumulates_every_page() {
    // The inventory spans three pages; the total kept is N minus the
    // projects with an empty repository, however the pages cut it.
    let mut acc: Vec<Project> = Vec::new();
    let page1 = vec![project("a", false), project("b", true)];
    let page2 = vec![project("c", false), project("d", false)];
    let page3 = vec![project("e", true)];

    let d1 = page_step(
        &mut acc,
        page1,
        &Some("2".to_string()),
        &Some("<https://host/api/v4/projects?page=2>; rel=\"next\"".to_string()),
        true,
    )
    .unwrap();
    match d1 {
        PageDecision::Continue(q) => assert_eq!(q, "page=2"),
        PageDecision::Done => panic!("expected continuation"),
    }

    let d2 = page_step(
        &mut acc,
        page2,
        &Some("3".to_string()),
        &Some(
            "<https://host/api/v4/projects?page=1>; rel=\"prev\", <https://host/api/v4/projects?page=3>; rel=\"next\"".to_string(),
        ),
        false,
    )
    .unwrap();
    match d2 {
        PageDecision::Continue(q) => assert_eq!(q, "page=3"),
        PageDecision::Done => panic!("expected continuation"),
    }

    let d3 = page_step(&mut acc, page3, &Some(String::new()), &None, false).unwrap();
    assert!(matches!(d3, PageDecision::Done));

    assert_eq!(acc.len(), 5);
    let kept = drop_empty_repos(acc);
    assert_eq!(kept.len(), 3);
    let names: Vec<String> = kept.iter().map(|p| p.path.clone()).collect();
    assert_eq!(names, vec!["a".to_string(), "c".to_string(), "d".to_string()]);
}

#[test]
fn pagination_stops_without_next_page_header() {
    let mut acc: Vec<Project> = Vec::new();
    let d = page_step(&mut acc, vec![project("a", false)], &None, &None, true).unwrap();
    assert!(matches!(d, PageDecision::Done));
    assert_eq!(acc.len(), 1);
}

#[test]
fn pagination_rejects_malformed_link() {
    let mut acc: Vec<Project> = Vec::new();
    let r = page_step(
        &mut acc,
        vec![project("a", false)],
        &Some("2".to_string()),
        &Some("bad".to_string()),
        true,
    );
    assert!(matches!(r, Err(MirrorError::InvalidLinkHeader)));
    // the page was still accumulated before the failure surfaced
    assert_eq!(acc.len(), 1);
}

#[test]
fn descriptions_carry_the_stamp() {
    let desc = Some("upstream text".to_string());
    assert_eq!(
        description_with(false, &desc, "2024-05-06T07:08:09+00:00"),
        "upstream text \u{1f99e} Synced: 2024-05-06T07:08:09+00:00"
    );
    assert_eq!(description_with(true, &desc, "ignored"), "upstream text");
    assert_eq!(description_with(false, &None, "T"), " \u{1f99e} Synced: T");
    assert_eq!(description_with(true, &None, "T"), "");
}

#[test]
fn live_description_ends_with_a_timestamp() {
    let desc = Some("d".to_string());
    let with = make_project_description(false, &desc);
    assert!(with.starts_with("d \u{1f99e} Synced: "));
    assert!(with.len() > "d \u{1f99e} Synced: ".len());
    assert_eq!(make_project_description(true, &desc), "d");
}

#[test]
fn publish_updates_an_existing_record() {
    let target = project("api", false);
    let r = plan_publish(Some(target), "api", Some(7), "mirrors/team/api").unwrap();
    match r {
        PublishStep::UpdateExisting(p) => assert_eq!(p.path, "api"),
        PublishStep::CreateNew { .. } => panic!("expected an update"),
    }
}

#[test]
fn publish_creates_a_missing_record_under_the_parent() {
    let r = plan_publish(None, "api", Some(7), "mirrors/team/api").unwrap();
    match r {
        PublishStep::CreateNew { slug, parent_id } => {
            assert_eq!(slug, "api");
            assert_eq!(parent_id, 7);
        },
        PublishStep::UpdateExisting(_) => panic!("expected a creation"),
    }
}

#[test]
fn publish_without_a_parent_is_a_resolution_failure() {
    let r = plan_publish(None, "api", None, "team/api");
    match r {
        Err(MirrorError::NamespaceResolution { path }) => assert_eq!(path, "team/api"),
        other => panic!("expected a resolution failure, got {other:?}"),
    }
}

#[test]
fn http_auth_pair() {
    assert_eq!(format_http_auth("user", "tok"), "user:tok");
}

#[test]
fn endpoints_percent_encode_the_path() {
    assert_eq!(project_endpoint("team/api"), "projects/team%2Fapi");
    assert_eq!(group_endpoint("team/tools"), "groups/team%2Ftools");
    assert_eq!(project_endpoint("plain"), "projects/plain");
}

#[test]
fn update_endpoint_uses_the_id() {
    assert_eq!(project_update_endpoint(42), "projects/42");
    assert_eq!(project_update_endpoint(0), "projects/0");
    assert_eq!(project_update_endpoint(4294967295), "projects/4294967295");
}

#[test]
fn listing_endpoint_by_scope() {
    assert_eq!(projects_list_endpoint(&None), "projects");
    assert_eq!(
        projects_list_endpoint(&Some("team".to_string())),
        "groups/team/projects"
    );
}

#[test]
fn page_limit_defaults_to_one_hundred() {
    assert_eq!(page_limit(None), 100);
    assert_eq!(page_limit(Some(25)), 25);
}
