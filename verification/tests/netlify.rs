use rubicon::netlify::{
    deploy_block, deploys_output, fetch_failure_report, find_site, no_site_message, site_lines,
    sites_query,
};
use rubicon::{Deploy, Site};
use colored::Colorize;

fn site(id: Option<&str>, name: Option<&str>) -> Site {
    Site { id: id.map(|s| s.to_string()), name: name.map(|s| s.to_string()) }
}

fn deploy(
    build_id: Option<&str>,
    branch: Option<&str>,
    state: &str,
    commit_ref: Option<&str>,
    commit_url: Option<&str>,
    created_at: &str,
) -> Deploy {
    Deploy {
        build_id: build_id.map(|s| s.to_string()),
        branch: branch.map(|s| s.to_string()),
        state: Some(state.to_string()),
        commit_ref: commit_ref.map(|s| s.to_string()),
        commit_url: commit_url.map(|s| s.to_string()),
        created_at: Some(created_at.to_string()),
    }
}

#[test]
fn one_line_per_site_in_order() {
    let sites = vec![site(Some("s1"), Some("alpha")), site(Some("s2"), Some("beta"))];
    let lines = site_lines(&sites);
    assert_eq!(lines, vec!["alpha".to_string(), "beta".to_string()]);
}

#[test]
fn filtered_listing_prints_the_one_site() {
    // With a name filter the server returns only the matching site.
    let sites = vec![site(Some("s1"), Some("alpha"))];
    let lines = site_lines(&sites);
    assert_eq!(lines, vec!["alpha".to_string()]);
}

#[test]
fn no_sites_no_lines() {
    let lines = site_lines(&Vec::new());
    assert!(lines.is_empty());
}

#[test]
fn find_site_picks_first_match() {
    let sites = vec![
        site(Some("s1"), Some("alpha")),
        site(Some("s2"), Some("beta")),
        site(Some("s3"), Some("beta")),
    ];
    assert_eq!(find_site(&sites, &Some("beta".to_string())), Some(1));
}

#[test]
fn find_site_misses_unknown_target() {
    let sites = vec![site(Some("s1"), Some("alpha"))];
    assert_eq!(find_site(&sites, &Some("gamma".to_string())), None);
}

#[test]
fn find_site_matches_absent_names_to_absent_target() {
    let sites = vec![site(Some("s1"), Some("alpha")), site(Some("s2"), None)];
    assert_eq!(find_site(&sites, &None), Some(1));
}

#[test]
fn deploy_block_renders_all_fields() {
    colored::control::set_override(false);
    let d = deploy(
        Some("b1"),
        Some("main"),
        "ready",
        Some("abc123"),
        Some("https://example.com/c/abc123"),
        "2021-01-01T00:00:00Z",
    );
    let lines = deploy_block(&d);
    assert_eq!(
        lines,
        vec![
            "[Build ID: b1] branch main - ready".to_string(),
            "|- Commit Ref: abc123".to_string(),
            "|- Commit URL: https://example.com/c/abc123".to_string(),
            "|- Created: 2021-01-01T00:00:00Z".to_string(),
            "|- Updated: 2021-01-01T00:00:00Z".to_string(),
            "|- Published: 2021-01-01T00:00:00Z".to_string(),
            "".to_string(),
        ]
    );
}

#[test]
fn absent_fields_render_as_unknown() {
    colored::control::set_override(false);
    let d = deploy(None, None, "ready", None, None, "2021-01-01T00:00:00Z");
    let lines = deploy_block(&d);
    assert_eq!(lines[0], "[Build ID: unknown] branch unknown - ready");
    assert_eq!(lines[1], "|- Commit Ref: unknown");
    assert_eq!(lines[2], "|- Commit URL: unknown");
}

#[test]
fn at_most_five_blocks() {
    colored::control::set_override(false);
    let deploys: Vec<Deploy> = (0..9)
        .map(|i| {
            deploy(
                Some(&format!("b{}", i)),
                Some("main"),
                "ready",
                None,
                None,
                "2021-01-01T00:00:00Z",
            )
        })
        .collect();
    let out = deploys_output(&"alpha".to_string(), &deploys);
    assert_eq!(out.len(), 1 + 7 * 5);
    assert_eq!(out[0], "Deploys for alpha:");
    assert_eq!(out[1], "[Build ID: b0] branch main - ready");
    assert_eq!(out[1 + 7 * 4], "[Build ID: b4] branch main - ready");
}

#[test]
fn five_deploys_render_five_blocks_with_header() {
    colored::control::set_override(false);
    let deploys: Vec<Deploy> = (0..5)
        .map(|i| {
            deploy(Some(&format!("b{}", i)), None, "ready", None, None, "2021-01-01T00:00:00Z")
        })
        .collect();
    let out = deploys_output(&"alpha".to_string(), &deploys);
    assert_eq!(out.len(), 1 + 7 * 5);
    assert_eq!(out[0], "Deploys for alpha:");
    for k in 0..5 {
        assert_eq!(out[1 + 7 * k], format!("[Build ID: b{}] branch unknown - ready", k));
        assert_eq!(out[1 + 7 * k + 6], "");
    }
}

#[test]
fn fewer_deploys_render_fewer_blocks() {
    colored::control::set_override(false);
    let deploys = vec![deploy(Some("b0"), None, "ready", None, None, "2021")];
    let out = deploys_output(&"alpha".to_string(), &deploys);
    assert_eq!(out.len(), 1 + 7);
}

#[test]
fn colored_block_keeps_the_field_text() {
    colored::control::set_override(true);
    let d = deploy(Some("b1"), Some("main"), "ready", None, None, "2021");
    let lines = deploy_block(&d);
    let expected = format!("[Build ID: {}] branch {} - ready", "b1".blue(), "main".yellow());
    colored::control::unset_override();
    assert_eq!(lines[0], expected);
    assert!(lines[1].contains("unknown"));
}

#[test]
fn sites_query_carries_target_and_all_filter() {
    let (name, filter) = sites_query(&Some("alpha".to_string()));
    assert_eq!(name.as_deref(), Some("alpha"));
    assert_eq!(filter, "all");
    let (name, filter) = sites_query(&None);
    assert_eq!(name, None);
    assert_eq!(filter, "all");
}

#[test]
fn remote_failure_report_is_verbatim() {
    let r = fetch_failure_report("connection refused");
    assert_eq!(r, "Something went wrong while fetching sites!\n connection refused");
}

#[test]
fn missing_target_message_names_the_target() {
    assert_eq!(no_site_message("alpha"), "no site named 'alpha'");
}
