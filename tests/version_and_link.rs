use mc_update::link::{artifact_link, landing_page_url, pick_artifact_link, text_contains};
use mc_update::version::is_valid_version;

#[test]
fn plain_versions_are_accepted() {
    assert!(is_valid_version("1.12.2"));
    assert!(is_valid_version("1.20.1"));
    assert!(is_valid_version("20w14a"));
    assert!(is_valid_version("1.2"));
}

#[test]
fn traversal_versions_are_rejected() {
    assert!(!is_valid_version("../etc"));
    assert!(!is_valid_version(".."));
    assert!(!is_valid_version("1..2"));
    assert!(!is_valid_version("a/b"));
    assert!(!is_valid_version("a\\b"));
    assert!(!is_valid_version("/"));
}

#[test]
fn single_dots_are_not_traversal() {
    assert!(is_valid_version(".1.2."));
    assert!(is_valid_version(""));
}

#[test]
fn substring_search() {
    assert!(text_contains("https://cdn.example/server.jar", "server.jar"));
    assert!(text_contains("server.jar", "server.jar"));
    assert!(text_contains("abc", ""));
    assert!(!text_contains("server.ja", "server.jar"));
    assert!(!text_contains("https://cdn.example/client.jar", "server.jar"));
}

#[test]
fn landing_page_for_version() {
    assert_eq!(landing_page_url("1.20.1"), "https://mcversions.net/download/1.20.1");
}

#[test]
fn scenario_link_from_landing_page() {
    let page = "<html><body><a href=\"https://cdn.example/server.jar\">Download</a></body></html>";
    assert_eq!(artifact_link(page), Some("https://cdn.example/server.jar".to_string()));
}

#[test]
fn first_matching_anchor_wins() {
    let page = "<a href=\"/client.jar\">c</a><a>no href</a><p href=\"/x/server.jar\">p</p>\
                <a href=\"/one/server.jar\">1</a><a href=\"/two/server.jar\">2</a>";
    assert_eq!(artifact_link(page), Some("/one/server.jar".to_string()));
}

#[test]
fn page_without_artifact_link() {
    let page = "<a href=\"/client.jar\">c</a><div>server.jar</div>";
    assert_eq!(artifact_link(page), None);
    assert_eq!(artifact_link(""), None);
}

#[test]
fn pick_from_hrefs() {
    let hrefs = vec!["a".to_string(), "b/server.jar".to_string(), "c/server.jar".to_string()];
    assert_eq!(pick_artifact_link(&hrefs), Some("b/server.jar".to_string()));
    assert_eq!(pick_artifact_link(&vec![]), None);
    assert_eq!(pick_artifact_link(&vec!["x".to_string()]), None);
}
