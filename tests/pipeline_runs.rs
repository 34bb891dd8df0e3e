use mc_update::link::artifact_link;
use mc_update::pipeline::{Action, Event, Pipeline, Source, Stage, Target};
use mc_update::repos::PathKind;
use mc_update::retry::DownloadBudget;
use mc_update::version::is_valid_version;

#[test]
fn scenario_fresh_download_is_cached_and_installed() {
    let mut p = Pipeline::start("1.20.1", false, 3, DownloadBudget::Unlimited);
    assert_eq!(p.action(), Action::Probe(0));
    p.step(Event::Probed(PathKind::Missing));
    assert_eq!(p.action(), Action::Create(0));
    p.step(Event::Created(true));
    assert_eq!(p.repo, Some(0));
    assert_eq!(p.action(), Action::Fetch(Target::Page));
    p.step(Event::Fetched(true));
    assert_eq!(p.action(), Action::ExtractLink);
    let page = "<a href=\"https://cdn.example/server.jar\">Download</a>";
    let link = artifact_link(page);
    assert_eq!(link, Some("https://cdn.example/server.jar".to_string()));
    p.step(Event::LinkFound(link.is_some()));
    assert_eq!(p.action(), Action::Fetch(Target::Artifact));
    p.step(Event::Fetched(true));
    assert_eq!(p.action(), Action::WriteCache(0));
    p.step(Event::CacheWritten(true));
    assert_eq!(p.action(), Action::Install(Source::CacheFile));
    p.step(Event::Installed(true));
    assert_eq!(p.action(), Action::Exit(0));
}

#[test]
fn scenario_traversal_version_exits_at_once() {
    assert!(!is_valid_version("../etc"));
    let mut p = Pipeline::start("../etc", false, 3, DownloadBudget::Unlimited);
    assert_eq!(p.stage, Stage::Failed);
    assert_eq!(p.action(), Action::Exit(1));
    p.step(Event::Probed(PathKind::Directory));
    p.step(Event::Installed(true));
    assert_eq!(p.action(), Action::Exit(1));
    let hit = Pipeline::start("../etc", true, 3, DownloadBudget::Unlimited);
    assert_eq!(hit.action(), Action::Exit(1));
}

#[test]
fn cache_hit_goes_straight_to_install() {
    let mut p = Pipeline::start("1.12.2", true, 3, DownloadBudget::Limited(2));
    assert_eq!(p.action(), Action::Install(Source::Cached));
    p.step(Event::Fetched(true));
    assert_eq!(p.action(), Action::Install(Source::Cached));
    p.step(Event::Installed(true));
    assert_eq!(p.action(), Action::Exit(0));
}

#[test]
fn cache_write_failure_installs_the_download() {
    let mut p = Pipeline::start("1.12.2", false, 1, DownloadBudget::Unlimited);
    p.step(Event::Probed(PathKind::Directory));
    p.step(Event::Fetched(true));
    p.step(Event::LinkFound(true));
    p.step(Event::Fetched(true));
    assert_eq!(p.action(), Action::WriteCache(0));
    p.step(Event::CacheWritten(false));
    assert_eq!(p.action(), Action::Install(Source::Download));
    p.step(Event::Installed(true));
    assert_eq!(p.action(), Action::Exit(0));
}

#[test]
fn failed_install_exits_with_one() {
    let mut p = Pipeline::start("1.12.2", true, 1, DownloadBudget::Unlimited);
    p.step(Event::Installed(false));
    assert_eq!(p.action(), Action::Exit(1));
}

#[test]
fn unusable_candidates_are_skipped_after_confirmation() {
    let mut p = Pipeline::start("1.12.2", false, 3, DownloadBudget::Unlimited);
    p.step(Event::Probed(PathKind::NotDirectory));
    assert_eq!(p.action(), Action::Confirm);
    p.step(Event::Confirmed(true));
    assert_eq!(p.action(), Action::Probe(1));
    p.step(Event::Probed(PathKind::Missing));
    p.step(Event::Created(false));
    assert_eq!(p.action(), Action::Confirm);
    p.step(Event::Confirmed(true));
    p.step(Event::Probed(PathKind::Directory));
    assert_eq!(p.repo, Some(2));
    p.step(Event::Fetched(true));
    p.step(Event::LinkFound(true));
    p.step(Event::Fetched(true));
    assert_eq!(p.action(), Action::WriteCache(2));
}

#[test]
fn no_usable_candidate_fails() {
    let mut p = Pipeline::start("1.12.2", false, 1, DownloadBudget::Unlimited);
    p.step(Event::Probed(PathKind::NotDirectory));
    p.step(Event::Confirmed(true));
    assert_eq!(p.action(), Action::Exit(1));
    let none = Pipeline::start("1.12.2", false, 0, DownloadBudget::Unlimited);
    assert_eq!(none.action(), Action::Exit(1));
}

#[test]
fn declining_a_prompt_exits_with_zero() {
    let mut p = Pipeline::start("1.12.2", false, 2, DownloadBudget::Unlimited);
    p.step(Event::Probed(PathKind::NotDirectory));
    p.step(Event::Confirmed(false));
    assert_eq!(p.stage, Stage::Declined);
    assert_eq!(p.action(), Action::Exit(0));
}

#[test]
fn missing_link_fails() {
    let mut p = Pipeline::start("9.9.9", false, 1, DownloadBudget::Unlimited);
    p.step(Event::Probed(PathKind::Directory));
    p.step(Event::Fetched(true));
    p.step(Event::LinkFound(false));
    assert_eq!(p.action(), Action::Exit(1));
}

fn count_fetches_until_exit(mut p: Pipeline, max_events: usize) -> (usize, usize, Action) {
    let mut fetches = 0;
    let mut prompts = 0;
    for _ in 0..max_events {
        match p.action() {
            Action::Fetch(_) => {
                fetches += 1;
                p.step(Event::Fetched(false));
            }
            Action::Confirm => {
                prompts += 1;
                p.step(Event::Confirmed(true));
            }
            a => return (fetches, prompts, a),
        }
    }
    (fetches, prompts, p.action())
}

#[test]
fn always_failing_fetch_with_budget_twelve() {
    let mut p = Pipeline::start("1.12.2", false, 1, DownloadBudget::Limited(12));
    p.step(Event::Probed(PathKind::Directory));
    let (fetches, prompts, last) = count_fetches_until_exit(p, 1000);
    assert_eq!(fetches, 12);
    assert_eq!(prompts, 2);
    assert_eq!(last, Action::Exit(1));
}

#[test]
fn always_failing_fetch_with_budget_five() {
    let mut p = Pipeline::start("1.12.2", false, 1, DownloadBudget::Limited(5));
    p.step(Event::Probed(PathKind::Directory));
    let (fetches, prompts, last) = count_fetches_until_exit(p, 1000);
    assert_eq!(fetches, 5);
    assert_eq!(prompts, 0);
    assert_eq!(last, Action::Exit(1));
}

#[test]
fn always_failing_fetch_without_limit_keeps_asking() {
    let mut p = Pipeline::start("1.12.2", false, 1, DownloadBudget::Unlimited);
    p.step(Event::Probed(PathKind::Directory));
    let (fetches, prompts, last) = count_fetches_until_exit(p, 600);
    assert_eq!(fetches, 500);
    assert_eq!(prompts, 100);
    assert_eq!(last, Action::Fetch(Target::Page));
}

#[test]
fn zero_budget_fails_before_fetching() {
    let mut p = Pipeline::start("1.12.2", false, 1, DownloadBudget::Limited(0));
    p.step(Event::Probed(PathKind::Directory));
    assert_eq!(p.action(), Action::Exit(1));
}
