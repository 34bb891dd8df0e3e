use vstd::prelude::*;
use crate::pipeline::{Action, Event, Pipeline, Source, Stage, Target};
use crate::retry::DownloadBudget;

verus! {

/// Every event keeps the invariant of a run.
pub proof fn next_keeps_wf(p: Pipeline, ev: Event)
    requires
        p.wf(),
    ensures
        p.next(ev).wf(),
{
}

/// Any sequence of events keeps the invariant of a run.
pub proof fn run_keeps_wf(p: Pipeline, evs: Seq<Event>)
    requires
        p.wf(),
    ensures
        p.run(evs).wf(),
    decreases evs.len(),
{
    if evs.len() > 0 {
        next_keeps_wf(p, evs[0]);
        run_keeps_wf(p.next(evs[0]), evs.drop_first());
    }
}

/// A run that has stopped stays where it is, whatever is reported.
pub proof fn stopped_run_stays(p: Pipeline, evs: Seq<Event>)
    requires
        p.stage == Stage::Failed || p.stage == Stage::Done || p.stage == Stage::Declined,
    ensures
        p.run(evs) == p,
    decreases evs.len(),
{
    if evs.len() > 0 {
        stopped_run_stays(p.next(evs[0]), evs.drop_first());
    }
}

/// A version identifier that holds `..`, `/` or `\` ends the run at once with exit code
/// 1: no probe, creation, fetch, cache write or install is ever asked for.
pub proof fn traversal_version_is_rejected(
    version: Seq<char>,
    cached: bool,
    candidates: usize,
    budget: DownloadBudget,
    evs: Seq<Event>,
)
    requires
        crate::version::has_traversal(version),
    ensures
        ({
            let p = Pipeline::start_of(!crate::version::has_traversal(version), cached, candidates, budget);
            p.stage == Stage::Failed && p.run(evs) == p && p.run(evs).action_of() == Action::Exit(1)
        }),
{
    let p = Pipeline::start_of(false, cached, candidates, budget);
    stopped_run_stays(p, evs);
}

/// The stages that a run on a cache hit can reach.
pub open spec fn on_hit_path(p: Pipeline) -> bool {
    p.stage == Stage::Installing { source: Source::Cached } || p.stage == Stage::Done || p.stage
        == Stage::Failed
}

proof fn hit_path_closed(p: Pipeline, evs: Seq<Event>)
    requires
        on_hit_path(p),
    ensures
        on_hit_path(p.run(evs)),
    decreases evs.len(),
{
    if evs.len() > 0 {
        hit_path_closed(p.next(evs[0]), evs.drop_first());
    }
}

/// On a cache hit the run installs the cached file and asks for nothing else: no
/// network fetch, no repository probe or creation, no cache write.
pub proof fn cache_hit_installs_without_fetching(
    candidates: usize,
    budget: DownloadBudget,
    evs: Seq<Event>,
)
    ensures
        Pipeline::start_of(true, true, candidates, budget).action_of() == Action::Install(
            Source::Cached,
        ),
        ({
            let q = Pipeline::start_of(true, true, candidates, budget).run(evs);
            q.action_of() == Action::Install(Source::Cached) || q.action_of() == Action::Exit(0)
                || q.action_of() == Action::Exit(1)
        }),
{
    hit_path_closed(Pipeline::start_of(true, true, candidates, budget), evs);
}

/// Once an install repository is selected, it stays selected for the rest of the run.
pub proof fn selected_repository_is_kept(p: Pipeline, r: usize, evs: Seq<Event>)
    requires
        p.wf(),
        p.repo == Some(r),
    ensures
        p.run(evs).repo == Some(r),
    decreases evs.len(),
{
    if evs.len() > 0 {
        next_keeps_wf(p, evs[0]);
        selected_repository_is_kept(p.next(evs[0]), r, evs.drop_first());
    }
}

/// The cache file is written only into the selected install repository.
pub proof fn cache_written_into_selected_repository(p: Pipeline, r: usize)
    requires
        p.wf(),
        p.action_of() == Action::WriteCache(r),
    ensures
        p.repo == Some(r),
{
}

/// After the downloaded artifact is written into the cache, the install copies that
/// cache file, and a successful install ends the run with exit code 0.
pub proof fn cached_download_is_installed_from_cache(p: Pipeline)
    requires
        p.stage == Stage::Caching,
    ensures
        p.next(Event::CacheWritten(true)).action_of() == Action::Install(Source::CacheFile),
        p.next(Event::CacheWritten(true)).next(Event::Installed(true)).action_of() == Action::Exit(
            0,
        ),
{
}

/// A failed cache write never blocks the install: the downloaded bytes are installed
/// directly, and a successful install ends the run with exit code 0.
pub proof fn cache_failure_still_installs(p: Pipeline)
    requires
        p.stage == Stage::Caching,
    ensures
        p.next(Event::CacheWritten(false)).action_of() == Action::Install(Source::Download),
        p.next(Event::CacheWritten(false)).next(Event::Installed(true)).action_of()
            == Action::Exit(0),
{
}

/// With a budget of `n`, a run that is fetching has fewer than `n` failed attempts
/// behind it, and the failure of attempt `n` ends the run with exit code 1.
pub proof fn fetching_stays_within_budget(p: Pipeline, n: usize, evs: Seq<Event>)
    requires
        p.wf(),
        p.budget == DownloadBudget::Limited(n),
    ensures
        p.run(evs).stage matches Stage::Fetching { failed, .. } ==> failed < n,
        p.stage matches Stage::Fetching { failed, .. } && failed + 1 == n ==> p.next(
            Event::Fetched(false),
        ).action_of() == Action::Exit(1),
{
    run_keeps_wf(p, evs);
    assert(p.run(evs).budget == p.budget) by {
        budget_is_kept(p, evs);
    }
}

proof fn budget_is_kept(p: Pipeline, evs: Seq<Event>)
    ensures
        p.run(evs).budget == p.budget,
    decreases evs.len(),
{
    if evs.len() > 0 {
        budget_is_kept(p.next(evs[0]), evs.drop_first());
    }
}

/// With no limit, a failed attempt never ends the run: it leads to another attempt, or
/// after every fifth failure to asking the operator.
pub proof fn unlimited_fetching_never_gives_up(p: Pipeline, target: Target, failed: usize)
    requires
        p.wf(),
        p.budget == DownloadBudget::Unlimited,
        p.stage == (Stage::Fetching { target, failed }),
    ensures
        failed + 1 < 5 ==> p.next(Event::Fetched(false)).action_of() == Action::Fetch(target),
        failed + 1 == 5 ==> p.next(Event::Fetched(false)).action_of() == Action::Confirm,
        p.next(Event::Fetched(false)).next(Event::Confirmed(true)).action_of() == Action::Fetch(
            target,
        ),
{
}

/// All cache writes that a run asks for go into one and the same install repository.
pub proof fn cache_writes_share_one_repository(
    p: Pipeline,
    evs1: Seq<Event>,
    evs2: Seq<Event>,
    r1: usize,
    r2: usize,
)
    requires
        p.wf(),
        p.run(evs1).action_of() == Action::WriteCache(r1),
        p.run(evs1).run(evs2).action_of() == Action::WriteCache(r2),
    ensures
        r1 == r2,
{
    run_keeps_wf(p, evs1);
    let q = p.run(evs1);
    cache_written_into_selected_repository(q, r1);
    selected_repository_is_kept(q, r1, evs2);
    run_keeps_wf(q, evs2);
    cache_written_into_selected_repository(q.run(evs2), r2);
}

} // verus!
