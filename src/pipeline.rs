use vstd::prelude::*;
use crate::repos::PathKind;
use crate::retry::{retry_step, retry_step_of, DownloadBudget, RetryStep};
use crate::version::{has_traversal, is_valid_version};

verus! {

/// What is being downloaded.
#[derive(Clone, Copy, Debug, PartialEq, Eq, Structural)]
pub enum Target {
    /// The version's landing page, which links to the artifact.
    Page,
    /// The artifact itself.
    Artifact,
}

/// Where the bytes installed as `server.jar` come from.
#[derive(Clone, Copy, Debug, PartialEq, Eq, Structural)]
pub enum Source {
    /// A file found by the cache lookup.
    Cached,
    /// The cache file written in this run.
    CacheFile,
    /// The downloaded bytes themselves, when writing the cache file failed.
    Download,
}

/// Where a run stands.
#[derive(Clone, Copy, Debug, PartialEq, Eq, Structural)]
pub enum Stage {
    /// Looking at install candidate `index` on disk.
    Probing { index: usize },
    /// Creating install candidate `index`, which does not exist.
    Creating { index: usize },
    /// Install candidate `index` is unusable: asking whether to go on with the next.
    RepoWarned { index: usize },
    /// Fetching `target` after `failed` failed attempts.
    Fetching { target: Target, failed: usize },
    /// A batch of attempts at `target` failed: asking whether to retry.
    RetryPrompt { target: Target, failed: usize },
    /// Looking for the artifact's link in the landing page.
    Extracting,
    /// Writing the downloaded artifact into the selected repository.
    Caching,
    /// Copying the artifact to the install target.
    Installing { source: Source },
    Done,
    /// The operator chose not to go on.
    Declined,
    Failed,
}

/// What the outside world reports back after an action.
#[derive(Clone, Copy, Debug, PartialEq, Eq, Structural)]
pub enum Event {
    Probed(PathKind),
    Created(bool),
    Confirmed(bool),
    Fetched(bool),
    LinkFound(bool),
    CacheWritten(bool),
    Installed(bool),
}

/// What the run asks the outside world to do next.
#[derive(Clone, Copy, Debug, PartialEq, Eq, Structural)]
pub enum Action {
    /// Find out whether install candidate `i` exists and is a directory.
    Probe(usize),
    /// Create install candidate `i`, with its parents.
    Create(usize),
    /// Ask the operator whether to go on.
    Confirm,
    Fetch(Target),
    ExtractLink,
    /// Write the downloaded artifact, named after the version, into candidate `i`.
    WriteCache(usize),
    Install(Source),
    /// End the process with this exit code.
    Exit(i32),
}

/// One run of the installer after its arguments were read.
#[derive(Clone, Copy, Debug, PartialEq, Eq, Structural)]
pub struct Pipeline {
    pub stage: Stage,
    /// The install repository, once one is selected.
    pub repo: Option<usize>,
    /// How many install candidates there are.
    pub candidates: usize,
    pub budget: DownloadBudget,
}

/// The stage that starts or resumes fetching `target` after `failed` failed attempts.
pub open spec fn fetch_stage(target: Target, failed: usize, budget: DownloadBudget) -> Stage {
    match retry_step_of(failed as nat, budget) {
        RetryStep::Attempt => Stage::Fetching { target, failed },
        RetryStep::ConfirmThenAttempt => Stage::RetryPrompt { target, failed },
        RetryStep::GiveUp => Stage::Failed,
    }
}

/// The count of failed attempts kept after the operator agrees to retry: with no limit
/// only the position in the batch matters.
pub open spec fn resumed_count(failed: usize, budget: DownloadBudget) -> usize {
    match budget {
        DownloadBudget::Limited(_) => failed,
        DownloadBudget::Unlimited => 0,
    }
}

impl Pipeline {
    /// The invariant of a run.
    pub open spec fn wf(self) -> bool {
        let selected = match self.repo {
            Some(r) => r < self.candidates,
            None => false,
        };
        match self.stage {
            Stage::Probing { index } => index < self.candidates && self.repo is None,
            Stage::Creating { index } => index < self.candidates && self.repo is None,
            Stage::RepoWarned { index } => index < self.candidates && self.repo is None,
            Stage::Fetching { failed, .. } => selected && match self.budget {
                DownloadBudget::Limited(n) => failed < n,
                DownloadBudget::Unlimited => failed < 5,
            },
            Stage::RetryPrompt { failed, .. } => selected && match self.budget {
                DownloadBudget::Limited(n) => 0 < failed < n && failed % 5 == 0,
                DownloadBudget::Unlimited => failed == 5,
            },
            Stage::Extracting => selected,
            Stage::Caching => selected,
            Stage::Installing { source } => source == Source::Cached || selected,
            _ => true,
        }
    }

    /// The run as it starts: a version with a traversal marker fails at once; a cache
    /// hit goes straight to installing; a miss starts with the first install candidate.
    pub open spec fn start_of(
        valid: bool,
        cached: bool,
        candidates: usize,
        budget: DownloadBudget,
    ) -> Pipeline {
        let stage = if !valid {
            Stage::Failed
        } else if cached {
            Stage::Installing { source: Source::Cached }
        } else if candidates == 0 {
            Stage::Failed
        } else {
            Stage::Probing { index: 0 }
        };
        Pipeline { stage, repo: None, candidates, budget }
    }

    /// The run after `ev`; an event that the stage does not wait for changes nothing.
    pub open spec fn next(self, ev: Event) -> Pipeline {
        let selected = |i: usize|
            Pipeline {
                stage: fetch_stage(Target::Page, 0, self.budget),
                repo: Some(i),
                ..self
            };
        let warned_or_next = |i: usize|
            if i + 1 < self.candidates {
                Stage::Probing { index: (i + 1) as usize }
            } else {
                Stage::Failed
            };
        match (self.stage, ev) {
            (Stage::Probing { index }, Event::Probed(kind)) => match kind {
                PathKind::Directory => selected(index),
                PathKind::NotDirectory => Pipeline { stage: Stage::RepoWarned { index }, ..self },
                PathKind::Missing => Pipeline { stage: Stage::Creating { index }, ..self },
            },
            (Stage::Creating { index }, Event::Created(ok)) => if ok {
                selected(index)
            } else {
                Pipeline { stage: Stage::RepoWarned { index }, ..self }
            },
            (Stage::RepoWarned { index }, Event::Confirmed(yes)) => if yes {
                Pipeline { stage: warned_or_next(index), ..self }
            } else {
                Pipeline { stage: Stage::Declined, ..self }
            },
            (Stage::Fetching { target, failed }, Event::Fetched(ok)) => if ok {
                match target {
                    Target::Page => Pipeline { stage: Stage::Extracting, ..self },
                    Target::Artifact => Pipeline { stage: Stage::Caching, ..self },
                }
            } else {
                Pipeline { stage: fetch_stage(target, (failed + 1) as usize, self.budget), ..self }
            },
            (Stage::RetryPrompt { target, failed }, Event::Confirmed(yes)) => if yes {
                Pipeline {
                    stage: Stage::Fetching { target, failed: resumed_count(failed, self.budget) },
                    ..self
                }
            } else {
                Pipeline { stage: Stage::Declined, ..self }
            },
            (Stage::Extracting, Event::LinkFound(found)) => if found {
                Pipeline { stage: fetch_stage(Target::Artifact, 0, self.budget), ..self }
            } else {
                Pipeline { stage: Stage::Failed, ..self }
            },
            (Stage::Caching, Event::CacheWritten(ok)) => Pipeline {
                stage: Stage::Installing {
                    source: if ok {
                        Source::CacheFile
                    } else {
                        Source::Download
                    },
                },
                ..self
            },
            (Stage::Installing { .. }, Event::Installed(ok)) => Pipeline {
                stage: if ok {
                    Stage::Done
                } else {
                    Stage::Failed
                },
                ..self
            },
            _ => self,
        }
    }

    /// What the run asks for in its present stage.
    pub open spec fn action_of(self) -> Action {
        match self.stage {
            Stage::Probing { index } => Action::Probe(index),
            Stage::Creating { index } => Action::Create(index),
            Stage::RepoWarned { .. } => Action::Confirm,
            Stage::Fetching { target, .. } => Action::Fetch(target),
            Stage::RetryPrompt { .. } => Action::Confirm,
            Stage::Extracting => Action::ExtractLink,
            Stage::Caching => Action::WriteCache(
                match self.repo {
                    Some(r) => r,
                    None => 0,
                },
            ),
            Stage::Installing { source } => Action::Install(source),
            Stage::Done => Action::Exit(0),
            Stage::Declined => Action::Exit(0),
            Stage::Failed => Action::Exit(1),
        }
    }

    /// The run after the events `evs`, one after another.
    pub open spec fn run(self, evs: Seq<Event>) -> Pipeline
        decreases evs.len(),
    {
        if evs.len() == 0 {
            self
        } else {
            self.next(evs[0]).run(evs.drop_first())
        }
    }
}

fn enter_fetch(target: Target, failed: usize, budget: DownloadBudget) -> (r: Stage)
    ensures
        r == fetch_stage(target, failed, budget),
{
    match retry_step(failed, budget) {
        RetryStep::Attempt => Stage::Fetching { target, failed },
        RetryStep::ConfirmThenAttempt => Stage::RetryPrompt { target, failed },
        RetryStep::GiveUp => Stage::Failed,
    }
}

impl Pipeline {
    /// Starts a run for `version`: `cached` tells whether the lookup found the artifact,
    /// `candidates` how many install candidates there are.
    pub fn start(version: &str, cached: bool, candidates: usize, budget: DownloadBudget) -> (r:
        Pipeline)
        ensures
            r == Pipeline::start_of(!has_traversal(version@), cached, candidates, budget),
            r.wf(),
    {
        let stage = if !is_valid_version(version) {
            Stage::Failed
        } else if cached {
            Stage::Installing { source: Source::Cached }
        } else if candidates == 0 {
            Stage::Failed
        } else {
            Stage::Probing { index: 0 }
        };
        Pipeline { stage, repo: None, candidates, budget }
    }

    /// Moves the run on by one event.
    pub fn step(&mut self, ev: Event)
        requires
            old(self).wf(),
        ensures
            *final(self) == old(self).next(ev),
            final(self).wf(),
    {
        let budget = self.budget;
        match (self.stage, ev) {
            (Stage::Probing { index }, Event::Probed(kind)) => match kind {
                PathKind::Directory => {
                    self.repo = Some(index);
                    self.stage = enter_fetch(Target::Page, 0, budget);
                },
                PathKind::NotDirectory => {
                    self.stage = Stage::RepoWarned { index };
                },
                PathKind::Missing => {
                    self.stage = Stage::Creating { index };
                },
            },
            (Stage::Creating { index }, Event::Created(ok)) => {
                if ok {
                    self.repo = Some(index);
                    self.stage = enter_fetch(Target::Page, 0, budget);
                } else {
                    self.stage = Stage::RepoWarned { index };
                }
            },
            (Stage::RepoWarned { index }, Event::Confirmed(yes)) => {
                if !yes {
                    self.stage = Stage::Declined;
                } else if index + 1 < self.candidates {
                    self.stage = Stage::Probing { index: index + 1 };
                } else {
                    self.stage = Stage::Failed;
                }
            },
            (Stage::Fetching { target, failed }, Event::Fetched(ok)) => {
                if ok {
                    self.stage =
                    match target {
                        Target::Page => Stage::Extracting,
                        Target::Artifact => Stage::Caching,
                    };
                } else {
                    self.stage = enter_fetch(target, failed + 1, budget);
                }
            },
            (Stage::RetryPrompt { target, failed }, Event::Confirmed(yes)) => {
                if yes {
                    let kept = match budget {
                        DownloadBudget::Limited(_) => failed,
                        DownloadBudget::Unlimited => 0,
                    };
                    self.stage = Stage::Fetching { target, failed: kept };
                } else {
                    self.stage = Stage::Declined;
                }
            },
            (Stage::Extracting, Event::LinkFound(found)) => {
                if found {
                    self.stage = enter_fetch(Target::Artifact, 0, budget);
                } else {
                    self.stage = Stage::Failed;
                }
            },
            (Stage::Caching, Event::CacheWritten(ok)) => {
                let source = if ok {
                    Source::CacheFile
                } else {
                    Source::Download
                };
                self.stage = Stage::Installing { source };
            },
            (Stage::Installing { .. }, Event::Installed(ok)) => {
                self.stage = if ok {
                    Stage::Done
                } else {
                    Stage::Failed
                };
            },
            _ => {},
        }
    }

    /// What the run asks for now.
    pub fn action(&self) -> (r: Action)
        ensures
            r == self.action_of(),
    {
        match self.stage {
            Stage::Probing { index } => Action::Probe(index),
            Stage::Creating { index } => Action::Create(index),
            Stage::RepoWarned { .. } => Action::Confirm,
            Stage::Fetching { target, .. } => Action::Fetch(target),
            Stage::RetryPrompt { .. } => Action::Confirm,
            Stage::Extracting => Action::ExtractLink,
            Stage::Caching => Action::WriteCache(
                match self.repo {
                    Some(r) => r,
                    None => 0,
                },
            ),
            Stage::Installing { source } => Action::Install(source),
            Stage::Done => Action::Exit(0),
            Stage::Declined => Action::Exit(0),
            Stage::Failed => Action::Exit(1),
        }
    }
}

} // verus!
