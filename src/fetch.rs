use vstd::prelude::*;

use crate::error::GitError;
use crate::cli::{retrieval_failure_text, GitCli};
use crate::parser::lossy_utf8;

verus! {

/// Where a fetch of all commits stands.
#[derive(Clone, Copy, Debug, PartialEq, Eq, Structural)]
pub enum FetchStage {
    /// The git tool has not been looked up yet.
    LookUpTool,
    /// The tool is there; the repository has not been probed yet.
    ProbeRepository,
    /// The repository is there; the log has not been retrieved yet.
    RetrieveLog,
    /// An error or the log output ended the fetch.
    Finished,
}

/// What the caller is to do next.
#[derive(Clone, Debug)]
pub enum FetchAction {
    /// Run the host's lookup for the git tool.
    RunToolLookup,
    /// Run the repository-status probe.
    RunStatusProbe,
    /// Run the log retrieval (non-merge commits, with patches, one header
    /// line per commit) in the repository's directory.
    RunLogRetrieval,
    /// The retrieval succeeded: parse its standard output.
    ParseLog,
    /// The fetch fails with this error.
    Fail(GitError),
}

/// The decisions of one fetch of all commits of a repository: each outside
/// step's outcome is handed to `step`, which says what comes next.
pub struct CommitFetch {
    path: String,
    stage: FetchStage,
}

impl CommitFetch {
    pub closed spec fn spec_path(&self) -> String {
        self.path
    }

    pub closed spec fn spec_stage(&self) -> FetchStage {
        self.stage
    }

    /// Starts a fetch for `path`; the first action is the tool lookup.
    pub fn new(path: String) -> (r: (CommitFetch, FetchAction))
        ensures
            r.0.spec_path() == path,
            r.0.spec_stage() == FetchStage::LookUpTool,
            r.1 is RunToolLookup,
    {
        (CommitFetch { path, stage: FetchStage::LookUpTool }, FetchAction::RunToolLookup)
    }

    /// The path whose commits are fetched.
    pub fn path(&self) -> (r: &String)
        ensures
            *r == self.spec_path(),
    {
        &self.path
    }

    /// Where the fetch stands.
    pub fn stage(&self) -> (r: FetchStage)
        ensures
            r == self.spec_stage(),
    {
        self.stage
    }

    /// Takes the outcome of the action last asked for: whether it succeeded,
    /// and what it wrote as diagnostic text. Says what to do next.
    pub fn step(&mut self, succeeded: bool, diagnostic: &[u8]) -> (a: FetchAction)
        requires
            old(self).spec_stage() != FetchStage::Finished,
        ensures
            final(self).spec_path() == old(self).spec_path(),
            old(self).spec_stage() == FetchStage::LookUpTool ==> if succeeded {
                final(self).spec_stage() == FetchStage::ProbeRepository && a is RunStatusProbe
            } else {
                final(self).spec_stage() == FetchStage::Finished && a
                    == FetchAction::Fail(GitError::MissingGitCli)
            },
            old(self).spec_stage() == FetchStage::ProbeRepository ==> if succeeded {
                final(self).spec_stage() == FetchStage::RetrieveLog && a is RunLogRetrieval
            } else {
                final(self).spec_stage() == FetchStage::Finished && a == FetchAction::Fail(
                    GitError::NoRepository(old(self).spec_path()),
                )
            },
            old(self).spec_stage() == FetchStage::RetrieveLog ==> final(self).spec_stage()
                == FetchStage::Finished && if succeeded {
                a is ParseLog
            } else {
                &&& a matches FetchAction::Fail(GitError::Other(m))
                &&& m@ == retrieval_failure_text(lossy_utf8(diagnostic@))
            },
    {
        match self.stage {
            FetchStage::LookUpTool => match GitCli::ensure_git(succeeded) {
                Ok(()) => {
                    self.stage = FetchStage::ProbeRepository;
                    FetchAction::RunStatusProbe
                },
                Err(e) => {
                    self.stage = FetchStage::Finished;
                    FetchAction::Fail(e)
                },
            },
            FetchStage::ProbeRepository => match GitCli::ensure_repository(succeeded, &self.path) {
                Ok(()) => {
                    self.stage = FetchStage::RetrieveLog;
                    FetchAction::RunLogRetrieval
                },
                Err(e) => {
                    self.stage = FetchStage::Finished;
                    FetchAction::Fail(e)
                },
            },
            _ => {
                self.stage = FetchStage::Finished;
                if succeeded {
                    FetchAction::ParseLog
                } else {
                    FetchAction::Fail(GitCli::log_failure(diagnostic))
                }
            },
        }
    }
}

} // verus!
