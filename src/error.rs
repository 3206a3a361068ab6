use vstd::prelude::*;

verus! {

/// Why commits could not be fetched.
#[derive(Clone, Debug)]
pub enum GitError {
    /// The git tool cannot be found on this host.
    MissingGitCli,
    /// The probed directory holds no git repository; carries the path asked for.
    NoRepository(String),
    /// The log retrieval failed; carries the tool's diagnostic text.
    Other(String),
}

/// Text shown for a missing git tool.
pub open spec fn missing_git_text() -> Seq<char> {
    "Git should be installed. Visit: https://git-scm.com/book/en/v2/Getting-Started-Installing-Git"@
}

/// Text that opens the message for a missing repository.
pub open spec fn no_repository_prefix() -> Seq<char> {
    "No git repository exists in "@
}

impl GitError {
    /// The human-readable message of this error.
    pub open spec fn spec_message(&self) -> Seq<char> {
        match self {
            GitError::MissingGitCli => missing_git_text(),
            GitError::NoRepository(path) => no_repository_prefix() + path@,
            GitError::Other(message) => message@,
        }
    }

    /// The human-readable message of this error.
    pub fn message(&self) -> (r: String)
        ensures
            r@ == self.spec_message(),
    {
        match self {
            GitError::MissingGitCli => String::from_str(
                "Git should be installed. Visit: https://git-scm.com/book/en/v2/Getting-Started-Installing-Git",
            ),
            GitError::NoRepository(path) => {
                let mut m = String::from_str("No git repository exists in ");
                m.append(path.as_str());
                m
            },
            GitError::Other(message) => message.clone(),
        }
    }
}

} // verus!
