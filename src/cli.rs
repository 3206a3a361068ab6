use vstd::prelude::*;
use vstd::utf8::{decode_utf8, valid_utf8};

use crate::error::GitError;
use crate::models::{commit_of, commit_views, header_views, text_views, Commit, Header};
use crate::parser::{
    decode_lossy, diff_marker, fold_line, lines_of, lossy_utf8, parse_lines, std_contains,
    std_lines,
};

verus! {

/// Message of a failed log retrieval whose tool printed no diagnostic text.
pub open spec fn retrieval_fallback_text() -> Seq<char> {
    "Failure when trying to obtain commits"@
}

/// Message of a failed log retrieval, given the tool's diagnostic text.
pub open spec fn retrieval_failure_text(diagnostic: Seq<char>) -> Seq<char> {
    if diagnostic.len() == 0 {
        retrieval_fallback_text()
    } else {
        diagnostic
    }
}

/// Commit history read through the git command-line tool: the decisions
/// taken on its outcomes, and the parser of its log output.
pub struct GitCli;

impl GitCli {
    /// The outcome of the tool lookup: the tool is there when the lookup succeeded.
    pub fn ensure_git(lookup_succeeded: bool) -> (r: Result<(), GitError>)
        ensures
            lookup_succeeded ==> r is Ok,
            !lookup_succeeded ==> r == Err::<(), GitError>(GitError::MissingGitCli),
    {
        if lookup_succeeded {
            Ok(())
        } else {
            Err(GitError::MissingGitCli)
        }
    }

    /// The outcome of the repository-status probe for `path`.
    pub fn ensure_repository(probe_succeeded: bool, path: &String) -> (r: Result<(), GitError>)
        ensures
            probe_succeeded ==> r is Ok,
            !probe_succeeded ==> r == Err::<(), GitError>(GitError::NoRepository(*path)),
    {
        if probe_succeeded {
            Ok(())
        } else {
            Err(GitError::NoRepository(path.clone()))
        }
    }

    /// The error of a failed log retrieval: the tool's diagnostic text, or a
    /// fixed message when it printed none.
    pub fn log_failure(diagnostic: &[u8]) -> (r: GitError)
        ensures
            r matches GitError::Other(m) && m@ == retrieval_failure_text(lossy_utf8(diagnostic@)),
    {
        let text = decode_lossy(diagnostic);
        let message = if text.as_str().is_empty() {
            String::from_str("Failure when trying to obtain commits")
        } else {
            text
        };
        GitError::Other(message)
    }

    /// Decodes raw log output, replacing invalid UTF-8, and splits it into lines.
    pub fn log_lines(output: &[u8]) -> (r: Vec<String>)
        ensures
            text_views(r@) == lines_of(lossy_utf8(output@)),
            valid_utf8(output@) ==> text_views(r@) == lines_of(decode_utf8(output@)),
    {
        let text = decode_lossy(output);
        std_lines(text.as_str())
    }

    /// Folds log lines into commits. `headers[i]` is what decoding `lines[i]`
    /// as a header line gave.
    pub fn translate_commits(lines: &Vec<String>, headers: &Vec<Option<Header>>) -> (r: Vec<Commit>)
        requires
            lines.len() == headers.len(),
        ensures
            commit_views(r@) == parse_lines(text_views(lines@), header_views(headers@)),
    {
        let mut commits: Vec<Commit> = Vec::new();
        let mut i: usize = 0;
        assert(commit_views(commits@) =~= seq![]);
        assert(text_views(lines@).take(0) =~= seq![]);
        while i < lines.len()
            invariant
                i <= lines.len(),
                lines.len() == headers.len(),
                commit_views(commits@) == parse_lines(
                    text_views(lines@).take(i as int),
                    header_views(headers@).take(i as int),
                ),
            decreases lines.len() - i,
        {
            let ghost before = commit_views(commits@);
            let ghost hv = header_views(headers@);
            let line = &lines[i];
            assert(text_views(lines@)[i as int] == line@);
            match &headers[i] {
                Some(h) => {
                    assert(hv[i as int] == Some(h@));
                    let c = Commit::from_header(h);
                    commits.push(c);
                    assert(commit_views(commits@) =~= fold_line(before, line@, hv[i as int]));
                },
                None => {
                    assert(hv[i as int] is None);
                    match commits.pop() {
                        Some(c) => {
                            let ghost rest = commit_views(commits@);
                            assert(before =~= rest.push(c@));
                            let mut c = c;
                            let ghost old_changes = text_views(c.changes@);
                            proof {
                                reveal_strlit("diff");
                                reveal_strlit("\n");
                            }
                            assert("diff"@ =~= diff_marker());
                            let ghost old_c = c@;
                            if std_contains(line.as_str(), "diff") {
                                c.changes.push(line.clone());
                                assert(text_views(c.changes@) =~= old_changes.push(line@));
                            } else if c.changes.len() > 0 {
                                match c.changes.pop() {
                                    Some(last) => {
                                        assert(last@ == old_changes.last());
                                        assert(text_views(c.changes@) =~= old_changes.drop_last());
                                        let mut last = last;
                                        last.append("\n");
                                        assert(last@ =~= old_changes.last() + seq!['\n']);
                                        last.append(line.as_str());
                                        c.changes.push(last);
                                        assert(text_views(c.changes@) =~= old_changes.update(
                                            old_changes.len() - 1,
                                            old_changes.last() + seq!['\n'] + line@,
                                        ));
                                    },
                                    None => {},
                                }
                            }
                            commits.push(c);
                            assert(commit_views(commits@) =~= rest.push(c@));
                            assert(c@.message == old_c.message && c@.author == old_c.author);
                            assert(before.update(before.len() - 1, c@) =~= rest.push(c@));
                            assert(commit_views(commits@) =~= fold_line(before, line@, hv[i as int]));
                        },
                        None => {
                            assert(before =~= seq![]);
                        },
                    }
                },
            }
            proof {
                let lv = text_views(lines@);
                assert(lv.take(i + 1).take(i as int) =~= lv.take(i as int));
                assert(hv.take(i + 1).take(i as int) =~= hv.take(i as int));
                assert(lv.take(i + 1)[i as int] == line@);
                assert(hv.take(i + 1)[i as int] == hv[i as int]);
            }
            i += 1;
        }
        assert(text_views(lines@).take(lines.len() as int) =~= text_views(lines@));
        assert(header_views(headers@).take(lines.len() as int) =~= header_views(headers@));
        commits
    }
}

} // verus!
