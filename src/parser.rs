use vstd::prelude::*;
use vstd::utf8::{decode_utf8, valid_utf8};

use crate::models::{commit_of, text_views, CommitModel, HeaderModel};

verus! {

/// The marker whose presence anywhere in a line opens a new diff block.
pub open spec fn diff_marker() -> Seq<char> {
    seq!['d', 'i', 'f', 'f']
}

/// `pat` occurs in `s` as a contiguous run.
pub open spec fn contains_seq(s: Seq<char>, pat: Seq<char>) -> bool {
    exists|i: int| 0 <= i && i + pat.len() <= s.len() && #[trigger] s.subrange(i, i + pat.len()) == pat
}

/// A line that opens a new diff block.
pub open spec fn is_diff_line(line: Seq<char>) -> bool {
    contains_seq(line, diff_marker())
}

/// A line without its carriage return, where it ends in one.
pub open spec fn strip_cr(line: Seq<char>) -> Seq<char> {
    if line.len() > 0 && line.last() == '\r' {
        line.drop_last()
    } else {
        line
    }
}

/// Lines of `s`, given the characters `cur` already read of the current line.
pub open spec fn lines_from(s: Seq<char>, cur: Seq<char>) -> Seq<Seq<char>>
    decreases s.len(),
{
    if s.len() == 0 {
        if cur.len() == 0 {
            seq![]
        } else {
            seq![cur]
        }
    } else if s[0] == '\n' {
        seq![strip_cr(cur)] + lines_from(s.drop_first(), seq![])
    } else {
        lines_from(s.drop_first(), cur.push(s[0]))
    }
}

/// The lines of a text: split at each `\n`, a `\r` before it dropped, the
/// final line ending optional.
pub open spec fn lines_of(s: Seq<char>) -> Seq<Seq<char>> {
    lines_from(s, seq![])
}

/// The commits after one more line, given what decoding it as a header gave.
pub open spec fn fold_line(
    acc: Seq<CommitModel>,
    line: Seq<char>,
    header: Option<HeaderModel>,
) -> Seq<CommitModel> {
    match header {
        Some(h) => acc.push(commit_of(h)),
        None => if acc.len() == 0 {
            acc
        } else {
            let c = acc.last();
            if is_diff_line(line) {
                acc.update(
                    acc.len() - 1,
                    CommitModel {
                        message: c.message,
                        author: c.author,
                        time: c.time,
                        changes: c.changes.push(line),
                    },
                )
            } else if c.changes.len() > 0 {
                acc.update(
                    acc.len() - 1,
                    CommitModel {
                        message: c.message,
                        author: c.author,
                        time: c.time,
                        changes: c.changes.update(
                            c.changes.len() - 1,
                            c.changes.last() + seq!['\n'] + line,
                        ),
                    },
                )
            } else {
                acc
            }
        },
    }
}

/// The commits that a run of lines gives, `headers[i]` being what decoding
/// `lines[i]` as a header gave.
pub open spec fn parse_lines(
    lines: Seq<Seq<char>>,
    headers: Seq<Option<HeaderModel>>,
) -> Seq<CommitModel>
    decreases lines.len(),
{
    if lines.len() == 0 {
        seq![]
    } else {
        let n = lines.len() - 1;
        fold_line(parse_lines(lines.take(n), headers.take(n)), lines[n], headers[n])
    }
}

/// Empty log text has no lines, and no lines give no commits.
pub proof fn lemma_empty_parses_to_nothing()
    ensures
        lines_of(Seq::<char>::empty()) == Seq::<Seq<char>>::empty(),
        parse_lines(seq![], seq![]) == Seq::<CommitModel>::empty(),
{
}

/// A single header line gives exactly one commit, with the header's fields
/// and no changes.
pub proof fn lemma_header_alone(line: Seq<char>, h: HeaderModel)
    ensures
        parse_lines(seq![line], seq![Some(h)]) == seq![commit_of(h)],
{
    let lines = seq![line];
    let headers = seq![Some(h)];
    assert(lines.take(1) =~= lines);
    assert(headers.take(1) =~= headers);
    assert(lines.take(0) =~= seq![]);
    assert(headers.take(0) =~= seq![]);
    lemma_parse_step(lines, headers, 0);
    assert(parse_prefix(lines, headers, 1) =~= seq![commit_of(h)]);
}

/// The commits of the first `n` lines.
spec fn parse_prefix(lines: Seq<Seq<char>>, headers: Seq<Option<HeaderModel>>, n: int) -> Seq<CommitModel> {
    parse_lines(lines.take(n), headers.take(n))
}

/// One more line folds into the commits of the lines before it.
proof fn lemma_parse_step(lines: Seq<Seq<char>>, headers: Seq<Option<HeaderModel>>, n: int)
    requires
        0 <= n < lines.len(),
        lines.len() == headers.len(),
    ensures
        parse_prefix(lines, headers, n + 1) == fold_line(parse_prefix(lines, headers, n), lines[n], headers[n]),
{
    assert(lines.take(n + 1).take(n) =~= lines.take(n));
    assert(headers.take(n + 1).take(n) =~= headers.take(n));
}

/// A header followed by two diff lines gives one commit whose changes are
/// those two lines, in order.
pub proof fn lemma_diff_lines_accumulate(
    header_line: Seq<char>,
    h: HeaderModel,
    d1: Seq<char>,
    d2: Seq<char>,
)
    requires
        is_diff_line(d1),
        is_diff_line(d2),
    ensures
        parse_lines(seq![header_line, d1, d2], seq![Some(h), None, None]) == seq![
            CommitModel { message: h.message, author: h.author, time: h.time, changes: seq![d1, d2] },
        ],
{
    let lines = seq![header_line, d1, d2];
    let headers = seq![Some(h), None, None];
    assert(lines.take(3) =~= lines);
    assert(headers.take(3) =~= headers);
    assert(lines.take(0) =~= seq![]);
    assert(headers.take(0) =~= seq![]);
    lemma_parse_step(lines, headers, 0);
    lemma_parse_step(lines, headers, 1);
    lemma_parse_step(lines, headers, 2);
    assert(parse_prefix(lines, headers, 1) =~= seq![commit_of(h)]);
    assert(parse_prefix(lines, headers, 2) =~= seq![
        CommitModel { message: h.message, author: h.author, time: h.time, changes: seq![d1] },
    ]);
    assert(seq![d1].push(d2) =~= seq![d1, d2]);
    assert(parse_prefix(lines, headers, 3) =~= seq![
        CommitModel { message: h.message, author: h.author, time: h.time, changes: seq![d1, d2] },
    ]);
}

/// A line that is neither a header nor a diff line, after a diff line, is
/// appended to that diff block after a newline.
pub proof fn lemma_continuation_folds(
    header_line: Seq<char>,
    h: HeaderModel,
    d: Seq<char>,
    content: Seq<char>,
)
    requires
        is_diff_line(d),
        !is_diff_line(content),
    ensures
        parse_lines(seq![header_line, d, content], seq![Some(h), None, None]) == seq![
            CommitModel {
                message: h.message,
                author: h.author,
                time: h.time,
                changes: seq![d + seq!['\n'] + content],
            },
        ],
{
    let lines = seq![header_line, d, content];
    let headers = seq![Some(h), None, None];
    assert(lines.take(3) =~= lines);
    assert(headers.take(3) =~= headers);
    assert(lines.take(0) =~= seq![]);
    assert(headers.take(0) =~= seq![]);
    lemma_parse_step(lines, headers, 0);
    lemma_parse_step(lines, headers, 1);
    lemma_parse_step(lines, headers, 2);
    assert(parse_prefix(lines, headers, 1) =~= seq![commit_of(h)]);
    assert(parse_prefix(lines, headers, 2) =~= seq![
        CommitModel { message: h.message, author: h.author, time: h.time, changes: seq![d] },
    ]);
    assert(seq![d].update(0, d + seq!['\n'] + content) =~= seq![d + seq!['\n'] + content]);
    assert(parse_prefix(lines, headers, 3) =~= seq![
        CommitModel {
            message: h.message,
            author: h.author,
            time: h.time,
            changes: seq![d + seq!['\n'] + content],
        },
    ]);
}

/// A plain line (no header, no diff marker) that comes before any commit, or
/// before the current commit has a diff block, leaves the commits unchanged.
pub proof fn lemma_noise_discarded(
    lines: Seq<Seq<char>>,
    headers: Seq<Option<HeaderModel>>,
    k: int,
)
    requires
        lines.len() == headers.len(),
        0 <= k < lines.len(),
        headers[k] is None,
        !is_diff_line(lines[k]),
        parse_lines(lines.take(k), headers.take(k)).len() == 0
            || parse_lines(lines.take(k), headers.take(k)).last().changes.len() == 0,
    ensures
        parse_lines(lines.take(k + 1), headers.take(k + 1)) == parse_lines(lines.take(k), headers.take(k)),
{
    lemma_parse_step(lines, headers, k);
}

/// Two headers, each followed by a diff line, give the two commits in order,
/// each holding only its own diff line.
pub proof fn lemma_commits_in_order(
    line_a: Seq<char>,
    a: HeaderModel,
    diff_a: Seq<char>,
    line_b: Seq<char>,
    b: HeaderModel,
    diff_b: Seq<char>,
)
    requires
        is_diff_line(diff_a),
        is_diff_line(diff_b),
    ensures
        parse_lines(seq![line_a, diff_a, line_b, diff_b], seq![Some(a), None, Some(b), None]) == seq![
            CommitModel { message: a.message, author: a.author, time: a.time, changes: seq![diff_a] },
            CommitModel { message: b.message, author: b.author, time: b.time, changes: seq![diff_b] },
        ],
{
    let lines = seq![line_a, diff_a, line_b, diff_b];
    let headers = seq![Some(a), None, Some(b), None];
    let ca = CommitModel { message: a.message, author: a.author, time: a.time, changes: seq![diff_a] };
    let cb = CommitModel { message: b.message, author: b.author, time: b.time, changes: seq![diff_b] };
    assert(lines.take(4) =~= lines);
    assert(headers.take(4) =~= headers);
    assert(lines.take(0) =~= seq![]);
    assert(headers.take(0) =~= seq![]);
    lemma_parse_step(lines, headers, 0);
    lemma_parse_step(lines, headers, 1);
    lemma_parse_step(lines, headers, 2);
    lemma_parse_step(lines, headers, 3);
    assert(parse_prefix(lines, headers, 1) =~= seq![commit_of(a)]);
    assert(parse_prefix(lines, headers, 2) =~= seq![ca]);
    assert(parse_prefix(lines, headers, 3) =~= seq![ca, commit_of(b)]);
    assert(parse_prefix(lines, headers, 4) =~= seq![ca, cb]);
}

/// Folding a line never shortens the commits, and leaves every commit but
/// the last as it was.
proof fn lemma_fold_keeps_earlier(acc: Seq<CommitModel>, line: Seq<char>, header: Option<HeaderModel>)
    ensures
        fold_line(acc, line, header).len() >= acc.len(),
        forall|i: int| 0 <= i < acc.len() - 1 ==> #[trigger] fold_line(acc, line, header)[i] == acc[i],
{
}

/// Later lines never change a commit once a newer one has started: every
/// commit of the first `n` lines but the last stands unchanged in the
/// commits of the first `m` lines, for `n <= m`.
pub proof fn lemma_earlier_commits_stay(
    lines: Seq<Seq<char>>,
    headers: Seq<Option<HeaderModel>>,
    n: int,
    m: int,
)
    requires
        lines.len() == headers.len(),
        0 <= n <= m <= lines.len(),
    ensures
        parse_lines(lines.take(m), headers.take(m)).len() >= parse_lines(lines.take(n), headers.take(n)).len(),
        forall|i: int|
            0 <= i < parse_lines(lines.take(n), headers.take(n)).len() - 1 ==> #[trigger] parse_lines(
                lines.take(m),
                headers.take(m),
            )[i] == parse_lines(lines.take(n), headers.take(n))[i],
    decreases m - n,
{
    if m > n {
        lemma_earlier_commits_stay(lines, headers, n, m - 1);
        lemma_parse_step(lines, headers, m - 1);
        lemma_fold_keeps_earlier(parse_prefix(lines, headers, m - 1), lines[m - 1], headers[m - 1]);
    }
}

/// The text that lossy UTF-8 decoding makes of `bytes`.
pub uninterp spec fn lossy_utf8(bytes: Seq<u8>) -> Seq<char>;

/// Relies on `String::from_utf8_lossy`: valid UTF-8 decodes as it is, and each
/// invalid sequence becomes one U+FFFD, so only empty input gives empty text.
#[verifier::external_body]
pub(crate) fn decode_lossy(bytes: &[u8]) -> (r: String)
    ensures
        r@ == lossy_utf8(bytes@),
        valid_utf8(bytes@) ==> r@ == decode_utf8(bytes@),
        r@.len() == 0 <==> bytes@.len() == 0,
{
    String::from_utf8_lossy(bytes).into_owned()
}

/// Relies on `str::lines`: splits at `\n` and at `\r\n`, drops the line
/// terminators, and gives no empty last line for a final line ending.
#[verifier::external_body]
pub(crate) fn std_lines(text: &str) -> (r: Vec<String>)
    ensures
        text_views(r@) == lines_of(text@),
{
    text.lines().map(String::from).collect()
}

/// Relies on `str::contains`: true when the pattern occurs in the line.
#[verifier::external_body]
pub(crate) fn std_contains(line: &str, pat: &str) -> (r: bool)
    ensures
        r == contains_seq(line@, pat@),
{
    line.contains(pat)
}

} // verus!
