use vstd::prelude::*;

verus! {

/// The fields that a commit header line carries.
#[derive(Clone, Debug)]
pub struct Header {
    pub author: String,
    /// Seconds since the Unix epoch, UTC.
    pub time: i64,
    pub message: String,
}

/// One commit: its header fields and the diff blocks that followed it.
#[derive(Clone, Debug)]
pub struct Commit {
    pub message: String,
    pub author: String,
    /// Seconds since the Unix epoch, UTC.
    pub time: i64,
    pub changes: Vec<String>,
}

/// Mathematical value of a `Header`.
pub struct HeaderModel {
    pub author: Seq<char>,
    pub time: int,
    pub message: Seq<char>,
}

/// Mathematical value of a `Commit`.
pub struct CommitModel {
    pub message: Seq<char>,
    pub author: Seq<char>,
    pub time: int,
    pub changes: Seq<Seq<char>>,
}

impl View for Header {
    type V = HeaderModel;

    open spec fn view(&self) -> HeaderModel {
        HeaderModel { author: self.author@, time: self.time as int, message: self.message@ }
    }
}

impl View for Commit {
    type V = CommitModel;

    open spec fn view(&self) -> CommitModel {
        CommitModel {
            message: self.message@,
            author: self.author@,
            time: self.time as int,
            changes: text_views(self.changes@),
        }
    }
}

/// The character sequences of a sequence of strings.
pub open spec fn text_views(v: Seq<String>) -> Seq<Seq<char>> {
    v.map_values(|s: String| s@)
}

/// The models of a sequence of commits.
pub open spec fn commit_views(v: Seq<Commit>) -> Seq<CommitModel> {
    v.map_values(|c: Commit| c@)
}

/// The models of a sequence of per-line header decode results.
pub open spec fn header_views(v: Seq<Option<Header>>) -> Seq<Option<HeaderModel>> {
    v.map_values(|h: Option<Header>| match h {
        Some(h) => Some(h@),
        None => None,
    })
}

/// The commit that a header opens: its fields, and no changes yet.
pub open spec fn commit_of(h: HeaderModel) -> CommitModel {
    CommitModel { message: h.message, author: h.author, time: h.time, changes: seq![] }
}

impl Header {
    pub fn new(author: String, time: i64, message: String) -> (r: Header)
        ensures
            r.author == author,
            r.time == time,
            r.message == message,
    {
        Header { author, time, message }
    }
}

impl Commit {
    /// A commit with the fields of `header` and no changes.
    pub fn from_header(header: &Header) -> (r: Commit)
        ensures
            r@ == commit_of(header@),
    {
        let changes: Vec<String> = Vec::new();
        let r = Commit {
            message: header.message.clone(),
            author: header.author.clone(),
            time: header.time,
            changes,
        };
        assert(text_views(r.changes@) =~= Seq::<Seq<char>>::empty());
        r
    }
}

} // verus!
