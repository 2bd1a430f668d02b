//! Downloading one course: a state machine driven by what the transfer reports.
use vstd::prelude::*;
use vstd::string::StringExecFns;

verus! {

/// Base address of the catalog service.
pub const BASE_URL: &'static str = "http://localhost:3030";

pub open spec fn base_url() -> Seq<char> {
    "http://localhost:3030"@
}

/// A course download, identified by its address.
pub struct Download {
    pub url: String,
}

impl Download {
    /// The download of catalog course `id`.
    pub fn for_course(id: &str) -> (r: Download)
        ensures
            r.url@ == base_url() + "/courses2/download/"@ + id@,
    {
        let mut url = String::from_str(BASE_URL);
        url.append("/courses2/download/");
        url.append(id);
        Download { url }
    }
}

/// What a download reports to whoever listens.
pub enum Progress {
    Started,
    /// Percent received, from 0 to 100.
    Advanced(u32),
    Finished(Vec<u8>),
    Errored,
}

/// Where a download stands.
pub enum State {
    Ready(String),
    Downloading { total: u64, data: Vec<u8> },
    Finished,
}

/// What the transfer reported last.
pub enum DownloadEvent {
    /// The request was answered, with the announced length if there was one.
    Responded(Option<u64>),
    RequestFailed,
    Chunk(Vec<u8>),
    Ended,
    ChunkFailed,
}

/// Percent of `total` that `received` makes, capped at 100; an empty total
/// counts as complete.
pub open spec fn percent(received: int, total: int) -> int {
    if total <= 0 {
        100
    } else if received * 100 / total > 100 {
        100
    } else {
        received * 100 / total
    }
}

pub fn percent_of(received: u64, total: u64) -> (r: u32)
    ensures
        r == percent(received as int, total as int),
        r <= 100,
{
    if total == 0 {
        return 100;
    }
    let p: u128 = received as u128 * 100 / total as u128;
    if p > 100 {
        100
    } else {
        p as u32
    }
}

/// One step of a download: what to report and where it stands next. A
/// finished download reports nothing more; an event that does not fit the
/// state changes nothing.
pub fn step(state: State, event: DownloadEvent) -> (r: (Option<Progress>, State))
    ensures
        match (state, event) {
            (State::Ready(_), DownloadEvent::Responded(Some(total))) => {
                &&& r.0 == Some(Progress::Started)
                &&& r.1 matches State::Downloading { total: t, data } && t == total && data@.len() == 0
            },
            (State::Ready(_), DownloadEvent::Responded(None)) | (State::Ready(_), DownloadEvent::RequestFailed) => {
                r.0 == Some(Progress::Errored) && r.1 is Finished
            },
            (State::Downloading { total, data }, DownloadEvent::Chunk(c)) => {
                &&& r.1 matches State::Downloading { total: t, data: d } && t == total && d@ == data@ + c@
                &&& r.0 == Some(Progress::Advanced(percent((data@.len() + c@.len()) as int, total as int) as u32))
            },
            (State::Downloading { total, data }, DownloadEvent::Ended) => {
                &&& r.0 matches Some(Progress::Finished(d)) && d@ == data@
                &&& r.1 is Finished
            },
            (State::Downloading { .. }, DownloadEvent::ChunkFailed) => {
                r.0 == Some(Progress::Errored) && r.1 is Finished
            },
            (State::Finished, _) => r.0 is None && r.1 is Finished,
            _ => r.0 is None && r.1 == state,
        },
{
    match state {
        State::Ready(url) => match event {
            DownloadEvent::Responded(Some(total)) => (
                Some(Progress::Started),
                State::Downloading { total, data: Vec::new() },
            ),
            DownloadEvent::Responded(None) => (Some(Progress::Errored), State::Finished),
            DownloadEvent::RequestFailed => (Some(Progress::Errored), State::Finished),
            _ => (None, State::Ready(url)),
        },
        State::Downloading { total, data } => match event {
            DownloadEvent::Chunk(c) => {
                let mut data = data;
                let mut c = c;
                data.append(&mut c);
                let p = percent_of(data.len() as u64, total);
                (Some(Progress::Advanced(p)), State::Downloading { total, data })
            },
            DownloadEvent::Ended => (Some(Progress::Finished(data)), State::Finished),
            DownloadEvent::ChunkFailed => (Some(Progress::Errored), State::Finished),
            _ => (None, State::Downloading { total, data }),
        },
        State::Finished => (None, State::Finished),
    }
}

} // verus!
