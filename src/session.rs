use vstd::prelude::*;

use crate::fingerprint::{create_hash, hash_result, HashError};
use crate::remote::{
    download_body_of, download_endpoint, download_link, download_request_body, download_url,
    file_ids, file_ids_of, link_of, lookup_endpoint, lookup_query, lookup_url, url_with_query,
    ProtocolError,
};

verus! {

/// How a directory entry takes part in a scan.
#[derive(Clone, Copy, Debug, PartialEq, Eq, Structural)]
pub enum EntryKind {
    /// A directory: scanned in turn.
    Directory,
    /// A video file: a subtitle is sought for it.
    Video,
    /// Anything else: passed over.
    Ignored,
}

/// Whether a file extension marks a video file.
pub fn is_video_extension(ext: &str) -> (r: bool)
    ensures
        r == (ext@ == "avi"@),
{
    let e = String::from_str(ext);
    let avi = String::from_str("avi");
    e == avi
}

/// Whether an entry with this extension (if any) is a video file.
pub open spec fn marks_video(extension: Option<&str>) -> bool {
    match extension {
        Some(e) => e@ == "avi"@,
        None => false,
    }
}

/// Classifies a directory entry from whether it is a directory and its extension.
pub fn classify_entry(is_dir: bool, extension: Option<&str>) -> (r: EntryKind)
    ensures
        r == (if is_dir {
            EntryKind::Directory
        } else if marks_video(extension) {
            EntryKind::Video
        } else {
            EntryKind::Ignored
        }),
{
    if is_dir {
        EntryKind::Directory
    } else {
        match extension {
            Some(e) => if is_video_extension(e) {
                EntryKind::Video
            } else {
                EntryKind::Ignored
            },
            None => EntryKind::Ignored,
        }
    }
}

/// Outside work that could not be done.
#[derive(Clone, Copy, Debug, PartialEq, Eq, Structural)]
pub enum Failure {
    /// The video file could not be read.
    Filesystem,
    /// A request could not be sent or its response not received.
    Transport,
    /// The subtitle file could not be created or written.
    Write,
}

/// Why one video file got no subtitle.
#[derive(Clone, Copy, Debug, PartialEq, Eq, Structural)]
pub enum FileError {
    /// The video file could not be read.
    Filesystem,
    /// The fingerprint could not be computed.
    Hash(HashError),
    /// A request could not be sent or its response not received.
    Transport,
    /// A response did not have the protocol's shape.
    Protocol(ProtocolError),
    /// The lookup URL could not be built.
    BadUrl,
    /// The subtitle file could not be created or written.
    Write,
    /// An event came that the current stage does not await.
    OutOfOrder,
}

/// The error that a failure of outside work amounts to.
pub open spec fn failure_error(f: Failure) -> FileError {
    match f {
        Failure::Filesystem => FileError::Filesystem,
        Failure::Transport => FileError::Transport,
        Failure::Write => FileError::Write,
    }
}

/// What became of one video file.
#[derive(Debug)]
pub enum Outcome {
    /// A subtitle file was already there.
    Skipped,
    /// The service knows no subtitle for the fingerprint `hash`.
    NoCandidates { hash: String },
    /// The subtitle file was written.
    Downloaded,
    /// The file was given up.
    Failed(FileError),
}

/// Where the handling of one video file stands.
#[derive(Debug)]
pub enum Stage {
    /// Awaiting whether the sibling subtitle file exists.
    Start,
    /// Awaiting the size and the first and last blocks of the video file.
    Reading,
    /// Awaiting the lookup response for fingerprint `hash`.
    LookingUp { hash: String },
    /// Awaiting the download-resolution response.
    Resolving,
    /// Awaiting the subtitle bytes.
    Fetching,
    /// Awaiting the write of the subtitle file.
    Writing,
    /// Finished.
    Done,
}

/// What the outside world reports back.
#[derive(Debug)]
pub enum Event {
    /// Whether the sibling subtitle file exists.
    SiblingChecked { exists: bool },
    /// The file's size and its first and last block, as read.
    BlocksRead { size: u64, head: Vec<u8>, tail: Vec<u8> },
    /// The text of a response of the service.
    Response { body: String },
    /// The bytes that the download link gave.
    Fetched { bytes: Vec<u8> },
    /// The subtitle file was written.
    Written,
    /// The outside work asked for could not be done.
    Failed { cause: Failure },
}

/// What the outside world is asked to do next.
#[derive(Debug)]
pub enum Action {
    /// Read the file's size and its first and last block.
    ReadBlocks,
    /// Send the lookup request for fingerprint `hash`: a GET of `url` with the credentials.
    Lookup { hash: String, url: String },
    /// Send the download-resolution request: a POST of `body` to `url` with the credentials.
    Resolve { url: String, body: String },
    /// Fetch the subtitle bytes: a plain GET of `url`.
    Fetch { url: String },
    /// Create or truncate the sibling subtitle file and write `bytes` to it.
    Write { bytes: Vec<u8> },
    /// Stop, with this outcome.
    Report(Outcome),
}

/// Finishing with `outcome`.
pub open spec fn finish(next: Stage, a: Action, outcome: Outcome) -> bool {
    next == Stage::Done && a == Action::Report(outcome)
}

/// The step that `event` causes at stage `s`: `next` is the new stage and `a` the
/// action asked for.
pub open spec fn transition(s: Stage, event: Event, next: Stage, a: Action) -> bool {
    match event {
        Event::Failed { cause } => finish(next, a, Outcome::Failed(failure_error(cause))),
        Event::SiblingChecked { exists } => if s is Start {
            if exists {
                finish(next, a, Outcome::Skipped)
            } else {
                next == Stage::Reading && a == Action::ReadBlocks
            }
        } else {
            finish(next, a, Outcome::Failed(FileError::OutOfOrder))
        },
        Event::BlocksRead { size, head, tail } => if s is Reading {
            match hash_result(size, head@, tail@) {
                Err(e) => finish(next, a, Outcome::Failed(FileError::Hash(e))),
                Ok(h) => match url_with_query(lookup_endpoint(), lookup_query(h)) {
                    None => finish(next, a, Outcome::Failed(FileError::BadUrl)),
                    Some(u) => (next matches Stage::LookingUp { hash } && hash@ == h) && (a matches Action::Lookup {
                        hash: ah,
                        url,
                    } && ah@ == h && url@ == u),
                },
            }
        } else {
            finish(next, a, Outcome::Failed(FileError::OutOfOrder))
        },
        Event::Response { body } => match s {
            Stage::LookingUp { hash } => match file_ids_of(body@) {
                None => finish(
                    next,
                    a,
                    Outcome::Failed(FileError::Protocol(ProtocolError::MissingFileIds)),
                ),
                Some(ids) => if ids.len() == 0 {
                    next == Stage::Done && (a matches Action::Report(Outcome::NoCandidates { hash: h })
                        && h@ == hash@)
                } else {
                    next == Stage::Resolving && (a matches Action::Resolve { url, body: b }
                        && url@ == download_endpoint() && b@ == download_body_of(ids[0]))
                },
            },
            Stage::Resolving => match link_of(body@) {
                None => finish(
                    next,
                    a,
                    Outcome::Failed(FileError::Protocol(ProtocolError::MissingLink)),
                ),
                Some(link) => next == Stage::Fetching && (a matches Action::Fetch { url } && url@ == link),
            },
            _ => finish(next, a, Outcome::Failed(FileError::OutOfOrder)),
        },
        Event::Fetched { bytes } => if s is Fetching {
            next == Stage::Writing && (a matches Action::Write { bytes: b } && b@ == bytes@)
        } else {
            finish(next, a, Outcome::Failed(FileError::OutOfOrder))
        },
        Event::Written => if s is Writing {
            finish(next, a, Outcome::Downloaded)
        } else {
            finish(next, a, Outcome::Failed(FileError::OutOfOrder))
        },
    }
}

fn fail(e: FileError) -> (r: (Stage, Action))
    ensures
        finish(r.0, r.1, Outcome::Failed(e)),
{
    (Stage::Done, Action::Report(Outcome::Failed(e)))
}

fn out_of_order() -> (r: (Stage, Action))
    ensures
        finish(r.0, r.1, Outcome::Failed(FileError::OutOfOrder)),
{
    fail(FileError::OutOfOrder)
}

fn failure_to_error(f: Failure) -> (r: FileError)
    ensures
        r == failure_error(f),
{
    match f {
        Failure::Filesystem => FileError::Filesystem,
        Failure::Transport => FileError::Transport,
        Failure::Write => FileError::Write,
    }
}

/// Decides, for one video file at stage `s`, what `event` leads to: the next
/// stage and the next action. A file ends after the first failure, the first
/// lookup that finds nothing, or the write of its subtitle.
pub fn step(s: Stage, event: Event) -> (r: (Stage, Action))
    ensures
        transition(s, event, r.0, r.1),
{
    match event {
        Event::Failed { cause } => fail(failure_to_error(cause)),
        Event::SiblingChecked { exists } => match s {
            Stage::Start => if exists {
                (Stage::Done, Action::Report(Outcome::Skipped))
            } else {
                (Stage::Reading, Action::ReadBlocks)
            },
            _ => out_of_order(),
        },
        Event::BlocksRead { size, head, tail } => match s {
            Stage::Reading => match create_hash(size, head.as_slice(), tail.as_slice()) {
                Err(e) => fail(FileError::Hash(e)),
                Ok(hash) => match lookup_url(hash.as_str()) {
                    None => fail(FileError::BadUrl),
                    Some(url) => {
                        let shown = hash.clone();
                        (Stage::LookingUp { hash }, Action::Lookup { hash: shown, url })
                    },
                },
            },
            _ => out_of_order(),
        },
        Event::Response { body } => match s {
            Stage::LookingUp { hash } => match file_ids(body.as_str()) {
                Err(e) => fail(FileError::Protocol(e)),
                Ok(ids) => if ids.len() == 0 {
                    (Stage::Done, Action::Report(Outcome::NoCandidates { hash }))
                } else {
                    let first = ids[0];
                    (
                        Stage::Resolving,
                        Action::Resolve { url: download_url(), body: download_request_body(first) },
                    )
                },
            },
            Stage::Resolving => match download_link(body.as_str()) {
                Err(e) => fail(FileError::Protocol(e)),
                Ok(url) => (Stage::Fetching, Action::Fetch { url }),
            },
            _ => out_of_order(),
        },
        Event::Fetched { bytes } => match s {
            Stage::Fetching => (Stage::Writing, Action::Write { bytes }),
            _ => out_of_order(),
        },
        Event::Written => match s {
            Stage::Writing => (Stage::Done, Action::Report(Outcome::Downloaded)),
            _ => out_of_order(),
        },
    }
}

/// Counts of what became of the video files of one run.
#[derive(Clone, Copy, Debug, PartialEq, Eq, Structural)]
pub struct Summary {
    pub skipped: u64,
    pub no_candidates: u64,
    pub downloaded: u64,
    pub failed: u64,
}

impl Summary {
    /// A summary of no files.
    pub fn new() -> (r: Summary)
        ensures
            r == (Summary { skipped: 0, no_candidates: 0, downloaded: 0, failed: 0 }),
    {
        Summary { skipped: 0, no_candidates: 0, downloaded: 0, failed: 0 }
    }

    /// Counts one more file, with outcome `outcome`.
    pub fn record(&mut self, outcome: &Outcome)
        requires
            old(self).skipped < u64::MAX,
            old(self).no_candidates < u64::MAX,
            old(self).downloaded < u64::MAX,
            old(self).failed < u64::MAX,
        ensures
            *final(self) == (match *outcome {
                Outcome::Skipped => Summary { skipped: (old(self).skipped + 1) as u64, ..*old(self) },
                Outcome::NoCandidates { .. } => Summary {
                    no_candidates: (old(self).no_candidates + 1) as u64,
                    ..*old(self)
                },
                Outcome::Downloaded => Summary { downloaded: (old(self).downloaded + 1) as u64, ..*old(self) },
                Outcome::Failed(_) => Summary { failed: (old(self).failed + 1) as u64, ..*old(self) },
            }),
    {
        match outcome {
            Outcome::Skipped => self.skipped = self.skipped + 1,
            Outcome::NoCandidates { .. } => self.no_candidates = self.no_candidates + 1,
            Outcome::Downloaded => self.downloaded = self.downloaded + 1,
            Outcome::Failed(_) => self.failed = self.failed + 1,
        }
    }
}

} // verus!
