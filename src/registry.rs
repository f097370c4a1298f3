use std::collections::HashMap;

use vstd::prelude::*;

use crate::format::ConverterFormat;
use crate::job::{new_auth_token, opt_text, output_path_spec, artifact_path, Job};
use crate::text::{join2, same_text};

verus! {

broadcast use vstd::std_specs::hash::group_hash_axioms;

pub uninterp spec fn mime_for(path: Seq<char>) -> Seq<char>;

/// Relies on `mime_guess::from_path(..).first_or_octet_stream()`: the
/// media type that the path's extension maps to, `application/octet-stream`
/// when it maps to none. The result depends on the path alone.
#[verifier::external_body]
fn guess_mime(path: &str) -> (r: String)
    ensures
        r@ == mime_for(path@),
{
    mime_guess::from_path(path).first_or_octet_stream().to_string()
}

/// Why a `StartJob` request was refused.
#[derive(Clone, Copy, Debug, PartialEq, Eq, Structural)]
pub enum StartError {
    JobNotFound,
    AlreadyCompleted,
    InvalidToken,
    AlreadyStarted,
    InvalidInputFormat,
    InvalidOutputFormat,
}

impl StartError {
    pub open spec fn message_spec(self) -> Seq<char> {
        match self {
            StartError::JobNotFound => "job not found"@,
            StartError::AlreadyCompleted => "job already completed"@,
            StartError::InvalidToken => "invalid token"@,
            StartError::AlreadyStarted => "job already started"@,
            StartError::InvalidInputFormat => "invalid input format"@,
            StartError::InvalidOutputFormat => "invalid output format"@,
        }
    }

    /// The short message reported to the caller.
    pub fn message(&self) -> (r: &'static str)
        ensures
            r@ == self.message_spec(),
    {
        match self {
            StartError::JobNotFound => "job not found",
            StartError::AlreadyCompleted => "job already completed",
            StartError::InvalidToken => "invalid token",
            StartError::AlreadyStarted => "job already started",
            StartError::InvalidInputFormat => "invalid input format",
            StartError::InvalidOutputFormat => "invalid output format",
        }
    }
}

/// Why a download was refused.
#[derive(Clone, Debug, PartialEq, Eq)]
pub enum DownloadError {
    /// Unknown or reclaimed id, or no output artifact on disk.
    JobNotFound,
    /// The job was never started, so it has no output.
    IncompleteHandshake,
    InvalidToken,
    /// Reading or removing the artifact failed; the text says how.
    FilesystemError(String),
}

impl DownloadError {
    pub open spec fn message_spec(&self) -> Seq<char> {
        match self {
            DownloadError::JobNotFound => "job not found"@,
            DownloadError::IncompleteHandshake => "incomplete websocket handshake"@,
            DownloadError::InvalidToken => "invalid token"@,
            DownloadError::FilesystemError(e) => "filesystem error: "@ + e@,
        }
    }

    /// The short message reported to the caller.
    pub fn message(&self) -> (r: String)
        ensures
            r@ == self.message_spec(),
    {
        match self {
            DownloadError::JobNotFound => String::from_str("job not found"),
            DownloadError::IncompleteHandshake => String::from_str("incomplete websocket handshake"),
            DownloadError::InvalidToken => String::from_str("invalid token"),
            DownloadError::FilesystemError(e) => join2("filesystem error: ", e.as_str()),
        }
    }

    /// The HTTP status that reports this error.
    pub fn status_code(&self) -> (r: u16)
        ensures
            r == (match self {
                DownloadError::JobNotFound => 404u16,
                DownloadError::IncompleteHandshake => 400u16,
                DownloadError::InvalidToken => 401u16,
                DownloadError::FilesystemError(_) => 500u16,
            }),
    {
        match self {
            DownloadError::JobNotFound => 404,
            DownloadError::IncompleteHandshake => 400,
            DownloadError::InvalidToken => 401,
            DownloadError::FilesystemError(_) => 500,
        }
    }
}

/// Whether some format is named `s`.
pub open spec fn is_format_name(s: Seq<char>) -> bool {
    exists|f: ConverterFormat| #[trigger] f.name() == s
}

/// The outcome of `StartJob` on a registry whose contents are `m`.
pub open spec fn start_outcome(m: Map<u128, Job>, id: u128, token: Seq<char>, to: Seq<char>) -> Result<
    (),
    StartError,
> {
    if !m.contains_key(id) {
        Err(StartError::JobNotFound)
    } else if m[id].completed {
        Err(StartError::AlreadyCompleted)
    } else if m[id].auth@ != token {
        Err(StartError::InvalidToken)
    } else if m[id].to is Some {
        Err(StartError::AlreadyStarted)
    } else if !is_format_name(m[id].from@) {
        Err(StartError::InvalidInputFormat)
    } else if !is_format_name(to) {
        Err(StartError::InvalidOutputFormat)
    } else {
        Ok(())
    }
}

/// `new` is `old` with its target format set to `to`.
pub open spec fn started_as(old: Job, new: Job, to: Seq<char>) -> bool {
    &&& new.id == old.id
    &&& new.auth == old.auth
    &&& new.from == old.from
    &&& opt_text(new.to) == Some(to)
    &&& new.completed == old.completed
    &&& new.total_frames == old.total_frames
    &&& new.bitrate == old.bitrate
    &&& new.fps == old.fps
}

/// `new` is `old` marked completed.
pub open spec fn completed_as(old: Job, new: Job) -> bool {
    &&& new.id == old.id
    &&& new.auth == old.auth
    &&& new.from == old.from
    &&& new.to == old.to
    &&& new.completed
    &&& new.total_frames == old.total_frames
    &&& new.bitrate == old.bitrate
    &&& new.fps == old.fps
}

/// A job whose conversion may begin, with its parsed formats.
#[derive(Debug)]
pub struct StartedJob {
    pub job: Job,
    pub from: ConverterFormat,
    pub to: ConverterFormat,
}

/// What a successful download hands out: where the artifact is, and its
/// media type.
#[derive(Debug)]
pub struct DownloadTicket {
    pub path: String,
    pub mime: String,
}

/// The outcome of a download request on a registry whose contents are `m`.
pub open spec fn download_outcome(m: Map<u128, Job>, id: u128, token: Seq<char>) -> Result<
    Seq<char>,
    DownloadError,
> {
    if !m.contains_key(id) {
        Err(DownloadError::JobNotFound)
    } else if m[id].auth@ != token {
        Err(DownloadError::InvalidToken)
    } else {
        match m[id].to {
            Some(to) => Ok(output_path_spec(id, to@)),
            None => Err(DownloadError::IncompleteHandshake),
        }
    }
}

/// The job registry: every job by its id. Shared by all request handlers
/// behind one lock that is held for single lookups and updates only.
#[derive(Debug)]
pub struct AppState {
    jobs: HashMap<u128, Job>,
}

impl View for AppState {
    type V = Map<u128, Job>;

    closed spec fn view(&self) -> Map<u128, Job> {
        self.jobs@
    }
}

impl AppState {
    /// Every job is filed under its own id.
    pub open spec fn wf(&self) -> bool {
        forall|id: u128| #[trigger] self@.contains_key(id) ==> self@[id].id == id
    }

    /// An empty registry.
    pub fn default() -> (r: Self)
        ensures
            r@ == Map::<u128, Job>::empty(),
            r.wf(),
    {
        AppState { jobs: HashMap::new() }
    }

    /// Files `job` under its id.
    pub fn register(&mut self, job: Job)
        requires
            old(self).wf(),
        ensures
            final(self)@ == old(self)@.insert(job.id, job),
            final(self).wf(),
    {
        self.jobs.insert(job.id, job);
    }

    /// Creates and files a job for an upload in format `from`, with a fresh
    /// id and a fresh random token; gives a copy of it.
    pub fn create_job(&mut self, from: String) -> (r: Job)
        requires
            old(self).wf(),
        ensures
            final(self)@ == old(self)@.insert(r.id, r),
            final(self).wf(),
            r.from == from,
            r.auth@.len() == 128,
            r.to is None,
            !r.completed,
    {
        let job = Job::new(new_auth_token(), from);
        let copy = job.snapshot();
        self.register(job);
        copy
    }

    /// A copy of the job filed under `id`.
    pub fn get(&self, id: u128) -> (r: Option<Job>)
        ensures
            r == (if self@.contains_key(id) {
                Some(self@[id])
            } else {
                None
            }),
    {
        match self.jobs.get(&id) {
            Some(j) => Some(j.snapshot()),
            None => None,
        }
    }

    /// Whether a job is filed under `id`.
    pub fn contains(&self, id: u128) -> (r: bool)
        ensures
            r == self@.contains_key(id),
    {
        self.jobs.contains_key(&id)
    }

    /// Removes the job filed under `id`, if any; removing twice is the
    /// same as removing once.
    pub fn reclaim(&mut self, id: u128)
        requires
            old(self).wf(),
        ensures
            final(self)@ == old(self)@.remove(id),
            final(self).wf(),
    {
        self.jobs.remove(&id);
    }

    /// Handles the registry part of `StartJob`: the job must exist, not be
    /// completed or started, carry `token`, and both its source format and
    /// `to` must be known formats. Only then is its target format set, and
    /// a copy is handed out; on any refusal nothing changes.
    pub fn start_job(&mut self, id: u128, token: &str, to: &str) -> (r: Result<StartedJob, StartError>)
        requires
            old(self).wf(),
        ensures
            final(self).wf(),
            r is Ok <==> start_outcome(old(self)@, id, token@, to@) is Ok,
            r matches Err(e) ==> start_outcome(old(self)@, id, token@, to@) == Err::<(), StartError>(e),
            r is Err ==> final(self)@ == old(self)@,
            r matches Ok(s) ==> {
                &&& final(self)@ == old(self)@.insert(id, s.job)
                &&& started_as(old(self)@[id], s.job, to@)
                &&& s.from.name() == old(self)@[id].from@
                &&& s.to.name() == to@
            },
    {
        let job = match self.jobs.get(&id) {
            Some(j) => j.snapshot(),
            None => return Err(StartError::JobNotFound),
        };
        if job.completed {
            return Err(StartError::AlreadyCompleted);
        }
        if !same_text(job.auth.as_str(), token) {
            return Err(StartError::InvalidToken);
        }
        if job.to.is_some() {
            return Err(StartError::AlreadyStarted);
        }
        let from = match ConverterFormat::from_str(job.from.as_str()) {
            Some(f) => f,
            None => return Err(StartError::InvalidInputFormat),
        };
        let target = match ConverterFormat::from_str(to) {
            Some(f) => f,
            None => return Err(StartError::InvalidOutputFormat),
        };
        let updated = Job { to: Some(String::from_str(to)), ..job };
        let copy = updated.snapshot();
        self.jobs.insert(id, updated);
        Ok(StartedJob { job: copy, from, to: target })
    }

    /// Marks the job filed under `id` completed, when it is still there.
    pub fn mark_completed(&mut self, id: u128)
        requires
            old(self).wf(),
        ensures
            final(self).wf(),
            final(self)@.dom() == old(self)@.dom(),
            old(self)@.contains_key(id) ==> completed_as(old(self)@[id], final(self)@[id]),
            forall|k: u128| k != id && #[trigger] old(self)@.contains_key(k) ==> final(self)@[k] == old(self)@[k],
    {
        if let Some(j) = self.jobs.get(&id) {
            let mut job = j.snapshot();
            job.completed = true;
            self.jobs.insert(id, job);
        }
        assert(final(self)@.dom() =~= old(self)@.dom());
    }

    /// The download of the job filed under `id` with `token`: on success the
    /// job leaves the registry, so that a second download finds nothing.
    pub fn take_download(&mut self, id: u128, token: &str) -> (r: Result<DownloadTicket, DownloadError>)
        requires
            old(self).wf(),
        ensures
            final(self).wf(),
            r matches Ok(t) ==> download_outcome(old(self)@, id, token@) == Ok::<Seq<char>, DownloadError>(t.path@)
                && t.mime@ == mime_for(t.path@) && final(self)@ == old(self)@.remove(id),
            r matches Err(e) ==> download_outcome(old(self)@, id, token@) == Err::<Seq<char>, DownloadError>(e)
                && final(self)@ == old(self)@,
    {
        let job = match self.jobs.get(&id) {
            Some(j) => j.snapshot(),
            None => return Err(DownloadError::JobNotFound),
        };
        if !same_text(job.auth.as_str(), token) {
            return Err(DownloadError::InvalidToken);
        }
        let path = match &job.to {
            Some(to) => artifact_path("output/", id, to.as_str()),
            None => return Err(DownloadError::IncompleteHandshake),
        };
        self.jobs.remove(&id);
        let mime = guess_mime(path.as_str());
        Ok(DownloadTicket { path, mime })
    }
}

} // verus!
