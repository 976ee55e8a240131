//! The recording session lifecycle manager: the state machine that owns one
//! capture session from start through pause/resume to stop.
//!
//! The manager holds the model of the session: its state, its identifier,
//! whether a recorder process is held, the allocated destination and the
//! configuration snapshot.  The embedding program performs the outside work
//! — spawning the recorder, the event-channel round trips, timers, signals —
//! and reports each outcome back through the methods here, which decide
//! every transition.

use vstd::prelude::*;
use crate::config::{RecordingConfig, recorder_options_json, spec_recorder_options};
use crate::error::ApertureError;
use crate::ids::{get_random_id, is_lower_hex};
use crate::locator::{destination_file_name, spec_destination_file_name};

verus! {

/// How many seconds the startup handshake waits for the recorder's start
/// event before giving up.
pub const STARTUP_TIMEOUT_SECS: u64 = 5;

/// How many seconds of grace follow the start event before recording is
/// considered under way.
pub const START_GRACE_SECS: u64 = 1;

/// The lifecycle states of a recording session.
#[derive(Clone, Copy, Debug, PartialEq, Eq, Structural)]
pub enum SessionState {
    /// No session is under way; a new one may start.
    Idle,
    /// A session was begun: the startup handshake is running.
    Starting,
    /// The recorder is capturing.
    Recording,
    /// The recorder was asked to pause.
    Paused,
    /// A graceful termination signal is to be sent and process exit awaited.
    Stopping,
    /// Process exit was observed; the destination awaits hand-over.
    Terminated,
    /// Process exit could not be observed; the session is surfaced as failed.
    Failed,
}

/// A recording session lifecycle manager for the external recorder process.
pub struct Aperture {
    /// The identifier scoping all event-channel traffic to this session.
    pub process_id: String,
    /// Where in its lifecycle the session stands.
    pub state: SessionState,
    /// Whether the recorder process handle is held.  The handle itself is
    /// owned by the embedding program; it exists exactly while this is set.
    pub has_process: bool,
    /// The allocated destination file, owned by the session until `stop`
    /// hands it to the caller.
    pub temp_path: Option<String>,
    /// The configuration snapshot taken when the session started.
    pub config: Option<RecordingConfig>,
    /// Whether the best-effort file-ready confirmation was observed.
    pub is_file_ready: bool,
}

impl Aperture {
    /// The states during which a recorder process may be held.
    pub open spec fn live(st: SessionState) -> bool {
        st is Starting || st is Recording || st is Paused || st is Stopping
    }

    /// The invariant every reachable manager satisfies.  A process is held
    /// only in the live states, and in every live state past the startup
    /// handshake; the destination is allocated before the process is
    /// spawned and kept through recording and stopping; an active session
    /// always has a non-empty identifier and a configuration snapshot.
    pub open spec fn wf(self) -> bool {
        &&& (self.has_process ==> Self::live(self.state))
        &&& ((self.state is Recording || self.state is Paused || self.state is Stopping)
            ==> self.has_process)
        &&& (self.has_process ==> self.temp_path is Some)
        &&& ((self.state is Recording || self.state is Paused || self.state is Stopping
            || self.state is Terminated) ==> self.temp_path is Some)
        &&& (self.temp_path matches Some(p) ==> p@.len() > 0)
        &&& (self.state !is Idle ==> self.process_id@.len() > 0)
        &&& (self.state !is Idle ==> self.config is Some)
    }

    /// Whether the manager accepts a new `start`.
    pub open spec fn accepts_start(self) -> bool {
        self.state is Idle
    }

    /// Whether the manager is waiting for the recorder process to be
    /// spawned: the handshake has begun and the destination is allocated.
    pub open spec fn awaiting_spawn(self) -> bool {
        self.state is Starting && !self.has_process && self.temp_path is Some
    }

    /// The accepted-start transition: a fresh identifier is drawn (a short
    /// lowercase-hexadecimal tag), the configuration snapshot is taken, and
    /// the startup handshake begins with no destination and no process yet.
    pub open spec fn start_begun(pre: Self, post: Self, config: RecordingConfig) -> bool {
        &&& pre.state is Idle
        &&& post.state is Starting
        &&& 1 <= post.process_id@.len() <= 13
        &&& (forall|i: int|
            0 <= i < post.process_id@.len() ==> is_lower_hex(#[trigger] post.process_id@[i]))
        &&& post.config == Some(config)
        &&& !post.has_process
        &&& post.temp_path is None
        &&& !post.is_file_ready
    }

    /// The startup-timeout transition: the session returns to idle and the
    /// process handle is dropped; the destination is kept as allocated (the
    /// partially written file is not cleaned up).
    pub open spec fn startup_timed_out(pre: Self, post: Self) -> bool {
        &&& pre.state is Starting
        &&& pre.has_process
        &&& post == (Aperture { state: SessionState::Idle, has_process: false, ..pre })
    }

    /// The completed-stop transition: the non-empty destination path is
    /// handed to the caller and the manager returns to idle.
    pub open spec fn stop_finished(pre: Self, post: Self, path: Seq<char>) -> bool {
        &&& pre.state !is Idle
        &&& !pre.has_process
        &&& pre.temp_path matches Some(p) && p@ == path
        &&& path.len() > 0
        &&& post == (Aperture { state: SessionState::Idle, temp_path: None, ..pre })
    }

    /// A manager with no session: idle, with nothing held.
    pub fn new() -> (m: Aperture)
        ensures
            m.wf(),
            m.accepts_start(),
            m.state is Idle,
            m.process_id@.len() == 0,
            !m.has_process,
            m.temp_path is None,
            m.config is None,
            !m.is_file_ready,
    {
        Aperture {
            process_id: String::new(),
            state: SessionState::Idle,
            has_process: false,
            temp_path: None,
            config: None,
            is_file_ready: false,
        }
    }

    /// Begins a new session.  Only an idle manager may start: a second
    /// start without an intervening stop is refused as a usage error and
    /// changes nothing, so no second recorder process is ever requested.
    pub fn begin_start(&mut self, config: RecordingConfig) -> (r: Result<(), ApertureError>)
        requires
            old(self).wf(),
        ensures
            final(self).wf(),
            match r {
                Ok(()) => Self::start_begun(*old(self), *final(self), config),
                Err(e) => e == ApertureError::UsageError && !old(self).accepts_start() && *final(self) == *old(self),
            },
    {
        match self.state {
            SessionState::Idle => {
                self.process_id = get_random_id();
                self.state = SessionState::Starting;
                self.has_process = false;
                self.temp_path = None;
                self.config = Some(config);
                self.is_file_ready = false;
                Ok(())
            },
            _ => Err(ApertureError::UsageError),
        }
    }

    /// Records the destination allocated for this session: the temporary
    /// file's path, or `None` when allocation failed.  The path must carry
    /// this session's output file name, `aperture-<id>.mp4`, as allocation
    /// names the file deterministically from the session id; a missing
    /// path, or one named for anything else, rolls the manager back to
    /// idle and is reported as a path-allocation failure.
    pub fn allocate_destination(&mut self, path: Option<String>) -> (r: Result<
        (),
        ApertureError,
    >)
        requires
            old(self).wf(),
        ensures
            final(self).wf(),
            match r {
                Ok(()) => {
                    &&& old(self).state is Starting
                    &&& !old(self).has_process
                    &&& path matches Some(p) && spec_destination_file_name(
                        old(self).process_id@,
                    ).is_suffix_of(p@)
                    &&& *final(self) == (Aperture { temp_path: path, ..*old(self) })
                },
                Err(e) => {
                    ||| {
                        &&& e == ApertureError::UsageError
                        &&& !(old(self).state is Starting && !old(self).has_process)
                        &&& *final(self) == *old(self)
                    }
                    ||| {
                        &&& e == ApertureError::PathAllocationFailure
                        &&& old(self).state is Starting
                        &&& !old(self).has_process
                        &&& !(path matches Some(p) && spec_destination_file_name(
                            old(self).process_id@,
                        ).is_suffix_of(p@))
                        &&& *final(self) == (Aperture {
                            state: SessionState::Idle,
                            temp_path: None,
                            ..*old(self)
                        })
                    }
                },
            },
    {
        let starting = match self.state {
            SessionState::Starting => true,
            _ => false,
        };
        if !starting || self.has_process {
            return Err(ApertureError::UsageError);
        }
        let expected = destination_file_name(self.process_id.as_str());
        proof {
            reveal_strlit("aperture-");
            reveal_strlit(".mp4");
            assert(expected@.len() > 0);
        }
        match path {
            Some(p) => {
                if str_ends_with(p.as_str(), expected.as_str()) {
                    proof {
                        assert(p@.len() >= expected@.len());
                    }
                    self.temp_path = Some(p);
                    Ok(())
                } else {
                    self.state = SessionState::Idle;
                    self.temp_path = None;
                    Err(ApertureError::PathAllocationFailure)
                }
            },
            None => {
                self.state = SessionState::Idle;
                self.temp_path = None;
                Err(ApertureError::PathAllocationFailure)
            },
        }
    }

    /// Builds the recorder's configuration payload for this session from
    /// the destination locator.
    pub fn recorder_payload(&self, destination: &str) -> (r: Result<String, ApertureError>)
        ensures
            match r {
                Ok(p) => self.state is Starting && (self.config matches Some(c) && p@
                    == spec_recorder_options(c, destination@)),
                Err(e) => e == ApertureError::UsageError && !(self.state is Starting
                    && self.config is Some),
            },
    {
        let starting = match self.state {
            SessionState::Starting => true,
            _ => false,
        };
        if !starting {
            return Err(ApertureError::UsageError);
        }
        match &self.config {
            Some(c) => Ok(recorder_options_json(c, destination)),
            None => Err(ApertureError::UsageError),
        }
    }

    /// Records the outcome of spawning the recorder process, which is only
    /// expected while a session with an allocated destination is starting.
    /// A failed spawn rolls the manager back to idle with nothing held.
    pub fn mark_spawned(&mut self, spawned: bool) -> (r: Result<(), ApertureError>)
        requires
            old(self).wf(),
        ensures
            final(self).wf(),
            match r {
                Ok(()) => {
                    &&& spawned
                    &&& old(self).awaiting_spawn()
                    &&& *final(self) == (Aperture { has_process: true, ..*old(self) })
                },
                Err(e) => {
                    ||| {
                        &&& e == ApertureError::UsageError
                        &&& !old(self).awaiting_spawn()
                        &&& *final(self) == *old(self)
                    }
                    ||| {
                        &&& e == ApertureError::SpawnFailure
                        &&& old(self).awaiting_spawn()
                        &&& !spawned
                        &&& *final(self) == (Aperture { state: SessionState::Idle, ..*old(self) })
                    }
                },
            },
    {
        let starting = match self.state {
            SessionState::Starting => true,
            _ => false,
        };
        let has_path = match &self.temp_path {
            Some(_) => true,
            None => false,
        };
        if !starting || self.has_process || !has_path {
            return Err(ApertureError::UsageError);
        }
        if spawned {
            self.has_process = true;
            Ok(())
        } else {
            self.state = SessionState::Idle;
            Err(ApertureError::SpawnFailure)
        }
    }

    /// Resolves the startup race: `started` says whether the start event
    /// arrived before the timeout.  On success the session records.  On
    /// timeout the session returns to idle holding no process — the caller
    /// must kill the process it spawned — and the startup-timeout error is
    /// reported; the partially written destination file is not cleaned up.
    pub fn observe_startup(&mut self, started: bool) -> (r: Result<(), ApertureError>)
        requires
            old(self).wf(),
        ensures
            final(self).wf(),
            match r {
                Ok(()) => {
                    &&& started
                    &&& old(self).state is Starting
                    &&& old(self).has_process
                    &&& *final(self) == (Aperture { state: SessionState::Recording, ..*old(self) })
                },
                Err(e) => {
                    ||| {
                        &&& e == ApertureError::UsageError
                        &&& !(old(self).state is Starting && old(self).has_process)
                        &&& *final(self) == *old(self)
                    }
                    ||| {
                        &&& e == ApertureError::StartupTimeout
                        &&& !started
                        &&& Self::startup_timed_out(*old(self), *final(self))
                    }
                },
            },
    {
        let starting = match self.state {
            SessionState::Starting => true,
            _ => false,
        };
        if !starting || !self.has_process {
            return Err(ApertureError::UsageError);
        }
        if started {
            self.state = SessionState::Recording;
            Ok(())
        } else {
            self.state = SessionState::Idle;
            self.has_process = false;
            Err(ApertureError::StartupTimeout)
        }
    }

    /// Records the best-effort file-ready confirmation; meaningful only
    /// while recording.  Its absence never fails a started session.
    pub fn mark_file_ready(&mut self) -> (r: Result<(), ApertureError>)
        requires
            old(self).wf(),
        ensures
            final(self).wf(),
            match r {
                Ok(()) => old(self).state is Recording && *final(self) == (Aperture {
                    is_file_ready: true,
                    ..*old(self)
                }),
                Err(e) => e == ApertureError::UsageError && !(old(self).state is Recording)
                    && *final(self) == *old(self),
            },
    {
        match self.state {
            SessionState::Recording => {
                self.is_file_ready = true;
                Ok(())
            },
            _ => Err(ApertureError::UsageError),
        }
    }

    /// Pause is legal only while recording; the transition is taken
    /// optimistically when the pause event is sent.
    pub fn pause(&mut self) -> (r: Result<(), ApertureError>)
        requires
            old(self).wf(),
        ensures
            final(self).wf(),
            match r {
                Ok(()) => old(self).state is Recording && *final(self) == (Aperture {
                    state: SessionState::Paused,
                    ..*old(self)
                }),
                Err(e) => e == ApertureError::UsageError && !(old(self).state is Recording)
                    && *final(self) == *old(self),
            },
    {
        match self.state {
            SessionState::Recording => {
                self.state = SessionState::Paused;
                Ok(())
            },
            _ => Err(ApertureError::UsageError),
        }
    }

    /// Resume is legal only while paused; the transition is taken
    /// optimistically when the resume event is sent.
    pub fn resume(&mut self) -> (r: Result<(), ApertureError>)
        requires
            old(self).wf(),
        ensures
            final(self).wf(),
            match r {
                Ok(()) => old(self).state is Paused && *final(self) == (Aperture {
                    state: SessionState::Recording,
                    ..*old(self)
                }),
                Err(e) => e == ApertureError::UsageError && !(old(self).state is Paused) && *final(self) == *old(self),
            },
    {
        match self.state {
            SessionState::Paused => {
                self.state = SessionState::Recording;
                Ok(())
            },
            _ => Err(ApertureError::UsageError),
        }
    }

    /// The guard used before any event-channel traffic: an error unless a
    /// recorder process is held.
    pub fn throw_if_not_started(&self) -> (r: Result<(), ApertureError>)
        ensures
            r is Ok <==> self.has_process,
            r matches Err(e) ==> e == ApertureError::UsageError,
    {
        if self.has_process {
            Ok(())
        } else {
            Err(ApertureError::UsageError)
        }
    }

    /// Starts the stop sequence.  Stopping an idle manager is a usage error
    /// and touches nothing — in particular no termination signal may be
    /// sent.  Otherwise the result says whether a graceful termination
    /// signal must be sent and the process exit awaited.
    pub fn begin_stop(&mut self) -> (r: Result<bool, ApertureError>)
        requires
            old(self).wf(),
        ensures
            final(self).wf(),
            match r {
                Ok(signal) => {
                    &&& old(self).state !is Idle
                    &&& signal == old(self).has_process
                    &&& (signal ==> *final(self) == (Aperture {
                        state: SessionState::Stopping,
                        ..*old(self)
                    }))
                    &&& (!signal ==> *final(self) == *old(self))
                },
                Err(e) => e == ApertureError::UsageError && old(self).state is Idle && *final(self)
                    == *old(self),
            },
    {
        match self.state {
            SessionState::Idle => Err(ApertureError::UsageError),
            _ => {
                if self.has_process {
                    self.state = SessionState::Stopping;
                    Ok(true)
                } else {
                    Ok(false)
                }
            },
        }
    }

    /// Records the outcome of awaiting process exit after the graceful
    /// termination signal.  The handle is released either way; a failed
    /// wait is surfaced as a process-wait failure and leaves the session in
    /// the failed state rather than being retried.
    pub fn confirm_exit(&mut self, exited: bool) -> (r: Result<(), ApertureError>)
        requires
            old(self).wf(),
        ensures
            final(self).wf(),
            match r {
                Ok(()) => {
                    &&& exited
                    &&& old(self).state is Stopping
                    &&& *final(self) == (Aperture {
                        state: SessionState::Terminated,
                        has_process: false,
                        ..*old(self)
                    })
                },
                Err(e) => {
                    ||| {
                        &&& e == ApertureError::UsageError
                        &&& !(old(self).state is Stopping)
                        &&& *final(self) == *old(self)
                    }
                    ||| {
                        &&& e == ApertureError::ProcessWaitFailure
                        &&& old(self).state is Stopping
                        &&& !exited
                        &&& *final(self) == (Aperture {
                            state: SessionState::Failed,
                            has_process: false,
                            ..*old(self)
                        })
                    }
                },
            },
    {
        match self.state {
            SessionState::Stopping => {
                self.has_process = false;
                if exited {
                    self.state = SessionState::Terminated;
                    Ok(())
                } else {
                    self.state = SessionState::Failed;
                    Err(ApertureError::ProcessWaitFailure)
                }
            },
            _ => Err(ApertureError::UsageError),
        }
    }

    /// Ends the stop sequence: hands the destination file's path to the
    /// caller (ownership transfers — the manager forgets the path and will
    /// not delete the file) and returns to idle.  A session that never
    /// allocated a destination is an internal invariant violation, reported
    /// as a missing destination; the manager still resets to idle.
    pub fn finish_stop(&mut self) -> (r: Result<String, ApertureError>)
        requires
            old(self).wf(),
        ensures
            final(self).wf(),
            match r {
                Ok(p) => Self::stop_finished(*old(self), *final(self), p@),
                Err(e) => {
                    ||| {
                        &&& e == ApertureError::UsageError
                        &&& !(old(self).state !is Idle && !old(self).has_process)
                        &&& *final(self) == *old(self)
                    }
                    ||| {
                        &&& e == ApertureError::MissingDestination
                        &&& old(self).state !is Idle
                        &&& !old(self).has_process
                        &&& old(self).temp_path is None
                        &&& *final(self) == (Aperture { state: SessionState::Idle, ..*old(self) })
                    }
                },
            },
    {
        let idle = match self.state {
            SessionState::Idle => true,
            _ => false,
        };
        if idle || self.has_process {
            return Err(ApertureError::UsageError);
        }
        let out: String;
        match &self.temp_path {
            Some(p) => {
                out = p.clone();
            },
            None => {
                self.state = SessionState::Idle;
                return Err(ApertureError::MissingDestination);
            },
        }
        self.temp_path = None;
        self.state = SessionState::Idle;
        Ok(out)
    }

    /// The session identifier.
    pub fn session_id(&self) -> (r: &str)
        ensures
            r@ == self.process_id@,
    {
        self.process_id.as_str()
    }

    /// Where in its lifecycle the session stands.
    pub fn current_state(&self) -> (r: SessionState)
        ensures
            r == self.state,
    {
        self.state
    }

    /// Whether a recorder process is held.
    pub fn holds_process(&self) -> (r: bool)
        ensures
            r == self.has_process,
    {
        self.has_process
    }

    /// The allocated destination path, while the session still owns it.
    pub fn destination_path(&self) -> (r: Option<&str>)
        ensures
            r is Some <==> self.temp_path is Some,
            r matches Some(p) ==> (self.temp_path matches Some(q) && p@ == q@),
    {
        match &self.temp_path {
            Some(p) => Some(p.as_str()),
            None => None,
        }
    }

    /// Whether the file-ready confirmation was observed.
    pub fn file_ready(&self) -> (r: bool)
        ensures
            r == self.is_file_ready,
    {
        self.is_file_ready
    }

    /// A start that was just accepted leaves the manager in the starting
    /// state, where a second start is refused as a usage error that changes
    /// nothing: no second recorder process is ever requested without an
    /// intervening stop.
    pub proof fn lemma_no_double_start(pre: Self, post: Self, config: RecordingConfig)
        requires
            Self::start_begun(pre, post, config),
        ensures
            !post.accepts_start(),
    {
    }

    /// A startup timeout always leaves an idle manager that holds no
    /// process and accepts a fresh start.
    pub proof fn lemma_timeout_resets(pre: Self, post: Self)
        requires
            Self::startup_timed_out(pre, post),
        ensures
            post.state is Idle,
            !post.has_process,
            post.accepts_start(),
    {
    }

    /// A completed stop hands back a non-empty destination path and leaves
    /// an idle manager, holding neither process nor path, that accepts the
    /// next start.
    pub proof fn lemma_stop_hands_over(pre: Self, post: Self, path: Seq<char>)
        requires
            Self::stop_finished(pre, post, path),
        ensures
            path.len() > 0,
            post.state is Idle,
            post.accepts_start(),
            post.temp_path is None,
            !post.has_process,
    {
    }
}

/// Interprets the reply of the `isPaused` query: only the exact text `true`
/// counts as paused.  A missing, empty or garbled reply counts as not
/// paused — it is never an error.
pub fn parse_is_paused(reply: Option<&str>) -> (b: bool)
    ensures
        b == (reply matches Some(s) && s@ == "true"@),
{
    match reply {
        Some(s) => str_text_eq(s, "true"),
        None => false,
    }
}

/// Whether `suffix` ends `s`.
fn str_ends_with(s: &str, suffix: &str) -> (b: bool)
    ensures
        b == suffix@.is_suffix_of(s@),
{
    let n = s.unicode_len();
    let m = suffix.unicode_len();
    if m > n {
        return false;
    }
    let mut i: usize = 0;
    while i < m
        invariant
            i <= m,
            m == suffix@.len(),
            n == s@.len(),
            m <= n,
            forall|j: int| 0 <= j < i ==> suffix@[j] == s@[n - m + j],
        decreases m - i,
    {
        if suffix.get_char(i) != s.get_char(n - m + i) {
            proof {
                assert(s@.subrange(n - m, n as int)[i as int] == s@[n - m + i]);
            }
            return false;
        }
        i = i + 1;
    }
    proof {
        assert(suffix@ =~= s@.subrange(n - m, n as int));
    }
    true
}

/// Whether two texts hold the same characters.
fn str_text_eq(a: &str, b: &str) -> (r: bool)
    ensures
        r == (a@ == b@),
{
    let na = a.unicode_len();
    let nb = b.unicode_len();
    if na != nb {
        return false;
    }
    let mut i: usize = 0;
    while i < na
        invariant
            i <= na,
            na == a@.len(),
            na == b@.len(),
            forall|j: int| 0 <= j < i ==> a@[j] == b@[j],
        decreases na - i,
    {
        if a.get_char(i) != b.get_char(i) {
            return false;
        }
        i = i + 1;
    }
    proof {
        assert(a@ =~= b@);
    }
    true
}

} // verus!
