//! The life of one import invocation, as a state machine.
//!
//! An import run moves through the phases `Idle → Spawning → AcquiringPipe →
//! Running → Terminated | Failed`.  While the session is `Running`, two
//! concurrent sub-activities report back: the input feeder (whose result is
//! advisory — a failed write is noted but never fails the run) and the wait
//! on the child process (whose result alone decides the outcome).  The
//! surrounding binary performs the process calls and feeds their results in
//! as [`ImportEvent`]s; every transition is pinned by [`spec_step`].

use crate::messages::{
    exit_status_error_message, flush_error_message, pipe_error_message, spawn_error_message,
    spec_exit_status_error_message, spec_flush_error_message, spec_pipe_error_message,
    spec_spawn_error_message, spec_wait_error_message, spec_write_error_message,
    wait_error_message, write_error_message,
};
use vstd::prelude::*;
use vstd::string::*;

verus! {

/// Policy of the lifecycle monitor: a run counts as successful as long as the
/// child could be waited upon, regardless of the exit status the child itself
/// reported.  Deliberately explicit, so that tightening the policy is a
/// one-line change rather than a silent behaviour difference.
pub const TREAT_NONZERO_EXIT_AS_SUCCESS: bool = true;

/// The stage of an import run at which a failure arose.  A `Write` failure
/// is advisory — the session notes it but never records it as the failure
/// that ends the run — so only the other three stages ever appear in a
/// recorded [`Failure`].
#[derive(Clone, Copy, PartialEq, Eq, Structural, Debug)]
pub enum Stage {
    Spawn,
    PipeAcquire,
    Write,
    Wait,
}

/// The phase an import session is in.
#[derive(Clone, Copy, PartialEq, Eq, Structural, Debug)]
pub enum Phase {
    Idle,
    Spawning,
    AcquiringPipe,
    Running,
    Terminated,
    Failed,
}

/// A failure that ended the run: the stage it arose at and its rendered
/// message.
pub struct Failure {
    pub stage: Stage,
    pub message: String,
}

/// Mathematical model of a [`Failure`].
pub struct FailureView {
    pub stage: Stage,
    pub message: Seq<char>,
}

impl View for Failure {
    type V = FailureView;

    open spec fn view(&self) -> FailureView {
        FailureView { stage: self.stage, message: self.message@ }
    }
}

/// What the input feeder reported: delivery, or the cause of the write or
/// flush that failed.
pub enum FeedResult {
    Delivered,
    WriteFailed(String),
    FlushFailed(String),
}

/// Mathematical model of a [`FeedResult`].
pub enum FeedResultView {
    Delivered,
    WriteFailed(Seq<char>),
    FlushFailed(Seq<char>),
}

impl View for FeedResult {
    type V = FeedResultView;

    open spec fn view(&self) -> FeedResultView {
        match self {
            FeedResult::Delivered => FeedResultView::Delivered,
            FeedResult::WriteFailed(cause) => FeedResultView::WriteFailed(cause@),
            FeedResult::FlushFailed(cause) => FeedResultView::FlushFailed(cause@),
        }
    }
}

/// One report from the outside world to the session.
pub enum ImportEvent {
    LaunchRequested,
    SpawnSucceeded,
    SpawnFailed(String),
    PipeAcquired,
    PipeUnavailable,
    FeedFinished(FeedResult),
    WaitCompleted(bool),
    WaitFailed(String),
}

/// Mathematical model of an [`ImportEvent`].  `WaitCompleted` carries whether
/// the child itself reported success.
pub enum ImportEventView {
    LaunchRequested,
    SpawnSucceeded,
    SpawnFailed(Seq<char>),
    PipeAcquired,
    PipeUnavailable,
    FeedFinished(FeedResultView),
    WaitCompleted(bool),
    WaitFailed(Seq<char>),
}

impl View for ImportEvent {
    type V = ImportEventView;

    open spec fn view(&self) -> ImportEventView {
        match self {
            ImportEvent::LaunchRequested => ImportEventView::LaunchRequested,
            ImportEvent::SpawnSucceeded => ImportEventView::SpawnSucceeded,
            ImportEvent::SpawnFailed(cause) => ImportEventView::SpawnFailed(cause@),
            ImportEvent::PipeAcquired => ImportEventView::PipeAcquired,
            ImportEvent::PipeUnavailable => ImportEventView::PipeUnavailable,
            ImportEvent::FeedFinished(f) => ImportEventView::FeedFinished(f@),
            ImportEvent::WaitCompleted(ok) => ImportEventView::WaitCompleted(*ok),
            ImportEvent::WaitFailed(cause) => ImportEventView::WaitFailed(cause@),
        }
    }
}

/// Mathematical model of an [`ImportSession`].
pub struct SessionView {
    pub exe_path: Seq<char>,
    pub phase: Phase,
    pub failure: Option<FailureView>,
    pub write_failure: Option<Seq<char>>,
}

impl SessionView {
    /// A session records a failure exactly when it has failed.
    pub open spec fn wf(self) -> bool {
        (self.phase is Failed) <==> (self.failure is Some)
    }
}

/// The session a fresh invocation starts from.
pub open spec fn spec_new_session(exe_path: Seq<char>) -> SessionView {
    SessionView { exe_path, phase: Phase::Idle, failure: None, write_failure: None }
}

/// The note the session keeps of the feeder's result: nothing on delivery,
/// the rendered write or flush failure otherwise.
pub open spec fn spec_feed_note(f: FeedResultView) -> Option<Seq<char>> {
    match f {
        FeedResultView::Delivered => None,
        FeedResultView::WriteFailed(cause) => Some(spec_write_error_message(cause)),
        FeedResultView::FlushFailed(cause) => Some(spec_flush_error_message(cause)),
    }
}

/// The transition relation of the session: what each event does in each
/// phase.  An event that does not belong to the current phase changes
/// nothing.
pub open spec fn spec_step(s: SessionView, e: ImportEventView) -> SessionView {
    match (s.phase, e) {
        (Phase::Idle, ImportEventView::LaunchRequested) => SessionView {
            phase: Phase::Spawning,
            ..s
        },
        (Phase::Spawning, ImportEventView::SpawnSucceeded) => SessionView {
            phase: Phase::AcquiringPipe,
            ..s
        },
        (Phase::Spawning, ImportEventView::SpawnFailed(cause)) => SessionView {
            phase: Phase::Failed,
            failure: Some(
                FailureView {
                    stage: Stage::Spawn,
                    message: spec_spawn_error_message(s.exe_path, cause),
                },
            ),
            ..s
        },
        (Phase::AcquiringPipe, ImportEventView::PipeAcquired) => SessionView {
            phase: Phase::Running,
            ..s
        },
        (Phase::AcquiringPipe, ImportEventView::PipeUnavailable) => SessionView {
            phase: Phase::Failed,
            failure: Some(
                FailureView { stage: Stage::PipeAcquire, message: spec_pipe_error_message() },
            ),
            ..s
        },
        (Phase::Running, ImportEventView::FeedFinished(f)) => SessionView {
            write_failure: spec_feed_note(f),
            ..s
        },
        (Phase::Running, ImportEventView::WaitCompleted(child_reported_success)) => if (
        child_reported_success || TREAT_NONZERO_EXIT_AS_SUCCESS) {
            SessionView { phase: Phase::Terminated, ..s }
        } else {
            SessionView {
                phase: Phase::Failed,
                failure: Some(
                    FailureView { stage: Stage::Wait, message: spec_exit_status_error_message() },
                ),
                ..s
            }
        },
        (Phase::Running, ImportEventView::WaitFailed(cause)) => SessionView {
            phase: Phase::Failed,
            failure: Some(
                FailureView { stage: Stage::Wait, message: spec_wait_error_message(cause) },
            ),
            ..s
        },
        _ => s,
    }
}

/// A whole run: the session after every event of `events`, oldest first.
pub open spec fn spec_run(s: SessionView, events: Seq<ImportEventView>) -> SessionView
    decreases events.len(),
{
    if events.len() == 0 {
        s
    } else {
        spec_run(spec_step(s, events[0]), events.drop_first())
    }
}

/// The note kept of the feeder's result.
pub fn feed_note(f: FeedResult) -> (r: Option<String>)
    ensures
        (match r {
            Some(m) => Some(m@),
            None => None,
        }) == spec_feed_note(f@),
{
    match f {
        FeedResult::Delivered => None,
        FeedResult::WriteFailed(cause) => Some(write_error_message(cause.as_str())),
        FeedResult::FlushFailed(cause) => Some(flush_error_message(cause.as_str())),
    }
}

/// One import invocation of the external tool, from the decision side: the
/// surrounding binary spawns, feeds and waits, and reports each result here;
/// the session decides phase, recorded failure and final outcome.
pub struct ImportSession {
    pub exe_path: String,
    pub phase: Phase,
    pub failure: Option<Failure>,
    pub write_failure: Option<String>,
}

impl View for ImportSession {
    type V = SessionView;

    open spec fn view(&self) -> SessionView {
        SessionView {
            exe_path: self.exe_path@,
            phase: self.phase,
            failure: match self.failure {
                Some(f) => Some(f@),
                None => None,
            },
            write_failure: match self.write_failure {
                Some(m) => Some(m@),
                None => None,
            },
        }
    }
}

impl ImportSession {
    /// A fresh session for one run of the executable at `exe_path`.
    pub fn new(exe_path: String) -> (r: Self)
        ensures
            r@ == spec_new_session(exe_path@),
    {
        ImportSession { exe_path, phase: Phase::Idle, failure: None, write_failure: None }
    }

    /// Applies one event, exactly as [`spec_step`] says.
    pub fn step(&mut self, event: ImportEvent)
        ensures
            final(self)@ == spec_step(old(self)@, event@),
    {
        match (self.phase, event) {
            (Phase::Idle, ImportEvent::LaunchRequested) => {
                self.phase = Phase::Spawning;
            },
            (Phase::Spawning, ImportEvent::SpawnSucceeded) => {
                self.phase = Phase::AcquiringPipe;
            },
            (Phase::Spawning, ImportEvent::SpawnFailed(cause)) => {
                let message = spawn_error_message(self.exe_path.as_str(), cause.as_str());
                self.failure = Some(Failure { stage: Stage::Spawn, message });
                self.phase = Phase::Failed;
            },
            (Phase::AcquiringPipe, ImportEvent::PipeAcquired) => {
                self.phase = Phase::Running;
            },
            (Phase::AcquiringPipe, ImportEvent::PipeUnavailable) => {
                self.failure = Some(
                    Failure { stage: Stage::PipeAcquire, message: pipe_error_message() },
                );
                self.phase = Phase::Failed;
            },
            (Phase::Running, ImportEvent::FeedFinished(f)) => {
                self.write_failure = feed_note(f);
            },
            (Phase::Running, ImportEvent::WaitCompleted(child_reported_success)) => {
                if child_reported_success || TREAT_NONZERO_EXIT_AS_SUCCESS {
                    self.phase = Phase::Terminated;
                } else {
                    self.failure = Some(
                        Failure { stage: Stage::Wait, message: exit_status_error_message() },
                    );
                    self.phase = Phase::Failed;
                }
            },
            (Phase::Running, ImportEvent::WaitFailed(cause)) => {
                self.failure = Some(
                    Failure { stage: Stage::Wait, message: wait_error_message(cause.as_str()) },
                );
                self.phase = Phase::Failed;
            },
            _ => {
            },
        }
    }

    /// The outcome of the run, in the shape the front end receives: `Some` as
    /// soon as the session is terminal — success when it terminated, the
    /// recorded failure's message when it failed — and `None` while it is
    /// still under way.
    pub fn outcome(&self) -> (r: Option<Result<(), String>>)
        ensures
            (self@.phase is Terminated) ==> r == Some(Result::<(), String>::Ok(())),
            (self@.phase is Failed && self@.failure is Some) ==> (r matches Some(Err(m))
                && m@ == self@.failure.unwrap().message),
            (self@.phase is Failed && self@.failure is None) ==> r is None,
            !(self@.phase is Terminated || self@.phase is Failed) ==> r is None,
    {
        match self.phase {
            Phase::Terminated => Some(Ok(())),
            Phase::Failed => match &self.failure {
                Some(f) => Some(Err(f.message.clone())),
                None => None,
            },
            _ => None,
        }
    }
}

/// Stepping a well-formed session keeps it well formed: it records a failure
/// exactly when it is in the failed phase.
pub proof fn lemma_step_preserves_wf(s: SessionView, e: ImportEventView)
    requires
        s.wf(),
    ensures
        spec_step(s, e).wf(),
{
}

/// From a running session, the wait step alone decides the outcome: a wait
/// that completes ends the run in success — whatever exit status the child
/// itself reported — and a wait that cannot be performed ends it in a wait
/// failure carrying the rendered cause.
pub proof fn lemma_success_iff_wait_step_succeeds(
    s: SessionView,
    child_reported_success: bool,
    cause: Seq<char>,
)
    requires
        s.phase is Running,
    ensures
        spec_step(s, ImportEventView::WaitCompleted(child_reported_success)).phase is Terminated,
        spec_step(s, ImportEventView::WaitFailed(cause)).phase is Failed,
        spec_step(s, ImportEventView::WaitFailed(cause)).failure == Some(
            FailureView { stage: Stage::Wait, message: spec_wait_error_message(cause) },
        ),
{
}

/// The feeder's failure is advisory: it changes neither the phase nor the
/// recorded failure of a running session, and a wait that then completes
/// still ends the run in success — a failed write never masks a successful
/// wait.
pub proof fn lemma_feed_failure_never_masks_wait_success(
    s: SessionView,
    f: FeedResultView,
    child_reported_success: bool,
)
    requires
        s.phase is Running,
    ensures
        spec_step(s, ImportEventView::FeedFinished(f)).phase == s.phase,
        spec_step(s, ImportEventView::FeedFinished(f)).failure == s.failure,
        spec_step(
            spec_step(s, ImportEventView::FeedFinished(f)),
            ImportEventView::WaitCompleted(child_reported_success),
        ).phase is Terminated,
{
}

/// Over a whole run in which spawn and pipe acquisition succeed, the outcome
/// is decided by the wait step alone: with the wait completed the run ends
/// `Terminated`, with the wait failed it ends `Failed` carrying the rendered
/// wait failure — for every feeder result and every exit status of the
/// child.  Either way the feeder's note is kept for observability.
pub proof fn lemma_run_outcome_decided_by_wait_alone(
    exe_path: Seq<char>,
    f: FeedResultView,
    child_reported_success: bool,
    wait_cause: Seq<char>,
)
    ensures
        spec_run(
            spec_new_session(exe_path),
            seq![
                ImportEventView::LaunchRequested,
                ImportEventView::SpawnSucceeded,
                ImportEventView::PipeAcquired,
                ImportEventView::FeedFinished(f),
                ImportEventView::WaitCompleted(child_reported_success),
            ],
        ).phase is Terminated,
        spec_run(
            spec_new_session(exe_path),
            seq![
                ImportEventView::LaunchRequested,
                ImportEventView::SpawnSucceeded,
                ImportEventView::PipeAcquired,
                ImportEventView::FeedFinished(f),
                ImportEventView::WaitCompleted(child_reported_success),
            ],
        ).write_failure == spec_feed_note(f),
        spec_run(
            spec_new_session(exe_path),
            seq![
                ImportEventView::LaunchRequested,
                ImportEventView::SpawnSucceeded,
                ImportEventView::PipeAcquired,
                ImportEventView::FeedFinished(f),
                ImportEventView::WaitFailed(wait_cause),
            ],
        ).phase is Failed,
        spec_run(
            spec_new_session(exe_path),
            seq![
                ImportEventView::LaunchRequested,
                ImportEventView::SpawnSucceeded,
                ImportEventView::PipeAcquired,
                ImportEventView::FeedFinished(f),
                ImportEventView::WaitFailed(wait_cause),
            ],
        ).failure == Some(
            FailureView { stage: Stage::Wait, message: spec_wait_error_message(wait_cause) },
        ),
        spec_run(
            spec_new_session(exe_path),
            seq![
                ImportEventView::LaunchRequested,
                ImportEventView::SpawnSucceeded,
                ImportEventView::PipeAcquired,
                ImportEventView::FeedFinished(f),
                ImportEventView::WaitFailed(wait_cause),
            ],
        ).write_failure == spec_feed_note(f),
{
    let s0 = spec_new_session(exe_path);
    let s1 = spec_step(s0, ImportEventView::LaunchRequested);
    let s2 = spec_step(s1, ImportEventView::SpawnSucceeded);
    let s3 = spec_step(s2, ImportEventView::PipeAcquired);
    let s4 = spec_step(s3, ImportEventView::FeedFinished(f));
    let good = seq![
        ImportEventView::LaunchRequested,
        ImportEventView::SpawnSucceeded,
        ImportEventView::PipeAcquired,
        ImportEventView::FeedFinished(f),
        ImportEventView::WaitCompleted(child_reported_success),
    ];
    let bad = seq![
        ImportEventView::LaunchRequested,
        ImportEventView::SpawnSucceeded,
        ImportEventView::PipeAcquired,
        ImportEventView::FeedFinished(f),
        ImportEventView::WaitFailed(wait_cause),
    ];
    lemma_run_unfolds_once(s0, good);
    lemma_run_unfolds_once(s0, bad);
    assert(good.drop_first() =~= seq![
        ImportEventView::SpawnSucceeded,
        ImportEventView::PipeAcquired,
        ImportEventView::FeedFinished(f),
        ImportEventView::WaitCompleted(child_reported_success),
    ]);
    assert(bad.drop_first() =~= seq![
        ImportEventView::SpawnSucceeded,
        ImportEventView::PipeAcquired,
        ImportEventView::FeedFinished(f),
        ImportEventView::WaitFailed(wait_cause),
    ]);
    lemma_run_unfolds_once(s1, good.drop_first());
    lemma_run_unfolds_once(s1, bad.drop_first());
    assert(good.drop_first().drop_first() =~= seq![
        ImportEventView::PipeAcquired,
        ImportEventView::FeedFinished(f),
        ImportEventView::WaitCompleted(child_reported_success),
    ]);
    assert(bad.drop_first().drop_first() =~= seq![
        ImportEventView::PipeAcquired,
        ImportEventView::FeedFinished(f),
        ImportEventView::WaitFailed(wait_cause),
    ]);
    lemma_run_unfolds_once(s2, good.drop_first().drop_first());
    lemma_run_unfolds_once(s2, bad.drop_first().drop_first());
    assert(good.drop_first().drop_first().drop_first() =~= seq![
        ImportEventView::FeedFinished(f),
        ImportEventView::WaitCompleted(child_reported_success),
    ]);
    assert(bad.drop_first().drop_first().drop_first() =~= seq![
        ImportEventView::FeedFinished(f),
        ImportEventView::WaitFailed(wait_cause),
    ]);
    lemma_run_unfolds_once(s3, good.drop_first().drop_first().drop_first());
    lemma_run_unfolds_once(s3, bad.drop_first().drop_first().drop_first());
    assert(good.drop_first().drop_first().drop_first().drop_first() =~= seq![
        ImportEventView::WaitCompleted(child_reported_success),
    ]);
    assert(bad.drop_first().drop_first().drop_first().drop_first() =~= seq![
        ImportEventView::WaitFailed(wait_cause),
    ]);
    lemma_run_unfolds_once(
        s4,
        good.drop_first().drop_first().drop_first().drop_first(),
    );
    lemma_run_unfolds_once(
        s4,
        bad.drop_first().drop_first().drop_first().drop_first(),
    );
    lemma_feed_failure_never_masks_wait_success(s3, f, child_reported_success);
    lemma_success_iff_wait_step_succeeds(s4, child_reported_success, wait_cause);
}

/// One unfolding of [`spec_run`] on a non-empty event sequence.
proof fn lemma_run_unfolds_once(s: SessionView, events: Seq<ImportEventView>)
    requires
        events.len() > 0,
    ensures
        spec_run(s, events) == spec_run(spec_step(s, events[0]), events.drop_first()),
{
}

} // verus!
