//! The export job: idle until an export starts, running while the engine
//! works, terminal once it is done, has failed or was cancelled. The job
//! decides; whoever owns the engine's process carries the decisions out and
//! reports back what it saw.

use crate::export::{
    plan_export, plan_of, ErrorView, ExportError, ExportPlan, ExportSettings, PlanView,
    SettingsView,
};
use crate::graph::{ClipView, ExportClip};
use crate::progress::{update_of, ScanView, Sentinel, StreamUpdate, UpdateView};
use crate::text::{texts, views};
use vstd::prelude::*;
use vstd::string::*;

verus! {

/// The snapshot of an export. `percent` is in millionths of a percent, from
/// zero to one hundred; `eta` is reserved and stays zero.
#[derive(Debug, Clone)]
pub struct ExportProgress {
    pub percent: i64,
    pub frame: u64,
    pub total_frames: u64,
    pub speed: String,
    pub eta: i64,
    pub running: bool,
    pub error: Option<String>,
}

/// A snapshot over plain text.
pub struct ProgressView {
    pub percent: i64,
    pub frame: u64,
    pub total_frames: u64,
    pub speed: Seq<char>,
    pub eta: i64,
    pub running: bool,
    pub error: Option<Seq<char>>,
}

impl View for ExportProgress {
    type V = ProgressView;

    open spec fn view(&self) -> ProgressView {
        ProgressView {
            percent: self.percent,
            frame: self.frame,
            total_frames: self.total_frames,
            speed: self.speed@,
            eta: self.eta,
            running: self.running,
            error: match self.error {
                Some(e) => Some(e@),
                None => None,
            },
        }
    }
}

/// The snapshot of a job that has not exported anything.
pub open spec fn idle_progress() -> ProgressView {
    ProgressView {
        percent: 0,
        frame: 0,
        total_frames: 0,
        speed: "0x"@,
        eta: 0,
        running: false,
        error: None,
    }
}

/// The snapshot of an export that has just started.
pub open spec fn fresh_progress(total_frames: u64) -> ProgressView {
    ProgressView {
        percent: 0,
        frame: 0,
        total_frames,
        speed: "0x"@,
        eta: 0,
        running: true,
        error: None,
    }
}

impl ExportProgress {
    /// A copy of the snapshot.
    pub fn copy(&self) -> (r: ExportProgress)
        ensures
            r@ == self@,
    {
        ExportProgress {
            percent: self.percent,
            frame: self.frame,
            total_frames: self.total_frames,
            speed: self.speed.clone(),
            eta: self.eta,
            running: self.running,
            error: match &self.error {
                Some(e) => Some(e.clone()),
                None => None,
            },
        }
    }
}

/// Where a job stands.
#[derive(Debug, Clone, Copy, PartialEq, Eq, Structural)]
pub enum JobPhase {
    /// No export was started yet.
    Idle,
    /// The engine's process is held and was not seen to end.
    Running,
    /// The export is done, has failed or was cancelled.
    Terminal,
}

/// The job: its phase, its snapshot, and the total duration by which the
/// progress of the running export is measured, in millionths of a second.
#[derive(Debug)]
pub struct ExportState {
    pub phase: JobPhase,
    pub progress: ExportProgress,
    pub total_duration: i64,
}

/// A job over plain text.
pub struct StateView {
    pub phase: JobPhase,
    pub progress: ProgressView,
    pub total_duration: i64,
}

impl View for ExportState {
    type V = StateView;

    open spec fn view(&self) -> StateView {
        StateView {
            phase: self.phase,
            progress: self.progress@,
            total_duration: self.total_duration,
        }
    }
}

/// Whether a job is as the operations leave it: the snapshot says `running`
/// in the running phase and in no other, an idle job shows the idle
/// snapshot, and the percentage lies from zero to one hundred.
pub open spec fn well_formed(s: StateView) -> bool {
    &&& s.progress.running <==> s.phase == JobPhase::Running
    &&& s.phase == JobPhase::Idle ==> s.progress == idle_progress()
    &&& 0 <= s.progress.percent <= 100_000_000
}

/// What was seen of the engine's process at a poll.
#[derive(Debug, Clone)]
pub enum ExitObservation {
    /// The process has not ended.
    StillRunning,
    /// The process ended with success.
    Succeeded,
    /// The process ended with a failure: how its status reads, and the
    /// lines of its error stream.
    Failed { status: String, stderr: Vec<String> },
    /// The process could not be asked; the cause is the system's.
    Unknown(String),
}

/// An observation over plain text.
pub enum ExitView {
    StillRunning,
    Succeeded,
    Failed { status: Seq<char>, stderr: Seq<Seq<char>> },
    Unknown(Seq<char>),
}

impl View for ExitObservation {
    type V = ExitView;

    open spec fn view(&self) -> ExitView {
        match *self {
            ExitObservation::StillRunning => ExitView::StillRunning,
            ExitObservation::Succeeded => ExitView::Succeeded,
            ExitObservation::Failed { status, stderr } => ExitView::Failed {
                status: status@,
                stderr: texts(stderr@),
            },
            ExitObservation::Unknown(cause) => ExitView::Unknown(cause@),
        }
    }
}

/// The last of the lines that is not empty.
pub open spec fn last_nonempty(lines: Seq<Seq<char>>) -> Option<Seq<char>>
    decreases lines.len(),
{
    if lines.len() == 0 {
        None
    } else if lines.last().len() > 0 {
        Some(lines.last())
    } else {
        last_nonempty(lines.drop_last())
    }
}

/// The message of a failed export: the last line of the error stream that
/// is not empty, or a line that names the exit status.
pub open spec fn failure_text(status: Seq<char>, stderr: Seq<Seq<char>>) -> Seq<char> {
    match last_nonempty(stderr) {
        Some(line) => line,
        None => "FFmpeg exited with code "@ + status,
    }
}

/// The error that an observation puts into the snapshot, if any.
pub open spec fn observed_error(exit: ExitView) -> Option<Seq<char>> {
    match exit {
        ExitView::Failed { status, stderr } => Some(failure_text(status, stderr)),
        ExitView::Unknown(cause) => Some("Error checking process: "@ + cause),
        _ => None,
    }
}

/// The job after a poll. Only a running job changes. What the progress
/// stream told is taken over; a process that ended with success puts the
/// percentage to one hundred; a failure or an unanswered query leaves its
/// message; and the job is terminal once the stream or the process has
/// ended.
pub open spec fn after_poll(s: StateView, update: UpdateView, exit: ExitView) -> StateView {
    if s.phase != JobPhase::Running {
        s
    } else {
        let finished = update.finished || !(exit is StillRunning);
        StateView {
            phase: if finished {
                JobPhase::Terminal
            } else {
                JobPhase::Running
            },
            progress: ProgressView {
                percent: if exit is Succeeded {
                    100_000_000
                } else {
                    match update.percent {
                        Some(p) => p,
                        None => s.progress.percent,
                    }
                },
                frame: match update.frame {
                    Some(f) => f,
                    None => s.progress.frame,
                },
                total_frames: s.progress.total_frames,
                speed: match update.speed {
                    Some(label) => label,
                    None => s.progress.speed,
                },
                eta: s.progress.eta,
                running: !finished,
                error: match observed_error(exit) {
                    Some(e) => Some(e),
                    None => s.progress.error,
                },
            },
            total_duration: s.total_duration,
        }
    }
}

/// The job after an export has started: running, with a fresh snapshot.
pub open spec fn after_start(total_duration: i64, total_frames: u64) -> StateView {
    StateView {
        phase: JobPhase::Running,
        progress: fresh_progress(total_frames),
        total_duration,
    }
}

/// The job after a cancellation: a running job becomes terminal and keeps
/// the cancellation as its error; any other job stays as it is.
pub open spec fn after_cancel(s: StateView) -> StateView {
    if s.phase != JobPhase::Running {
        s
    } else {
        StateView {
            phase: JobPhase::Terminal,
            progress: ProgressView {
                percent: s.progress.percent,
                frame: s.progress.frame,
                total_frames: s.progress.total_frames,
                speed: s.progress.speed,
                eta: s.progress.eta,
                running: false,
                error: Some("cancelled by user"@),
            },
            total_duration: s.total_duration,
        }
    }
}

/// One step that the owner of the engine's process takes for the job.
#[derive(Debug, Clone)]
pub enum Action {
    /// Kill the process that is held; the outcome does not matter.
    KillActive,
    /// Start the engine with the plan's arguments, and tell the job with
    /// `started` where that worked.
    Spawn(ExportPlan),
    /// Start nothing and hand the error to the caller.
    Reject(ExportError),
}

/// A step over plain text.
pub enum ActionView {
    KillActive,
    Spawn(PlanView),
    Reject(ErrorView),
}

impl View for Action {
    type V = ActionView;

    open spec fn view(&self) -> ActionView {
        match *self {
            Action::KillActive => ActionView::KillActive,
            Action::Spawn(plan) => ActionView::Spawn(plan@),
            Action::Reject(error) => ActionView::Reject(error@),
        }
    }
}

/// What a request to export asks for, in the order in which it is to be
/// done. A timeline without clips is rejected, and nothing else is done.
/// Every other timeline has the engine started with its plan, after the
/// process of a running job was killed.
pub open spec fn start_actions(phase: JobPhase, clips: Seq<ClipView>, settings: SettingsView)
    -> Seq<ActionView> {
    if clips.len() == 0 {
        seq![ActionView::Reject(ErrorView::NoClips)]
    } else if phase == JobPhase::Running {
        seq![ActionView::KillActive, ActionView::Spawn(plan_of(clips, settings))]
    } else {
        seq![ActionView::Spawn(plan_of(clips, settings))]
    }
}

/// Finds the last line that is not empty.
pub fn find_last_nonempty(lines: &Vec<String>) -> (r: Option<usize>)
    ensures
        match r {
            Some(i) => i < lines.len() && last_nonempty(texts(lines@)) == Some(lines@[i as int]@),
            None => last_nonempty(texts(lines@)) is None,
        },
{
    let ghost all = texts(lines@);
    let mut i: usize = lines.len();
    assert(all.take(i as int) =~= all);
    while i > 0
        invariant
            i <= lines.len(),
            all == texts(lines@),
            last_nonempty(all) == last_nonempty(all.take(i as int)),
        decreases i,
    {
        proof {
            assert(all.take(i as int).drop_last() =~= all.take(i - 1));
            assert(all.take(i as int).last() == lines@[i - 1]@);
        }
        if !lines[i - 1].as_str().is_empty() {
            return Some(i - 1);
        }
        i -= 1;
    }
    None
}

/// The message of a failed export.
pub fn failure_message(status: &str, stderr: &Vec<String>) -> (r: String)
    ensures
        r@ == failure_text(status@, texts(stderr@)),
{
    match find_last_nonempty(stderr) {
        Some(i) => stderr[i].clone(),
        None => {
            let mut r = String::from_str("FFmpeg exited with code ");
            r.append(status);
            r
        },
    }
}

impl ExitObservation {
    /// The error that the observation puts into the snapshot, if any.
    pub fn error(&self) -> (r: Option<String>)
        ensures
            match r {
                Some(e) => observed_error(self@) == Some(e@),
                None => observed_error(self@) is None,
            },
    {
        match self {
            ExitObservation::Failed { status, stderr } => Some(
                failure_message(status.as_str(), stderr),
            ),
            ExitObservation::Unknown(cause) => {
                let mut r = String::from_str("Error checking process: ");
                r.append(cause.as_str());
                Some(r)
            },
            _ => None,
        }
    }
}

impl Default for ExportState {
    /// An idle job.
    fn default() -> (r: ExportState)
        ensures
            r@.phase == JobPhase::Idle,
            r@.progress == idle_progress(),
            r@.total_duration == 0,
            well_formed(r@),
    {
        ExportState {
            phase: JobPhase::Idle,
            progress: ExportProgress {
                percent: 0,
                frame: 0,
                total_frames: 0,
                speed: String::from_str("0x"),
                eta: 0,
                running: false,
                error: None,
            },
            total_duration: 0,
        }
    }
}

impl ExportState {
    /// Whether the engine's process is held.
    pub fn is_active(&self) -> (r: bool)
        ensures
            r == (self.phase == JobPhase::Running),
    {
        match self.phase {
            JobPhase::Running => true,
            _ => false,
        }
    }

    /// Records that the engine was started with the plan: whatever the job
    /// was before, it is now running this export and no other. Returns the
    /// caller's confirmation.
    pub fn started(&mut self, plan: &ExportPlan) -> (r: String)
        ensures
            final(self)@ == after_start(plan.total_duration, plan.total_frames),
            well_formed(final(self)@),
            r@ == "Export started"@,
    {
        self.phase = JobPhase::Running;
        self.total_duration = plan.total_duration;
        self.progress = ExportProgress {
            percent: 0,
            frame: 0,
            total_frames: plan.total_frames,
            speed: String::from_str("0x"),
            eta: 0,
            running: true,
            error: None,
        };
        String::from_str("Export started")
    }
}

/// Decides what a request to export asks for. A timeline without clips is
/// rejected and nothing else is done. Otherwise the engine is to be started
/// with the timeline's plan, after the process that is held, if any, was
/// killed.
pub fn export_video(state: &ExportState, clips: &[ExportClip], settings: &ExportSettings) -> (actions:
    Vec<Action>)
    ensures
        views(actions@) == start_actions(state.phase, views(clips@), settings@),
{
    let mut actions: Vec<Action> = Vec::new();
    match plan_export(clips, settings) {
        Err(e) => {
            actions.push(Action::Reject(e));
        },
        Ok(plan) => {
            if state.is_active() {
                actions.push(Action::KillActive);
            }
            actions.push(Action::Spawn(plan));
        },
    }
    assert(views(actions@) =~= start_actions(state.phase, views(clips@), settings@));
    actions
}

/// A request with an empty timeline starts nothing and kills nothing: its
/// one step is the rejection.
pub proof fn empty_timeline_is_rejected(phase: JobPhase, settings: SettingsView)
    ensures
        start_actions(phase, Seq::<ClipView>::empty(), settings) == seq![
            ActionView::Reject(ErrorView::NoClips),
        ],
{
}

/// A request that comes while a job is running has the running process
/// killed first and the engine started second, and asks for nothing else.
pub proof fn running_job_is_superseded(clips: Seq<ClipView>, settings: SettingsView)
    requires
        clips.len() > 0,
    ensures
        start_actions(JobPhase::Running, clips, settings).len() == 2,
        start_actions(JobPhase::Running, clips, settings)[0] == ActionView::KillActive,
        start_actions(JobPhase::Running, clips, settings)[1] == ActionView::Spawn(
            plan_of(clips, settings),
        ),
{
}

/// The snapshot that a poll reports of a job: the idle snapshot of an idle
/// job, and the job's own snapshot otherwise.
pub open spec fn reported(s: StateView) -> ProgressView {
    if s.phase == JobPhase::Idle {
        idle_progress()
    } else {
        s.progress
    }
}

/// Takes what a poll saw into the job and returns the snapshot. `update`
/// is what the progress stream told since the last poll, `exit` what was
/// seen of the process. A well-formed job stays well formed where the
/// update's percentage lies from zero to one hundred, as that of every
/// update made from a scan does.
pub fn get_export_progress(state: &mut ExportState, update: StreamUpdate, exit: &ExitObservation)
    -> (r: ExportProgress)
    ensures
        final(state)@ == after_poll(old(state)@, update@, exit@),
        r@ == reported(final(state)@),
        well_formed(old(state)@) && (update.percent matches Some(p) ==> 0 <= p <= 100_000_000)
            ==> well_formed(final(state)@),
        well_formed(old(state)@) ==> r@ == final(state)@.progress,
{
    match state.phase {
        JobPhase::Idle => {
            return ExportState::default().progress;
        },
        JobPhase::Terminal => {
            return state.progress.copy();
        },
        JobPhase::Running => {},
    }
    let ended: bool = match exit {
        ExitObservation::StillRunning => false,
        _ => true,
    };
    let finished: bool = update.finished || ended;
    match exit {
        ExitObservation::Succeeded => {
            state.progress.percent = 100_000_000;
        },
        _ => {
            if let Some(p) = update.percent {
                state.progress.percent = p;
            }
        },
    }
    if let Some(label) = update.speed {
        state.progress.speed = label;
    }
    if let Some(f) = update.frame {
        state.progress.frame = f;
    }
    if let Some(e) = exit.error() {
        state.progress.error = Some(e);
    }
    state.progress.running = !finished;
    if finished {
        state.phase = JobPhase::Terminal;
    }
    state.progress.copy()
}

/// Records a cancellation, once the process that was held is killed.
/// Returns the caller's confirmation: that the export was cancelled, or
/// that there was none.
pub fn cancel_export(state: &mut ExportState) -> (r: String)
    ensures
        final(state)@ == after_cancel(old(state)@),
        well_formed(old(state)@) ==> well_formed(final(state)@),
        r@ == if old(state).phase == JobPhase::Running {
            "Export cancelled"@
        } else {
            "No export in progress"@
        },
{
    if state.is_active() {
        state.progress.running = false;
        state.progress.error = Some(String::from_str("cancelled by user"));
        state.phase = JobPhase::Terminal;
        String::from_str("Export cancelled")
    } else {
        String::from_str("No export in progress")
    }
}

/// A job that has just started is well formed.
pub proof fn started_job_is_well_formed(total_duration: i64, total_frames: u64)
    ensures
        well_formed(after_start(total_duration, total_frames)),
{
}

/// A poll keeps a job well formed, where the update's percentage lies from
/// zero to one hundred.
pub proof fn poll_keeps_well_formed(s: StateView, update: UpdateView, exit: ExitView)
    requires
        well_formed(s),
        update.percent matches Some(p) ==> 0 <= p <= 100_000_000,
    ensures
        well_formed(after_poll(s, update, exit)),
{
}

/// A cancellation keeps a job well formed.
pub proof fn cancel_keeps_well_formed(s: StateView)
    requires
        well_formed(s),
    ensures
        well_formed(after_cancel(s)),
{
}

/// A job that is not running takes nothing from a poll or a cancellation:
/// an idle job stays idle and a terminal job stays as it ended, until an
/// export is started.
pub proof fn only_running_job_changes(s: StateView, update: UpdateView, exit: ExitView)
    requires
        s.phase != JobPhase::Running,
    ensures
        after_poll(s, update, exit) == s,
        after_cancel(s) == s,
{
}

/// A running job leaves the running phase for the terminal phase and for no
/// other, and it does so exactly when the stream or the process has ended,
/// or when it is cancelled.
pub proof fn running_job_ends_in_terminal(s: StateView, update: UpdateView, exit: ExitView)
    requires
        s.phase == JobPhase::Running,
    ensures
        after_cancel(s).phase == JobPhase::Terminal,
        after_poll(s, update, exit).phase == if update.finished || !(exit is StillRunning) {
            JobPhase::Terminal
        } else {
            JobPhase::Running
        },
        after_poll(s, update, exit).progress.running == (after_poll(s, update, exit).phase
            == JobPhase::Running),
{
}

/// Once the stream has closed with `end`, the job is terminal at one
/// hundred percent, whatever was seen of the process at that poll, and no
/// later poll changes it, whatever that poll sees.
pub proof fn end_of_stream_is_final(
    s: StateView,
    scan: ScanView,
    exit: ExitView,
    later_update: UpdateView,
    later_exit: ExitView,
)
    requires
        s.phase == JobPhase::Running,
        scan.sentinel == Some(Sentinel::End),
    ensures
        ({
            let done = after_poll(s, update_of(scan, s.total_duration), exit);
            &&& done.progress.percent == 100_000_000
            &&& !done.progress.running
            &&& done.phase == JobPhase::Terminal
            &&& after_poll(done, later_update, later_exit) == done
        }),
{
}

/// The last line that is not empty is not empty.
pub proof fn last_nonempty_is_not_empty(lines: Seq<Seq<char>>)
    ensures
        last_nonempty(lines) matches Some(line) ==> line.len() > 0,
    decreases lines.len(),
{
    if lines.len() > 0 && lines.last().len() == 0 {
        last_nonempty_is_not_empty(lines.drop_last());
    }
}

/// A poll that sees the process of a running job end with a failure leaves
/// the job terminal with an error message that is not empty.
pub proof fn failed_exit_leaves_message(
    s: StateView,
    update: UpdateView,
    status: Seq<char>,
    stderr: Seq<Seq<char>>,
)
    requires
        s.phase == JobPhase::Running,
    ensures
        ({
            let done = after_poll(s, update, ExitView::Failed { status, stderr });
            &&& done.progress.error == Some(failure_text(status, stderr))
            &&& failure_text(status, stderr).len() > 0
            &&& !done.progress.running
            &&& done.phase == JobPhase::Terminal
        }),
{
    last_nonempty_is_not_empty(stderr);
    reveal_strlit("FFmpeg exited with code ");
}

/// A cancelled job shows the cancellation to every later poll.
pub proof fn cancellation_stays_visible(s: StateView, update: UpdateView, exit: ExitView)
    requires
        s.phase == JobPhase::Running,
    ensures
        after_poll(after_cancel(s), update, exit).progress.error == Some(
            "cancelled by user"@,
        ),
        !after_poll(after_cancel(s), update, exit).progress.running,
{
}

} // verus!
