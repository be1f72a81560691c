//! One reconciliation attempt, as a machine that is told what happened and
//! answers with what to do next.
//!
//! The program around the library performs each action against the hosting
//! platform, the working copy, the build command or the log storage, and
//! reports the outcome as the next event. The machine itself touches nothing:
//! what has been built already is read off the platform's status list alone.

use vstd::prelude::*;
use vstd::string::*;
use crate::error::Error;
use crate::error::ErrorView;
use crate::hub::common::State;
use crate::hub::responses::Status;
use crate::hub::responses::StatusView;
use crate::s3::stderr_key;
use crate::s3::stderr_key_of;
use crate::s3::stdout_key;
use crate::s3::stdout_key_of;
use crate::s3::Bucket;
use crate::text::same_text;
use crate::ui;
use crate::ui::Summary;
use crate::ui::SummaryView;

verus! {

/// How a recorded state is shown on the dashboard.
pub open spec fn shown_as(state: State) -> ui::Status {
    match state {
        State::Pending => ui::Status::Pending,
        State::Error => ui::Status::Failed,
        State::Failure => ui::Status::Failed,
        State::Success => ui::Status::Succeeded,
    }
}

/// How the outcome of a build is shown on the dashboard.
pub open spec fn shown_exit(exit_success: bool) -> ui::Status {
    if exit_success {
        ui::Status::Succeeded
    } else {
        ui::Status::Failed
    }
}

/// The dashboard's rendering of a state recorded on the platform.
pub fn render_state(state: State) -> (status: ui::Status)
    ensures
        status == shown_as(state),
{
    match state {
        State::Pending => ui::Status::Pending,
        State::Error | State::Failure => ui::Status::Failed,
        State::Success => ui::Status::Succeeded,
    }
}

/// Whether a status was reported under `context`.
pub open spec fn reported_under(status: StatusView, context: Seq<char>) -> bool {
    status.context == Some(context)
}

/// Whether `index` is the place of the first status under `context`. The
/// platform lists statuses newest first, so this is the current one.
pub open spec fn is_current(statuses: Seq<StatusView>, context: Seq<char>, index: int) -> bool {
    &&& 0 <= index < statuses.len()
    &&& reported_under(statuses[index], context)
    &&& forall|j: int| 0 <= j < index ==> !reported_under(#[trigger] statuses[j], context)
}

/// Whether any status was reported under `context`.
pub open spec fn claimed(statuses: Seq<StatusView>, context: Seq<char>) -> bool {
    exists|i: int| 0 <= i < statuses.len() && reported_under(#[trigger] statuses[i], context)
}

/// The state of the current status under `context`, if there is one.
pub open spec fn current_state(statuses: Seq<StatusView>, context: Seq<char>) -> Option<State> {
    if exists|i: int| is_current(statuses, context, i) {
        Some(statuses[choose|i: int| is_current(statuses, context, i)].state)
    } else {
        None
    }
}

/// The views of a list of statuses.
pub open spec fn status_views(statuses: Seq<Status>) -> Seq<StatusView> {
    Seq::new(statuses.len(), |i: int| statuses[i]@)
}

/// There is at most one current status.
pub proof fn lemma_current_unique(
    statuses: Seq<StatusView>,
    context: Seq<char>,
    i: int,
    j: int,
)
    requires
        is_current(statuses, context, i),
        is_current(statuses, context, j),
    ensures
        i == j,
{
    if i < j {
        assert(!reported_under(statuses[i], context));
    } else if j < i {
        assert(!reported_under(statuses[j], context));
    }
}

/// A status list holds a current status under a context exactly when it
/// holds any status under it.
pub proof fn lemma_current_iff_claimed(statuses: Seq<StatusView>, context: Seq<char>)
    ensures
        current_state(statuses, context) is Some <==> claimed(statuses, context),
{
    if claimed(statuses, context) {
        let i = choose|i: int|
            0 <= i < statuses.len() && reported_under(#[trigger] statuses[i], context);
        lemma_first_before(statuses, context, i);
    } else {
        if exists|i: int| is_current(statuses, context, i) {
            let i = choose|i: int| is_current(statuses, context, i);
            assert(reported_under(statuses[i], context));
        }
    }
}

/// Before any status under a context stands the first one.
proof fn lemma_first_before(statuses: Seq<StatusView>, context: Seq<char>, i: int)
    requires
        0 <= i < statuses.len(),
        reported_under(statuses[i], context),
    ensures
        exists|k: int| is_current(statuses, context, k),
    decreases i,
{
    if exists|j: int| 0 <= j < i && reported_under(#[trigger] statuses[j], context) {
        let j = choose|j: int| 0 <= j < i && reported_under(#[trigger] statuses[j], context);
        lemma_first_before(statuses, context, j);
    } else {
        assert(is_current(statuses, context, i));
    }
}

/// Finds the current status under `context`: the place of the first entry
/// of the list that carries this context.
pub fn find_status(statuses: &Vec<Status>, context: &str) -> (found: Option<usize>)
    ensures
        match found {
            Some(i) => is_current(status_views(statuses@), context@, i as int),
            None => !claimed(status_views(statuses@), context@),
        },
        found is Some <==> claimed(status_views(statuses@), context@),
        current_state(status_views(statuses@), context@) == match found {
            Some(i) => Some(statuses@[i as int].state),
            None => None,
        },
{
    let ghost views = status_views(statuses@);
    proof {
        lemma_current_iff_claimed(views, context@);
    }
    let mut i: usize = 0;
    while i < statuses.len()
        invariant
            i <= statuses@.len(),
            views == status_views(statuses@),
            forall|j: int| 0 <= j < i ==> !reported_under(#[trigger] views[j], context@),
        decreases statuses@.len() - i,
    {
        let hit = match &statuses[i].context {
            Some(c) => same_text(c.as_str(), context),
            None => false,
        };
        assert(hit == reported_under(views[i as int], context@));
        if hit {
            proof {
                assert(is_current(views, context@, i as int));
                let k = choose|k: int| is_current(views, context@, k);
                lemma_current_unique(views, context@, k, i as int);
            }
            return Some(i);
        }
        i += 1;
    }
    None
}

/// What to do about a commit, given the statuses the platform holds for it.
#[derive(Clone, Copy, Debug, PartialEq, Eq, Structural)]
pub enum Decision {
    /// No status under the agent's context: the commit is new and is built.
    Build,
    /// The commit has been handled, or is being handled, under the agent's
    /// context: it is left alone and shown with its current state.
    Leave(ui::Status),
}

/// The decision that a status list calls for.
pub open spec fn decision_for(statuses: Seq<StatusView>, context: Seq<char>) -> Decision {
    match current_state(statuses, context) {
        Some(state) => Decision::Leave(shown_as(state)),
        None => Decision::Build,
    }
}

/// Decides from the platform's status list alone whether a commit is built:
/// it is exactly when no status carries the agent's context, whatever the
/// states of the statuses that do.
pub fn decide(statuses: &Vec<Status>, context: &str) -> (decision: Decision)
    ensures
        decision == decision_for(status_views(statuses@), context@),
        decision == Decision::Build <==> !claimed(status_views(statuses@), context@),
{
    match find_status(statuses, context) {
        Some(i) => Decision::Leave(render_state(statuses[i].state)),
        None => Decision::Build,
    }
}

/// What one watched configuration fixes for every attempt.
#[derive(Debug)]
pub struct Plan {
    /// The label under which this agent reports.
    pub context: String,
    /// Root of the working copy, in which the build runs.
    pub working_dir: String,
    /// Location of the build script.
    pub script_path: String,
    /// Where the logs go.
    pub bucket: Bucket,
}

/// How an attempt ended.
#[derive(Debug)]
pub enum Outcome {
    /// The branch has no commit yet.
    NothingToBuild,
    /// The platform already holds a status for the commit under this
    /// context; `status` is how the dashboard shows it.
    AlreadyReported { sha: String, status: ui::Status },
    /// The commit was built and the result reported.
    Built { sha: String, exit_success: bool },
    /// A step failed; nothing further was done.
    Failed(Error),
    /// An event arrived that answers no action of this attempt.
    OutOfTurn,
}

/// What the machine asks for next.
#[derive(Debug)]
pub enum Action {
    /// Ask the platform for the head commit of the watched branch.
    FetchLatestCommit,
    /// Ask the platform for all statuses of a commit.
    FetchStatuses { sha: String },
    /// Append a status to a commit.
    PostStatus { sha: String, state: State, target_url: Option<String>, context: String },
    /// Bring the working copy to exactly this commit.
    ResetCheckout { sha: String },
    /// Run the build script with the root of the working copy as working
    /// directory, and capture its output.
    RunBuild { script_path: String, working_dir: String },
    /// Archive a captured stream under a key.
    StoreLog { key: String, content: Vec<u8> },
    /// The attempt is over.
    Finish(Outcome),
}

/// What the machine is told.
#[derive(Debug)]
pub enum Event {
    /// The head commit of the watched branch, or none if the branch is empty.
    LatestCommit(Option<String>),
    /// Every status of the commit, newest first.
    Statuses(Vec<Status>),
    /// The status was appended.
    StatusPosted,
    /// The working copy stands at the commit.
    CheckoutReset,
    /// The build command ran to its end.
    BuildFinished { exit_success: bool, stdout: Vec<u8>, stderr: Vec<u8> },
    /// The log was archived.
    LogStored,
    /// The action failed.
    Failed(Error),
}

/// Where an attempt stands: which answer it waits for, and what it has
/// learned so far.
#[derive(Debug)]
pub enum Phase {
    AwaitingCommit,
    AwaitingStatuses { sha: String },
    AwaitingClaim { sha: String },
    AwaitingCheckout { sha: String },
    AwaitingBuild { sha: String },
    AwaitingStdoutStored { sha: String, exit_success: bool, stderr: Vec<u8> },
    AwaitingStderrStored { sha: String, exit_success: bool },
    AwaitingReport { sha: String, exit_success: bool },
    Done,
}

/// An outcome as plain values.
pub enum OutcomeView {
    NothingToBuild,
    AlreadyReported { sha: Seq<char>, status: ui::Status },
    Built { sha: Seq<char>, exit_success: bool },
    Failed(ErrorView),
    OutOfTurn,
}

/// An action as plain values.
pub enum ActionView {
    FetchLatestCommit,
    FetchStatuses { sha: Seq<char> },
    PostStatus { sha: Seq<char>, state: State, target_url: Option<Seq<char>>, context: Seq<char> },
    ResetCheckout { sha: Seq<char> },
    RunBuild { script_path: Seq<char>, working_dir: Seq<char> },
    StoreLog { key: Seq<char>, content: Seq<u8> },
    Finish(OutcomeView),
}

/// An event as plain values.
pub enum EventView {
    LatestCommit(Option<Seq<char>>),
    Statuses(Seq<StatusView>),
    StatusPosted,
    CheckoutReset,
    BuildFinished { exit_success: bool, stdout: Seq<u8>, stderr: Seq<u8> },
    LogStored,
    Failed(ErrorView),
}

/// A phase as plain values.
pub enum PhaseView {
    AwaitingCommit,
    AwaitingStatuses { sha: Seq<char> },
    AwaitingClaim { sha: Seq<char> },
    AwaitingCheckout { sha: Seq<char> },
    AwaitingBuild { sha: Seq<char> },
    AwaitingStdoutStored { sha: Seq<char>, exit_success: bool, stderr: Seq<u8> },
    AwaitingStderrStored { sha: Seq<char>, exit_success: bool },
    AwaitingReport { sha: Seq<char>, exit_success: bool },
    Done,
}

impl View for Outcome {
    type V = OutcomeView;

    open spec fn view(&self) -> OutcomeView {
        match self {
            Outcome::NothingToBuild => OutcomeView::NothingToBuild,
            Outcome::AlreadyReported { sha, status } => OutcomeView::AlreadyReported {
                sha: sha@,
                status: *status,
            },
            Outcome::Built { sha, exit_success } => OutcomeView::Built {
                sha: sha@,
                exit_success: *exit_success,
            },
            Outcome::Failed(e) => OutcomeView::Failed(e@),
            Outcome::OutOfTurn => OutcomeView::OutOfTurn,
        }
    }
}

impl View for Action {
    type V = ActionView;

    open spec fn view(&self) -> ActionView {
        match self {
            Action::FetchLatestCommit => ActionView::FetchLatestCommit,
            Action::FetchStatuses { sha } => ActionView::FetchStatuses { sha: sha@ },
            Action::PostStatus { sha, state, target_url, context } => ActionView::PostStatus {
                sha: sha@,
                state: *state,
                target_url: match target_url {
                    Some(u) => Some(u@),
                    None => None,
                },
                context: context@,
            },
            Action::ResetCheckout { sha } => ActionView::ResetCheckout { sha: sha@ },
            Action::RunBuild { script_path, working_dir } => ActionView::RunBuild {
                script_path: script_path@,
                working_dir: working_dir@,
            },
            Action::StoreLog { key, content } => ActionView::StoreLog {
                key: key@,
                content: content@,
            },
            Action::Finish(outcome) => ActionView::Finish(outcome@),
        }
    }
}

impl View for Event {
    type V = EventView;

    open spec fn view(&self) -> EventView {
        match self {
            Event::LatestCommit(commit) => EventView::LatestCommit(
                match commit {
                    Some(sha) => Some(sha@),
                    None => None,
                },
            ),
            Event::Statuses(statuses) => EventView::Statuses(status_views(statuses@)),
            Event::StatusPosted => EventView::StatusPosted,
            Event::CheckoutReset => EventView::CheckoutReset,
            Event::BuildFinished { exit_success, stdout, stderr } => EventView::BuildFinished {
                exit_success: *exit_success,
                stdout: stdout@,
                stderr: stderr@,
            },
            Event::LogStored => EventView::LogStored,
            Event::Failed(e) => EventView::Failed(e@),
        }
    }
}

impl View for Phase {
    type V = PhaseView;

    open spec fn view(&self) -> PhaseView {
        match self {
            Phase::AwaitingCommit => PhaseView::AwaitingCommit,
            Phase::AwaitingStatuses { sha } => PhaseView::AwaitingStatuses { sha: sha@ },
            Phase::AwaitingClaim { sha } => PhaseView::AwaitingClaim { sha: sha@ },
            Phase::AwaitingCheckout { sha } => PhaseView::AwaitingCheckout { sha: sha@ },
            Phase::AwaitingBuild { sha } => PhaseView::AwaitingBuild { sha: sha@ },
            Phase::AwaitingStdoutStored { sha, exit_success, stderr } => {
                PhaseView::AwaitingStdoutStored {
                    sha: sha@,
                    exit_success: *exit_success,
                    stderr: stderr@,
                }
            },
            Phase::AwaitingStderrStored { sha, exit_success } => PhaseView::AwaitingStderrStored {
                sha: sha@,
                exit_success: *exit_success,
            },
            Phase::AwaitingReport { sha, exit_success } => PhaseView::AwaitingReport {
                sha: sha@,
                exit_success: *exit_success,
            },
            Phase::Done => PhaseView::Done,
        }
    }
}

/// A step of the machine: where it stands afterwards, and what it asks
/// for.
pub struct Transition {
    pub phase: PhaseView,
    pub action: ActionView,
}

/// The step that ends an attempt.
pub open spec fn finish(outcome: OutcomeView) -> Transition {
    Transition { phase: PhaseView::Done, action: ActionView::Finish(outcome) }
}

/// The state a finished build is reported with.
pub open spec fn state_of_exit(exit_success: bool) -> State {
    if exit_success {
        State::Success
    } else {
        State::Failure
    }
}

/// The build of the commit that the working copy stands at.
pub open spec fn run_build(plan: Plan) -> ActionView {
    ActionView::RunBuild { script_path: plan.script_path@, working_dir: plan.working_dir@ }
}

/// The status that claims a commit before any local work begins.
pub open spec fn pending_post(plan: Plan, sha: Seq<char>) -> ActionView {
    ActionView::PostStatus { sha, state: State::Pending, target_url: None, context: plan.context@ }
}

/// The status that reports a finished build; it links to the archived
/// standard output.
pub open spec fn final_post(plan: Plan, sha: Seq<char>, exit_success: bool) -> ActionView {
    ActionView::PostStatus {
        sha,
        state: state_of_exit(exit_success),
        target_url: Some(plan.bucket.url_of(stdout_key_of(sha))),
        context: plan.context@,
    }
}

/// The machine's rule: what follows from an event in a phase.
///
/// A failure ends the attempt at once, and so does an event that answers
/// no pending action. Otherwise the attempt walks through its steps in
/// order: head commit, statuses, claim, checkout, build, the two logs, the
/// final report.
pub open spec fn transition(plan: Plan, phase: PhaseView, event: EventView) -> Transition {
    match (phase, event) {
        (PhaseView::Done, _) => finish(OutcomeView::OutOfTurn),
        (_, EventView::Failed(e)) => finish(OutcomeView::Failed(e)),
        (PhaseView::AwaitingCommit, EventView::LatestCommit(None)) => finish(
            OutcomeView::NothingToBuild,
        ),
        (PhaseView::AwaitingCommit, EventView::LatestCommit(Some(sha))) => Transition {
            phase: PhaseView::AwaitingStatuses { sha },
            action: ActionView::FetchStatuses { sha },
        },
        (PhaseView::AwaitingStatuses { sha }, EventView::Statuses(statuses)) => {
            match decision_for(statuses, plan.context@) {
                Decision::Leave(status) => finish(OutcomeView::AlreadyReported { sha, status }),
                Decision::Build => Transition {
                    phase: PhaseView::AwaitingClaim { sha },
                    action: pending_post(plan, sha),
                },
            }
        },
        (PhaseView::AwaitingClaim { sha }, EventView::StatusPosted) => Transition {
            phase: PhaseView::AwaitingCheckout { sha },
            action: ActionView::ResetCheckout { sha },
        },
        (PhaseView::AwaitingCheckout { sha }, EventView::CheckoutReset) => Transition {
            phase: PhaseView::AwaitingBuild { sha },
            action: run_build(plan),
        },
        (
            PhaseView::AwaitingBuild { sha },
            EventView::BuildFinished { exit_success, stdout, stderr },
        ) => Transition {
            phase: PhaseView::AwaitingStdoutStored { sha, exit_success, stderr },
            action: ActionView::StoreLog { key: stdout_key_of(sha), content: stdout },
        },
        (
            PhaseView::AwaitingStdoutStored { sha, exit_success, stderr },
            EventView::LogStored,
        ) => Transition {
            phase: PhaseView::AwaitingStderrStored { sha, exit_success },
            action: ActionView::StoreLog { key: stderr_key_of(sha), content: stderr },
        },
        (PhaseView::AwaitingStderrStored { sha, exit_success }, EventView::LogStored) => {
            Transition {
                phase: PhaseView::AwaitingReport { sha, exit_success },
                action: final_post(plan, sha, exit_success),
            }
        },
        (PhaseView::AwaitingReport { sha, exit_success }, EventView::StatusPosted) => finish(
            OutcomeView::Built { sha, exit_success },
        ),
        _ => finish(OutcomeView::OutOfTurn),
    }
}

/// The dashboard after a build of `sha` was seen in state `status`.
pub open spec fn noted(summary: SummaryView, sha: Seq<char>, status: ui::Status) -> SummaryView {
    SummaryView { status, builds: ui::recorded(summary.builds, sha, status), ..summary }
}

/// The dashboard without an error.
pub open spec fn cleared(summary: SummaryView) -> SummaryView {
    SummaryView { last_error: None, ..summary }
}

/// What a step shows on the dashboard: each state a build is seen in, the
/// error that ended an attempt, and no error once an attempt went through.
pub open spec fn shown(summary: SummaryView, plan: Plan, phase: PhaseView, event: EventView) -> SummaryView {
    match (phase, event) {
        (PhaseView::Done, _) => summary,
        (_, EventView::Failed(e)) => SummaryView { last_error: Some(e.message), ..summary },
        (PhaseView::AwaitingCommit, EventView::LatestCommit(None)) => cleared(summary),
        (PhaseView::AwaitingStatuses { sha }, EventView::Statuses(statuses)) => {
            match decision_for(statuses, plan.context@) {
                Decision::Leave(status) => cleared(noted(summary, sha, status)),
                Decision::Build => noted(summary, sha, ui::Status::Pending),
            }
        },
        (PhaseView::AwaitingBuild { sha }, EventView::BuildFinished { exit_success, .. }) => noted(
            summary,
            sha,
            shown_exit(exit_success),
        ),
        (PhaseView::AwaitingReport { .. }, EventView::StatusPosted) => cleared(summary),
        _ => summary,
    }
}

/// The first action of every attempt, and the phase that waits for its
/// answer.
pub fn begin() -> (first: (Phase, Action))
    ensures
        first.0@ == PhaseView::AwaitingCommit,
        first.1@ == ActionView::FetchLatestCommit,
{
    (Phase::AwaitingCommit, Action::FetchLatestCommit)
}

/// Advances an attempt by one event, and brings the dashboard up to date.
pub fn step(plan: &Plan, phase: Phase, event: Event, summary: &mut Summary) -> (next: (
    Phase,
    Action,
))
    ensures
        next.0@ == transition(*plan, phase@, event@).phase,
        next.1@ == transition(*plan, phase@, event@).action,
        final(summary)@ == shown(old(summary)@, *plan, phase@, event@),
        ui::tidy(old(summary)@.builds) ==> ui::tidy(final(summary)@.builds),
{
    match (phase, event) {
        (Phase::Done, _) => (Phase::Done, Action::Finish(Outcome::OutOfTurn)),
        (_, Event::Failed(e)) => {
            summary.record_error(e.message.clone());
            (Phase::Done, Action::Finish(Outcome::Failed(e)))
        },
        (Phase::AwaitingCommit, Event::LatestCommit(None)) => {
            summary.clear_error();
            (Phase::Done, Action::Finish(Outcome::NothingToBuild))
        },
        (Phase::AwaitingCommit, Event::LatestCommit(Some(sha))) => {
            let asked = sha.clone();
            (Phase::AwaitingStatuses { sha }, Action::FetchStatuses { sha: asked })
        },
        (Phase::AwaitingStatuses { sha }, Event::Statuses(statuses)) => {
            match decide(&statuses, plan.context.as_str()) {
                Decision::Leave(status) => {
                    summary.record_build(sha.as_str(), status);
                    summary.clear_error();
                    (Phase::Done, Action::Finish(Outcome::AlreadyReported { sha, status }))
                },
                Decision::Build => {
                    summary.record_build(sha.as_str(), ui::Status::Pending);
                    let claimed = sha.clone();
                    (
                        Phase::AwaitingClaim { sha },
                        Action::PostStatus {
                            sha: claimed,
                            state: State::Pending,
                            target_url: None,
                            context: plan.context.clone(),
                        },
                    )
                },
            }
        },
        (Phase::AwaitingClaim { sha }, Event::StatusPosted) => {
            let target = sha.clone();
            (Phase::AwaitingCheckout { sha }, Action::ResetCheckout { sha: target })
        },
        (Phase::AwaitingCheckout { sha }, Event::CheckoutReset) => (
            Phase::AwaitingBuild { sha },
            Action::RunBuild {
                script_path: plan.script_path.clone(),
                working_dir: plan.working_dir.clone(),
            },
        ),
        (Phase::AwaitingBuild { sha }, Event::BuildFinished { exit_success, stdout, stderr }) => {
            let status = if exit_success {
                ui::Status::Succeeded
            } else {
                ui::Status::Failed
            };
            summary.record_build(sha.as_str(), status);
            let key = stdout_key(sha.as_str());
            (
                Phase::AwaitingStdoutStored { sha, exit_success, stderr },
                Action::StoreLog { key, content: stdout },
            )
        },
        (Phase::AwaitingStdoutStored { sha, exit_success, stderr }, Event::LogStored) => {
            let key = stderr_key(sha.as_str());
            (
                Phase::AwaitingStderrStored { sha, exit_success },
                Action::StoreLog { key, content: stderr },
            )
        },
        (Phase::AwaitingStderrStored { sha, exit_success }, Event::LogStored) => {
            let url = plan.bucket.get_url(sha.as_str());
            let reported = sha.clone();
            (
                Phase::AwaitingReport { sha, exit_success },
                Action::PostStatus {
                    sha: reported,
                    state: State::from_exit(exit_success),
                    target_url: Some(url),
                    context: plan.context.clone(),
                },
            )
        },
        (Phase::AwaitingReport { sha, exit_success }, Event::StatusPosted) => {
            summary.clear_error();
            (Phase::Done, Action::Finish(Outcome::Built { sha, exit_success }))
        },
        _ => (Phase::Done, Action::Finish(Outcome::OutOfTurn)),
    }
}

/// The actions that follow from a phase as the given events arrive, one
/// action per event, until the attempt is over or the events run out.
pub open spec fn actions(plan: Plan, phase: PhaseView, events: Seq<EventView>) -> Seq<ActionView>
    decreases events.len(),
{
    if events.len() == 0 || phase is Done {
        Seq::empty()
    } else {
        let t = transition(plan, phase, events[0]);
        seq![t.action] + actions(plan, t.phase, events.drop_first())
    }
}

/// Everything one attempt asks for, in order, as the given events arrive.
pub open spec fn attempt(plan: Plan, events: Seq<EventView>) -> Seq<ActionView> {
    seq![ActionView::FetchLatestCommit] + actions(plan, PhaseView::AwaitingCommit, events)
}

/// An action that changes something outside the agent: a status post, a
/// reset of the working copy, a build, or a log upload.
pub open spec fn is_effect(action: ActionView) -> bool {
    ||| action is PostStatus
    ||| action is ResetCheckout
    ||| action is RunBuild
    ||| action is StoreLog
}

/// One event's worth of `actions`.
proof fn lemma_actions_step(plan: Plan, phase: PhaseView, events: Seq<EventView>)
    requires
        events.len() >= 1,
        !(phase is Done),
    ensures
        actions(plan, phase, events) == seq![transition(plan, phase, events[0]).action] + actions(
            plan,
            transition(plan, phase, events[0]).phase,
            events.drop_first(),
        ),
        transition(plan, phase, events[0]).phase is Done ==> actions(plan, phase, events)
            == seq![transition(plan, phase, events[0]).action],
{
    if transition(plan, phase, events[0]).phase is Done {
        assert(actions(plan, PhaseView::Done, events.drop_first()) =~= Seq::empty());
        assert(actions(plan, phase, events) =~= seq![transition(plan, phase, events[0]).action]);
    }
}

/// On an empty branch an attempt ends with the answer that says so: the one
/// question for the head commit is all that it ever asks.
pub proof fn law_empty_branch_is_a_no_op(plan: Plan, events: Seq<EventView>)
    requires
        events.len() >= 1,
        events[0] == EventView::LatestCommit(None),
    ensures
        attempt(plan, events) == seq![
            ActionView::FetchLatestCommit,
            ActionView::Finish(OutcomeView::NothingToBuild),
        ],
{
    assert(actions(plan, PhaseView::Done, events.drop_first()) =~= Seq::empty());
    assert(attempt(plan, events) =~= seq![
        ActionView::FetchLatestCommit,
        ActionView::Finish(OutcomeView::NothingToBuild),
    ]);
}

/// A commit that already carries a status under the agent's context is left
/// alone, whatever the state of that status: the attempt reads the commit
/// and its statuses and ends, without posting, resetting, building or
/// storing anything.
pub proof fn law_reported_commit_is_left_alone(
    plan: Plan,
    sha: Seq<char>,
    statuses: Seq<StatusView>,
    events: Seq<EventView>,
)
    requires
        events.len() >= 2,
        events[0] == EventView::LatestCommit(Some(sha)),
        events[1] == EventView::Statuses(statuses),
        claimed(statuses, plan.context@),
    ensures
        current_state(statuses, plan.context@) is Some,
        attempt(plan, events) == seq![
            ActionView::FetchLatestCommit,
            ActionView::FetchStatuses { sha },
            ActionView::Finish(
                OutcomeView::AlreadyReported {
                    sha,
                    status: shown_as(current_state(statuses, plan.context@)->0),
                },
            ),
        ],
        forall|i: int| 0 <= i < attempt(plan, events).len() ==> !is_effect(attempt(plan, events)[i]),
{
    lemma_current_iff_claimed(statuses, plan.context@);
    let rest = events.drop_first();
    assert(rest[0] == events[1]);
    lemma_actions_step(plan, PhaseView::AwaitingCommit, events);
    lemma_actions_step(plan, PhaseView::AwaitingStatuses { sha }, rest);
    let expected = seq![
        ActionView::FetchLatestCommit,
        ActionView::FetchStatuses { sha },
        ActionView::Finish(
            OutcomeView::AlreadyReported {
                sha,
                status: shown_as(current_state(statuses, plan.context@)->0),
            },
        ),
    ];
    assert(attempt(plan, events) =~= expected);
}

/// A commit is claimed only when the platform holds no status for it under
/// the agent's context: `pending` is posted in answer to a status list
/// without such a status, and in no other situation.
pub proof fn law_pending_only_for_unclaimed(plan: Plan, phase: PhaseView, event: EventView)
    requires
        transition(plan, phase, event).action matches ActionView::PostStatus { state, .. }
            && state == State::Pending,
    ensures
        phase is AwaitingStatuses,
        event matches EventView::Statuses(statuses) && !claimed(statuses, plan.context@),
        transition(plan, phase, event).action == pending_post(plan, phase->AwaitingStatuses_sha),
{
    match event {
        EventView::Statuses(statuses) => {
            lemma_current_iff_claimed(statuses, plan.context@);
        },
        _ => {},
    }
}

/// A failure of any action ends the attempt there and then: nothing is
/// retried, and nothing further is asked for.
pub proof fn law_failure_ends_the_attempt(
    plan: Plan,
    phase: PhaseView,
    error: ErrorView,
    events: Seq<EventView>,
)
    requires
        !(phase is Done),
        events.len() >= 1,
        events[0] == EventView::Failed(error),
    ensures
        transition(plan, phase, events[0]) == finish(OutcomeView::Failed(error)),
        actions(plan, phase, events) == seq![ActionView::Finish(OutcomeView::Failed(error))],
{
    lemma_actions_step(plan, phase, events);
}

/// The events of an attempt on a new commit in which every action succeeds.
pub open spec fn smooth_build(
    sha: Seq<char>,
    statuses: Seq<StatusView>,
    exit_success: bool,
    stdout: Seq<u8>,
    stderr: Seq<u8>,
) -> Seq<EventView> {
    seq![
        EventView::LatestCommit(Some(sha)),
        EventView::Statuses(statuses),
        EventView::StatusPosted,
        EventView::CheckoutReset,
        EventView::BuildFinished { exit_success, stdout, stderr },
        EventView::LogStored,
        EventView::LogStored,
        EventView::StatusPosted,
    ]
}

/// A commit without a status under the agent's context is built once, and
/// exactly two statuses are posted for it: `pending` before the working copy
/// is touched, and after both logs are archived `success` or `failure`, by
/// the build's exit code alone, with a link to the archived standard output.
pub proof fn law_new_commit_is_claimed_built_and_reported(
    plan: Plan,
    sha: Seq<char>,
    statuses: Seq<StatusView>,
    exit_success: bool,
    stdout: Seq<u8>,
    stderr: Seq<u8>,
)
    requires
        !claimed(statuses, plan.context@),
    ensures
        attempt(plan, smooth_build(sha, statuses, exit_success, stdout, stderr)) == seq![
            ActionView::FetchLatestCommit,
            ActionView::FetchStatuses { sha },
            ActionView::PostStatus {
                sha,
                state: State::Pending,
                target_url: None,
                context: plan.context@,
            },
            ActionView::ResetCheckout { sha },
            ActionView::RunBuild {
                script_path: plan.script_path@,
                working_dir: plan.working_dir@,
            },
            ActionView::StoreLog { key: stdout_key_of(sha), content: stdout },
            ActionView::StoreLog { key: stderr_key_of(sha), content: stderr },
            ActionView::PostStatus {
                sha,
                state: if exit_success {
                    State::Success
                } else {
                    State::Failure
                },
                target_url: Some(plan.bucket.url_of(stdout_key_of(sha))),
                context: plan.context@,
            },
            ActionView::Finish(OutcomeView::Built { sha, exit_success }),
        ],
{
    lemma_current_iff_claimed(statuses, plan.context@);
    let e0 = smooth_build(sha, statuses, exit_success, stdout, stderr);
    let e1 = e0.drop_first();
    let e2 = e1.drop_first();
    let e3 = e2.drop_first();
    let e4 = e3.drop_first();
    let e5 = e4.drop_first();
    let e6 = e5.drop_first();
    let e7 = e6.drop_first();
    lemma_actions_step(plan, PhaseView::AwaitingCommit, e0);
    lemma_actions_step(plan, PhaseView::AwaitingStatuses { sha }, e1);
    lemma_actions_step(plan, PhaseView::AwaitingClaim { sha }, e2);
    lemma_actions_step(plan, PhaseView::AwaitingCheckout { sha }, e3);
    lemma_actions_step(plan, PhaseView::AwaitingBuild { sha }, e4);
    lemma_actions_step(plan, PhaseView::AwaitingStdoutStored { sha, exit_success, stderr }, e5);
    lemma_actions_step(plan, PhaseView::AwaitingStderrStored { sha, exit_success }, e6);
    lemma_actions_step(plan, PhaseView::AwaitingReport { sha, exit_success }, e7);
    let expected = seq![
        ActionView::FetchLatestCommit,
        ActionView::FetchStatuses { sha },
        pending_post(plan, sha),
        ActionView::ResetCheckout { sha },
        run_build(plan),
        ActionView::StoreLog { key: stdout_key_of(sha), content: stdout },
        ActionView::StoreLog { key: stderr_key_of(sha), content: stderr },
        final_post(plan, sha, exit_success),
        ActionView::Finish(OutcomeView::Built { sha, exit_success }),
    ];
    assert(attempt(plan, e0) =~= expected);
}

/// What may stand at a place of an attempt's list of actions: the end of
/// the attempt, or the one kind of work whose turn it is.
pub open spec fn in_turn(plan: Plan, action: ActionView, place: int) -> bool {
    match action {
        ActionView::Finish(_) => place >= 1,
        ActionView::FetchLatestCommit => place == 0,
        ActionView::FetchStatuses { .. } => place == 1,
        ActionView::PostStatus { state, target_url, context, .. } => {
            &&& context == plan.context@
            &&& if state == State::Pending {
                place == 2 && target_url is None
            } else {
                place == 7 && target_url is Some && (state == State::Success || state
                    == State::Failure)
            }
        },
        ActionView::ResetCheckout { .. } => place == 3,
        ActionView::RunBuild { .. } => place == 4,
        ActionView::StoreLog { .. } => place == 5 || place == 6,
    }
}

/// The place in an attempt's list of actions at which the answer to a
/// phase's pending action is acted on.
pub open spec fn place_of(phase: PhaseView) -> int {
    match phase {
        PhaseView::AwaitingCommit => 1,
        PhaseView::AwaitingStatuses { .. } => 2,
        PhaseView::AwaitingClaim { .. } => 3,
        PhaseView::AwaitingCheckout { .. } => 4,
        PhaseView::AwaitingBuild { .. } => 5,
        PhaseView::AwaitingStdoutStored { .. } => 6,
        PhaseView::AwaitingStderrStored { .. } => 7,
        PhaseView::AwaitingReport { .. } => 8,
        PhaseView::Done => 9,
    }
}

/// From any phase on, work is asked for in turn, and nothing follows the
/// end of the attempt.
proof fn lemma_actions_in_turn(plan: Plan, phase: PhaseView, events: Seq<EventView>)
    ensures
        place_of(phase) + actions(plan, phase, events).len() <= 9,
        forall|k: int|
            0 <= k < actions(plan, phase, events).len() ==> {
                &&& in_turn(plan, #[trigger] actions(plan, phase, events)[k], place_of(phase) + k)
                &&& actions(plan, phase, events)[k] is Finish ==> k == actions(
                    plan,
                    phase,
                    events,
                ).len() - 1
            },
    decreases events.len(),
{
    if events.len() == 0 || phase is Done {
    } else {
        let t = transition(plan, phase, events[0]);
        let rest = events.drop_first();
        lemma_actions_step(plan, phase, events);
        lemma_actions_in_turn(plan, t.phase, rest);
        let tail = actions(plan, t.phase, rest);
        let all = actions(plan, phase, events);
        assert(all == seq![t.action] + tail);
        assert(t.phase is Done || (place_of(t.phase) == place_of(phase) + 1 && !(t.action
            is Finish)));
        assert(in_turn(plan, t.action, place_of(phase)));
        assert forall|k: int| 0 <= k < all.len() implies {
            &&& in_turn(plan, #[trigger] all[k], place_of(phase) + k)
            &&& all[k] is Finish ==> k == all.len() - 1
        } by {
            if k == 0 {
                assert(all[0] == t.action);
                if t.action is Finish {
                    assert(t.phase is Done);
                }
            } else {
                assert(all[k] == tail[k - 1]);
            }
        }
    }
}

/// Whatever happens during an attempt, its work is asked for in one fixed
/// order, each kind at its own place: the head commit, its statuses, the
/// `pending` post, the reset, the build, the two logs, the final post.
/// The end of the attempt may come at any place after the first and is
/// the last thing asked for.
///
/// So no attempt posts more than two statuses; the first is `pending` and
/// comes before the working copy is touched; the second comes after both
/// logs, links to a log and reports `success` or `failure`, never `error`.
pub proof fn law_work_is_asked_for_in_turn(plan: Plan, events: Seq<EventView>)
    ensures
        attempt(plan, events).len() <= 9,
        forall|i: int|
            0 <= i < attempt(plan, events).len() ==> {
                &&& in_turn(plan, #[trigger] attempt(plan, events)[i], i)
                &&& attempt(plan, events)[i] is Finish ==> i == attempt(plan, events).len() - 1
            },
{
    lemma_actions_in_turn(plan, PhaseView::AwaitingCommit, events);
    let tail = actions(plan, PhaseView::AwaitingCommit, events);
    let all = attempt(plan, events);
    assert forall|i: int| 0 <= i < all.len() implies {
        &&& in_turn(plan, #[trigger] all[i], i)
        &&& all[i] is Finish ==> i == all.len() - 1
    } by {
        if i > 0 {
            assert(all[i] == tail[i - 1]);
        }
    }
}

} // verus!
