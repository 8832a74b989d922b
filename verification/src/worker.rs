//! The worker loop as a state machine: it takes one job at a time from the
//! persisted queue, runs it, and reports or requeues it.
//!
//! The machine decides; whoever drives it performs each action and hands
//! back the event that the action ended in.

use crate::err::{build_err_msg_impl, rendered, texts, ErrorSource};
use crate::state::{Job, JobView, MessageEvent, MessageEventView, Queue, QueuedJob, QueuedJobView};
use vstd::prelude::*;
use vstd::string::StringExecFns;

verus! {

/// Seconds between two polls of the queue.
pub const POLL_INTERVAL_SECS: u64 = 1;

/// The plain text of the reply to a failed job.
pub const FAILURE_PLAIN: &'static str = "Failed to execute your job.";

/// What precedes the error report in the formatted reply to a failed job.
pub const FAILURE_HTML_HEAD: &'static str =
    "Failed to execute your job.\n\n<details><summary>Click to see details</summary>\n\n";

/// What follows the error report in the formatted reply to a failed job.
pub const FAILURE_HTML_TAIL: &'static str = "\n</details>\n";

/// How a job ended.
#[derive(Clone, Debug, PartialEq, Eq)]
pub enum Outcome {
    /// The backend completed the job, wholly or in part.
    Succeeded,
    /// The backend failed; the messages are those of the failure and of its
    /// causes, outermost first.
    Failed(Vec<String>),
}

/// The mathematical value of an [`Outcome`].
pub enum OutcomeView {
    Succeeded,
    Failed(Seq<Seq<char>>),
}

impl View for Outcome {
    type V = OutcomeView;

    open spec fn view(&self) -> OutcomeView {
        match self {
            Outcome::Succeeded => OutcomeView::Succeeded,
            Outcome::Failed(chain) => OutcomeView::Failed(texts(chain@)),
        }
    }
}

/// Where the worker stands.
#[derive(Debug, PartialEq, Eq)]
pub enum Worker {
    /// Between two polls.
    Idle,
    /// Waiting for the queue to be read.
    Polling,
    /// Waiting for the queue without the job to be written.
    Committing(QueuedJob),
    /// Waiting for the job's room to be looked up.
    Resolving(QueuedJob),
    /// Waiting for the backend to end the job.
    Running(QueuedJob),
    /// Waiting for a fresh copy of the queue, to put the job back.
    Rereading(QueuedJob),
    /// Waiting for the queue with the job at its end to be written.
    Restoring(QueuedJob),
    /// Between two polls, with a job that still has to be put back.
    Holding(QueuedJob),
}

/// The mathematical value of a [`Worker`].
pub enum WorkerView {
    Idle,
    Polling,
    Committing(QueuedJobView),
    Resolving(QueuedJobView),
    Running(QueuedJobView),
    Rereading(QueuedJobView),
    Restoring(QueuedJobView),
    Holding(QueuedJobView),
}

impl View for Worker {
    type V = WorkerView;

    open spec fn view(&self) -> WorkerView {
        match self {
            Worker::Idle => WorkerView::Idle,
            Worker::Polling => WorkerView::Polling,
            Worker::Committing(job) => WorkerView::Committing(job@),
            Worker::Resolving(job) => WorkerView::Resolving(job@),
            Worker::Running(job) => WorkerView::Running(job@),
            Worker::Rereading(job) => WorkerView::Rereading(job@),
            Worker::Restoring(job) => WorkerView::Restoring(job@),
            Worker::Holding(job) => WorkerView::Holding(job@),
        }
    }
}

/// What happened since the last action.
#[derive(Debug, PartialEq, Eq)]
pub enum Event {
    /// The polling interval has passed.
    Tick,
    /// The queue was read.
    QueueRead(Queue),
    /// The queue was written.
    QueueWritten,
    /// The store could not be reached.
    StoreFailed,
    /// The bot is in the job's room.
    RoomFound,
    /// The bot is not, or no longer, in the job's room.
    RoomMissing,
    /// The backend ended the job.
    JobFinished(Outcome),
}

/// The mathematical value of an [`Event`].
pub enum EventView {
    Tick,
    QueueRead(Seq<QueuedJobView>),
    QueueWritten,
    StoreFailed,
    RoomFound,
    RoomMissing,
    JobFinished(OutcomeView),
}

impl View for Event {
    type V = EventView;

    open spec fn view(&self) -> EventView {
        match self {
            Event::Tick => EventView::Tick,
            Event::QueueRead(queue) => EventView::QueueRead(queue@),
            Event::QueueWritten => EventView::QueueWritten,
            Event::StoreFailed => EventView::StoreFailed,
            Event::RoomFound => EventView::RoomFound,
            Event::RoomMissing => EventView::RoomMissing,
            Event::JobFinished(outcome) => EventView::JobFinished(outcome@),
        }
    }
}

/// What is to be done next. `ReadQueue`, `WriteQueue`, `ResolveRoom` and
/// `RunJob` end in an event of their own; after each of the others the
/// polling interval passes, and `Tick` follows.
#[derive(Debug, PartialEq, Eq)]
pub enum Action {
    /// Nothing but to wait.
    Sleep,
    /// Read the persisted queue.
    ReadQueue,
    /// Replace the persisted queue by this one.
    WriteQueue(Queue),
    /// Look up the room with this identifier.
    ResolveRoom(String),
    /// Hand the job to the backend of its kind.
    RunJob(Job),
    /// React to the message with [`crate::command::REACTION_SUCCESS`].
    ReportSuccess(MessageEvent),
    /// React to the message with [`crate::command::REACTION_FAILURE`] and
    /// reply with [`FAILURE_PLAIN`] and this formatted report.
    ReportFailure(MessageEvent, String),
    /// Log that the job is given up: its room is out of reach.
    DropJob(QueuedJob),
}

/// The mathematical value of an [`Action`].
pub enum ActionView {
    Sleep,
    ReadQueue,
    WriteQueue(Seq<QueuedJobView>),
    ResolveRoom(Seq<char>),
    RunJob(JobView),
    ReportSuccess(MessageEventView),
    ReportFailure(MessageEventView, Seq<char>),
    DropJob(QueuedJobView),
}

impl View for Action {
    type V = ActionView;

    open spec fn view(&self) -> ActionView {
        match self {
            Action::Sleep => ActionView::Sleep,
            Action::ReadQueue => ActionView::ReadQueue,
            Action::WriteQueue(queue) => ActionView::WriteQueue(queue@),
            Action::ResolveRoom(room) => ActionView::ResolveRoom(room@),
            Action::RunJob(job) => ActionView::RunJob(job@),
            Action::ReportSuccess(ev) => ActionView::ReportSuccess(ev@),
            Action::ReportFailure(ev, report) => ActionView::ReportFailure(ev@, report@),
            Action::DropJob(job) => ActionView::DropJob(job@),
        }
    }
}

/// The formatted reply to a job that failed with this chain of messages.
pub open spec fn failure_report_spec(chain: Seq<Seq<char>>) -> Seq<char> {
    FAILURE_HTML_HEAD@ + rendered(chain) + FAILURE_HTML_TAIL@
}

/// The formatted reply to a job that failed with this chain of messages.
pub fn failure_report(chain: &Vec<String>) -> (report: String)
    ensures
        report@ == failure_report_spec(texts(chain@)),
{
    let mut report = FAILURE_HTML_HEAD.to_owned();
    match ErrorSource::new(chain) {
        Some(err) => {
            build_err_msg_impl(&mut report, err);
        },
        None => {
            assert(rendered(texts(chain@)) == Seq::<char>::empty());
            assert(report@ + Seq::<char>::empty() == report@);
        },
    }
    report.append(FAILURE_HTML_TAIL);
    report
}

/// The worker's rule: the state and the action that follow from a state
/// and an event.
///
/// A job leaves the persisted queue before it runs. It goes back to the
/// end of a freshly read queue when the store failed while it was taken
/// out or while its room was looked up, and it is held until that has been
/// written. A job whose room is out of reach is dropped. A job that the
/// backend has taken is not tried again: its success is reported, and so
/// is its failure. An event that the state does not wait for changes
/// nothing.
pub open spec fn step_spec(state: WorkerView, event: EventView) -> (WorkerView, ActionView) {
    match (state, event) {
        (WorkerView::Idle, EventView::Tick) => (WorkerView::Polling, ActionView::ReadQueue),
        (WorkerView::Polling, EventView::QueueRead(queue)) => if queue.len() == 0 {
            (WorkerView::Idle, ActionView::Sleep)
        } else {
            (WorkerView::Committing(queue[0]), ActionView::WriteQueue(queue.skip(1)))
        },
        (WorkerView::Polling, EventView::StoreFailed) => (WorkerView::Idle, ActionView::Sleep),
        (WorkerView::Committing(job), EventView::QueueWritten) => (
            WorkerView::Resolving(job),
            ActionView::ResolveRoom(job.ev.room_id),
        ),
        (WorkerView::Committing(job), EventView::StoreFailed) => (
            WorkerView::Rereading(job),
            ActionView::ReadQueue,
        ),
        (WorkerView::Resolving(job), EventView::RoomFound) => (
            WorkerView::Running(job),
            ActionView::RunJob(job.job),
        ),
        (WorkerView::Resolving(job), EventView::RoomMissing) => (
            WorkerView::Idle,
            ActionView::DropJob(job),
        ),
        (WorkerView::Resolving(job), EventView::StoreFailed) => (
            WorkerView::Rereading(job),
            ActionView::ReadQueue,
        ),
        (WorkerView::Running(job), EventView::JobFinished(OutcomeView::Succeeded)) => (
            WorkerView::Idle,
            ActionView::ReportSuccess(job.ev),
        ),
        (WorkerView::Running(job), EventView::JobFinished(OutcomeView::Failed(chain))) => (
            WorkerView::Idle,
            ActionView::ReportFailure(job.ev, failure_report_spec(chain)),
        ),
        (WorkerView::Rereading(job), EventView::QueueRead(queue)) => (
            WorkerView::Restoring(job),
            ActionView::WriteQueue(queue.push(job)),
        ),
        (WorkerView::Rereading(job), EventView::StoreFailed) => (
            WorkerView::Holding(job),
            ActionView::Sleep,
        ),
        (WorkerView::Restoring(job), EventView::QueueWritten) => (
            WorkerView::Idle,
            ActionView::Sleep,
        ),
        (WorkerView::Restoring(job), EventView::StoreFailed) => (
            WorkerView::Holding(job),
            ActionView::Sleep,
        ),
        (WorkerView::Holding(job), EventView::Tick) => (
            WorkerView::Rereading(job),
            ActionView::ReadQueue,
        ),
        _ => (state, ActionView::Sleep),
    }
}

impl Worker {
    /// The worker before its first poll.
    pub fn new() -> (worker: Worker)
        ensures
            worker@ == WorkerView::Idle,
    {
        Worker::Idle
    }

    /// Takes `event` in: the state that follows, and what is to be done.
    pub fn step(self, event: Event) -> (next: (Worker, Action))
        ensures
            (next.0@, next.1@) == step_spec(self@, event@),
    {
        match (self, event) {
            (Worker::Idle, Event::Tick) => (Worker::Polling, Action::ReadQueue),
            (Worker::Polling, Event::QueueRead(queue)) => {
                let mut queue = queue;
                match queue.dequeue() {
                    Some(job) => (Worker::Committing(job), Action::WriteQueue(queue)),
                    None => (Worker::Idle, Action::Sleep),
                }
            },
            (Worker::Polling, Event::StoreFailed) => (Worker::Idle, Action::Sleep),
            (Worker::Committing(job), Event::QueueWritten) => {
                let room = job.ev.room_id.clone();
                (Worker::Resolving(job), Action::ResolveRoom(room))
            },
            (Worker::Committing(job), Event::StoreFailed) => (
                Worker::Rereading(job),
                Action::ReadQueue,
            ),
            (Worker::Resolving(job), Event::RoomFound) => {
                let work = job.job.duplicate();
                (Worker::Running(job), Action::RunJob(work))
            },
            (Worker::Resolving(job), Event::RoomMissing) => (Worker::Idle, Action::DropJob(job)),
            (Worker::Resolving(job), Event::StoreFailed) => (
                Worker::Rereading(job),
                Action::ReadQueue,
            ),
            (Worker::Running(job), Event::JobFinished(Outcome::Succeeded)) => (
                Worker::Idle,
                Action::ReportSuccess(job.ev),
            ),
            (Worker::Running(job), Event::JobFinished(Outcome::Failed(chain))) => {
                let report = failure_report(&chain);
                (Worker::Idle, Action::ReportFailure(job.ev, report))
            },
            (Worker::Rereading(job), Event::QueueRead(queue)) => {
                let mut queue = queue;
                queue.enqueue(job.duplicate());
                (Worker::Restoring(job), Action::WriteQueue(queue))
            },
            (Worker::Rereading(job), Event::StoreFailed) => (Worker::Holding(job), Action::Sleep),
            (Worker::Restoring(job), Event::QueueWritten) => (Worker::Idle, Action::Sleep),
            (Worker::Restoring(job), Event::StoreFailed) => (Worker::Holding(job), Action::Sleep),
            (Worker::Holding(job), Event::Tick) => (Worker::Rereading(job), Action::ReadQueue),
            (state, _) => (state, Action::Sleep),
        }
    }
}

/// How a store that keeps what was written, a room that is there and a
/// backend that succeeds answer an action: the store afterwards, and the
/// event that the action ends in.
pub open spec fn calm_answer(store: Seq<QueuedJobView>, action: ActionView) -> (
    Seq<QueuedJobView>,
    EventView,
) {
    match action {
        ActionView::ReadQueue => (store, EventView::QueueRead(store)),
        ActionView::WriteQueue(queue) => (queue, EventView::QueueWritten),
        ActionView::ResolveRoom(_) => (store, EventView::RoomFound),
        ActionView::RunJob(_) => (store, EventView::JobFinished(OutcomeView::Succeeded)),
        _ => (store, EventView::Tick),
    }
}

/// The job that an action hands to the backend, if it does.
pub open spec fn handed_over(action: ActionView) -> Seq<JobView> {
    match action {
        ActionView::RunJob(job) => seq![job],
        _ => Seq::empty(),
    }
}

/// The worker driven for `steps` events where nothing fails, from `state`
/// with `event` pending and `store` persisted: the state, the pending
/// event and the store at the end, and the jobs handed to the backend, in
/// the order in which they were handed over.
pub open spec fn calm_run(state: WorkerView, event: EventView, store: Seq<QueuedJobView>, steps: nat)
    -> (WorkerView, EventView, Seq<QueuedJobView>, Seq<JobView>)
    decreases steps,
{
    if steps == 0 {
        (state, event, store, Seq::empty())
    } else {
        let (next, action) = step_spec(state, event);
        let (kept, answer) = calm_answer(store, action);
        let rest = calm_run(next, answer, kept, (steps - 1) as nat);
        (rest.0, rest.1, rest.2, handed_over(action) + rest.3)
    }
}

/// The events that one job takes from poll to report where nothing fails.
pub open spec fn steps_per_job() -> nat {
    5
}

/// First in, first out: where nothing fails, the worker drains the
/// persisted queue and hands its jobs to the backend in the order in which
/// they were enqueued.
pub proof fn lemma_fifo_order(queue: Seq<QueuedJobView>)
    ensures
        calm_run(WorkerView::Idle, EventView::Tick, queue, steps_per_job() * queue.len()) == (
            WorkerView::Idle,
            EventView::Tick,
            Seq::<QueuedJobView>::empty(),
            queue.map_values(|job: QueuedJobView| job.job),
        ),
    decreases queue.len(),
{
    let jobs = queue.map_values(|job: QueuedJobView| job.job);
    if queue.len() == 0 {
        assert(jobs == Seq::<JobView>::empty());
        assert(queue == Seq::<QueuedJobView>::empty());
    } else {
        let rest = queue.skip(1);
        let steps = steps_per_job() * queue.len();
        lemma_fifo_order(rest);
        assert(steps - 5 == steps_per_job() * rest.len());
        reveal_with_fuel(calm_run, 6);
        let after = calm_run(WorkerView::Idle, EventView::Tick, rest, (steps - 5) as nat);
        assert(calm_run(WorkerView::Idle, EventView::Tick, queue, steps).3 == seq![queue[0].job]
            + after.3);
        assert(seq![queue[0].job] + rest.map_values(|job: QueuedJobView| job.job) == jobs);
    }
}

/// Whether `event` is a failure that leaves the worker in `state` with
/// `job` in its hands: the store failed while the job was taken from the
/// queue or while its room was looked up.
pub open spec fn fails_in_hand(state: WorkerView, event: EventView, job: QueuedJobView) -> bool {
    ||| state == WorkerView::Committing(job) && event == EventView::StoreFailed
    ||| state == WorkerView::Resolving(job) && event == EventView::StoreFailed
}

/// Retry displacement: a job that fails in the worker's hands goes back
/// behind every job that the freshly read queue holds, so behind the jobs
/// that were enqueued after it was taken out.
pub proof fn lemma_retry_displacement(
    state: WorkerView,
    event: EventView,
    job: QueuedJobView,
    fresh: Seq<QueuedJobView>,
)
    requires
        fails_in_hand(state, event, job),
    ensures
        step_spec(state, event) == (WorkerView::Rereading(job), ActionView::ReadQueue),
        step_spec(WorkerView::Rereading(job), EventView::QueueRead(fresh)) == (
            WorkerView::Restoring(job),
            ActionView::WriteQueue(fresh.push(job)),
        ),
        fresh.push(job).last() == job,
        forall|i: int| 0 <= i < fresh.len() ==> fresh.push(job)[i] == fresh[i],
{
}

/// A failure of the backend is reported and the job is not tried again:
/// the worker answers with the rendered chain of messages, and however the
/// backend ended, the worker goes back to rest without the job.
pub proof fn lemma_backend_failure_is_reported(job: QueuedJobView, chain: Seq<Seq<char>>)
    ensures
        step_spec(
            WorkerView::Running(job),
            EventView::JobFinished(OutcomeView::Failed(chain)),
        ) == (WorkerView::Idle, ActionView::ReportFailure(job.ev, failure_report_spec(chain))),
        forall|outcome: OutcomeView|
            (#[trigger] step_spec(WorkerView::Running(job), EventView::JobFinished(outcome))).0
                == WorkerView::Idle,
{
}

/// A job goes back to the queue only after the store failed in the
/// worker's own hands: the worker turns to rereading the queue from a
/// failed write of the shortened queue or a failed look-up of the room,
/// and from nothing else but a job that it still holds from such a
/// failure.
pub proof fn lemma_requeue_only_after_store_failure(state: WorkerView, event: EventView)
    ensures
        step_spec(state, event).0 is Rereading && !(state is Rereading) ==> fails_in_hand(
            state,
            event,
            step_spec(state, event).0->Rereading_0,
        ) || (state == WorkerView::Holding(step_spec(state, event).0->Rereading_0) && event
            == EventView::Tick),
        step_spec(state, event).0 is Holding && !(state is Holding) ==> event
            == EventView::StoreFailed && (state is Rereading || state is Restoring),
        step_spec(state, event).0 is Restoring && !(state is Restoring) ==> state
            is Rereading && event is QueueRead,
{
}

/// Dequeue before run: a job is handed to the backend only after its room
/// was looked up, the worker turns to the room only after the queue
/// without the job has been written, and the job that it takes out is the
/// oldest of the queue that was read.
pub proof fn lemma_dequeue_before_run(state: WorkerView, event: EventView)
    ensures
        step_spec(state, event).1 is RunJob ==> state is Resolving && event
            == EventView::RoomFound && step_spec(state, event).1 == ActionView::RunJob(
            state->Resolving_0.job,
        ),
        step_spec(state, event).0 is Resolving && !(state is Resolving) ==> state
            == WorkerView::Committing(step_spec(state, event).0->Resolving_0) && event
            == EventView::QueueWritten,
        step_spec(state, event).0 is Committing && !(state is Committing) ==> state
            == WorkerView::Polling && event is QueueRead && event->QueueRead_0.len() > 0
            && step_spec(state, event) == (
            WorkerView::Committing(event->QueueRead_0[0]),
            ActionView::WriteQueue(event->QueueRead_0.skip(1)),
        ),
{
}

} // verus!
