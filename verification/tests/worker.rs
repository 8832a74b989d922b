use tg2mx_bot::json::Json;
use tg2mx_bot::state::{enqueue_impl, read_queue, write_queue, Job, MessageEvent, Queue, QueuedJob};
use tg2mx_bot::worker::{
    failure_report, Action, Event, Outcome, Worker, FAILURE_PLAIN, POLL_INTERVAL_SECS,
};

fn queued(n: u64, pack: &str) -> QueuedJob {
    QueuedJob {
        ev: MessageEvent {
            content: Json::Object(vec![
                ("body".to_string(), Json::Text(format!("!import {pack}"))),
                ("msgtype".to_string(), Json::Text("m.text".to_string())),
            ]),
            event_id: format!("$e{n}"),
            sender: "@a:x".to_string(),
            origin_server_ts: n,
            room_id: format!("!room{n}:x"),
        },
        job: Job::Import(pack.to_string()),
    }
}

fn queue_of(jobs: Vec<QueuedJob>) -> Queue {
    let mut queue = Queue::new();
    for job in jobs {
        queue.enqueue(job);
    }
    queue
}

/// Drives the worker against a store that keeps what is written, a room that
/// is there and a backend that succeeds, until the store is empty and the
/// worker rests. Returns the jobs in the order in which they were run.
fn drain(mut store: Queue) -> Vec<Job> {
    let mut run = Vec::new();
    let mut worker = Worker::new();
    let mut event = Event::Tick;
    for _ in 0..1000 {
        let (next, action) = worker.step(event);
        worker = next;
        event = match action {
            Action::ReadQueue => Event::QueueRead(store.clone()),
            Action::WriteQueue(queue) => {
                store = queue;
                Event::QueueWritten
            }
            Action::ResolveRoom(_) => Event::RoomFound,
            Action::RunJob(job) => {
                run.push(job);
                Event::JobFinished(Outcome::Succeeded)
            }
            Action::Sleep if store.is_empty() => return run,
            _ => Event::Tick,
        };
    }
    panic!("the worker did not come to rest");
}

#[test]
fn jobs_run_in_the_order_of_the_queue() {
    let store = queue_of(vec![queued(1, "J1"), queued(2, "J2"), queued(3, "J3")]);
    assert_eq!(
        drain(store),
        vec![
            Job::Import("J1".to_string()),
            Job::Import("J2".to_string()),
            Job::Import("J3".to_string())
        ]
    );
}

#[test]
fn empty_queue_means_sleep() {
    let (worker, action) = Worker::new().step(Event::Tick);
    assert_eq!(worker, Worker::Polling);
    assert_eq!(action, Action::ReadQueue);
    let (worker, action) = worker.step(Event::QueueRead(Queue::new()));
    assert_eq!(worker, Worker::Idle);
    assert_eq!(action, Action::Sleep);
}

#[test]
fn job_leaves_the_queue_before_it_runs() {
    let (worker, _) = Worker::new().step(Event::Tick);
    let (worker, action) =
        worker.step(Event::QueueRead(queue_of(vec![queued(1, "J1"), queued(2, "J2")])));
    assert_eq!(worker, Worker::Committing(queued(1, "J1")));
    assert_eq!(action, Action::WriteQueue(queue_of(vec![queued(2, "J2")])));
    let (worker, action) = worker.step(Event::QueueWritten);
    assert_eq!(worker, Worker::Resolving(queued(1, "J1")));
    assert_eq!(action, Action::ResolveRoom("!room1:x".to_string()));
    let (worker, action) = worker.step(Event::RoomFound);
    assert_eq!(worker, Worker::Running(queued(1, "J1")));
    assert_eq!(action, Action::RunJob(Job::Import("J1".to_string())));
    let (worker, action) = worker.step(Event::JobFinished(Outcome::Succeeded));
    assert_eq!(worker, Worker::Idle);
    assert_eq!(action, Action::ReportSuccess(queued(1, "J1").ev));
}

#[test]
fn failed_store_access_puts_the_job_behind_later_jobs() {
    let j1 = queued(1, "J1");
    let j2 = queued(2, "J2");
    let (worker, _) = Worker::new().step(Event::Tick);
    let (worker, action) = worker.step(Event::QueueRead(queue_of(vec![j1.clone()])));
    assert_eq!(action, Action::WriteQueue(Queue::new()));
    let (worker, _) = worker.step(Event::QueueWritten);
    let (worker, action) = worker.step(Event::StoreFailed);
    assert_eq!(worker, Worker::Rereading(j1.clone()));
    assert_eq!(action, Action::ReadQueue);
    // J2 was enqueued in the meantime
    let (worker, action) = worker.step(Event::QueueRead(queue_of(vec![j2.clone()])));
    assert_eq!(worker, Worker::Restoring(j1.clone()));
    assert_eq!(action, Action::WriteQueue(queue_of(vec![j2, j1])));
    let (worker, action) = worker.step(Event::QueueWritten);
    assert_eq!(worker, Worker::Idle);
    assert_eq!(action, Action::Sleep);
}

#[test]
fn job_goes_back_after_a_failed_write_of_the_queue() {
    let j1 = queued(1, "J1");
    let (worker, action) = Worker::Committing(j1.clone()).step(Event::StoreFailed);
    assert_eq!(worker, Worker::Rereading(j1.clone()));
    assert_eq!(action, Action::ReadQueue);
    let (worker, action) = Worker::Resolving(j1.clone()).step(Event::StoreFailed);
    assert_eq!(worker, Worker::Rereading(j1));
    assert_eq!(action, Action::ReadQueue);
}

#[test]
fn running_job_is_never_requeued() {
    let j1 = queued(1, "J1");
    let (worker, action) = Worker::Running(j1.clone()).step(Event::StoreFailed);
    assert_eq!(worker, Worker::Running(j1.clone()));
    assert_eq!(action, Action::Sleep);
    let chain = vec!["Failed to download maunium sticker pack".to_string()];
    let (worker, action) = Worker::Running(j1).step(Event::JobFinished(Outcome::Failed(chain)));
    assert_eq!(worker, Worker::Idle);
    assert!(matches!(action, Action::ReportFailure(_, _)));
}

#[test]
fn job_is_held_until_it_is_back_in_the_queue() {
    let j1 = queued(1, "J1");
    let (worker, action) = Worker::Rereading(j1.clone()).step(Event::StoreFailed);
    assert_eq!(worker, Worker::Holding(j1.clone()));
    assert_eq!(action, Action::Sleep);
    let (worker, action) = worker.step(Event::Tick);
    assert_eq!(worker, Worker::Rereading(j1.clone()));
    assert_eq!(action, Action::ReadQueue);
    let (worker, _) = worker.step(Event::QueueRead(Queue::new()));
    let (worker, action) = worker.step(Event::StoreFailed);
    assert_eq!(worker, Worker::Holding(j1));
    assert_eq!(action, Action::Sleep);
}

#[test]
fn job_without_room_is_dropped() {
    let j1 = queued(1, "J1");
    let (worker, action) = Worker::Resolving(j1.clone()).step(Event::RoomMissing);
    assert_eq!(worker, Worker::Idle);
    assert_eq!(action, Action::DropJob(j1));
}

#[test]
fn backend_failure_is_reported_and_not_retried() {
    let j1 = queued(1, "J1");
    let chain = vec!["top".to_string(), "bottom".to_string()];
    let (worker, action) =
        Worker::Running(j1.clone()).step(Event::JobFinished(Outcome::Failed(chain)));
    assert_eq!(worker, Worker::Idle);
    assert_eq!(
        action,
        Action::ReportFailure(
            j1.ev,
            "Failed to execute your job.\n\n<details><summary>Click to see details</summary>\n\ntop\n<ul>\n<li><b>Caused by:</b>\nbottom\n</li>\n</ul>\n\n</details>\n"
                .to_string()
        )
    );
    assert_eq!(FAILURE_PLAIN, "Failed to execute your job.");
}

#[test]
fn failure_report_without_messages_has_no_details() {
    assert_eq!(
        failure_report(&vec![]),
        "Failed to execute your job.\n\n<details><summary>Click to see details</summary>\n\n\n</details>\n"
    );
}

#[test]
fn failed_poll_ends_the_iteration() {
    let (worker, action) = Worker::Polling.step(Event::StoreFailed);
    assert_eq!(worker, Worker::Idle);
    assert_eq!(action, Action::Sleep);
}

#[test]
fn unexpected_events_change_nothing() {
    let j1 = queued(1, "J1");
    let (worker, action) = Worker::Idle.step(Event::QueueWritten);
    assert_eq!(worker, Worker::Idle);
    assert_eq!(action, Action::Sleep);
    let (worker, action) = Worker::Running(j1.clone()).step(Event::Tick);
    assert_eq!(worker, Worker::Running(j1));
    assert_eq!(action, Action::Sleep);
}

#[test]
fn queue_is_polled_every_second() {
    assert_eq!(POLL_INTERVAL_SECS, 1);
}

#[test]
fn jobs_enqueued_through_the_store_run_in_order() {
    let mut stored: Option<Vec<u8>> = None;
    for (n, pack) in [(1, "J1"), (2, "J2"), (3, "J3")] {
        let job = queued(n, pack);
        stored = Some(enqueue_impl(stored.as_deref(), job.ev, job.job));
    }
    let mut stored = stored.unwrap();
    let mut run = Vec::new();
    let mut worker = Worker::new();
    let mut event = Event::Tick;
    for _ in 0..100 {
        let (next, action) = worker.step(event);
        worker = next;
        event = match action {
            Action::ReadQueue => Event::QueueRead(read_queue(Some(&stored))),
            Action::WriteQueue(queue) => {
                stored = write_queue(&queue);
                Event::QueueWritten
            }
            Action::ResolveRoom(_) => Event::RoomFound,
            Action::RunJob(job) => {
                run.push(job);
                Event::JobFinished(Outcome::Succeeded)
            }
            _ => Event::Tick,
        };
    }
    assert_eq!(
        run,
        vec![
            Job::Import("J1".to_string()),
            Job::Import("J2".to_string()),
            Job::Import("J3".to_string())
        ]
    );
    assert_eq!(read_queue(Some(&stored)), Queue::new());
}
