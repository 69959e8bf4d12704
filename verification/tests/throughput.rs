use autopool::{
    retarget_command, tick_over, AutoPool, JobStatus, Tick, TickWorkTracker, Turn, WorkerPool,
    WorkerPoolCommand, WorkerPoolStatus,
};
use std::time::{Duration, Instant};

const HOUR: Duration = Duration::from_secs(3600);

fn auto_pool(tick_rate: Duration) -> AutoPool<u32, u32, ()> {
    let mut pool = WorkerPool::new(());
    for task in 0..10 {
        pool.push(task);
    }
    AutoPool::new(pool, tick_rate)
}

fn wait_for_tick(tracker: &TickWorkTracker) {
    while !tracker.tick_done() {}
}

#[test]
fn tracker_counts_work() {
    let mut tracker = TickWorkTracker::new(HOUR);
    assert_eq!((tracker.all_work, tracker.tick_work), (0, 0));
    assert_eq!(tracker.rate, HOUR);
    tracker.track_work();
    tracker.track_work();
    assert_eq!((tracker.all_work, tracker.tick_work), (2, 2));
    let began = tracker.last;
    tracker.reset_tick();
    assert_eq!((tracker.all_work, tracker.tick_work), (2, 0));
    assert!(tracker.last >= began);
    tracker.track_work();
    assert_eq!((tracker.all_work, tracker.tick_work), (3, 1));
}

#[test]
fn tick_is_done_once_its_time_is_over() {
    assert!(!TickWorkTracker::new(HOUR).tick_done());
    assert!(!TickWorkTracker::new(Duration::new(u64::MAX, 999_999_999)).tick_done());
    wait_for_tick(&TickWorkTracker::new(Duration::from_millis(2)));
    wait_for_tick(&TickWorkTracker::new(Duration::new(0, 0)));
}

#[test]
fn reset_begins_a_new_tick() {
    let mut tracker = TickWorkTracker::new(HOUR);
    tracker.rate = Duration::from_millis(1);
    wait_for_tick(&tracker);
    tracker.rate = HOUR;
    tracker.reset_tick();
    assert!(!tracker.tick_done());
}

#[test]
fn tick_lasts_for_its_whole_length() {
    assert!(!tick_over(0, 0));
    assert!(!tick_over(999, 1000));
    assert!(!tick_over(1000, 1000));
    assert!(tick_over(1001, 1000));
    assert!(!tick_over(u128::MAX, u128::MAX));
}

#[test]
fn default_tick_has_no_work() {
    assert_eq!(Tick::default().work, 0);
}

#[test]
fn new_target_takes_a_command() {
    assert_eq!(retarget_command(3, 2), Some(WorkerPoolCommand::SetWorkerCount(3)));
    assert_eq!(retarget_command(0, 1), Some(WorkerPoolCommand::SetWorkerCount(0)));
    assert_eq!(retarget_command(2, 2), None);
}

#[test]
fn controller_is_left_alone_within_a_tick() {
    let mut auto = auto_pool(HOUR);
    let turn = auto.work(|_| panic!("the tick is not over"));
    assert_eq!(turn.start.unwrap().job.task, 0);
    assert_eq!(auto.pool.target_workers(), 1);
}

#[test]
fn controller_sets_the_target_after_a_tick() {
    let mut auto = auto_pool(Duration::from_millis(1));
    wait_for_tick(&auto.tracker);
    auto.tracker.track_work();
    auto.work(|tracker| {
        assert_eq!(tracker.tick_work, 1);
        3
    });
    assert_eq!(auto.pool.target_workers(), 3);
    assert_eq!((auto.tracker.all_work, auto.tracker.tick_work), (1, 0));
}

#[test]
fn tick_passes_on_the_wish() {
    let mut auto = auto_pool(Duration::from_millis(1));
    wait_for_tick(&auto.tracker);
    auto.tick(|_| 5);
    assert_eq!(auto.pool.target_workers(), 1);
    auto.pool.process_pool_commands();
    assert_eq!(auto.pool.target_workers(), 5);
}

#[test]
fn controller_is_asked_only_when_the_tick_is_over() {
    let mut auto = auto_pool(HOUR);
    auto.tracker.track_work();
    let began = auto.tracker.last;
    auto.tick_at(began + HOUR, |_| panic!("the tick is not over"));
    auto.pool.process_pool_commands();
    assert_eq!(auto.pool.target_workers(), 1);
    assert_eq!(auto.tracker.tick_work, 1);
    assert_eq!(auto.tracker.last, began);
    let now = began + HOUR + Duration::from_nanos(1);
    auto.tick_at(now, |tracker| tracker.tick_work + 6);
    auto.pool.process_pool_commands();
    assert_eq!(auto.pool.target_workers(), 7);
    assert_eq!((auto.tracker.all_work, auto.tracker.tick_work), (1, 0));
    assert_eq!(auto.tracker.last, now);
    // Once per tick.
    auto.tick_at(now + HOUR, |_| panic!("the tick is not over"));
    auto.tick_at(now + HOUR + HOUR, |_| 2);
    auto.pool.process_pool_commands();
    assert_eq!(auto.pool.target_workers(), 2);
}

#[test]
fn tick_begins_at_the_given_time() {
    let mut tracker = TickWorkTracker::new(HOUR);
    tracker.track_work();
    let now = tracker.start + HOUR + HOUR;
    assert!(tracker.tick_done_at(now));
    assert!(!tracker.tick_done_at(tracker.last + HOUR));
    tracker.begin_tick(now);
    assert_eq!(tracker.last, now);
    assert_eq!((tracker.all_work, tracker.tick_work), (1, 0));
    assert!(!tracker.tick_done_at(now + HOUR));
    assert!(tracker.tick_done_at(now + HOUR + Duration::from_nanos(1)));
    tracker.track_work();
    assert!(tracker.tick_done_at(now + HOUR + HOUR));
    // Time does not run backwards.
    assert!(!tracker.tick_done_at(tracker.start));
}

#[test]
fn turn_is_handed_on_as_it_is() {
    let mut auto = auto_pool(HOUR);
    let turns = [
        (WorkerPoolStatus::Ready(9), 1),
        (WorkerPoolStatus::Working, 1),
        (WorkerPoolStatus::Done, 1),
        (WorkerPoolStatus::Ready(4), 2),
    ];
    for (status, work) in turns {
        let expected = match status {
            WorkerPoolStatus::Ready(out) => WorkerPoolStatus::Ready(out),
            WorkerPoolStatus::Working => WorkerPoolStatus::Working,
            WorkerPoolStatus::Done => WorkerPoolStatus::Done,
        };
        let turn = auto.count_output(Turn { status, start: None });
        assert_eq!(turn.status, expected);
        assert!(turn.start.is_none());
        assert_eq!((auto.tracker.all_work, auto.tracker.tick_work), (work, work));
    }
}

#[test]
fn wish_for_no_workers_leaves_one() {
    let mut auto = auto_pool(HOUR);
    auto.retarget(4, Instant::now());
    auto.pool.process_pool_commands();
    assert_eq!(auto.pool.target_workers(), 4);
    auto.retarget(0, Instant::now());
    auto.pool.process_pool_commands();
    assert_eq!(auto.pool.target_workers(), 1);
}

#[test]
fn every_output_counts_as_work() {
    let mut auto = auto_pool(HOUR);
    let worker = auto.work(|_| 1).start.unwrap();
    assert_eq!(auto.tracker.tick_work, 0);
    assert!(worker.job.results.try_send(6).is_ok());
    assert!(worker.job.results.try_send(12).is_ok());
    assert_eq!(auto.work(|_| 1).status, WorkerPoolStatus::Ready(6));
    assert_eq!(auto.work(|_| 1).status, WorkerPoolStatus::Ready(12));
    assert_eq!(auto.work(|_| 1).status, WorkerPoolStatus::Working);
    assert_eq!((auto.tracker.all_work, auto.tracker.tick_work), (2, 2));
    assert!(worker.reporter.report(JobStatus::Done).is_ok());
    assert_eq!(auto.work(|_| 1).start.unwrap().job.task, 1);
}

#[test]
fn target_is_reached_in_as_many_turns_as_workers_are_missing() {
    let mut auto = auto_pool(HOUR);
    auto.retarget(4, Instant::now());
    let mut workers = Vec::new();
    for _ in 0..4 {
        assert!(!auto.pool.at_target_worker_count());
        workers.push(auto.work(|_| 4).start.unwrap());
    }
    assert!(auto.pool.at_target_worker_count());
    assert!(auto.work(|_| 4).start.is_none());
    auto.retarget(2, Instant::now());
    auto.work(|_| 2);
    auto.work(|_| 2);
    assert!(auto.pool.at_target_worker_count());
    assert_eq!(auto.pool.cur_workers(), 4);
    for worker in workers.drain(..2) {
        assert!(worker.reporter.report(JobStatus::Stopped).is_ok());
    }
    auto.work(|_| 2);
    assert_eq!(auto.pool.cur_workers(), 2);
}
