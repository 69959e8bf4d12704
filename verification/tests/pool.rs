use autopool::{
    is_stop, unsent_after, Delivery, Job, JobStatus, Received, ReportError, Turn, WorkerEvent,
    WorkerPool, WorkerPoolCommand, WorkerPoolStatus, WorkerStart, ROOM,
};

type Pool = WorkerPool<u32, u32, &'static str>;

fn pool_with(target: usize, tasks: u32) -> Pool {
    let mut pool: Pool = WorkerPool::new("double");
    pool.set_target_workers(target);
    for task in 0..tasks {
        pool.push(task);
    }
    pool
}

/// Runs turns until the pool starts no more workers.
fn start_all(pool: &mut Pool) -> Vec<WorkerStart<u32, u32>> {
    let mut workers = Vec::new();
    loop {
        match pool.work().start {
            Some(worker) => workers.push(worker),
            None => return workers,
        }
    }
}

#[test]
fn stub_test() {}

#[test]
fn new_pool_is_idle() {
    let mut pool: Pool = WorkerPool::new("double");
    assert_eq!(pool.cur_workers(), 0);
    assert_eq!(pool.target_workers(), 1);
    assert_eq!(pool.unsent_stops(), 0);
    assert!(!pool.working());
    assert!(!pool.at_target_worker_count());
    assert_eq!(*pool.task(), "double");
    let turn = pool.work();
    assert!(turn.start.is_none());
    assert_eq!(turn.status, WorkerPoolStatus::Working);
    assert_eq!(pool.cur_workers(), 0);
}

#[test]
fn workers_start_one_per_turn_up_to_the_target() {
    let mut pool = pool_with(2, 5);
    let first = pool.work().start.unwrap();
    assert_eq!(pool.cur_workers(), 1);
    assert!(pool.working());
    assert!(!pool.at_target_worker_count());
    let second = pool.work().start.unwrap();
    assert_eq!(pool.cur_workers(), 2);
    assert!(pool.at_target_worker_count());
    assert!(pool.work().start.is_none());
    assert_eq!(pool.cur_workers(), 2);
    assert_eq!((first.job.task, second.job.task), (0, 1));
}

#[test]
fn tasks_are_taken_in_the_order_of_pushes() {
    let mut pool = pool_with(4, 2);
    let mut tasks: Vec<u32> = start_all(&mut pool).iter().map(|w| w.job.task).collect();
    pool.push(7);
    pool.push(3);
    tasks.extend(start_all(&mut pool).iter().map(|w| w.job.task));
    assert_eq!(tasks, vec![0, 1, 7, 3]);
    assert_eq!(pool.get_task(), None);
}

#[test]
fn get_task_takes_the_oldest() {
    let mut pool = pool_with(1, 2);
    assert_eq!(pool.get_task(), Some(0));
    assert_eq!(pool.get_task(), Some(1));
    assert_eq!(pool.get_task(), None);
    assert_eq!(pool.cur_workers(), 0);
}

#[test]
fn start_worker_ignores_the_target() {
    let mut pool = pool_with(0, 1);
    assert_eq!(pool.start_worker().unwrap().job.task, 0);
    assert_eq!(pool.cur_workers(), 1);
    assert!(pool.start_worker().is_none());
    assert_eq!(pool.cur_workers(), 1);
}

#[test]
fn worker_count_is_set_in_the_next_turn() {
    let mut pool = pool_with(1, 0);
    pool.command(WorkerPoolCommand::SetWorkerCount(9));
    assert_eq!(pool.target_workers(), 1);
    pool.work();
    assert_eq!(pool.target_workers(), 9);
}

#[test]
fn worker_count_of_zero_stands_for_one() {
    let mut pool = pool_with(5, 0);
    pool.command(WorkerPoolCommand::SetWorkerCount(0));
    pool.process_pool_commands();
    assert_eq!(pool.target_workers(), 1);
}

#[test]
fn last_worker_count_stands() {
    let mut pool = pool_with(1, 0);
    pool.command(WorkerPoolCommand::SetWorkerCount(4));
    pool.command(WorkerPoolCommand::SetWorkerCount(2));
    pool.command(WorkerPoolCommand::Stop);
    pool.process_pool_commands();
    assert_eq!(pool.target_workers(), 2);
    // Nothing is left to carry out.
    pool.set_target_workers(6);
    pool.process_pool_commands();
    assert_eq!(pool.target_workers(), 6);
}

#[test]
fn target_can_be_set_to_zero_without_stopping_anyone() {
    let mut pool = pool_with(2, 2);
    let workers = start_all(&mut pool);
    pool.set_target_workers(0);
    assert_eq!(pool.target_workers(), 0);
    assert_eq!(pool.cur_workers(), 2);
    assert!(!workers[0].job.stop_requested());
}

#[test]
fn surplus_workers_are_stopped_one_per_turn() {
    let mut pool = pool_with(3, 3);
    let mut workers = start_all(&mut pool);
    pool.set_target_workers(1);
    pool.work();
    // One stop message, which only one worker finds.
    assert!(workers[2].job.stop_requested());
    assert!(!workers[0].job.stop_requested());
    assert_eq!(pool.cur_workers(), 3);
    assert!(!pool.at_target_worker_count());
    pool.work();
    assert!(workers[1].job.stop_requested());
    assert!(pool.at_target_worker_count());
    // Enough workers have been told.
    pool.work();
    assert!(!workers[0].job.stop_requested());
    for _ in 0..2 {
        assert!(workers.pop().unwrap().reporter.report(JobStatus::Stopped).is_ok());
    }
    pool.work();
    assert_eq!(pool.cur_workers(), 1);
    assert!(pool.at_target_worker_count());
}

#[test]
fn worker_that_is_done_is_replaced() {
    let mut pool = pool_with(1, 2);
    let worker = pool.work().start.unwrap();
    assert!(pool.work().start.is_none());
    assert!(worker.reporter.report(JobStatus::Done).is_ok());
    let turn = pool.work();
    assert_eq!(turn.start.unwrap().job.task, 1);
    assert_eq!(pool.cur_workers(), 1);
}

#[test]
fn stopping_worker_that_is_done_is_no_longer_counted() {
    let mut pool = pool_with(1, 1);
    let worker = pool.work().start.unwrap();
    pool.command(WorkerPoolCommand::Stop);
    pool.process_pool_commands();
    assert!(worker.job.stop_requested());
    assert_eq!(pool.cur_workers(), 1);
    assert!(worker.reporter.report(JobStatus::Done).is_ok());
    pool.process_worker_events();
    assert_eq!(pool.cur_workers(), 0);
    assert!(!pool.at_target_worker_count());
    pool.push(8);
    assert!(pool.work().start.is_some());
    assert!(pool.at_target_worker_count());
}

#[test]
fn events_leave_the_same_counts_in_either_order() {
    for events in [
        [WorkerEvent::WorkerDone, WorkerEvent::WorkerStopped],
        [WorkerEvent::WorkerStopped, WorkerEvent::WorkerDone],
    ] {
        let mut pool = pool_with(3, 3);
        start_all(&mut pool);
        pool.set_target_workers(1);
        pool.work();
        pool.apply_worker_event(events[0]);
        pool.apply_worker_event(events[1]);
        assert_eq!(pool.cur_workers(), 1);
        assert!(pool.at_target_worker_count());
    }
}

#[test]
fn stop_command_asks_for_as_many_as_the_target() {
    let mut pool = pool_with(2, 2);
    let workers = start_all(&mut pool);
    pool.command(WorkerPoolCommand::Stop);
    pool.process_pool_commands();
    assert!(workers[0].job.stop_requested());
    assert!(workers[1].job.stop_requested());
    assert!(!workers[1].job.stop_requested());
    assert_eq!(pool.cur_workers(), 2);
    assert_eq!(pool.target_workers(), 2);
}

#[test]
fn stop_command_without_workers_reaches_a_later_one() {
    let mut pool: Pool = WorkerPool::new("double");
    pool.command(WorkerPoolCommand::Stop);
    pool.push(1);
    let worker = pool.work().start.unwrap();
    assert!(worker.job.stop_requested());
    assert!(worker.reporter.report(JobStatus::Stopped).is_ok());
    pool.work();
    assert_eq!(pool.cur_workers(), 0);
    assert!(!pool.working());
}

#[test]
fn stop_messages_beyond_the_room_wait() {
    let mut pool = pool_with(ROOM + 72, 1);
    let worker = pool.work().start.unwrap();
    pool.command(WorkerPoolCommand::Stop);
    pool.process_pool_commands();
    assert_eq!(ROOM, 128);
    assert_eq!(pool.unsent_stops(), 72);
    assert_eq!(pool.deliver_stops(), Delivery::Full);
    for _ in 0..50 {
        assert!(worker.job.stop_requested());
    }
    assert_eq!(pool.deliver_stops(), Delivery::Full);
    assert_eq!(pool.unsent_stops(), 22);
    for _ in 0..22 {
        assert!(worker.job.stop_requested());
    }
    pool.work();
    assert_eq!(pool.unsent_stops(), 0);
    assert_eq!(pool.deliver_stops(), Delivery::Sent);
}

#[test]
fn outputs_are_handed_out_one_per_turn() {
    let mut pool = pool_with(2, 2);
    let workers = start_all(&mut pool);
    assert!(workers[1].job.results.try_send(40).is_ok());
    assert!(workers[0].job.results.try_send(2).is_ok());
    assert!(workers[1].job.results.try_send(80).is_ok());
    let found: Vec<WorkerPoolStatus<u32>> = (0..4).map(|_| pool.work().status).collect();
    assert_eq!(
        found,
        vec![
            WorkerPoolStatus::Ready(40),
            WorkerPoolStatus::Ready(2),
            WorkerPoolStatus::Ready(80),
            WorkerPoolStatus::Working,
        ]
    );
}

#[test]
fn outputs_outlive_their_worker() {
    let mut pool = pool_with(1, 1);
    let WorkerStart { job, reporter } = pool.work().start.unwrap();
    assert!(job.results.try_send(5).is_ok());
    drop(job);
    assert!(reporter.report(JobStatus::Done).is_ok());
    let Turn { status, start } = pool.work();
    assert_eq!(status, WorkerPoolStatus::Ready(5));
    assert!(start.is_none());
    assert_eq!(pool.cur_workers(), 0);
}

#[test]
fn job_keeps_what_it_is_made_of() {
    let (stop, close) = async_std::sync::channel(1);
    let (results, outputs) = async_std::sync::channel(1);
    let job = Job::new("task", close, results);
    assert_eq!(job.task, "task");
    assert!(!job.stop_requested());
    assert!(stop.try_send(()).is_ok());
    assert!(job.stop_requested());
    assert!(!job.stop_requested());
    assert!(job.results.try_send(3u8).is_ok());
    assert_eq!(outputs.try_recv(), Ok(3));
    drop(stop);
    assert!(!job.stop_requested());
}

#[test]
fn working_job_has_no_end_to_report() {
    let mut pool = pool_with(1, 1);
    let worker = pool.work().start.unwrap();
    assert_eq!(
        worker.reporter.report(JobStatus::Working).err(),
        Some(ReportError::StillWorking)
    );
    pool.work();
    assert_eq!(pool.cur_workers(), 1);
}

#[test]
fn report_without_a_pool_fails() {
    let mut pool = pool_with(2, 2);
    let mut workers = start_all(&mut pool);
    drop(pool);
    assert_eq!(
        workers.pop().unwrap().reporter.report(JobStatus::Stopped).err(),
        Some(ReportError::PoolGone(WorkerEvent::WorkerStopped))
    );
    assert_eq!(
        workers.pop().unwrap().reporter.report(JobStatus::Done).err(),
        Some(ReportError::PoolGone(WorkerEvent::WorkerDone))
    );
}

#[test]
fn job_status_gives_the_event() {
    assert_eq!(JobStatus::Done.event(), Some(WorkerEvent::WorkerDone));
    assert_eq!(JobStatus::Stopped.event(), Some(WorkerEvent::WorkerStopped));
    assert_eq!(JobStatus::Working.event(), None);
}

#[test]
fn status_follows_what_was_received() {
    assert_eq!(
        WorkerPoolStatus::from_received(Received::Message(3)),
        WorkerPoolStatus::Ready(3)
    );
    assert_eq!(
        WorkerPoolStatus::<u8>::from_received(Received::Empty),
        WorkerPoolStatus::Working
    );
    assert_eq!(
        WorkerPoolStatus::<u8>::from_received(Received::Disconnected),
        WorkerPoolStatus::Done
    );
}

#[test]
fn stream_yields_what_is_ready() {
    assert_eq!(WorkerPoolStatus::Ready(3).next_item(), Some(Some(3)));
    assert_eq!(WorkerPoolStatus::<u8>::Working.next_item(), None);
    assert_eq!(WorkerPoolStatus::<u8>::Done.next_item(), Some(None));
}

#[test]
fn only_a_message_is_a_stop() {
    assert!(is_stop(Received::Message(())));
    assert!(!is_stop(Received::Empty));
    assert!(!is_stop(Received::Disconnected));
}

#[test]
fn only_a_sent_message_is_settled() {
    assert_eq!(unsent_after(3, Delivery::Sent), 2);
    assert_eq!(unsent_after(3, Delivery::Full), 3);
    assert_eq!(unsent_after(3, Delivery::Disconnected), 3);
}

#[test]
fn commands_do_the_same_in_one_batch_or_two() {
    for split in [false, true] {
        let mut pool = pool_with(3, 3);
        let workers = start_all(&mut pool);
        pool.command(WorkerPoolCommand::SetWorkerCount(2));
        if split {
            pool.process_pool_commands();
        }
        pool.command(WorkerPoolCommand::Stop);
        pool.command(WorkerPoolCommand::SetWorkerCount(1));
        pool.process_pool_commands();
        assert_eq!(pool.target_workers(), 1);
        assert_eq!(pool.cur_workers(), 3);
        assert!(pool.at_target_worker_count());
        let stops: Vec<bool> = workers.iter().map(|w| w.job.stop_requested()).collect();
        assert_eq!(stops, vec![true, true, false]);
    }
}

#[test]
fn worker_cap_is_kept_whatever_the_target_is() {
    let mut pool = pool_with(ROOM + 5, 200);
    let mut workers = start_all(&mut pool);
    assert_eq!(workers.len(), ROOM);
    assert_eq!(pool.cur_workers(), ROOM);
    assert!(!pool.at_target_worker_count());
    assert!(pool.balance_workers().is_none());
    assert!(workers.pop().unwrap().reporter.report(JobStatus::Done).is_ok());
    assert_eq!(pool.work().start.unwrap().job.task, 128);
    assert!(pool.work().start.is_none());
    assert_eq!(pool.cur_workers(), ROOM);
}

#[test]
fn stop_after_a_worker_count_sends_that_many_stops() {
    let mut pool: Pool = WorkerPool::new("double");
    pool.command(WorkerPoolCommand::SetWorkerCount(3));
    pool.command(WorkerPoolCommand::Stop);
    pool.process_pool_commands();
    // A second round has nothing to carry out.
    pool.process_pool_commands();
    pool.push(0);
    let worker = pool.start_worker().unwrap();
    let stops: Vec<bool> = (0..4).map(|_| worker.job.stop_requested()).collect();
    assert_eq!(stops, vec![true, true, true, false]);
    assert_eq!(pool.unsent_stops(), 0);
}

#[test]
fn surplus_workers_are_told_once_each() {
    let mut pool = pool_with(5, 5);
    let workers = start_all(&mut pool);
    pool.set_target_workers(2);
    for _ in 0..8 {
        assert!(pool.balance_workers().is_none());
    }
    let stops = (0..10).filter(|_| workers[0].job.stop_requested()).count();
    assert_eq!(stops, 3);
    assert_eq!(pool.cur_workers(), 5);
}

#[test]
fn every_report_is_counted_in_one_go() {
    let mut pool = pool_with(4, 4);
    for worker in start_all(&mut pool).drain(..3) {
        assert!(worker.reporter.report(JobStatus::Done).is_ok());
    }
    pool.process_worker_events();
    assert_eq!(pool.cur_workers(), 1);
    pool.process_worker_events();
    assert_eq!(pool.cur_workers(), 1);
}

#[test]
fn stops_that_fit_are_sent_at_once() {
    let mut pool = pool_with(ROOM, 1);
    let worker = pool.work().start.unwrap();
    pool.command(WorkerPoolCommand::Stop);
    pool.process_pool_commands();
    assert_eq!(pool.unsent_stops(), 0);
    let stops = (0..ROOM + 1).filter(|_| worker.job.stop_requested()).count();
    assert_eq!(stops, 128);
}

#[test]
fn outputs_are_limited_by_their_room() {
    let mut pool = pool_with(1, 1);
    let worker = pool.work().start.unwrap();
    for output in 0..128 {
        assert!(worker.job.results.try_send(output).is_ok());
    }
    assert!(worker.job.results.try_send(128).is_err());
    for output in 0..128 {
        assert_eq!(pool.work().status, WorkerPoolStatus::Ready(output));
    }
    assert_eq!(pool.work().status, WorkerPoolStatus::Working);
}

#[test]
fn workers_of_all_times_share_the_channels() {
    let mut pool = pool_with(1, 2);
    let first = pool.work().start.unwrap();
    assert!(first.reporter.report(JobStatus::Done).is_ok());
    let second = pool.work().start.unwrap();
    assert!(first.job.results.try_send(1).is_ok());
    assert!(second.job.results.try_send(2).is_ok());
    assert_eq!(pool.work().status, WorkerPoolStatus::Ready(1));
    assert_eq!(pool.work().status, WorkerPoolStatus::Ready(2));
    pool.command(WorkerPoolCommand::Stop);
    pool.process_pool_commands();
    assert!(first.job.stop_requested());
    assert!(!second.job.stop_requested());
}
