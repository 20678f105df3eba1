use cursor_sync::counter::Counter;
use cursor_sync::message::MessageChannel;
use cursor_sync::observable::Observable;
use cursor_sync::observer::Observer;
use cursor_sync::point::Point;
use cursor_sync::select_loop::{next_action, TaskAction, TaskEvent};
use cursor_sync::sync_barrier::SyncBarrier;

#[test]
fn counter_counts_increments() {
    let mut counter = Counter::new();
    assert_eq!(counter.get_value(), 0);
    counter.increment();
    assert_eq!(counter.get_value(), 1);
    counter.increment();
    counter.increment();
    assert_eq!(counter.get_value(), 3);
}

#[test]
fn message_channel_has_the_requested_bound() {
    let channel = MessageChannel::new(5);
    assert_eq!(channel.tx.max_capacity(), 5);
    assert_eq!(channel.rx.max_capacity(), 5);
}

#[test]
fn message_channel_delivers_in_order() {
    let mut channel = MessageChannel::new(2);
    channel.tx.try_send("Hello from task 2".to_string()).unwrap();
    channel.tx.try_send("second".to_string()).unwrap();
    assert!(channel.tx.try_send("third".to_string()).is_err());
    assert_eq!(channel.rx.try_recv().unwrap(), "Hello from task 2");
    assert_eq!(channel.rx.try_recv().unwrap(), "second");
}

#[test]
fn barrier_for_one_task_opens_at_once() {
    let runtime = tokio::runtime::Builder::new_current_thread().build().unwrap();
    let barrier = SyncBarrier::new(1);
    let result = runtime.block_on(barrier.barrier.wait());
    assert!(result.is_leader());
    let empty = SyncBarrier::new(0);
    assert!(runtime.block_on(empty.barrier.wait()).is_leader());
}

#[test]
fn observable_publishes_latest_value() {
    let (observable, rx) = Observable::new(Point { x: 0, y: 0 });
    assert_eq!(*rx.borrow(), Point { x: 0, y: 0 });
    observable.update_value(Point { x: 3, y: 4 });
    assert_eq!(*rx.borrow(), Point { x: 3, y: 4 });
    let copy = observable.clone();
    copy.update_value(Point { x: -1, y: 2 });
    assert_eq!(*rx.borrow(), Point { x: -1, y: 2 });
}

#[test]
fn observable_without_receiver_drops_updates() {
    let (observable, rx) = Observable::new(Point { x: 1, y: 1 });
    drop(rx);
    observable.update_value(Point { x: 2, y: 2 });
}

#[test]
fn observer_keeps_its_number() {
    assert_eq!(Observer::new(1).id(), 1);
    assert_eq!(Observer::new(2).id(), 2);
}

#[test]
fn stop_command_ends_the_worker() {
    assert_eq!(next_action(&TaskEvent::Command("STOP".to_string())), TaskAction::Stop);
    assert_eq!(next_action(&TaskEvent::Command("RUN".to_string())), TaskAction::ReportCommand);
    assert_eq!(next_action(&TaskEvent::Command("stop".to_string())), TaskAction::ReportCommand);
    assert_eq!(next_action(&TaskEvent::Tick), TaskAction::ReportRunning);
    assert_eq!(next_action(&TaskEvent::WatchChanged), TaskAction::ReportWatched);
}

#[test]
fn observable_receiver_starts_with_initial_value() {
    let (observable, rx) = Observable::new(Point { x: 7, y: -3 });
    assert_eq!(*rx.borrow(), Point { x: 7, y: -3 });
    assert!(!rx.has_changed().unwrap());
    observable.update_value(Point { x: 7, y: -3 });
    assert!(rx.has_changed().unwrap());
}

#[test]
fn message_channel_starts_with_all_slots_free() {
    let channel = MessageChannel::new(3);
    assert_eq!(channel.tx.capacity(), 3);
    channel.tx.try_send("one".to_string()).unwrap();
    assert_eq!(channel.tx.capacity(), 2);
    assert!(channel.tx.same_channel(&channel.tx.clone()));
}

#[test]
fn published_value_reaches_the_receiver() {
    let (observable, mut rx) = Observable::new(Point { x: 0, y: 0 });
    observable.update_value(Point { x: 10, y: 20 });
    assert!(rx.has_changed().unwrap());
    assert_eq!(*rx.borrow_and_update(), Point { x: 10, y: 20 });
    assert!(!rx.has_changed().unwrap());
}

#[test]
fn concurrent_increments_under_a_lock_add_up() {
    let runtime = tokio::runtime::Builder::new_multi_thread().worker_threads(4).build().unwrap();
    let shared = std::sync::Arc::new(tokio::sync::Mutex::new(Counter::new()));
    runtime.block_on(async {
        let mut tasks = Vec::new();
        for _ in 0..50 {
            let counter = shared.clone();
            tasks.push(tokio::spawn(async move {
                counter.lock().await.increment();
            }));
        }
        for task in tasks {
            task.await.unwrap();
        }
    });
    assert_eq!(runtime.block_on(async { shared.lock().await.get_value() }), 50);
}
