use ultra_core::autonomy::{failure_route, FailureRoute, TaskItem, TaskQueue};

fn task(id: &str, attempts: u32, max_attempts: u32) -> TaskItem {
    TaskItem {
        id: id.to_owned(),
        task_type: "sync".to_owned(),
        payload: "{}".to_owned(),
        attempts,
        max_attempts,
    }
}

#[test]
fn failed_task_retries_then_dead_letters() {
    let mut queue = TaskQueue::default();
    let task = TaskItem {
        id: "t1".to_owned(),
        task_type: "sync".to_owned(),
        payload: "{}".to_owned(),
        attempts: 0,
        max_attempts: 2,
    };

    queue.enqueue(task);
    let t = queue.dequeue().expect("task exists");
    queue.mark_failed(t);
    assert_eq!(queue.pending_count(), 1);

    let t = queue.dequeue().expect("task exists after retry");
    queue.mark_failed(t);
    assert_eq!(queue.pending_count(), 0);
    assert_eq!(queue.dead_letter_count(), 1);
}

#[test]
fn dequeue_is_first_in_first_out() {
    let mut queue = TaskQueue::default();
    queue.enqueue(task("a", 0, 3));
    queue.enqueue(task("b", 0, 3));
    assert_eq!(queue.dequeue().unwrap().id, "a");
    assert_eq!(queue.dequeue().unwrap().id, "b");
    assert!(queue.dequeue().is_none());
}

#[test]
fn retried_task_goes_to_the_back_with_one_more_attempt() {
    let mut queue = TaskQueue::default();
    queue.enqueue(task("a", 0, 3));
    queue.enqueue(task("b", 0, 3));
    let a = queue.dequeue().unwrap();
    queue.mark_failed(a);
    assert_eq!(queue.dequeue().unwrap().id, "b");
    let a = queue.dequeue().unwrap();
    assert_eq!(a.id, "a");
    assert_eq!(a.attempts, 1);
}

#[test]
fn zero_max_attempts_dead_letters_on_first_failure() {
    let mut queue = TaskQueue::default();
    queue.mark_failed(task("z", 0, 0));
    assert_eq!(queue.pending_count(), 0);
    assert_eq!(queue.dead_letter_count(), 1);
}

#[test]
fn failure_route_counts_the_attempt() {
    assert_eq!(failure_route(0, 3), FailureRoute::Retry { attempts: 1 });
    assert_eq!(failure_route(1, 3), FailureRoute::Retry { attempts: 2 });
    assert_eq!(failure_route(2, 3), FailureRoute::DeadLetter { attempts: 3 });
    assert_eq!(failure_route(5, 3), FailureRoute::DeadLetter { attempts: 6 });
}

#[test]
fn dead_letter_count_never_falls() {
    let mut queue = TaskQueue::default();
    assert_eq!(queue.dead_letter_count(), 0);
    let mut last = 0;
    for id in ["a", "b", "c"] {
        queue.enqueue(task(id, 0, 1));
        assert!(queue.dead_letter_count() >= last);
        let t = queue.dequeue().expect("queued");
        assert!(queue.dead_letter_count() >= last);
        queue.mark_failed(t);
        assert!(queue.dead_letter_count() >= last);
        last = queue.dead_letter_count();
    }
    assert_eq!(last, 3);
    assert!(queue.dequeue().is_none());
    assert_eq!(queue.dead_letter_count(), 3);
}
