use std::cell::Cell;
use std::sync::mpsc::channel;
use std::sync::Arc;
use std::sync::Barrier;
use task_system::GetValueError;
use task_system::Task;
use task_system::TaskStatus;
use task_system::TaskSystem;

#[test]
fn run_single_task() {
    let mut system = TaskSystem::new(1);

    let mut task = system.run(move || {
        return 1;
    });

    task.wait();
    assert_eq!(task.status(), TaskStatus::Completed);
    assert_eq!(task.value().unwrap(), 1);
    assert_eq!(task.value(), Err(GetValueError::AlreadyTaken));
}

#[test]
fn run_single_blocking_task() {
    let mut system = TaskSystem::new(1);

    let barrier = Arc::new(Barrier::new(2));
    let barrier_clone = barrier.clone();
    let (started, has_started) = channel();
    let mut task = system.run(move || {
        started.send(()).unwrap();
        barrier_clone.wait();
    });

    has_started.recv().unwrap();
    assert_eq!(task.status(), TaskStatus::Running);
    barrier.wait();
    task.wait();
    assert_eq!(task.status(), TaskStatus::Completed);
    assert_eq!(task.value(), Ok(()));
    assert_eq!(task.value(), Err(GetValueError::AlreadyTaken));
}

#[test]
fn value_of_a_running_task_is_not_ready() {
    let mut system = TaskSystem::new(1);

    let barrier = Arc::new(Barrier::new(2));
    let barrier_clone = barrier.clone();
    let (started, has_started) = channel();
    let mut task = system.run(move || {
        started.send(()).unwrap();
        barrier_clone.wait();
        String::from("late")
    });

    has_started.recv().unwrap();
    assert!(task.running());
    assert!(!task.queued());
    assert!(!task.completed());
    assert_eq!(task.value(), Err(GetValueError::NotReady));
    assert_eq!(task.value(), Err(GetValueError::NotReady));
    assert_eq!(task.status(), TaskStatus::Running);
    barrier.wait();
    task.wait();
    assert!(task.completed());
    assert!(!task.running());
    assert_eq!(task.value(), Ok(String::from("late")));
    assert_eq!(task.value(), Err(GetValueError::AlreadyTaken));
}

#[test]
fn task_beyond_the_workers_stays_queued() {
    let n_workers = 2;
    let mut system = TaskSystem::new(n_workers);

    let barrier = Arc::new(Barrier::new(n_workers + 1));
    let (started, has_started) = channel();
    let mut busy = Vec::new();
    for index in 0..n_workers {
        let barrier_clone = barrier.clone();
        let started_clone = started.clone();
        busy.push(system.run(move || {
            started_clone.send(()).unwrap();
            barrier_clone.wait();
            index
        }));
    }
    for _ in 0..n_workers {
        has_started.recv().unwrap();
    }
    let mut last = system.run(move || 99usize);

    for task in busy.iter() {
        assert_eq!(task.status(), TaskStatus::Running);
    }
    assert_eq!(last.status(), TaskStatus::Queued);
    assert!(last.queued());
    assert_eq!(last.value(), Err(GetValueError::NotReady));

    barrier.wait();
    for (index, task) in busy.iter_mut().enumerate() {
        task.wait();
        assert_eq!(task.status(), TaskStatus::Completed);
        assert_eq!(task.value(), Ok(index));
    }
    last.wait();
    assert_eq!(last.status(), TaskStatus::Completed);
    assert_eq!(last.value(), Ok(99));
    assert_eq!(last.value(), Err(GetValueError::AlreadyTaken));
}

#[test]
fn status_after_run_is_never_unsubmitted() {
    let mut system = TaskSystem::new(3);
    let mut tasks = Vec::new();
    for index in 0..20u32 {
        tasks.push(system.run(move || index * 2));
    }
    for task in tasks.iter() {
        let status = task.status();
        assert!(
            status == TaskStatus::Queued || status == TaskStatus::Running
                || status == TaskStatus::Completed
        );
    }
    for (index, task) in tasks.iter_mut().enumerate() {
        task.wait();
        assert_eq!(task.status(), TaskStatus::Completed);
        assert_eq!(task.value(), Ok(index as u32 * 2));
        assert_eq!(task.value(), Err(GetValueError::AlreadyTaken));
    }
}

#[test]
fn polled_statuses_never_move_back() {
    let mut system = TaskSystem::new(1);
    let barrier = Arc::new(Barrier::new(2));
    let barrier_clone = barrier.clone();
    let mut task = system.run(move || {
        barrier_clone.wait();
        5u8
    });
    let rank = |status: TaskStatus| match status {
        TaskStatus::Unsubmitted => 0,
        TaskStatus::Waiting => 1,
        TaskStatus::Queued => 2,
        TaskStatus::Running => 3,
        TaskStatus::Completed => 4,
    };
    let mut last = rank(task.status());
    assert!(last >= 2);
    for _ in 0..1000 {
        let now = rank(task.status());
        assert!(now >= last);
        last = now;
    }
    barrier.wait();
    while !task.completed() {
        let now = rank(task.status());
        assert!(now >= last);
        last = now;
    }
    task.wait();
    assert_eq!(task.value(), Ok(5));
}

#[test]
fn tasks_outlive_their_system() {
    let mut task = {
        let mut system = TaskSystem::new(1);
        system.run(move || String::from("kept"))
    };
    task.wait();
    assert_eq!(task.value(), Ok(String::from("kept")));
}

#[test]
fn unsubmitted_task_is_not_ready() {
    let mut task: Task<i32> = Task::new();
    assert_eq!(task.status(), TaskStatus::Unsubmitted);
    assert!(!task.queued());
    assert!(!task.running());
    assert!(!task.completed());
    assert_eq!(task.value(), Err(GetValueError::NotReady));
    assert_eq!(task.value(), Err(GetValueError::NotReady));
    assert_eq!(task.status(), TaskStatus::Unsubmitted);
}

#[test]
fn handle_that_has_waited_sees_completed_only() {
    let mut system = TaskSystem::new(2);
    let mut task = system.run(move || 11u64);
    task.wait();
    for _ in 0..3 {
        assert_eq!(task.status(), TaskStatus::Completed);
        assert!(task.completed());
        assert!(!task.queued());
        assert!(!task.running());
    }
    task.wait();
    assert_eq!(task.status(), TaskStatus::Completed);
    assert_eq!(task.value(), Ok(11));
    assert_eq!(task.status(), TaskStatus::Completed);
    assert!(task.completed());
    assert_eq!(task.value(), Err(GetValueError::AlreadyTaken));
}

#[test]
fn handle_that_polls_sees_completed_without_waiting() {
    let mut system = TaskSystem::new(1);
    let mut task = system.run(move || 'x');
    while !task.completed() {}
    assert_eq!(task.status(), TaskStatus::Completed);
    assert!(!task.queued());
    assert!(!task.running());
    assert_eq!(task.value(), Ok('x'));
}

#[test]
fn output_need_only_be_sendable() {
    let mut system = TaskSystem::new(1);
    let mut cell_task = system.run(move || Cell::new(5));
    let mut channel_task = system.run(move || {
        let (sender, receiver) = channel();
        sender.send(8).unwrap();
        receiver
    });
    cell_task.wait();
    channel_task.wait();
    assert_eq!(cell_task.value().unwrap().get(), 5);
    assert_eq!(channel_task.value().unwrap().recv().unwrap(), 8);
    assert!(cell_task.value().is_err());
    assert!(channel_task.value().is_err());
}

#[test]
fn value_taken_by_polling_is_gone_for_good() {
    let mut system = TaskSystem::new(1);
    let mut task = system.run(move || vec![1, 2, 3]);
    let mut got = task.value();
    while got == Err(GetValueError::NotReady) {
        got = task.value();
    }
    assert_eq!(got, Ok(vec![1, 2, 3]));
    assert_eq!(task.status(), TaskStatus::Completed);
    assert!(task.completed());
    assert_eq!(task.value(), Err(GetValueError::AlreadyTaken));
    task.wait();
    assert_eq!(task.value(), Err(GetValueError::AlreadyTaken));
    assert_eq!(task.status(), TaskStatus::Completed);
}
