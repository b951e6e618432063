use std::sync::atomic::{AtomicI32, Ordering};
use std::sync::Arc;
use wait_group::{GoWaitGroup, SmartWaitGroup, WaitGroup};

const ATTEMPTS: usize = 100;
const THREADS_NUMBER: usize = 100;
const INITIAL_VALUE: i32 = 0;
const EXPECTED_AFTER_WAITING: i32 = 100;
const EXPECTED_AFTER_JOINING: i32 = -1;
const INCORRECT_THREADS_NUMBER: usize = THREADS_NUMBER - 1;

// Each unit of work runs to completion in turn on the test's own thread.

#[test]
fn wait_group() {
    for _ in 0..ATTEMPTS {
        let counter = Arc::new(AtomicI32::new(INITIAL_VALUE));

        let wg = WaitGroup::new();

        let workers = (0..THREADS_NUMBER)
            .map(|_| {
                let unexpected_clone_of_wg = wg.clone();
                let wg = wg.clone();
                let counter = Arc::clone(&counter);
                unexpected_clone_of_wg.release().unwrap();
                (wg, counter)
            })
            .collect::<Vec<_>>();
        assert_eq!(wg.counter(), THREADS_NUMBER);

        for (wg, counter) in workers {
            counter.fetch_add(1, Ordering::SeqCst);
            wg.release().unwrap();
        }

        wg.wait().unwrap();
        assert_eq!(counter.load(Ordering::SeqCst), EXPECTED_AFTER_WAITING);
        counter.store(EXPECTED_AFTER_JOINING, Ordering::SeqCst);
        assert_eq!(counter.load(Ordering::SeqCst), EXPECTED_AFTER_JOINING);
    }
}

#[test]
fn smart_wg() {
    for _ in 0..ATTEMPTS {
        let counter = Arc::new(AtomicI32::new(INITIAL_VALUE));

        let wg = SmartWaitGroup::new();
        let waiter = wg.waiter();
        let workers = (0..THREADS_NUMBER)
            .map(|_| {
                let unexpected_doer = wg.doer();
                let doer = wg.doer();
                let counter = Arc::clone(&counter);
                unexpected_doer.done().unwrap();
                (doer, counter)
            })
            .collect::<Vec<_>>();
        assert_eq!(wg.counter(), THREADS_NUMBER);

        for (doer, counter) in workers {
            counter.fetch_add(1, Ordering::SeqCst);
            doer.done().unwrap();
        }

        waiter.wait().unwrap();
        assert_eq!(counter.load(Ordering::SeqCst), EXPECTED_AFTER_WAITING);
        counter.store(EXPECTED_AFTER_JOINING, Ordering::SeqCst);
        assert_eq!(counter.load(Ordering::SeqCst), EXPECTED_AFTER_JOINING);
    }
}

#[test]
fn go_wg() {
    for _ in 0..ATTEMPTS {
        let counter = Arc::new(AtomicI32::new(INITIAL_VALUE));

        let wg = GoWaitGroup::new();
        wg.try_add(THREADS_NUMBER as isize).unwrap();
        let workers = (0..THREADS_NUMBER)
            .map(|_| (wg.clone(), Arc::clone(&counter)))
            .collect::<Vec<_>>();

        for (wg, counter) in workers {
            counter.fetch_add(1, Ordering::SeqCst);
            wg.try_done().unwrap();
        }

        wg.wait().unwrap();
        assert_eq!(counter.load(Ordering::SeqCst), EXPECTED_AFTER_WAITING);
        counter.store(EXPECTED_AFTER_JOINING, Ordering::SeqCst);
        assert_eq!(counter.load(Ordering::SeqCst), EXPECTED_AFTER_JOINING);
    }
}

#[test]
#[should_panic]
fn go_wg_negative_counter() {
    for _ in 0..ATTEMPTS {
        let counter = Arc::new(AtomicI32::new(INITIAL_VALUE));
        let wg = GoWaitGroup::new();
        wg.try_add(INCORRECT_THREADS_NUMBER as isize).unwrap();
        let workers = (0..THREADS_NUMBER)
            .map(|_| (wg.clone(), Arc::clone(&counter)))
            .collect::<Vec<_>>();

        // the last unit has no matching addition: its `try_done` fails here
        for (wg, counter) in workers {
            counter.fetch_add(1, Ordering::SeqCst);
            wg.try_done().unwrap();
        }
        assert_eq!(counter.load(Ordering::SeqCst), EXPECTED_AFTER_WAITING);
    }
}
