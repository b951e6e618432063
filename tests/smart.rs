use wait_group::{Order, SmartWaitGroup, WaitGroupError};

#[test]
fn doers_count_and_waiter_returns_at_zero() {
    let wg = SmartWaitGroup::new();
    let d1 = wg.doer();
    let d2 = d1.clone();
    assert_eq!(wg.counter(), 2);
    d1.done().unwrap();
    d2.done().unwrap();
    assert_eq!(wg.counter(), 0);
    wg.waiter().wait().unwrap();
    wg.waiter().clone().wait().unwrap();
}

#[test]
fn split_gives_one_unit() {
    let (waiter, doer) = SmartWaitGroup::splitted();
    doer.done().unwrap();
    waiter.wait().unwrap();
    let wg = SmartWaitGroup::new();
    let probe = wg.clone();
    let (waiter, doer) = wg.split();
    assert_eq!(probe.counter(), 1);
    doer.done().unwrap();
    waiter.wait().unwrap();
    assert_eq!(probe.counter(), 0);
}

#[test]
fn unique_doer_only_from_zero() {
    let wg = SmartWaitGroup::new();
    let first = wg.unique_doer().expect("a quiescent group grants it");
    assert!(wg.unique_doer().is_none());
    let other = wg.doer();
    assert!(wg.unique_doer().is_none());
    first.done().unwrap();
    other.done().unwrap();
    let again = wg.unique_doer();
    assert!(again.is_some());
    assert_eq!(wg.counter(), 1);
    again.unwrap().done().unwrap();
}

#[test]
fn switch_with_itself_is_refused() {
    let a = SmartWaitGroup::new();
    let same = a.clone();
    assert!(matches!(a.switch_do_wait(&same), Err(WaitGroupError::IdentityViolation)));
    assert!(matches!(a.switch_wait_do(&a), Err(WaitGroupError::IdentityViolation)));
    assert!(matches!(a.switch(&same, Order::DoerWaiter), Err(WaitGroupError::IdentityViolation)));
    assert!(matches!(a.switch_unique(&same), Err(WaitGroupError::IdentityViolation)));
    assert_eq!(a.counter(), 0);
}

#[test]
fn switch_takes_unit_after_other_drained() {
    let a = SmartWaitGroup::new();
    let b = SmartWaitGroup::new();
    let d = a.switch_do_wait(&b).unwrap();
    assert_eq!(a.counter(), 1);
    let e = a.switch_wait_do(&b).unwrap();
    assert_eq!(a.counter(), 2);
    d.done().unwrap();
    e.done().unwrap();
    let f = b.switch(&a, Order::WaiterDoer).unwrap();
    assert_eq!(b.counter(), 1);
    f.done().unwrap();
    let g = a.switch(&b, Order::DoerWaiter).unwrap();
    assert_eq!(a.counter(), 1);
    g.done().unwrap();
}

#[test]
fn switch_unique_only_when_quiescent() {
    let a = SmartWaitGroup::new();
    let b = SmartWaitGroup::new();
    let held = a.doer();
    assert!(a.switch_unique(&b).unwrap().is_none());
    held.done().unwrap();
    let granted = a.switch_unique(&b).unwrap().expect("a is quiescent and b drained");
    assert_eq!(a.counter(), 1);
    assert!(a.switch_unique(&b).unwrap().is_none());
    granted.done().unwrap();
}

#[test]
fn normal_and_exclusive_phases_do_not_overlap() {
    let normal = SmartWaitGroup::new();
    let special = SmartWaitGroup::new();
    let mut resource = 0;
    let mut in_exclusive = 0;
    let mut max_in_exclusive = 0;
    let mut exclusive_runs = 0;
    for _ in 0..100 {
        let doer = normal.switch_wait_do(&special).unwrap();
        resource += 1;
        doer.done().unwrap();
        if resource % 10 == 0 {
            if let Some(exclusive) = special.switch_unique(&normal).unwrap() {
                assert!(special.unique_doer().is_none());
                in_exclusive += 1;
                max_in_exclusive = max_in_exclusive.max(in_exclusive);
                exclusive_runs += 1;
                in_exclusive -= 1;
                exclusive.done().unwrap();
            }
        }
    }
    assert_eq!(resource, 100);
    assert_eq!(exclusive_runs, 10);
    assert_eq!(max_in_exclusive, 1);
    assert_eq!(normal.counter(), 0);
    assert_eq!(special.counter(), 0);
}
