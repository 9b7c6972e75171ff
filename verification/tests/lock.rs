use winspawn::lock::StaticMutex;

#[test]
fn test_mutex() {
    let mut entered = false;
    let lock1 = StaticMutex::acquire(&mut entered);
    let lock2 = StaticMutex::acquire(&mut entered); // reentrant
    println!("{:?} {:?}", lock1, lock2);
    assert!(lock1.owns());
    assert!(!lock2.owns());
    assert!(entered);
}

#[test]
fn first_acquisition_owns_and_sets_the_flag() {
    let mut entered = false;
    let guard = StaticMutex::acquire(&mut entered);
    assert_eq!(guard, StaticMutex { owner: true });
    assert!(entered);
}

#[test]
fn acquisition_inside_owns_nothing() {
    let mut entered = true;
    let guard = StaticMutex::acquire(&mut entered);
    assert_eq!(guard, StaticMutex { owner: false });
    assert!(entered);
}

#[test]
fn inner_release_changes_nothing_and_outer_release_unlocks_once() {
    let mut entered = false;
    let outer = StaticMutex::acquire(&mut entered);
    let inner = StaticMutex::acquire(&mut entered);
    assert!(!inner.release(&mut entered));
    assert!(entered);
    assert!(outer.release(&mut entered));
    assert!(!entered);
}

#[test]
fn outer_release_first_still_unlocks_once() {
    let mut entered = false;
    let outer = StaticMutex::acquire(&mut entered);
    let inner = StaticMutex::acquire(&mut entered);
    assert!(outer.release(&mut entered));
    assert!(!entered);
    assert!(!inner.release(&mut entered));
    assert!(!entered);
}

#[test]
fn lock_can_be_taken_again_after_release() {
    let mut entered = false;
    let first = StaticMutex::acquire(&mut entered);
    assert!(first.release(&mut entered));
    let second = StaticMutex::acquire(&mut entered);
    assert!(second.owns());
    assert!(second.release(&mut entered));
    assert!(!entered);
}
