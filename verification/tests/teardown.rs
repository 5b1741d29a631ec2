use pac_cell::PacCell;
use std::cell::{Cell, RefCell};
use std::rc::Rc;

// Owner and dependent with instrumented teardown hooks: each drop records
// itself in a shared log, so a test can check the order of destruction.
struct Owner(Rc<RefCell<Vec<&'static str>>>);

impl Drop for Owner {
    fn drop(&mut self) {
        self.0.borrow_mut().push("owner");
    }
}

struct Dependent(Rc<RefCell<Vec<&'static str>>>);

impl Drop for Dependent {
    fn drop(&mut self) {
        self.0.borrow_mut().push("dependent");
    }
}

#[test]
fn implicit_disposal_destroys_dependent_before_owner() {
    let log: Rc<RefCell<Vec<&'static str>>> = Rc::new(RefCell::new(Vec::new()));
    {
        let dep_log = log.clone();
        let _cell = PacCell::new(Owner(log.clone()), move |_o: &mut Owner| Dependent(dep_log));
    }
    assert_eq!(*log.borrow(), vec!["dependent", "owner"]);
}

#[test]
fn unwrap_destroys_dependent_before_returning_owner() {
    let log: Rc<RefCell<Vec<&'static str>>> = Rc::new(RefCell::new(Vec::new()));
    let dep_log = log.clone();
    let cell = PacCell::new(Owner(log.clone()), move |_o: &mut Owner| Dependent(dep_log));

    let owner = cell.unwrap();
    assert_eq!(*log.borrow(), vec!["dependent"]);

    drop(owner);
    assert_eq!(*log.borrow(), vec!["dependent", "owner"]);
}

#[test]
fn failing_builder_returns_error_and_drops_owner_once() {
    let log: Rc<RefCell<Vec<&'static str>>> = Rc::new(RefCell::new(Vec::new()));

    let result: Result<PacCell<Owner, Dependent>, &'static str> =
        PacCell::try_new(Owner(log.clone()), |_o: &mut Owner| Err("no dependent"));

    assert!(matches!(result, Err("no dependent")));
    assert_eq!(*log.borrow(), vec!["owner"]);
}

#[test]
fn builder_runs_exactly_once_per_construction() {
    let runs: Rc<Cell<u32>> = Rc::new(Cell::new(0));

    let counted = runs.clone();
    let cell = PacCell::new(1u64, move |_o: &mut u64| counted.set(counted.get() + 1));
    assert_eq!(runs.get(), 1);
    cell.unwrap();
    assert_eq!(runs.get(), 1);

    let counted = runs.clone();
    let cell: Result<PacCell<u64, ()>, &'static str> = PacCell::try_new(2u64, move |_o: &mut u64| {
        counted.set(counted.get() + 1);
        Ok(())
    });
    assert!(cell.is_ok());
    assert_eq!(runs.get(), 2);
}
