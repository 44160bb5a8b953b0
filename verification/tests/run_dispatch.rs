use rf_a::context::World;
use rf_a::logger::{HybridLogger, LogSink};
use rf_a::services::{first_owner_of, hands_over, RunLoop, ServiceKind};
use std::cell::RefCell;
use std::rc::Rc;

#[test]
fn first_owner_in_order() {
    assert_eq!(first_owner_of(true, true, true, true, true), Some(ServiceKind::Arch));
    assert_eq!(first_owner_of(false, true, true, false, false), Some(ServiceKind::Psci));
    assert_eq!(first_owner_of(false, false, true, true, false), Some(ServiceKind::Platform));
    assert_eq!(first_owner_of(false, false, false, true, true), Some(ServiceKind::Spmd));
    assert_eq!(first_owner_of(false, false, false, false, true), Some(ServiceKind::Rmmd));
    assert_eq!(first_owner_of(false, false, false, false, false), None);
}

#[test]
fn world_hands_over_to_other_world() {
    assert!(!hands_over(World::NonSecure, World::NonSecure));
    assert!(hands_over(World::NonSecure, World::Secure));
    let (run, _) = RunLoop::start();
    assert!(run.exit_allowed(World::NonSecure));
    assert!(!run.exit_allowed(World::Secure));
}

struct Recorder(Rc<RefCell<String>>);

impl LogSink for Recorder {
    fn write_str(&self, s: &str) {
        self.0.borrow_mut().push_str(s);
    }
}

#[test]
fn hybrid_logger_writes_to_enabled_sinks() {
    let primary = Rc::new(RefCell::new(String::new()));
    let secondary = Rc::new(RefCell::new(String::new()));
    let mut logger = HybridLogger::new(Recorder(primary.clone()), Recorder(secondary.clone()));
    assert_eq!(logger.write_targets(), (true, true));
    logger.write_str("a");
    logger.enable_secondary(false);
    assert_eq!(logger.write_targets(), (true, false));
    logger.write_str("b");
    logger.enable_secondary(true);
    logger.write_str("c");
    assert_eq!(*primary.borrow(), "abc");
    assert_eq!(*secondary.borrow(), "ac");
}
