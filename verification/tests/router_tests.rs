use remote_core::router::{dispatch_outcome, CommandHandler, CommandRouter, DispatchError};
use std::cell::RefCell;
use std::rc::Rc;

/// A test handler: records every call it receives, and fails with a fixed
/// cause if one is set.
struct Recorder {
    label: &'static str,
    calls: Rc<RefCell<Vec<(String, String)>>>,
    fail_with: Option<&'static str>,
}

impl Recorder {
    fn new(label: &'static str, calls: &Rc<RefCell<Vec<(String, String)>>>) -> Recorder {
        Recorder { label, calls: Rc::clone(calls), fail_with: None }
    }

    fn failing(
        label: &'static str,
        calls: &Rc<RefCell<Vec<(String, String)>>>,
        cause: &'static str,
    ) -> Recorder {
        Recorder { label, calls: Rc::clone(calls), fail_with: Some(cause) }
    }
}

impl CommandHandler for Recorder {
    fn call(&self, payload: &str) -> Result<(), String> {
        self.calls.borrow_mut().push((self.label.to_string(), payload.to_string()));
        match self.fail_with {
            None => Ok(()),
            Some(cause) => Err(cause.to_string()),
        }
    }
}

#[test]
fn register_last_write_wins() {
    let calls = Rc::new(RefCell::new(Vec::new()));
    let mut router = CommandRouter::new();
    router.register("echo", Recorder::new("first", &calls));
    router.register("echo", Recorder::new("second", &calls));
    assert_eq!(router.handle("echo", "{}"), Ok(()));
    assert_eq!(*calls.borrow(), vec![("second".to_string(), "{}".to_string())]);
}

#[test]
fn repeated_registrations_keep_other_types() {
    let calls = Rc::new(RefCell::new(Vec::new()));
    let mut router = CommandRouter::new();
    router.register("echo", Recorder::new("echo-1", &calls));
    router.register("other", Recorder::new("other-1", &calls));
    router.register("echo", Recorder::new("echo-2", &calls));
    assert_eq!(router.handle("other", "{}"), Ok(()));
    assert_eq!(router.handle("echo", "{}"), Ok(()));
    let got = calls.borrow().clone();
    assert_eq!(
        got,
        vec![
            ("other-1".to_string(), "{}".to_string()),
            ("echo-2".to_string(), "{}".to_string()),
        ]
    );
}

#[test]
fn unknown_command_invokes_no_handler() {
    let calls = Rc::new(RefCell::new(Vec::new()));
    let mut router = CommandRouter::new();
    router.register("echo", Recorder::new("echo", &calls));
    assert_eq!(router.handle("ghost", "{}"), Err(DispatchError::UnknownCommand));
    assert!(calls.borrow().is_empty());
}

#[test]
fn empty_router_rejects_everything() {
    let router: CommandRouter<Recorder> = CommandRouter::new();
    assert_eq!(router.handle("anything", "{}"), Err(DispatchError::UnknownCommand));
}

#[test]
fn handler_failure_is_reported_and_isolated() {
    let calls = Rc::new(RefCell::new(Vec::new()));
    let mut router = CommandRouter::new();
    router.register("boom", Recorder::failing("boom", &calls, "kaboom"));
    router.register("echo", Recorder::new("echo", &calls));
    assert_eq!(
        router.handle("boom", "{}"),
        Err(DispatchError::HandlerFailed {
            command_type: "boom".to_string(),
            cause: "kaboom".to_string(),
        })
    );
    // The failure affects nothing that follows: later dispatches still work.
    assert_eq!(router.handle("echo", "{\"x\":2}"), Ok(()));
    assert_eq!(router.handle("boom", "{}").is_err(), true);
    assert_eq!(calls.borrow().len(), 3);
}

#[test]
fn dispatch_outcome_maps_handler_results() {
    assert_eq!(dispatch_outcome("t", Ok(())), Ok(()));
    assert_eq!(
        dispatch_outcome("t", Err("cause".to_string())),
        Err(DispatchError::HandlerFailed {
            command_type: "t".to_string(),
            cause: "cause".to_string(),
        })
    );
}
