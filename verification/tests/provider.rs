use bfbb::game_interface::game_var::{GameVar, GameVarMut};
use bfbb::game_interface::mock::MockBackend;
use bfbb::game_interface::{GameInterface, Hooker, InterfaceError, InterfaceResult, Provider};
use std::cell::Cell;
use std::rc::Rc;

/// A scripted discovery backend: fails with a chosen discovery error, or
/// hands out a fresh in-memory aggregate, counting every attempt.
struct ScriptedHooker {
    attempts: Rc<Cell<usize>>,
    fail_with: Option<InterfaceError>,
}

impl Hooker for ScriptedHooker {
    type Backend = MockBackend;

    fn try_hook(&mut self) -> InterfaceResult<GameInterface<MockBackend>> {
        self.attempts.set(self.attempts.get() + 1);
        match self.fail_with {
            Some(e) => Err(e),
            None => Ok(GameInterface::default()),
        }
    }
}

#[test]
fn no_matching_process_reports_process_not_found() {
    let attempts = Rc::new(Cell::new(0));
    let mut provider = Provider::new(ScriptedHooker {
        attempts: attempts.clone(),
        fail_with: Some(InterfaceError::ProcessNotFound),
    });
    let r = provider.do_with_interface(|i| i.spatula_count.get());
    assert_eq!(r, Err(InterfaceError::ProcessNotFound));
    assert_eq!(attempts.get(), 1);
    // The state stays unhooked: the next call attempts discovery again.
    assert!(!provider.is_available());
    assert_eq!(attempts.get(), 2);
}

#[test]
fn discovery_errors_are_reported_unchanged() {
    for e in [
        InterfaceError::ProcessNotFound,
        InterfaceError::EmulationNotRunning,
        InterfaceError::IncorrectGame,
    ] {
        let attempts = Rc::new(Cell::new(0));
        let mut provider = Provider::new(ScriptedHooker {
            attempts: attempts.clone(),
            fail_with: Some(e),
        });
        assert_eq!(provider.do_with_interface(|i| i.spatula_count.get()), Err(e));
        assert!(!provider.is_available());
    }
}

#[test]
fn connectivity_failure_forces_rediscovery_on_the_next_call() {
    let attempts = Rc::new(Cell::new(0));
    let mut provider = Provider::new(ScriptedHooker {
        attempts: attempts.clone(),
        fail_with: None,
    });

    // First call hooks and runs the logic.
    assert_eq!(provider.do_with_interface(|i| i.spatula_count.get()), Ok(0));
    assert_eq!(attempts.get(), 1);

    // While hooked, calls reuse the existing aggregate: state written by one
    // call is seen by the next, with no new discovery.
    provider.do_with_interface(|i| i.spatula_count.set(3)).unwrap();
    assert_eq!(provider.do_with_interface(|i| i.spatula_count.get()), Ok(3));
    assert_eq!(attempts.get(), 1);

    // The logic reports a connectivity failure: it is surfaced unchanged,
    // and the provider drops the aggregate.
    let r: InterfaceResult<u32> = provider.do_with_interface(|_i| Err(InterfaceError::Unhooked));
    assert_eq!(r, Err(InterfaceError::Unhooked));
    assert_eq!(attempts.get(), 1);

    // The next call re-discovers rather than reusing the old aggregate: the
    // counter written before the failure is gone.
    assert_eq!(provider.do_with_interface(|i| i.spatula_count.get()), Ok(0));
    assert_eq!(attempts.get(), 2);
}

#[test]
fn other_errors_leave_the_hook_alone() {
    let attempts = Rc::new(Cell::new(0));
    let mut provider = Provider::new(ScriptedHooker {
        attempts: attempts.clone(),
        fail_with: None,
    });
    let r: InterfaceResult<u32> = provider.do_with_interface(|_i| Err(InterfaceError::InvalidData));
    assert_eq!(r, Err(InterfaceError::InvalidData));
    // A data error is not a lost connection: no re-discovery happens.
    assert_eq!(provider.do_with_interface(|i| i.spatula_count.get()), Ok(0));
    assert_eq!(attempts.get(), 1);
}

#[test]
fn is_available_hooks_on_demand() {
    let attempts = Rc::new(Cell::new(0));
    let mut provider = Provider::new(ScriptedHooker {
        attempts: attempts.clone(),
        fail_with: None,
    });
    assert!(provider.is_available());
    assert_eq!(attempts.get(), 1);
    assert!(provider.is_available());
    assert_eq!(attempts.get(), 1);
}
