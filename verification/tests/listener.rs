use rdev_node::listener::{
    current_events, listener_exited, listener_failed, should_stop, spawn_native_thread,
    start_listener, stop_listener, FailureReport, ListenerSlot,
};

type Slot = ListenerSlot<&'static str, &'static str>;
type Preflight = fn() -> Result<(), String>;

const NO_PREFLIGHT: Option<Preflight> = None;

fn started(slot: &mut Slot, events: &'static str, errors: Option<&'static str>) -> u64 {
    let mut generation = u64::MAX;
    let r = start_listener(
        slot,
        NO_PREFLIGHT,
        || Ok((events, errors)),
        |g| {
            generation = g;
            Ok(())
        },
    );
    assert_eq!(r, Ok(()));
    generation
}

fn refused(slot: &mut Slot) -> String {
    let preflight: Option<Preflight> = Some(|| panic!("refused"));
    start_listener(slot, preflight, || panic!("refused"), |_| panic!("refused")).unwrap_err()
}

const RUNNING: &str = "Listener is already running.";
const HOOKED: &str =
    "The native listener is still running; rdev cannot restart it after stopListener().";

#[test]
fn failed_spawn_does_not_mark_native_listener_running() {
    let mut slot = Slot::default();
    let failure = spawn_native_thread(&mut slot, || {
        Err(std::io::Error::other("injected failure").to_string())
    });
    assert!(failure.is_err());
    assert!(!slot.native_running);
    assert!(slot.active.is_none());
}

#[test]
fn a_thread_that_was_started_is_running() {
    let mut slot = Slot::default();
    assert_eq!(spawn_native_thread(&mut slot, || Ok(())), Ok(()));
    assert!(slot.native_running);
    let mut slot = Slot::default();
    assert_eq!(
        spawn_native_thread(&mut slot, || Err("no threads".to_string())),
        Err("Failed to spawn listener thread: no threads".to_string())
    );
}

#[test]
fn only_one_listener_may_be_active() {
    let mut slot = Slot::default();
    let generation = started(&mut slot, "first", None);
    assert_eq!(generation, 0);
    assert_eq!(slot.next_generation, 1);
    assert_eq!(refused(&mut slot), RUNNING);
    assert_eq!(current_events(&slot, generation), Some(&"first"));
    assert!(!should_stop(&slot, generation));
    assert!(should_stop(&slot, generation + 1));
}

#[test]
fn a_stopped_listener_leaves_its_thread_behind() {
    let mut slot = Slot::default();
    let generation = started(&mut slot, "events", Some("errors"));
    let state = stop_listener(&mut slot).unwrap();
    assert_eq!((state.events, state.errors), ("events", Some("errors")));
    assert!(stop_listener(&mut slot).is_none());
    assert!(should_stop(&slot, generation));
    assert_eq!(current_events(&slot, generation), None);
    assert_eq!(refused(&mut slot), HOOKED);
    assert!(listener_exited(&mut slot, generation).is_none());
    assert_eq!(started(&mut slot, "again", None), 1);
    assert!(should_stop(&slot, generation));
}

#[test]
fn a_failure_is_told_and_releases_the_listener() {
    let mut slot = Slot::default();
    let generation = started(&mut slot, "events", Some("errors"));
    match listener_failed(&mut slot, generation, "NoDisplay") {
        FailureReport::Tell {
            message,
            errors,
            events,
        } => {
            assert_eq!(message, "Input listener failed: NoDisplay");
            assert_eq!((errors, events), ("errors", "events"));
        }
        _ => panic!("the listener is told"),
    }
    assert!(slot.active.is_none() && !slot.native_running);
    assert_eq!(started(&mut slot, "again", None), 1);
}

#[test]
fn a_failure_that_nobody_takes_is_printed() {
    let mut slot = Slot::default();
    let generation = started(&mut slot, "events", None);
    match listener_failed(&mut slot, generation, "lost") {
        FailureReport::Print { message, events } => {
            assert_eq!(message, "Input listener failed: lost");
            assert_eq!(events, Some("events"));
        }
        _ => panic!("the message is printed"),
    }
    assert!(slot.active.is_none() && !slot.native_running);
}

#[test]
fn a_failure_after_a_stop_is_printed() {
    let mut slot = Slot::default();
    let generation = started(&mut slot, "events", Some("errors"));
    stop_listener(&mut slot);
    match listener_failed(&mut slot, generation, "lost") {
        FailureReport::Print { message, events } => {
            assert_eq!(message, "Input listener failed: lost");
            assert_eq!(events, None);
        }
        _ => panic!("the message is printed"),
    }
    assert!(!slot.native_running);
    assert!(matches!(
        listener_failed(&mut slot, generation, "lost"),
        FailureReport::Nothing
    ));
}

#[test]
fn a_thread_that_ends_releases_its_listener() {
    let mut slot = Slot::default();
    let generation = started(&mut slot, "events", None);
    let state = listener_exited(&mut slot, generation).unwrap();
    assert_eq!(state.events, "events");
    assert!(slot.active.is_none() && !slot.native_running);
    assert!(listener_exited(&mut slot, generation).is_none());
}

#[test]
fn a_start_that_fails_can_be_retried() {
    let mut slot = Slot::default();
    let r = start_listener(
        &mut slot,
        NO_PREFLIGHT,
        || Err("no callback".to_string()),
        |_| panic!("no thread is started"),
    );
    assert_eq!(r, Err("no callback".to_string()));
    assert_eq!(slot.next_generation, 0);
    let r = start_listener(
        &mut slot,
        NO_PREFLIGHT,
        || Ok(("events", None)),
        |_| Err("no threads".to_string()),
    );
    assert_eq!(
        r,
        Err("Failed to spawn listener thread: no threads".to_string())
    );
    assert!(slot.active.is_none() && !slot.native_running);
    assert_eq!(started(&mut slot, "events", None), 1);
}

#[test]
fn generations_wrap_around() {
    let mut slot = Slot::default();
    slot.next_generation = u64::MAX;
    assert_eq!(started(&mut slot, "events", None), u64::MAX);
    assert_eq!(slot.next_generation, 0);
}

#[test]
fn a_refused_start_calls_nothing() {
    let mut slot = Slot::default();
    started(&mut slot, "events", None);
    let mut calls = 0;
    let r = start_listener(
        &mut slot,
        NO_PREFLIGHT,
        || {
            calls += 1;
            Ok(("other", None))
        },
        |_| panic!("no second thread is started"),
    );
    assert_eq!(r, Err(RUNNING.to_string()));
    assert_eq!(calls, 0);
    stop_listener(&mut slot);
    let r = start_listener(
        &mut slot,
        NO_PREFLIGHT,
        || {
            calls += 1;
            Ok(("other", None))
        },
        |_| panic!("no second thread is started"),
    );
    assert_eq!(r, Err(HOOKED.to_string()));
    assert_eq!(calls, 0);
    assert!(slot.native_running && slot.active.is_none());
    assert_eq!(slot.next_generation, 1);
}

#[test]
fn generations_of_all_listeners_differ() {
    let mut slot = Slot::default();
    let mut generations = Vec::new();
    for round in 0..6 {
        let generation = started(&mut slot, "events", None);
        assert!(slot.native_running && slot.active.is_some());
        generations.push(generation);
        if round % 2 == 0 {
            stop_listener(&mut slot);
            assert_eq!(refused(&mut slot), HOOKED);
            listener_exited(&mut slot, generation);
        } else {
            listener_failed(&mut slot, generation, "lost");
        }
        assert!(!slot.native_running && slot.active.is_none());
        let failed = start_listener(
            &mut slot,
            NO_PREFLIGHT,
            || Ok(("events", None)),
            |_| Err("no threads".to_string()),
        );
        assert!(failed.is_err());
    }
    assert_eq!(generations, vec![0, 2, 4, 6, 8, 10]);
}

#[test]
fn a_session_that_cannot_be_listened_to_fails_the_start() {
    let mut slot = Slot::default();
    let denied: Preflight = || Err("12 denied".to_string());
    let r = start_listener(
        &mut slot,
        Some(denied),
        || panic!("no callback is made"),
        |_| panic!("no thread is started"),
    );
    assert_eq!(r, Err("12 denied".to_string()));
    assert!(slot.active.is_none() && !slot.native_running);
    assert_eq!(slot.next_generation, 0);
    let granted: Preflight = || Ok(());
    let r = start_listener(
        &mut slot,
        Some(granted),
        || Ok(("events", None)),
        |_| Ok(()),
    );
    assert_eq!(r, Ok(()));
    assert_eq!(current_events(&slot, 0), Some(&"events"));
}
