use nix::poll::PollFlags;
use rdev_node::events::{Button, EventType};
use rdev_node::linux_wayland::codes::RawEvent;
use rdev_node::linux_wayland::devices::DevicePath;
use rdev_node::linux_wayland::keymap::Key;
use rdev_node::linux_wayland::listen::{
    listen, FetchOutcome, Listen, ListenAction, ListenPhase, ListenReply,
};
use rdev_node::linux_wayland::open::{OpenOutcome, ScanReply, SetupAction, SetupReply};
use rdev_node::linux_wayland::poll::{
    poll_results, remove_gone, POLLERR, POLLHUP, POLLIN, POLLNVAL, POLL_GONE,
};

type Reply = ListenReply<i16, u32>;
type Action = ListenAction<i16, u32>;

const SECOND: u64 = 1_000_000_000;

fn path(name: &str) -> DevicePath {
    DevicePath {
        file_name: name.as_bytes().to_vec(),
        display: format!("/dev/input/{name}"),
    }
}

fn paths(names: &[&str]) -> Vec<DevicePath> {
    names.iter().map(|name| path(name)).collect()
}

fn step(listener: &mut Listen<u32>, reply: Reply) -> Action {
    listen(listener, reply)
}

/// A listener with the devices 100, 101 and so on, that asks whether to stop.
fn listener_on(names: &[&str], now: u64) -> Listen<u32> {
    let mut listener = Listen::new();
    let scan = |reply: ScanReply<u32>| Reply::Setup(SetupReply::Scan(reply));
    let action = step(&mut listener, scan(ScanReply::Entries(Ok(paths(names)))));
    assert!(matches!(action, Action::Setup(SetupAction::Open)));
    for device in 100..100 + names.len() as u32 {
        let action = step(
            &mut listener,
            scan(ScanReply::Opened(OpenOutcome::Opened {
                device,
                relevant: true,
            })),
        );
        assert!(matches!(action, Action::Setup(SetupAction::Configure(_))));
        step(
            &mut listener,
            scan(ScanReply::Configured {
                device,
                outcome: Ok(()),
            }),
        );
    }
    let action = step(&mut listener, Reply::Setup(SetupReply::Pointer(Ok(()))));
    assert!(matches!(action, Action::ReadClock));
    assert!(matches!(
        step(&mut listener, Reply::Clock(now)),
        Action::CheckStop
    ));
    listener
}

/// The same, after a poll with these flags.
fn polled(names: &[&str], revents: Vec<Option<i16>>) -> (Listen<u32>, Action) {
    let mut listener = listener_on(names, 0);
    assert!(matches!(
        step(&mut listener, Reply::Stop(false)),
        Action::Poll(100)
    ));
    let action = step(&mut listener, Reply::Polled(Ok(revents)));
    (listener, action)
}

fn held(listener: &Listen<u32>) -> Vec<u32> {
    listener.devices.iter().map(|open| open.device).collect()
}

fn failed(action: Action) -> String {
    match action {
        Action::Return(Err(message)) => message,
        _ => panic!("it did not fail"),
    }
}

#[test]
fn flags_are_those_of_linux() {
    assert_eq!(POLLIN, PollFlags::POLLIN.bits());
    assert_eq!(POLLERR, PollFlags::POLLERR.bits());
    assert_eq!(POLLHUP, PollFlags::POLLHUP.bits());
    assert_eq!(POLLNVAL, PollFlags::POLLNVAL.bits());
    assert_eq!(
        POLL_GONE,
        (PollFlags::POLLHUP | PollFlags::POLLERR | PollFlags::POLLNVAL).bits()
    );
}

#[test]
fn polled_devices_are_ready_or_gone() {
    let revents = vec![
        Some(POLLIN),
        Some(0),
        None,
        Some(POLLIN | POLLHUP),
        Some(POLLERR),
        Some(POLLIN | 2),
        Some(POLLNVAL),
    ];
    assert_eq!(poll_results(&revents), (vec![0, 5], vec![3, 4, 6]));
    assert_eq!(poll_results(&Vec::new()), (vec![], vec![]));
}

#[test]
fn items_that_are_gone_are_removed() {
    let mut items = vec!['a', 'b', 'c', 'd', 'e'];
    remove_gone(&mut items, &vec![0, 2, 4]);
    assert_eq!(items, vec!['b', 'd']);
    remove_gone(&mut items, &Vec::new());
    assert_eq!(items, vec!['b', 'd']);
    remove_gone(&mut items, &vec![0, 1]);
    assert!(items.is_empty());
}

#[test]
fn events_are_delivered_in_order() {
    let (mut listener, action) = polled(&["event0", "event1"], vec![Some(0), Some(POLLIN)]);
    assert!(matches!(action, Action::Fetch(1)));
    let events = vec![
        RawEvent { kind: 1, code: 30, value: 1 },
        RawEvent { kind: 0, code: 0, value: 0 },
        RawEvent { kind: 2, code: 0, value: 4 },
        RawEvent { kind: 1, code: 0x110, value: 0 },
    ];
    let mut delivered = Vec::new();
    let mut action = step(&mut listener, Reply::Fetched(FetchOutcome::Events(events)));
    loop {
        action = match action {
            Action::CheckStop => step(&mut listener, Reply::Stop(false)),
            Action::Locate => step(&mut listener, Reply::Located(Ok((7, 8)))),
            Action::Deliver(event) => {
                assert_eq!(event.name, None);
                delivered.push(event.event_type);
                step(&mut listener, Reply::Delivered)
            }
            Action::ReadClock => break,
            _ => panic!("unexpected"),
        };
    }
    assert_eq!(
        delivered,
        vec![
            EventType::KeyPress(Key::KeyA),
            EventType::MouseMove { x: 7, y: 8 },
            EventType::ButtonRelease(Button::Left),
        ]
    );
}

#[test]
fn a_stop_takes_effect_before_the_next_event() {
    let (mut listener, _) = polled(&["event0"], vec![Some(POLLIN)]);
    let key = RawEvent { kind: 1, code: 30, value: 1 };
    let action = step(
        &mut listener,
        Reply::Fetched(FetchOutcome::Events(vec![key, key])),
    );
    assert!(matches!(action, Action::CheckStop));
    assert!(matches!(
        step(&mut listener, Reply::Stop(false)),
        Action::Deliver(_)
    ));
    assert!(matches!(
        step(&mut listener, Reply::Delivered),
        Action::CheckStop
    ));
    assert!(matches!(
        step(&mut listener, Reply::Stop(true)),
        Action::Return(Ok(()))
    ));
    assert!(listener.phase == ListenPhase::Finished);
}

#[test]
fn a_stop_takes_effect_before_a_poll() {
    let mut listener = listener_on(&["event0"], 0);
    assert!(matches!(
        step(&mut listener, Reply::Stop(true)),
        Action::Return(Ok(()))
    ));
}

#[test]
fn all_ready_devices_are_read_and_those_that_are_gone_forgotten() {
    let (mut listener, action) = polled(
        &["event0", "event1", "event2", "event3"],
        vec![
            Some(POLLIN),
            Some(POLLIN | POLLERR),
            Some(POLLHUP),
            Some(POLLIN),
        ],
    );
    assert!(matches!(action, Action::Fetch(0)));
    let action = step(&mut listener, Reply::Fetched(FetchOutcome::WouldBlock));
    assert!(matches!(action, Action::Fetch(3)));
    assert_eq!(held(&listener), vec![100, 101, 102, 103]);
    let action = step(
        &mut listener,
        Reply::Fetched(FetchOutcome::Events(Vec::new())),
    );
    assert!(matches!(action, Action::ReadClock));
    assert_eq!(held(&listener), vec![100, 103]);
}

#[test]
fn devices_are_looked_for_after_a_second() {
    let (mut listener, action) = polled(&["event3"], vec![Some(0)]);
    assert!(matches!(action, Action::ReadClock));
    assert!(matches!(
        step(&mut listener, Reply::Clock(SECOND - 1)),
        Action::CheckStop
    ));
    step(&mut listener, Reply::Stop(false));
    step(&mut listener, Reply::Polled(Ok(vec![Some(0)])));
    assert!(matches!(
        step(&mut listener, Reply::Clock(SECOND)),
        Action::Enumerate
    ));
    let entries = paths(&["event9", "event3", "mice", "event1"]);
    assert!(matches!(
        step(&mut listener, Reply::Entries(Ok(entries))),
        Action::Open
    ));
    assert_eq!(listener.paths[0].file_name, b"event1");
    assert!(matches!(
        step(&mut listener, Reply::Opened(Ok((201, false)))),
        Action::Open
    ));
    assert_eq!(listener.paths[0].file_name, b"event9");
    assert!(matches!(
        step(&mut listener, Reply::Opened(Ok((209, true)))),
        Action::Configure(209)
    ));
    let action = step(
        &mut listener,
        Reply::Configured {
            device: 209,
            outcome: Ok(()),
        },
    );
    assert!(matches!(action, Action::ReadClock));
    assert!(matches!(
        step(&mut listener, Reply::Clock(SECOND + 5)),
        Action::CheckStop
    ));
    assert_eq!(listener.last_scan, SECOND + 5);
    assert_eq!(held(&listener), vec![100, 209]);
}

#[test]
fn known_devices_are_not_opened_again() {
    let (mut listener, _) = polled(&["event0", "event1"], vec![None, None]);
    step(&mut listener, Reply::Clock(2 * SECOND));
    let entries = paths(&["event1", "event0"]);
    assert!(matches!(
        step(&mut listener, Reply::Entries(Ok(entries))),
        Action::ReadClock
    ));
    assert_eq!(held(&listener), vec![100, 101]);
}

#[test]
fn a_clock_that_stands_still_starts_no_search() {
    let mut listener = listener_on(&["event0"], 5 * SECOND);
    step(&mut listener, Reply::Stop(false));
    step(&mut listener, Reply::Polled(Ok(vec![Some(0)])));
    assert!(matches!(
        step(&mut listener, Reply::Clock(SECOND)),
        Action::CheckStop
    ));
}

#[test]
fn failures_end_a_listener_with_their_message() {
    let no = || "no".to_string();
    let mut listener = listener_on(&["event0"], 0);
    step(&mut listener, Reply::Stop(false));
    assert_eq!(
        failed(step(&mut listener, Reply::Polled(Err(no())))),
        "Input poll failed: no"
    );

    let (mut listener, _) = polled(&["event0", "event1"], vec![None, Some(POLLIN)]);
    assert_eq!(
        failed(step(
            &mut listener,
            Reply::Fetched(FetchOutcome::Failed(no()))
        )),
        "Input device /dev/input/event1 failed: no"
    );

    let (mut listener, _) = polled(&["event0"], vec![Some(POLLIN)]);
    let motion = RawEvent { kind: 3, code: 0, value: 1 };
    step(
        &mut listener,
        Reply::Fetched(FetchOutcome::Events(vec![motion])),
    );
    assert!(matches!(
        step(&mut listener, Reply::Stop(false)),
        Action::Locate
    ));
    assert_eq!(
        failed(step(&mut listener, Reply::Located(Err(no())))),
        "Cannot query pointer location: no"
    );

    let (mut listener, _) = polled(&["event0"], vec![None]);
    step(&mut listener, Reply::Clock(SECOND));
    assert_eq!(
        failed(step(&mut listener, Reply::Entries(Err(no())))),
        "Cannot enumerate /dev/input: no"
    );

    let (mut listener, _) = polled(&["event0"], vec![None]);
    step(&mut listener, Reply::Clock(SECOND));
    step(&mut listener, Reply::Entries(Ok(paths(&["event4"]))));
    assert_eq!(
        failed(step(&mut listener, Reply::Opened(Err(no())))),
        "Cannot open new input device /dev/input/event4: no"
    );

    let (mut listener, _) = polled(&["event0"], vec![None]);
    step(&mut listener, Reply::Clock(SECOND));
    step(&mut listener, Reply::Entries(Ok(paths(&["event4"]))));
    step(&mut listener, Reply::Opened(Ok((1, true))));
    assert_eq!(
        failed(step(
            &mut listener,
            Reply::Configured {
                device: 1,
                outcome: Err(no())
            }
        )),
        "Cannot configure /dev/input/event4: no"
    );

    let mut listener: Listen<u32> = Listen::new();
    assert_eq!(
        failed(step(
            &mut listener,
            Reply::Setup(SetupReply::Scan(ScanReply::Entries(Ok(Vec::new()))))
        )),
        "No /dev/input/event* devices were found"
    );
}

#[test]
fn what_was_delivered_before_a_failure_stays_delivered() {
    let (mut listener, _) = polled(&["event0", "event1"], vec![Some(POLLIN), Some(POLLIN)]);
    let key = |value: i32| RawEvent { kind: 1, code: 30, value };
    let motion = RawEvent { kind: 2, code: 1, value: 2 };
    let mut delivered = Vec::new();
    let mut fetches = 0;
    let mut action = Action::Fetch(0);
    let end = loop {
        let reply = match action {
            Action::Fetch(index) => {
                assert_eq!(index, fetches);
                fetches += 1;
                Reply::Fetched(FetchOutcome::Events(if index == 0 {
                    vec![key(1), key(0)]
                } else {
                    vec![key(1), motion, key(0)]
                }))
            }
            Action::CheckStop => Reply::Stop(false),
            Action::Locate => Reply::Located(Err("no".to_string())),
            Action::Deliver(event) => {
                delivered.push(event.event_type);
                Reply::Delivered
            }
            Action::Return(result) => break result,
            _ => panic!("unexpected"),
        };
        action = step(&mut listener, reply);
    };
    assert_eq!(end, Err("Cannot query pointer location: no".to_string()));
    assert_eq!(
        delivered,
        vec![
            EventType::KeyPress(Key::KeyA),
            EventType::KeyRelease(Key::KeyA),
            EventType::KeyPress(Key::KeyA),
        ]
    );
}

#[test]
fn a_run_delivers_its_rounds_one_after_the_other() {
    let key = |code: u16, value: i32| RawEvent { kind: 1, code, value };
    let motion = RawEvent { kind: 2, code: 0, value: 1 };
    let mut batches = vec![
        vec![key(30, 1), motion],
        vec![key(30, 0)],
        vec![motion, key(48, 1), key(48, 0)],
    ]
    .into_iter();
    let mut polls = vec![vec![Some(POLLIN), Some(POLLIN)], vec![None, Some(POLLIN)]].into_iter();
    let mut listener = listener_on(&["event0", "event1"], 0);
    let mut action = Action::CheckStop;
    let mut permitted = false;
    let mut place = 0;
    let mut fetched = Vec::new();
    let mut delivered = Vec::new();
    loop {
        let reply = match action {
            Action::CheckStop => {
                permitted = delivered.len() < 5;
                Reply::Stop(!permitted)
            }
            Action::Poll(_) => Reply::Polled(Ok(polls.next().unwrap())),
            Action::Fetch(index) => {
                fetched.push(index);
                Reply::Fetched(FetchOutcome::Events(batches.next().unwrap()))
            }
            Action::Locate => {
                place += 1;
                Reply::Located(Ok((place, -place)))
            }
            Action::Deliver(event) => {
                assert!(permitted);
                permitted = false;
                delivered.push(event.event_type);
                Reply::Delivered
            }
            Action::ReadClock => Reply::Clock(1),
            Action::Return(result) => {
                assert_eq!(result, Ok(()));
                break;
            }
            _ => panic!("unexpected"),
        };
        action = step(&mut listener, reply);
    }
    assert_eq!(
        delivered,
        vec![
            EventType::KeyPress(Key::KeyA),
            EventType::MouseMove { x: 1, y: -1 },
            EventType::KeyRelease(Key::KeyA),
            EventType::MouseMove { x: 2, y: -2 },
            EventType::KeyPress(Key::KeyB),
        ]
    );
    assert_eq!(fetched, vec![0, 1, 1]);
    assert_eq!(listener.batch, vec![key(48, 0)]);
}
