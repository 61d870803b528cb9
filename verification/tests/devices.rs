use evdev::{AbsoluteAxisCode, AttributeSet, KeyCode, RelativeAxisCode};
use rdev_node::linux_wayland::devices::{device_paths, relevant, DevicePath};
use rdev_node::linux_wayland::open::{
    open_devices, preflight_capture, CaptureSetup, DeviceScan, OpenOutcome, ScanAction, ScanReply,
    SetupAction, SetupReply,
};

fn path(name: &str) -> DevicePath {
    DevicePath {
        file_name: name.as_bytes().to_vec(),
        display: format!("/dev/input/{name}"),
    }
}

fn paths(names: &[&str]) -> Vec<DevicePath> {
    names.iter().map(|name| path(name)).collect()
}

fn shown(paths: &[DevicePath]) -> Vec<&str> {
    paths.iter().map(|path| path.display.as_str()).collect()
}

fn opened(device: u32, relevant: bool) -> ScanReply<u32> {
    ScanReply::Opened(OpenOutcome::Opened { device, relevant })
}

fn configured(device: u32) -> ScanReply<u32> {
    ScanReply::Configured {
        device,
        outcome: Ok(()),
    }
}

fn returned(action: ScanAction<u32>) -> Result<(), String> {
    match action {
        ScanAction::Return(r) => r,
        _ => panic!("the scan goes on"),
    }
}

fn scan_of(names: &[&str]) -> DeviceScan<u32> {
    let mut scan = DeviceScan::new();
    let action = open_devices(&mut scan, ScanReply::Entries(Ok(paths(names))));
    assert!(matches!(action, ScanAction::Open));
    scan
}

#[test]
fn event_devices_are_listed_in_byte_order() {
    let listed = device_paths(paths(&[
        "mouse0", "event2", "by-id", "event10", "event", "mice", "Event1", "eventually", "event1",
    ]));
    assert_eq!(
        shown(&listed),
        vec![
            "/dev/input/event",
            "/dev/input/event1",
            "/dev/input/event10",
            "/dev/input/event2",
            "/dev/input/eventually",
        ]
    );
}

#[test]
fn names_need_not_be_text() {
    let mut odd = path("event");
    odd.file_name.push(0xff);
    let listed = device_paths(vec![odd, path("event9"), path("even")]);
    assert_eq!(listed.len(), 2);
    assert_eq!(listed[0].file_name, b"event9");
    assert_eq!(listed[1].file_name, b"event\xff");
}

#[test]
fn nothing_is_listed_where_nothing_reports_events() {
    assert!(device_paths(paths(&["mice", "js0"])).is_empty());
    assert!(device_paths(Vec::new()).is_empty());
}

#[test]
fn keyboards_and_pointers_are_relevant() {
    let keys = |code: KeyCode| [code].into_iter().collect::<AttributeSet<KeyCode>>();
    for code in [KeyCode::KEY_A, KeyCode::KEY_ENTER, KeyCode::BTN_LEFT] {
        assert!(relevant(Some(&keys(code)), None, None));
    }
    assert!(!relevant(Some(&keys(KeyCode::KEY_POWER)), None, None));
    let axes =
        |code: RelativeAxisCode| [code].into_iter().collect::<AttributeSet<RelativeAxisCode>>();
    assert!(relevant(None, Some(&axes(RelativeAxisCode::REL_X)), None));
    assert!(relevant(None, Some(&axes(RelativeAxisCode::REL_Y)), None));
    assert!(!relevant(
        None,
        Some(&axes(RelativeAxisCode::REL_WHEEL)),
        None
    ));
    let screen =
        |code: AbsoluteAxisCode| [code].into_iter().collect::<AttributeSet<AbsoluteAxisCode>>();
    assert!(relevant(None, None, Some(&screen(AbsoluteAxisCode::ABS_X))));
    assert!(relevant(None, None, Some(&screen(AbsoluteAxisCode::ABS_Y))));
    assert!(!relevant(
        None,
        None,
        Some(&screen(AbsoluteAxisCode::ABS_MISC))
    ));
    assert!(!relevant(None, None, None));
    assert!(relevant(
        Some(&keys(KeyCode::KEY_POWER)),
        None,
        Some(&screen(AbsoluteAxisCode::ABS_X))
    ));
}

#[test]
fn a_scan_keeps_the_relevant_devices_in_order() {
    let mut scan = scan_of(&["event1", "event0", "event2"]);
    assert_eq!(scan.paths[0].file_name, b"event0");
    assert!(matches!(
        open_devices(&mut scan, opened(10, true)),
        ScanAction::Configure(10)
    ));
    assert!(matches!(
        open_devices(&mut scan, configured(10)),
        ScanAction::Open
    ));
    assert!(matches!(
        open_devices(&mut scan, opened(11, false)),
        ScanAction::Open
    ));
    assert!(matches!(
        open_devices(&mut scan, opened(12, true)),
        ScanAction::Configure(12)
    ));
    assert_eq!(returned(open_devices(&mut scan, configured(12))), Ok(()));
    let devices: Vec<(&str, u32)> = scan
        .devices
        .iter()
        .map(|open| (open.path.display.as_str(), open.device))
        .collect();
    assert_eq!(
        devices,
        vec![("/dev/input/event0", 10), ("/dev/input/event2", 12)]
    );
}

#[test]
fn denied_devices_are_counted_and_make_a_scan_fail() {
    let names: Vec<String> = (0..13).map(|i| format!("event{i}")).collect();
    let names: Vec<&str> = names.iter().map(|name| name.as_str()).collect();
    let mut scan = scan_of(&names);
    open_devices(&mut scan, opened(10, true));
    open_devices(&mut scan, configured(10));
    for _ in 0..11 {
        open_devices(&mut scan, ScanReply::Opened(OpenOutcome::Denied));
    }
    let end = open_devices(&mut scan, ScanReply::Opened(OpenOutcome::Denied));
    assert_eq!(
        returned(end),
        Err("Wayland global capture requires read access to /dev/input/event* (12 denied). Configure a persistent input-device permission before starting the listener.".to_string())
    );
}

#[test]
fn a_scan_without_devices_fails() {
    let mut scan: DeviceScan<u32> = DeviceScan::new();
    assert_eq!(
        returned(open_devices(&mut scan, ScanReply::Entries(Ok(paths(&["mice"]))))),
        Err("No /dev/input/event* devices were found".to_string())
    );
    let mut scan = scan_of(&["event0"]);
    assert_eq!(
        returned(open_devices(&mut scan, opened(1, false))),
        Err("No keyboard or pointer input devices were found".to_string())
    );
    let mut scan: DeviceScan<u32> = DeviceScan::new();
    assert_eq!(
        returned(open_devices(
            &mut scan,
            ScanReply::Entries(Err("not there".to_string()))
        )),
        Err("Cannot enumerate /dev/input: not there".to_string())
    );
}

#[test]
fn the_first_failure_ends_a_scan() {
    let mut scan = scan_of(&["event0", "event1"]);
    open_devices(&mut scan, ScanReply::Opened(OpenOutcome::Denied));
    assert_eq!(
        returned(open_devices(
            &mut scan,
            ScanReply::Opened(OpenOutcome::Failed("busy".to_string()))
        )),
        Err("Cannot open /dev/input/event1: busy".to_string())
    );
    let mut scan = scan_of(&["event0", "event1"]);
    open_devices(&mut scan, opened(1, true));
    assert_eq!(
        returned(open_devices(
            &mut scan,
            ScanReply::Configured {
                device: 1,
                outcome: Err("busy".to_string())
            }
        )),
        Err("Cannot configure /dev/input/event0: busy".to_string())
    );
}

fn ready_setup() -> CaptureSetup<u32> {
    let mut setup = CaptureSetup::new();
    let action = preflight_capture(
        &mut setup,
        SetupReply::Scan(ScanReply::Entries(Ok(paths(&["event0"])))),
    );
    assert!(matches!(action, SetupAction::Open));
    let action = preflight_capture(&mut setup, SetupReply::Scan(opened(7, true)));
    assert!(matches!(action, SetupAction::Configure(7)));
    let action = preflight_capture(&mut setup, SetupReply::Scan(configured(7)));
    assert!(matches!(action, SetupAction::OpenPointer));
    setup
}

#[test]
fn a_preflight_needs_devices_and_the_pointer() {
    let mut setup = ready_setup();
    assert!(matches!(
        preflight_capture(&mut setup, SetupReply::Pointer(Ok(()))),
        SetupAction::Return(Ok(()))
    ));
    let mut setup = ready_setup();
    match preflight_capture(&mut setup, SetupReply::Pointer(Err("refused".to_string()))) {
        SetupAction::Return(Err(message)) => assert_eq!(
            message,
            "Cannot connect to XWayland for absolute pointer coordinates: refused"
        ),
        _ => panic!("the pointer is needed"),
    }
    let mut setup: CaptureSetup<u32> = CaptureSetup::new();
    match preflight_capture(
        &mut setup,
        SetupReply::Scan(ScanReply::Entries(Err("gone".to_string()))),
    ) {
        SetupAction::Return(Err(message)) => {
            assert_eq!(message, "Cannot enumerate /dev/input: gone")
        }
        _ => panic!("devices are needed"),
    }
}
