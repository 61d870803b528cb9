use rdev_node::linux_outputs::{
    desktop_size, display_size, DisplayAction, DisplayPhase, DisplayQuery, LogicalEvent,
    OutputInfo, OutputState,
};
use std::collections::HashMap;

fn output(position: Option<(i32, i32)>, size: Option<(i32, i32)>) -> OutputInfo {
    OutputInfo { position, size }
}

fn returned(action: DisplayAction) -> Result<(u64, u64), String> {
    match action {
        DisplayAction::Return(r) => r,
        _ => panic!("the query goes on"),
    }
}

#[test]
fn logical_desktop_spans_all_outputs() {
    let mut outputs = HashMap::new();
    outputs.insert(
        1,
        OutputInfo {
            position: Some((-1920, 0)),
            size: Some((1920, 1080)),
        },
    );
    outputs.insert(
        2,
        OutputInfo {
            position: Some((0, 0)),
            size: Some((2560, 1440)),
        },
    );
    assert_eq!(desktop_size(&outputs).unwrap(), (4480, 1440));
}

#[test]
fn outputs_without_place_or_area_do_not_count() {
    let mut outputs = HashMap::new();
    outputs.insert(1, output(Some((10, 20)), Some((30, 40))));
    outputs.insert(2, output(None, Some((5000, 5000))));
    outputs.insert(3, output(Some((-900, -900)), None));
    outputs.insert(4, output(Some((-900, -900)), Some((0, 10))));
    outputs.insert(5, output(Some((-900, -900)), Some((10, -1))));
    assert_eq!(desktop_size(&outputs), Ok((30, 40)));
}

#[test]
fn a_desktop_without_usable_outputs_has_no_size() {
    let message = Err("No logical Wayland outputs were reported".to_string());
    let mut outputs = HashMap::new();
    assert_eq!(desktop_size(&outputs), message);
    outputs.insert(1, output(Some((0, 0)), None));
    assert_eq!(desktop_size(&outputs), message);
}

#[test]
fn extreme_coordinates_do_not_overflow() {
    let mut outputs = HashMap::new();
    outputs.insert(1, output(Some((i32::MIN, i32::MIN)), Some((1, 1))));
    outputs.insert(
        2,
        output(Some((i32::MAX, i32::MAX)), Some((i32::MAX, i32::MAX))),
    );
    let span = (1u64 << 31) + 2 * ((1u64 << 31) - 1);
    assert_eq!(desktop_size(&outputs), Ok((span, span)));
}

#[test]
fn adding_an_output_never_shrinks_the_desktop() {
    let mut outputs = HashMap::new();
    outputs.insert(1, output(Some((0, 0)), Some((100, 100))));
    outputs.insert(2, output(Some((10, 10)), Some((20, 20))));
    assert_eq!(desktop_size(&outputs), Ok((100, 100)));
    outputs.insert(3, output(Some((-50, 90)), Some((20, 20))));
    assert_eq!(desktop_size(&outputs), Ok((150, 110)));
}

#[test]
fn globals_are_bound_in_known_versions() {
    let mut state: OutputState<u32, u32> = OutputState::new();
    let manager = "zxdg_output_manager_v1".to_string();
    let wl_output = "wl_output".to_string();
    state.registry_event(7, &manager, 9, |v| v, |_| panic!("no output"));
    assert_eq!(state.manager, Some(3));
    state.registry_event(8, &manager, 2, |v| v, |_| panic!("no output"));
    assert_eq!(state.manager, Some(2));
    state.registry_event(21, &wl_output, 9, |_| panic!("no manager"), |v| v);
    state.registry_event(22, &wl_output, 1, |_| panic!("no manager"), |v| v);
    state.registry_event(
        23,
        &"wl_seat".to_string(),
        1,
        |_| panic!("no manager"),
        |_| panic!("no output"),
    );
    assert_eq!(state.outputs, vec![(21, 4), (22, 1)]);
    assert!(state.logical.is_empty());
}

#[test]
fn reports_are_gathered_by_output() {
    let mut state: OutputState<(), ()> = OutputState::new();
    state.logical_event(1, LogicalEvent::Size { width: 3, height: 4 });
    state.logical_event(1, LogicalEvent::Position { x: 9, y: 9 });
    state.logical_event(1, LogicalEvent::Position { x: 1, y: 2 });
    state.logical_event(2, LogicalEvent::Other);
    assert_eq!(state.logical[&1], output(Some((1, 2)), Some((3, 4))));
    assert_eq!(state.logical[&2], output(None, None));
    assert_eq!(state.logical.len(), 2);
}

#[test]
fn a_query_reads_the_registry_and_then_the_geometry() {
    let mut query: DisplayQuery<(), ()> = DisplayQuery::new();
    assert!(query.phase == DisplayPhase::Connecting);
    assert!(matches!(
        display_size(&mut query, Ok(())),
        DisplayAction::ReadRegistry
    ));
    query.state.manager = Some(());
    query.state.outputs = vec![(31, ()), (32, ())];
    assert_eq!(
        display_size(&mut query, Ok(())),
        DisplayAction::AskOutput { index: 0, name: 31 }
    );
    assert_eq!(
        display_size(&mut query, Ok(())),
        DisplayAction::AskOutput { index: 1, name: 32 }
    );
    assert_eq!(
        display_size(&mut query, Ok(())),
        DisplayAction::ReadGeometry
    );
    query
        .state
        .logical_event(1, LogicalEvent::Position { x: 0, y: 0 });
    query.state.logical_event(
        1,
        LogicalEvent::Size {
            width: 1280,
            height: 720,
        },
    );
    assert_eq!(
        returned(display_size(&mut query, Ok(()))),
        Ok((1280, 720))
    );
    assert!(query.phase == DisplayPhase::Finished);
}

#[test]
fn a_query_says_what_failed() {
    let failed = || Err("gone".to_string());
    let mut query: DisplayQuery<(), ()> = DisplayQuery::new();
    assert_eq!(
        returned(display_size(&mut query, failed())),
        Err("Cannot connect to Wayland: gone".to_string())
    );

    let mut query: DisplayQuery<(), ()> = DisplayQuery::new();
    display_size(&mut query, Ok(()));
    assert_eq!(
        returned(display_size(&mut query, failed())),
        Err("Cannot read Wayland outputs: gone".to_string())
    );

    let mut query: DisplayQuery<(), ()> = DisplayQuery::new();
    display_size(&mut query, Ok(()));
    assert_eq!(
        returned(display_size(&mut query, Ok(()))),
        Err("The compositor does not advertise xdg-output".to_string())
    );

    let mut query: DisplayQuery<(), ()> = DisplayQuery::new();
    display_size(&mut query, Ok(()));
    query.state.manager = Some(());
    display_size(&mut query, Ok(()));
    assert_eq!(
        returned(display_size(&mut query, failed())),
        Err("Cannot read Wayland output geometry: gone".to_string())
    );
}

#[test]
fn a_query_without_outputs_asks_for_none() {
    let mut query: DisplayQuery<(), ()> = DisplayQuery::new();
    display_size(&mut query, Ok(()));
    query.state.manager = Some(());
    assert_eq!(
        display_size(&mut query, Ok(())),
        DisplayAction::ReadGeometry
    );
    assert_eq!(
        returned(display_size(&mut query, Ok(()))),
        Err("No logical Wayland outputs were reported".to_string())
    );
}

#[test]
fn moving_all_outputs_keeps_the_size() {
    let mut outputs = HashMap::new();
    let mut moved = HashMap::new();
    for (name, x, y) in [(1, -1920, 0), (2, 0, 0), (3, 400, 1440)] {
        outputs.insert(name, output(Some((x, y)), Some((1920, 1080))));
        moved.insert(name, output(Some((x + 77, y - 5)), Some((1920, 1080))));
    }
    assert_eq!(desktop_size(&outputs), Ok((4240, 2520)));
    assert_eq!(desktop_size(&moved), Ok((4240, 2520)));
}

#[test]
fn globals_of_other_interfaces_are_not_bound() {
    let mut state: OutputState<u32, u32> = OutputState::new();
    for interface in ["wl_seat", "wl_outputs", "zxdg_output_manager_v2", ""] {
        state.registry_event(
            5,
            &interface.to_string(),
            4,
            |_| panic!("no manager is bound"),
            |_| panic!("no output is bound"),
        );
    }
    assert!(state.manager.is_none());
    assert!(state.outputs.is_empty());
}
