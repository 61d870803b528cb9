use rdev_node::linux_wayland::codes::RawEvent;
use rdev_node::linux_wayland::pointer::{
    move_pointer, PointerAction, PointerMove, PointerReply, WarpError,
};

fn located(x: i64, y: i64) -> PointerMove {
    let mut pointer = PointerMove::new(x, y);
    assert!(matches!(
        move_pointer(&mut pointer, PointerReply::Measured(Ok(true))),
        PointerAction::Connect
    ));
    assert!(matches!(
        move_pointer(&mut pointer, PointerReply::Connected(Ok(()))),
        PointerAction::Locate
    ));
    pointer
}

/// Moves the pointer as often as it may be moved, and gives what follows.
fn exhausted(pointer: &mut PointerMove) -> PointerAction {
    for round in 0..8 {
        match move_pointer(pointer, PointerReply::Offset(Ok((5, -round - 2)))) {
            PointerAction::Emit(events) => assert_eq!(
                events,
                vec![
                    RawEvent { kind: 2, code: 0, value: 5 },
                    RawEvent { kind: 2, code: 1, value: -round - 2 },
                ]
            ),
            _ => panic!("the pointer is off"),
        }
        assert!(matches!(
            move_pointer(pointer, PointerReply::Emitted(Ok(()))),
            PointerAction::Pause(15)
        ));
        let action = move_pointer(pointer, PointerReply::Paused);
        if round == 7 {
            return action;
        }
        assert!(matches!(action, PointerAction::Locate));
    }
    unreachable!()
}

fn failed(action: PointerAction) -> String {
    match action {
        PointerAction::Return(Err(message)) => message,
        _ => panic!("it did not fail"),
    }
}

#[test]
fn a_pointer_within_one_is_there() {
    for offset in [(0, 0), (1, -1), (-1, 1), (1, 1)] {
        let mut pointer = located(10, 10);
        assert!(matches!(
            move_pointer(&mut pointer, PointerReply::Offset(Ok(offset))),
            PointerAction::Return(Ok(()))
        ));
    }
    for offset in [(2, 0), (0, -2), (i32::MAX, 0), (0, -i32::MAX)] {
        let mut pointer = located(10, 10);
        assert!(matches!(
            move_pointer(&mut pointer, PointerReply::Offset(Ok(offset))),
            PointerAction::Emit(_)
        ));
    }
}

#[test]
fn a_pointer_that_keeps_missing_is_warped() {
    let mut pointer = located(300, 200);
    assert!(matches!(
        exhausted(&mut pointer),
        PointerAction::Warp { x: 300, y: 200 }
    ));
    assert!(matches!(
        move_pointer(&mut pointer, PointerReply::Warped(Ok(()))),
        PointerAction::Verify
    ));
    assert!(matches!(
        move_pointer(&mut pointer, PointerReply::Arrived(Ok(true))),
        PointerAction::Return(Ok(()))
    ));
}

#[test]
fn a_warp_needs_coordinates_of_the_display_server() {
    assert_eq!(
        failed(exhausted(&mut located(32768, 40000))),
        "Mouse x is out of XWayland range"
    );
    assert_eq!(
        failed(exhausted(&mut located(32767, 32768))),
        "Mouse y is out of XWayland range"
    );
    assert!(matches!(
        exhausted(&mut located(32767, 32767)),
        PointerAction::Warp { x: 32767, y: 32767 }
    ));
}

#[test]
fn a_move_says_what_failed() {
    let no = || "no".to_string();
    let mut pointer = PointerMove::new(1, 1);
    assert_eq!(
        failed(move_pointer(&mut pointer, PointerReply::Measured(Err(no())))),
        "XWayland pointer geometry is unavailable: no"
    );
    let mut pointer = PointerMove::new(1, 1);
    assert_eq!(
        failed(move_pointer(&mut pointer, PointerReply::Measured(Ok(false)))),
        "Mouse coordinates must be finite and within the display"
    );
    let mut pointer = PointerMove::new(1, 1);
    move_pointer(&mut pointer, PointerReply::Measured(Ok(true)));
    assert_eq!(
        failed(move_pointer(&mut pointer, PointerReply::Connected(Err(no())))),
        "Cannot connect to XWayland for absolute pointer coordinates: no"
    );
    let mut pointer = located(1, 1);
    assert_eq!(
        failed(move_pointer(&mut pointer, PointerReply::Offset(Err(no())))),
        "Cannot query pointer location: no"
    );
    let mut pointer = located(1, 1);
    move_pointer(&mut pointer, PointerReply::Offset(Ok((9, 9))));
    assert_eq!(
        failed(move_pointer(&mut pointer, PointerReply::Emitted(Err(no())))),
        "Cannot move virtual pointer: no"
    );
    for (error, message) in [
        (
            WarpError::Request(no()),
            "Cannot request XWayland pointer warp: no",
        ),
        (WarpError::Check(no()), "XWayland pointer warp failed: no"),
        (
            WarpError::Flush(no()),
            "Cannot flush XWayland pointer warp: no",
        ),
    ] {
        let mut pointer = located(1, 1);
        exhausted(&mut pointer);
        assert_eq!(
            failed(move_pointer(&mut pointer, PointerReply::Warped(Err(error)))),
            message
        );
    }
    let mut pointer = located(1, 1);
    exhausted(&mut pointer);
    move_pointer(&mut pointer, PointerReply::Warped(Ok(())));
    assert_eq!(
        failed(move_pointer(&mut pointer, PointerReply::Arrived(Ok(false)))),
        "Wayland pointer did not reach the requested absolute position"
    );
    let mut pointer = located(1, 1);
    exhausted(&mut pointer);
    move_pointer(&mut pointer, PointerReply::Warped(Ok(())));
    assert_eq!(
        failed(move_pointer(&mut pointer, PointerReply::Arrived(Err(no())))),
        "Cannot query pointer location: no"
    );
}
