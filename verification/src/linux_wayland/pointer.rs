//! Moving the pointer to a place on the display.

use super::codes::{RawEvent, EV_REL, REL_X, REL_Y};
use super::listen;
use super::open;
use crate::text;
use crate::text::join;
use vstd::prelude::*;

verus! {

/// The pointer is moved relative to where it is this often before it is warped.
pub const MOTIONS: u8 = 8;

/// How long a motion is given to take effect, in milliseconds.
pub const MOTION_PAUSE: u64 = 15;

/// What moving the pointer waits for.
#[derive(Clone, Copy, Debug, PartialEq, Eq, Structural)]
pub enum PointerPhase {
    /// Whether the place is on the display.
    Measuring,
    /// The connection that tells where the pointer is.
    Connecting,
    /// How far the pointer is from the place.
    Locating,
    /// The end of a motion.
    Emitting,
    /// The end of the pause after a motion.
    Pausing,
    /// The end of the warp.
    Warping,
    /// Whether the pointer has arrived after the warp.
    Verifying,
    /// Nothing: it has returned.
    Finished,
}

/// A move of the pointer to the place with the rounded coordinates `target_x` and
/// `target_y`; `motions` have been made so far.
#[derive(Clone, Copy, Debug, PartialEq, Eq, Structural)]
pub struct PointerMove {
    pub phase: PointerPhase,
    pub target_x: i64,
    pub target_y: i64,
    pub motions: u8,
}

/// The step of a warp that failed.
pub enum WarpError {
    Request(String),
    Check(String),
    Flush(String),
}

/// How what a move waited for has ended.
pub enum PointerReply {
    /// Both coordinates are finite and within the display.
    Measured(Result<bool, String>),
    Connected(Result<(), String>),
    /// The rounded distance from the pointer to the place.
    Offset(Result<(i32, i32), String>),
    Emitted(Result<(), String>),
    Paused,
    Warped(Result<(), WarpError>),
    /// The pointer is at most one away from the place, in both coordinates.
    Arrived(Result<bool, String>),
}

/// What is to be done next for a move.
pub enum PointerAction {
    /// Open the connection that tells where the pointer is.
    Connect,
    /// Ask for the place of the pointer, and how far it is from where it is to be.
    Locate,
    /// Let the virtual device report these events.
    Emit(Vec<RawEvent>),
    /// Wait this long for the motion to take effect, in milliseconds.
    Pause(u64),
    /// Warp the pointer.
    Warp { x: i16, y: i16 },
    /// Ask for the place of the pointer, and whether it is where it is to be.
    Verify,
    /// Return the result.
    Return(Result<(), String>),
}

pub enum PointerActionView {
    Connect,
    Locate,
    Emit(Seq<RawEvent>),
    Pause(u64),
    Warp { x: i16, y: i16 },
    Verify,
    Return(Result<(), Seq<char>>),
}

impl View for PointerAction {
    type V = PointerActionView;

    open spec fn view(&self) -> PointerActionView {
        match *self {
            PointerAction::Connect => PointerActionView::Connect,
            PointerAction::Locate => PointerActionView::Locate,
            PointerAction::Emit(events) => PointerActionView::Emit(events@),
            PointerAction::Pause(length) => PointerActionView::Pause(length),
            PointerAction::Warp { x, y } => PointerActionView::Warp { x, y },
            PointerAction::Verify => PointerActionView::Verify,
            PointerAction::Return(r) => PointerActionView::Return(text::told(r)),
        }
    }
}

/// The distance is one that counts as none.
pub open spec fn is_near(dx: i32, dy: i32) -> bool {
    -1 <= dx <= 1 && -1 <= dy <= 1
}

/// The relative motion by `dx` and `dy`.
pub open spec fn motion(dx: i32, dy: i32) -> Seq<RawEvent> {
    seq![
        RawEvent { kind: EV_REL, code: REL_X, value: dx },
        RawEvent { kind: EV_REL, code: REL_Y, value: dy },
    ]
}

impl PointerMove {
    /// The move waits for an answer of the kind that `reply` is. A distance has an
    /// absolute value of its type.
    pub open spec fn accepts(self, reply: PointerReply) -> bool {
        match reply {
            PointerReply::Measured(_) => self.phase == PointerPhase::Measuring,
            PointerReply::Connected(_) => self.phase == PointerPhase::Connecting,
            PointerReply::Offset(r) => self.phase == PointerPhase::Locating && (r matches Ok(
                (dx, dy),
            ) ==> dx > i32::MIN && dy > i32::MIN),
            PointerReply::Emitted(_) => self.phase == PointerPhase::Emitting,
            PointerReply::Paused => self.phase == PointerPhase::Pausing,
            PointerReply::Warped(_) => self.phase == PointerPhase::Warping,
            PointerReply::Arrived(_) => self.phase == PointerPhase::Verifying,
        }
    }

    /// There is a motion left whenever one may be made.
    pub open spec fn wf(self) -> bool {
        &&& self.motions <= MOTIONS
        &&& self.phase == PointerPhase::Locating || self.phase == PointerPhase::Emitting
            || self.phase == PointerPhase::Pausing ==> self.motions < MOTIONS
    }

    pub open spec fn at(self, phase: PointerPhase) -> Self {
        PointerMove { phase, ..self }
    }

    pub open spec fn returned(self, r: Result<(), Seq<char>>) -> (Self, PointerActionView) {
        (self.at(PointerPhase::Finished), PointerActionView::Return(r))
    }

    /// The pointer is warped, as far as the place can be told to the display server.
    pub open spec fn at_warp(self) -> (Self, PointerActionView) {
        if !(i16::MIN <= self.target_x <= i16::MAX) {
            self.returned(Err("Mouse x is out of XWayland range"@))
        } else if !(i16::MIN <= self.target_y <= i16::MAX) {
            self.returned(Err("Mouse y is out of XWayland range"@))
        } else {
            (
                self.at(PointerPhase::Warping),
                PointerActionView::Warp { x: self.target_x as i16, y: self.target_y as i16 },
            )
        }
    }

    /// What comes of `reply`.
    pub open spec fn step(self, reply: PointerReply) -> (Self, PointerActionView) {
        match reply {
            PointerReply::Measured(Ok(true)) => (
                self.at(PointerPhase::Connecting),
                PointerActionView::Connect,
            ),
            PointerReply::Measured(Ok(false)) => self.returned(
                Err("Mouse coordinates must be finite and within the display"@),
            ),
            PointerReply::Measured(Err(e)) => self.returned(
                Err("XWayland pointer geometry is unavailable: "@ + e@),
            ),
            PointerReply::Connected(Ok(())) => if self.motions < MOTIONS {
                (self.at(PointerPhase::Locating), PointerActionView::Locate)
            } else {
                self.at_warp()
            },
            PointerReply::Connected(Err(e)) => self.returned(Err(open::pointer_message(e@))),
            PointerReply::Offset(Ok((dx, dy))) => if is_near(dx, dy) {
                self.returned(Ok(()))
            } else {
                (self.at(PointerPhase::Emitting), PointerActionView::Emit(motion(dx, dy)))
            },
            PointerReply::Offset(Err(e)) => self.returned(Err(listen::location_message(e@))),
            PointerReply::Emitted(Ok(())) => (
                self.at(PointerPhase::Pausing),
                PointerActionView::Pause(MOTION_PAUSE),
            ),
            PointerReply::Emitted(Err(e)) => self.returned(
                Err("Cannot move virtual pointer: "@ + e@),
            ),
            PointerReply::Paused => {
                let moved = PointerMove { motions: (self.motions + 1) as u8, ..self };
                if moved.motions < MOTIONS {
                    (moved.at(PointerPhase::Locating), PointerActionView::Locate)
                } else {
                    moved.at_warp()
                }
            },
            PointerReply::Warped(Ok(())) => (
                self.at(PointerPhase::Verifying),
                PointerActionView::Verify,
            ),
            PointerReply::Warped(Err(WarpError::Request(e))) => self.returned(
                Err("Cannot request XWayland pointer warp: "@ + e@),
            ),
            PointerReply::Warped(Err(WarpError::Check(e))) => self.returned(
                Err("XWayland pointer warp failed: "@ + e@),
            ),
            PointerReply::Warped(Err(WarpError::Flush(e))) => self.returned(
                Err("Cannot flush XWayland pointer warp: "@ + e@),
            ),
            PointerReply::Arrived(Ok(true)) => self.returned(Ok(())),
            PointerReply::Arrived(Ok(false)) => self.returned(
                Err("Wayland pointer did not reach the requested absolute position"@),
            ),
            PointerReply::Arrived(Err(e)) => self.returned(Err(listen::location_message(e@))),
        }
    }

    /// A move that waits to be told whether its place is on the display.
    pub fn new(target_x: i64, target_y: i64) -> (r: Self)
        ensures
            r.wf(),
            r == (PointerMove { phase: PointerPhase::Measuring, target_x, target_y, motions: 0 }),
    {
        PointerMove { phase: PointerPhase::Measuring, target_x, target_y, motions: 0 }
    }

    fn finish(&mut self, r: Result<(), String>) -> (action: PointerAction)
        requires
            old(self).wf(),
        ensures
            final(self).wf(),
            (*final(self), action@) == old(self).returned(text::told(r)),
    {
        self.phase = PointerPhase::Finished;
        PointerAction::Return(r)
    }

    fn locate_or_warp(&mut self) -> (r: PointerAction)
        requires
            old(self).motions <= MOTIONS,
        ensures
            final(self).wf(),
            (*final(self), r@) == if old(self).motions < MOTIONS {
                (old(self).at(PointerPhase::Locating), PointerActionView::Locate)
            } else {
                old(self).at_warp()
            },
    {
        if self.motions < MOTIONS {
            self.phase = PointerPhase::Locating;
            return PointerAction::Locate;
        }
        if self.target_x < i16::MIN as i64 || self.target_x > i16::MAX as i64 {
            self.phase = PointerPhase::Finished;
            PointerAction::Return(Err("Mouse x is out of XWayland range".to_owned()))
        } else if self.target_y < i16::MIN as i64 || self.target_y > i16::MAX as i64 {
            self.phase = PointerPhase::Finished;
            PointerAction::Return(Err("Mouse y is out of XWayland range".to_owned()))
        } else {
            self.phase = PointerPhase::Warping;
            PointerAction::Warp { x: self.target_x as i16, y: self.target_y as i16 }
        }
    }
}

/// Takes a move of the pointer one step further.
///
/// The virtual device moves the pointer towards the place, a few times if need be, since
/// the compositor may accelerate its motions. If the pointer still misses the place, it
/// is warped there.
pub fn move_pointer(pointer: &mut PointerMove, reply: PointerReply) -> (r: PointerAction)
    requires
        old(pointer).wf(),
        old(pointer).accepts(reply),
    ensures
        final(pointer).wf(),
        (*final(pointer), r@) == old(pointer).step(reply),
{
    match reply {
        PointerReply::Measured(Ok(inside)) => {
            if inside {
                pointer.phase = PointerPhase::Connecting;
                PointerAction::Connect
            } else {
                pointer.finish(
                    Err("Mouse coordinates must be finite and within the display".to_owned()),
                )
            }
        },
        PointerReply::Measured(Err(e)) => pointer.finish(
            Err(join("XWayland pointer geometry is unavailable: ", e.as_str())),
        ),
        PointerReply::Connected(Ok(())) => pointer.locate_or_warp(),
        PointerReply::Connected(Err(e)) => pointer.finish(
            Err(
                join(
                    "Cannot connect to XWayland for absolute pointer coordinates: ",
                    e.as_str(),
                ),
            ),
        ),
        PointerReply::Offset(Ok((dx, dy))) => {
            if -1 <= dx && dx <= 1 && -1 <= dy && dy <= 1 {
                pointer.finish(Ok(()))
            } else {
                pointer.phase = PointerPhase::Emitting;
                let mut events: Vec<RawEvent> = Vec::new();
                events.push(RawEvent { kind: EV_REL, code: REL_X, value: dx });
                events.push(RawEvent { kind: EV_REL, code: REL_Y, value: dy });
                assert(events@ =~= motion(dx, dy));
                PointerAction::Emit(events)
            }
        },
        PointerReply::Offset(Err(e)) => pointer.finish(
            Err(join("Cannot query pointer location: ", e.as_str())),
        ),
        PointerReply::Emitted(Ok(())) => {
            pointer.phase = PointerPhase::Pausing;
            PointerAction::Pause(MOTION_PAUSE)
        },
        PointerReply::Emitted(Err(e)) => pointer.finish(
            Err(join("Cannot move virtual pointer: ", e.as_str())),
        ),
        PointerReply::Paused => {
            pointer.motions = pointer.motions + 1;
            pointer.locate_or_warp()
        },
        PointerReply::Warped(Ok(())) => {
            pointer.phase = PointerPhase::Verifying;
            PointerAction::Verify
        },
        PointerReply::Warped(Err(WarpError::Request(e))) => pointer.finish(
            Err(join("Cannot request XWayland pointer warp: ", e.as_str())),
        ),
        PointerReply::Warped(Err(WarpError::Check(e))) => pointer.finish(
            Err(join("XWayland pointer warp failed: ", e.as_str())),
        ),
        PointerReply::Warped(Err(WarpError::Flush(e))) => pointer.finish(
            Err(join("Cannot flush XWayland pointer warp: ", e.as_str())),
        ),
        PointerReply::Arrived(Ok(arrived)) => {
            if arrived {
                pointer.finish(Ok(()))
            } else {
                pointer.finish(
                    Err(
                        "Wayland pointer did not reach the requested absolute position".to_owned(),
                    ),
                )
            }
        },
        PointerReply::Arrived(Err(e)) => pointer.finish(
            Err(join("Cannot query pointer location: ", e.as_str())),
        ),
    }
}

/// One motion towards the place, from a pointer that is off by `offset`.
pub open spec fn moved_by(pointer: PointerMove, offset: (i32, i32)) -> (
    PointerMove,
    PointerActionView,
) {
    pointer.step(PointerReply::Offset(Ok(offset))).0.step(PointerReply::Emitted(Ok(()))).0.step(
        PointerReply::Paused,
    )
}

/// One motion after the other.
pub open spec fn moved_by_all(pointer: PointerMove, offsets: Seq<(i32, i32)>) -> PointerMove
    decreases offsets.len(),
{
    if offsets.len() == 0 {
        pointer
    } else {
        moved_by(moved_by_all(pointer, offsets.drop_last()), offsets.last()).0
    }
}

/// While it misses the place, the pointer is moved relative to where it is as often as it
/// may be, and not once more: then it is warped, or the move fails where the place cannot
/// be told to the display server.
pub proof fn motions_are_bounded(pointer: PointerMove, offsets: Seq<(i32, i32)>)
    requires
        pointer.phase == PointerPhase::Locating,
        pointer.motions == 0,
        0 < offsets.len() <= MOTIONS,
        forall|i: int|
            0 <= i < offsets.len() ==> !is_near(
                (#[trigger] offsets[i]).0,
                offsets[i].1,
            ),
    ensures
        ({
            let end = moved_by_all(pointer, offsets);
            let moved = PointerMove { motions: offsets.len() as u8, ..pointer };
            end == if offsets.len() < MOTIONS {
                moved
            } else {
                moved.at_warp().0
            }
        }),
    decreases offsets.len(),
{
    let before = offsets.drop_last();
    let last = offsets.last();
    assert(last == offsets[offsets.len() - 1]);
    if offsets.len() > 1 {
        assert forall|i: int| 0 <= i < before.len() implies !is_near(
            (#[trigger] before[i]).0,
            before[i].1,
        ) by {
            assert(before[i] == offsets[i]);
        }
        motions_are_bounded(pointer, before);
    } else {
        assert(moved_by_all(pointer, before) == pointer);
    }
}

/// A move succeeds only where the pointer has been seen at the place: after a distance
/// that counts as none, or on arrival.
pub proof fn success_means_arrival(pointer: PointerMove, reply: PointerReply)
    requires
        pointer.accepts(reply),
        pointer.step(reply).1 == PointerActionView::Return(Ok(())),
    ensures
        reply matches PointerReply::Offset(Ok((dx, dy))) && is_near(dx, dy) || reply matches
            PointerReply::Arrived(Ok(true)),
{
}

/// While the pointer is more than one away from the place in either coordinate, it is moved
/// by the whole distance: exactly one motion along each axis, of that length and direction.
/// A pointer at `from` that moves by them is at the place, `to`.
pub proof fn a_motion_covers_the_distance(
    pointer: PointerMove,
    dx: i32,
    dy: i32,
    from: (int, int),
    to: (int, int),
)
    requires
        dx == to.0 - from.0,
        dy == to.1 - from.1,
        dx < -1 || dx > 1 || dy < -1 || dy > 1,
    ensures
        pointer.step(PointerReply::Offset(Ok((dx, dy)))).0 == (PointerMove {
            phase: PointerPhase::Emitting,
            ..pointer
        }),
        pointer.step(PointerReply::Offset(Ok((dx, dy)))).1 matches PointerActionView::Emit(events)
            && {
            &&& events.len() == 2
            &&& events[0].kind == 0x02 && events[0].code == 0x00
            &&& events[1].kind == 0x02 && events[1].code == 0x01
            &&& from.0 + events[0].value == to.0
            &&& from.1 + events[1].value == to.1
        },
{
}

/// A pointer that is at most one away from the place in both coordinates is left where it is.
pub proof fn a_pointer_that_is_near_is_left_alone(pointer: PointerMove, dx: i32, dy: i32)
    requires
        -1 <= dx <= 1,
        -1 <= dy <= 1,
    ensures
        pointer.step(PointerReply::Offset(Ok((dx, dy)))) == (
            PointerMove { phase: PointerPhase::Finished, ..pointer },
            PointerActionView::Return(Ok(())),
        ),
{
}

/// After each motion the pointer is given fifteen milliseconds and located again; after the
/// eighth it is warped to the place itself, or the move fails where either coordinate of the
/// place is none of the display server.
pub proof fn a_motion_is_followed_by_the_next_or_by_a_warp(pointer: PointerMove)
    requires
        pointer.motions < 8,
    ensures
        pointer.step(PointerReply::Emitted(Ok(()))) == (
            PointerMove { phase: PointerPhase::Pausing, ..pointer },
            PointerActionView::Pause(15),
        ),
        ({
            let (next, action) = pointer.step(PointerReply::Paused);
            &&& next.target_x == pointer.target_x && next.target_y == pointer.target_y
            &&& next.motions == pointer.motions + 1
            &&& pointer.motions < 7 ==> next.phase == PointerPhase::Locating && action is Locate
            &&& pointer.motions == 7 ==> {
                let x_fits = -32768 <= pointer.target_x <= 32767;
                let y_fits = -32768 <= pointer.target_y <= 32767;
                &&& x_fits && y_fits ==> next.phase == PointerPhase::Warping && (action matches
                    PointerActionView::Warp { x, y } && x == pointer.target_x && y
                    == pointer.target_y)
                &&& !x_fits ==> next.phase == PointerPhase::Finished && action
                    == PointerActionView::Return(Err("Mouse x is out of XWayland range"@))
                &&& x_fits && !y_fits ==> next.phase == PointerPhase::Finished && action
                    == PointerActionView::Return(Err("Mouse y is out of XWayland range"@))
            }
        }),
{
}

/// A move goes on with what succeeds: once the place is known to be on the display, the
/// connection is opened; once it is, the pointer is located; once the pointer has been
/// warped, it is looked for; and it has arrived or not. The place stays the same.
pub proof fn a_move_goes_on_with_what_succeeds(pointer: PointerMove)
    requires
        pointer.motions < 8,
    ensures
        pointer.step(PointerReply::Measured(Ok(true))) == (
            PointerMove { phase: PointerPhase::Connecting, ..pointer },
            PointerActionView::Connect,
        ),
        pointer.step(PointerReply::Connected(Ok(()))) == (
            PointerMove { phase: PointerPhase::Locating, ..pointer },
            PointerActionView::Locate,
        ),
        pointer.step(PointerReply::Warped(Ok(()))) == (
            PointerMove { phase: PointerPhase::Verifying, ..pointer },
            PointerActionView::Verify,
        ),
        pointer.step(PointerReply::Arrived(Ok(true))) == (
            PointerMove { phase: PointerPhase::Finished, ..pointer },
            PointerActionView::Return(Ok(())),
        ),
{
}

/// Whatever fails ends a move, with a message that says what failed and holds the whole error.
pub proof fn a_move_ends_with_what_fails(pointer: PointerMove, e: String)
    ensures
        ({
            let end = PointerMove { phase: PointerPhase::Finished, ..pointer };
            let fails = |reply: PointerReply, message: Seq<char>|
                pointer.step(reply) == (end, PointerActionView::Return(Err(message)));
            &&& fails(
                PointerReply::Measured(Ok(false)),
                "Mouse coordinates must be finite and within the display"@,
            )
            &&& fails(
                PointerReply::Measured(Err(e)),
                "XWayland pointer geometry is unavailable: "@ + e@,
            )
            &&& fails(
                PointerReply::Connected(Err(e)),
                "Cannot connect to XWayland for absolute pointer coordinates: "@ + e@,
            )
            &&& fails(PointerReply::Offset(Err(e)), "Cannot query pointer location: "@ + e@)
            &&& fails(PointerReply::Emitted(Err(e)), "Cannot move virtual pointer: "@ + e@)
            &&& fails(
                PointerReply::Warped(Err(WarpError::Request(e))),
                "Cannot request XWayland pointer warp: "@ + e@,
            )
            &&& fails(
                PointerReply::Warped(Err(WarpError::Check(e))),
                "XWayland pointer warp failed: "@ + e@,
            )
            &&& fails(
                PointerReply::Warped(Err(WarpError::Flush(e))),
                "Cannot flush XWayland pointer warp: "@ + e@,
            )
            &&& fails(
                PointerReply::Arrived(Ok(false)),
                "Wayland pointer did not reach the requested absolute position"@,
            )
            &&& fails(PointerReply::Arrived(Err(e)), "Cannot query pointer location: "@ + e@)
        }),
{
}

/// A move takes every answer to what it has asked for; of the distances only those that have
/// no absolute value of their type are left out.
pub proof fn a_move_takes_every_answer(pointer: PointerMove, reply: PointerReply)
    requires
        match reply {
            PointerReply::Measured(_) => pointer.phase == PointerPhase::Measuring,
            PointerReply::Connected(_) => pointer.phase == PointerPhase::Connecting,
            PointerReply::Offset(Ok((dx, dy))) => pointer.phase == PointerPhase::Locating && dx
                > -0x8000_0000 && dy > -0x8000_0000,
            PointerReply::Offset(Err(_)) => pointer.phase == PointerPhase::Locating,
            PointerReply::Emitted(_) => pointer.phase == PointerPhase::Emitting,
            PointerReply::Paused => pointer.phase == PointerPhase::Pausing,
            PointerReply::Warped(_) => pointer.phase == PointerPhase::Warping,
            PointerReply::Arrived(_) => pointer.phase == PointerPhase::Verifying,
        },
    ensures
        pointer.accepts(reply),
{
}

/// What is said of an action is all that it holds.
pub proof fn pointer_actions_are_shown_whole(action: PointerAction)
    ensures
        match action {
            PointerAction::Connect => action@ is Connect,
            PointerAction::Locate => action@ is Locate,
            PointerAction::Emit(events) => action@ == PointerActionView::Emit(events@),
            PointerAction::Pause(length) => action@ == PointerActionView::Pause(length),
            PointerAction::Warp { x, y } => action@ == (PointerActionView::Warp { x, y }),
            PointerAction::Verify => action@ is Verify,
            PointerAction::Return(Ok(())) => action@ == PointerActionView::Return(Ok(())),
            PointerAction::Return(Err(message)) => action@ == PointerActionView::Return(
                Err(message@),
            ),
        },
{
}

/// A move may be anywhere, as long as it has made no more motions than it may, and has one left
/// while it is making them.
pub proof fn any_place_can_be_moved_to(pointer: PointerMove)
    requires
        pointer.motions < 8 || pointer.motions == 8 && pointer.phase != PointerPhase::Locating
            && pointer.phase != PointerPhase::Emitting && pointer.phase != PointerPhase::Pausing,
    ensures
        pointer.wf(),
{
}

} // verus!
