//! Logical desktop bounds from what the compositor's xdg-output protocol reports.

use crate::text::join;
use std::collections::HashMap;
use vstd::std_specs::hash::*;
use vstd::std_specs::iter::IteratorSpec;
use vstd::prelude::*;

verus! {

/// What the compositor has said so far of one output.
#[derive(Clone, Copy, Debug, PartialEq, Eq)]
pub struct OutputInfo {
    pub position: Option<(i32, i32)>,
    pub size: Option<(i32, i32)>,
}

impl OutputInfo {
    /// The output takes part in the desktop: its place is known, and it covers an area.
    pub open spec fn usable(self) -> bool {
        &&& self.position is Some
        &&& self.size matches Some((width, height)) && width > 0 && height > 0
    }

    pub open spec fn left(self) -> int {
        (self.position->0).0 as int
    }

    pub open spec fn top(self) -> int {
        (self.position->0).1 as int
    }

    pub open spec fn right(self) -> int {
        self.left() + (self.size->0).0
    }

    pub open spec fn bottom(self) -> int {
        self.top() + (self.size->0).1
    }
}

/// The edges of a rectangle.
pub struct Bounds {
    pub left: int,
    pub top: int,
    pub right: int,
    pub bottom: int,
}

impl Bounds {
    /// The rectangle covers the output.
    pub open spec fn covers(self, info: OutputInfo) -> bool {
        &&& self.left <= info.left()
        &&& self.top <= info.top()
        &&& info.right() <= self.right
        &&& info.bottom() <= self.bottom
    }

    /// The rectangle covers every usable output among `outputs`, and each of its edges
    /// is the edge of one of them: it is the smallest that covers them all.
    pub open spec fn spans(self, outputs: Set<OutputInfo>) -> bool {
        &&& forall|info: OutputInfo| #[trigger]
            outputs.contains(info) && info.usable() ==> self.covers(info)
        &&& exists|info: OutputInfo| #[trigger]
            outputs.contains(info) && info.usable() && info.left() == self.left
        &&& exists|info: OutputInfo| #[trigger]
            outputs.contains(info) && info.usable() && info.top() == self.top
        &&& exists|info: OutputInfo| #[trigger]
            outputs.contains(info) && info.usable() && info.right() == self.right
        &&& exists|info: OutputInfo| #[trigger]
            outputs.contains(info) && info.usable() && info.bottom() == self.bottom
    }
}

/// Some output among `outputs` is usable.
pub open spec fn any_usable(outputs: Set<OutputInfo>) -> bool {
    exists|info: OutputInfo| #[trigger] outputs.contains(info) && info.usable()
}

/// `r` is the size of the rectangle that the usable outputs span, or, where there are
/// none, the message that says so.
pub open spec fn is_desktop_size(
    outputs: Map<u32, OutputInfo>,
    r: Result<(u64, u64), String>,
) -> bool {
    match r {
        Ok((width, height)) => exists|b: Bounds| #[trigger]
            b.spans(outputs.values()) && width == b.right - b.left && height == b.bottom - b.top,
        Err(e) => !any_usable(outputs.values()) && e@
            == "No logical Wayland outputs were reported"@,
    }
}

/// Outputs span at most one rectangle: the size of a desktop depends on its outputs
/// alone, not on the order in which they are looked at.
pub proof fn spanned_rectangle_is_unique(a: Bounds, b: Bounds, outputs: Set<OutputInfo>)
    requires
        a.spans(outputs),
        b.spans(outputs),
    ensures
        a == b,
{
    lemma_spans_within(a, b, outputs);
    lemma_spans_within(b, a, outputs);
}

/// An output of which the place is unknown, or which covers no area, does not change
/// the desktop.
pub proof fn unusable_outputs_do_not_count(b: Bounds, outputs: Set<OutputInfo>, info: OutputInfo)
    requires
        !info.usable(),
    ensures
        any_usable(outputs.insert(info)) == any_usable(outputs),
        b.spans(outputs.insert(info)) == b.spans(outputs),
{
    let all = outputs.insert(info);
    assert forall|o: OutputInfo| outputs.contains(o) && o.usable() <==> #[trigger] all.contains(o)
        && o.usable() by {}
    if b.spans(outputs) {
        lemma_same_usable(b, outputs, all);
    }
    if b.spans(all) {
        lemma_same_usable(b, all, outputs);
    }
    if any_usable(outputs) {
        let o = choose|o: OutputInfo| #[trigger] outputs.contains(o) && o.usable();
        assert(all.contains(o));
    }
    if any_usable(all) {
        let o = choose|o: OutputInfo| #[trigger] all.contains(o) && o.usable();
        assert(outputs.contains(o));
    }
}

/// A desktop never shrinks when an output is added to it.
pub proof fn desktop_grows_with_its_outputs(
    small: Bounds,
    outputs: Set<OutputInfo>,
    large: Bounds,
    more: Set<OutputInfo>,
)
    requires
        small.spans(outputs),
        large.spans(more),
        outputs.subset_of(more),
    ensures
        large.right - large.left >= small.right - small.left,
        large.bottom - large.top >= small.bottom - small.top,
{
    let (l, t, r, u) = lemma_edge_outputs(small, outputs);
    assert(more.contains(l) && more.contains(t) && more.contains(r) && more.contains(u));
}

/// `other` is the output `info`, moved by `dx` and `dy`.
pub open spec fn is_moved(info: OutputInfo, other: OutputInfo, dx: int, dy: int) -> bool {
    &&& other.size == info.size
    &&& other.position is Some <==> info.position is Some
    &&& info.position is Some ==> other.left() == info.left() + dx && other.top() == info.top() + dy
}

/// A desktop keeps its size when all of its outputs are moved together.
pub proof fn moving_the_desktop_keeps_its_size(
    outputs: Map<u32, OutputInfo>,
    moved: Map<u32, OutputInfo>,
    dx: int,
    dy: int,
    r: Result<(u64, u64), String>,
)
    requires
        outputs.dom() == moved.dom(),
        forall|name: u32| #[trigger]
            outputs.contains_key(name) ==> is_moved(outputs[name], moved[name], dx, dy),
        is_desktop_size(outputs, r),
    ensures
        is_desktop_size(moved, r),
{
    assert forall|other: OutputInfo| #[trigger] moved.values().contains(other) implies exists|
        info: OutputInfo,
    | #[trigger] outputs.values().contains(info) && is_moved(info, other, dx, dy) by {
        let name = choose|name: u32| #[trigger] moved.contains_key(name) && moved[name] == other;
        assert(outputs.contains_key(name));
        assert(outputs.values().contains(outputs[name]));
    }
    match r {
        Ok((width, height)) => {
            let b = choose|b: Bounds| #[trigger]
                b.spans(outputs.values()) && width == b.right - b.left && height == b.bottom
                    - b.top;
            let shifted = Bounds {
                left: b.left + dx,
                top: b.top + dy,
                right: b.right + dx,
                bottom: b.bottom + dy,
            };
            let (l, t, r, u) = lemma_edge_outputs(b, outputs.values());
            lemma_moved_output(outputs, moved, dx, dy, l);
            lemma_moved_output(outputs, moved, dx, dy, t);
            lemma_moved_output(outputs, moved, dx, dy, r);
            lemma_moved_output(outputs, moved, dx, dy, u);
            assert(shifted.spans(moved.values()));
        },
        Err(_) => {},
    }
}

/// What an output has become when all outputs have been moved together.
proof fn lemma_moved_output(
    outputs: Map<u32, OutputInfo>,
    moved: Map<u32, OutputInfo>,
    dx: int,
    dy: int,
    info: OutputInfo,
)
    requires
        outputs.dom() == moved.dom(),
        forall|name: u32| #[trigger]
            outputs.contains_key(name) ==> is_moved(outputs[name], moved[name], dx, dy),
        outputs.values().contains(info),
    ensures
        exists|other: OutputInfo| #[trigger]
            moved.values().contains(other) && is_moved(info, other, dx, dy),
{
    let name = choose|name: u32| #[trigger] outputs.contains_key(name) && outputs[name] == info;
    assert(moved.contains_key(name));
    assert(moved.values().contains(moved[name]));
}

/// The outputs that give the rectangle its four edges.
proof fn lemma_edge_outputs(b: Bounds, outputs: Set<OutputInfo>) -> (r: (
    OutputInfo,
    OutputInfo,
    OutputInfo,
    OutputInfo,
))
    requires
        b.spans(outputs),
    ensures
        outputs.contains(r.0) && r.0.usable() && r.0.left() == b.left,
        outputs.contains(r.1) && r.1.usable() && r.1.top() == b.top,
        outputs.contains(r.2) && r.2.usable() && r.2.right() == b.right,
        outputs.contains(r.3) && r.3.usable() && r.3.bottom() == b.bottom,
{
    (
        choose|o: OutputInfo| #[trigger]
            outputs.contains(o) && o.usable() && o.left() == b.left,
        choose|o: OutputInfo| #[trigger] outputs.contains(o) && o.usable() && o.top() == b.top,
        choose|o: OutputInfo| #[trigger]
            outputs.contains(o) && o.usable() && o.right() == b.right,
        choose|o: OutputInfo| #[trigger]
            outputs.contains(o) && o.usable() && o.bottom() == b.bottom,
    )
}

proof fn lemma_spans_within(a: Bounds, b: Bounds, outputs: Set<OutputInfo>)
    requires
        a.spans(outputs),
        b.spans(outputs),
    ensures
        a.left <= b.left,
        a.top <= b.top,
        b.right <= a.right,
        b.bottom <= a.bottom,
{
    let (l, t, r, u) = lemma_edge_outputs(b, outputs);
    assert(a.covers(l) && a.covers(t) && a.covers(r) && a.covers(u));
}

proof fn lemma_same_usable(b: Bounds, outputs: Set<OutputInfo>, others: Set<OutputInfo>)
    requires
        b.spans(outputs),
        forall|o: OutputInfo|
            outputs.contains(o) && o.usable() <==> #[trigger] others.contains(o) && o.usable(),
    ensures
        b.spans(others),
{
    let (l, t, r, u) = lemma_edge_outputs(b, outputs);
    assert(others.contains(l) && others.contains(t) && others.contains(r) && others.contains(u));
}

/// The edges that have been found so far, as a rectangle.
spec fn edges(b: (i64, i64, i64, i64)) -> Bounds {
    Bounds { left: b.0 as int, top: b.1 as int, right: b.2 as int, bottom: b.3 as int }
}

/// `bounds` is what the usable outputs among `seen` span, if there are any.
spec fn found(bounds: Option<(i64, i64, i64, i64)>, seen: Set<OutputInfo>) -> bool {
    match bounds {
        Some(b) => edges(b).spans(seen),
        None => !any_usable(seen),
    }
}

/// The edges of `bounds`, moved as far as it takes to cover `info` as well.
fn widen(bounds: Option<(i64, i64, i64, i64)>, info: &OutputInfo) -> (r: Option<
    (i64, i64, i64, i64),
>)
    ensures
        forall|seen: Set<OutputInfo>|
            found(bounds, seen) ==> #[trigger] found(r, seen.insert(*info)),
{
    if let (Some((x, y)), Some((width, height))) = (info.position, info.size) {
        if width > 0 && height > 0 {
            let right: i64 = x as i64 + width as i64;
            let bottom: i64 = y as i64 + height as i64;
            let x: i64 = x as i64;
            let y: i64 = y as i64;
            let r: (i64, i64, i64, i64) = match bounds {
                Some((left, top, old_right, old_bottom)) => (
                    if left < x { left } else { x },
                    if top < y { top } else { y },
                    if old_right > right { old_right } else { right },
                    if old_bottom > bottom { old_bottom } else { bottom },
                ),
                None => (x, y, right, bottom),
            };
            assert forall|seen: Set<OutputInfo>| found(bounds, seen) implies #[trigger] found(
                Some(r),
                seen.insert(*info),
            ) by {
                lemma_widened(bounds, r, *info, seen);
            }
            return Some(r);
        }
    }
    assert forall|seen: Set<OutputInfo>| found(bounds, seen) implies #[trigger] found(
        bounds,
        seen.insert(*info),
    ) by {
        if bounds is Some {
            unusable_outputs_do_not_count(edges(bounds->0), seen, *info);
        } else {
            unusable_outputs_do_not_count(arbitrary(), seen, *info);
        }
    }
    bounds
}

proof fn lemma_widened(
    bounds: Option<(i64, i64, i64, i64)>,
    wide: (i64, i64, i64, i64),
    info: OutputInfo,
    seen: Set<OutputInfo>,
)
    requires
        found(bounds, seen),
        info.usable(),
        bounds matches Some(b) ==> {
            &&& wide.0 == if b.0 < info.left() { b.0 as int } else { info.left() }
            &&& wide.1 == if b.1 < info.top() { b.1 as int } else { info.top() }
            &&& wide.2 == if b.2 > info.right() { b.2 as int } else { info.right() }
            &&& wide.3 == if b.3 > info.bottom() { b.3 as int } else { info.bottom() }
        },
        bounds is None ==> edges(wide) == (Bounds {
            left: info.left(),
            top: info.top(),
            right: info.right(),
            bottom: info.bottom(),
        }),
    ensures
        edges(wide).spans(seen.insert(info)),
{
    let all = seen.insert(info);
    assert(all.contains(info));
    if bounds is Some {
        let (l, t, r, u) = lemma_edge_outputs(edges(bounds->0), seen);
        assert(all.contains(l) && all.contains(t) && all.contains(r) && all.contains(u));
    }
}

proof fn lemma_push_to_set(infos: Seq<OutputInfo>, info: OutputInfo)
    ensures
        infos.push(info).to_set() == infos.to_set().insert(info),
{
    let all = infos.push(info);
    assert forall|other: OutputInfo| all.contains(other) <==> infos.to_set().insert(info).contains(
        other,
    ) by {
        if infos.contains(other) {
            assert(all[infos.index_of(other)] == other);
        }
        assert(all[infos.len() as int] == info);
    }
    assert(all.to_set() =~= infos.to_set().insert(info));
}

/// What outputs span is no larger than what their coordinates allow.
proof fn lemma_spanned(b: Bounds, outputs: Set<OutputInfo>)
    requires
        b.spans(outputs),
    ensures
        any_usable(outputs),
        i32::MIN <= b.left < b.right <= 2 * i32::MAX,
        i32::MIN <= b.top < b.bottom <= 2 * i32::MAX,
{
    let (l, t, r, u) = lemma_edge_outputs(b, outputs);
    assert(b.covers(l) && b.covers(t) && b.covers(r) && b.covers(u));
}

/// The size of the smallest rectangle that covers all usable outputs.
pub fn desktop_size(outputs: &HashMap<u32, OutputInfo>) -> (r: Result<(u64, u64), String>)
    ensures
        is_desktop_size(outputs@, r),
{
    broadcast use vstd::std_specs::hash::group_hash_axioms;

    let mut bounds: Option<(i64, i64, i64, i64)> = None;
    for info in iter: outputs.values()
        invariant
            found(bounds, iter.seq().unref().take(iter.index() as int).to_set()),
    {
        let ghost infos = iter.seq().unref();
        let ghost i = iter.index() as int;
        bounds = widen(bounds, info);
        assert(infos.take(i + 1) =~= infos.take(i).push(*info));
        proof {
            lemma_push_to_set(infos.take(i), *info);
        }
    }
    proof {
        let infos = spec_values_iter(outputs).remaining().unref();
        assert(infos.take(infos.len() as int) =~= infos);
        assert(found(bounds, outputs@.values()));
    }
    match bounds {
        Some((left, top, right, bottom)) => {
            proof {
                lemma_spanned(edges(bounds->0), outputs@.values());
            }
            Ok(((right - left) as u64, (bottom - top) as u64))
        },
        None => Err("No logical Wayland outputs were reported".to_owned()),
    }
}

/// What the compositor reports of one output.
#[derive(Clone, Copy, Debug, PartialEq, Eq)]
pub enum LogicalEvent {
    Position { x: i32, y: i32 },
    Size { width: i32, height: i32 },
    Other,
}

impl OutputInfo {
    /// Nothing is known of the output.
    pub open spec fn unknown() -> Self {
        OutputInfo { position: None, size: None }
    }

    /// What is known once the compositor has reported `event`.
    pub open spec fn after(self, event: LogicalEvent) -> Self {
        match event {
            LogicalEvent::Position { x, y } => OutputInfo { position: Some((x, y)), ..self },
            LogicalEvent::Size { width, height } => OutputInfo {
                size: Some((width, height)),
                ..self
            },
            LogicalEvent::Other => self,
        }
    }
}

/// It does not matter in which order the compositor reports the place and the size of
/// an output, and of two reports of one kind the later counts.
pub proof fn reports_settle(info: OutputInfo, x: i32, y: i32, width: i32, height: i32)
    ensures
        ({
            let place = LogicalEvent::Position { x, y };
            let size = LogicalEvent::Size { width, height };
            &&& info.after(place).after(size) == info.after(size).after(place)
            &&& forall|x0: i32, y0: i32| #[trigger]
                info.after(LogicalEvent::Position { x: x0, y: y0 }).after(place) == info.after(
                    place,
                )
            &&& forall|w0: i32, h0: i32| #[trigger]
                info.after(LogicalEvent::Size { width: w0, height: h0 }).after(size)
                    == info.after(size)
        }),
{
}

/// What has been learnt from the compositor: `M` is the handle of the xdg-output
/// manager, `O` that of an output.
pub struct OutputState<M, O> {
    pub manager: Option<M>,
    pub outputs: Vec<(u32, O)>,
    pub logical: HashMap<u32, OutputInfo>,
}

/// The newest version of the xdg-output manager that is asked for.
pub const MANAGER_VERSION: u32 = 3;

/// The newest version of an output that is asked for.
pub const OUTPUT_VERSION: u32 = 4;

/// `version`, or `newest` where that is older.
pub open spec fn at_most(version: u32, newest: u32) -> u32 {
    if version < newest {
        version
    } else {
        newest
    }
}

impl<M, O> OutputState<M, O> {
    pub fn new() -> (r: Self)
        ensures
            r.manager is None,
            r.outputs@ == Seq::<(u32, O)>::empty(),
            r.logical@ == Map::<u32, OutputInfo>::empty(),
    {
        OutputState { manager: None, outputs: Vec::new(), logical: HashMap::new() }
    }

    /// The compositor advertises the global `name`. The xdg-output manager and the
    /// outputs are bound, in a version that is known here; all else is left alone.
    pub fn registry_event<F: FnOnce(u32) -> M, G: FnOnce(u32) -> O>(
        &mut self,
        name: u32,
        interface: &String,
        version: u32,
        bind_manager: F,
        bind_output: G,
    )
        requires
            interface@ == "zxdg_output_manager_v1"@ ==> bind_manager.requires(
                (at_most(version, MANAGER_VERSION),),
            ),
            interface@ == "wl_output"@ ==> bind_output.requires(
                (at_most(version, OUTPUT_VERSION),),
            ),
        ensures
            final(self).logical == old(self).logical,
            interface@ == "zxdg_output_manager_v1"@ ==> {
                &&& final(self).manager matches Some(m) && bind_manager.ensures(
                    (at_most(version, MANAGER_VERSION),),
                    m,
                )
                &&& final(self).outputs == old(self).outputs
            },
            interface@ == "wl_output"@ ==> {
                &&& final(self).manager == old(self).manager
                &&& exists|output: O| #[trigger]
                    bind_output.ensures((at_most(version, OUTPUT_VERSION),), output)
                        && final(self).outputs@ == old(self).outputs@.push((name, output))
            },
            interface@ != "zxdg_output_manager_v1"@ && interface@ != "wl_output"@ ==> *final(self)
                == *old(self),
    {
        proof {
            reveal_strlit("zxdg_output_manager_v1");
            reveal_strlit("wl_output");
            assert("zxdg_output_manager_v1"@.len() != "wl_output"@.len());
        }
        if *interface == "zxdg_output_manager_v1".to_owned() {
            let bound = bind_manager(
                if version < MANAGER_VERSION {
                    version
                } else {
                    MANAGER_VERSION
                },
            );
            self.manager = Some(bound);
        } else if *interface == "wl_output".to_owned() {
            let bound = bind_output(
                if version < OUTPUT_VERSION {
                    version
                } else {
                    OUTPUT_VERSION
                },
            );
            self.outputs.push((name, bound));
        }
    }

    /// The compositor reports `event` of the output `name`.
    pub fn logical_event(&mut self, name: u32, event: LogicalEvent)
        ensures
            final(self).manager == old(self).manager,
            final(self).outputs == old(self).outputs,
            final(self).logical@ == old(self).logical@.insert(
                name,
                (match old(self).logical@.get(name) {
                    Some(info) => info,
                    None => OutputInfo::unknown(),
                }).after(event),
            ),
            final(self).logical@.contains_key(name),
            event matches LogicalEvent::Position { x, y } ==> {
                &&& final(self).logical@[name].position == Some((x, y))
                &&& old(self).logical@.contains_key(name) ==> final(self).logical@[name].size
                    == old(self).logical@[name].size
                &&& !old(self).logical@.contains_key(name) ==> final(self).logical@[name].size
                    is None
            },
            event matches LogicalEvent::Size { width, height } ==> {
                &&& final(self).logical@[name].size == Some((width, height))
                &&& old(self).logical@.contains_key(name) ==> final(self).logical@[name].position
                    == old(self).logical@[name].position
                &&& !old(self).logical@.contains_key(name) ==> final(self).logical@[name].position
                    is None
            },
            forall|other: u32|
                other != name ==> {
                    &&& #[trigger] final(self).logical@.contains_key(other) <==> old(
                        self,
                    ).logical@.contains_key(other)
                    &&& old(self).logical@.contains_key(other) ==> final(self).logical@[other]
                        == old(self).logical@[other]
                },
    {
        broadcast use vstd::std_specs::hash::group_hash_axioms;

        let known: OutputInfo = match self.logical.get(&name) {
            Some(info) => *info,
            None => OutputInfo { position: None, size: None },
        };
        let info = match event {
            LogicalEvent::Position { x, y } => OutputInfo {
                position: Some((x, y)),
                size: known.size,
            },
            LogicalEvent::Size { width, height } => OutputInfo {
                position: known.position,
                size: Some((width, height)),
            },
            LogicalEvent::Other => known,
        };
        self.logical.insert(name, info);
    }
}

/// How far a query for the size of the display has come: what it waits for.
#[derive(Clone, Copy, Debug, PartialEq, Eq, Structural)]
pub enum DisplayPhase {
    /// The connection to the compositor.
    Connecting,
    /// The globals of the compositor.
    ReadingRegistry,
    /// The request for what is to be known of an output.
    Asking,
    /// All that is said of the outputs.
    ReadingGeometry,
    /// Nothing: it has returned.
    Finished,
}

/// A query for the size of the display: `asked` is the index of the output that is being
/// asked for.
pub struct DisplayQuery<M, O> {
    pub phase: DisplayPhase,
    pub asked: usize,
    pub state: OutputState<M, O>,
}

/// What is to be done next for a query.
#[derive(Debug, PartialEq, Eq)]
pub enum DisplayAction {
    /// Ask for the registry, and wait until all of its globals have been handed to
    /// [`OutputState::registry_event`].
    ReadRegistry,
    /// Ask the manager for the output with this index: what is said of it is to be reported
    /// under this name.
    AskOutput { index: usize, name: u32 },
    /// Wait until all that is said of the outputs has been handed to
    /// [`OutputState::logical_event`].
    ReadGeometry,
    /// Return the result.
    Return(Result<(u64, u64), String>),
}

/// The query ends with `message`.
pub open spec fn ends_with(action: DisplayAction, message: Seq<char>) -> bool {
    action matches DisplayAction::Return(Err(e)) && e@ == message
}

/// What a query asks for once it has asked for the first `count` of `outputs`: for the next
/// one, or, where there is none, for what is said of them.
pub open spec fn ask_after<O>(outputs: Seq<(u32, O)>, count: int) -> DisplayAction {
    if count < outputs.len() {
        DisplayAction::AskOutput { index: count as usize, name: outputs[count].0 }
    } else {
        DisplayAction::ReadGeometry
    }
}

/// `action` is what `query` asks for next, after the answer `reply`.
pub open spec fn follows<M, O>(
    query: DisplayQuery<M, O>,
    reply: Result<(), String>,
    action: DisplayAction,
) -> bool {
    match (query.phase, reply) {
        (DisplayPhase::Connecting, Ok(())) => action is ReadRegistry,
        (DisplayPhase::Connecting, Err(e)) => ends_with(
            action,
            "Cannot connect to Wayland: "@ + e@,
        ),
        (DisplayPhase::ReadingRegistry, Ok(())) => if query.state.manager is Some {
            action == ask_after(query.state.outputs@, 0)
        } else {
            ends_with(action, "The compositor does not advertise xdg-output"@)
        },
        (DisplayPhase::ReadingRegistry, Err(e)) => ends_with(
            action,
            "Cannot read Wayland outputs: "@ + e@,
        ),
        (DisplayPhase::Asking, _) => action == ask_after(
            query.state.outputs@,
            query.asked + 1,
        ),
        (DisplayPhase::ReadingGeometry, Ok(())) => action matches DisplayAction::Return(size)
            && is_desktop_size(query.state.logical@, size),
        (DisplayPhase::ReadingGeometry, Err(e)) => ends_with(
            action,
            "Cannot read Wayland output geometry: "@ + e@,
        ),
        (DisplayPhase::Finished, _) => false,
    }
}

impl<M, O> DisplayQuery<M, O> {
    /// The query waits for an answer such as `reply`: asking for an output cannot fail.
    pub open spec fn accepts(self, reply: Result<(), String>) -> bool {
        &&& self.phase != DisplayPhase::Finished
        &&& self.phase == DisplayPhase::Asking ==> reply is Ok
    }

    /// The output that is being asked for is there, and so is the manager that is asked.
    pub open spec fn wf(self) -> bool {
        &&& self.phase == DisplayPhase::Asking ==> self.asked < self.state.outputs.len()
        &&& self.phase == DisplayPhase::Asking || self.phase == DisplayPhase::ReadingGeometry
            ==> self.state.manager is Some
    }

    /// The query has asked for `action`.
    pub open spec fn has_asked(self, action: DisplayAction) -> bool {
        match action {
            DisplayAction::ReadRegistry => self.phase == DisplayPhase::ReadingRegistry,
            DisplayAction::AskOutput { index, .. } => self.phase == DisplayPhase::Asking
                && self.asked == index,
            DisplayAction::ReadGeometry => self.phase == DisplayPhase::ReadingGeometry,
            DisplayAction::Return(_) => self.phase == DisplayPhase::Finished,
        }
    }

    /// A query that waits for the connection to the compositor.
    pub fn new() -> (r: Self)
        ensures
            r.wf(),
            r.phase == DisplayPhase::Connecting,
            r.state.manager is None,
            r.state.outputs@ == Seq::<(u32, O)>::empty(),
            r.state.logical@ == Map::<u32, OutputInfo>::empty(),
    {
        DisplayQuery { phase: DisplayPhase::Connecting, asked: 0, state: OutputState::new() }
    }

    fn ask(&mut self, index: usize) -> (r: DisplayAction)
        requires
            old(self).state.manager is Some,
            index <= old(self).state.outputs.len(),
        ensures
            final(self).wf(),
            final(self).state == old(self).state,
            r == ask_after(old(self).state.outputs@, index as int),
            final(self).has_asked(r),
    {
        if index < self.state.outputs.len() {
            self.phase = DisplayPhase::Asking;
            self.asked = index;
            DisplayAction::AskOutput { index, name: self.state.outputs[index].0 }
        } else {
            self.phase = DisplayPhase::ReadingGeometry;
            DisplayAction::ReadGeometry
        }
    }

    fn give_up(&mut self, message: String) -> (r: DisplayAction)
        ensures
            final(self).wf(),
            final(self).state == old(self).state,
            ends_with(r, message@),
            final(self).has_asked(r),
    {
        self.phase = DisplayPhase::Finished;
        DisplayAction::Return(Err(message))
    }
}

/// Takes a query for the size of the display one step further: `reply` says how what it
/// waited for has ended.
pub fn display_size<M, O>(query: &mut DisplayQuery<M, O>, reply: Result<(), String>) -> (r:
    DisplayAction)
    requires
        old(query).wf(),
        old(query).accepts(reply),
    ensures
        final(query).wf(),
        final(query).state == old(query).state,
        final(query).has_asked(r),
        follows(*old(query), reply, r),
{
    match reply {
        Err(e) => {
            let context: &str = match query.phase {
                DisplayPhase::Connecting => "Cannot connect to Wayland: ",
                DisplayPhase::ReadingRegistry => "Cannot read Wayland outputs: ",
                _ => "Cannot read Wayland output geometry: ",
            };
            query.give_up(join(context, e.as_str()))
        },
        Ok(()) => match query.phase {
            DisplayPhase::Connecting => {
                query.phase = DisplayPhase::ReadingRegistry;
                DisplayAction::ReadRegistry
            },
            DisplayPhase::ReadingRegistry => {
                if query.state.manager.is_some() {
                    query.ask(0)
                } else {
                    query.give_up("The compositor does not advertise xdg-output".to_owned())
                }
            },
            DisplayPhase::Asking => query.ask(query.asked + 1),
            _ => {
                query.phase = DisplayPhase::Finished;
                DisplayAction::Return(desktop_size(&query.state.logical))
            },
        },
    }
}

/// Once the globals are known, and there is a manager among them, every output is asked for,
/// each once and in order, and reported under its own name; what is said of them is waited
/// for after that, and not before. `queries` is the query after each of these steps, and
/// `actions` what it asks for.
pub proof fn every_output_is_asked_for<M, O>(
    queries: Seq<DisplayQuery<M, O>>,
    actions: Seq<DisplayAction>,
    n: int,
)
    requires
        queries.len() == actions.len() + 1,
        queries[0].phase == DisplayPhase::ReadingRegistry,
        queries[0].state.manager is Some,
        forall|i: int|
            0 <= i < actions.len() ==> {
                &&& follows(queries[i], Ok(()), #[trigger] actions[i])
                &&& queries[i + 1].has_asked(actions[i])
                &&& queries[i + 1].state == queries[i].state
            },
        0 <= n < actions.len(),
        n <= queries[0].state.outputs.len(),
    ensures
        actions[n] == ask_after(queries[0].state.outputs@, n),
        queries[n + 1].state == queries[0].state,
    decreases n,
{
    if n > 0 {
        every_output_is_asked_for(queries, actions, n - 1);
        assert(actions[n - 1] is AskOutput);
        assert(queries[n].has_asked(actions[n - 1]));
        assert(follows(queries[n], Ok(()), actions[n]));
        assert(queries[n + 1].state == queries[n].state);
    } else {
        assert(follows(queries[0], Ok(()), actions[0]));
    }
}

/// The edges of an output that has a place and covers an area: left, top, right and bottom.
pub open spec fn area(info: OutputInfo) -> Option<(int, int, int, int)> {
    match (info.position, info.size) {
        (Some((x, y)), Some((width, height))) => if width > 0 && height > 0 {
            Some((x as int, y as int, x + width, y + height))
        } else {
            None
        },
        _ => None,
    }
}

/// The width of a desktop is the largest distance from the left edge of an output to the
/// right edge of one, and its height the largest from a top edge to a bottom edge: no pair of
/// outputs is further apart, and some pair is as far. There is no size if and only if no
/// output has a place and covers an area.
pub proof fn the_desktop_reaches_from_edge_to_edge(
    outputs: Map<u32, OutputInfo>,
    r: Result<(u64, u64), String>,
)
    requires
        is_desktop_size(outputs, r),
    ensures
        match r {
            Ok((width, height)) => {
                &&& forall|a: u32, b: u32|
                    outputs.contains_key(a) && outputs.contains_key(b) ==> (area(
                        #[trigger] outputs[a],
                    ) matches Some(p) ==> (area(#[trigger] outputs[b]) matches Some(q) ==> q.2
                        - p.0 <= width && q.3 - p.1 <= height))
                &&& exists|a: u32, b: u32|
                    outputs.contains_key(a) && outputs.contains_key(b) && (area(
                        #[trigger] outputs[a],
                    ) matches Some(p) && (area(#[trigger] outputs[b]) matches Some(q) && q.2 - p.0
                        == width))
                &&& exists|a: u32, b: u32|
                    outputs.contains_key(a) && outputs.contains_key(b) && (area(
                        #[trigger] outputs[a],
                    ) matches Some(p) && (area(#[trigger] outputs[b]) matches Some(q) && q.3 - p.1
                        == height))
            },
            Err(e) => {
                &&& forall|a: u32| outputs.contains_key(a) ==> area(#[trigger] outputs[a]) is None
                &&& e@ == "No logical Wayland outputs were reported"@
            },
        },
{
    assert forall|a: u32| outputs.contains_key(a) implies outputs.values().contains(
        #[trigger] outputs[a],
    ) by {}
    if let Ok((width, height)) = r {
        let b = choose|b: Bounds| #[trigger]
            b.spans(outputs.values()) && width == b.right - b.left && height == b.bottom - b.top;
        let (l, t, r, u) = lemma_edge_outputs(b, outputs.values());
        let left = choose|a: u32| #[trigger] outputs.contains_key(a) && outputs[a] == l;
        let top = choose|a: u32| #[trigger] outputs.contains_key(a) && outputs[a] == t;
        let right = choose|a: u32| #[trigger] outputs.contains_key(a) && outputs[a] == r;
        let bottom = choose|a: u32| #[trigger] outputs.contains_key(a) && outputs[a] == u;
        assert(outputs.contains_key(left) && outputs.contains_key(right));
        assert(outputs.contains_key(top) && outputs.contains_key(bottom));
        assert(area(outputs[left]) is Some && area(outputs[right]) is Some);
        assert(area(outputs[top]) is Some && area(outputs[bottom]) is Some);
    }
}

/// What is reported of an output is kept as it is reported, be it negative or not, and what
/// was reported of it before is kept besides. Of an output that nothing was reported of,
/// nothing is known.
pub proof fn reports_are_kept_as_they_are(info: OutputInfo, a: i32, b: i32)
    ensures
        info.after(LogicalEvent::Position { x: a, y: b }).position == Some((a, b)),
        info.after(LogicalEvent::Position { x: a, y: b }).size == info.size,
        info.after(LogicalEvent::Size { width: a, height: b }).size == Some((a, b)),
        info.after(LogicalEvent::Size { width: a, height: b }).position == info.position,
        info.after(LogicalEvent::Other) == info,
        OutputInfo::unknown().position is None,
        OutputInfo::unknown().size is None,
{
}

/// An object is asked for in the newest version that both sides know.
pub proof fn versions_are_known_to_both_sides(version: u32, newest: u32)
    ensures
        at_most(version, newest) <= version,
        at_most(version, newest) <= newest,
        at_most(version, newest) == version || at_most(version, newest) == newest,
{
}

/// What a query asks for next follows from what it waited for and how that ended: it goes on
/// from the connection to the globals, from them to the outputs, one by one, and from these to
/// what is said of them; whatever fails ends it, with a message that holds the whole error.
pub proof fn a_query_goes_on_step_by_step<M, O>(
    query: DisplayQuery<M, O>,
    reply: Result<(), String>,
    action: DisplayAction,
)
    requires
        follows(query, reply, action),
    ensures
        ({
            let outputs = query.state.outputs@;
            match (query.phase, reply) {
                (DisplayPhase::Connecting, Ok(())) => action is ReadRegistry,
                (DisplayPhase::ReadingRegistry, Ok(())) => {
                    &&& query.state.manager is None ==> (action matches DisplayAction::Return(
                        Err(message),
                    ) && message@ == "The compositor does not advertise xdg-output"@)
                    &&& query.state.manager is Some && outputs.len() == 0 ==> action
                        is ReadGeometry
                    &&& query.state.manager is Some && outputs.len() > 0 ==> (action matches
                        DisplayAction::AskOutput { index, name } && index == 0 && name
                        == outputs[0].0)
                },
                (DisplayPhase::Asking, _) => if query.asked + 1 >= outputs.len() {
                    action is ReadGeometry
                } else {
                    action matches DisplayAction::AskOutput { index, name } && index == query.asked
                        + 1 && name == outputs[query.asked + 1].0
                },
                (DisplayPhase::ReadingGeometry, Ok(())) => action matches DisplayAction::Return(
                    size,
                ) && is_desktop_size(query.state.logical@, size),
                (DisplayPhase::Connecting, Err(e)) => action matches DisplayAction::Return(
                    Err(message),
                ) && message@ == "Cannot connect to Wayland: "@ + e@,
                (DisplayPhase::ReadingRegistry, Err(e)) => action matches DisplayAction::Return(
                    Err(message),
                ) && message@ == "Cannot read Wayland outputs: "@ + e@,
                (DisplayPhase::ReadingGeometry, Err(e)) => action matches DisplayAction::Return(
                    Err(message),
                ) && message@ == "Cannot read Wayland output geometry: "@ + e@,
                (DisplayPhase::Finished, _) => false,
            }
        }),
{
    assert(query.state.outputs.len() == query.state.outputs@.len());
}

/// A query waits for what it has asked for, and takes every answer to it.
pub proof fn a_query_waits_for_what_it_asked<M, O>(
    query: DisplayQuery<M, O>,
    action: DisplayAction,
    reply: Result<(), String>,
)
    requires
        query.has_asked(action),
    ensures
        action is ReadRegistry ==> query.phase == DisplayPhase::ReadingRegistry,
        action is ReadGeometry ==> query.phase == DisplayPhase::ReadingGeometry,
        action is Return ==> query.phase == DisplayPhase::Finished,
        action matches DisplayAction::AskOutput { index, .. } ==> query.phase
            == DisplayPhase::Asking && query.asked == index,
        action is ReadRegistry || action is ReadGeometry ==> query.accepts(reply),
        action is AskOutput ==> query.accepts(Ok(())),
{
}

/// A query may have been told of any globals and of any outputs, as long as the output that it
/// is asking for is there, and the manager that it asks.
pub proof fn any_outputs_can_be_asked_for<M, O>(query: DisplayQuery<M, O>)
    requires
        query.phase == DisplayPhase::Asking ==> query.asked < query.state.outputs@.len(),
        query.phase == DisplayPhase::Asking || query.phase == DisplayPhase::ReadingGeometry
            ==> query.state.manager is Some,
    ensures
        query.wf(),
{
}

} // verus!
