//! The one listener that a process may have.

use crate::text;
use crate::text::join;
use vstd::prelude::*;

verus! {

/// A listener that has been started: `E` takes its events, `R` its failure.
pub struct ListenerState<E, R> {
    pub generation: u64,
    pub events: E,
    pub errors: Option<R>,
}

/// The place for the listener.
///
/// Each listener has a generation of its own, by which its native thread knows whether it
/// is still the active one. The thread may outlive the listener: `native_running` tells
/// whether there is one.
pub struct ListenerSlot<E, R> {
    pub next_generation: u64,
    pub native_running: bool,
    pub active: Option<ListenerState<E, R>>,
}

/// The generation after `generation`.
pub open spec fn next_after(generation: u64) -> u64 {
    if generation == u64::MAX {
        0
    } else {
        (generation + 1) as u64
    }
}

impl<E, R> Default for ListenerSlot<E, R> {
    fn default() -> (r: Self)
        ensures
            r.next_generation == 0,
            !r.native_running,
            r.active is None,
    {
        ListenerSlot { next_generation: 0, native_running: false, active: None }
    }
}

impl<E, R> ListenerSlot<E, R> {
    /// An active listener has a native thread, and is the latest that was started.
    pub open spec fn wf(self) -> bool {
        self.active matches Some(state) ==> self.native_running && next_after(state.generation)
            == self.next_generation
    }

    /// The active listener has the generation `generation`.
    pub open spec fn is_current(self, generation: u64) -> bool {
        self.active matches Some(state) && state.generation == generation
    }

    /// Why a listener cannot be started now, if so.
    pub open spec fn refusal(self) -> Option<Seq<char>> {
        if self.active is Some {
            Some("Listener is already running."@)
        } else if self.native_running {
            Some(
                "The native listener is still running; rdev cannot restart it after stopListener()."@,
            )
        } else {
            None
        }
    }

    /// A generation has been given away.
    pub open spec fn reserved(self) -> Self {
        ListenerSlot { next_generation: next_after(self.next_generation), ..self }
    }

    /// A native thread has been started.
    pub open spec fn spawned(self) -> Self {
        ListenerSlot { native_running: true, ..self }
    }

    /// A listener has been started.
    pub open spec fn activated(self, state: ListenerState<E, R>) -> Self {
        ListenerSlot { active: Some(state), ..self }
    }

    /// The listener has been detached, if there was one.
    pub open spec fn detached(self) -> Self {
        ListenerSlot { active: None, ..self }
    }

    /// The native thread of the generation `generation` has ended. It takes its listener
    /// with it, if that is still the active one.
    pub open spec fn exited(self, generation: u64) -> Self {
        if !self.native_running {
            self
        } else if self.is_current(generation) {
            ListenerSlot { native_running: false, ..self.detached() }
        } else {
            ListenerSlot { native_running: false, ..self }
        }
    }

    /// What a start that is not refused comes to, where `spawned` says how starting the
    /// native thread ended.
    pub open spec fn started(
        self,
        events: E,
        errors: Option<R>,
        spawned: Result<(), String>,
    ) -> (Self, Result<(), Seq<char>>) {
        match spawned {
            Ok(()) => (
                self.reserved().spawned().activated(
                    ListenerState { generation: self.next_generation, events, errors },
                ),
                Ok(()),
            ),
            Err(e) => (self.reserved(), Err(spawn_message(e@))),
        }
    }
}

/// The message for a native thread that cannot be started.
pub open spec fn spawn_message(e: Seq<char>) -> Seq<char> {
    "Failed to spawn listener thread: "@ + e
}

/// Tells whether a listener may be started now.
pub fn may_start<E, R>(slot: &ListenerSlot<E, R>) -> (r: Result<(), String>)
    ensures
        text::told(r) == match slot.refusal() {
            Some(message) => Err(message),
            None => Ok::<(), Seq<char>>(()),
        },
{
    if slot.active.is_some() {
        Err("Listener is already running.".to_owned())
    } else if slot.native_running {
        Err(
            "The native listener is still running; rdev cannot restart it after stopListener().".to_owned(),
        )
    } else {
        Ok(())
    }
}

/// Gives away a generation.
pub fn reserve_generation<E, R>(slot: &mut ListenerSlot<E, R>) -> (r: u64)
    ensures
        r == old(slot).next_generation,
        *final(slot) == old(slot).reserved(),
{
    let generation = slot.next_generation;
    slot.next_generation = if generation == u64::MAX {
        0
    } else {
        generation + 1
    };
    generation
}

/// Takes down how starting a native thread ended.
pub fn record_spawn<E, R>(slot: &mut ListenerSlot<E, R>, spawned: Result<(), String>) -> (r: Result<
    (),
    String,
>)
    ensures
        match spawned {
            Ok(()) => r is Ok && *final(slot) == old(slot).spawned(),
            Err(e) => *final(slot) == *old(slot) && text::told(r) == Err::<(), Seq<char>>(
                spawn_message(e@),
            ),
        },
{
    match spawned {
        Ok(()) => {
            slot.native_running = true;
            Ok(())
        },
        Err(e) => Err(join("Failed to spawn listener thread: ", e.as_str())),
    }
}

/// Starts a native thread. Only one that has been started counts as running.
pub fn spawn_native_thread<E, R, F: FnOnce() -> Result<(), String>>(
    slot: &mut ListenerSlot<E, R>,
    spawn: F,
) -> (r: Result<(), String>)
    requires
        spawn.requires(()),
    ensures
        exists|spawned: Result<(), String>| #[trigger]
            spawn.ensures((), spawned) && match spawned {
                Ok(()) => r is Ok && *final(slot) == old(slot).spawned(),
                Err(e) => *final(slot) == *old(slot) && text::told(r) == Err::<(), Seq<char>>(
                    spawn_message(e@),
                ),
            },
{
    let spawned = spawn();
    record_spawn(slot, spawned)
}

/// Finishes a start: `spawned` says how starting the native thread of `generation` ended.
pub fn finish_start<E, R>(
    slot: &mut ListenerSlot<E, R>,
    generation: u64,
    events: E,
    errors: Option<R>,
    spawned: Result<(), String>,
) -> (r: Result<(), String>)
    ensures
        match spawned {
            Ok(()) => r is Ok && *final(slot) == old(slot).spawned().activated(
                ListenerState { generation, events, errors },
            ),
            Err(e) => *final(slot) == *old(slot) && text::told(r) == Err::<(), Seq<char>>(
                spawn_message(e@),
            ),
        },
{
    match record_spawn(slot, spawned) {
        Ok(()) => {
            slot.active = Some(ListenerState { generation, events, errors });
            Ok(())
        },
        Err(message) => Err(message),
    }
}

/// What is tried before a listener is started can end well: also where nothing is tried.
pub open spec fn passes<P: FnOnce() -> Result<(), String>>(preflight: Option<P>) -> bool {
    match preflight {
        Some(p) => exists|checked: Result<(), String>| #[trigger]
            p.ensures((), checked) && checked is Ok,
        None => true,
    }
}

/// Starts a listener, unless there is one, or the native thread of an earlier one.
///
/// `preflight` tries whether the session can be listened to, where that can be told before;
/// the error that it gives is that of the start. `build` makes what takes the events of the
/// listener and its failure. `spawn` starts its native thread, which is told its generation.
/// A start that is refused calls none of them, and after the first that fails none is called.
pub fn start_listener<
    E,
    R,
    P: FnOnce() -> Result<(), String>,
    B: FnOnce() -> Result<(E, Option<R>), String>,
    S: FnOnce(u64) -> Result<(), String>,
>(slot: &mut ListenerSlot<E, R>, preflight: Option<P>, build: B, spawn: S) -> (r: Result<
    (),
    String,
>)
    requires
        old(slot).refusal() is None ==> (preflight matches Some(p) ==> p.requires(())),
        old(slot).refusal() is None && passes(preflight) ==> build.requires(()),
        forall|events: E, errors: Option<R>|
            old(slot).refusal() is None && passes(preflight) && #[trigger] build.ensures(
                (),
                Ok((events, errors)),
            ) ==> spawn.requires((old(slot).next_generation,)),
    ensures
        match old(slot).refusal() {
            Some(message) => *final(slot) == *old(slot) && text::told(r) == Err::<(), Seq<char>>(
                message,
            ),
            None => {
                ||| preflight matches Some(p) && r is Err && p.ensures((), r) && *final(slot)
                    == *old(slot)
                ||| passes(preflight) && exists|built: Result<(E, Option<R>), String>| #[trigger]
                    build.ensures((), built) && match built {
                        Err(e) => *final(slot) == *old(slot) && r == Err::<(), String>(e),
                        Ok((events, errors)) => exists|spawned: Result<(), String>| #[trigger]
                            spawn.ensures((old(slot).next_generation,), spawned) && (
                                *final(slot),
                                text::told(r),
                            ) == old(slot).started(events, errors, spawned),
                    }
            },
        },
        old(slot).wf() ==> final(slot).wf(),
{
    match may_start(slot) {
        Ok(()) => {},
        Err(message) => {
            return Err(message);
        },
    }
    if let Some(check) = preflight {
        match check() {
            Ok(()) => {},
            Err(e) => {
                return Err(e);
            },
        }
    }
    match build() {
        Ok((events, errors)) => {
            let generation = reserve_generation(slot);
            let spawned = spawn(generation);
            finish_start(slot, generation, events, errors, spawned)
        },
        Err(e) => Err(e),
    }
}

/// Stops the listener, if there is one, and hands back what took its events and its
/// failure: something comes back if and only if a listener was running. The native
/// thread is left alone.
pub fn stop_listener<E, R>(slot: &mut ListenerSlot<E, R>) -> (r: Option<ListenerState<E, R>>)
    ensures
        r == old(slot).active,
        *final(slot) == old(slot).detached(),
        old(slot).wf() ==> final(slot).wf(),
{
    slot.active.take()
}

/// What takes the events of the native thread of `generation`: nothing, once its listener
/// has been stopped.
pub fn current_events<E, R>(slot: &ListenerSlot<E, R>, generation: u64) -> (r: Option<&E>)
    ensures
        r is Some <==> slot.is_current(generation),
        r matches Some(events) ==> *events == slot.active->0.events,
{
    match &slot.active {
        Some(state) => if state.generation == generation {
            Some(&state.events)
        } else {
            None
        },
        None => None,
    }
}

/// Tells the native thread of `generation` whether to stop: once its listener is no
/// longer the active one.
pub fn should_stop<E, R>(slot: &ListenerSlot<E, R>, generation: u64) -> (r: bool)
    ensures
        r == !slot.is_current(generation),
{
    current_events(slot, generation).is_none()
}

/// What is to be done about a native thread that failed.
pub enum FailureReport<E, R> {
    /// Nothing: the thread was not known.
    Nothing,
    /// Print the message, and release what took the events.
    Print { message: String, events: Option<E> },
    /// Hand the message to what takes the failure, and release what took the events.
    Tell { message: String, errors: R, events: E },
}

/// The native thread of `generation` has failed. Its listener is told, or else the
/// message is printed; and the listener is released.
pub fn listener_failed<E, R>(
    slot: &mut ListenerSlot<E, R>,
    generation: u64,
    error: &str,
) -> (r: FailureReport<E, R>)
    ensures
        *final(slot) == old(slot).exited(generation),
        old(slot).wf() && next_after(generation) == old(slot).next_generation ==> final(slot).wf(),
        if !old(slot).native_running {
            r is Nothing
        } else if !old(slot).is_current(generation) {
            r matches FailureReport::Print { message, events } && message@
                == "Input listener failed: "@ + error@ && events is None
        } else {
            match old(slot).active->0.errors {
                Some(told) => r matches FailureReport::Tell { message, errors, events } && message@
                    == "Input listener failed: "@ + error@ && errors == told && events
                    == old(slot).active->0.events,
                None => r matches FailureReport::Print { message, events } && message@
                    == "Input listener failed: "@ + error@ && events == Some(
                    old(slot).active->0.events,
                ),
            }
        },
{
    if !slot.native_running {
        return FailureReport::Nothing;
    }
    let message = join("Input listener failed: ", error);
    let ours = !should_stop(slot, generation);
    slot.native_running = false;
    if !ours {
        return FailureReport::Print { message, events: None };
    }
    match slot.active.take() {
        Some(state) => match state.errors {
            Some(errors) => FailureReport::Tell { message, errors, events: state.events },
            None => FailureReport::Print { message, events: Some(state.events) },
        },
        None => FailureReport::Print { message, events: None },
    }
}

/// The native thread of `generation` has ended without a failure. Hands back what its
/// listener held, if that is still the active one.
pub fn listener_exited<E, R>(slot: &mut ListenerSlot<E, R>, generation: u64) -> (r: Option<
    ListenerState<E, R>,
>)
    ensures
        *final(slot) == old(slot).exited(generation),
        old(slot).wf() && next_after(generation) == old(slot).next_generation ==> final(slot).wf(),
        r == if old(slot).native_running && old(slot).is_current(generation) {
            old(slot).active
        } else {
            None
        },
{
    if !slot.native_running {
        return None;
    }
    let ours = !should_stop(slot, generation);
    slot.native_running = false;
    if ours {
        slot.active.take()
    } else {
        None
    }
}

/// A listener that is active keeps any other from being started.
pub proof fn only_one_listener_is_active<E, R>(slot: ListenerSlot<E, R>)
    requires
        slot.active is Some,
    ensures
        slot.refusal() == Some("Listener is already running."@),
{
}

/// After a stop no thread delivers an event any more, a second stop finds nothing, and
/// while the native thread is there no listener can be started.
pub proof fn a_stopped_listener_is_silent<E, R>(slot: ListenerSlot<E, R>, generation: u64)
    requires
        slot.wf(),
        slot.active is Some,
    ensures
        !slot.detached().is_current(generation),
        slot.detached().detached() == slot.detached(),
        slot.detached().active is None,
        slot.detached().refusal() is Some,
{
}

/// Once the native thread of the latest listener has ended, failed or not, a listener can
/// be started again, whether the earlier one had been stopped or not.
pub proof fn a_listener_can_start_after_its_thread_has_ended<E, R>(
    slot: ListenerSlot<E, R>,
    generation: u64,
)
    requires
        slot.wf(),
        slot.native_running,
        next_after(generation) == slot.next_generation,
    ensures
        slot.exited(generation).wf(),
        slot.exited(generation).refusal() is None,
        slot.exited(generation).active is None,
{
    if slot.active is Some {
        lemma_next_after_injective(slot.active->0.generation, generation);
    }
}

proof fn lemma_next_after_injective(a: u64, b: u64)
    requires
        next_after(a) == next_after(b),
    ensures
        a == b,
{
}

/// A thread is never taken for that of the listener that was started after its own.
pub proof fn successive_listeners_differ<E, R>(
    slot: ListenerSlot<E, R>,
    generation: u64,
    events: E,
    errors: Option<R>,
)
    requires
        slot.refusal() is None,
        next_after(generation) == slot.next_generation,
    ensures
        slot.started(events, errors, Ok(())).0.is_current(slot.next_generation),
        !slot.started(events, errors, Ok(())).0.is_current(generation),
        slot.started(events, errors, Ok(())).0.wf(),
{
}

/// A start whose native thread cannot be started leaves no listener behind, and does not
/// keep a later one from being started.
pub proof fn a_failed_start_can_be_retried<E, R>(
    slot: ListenerSlot<E, R>,
    events: E,
    errors: Option<R>,
    e: String,
)
    requires
        slot.refusal() is None,
    ensures
        slot.started(events, errors, Err(e)).0.refusal() is None,
        slot.started(events, errors, Err(e)).1 is Err,
{
}

/// What may happen to the slot for the listener, and to the native threads.
pub enum Happening<E, R> {
    /// A listener is to be started: `checked` is what trying the session would give, `built`
    /// what making its callbacks would, and `spawned` what starting its native thread would.
    Start {
        checked: Result<(), String>,
        built: Result<(E, Option<R>), String>,
        spawned: Result<(), String>,
    },
    /// The listener is stopped.
    Stop,
    /// The native thread of this generation ends, failed or not.
    End(u64),
}

/// What has become of the slot, and which native threads have been started and are alive.
pub struct Life<E, R> {
    pub slot: ListenerSlot<E, R>,
    /// The generations of all native threads that have been started, in order.
    pub started: Seq<u64>,
    /// The generations of the native threads that are alive.
    pub alive: Set<u64>,
    /// How many generations have been given away.
    pub reserved: nat,
}

impl<E, R> Life<E, R> {
    /// The slot is as it was made, and there has been no thread.
    pub open spec fn fresh(slot: ListenerSlot<E, R>) -> Self {
        Life { slot, started: Seq::empty(), alive: Set::empty(), reserved: 0 }
    }

    /// It can happen now: only a thread that is alive can end.
    pub open spec fn possible(self, happening: Happening<E, R>) -> bool {
        happening matches Happening::End(generation) ==> self.alive.contains(generation)
    }

    /// What comes of it. A start that is refused, or that fails before its native thread is
    /// to be started, starts none.
    pub open spec fn after(self, happening: Happening<E, R>) -> Self {
        match happening {
            Happening::Start { checked, built, spawned } => match built {
                Ok((events, errors)) if self.slot.refusal() is None && checked is Ok => {
                    let generation = self.slot.next_generation;
                    Life {
                        slot: self.slot.started(events, errors, spawned).0,
                        started: if spawned is Ok {
                            self.started.push(generation)
                        } else {
                            self.started
                        },
                        alive: if spawned is Ok {
                            self.alive.insert(generation)
                        } else {
                            self.alive
                        },
                        reserved: self.reserved + 1,
                    }
                },
                _ => self,
            },
            Happening::Stop => Life { slot: self.slot.detached(), ..self },
            Happening::End(generation) => Life {
                slot: self.slot.exited(generation),
                alive: self.alive.remove(generation),
                ..self
            },
        }
    }

    /// What comes of one after the other.
    pub open spec fn after_all(self, history: Seq<Happening<E, R>>) -> Self
        decreases history.len(),
    {
        if history.len() == 0 {
            self
        } else {
            self.after_all(history.drop_last()).after(history.last())
        }
    }

    /// Each can happen when its turn comes.
    pub open spec fn all_possible(self, history: Seq<Happening<E, R>>) -> bool {
        forall|i: int|
            0 <= i < history.len() ==> self.after_all(history.take(i)).possible(
                #[trigger] history[i],
            )
    }

    /// A native thread is alive if and only if the slot says so; it is the only one, and the
    /// latest that was given a generation. Generations are given away in ascending order.
    pub open spec fn wf(self) -> bool {
        &&& self.slot.wf()
        &&& self.slot.next_generation == self.reserved
        &&& self.alive == if self.slot.native_running {
            set![(self.reserved - 1) as u64]
        } else {
            Set::<u64>::empty()
        }
        &&& self.slot.native_running ==> self.reserved > 0
        &&& forall|i: int, j: int|
            0 <= i < j < self.started.len() ==> self.started[i] < self.started[j]
        &&& forall|i: int| 0 <= i < self.started.len() ==> #[trigger] self.started[i] < self.reserved
    }
}

proof fn lemma_life_goes_on<E, R>(life: Life<E, R>, happening: Happening<E, R>)
    requires
        life.wf(),
        life.possible(happening),
        life.reserved < u64::MAX,
    ensures
        life.after(happening).wf(),
{
    let next = life.after(happening);
    match happening {
        Happening::Start { .. } => {
            assert(next.alive =~= if next.slot.native_running {
                set![(next.reserved - 1) as u64]
            } else {
                Set::<u64>::empty()
            });
        },
        Happening::Stop => {},
        Happening::End(generation) => {
            assert(generation == (life.reserved - 1) as u64);
            assert(next.alive =~= Set::<u64>::empty());
        },
    }
}

proof fn lemma_reserved<E, R>(life: Life<E, R>, history: Seq<Happening<E, R>>)
    ensures
        life.after_all(history).reserved <= life.reserved + history.len(),
    decreases history.len(),
{
    if history.len() > 0 {
        lemma_reserved(life, history.drop_last());
    }
}

/// Whatever happens to a slot that began as it is made, in any order: an active listener has
/// a native thread; at most one native thread is alive at a time, and one is if and only if
/// the slot says so; and no two listeners that were started share a generation, as long as
/// there have been fewer starts than there are generations.
pub proof fn one_thread_lives_and_generations_differ<E, R>(
    slot: ListenerSlot<E, R>,
    history: Seq<Happening<E, R>>,
)
    requires
        slot.next_generation == 0,
        !slot.native_running,
        slot.active is None,
        history.len() <= u64::MAX,
        Life::fresh(slot).all_possible(history),
    ensures
        ({
            let life = Life::fresh(slot).after_all(history);
            &&& life.wf()
            &&& life.slot.active is Some ==> life.slot.native_running
            &&& life.alive.len() <= 1
            &&& life.alive.len() == 1 <==> life.slot.native_running
            &&& life.started.no_duplicates()
        }),
    decreases history.len(),
{
    let fresh = Life::fresh(slot);
    let life = fresh.after_all(history);
    if history.len() > 0 {
        let before = history.drop_last();
        assert forall|i: int| 0 <= i < before.len() implies fresh.after_all(
            before.take(i),
        ).possible(#[trigger] before[i]) by {
            assert(before.take(i) =~= history.take(i));
            assert(before[i] == history[i]);
        }
        one_thread_lives_and_generations_differ(slot, before);
        lemma_reserved(fresh, before);
        assert(history.take(history.len() - 1) =~= before);
        assert(fresh.after_all(before).possible(history[history.len() - 1]));
        lemma_life_goes_on(fresh.after_all(before), history.last());
    }
    assert(life.wf());
    if life.slot.native_running {
        assert(life.alive.contains((life.reserved - 1) as u64));
    }
}

/// A listener is refused if and only if there is one, or a native thread; the former is said
/// where both hold.
pub proof fn a_start_is_refused_for_a_reason<E, R>(slot: ListenerSlot<E, R>)
    ensures
        slot.refusal() is None <==> slot.active is None && !slot.native_running,
        slot.active is Some ==> slot.refusal() == Some("Listener is already running."@),
        slot.active is None && slot.native_running ==> slot.refusal() == Some(
            "The native listener is still running; rdev cannot restart it after stopListener()."@,
        ),
{
}

/// Generations are counted up one by one, and begin again after the last.
pub proof fn generations_count_up(generation: u64)
    ensures
        generation < 0xffff_ffff_ffff_ffff ==> next_after(generation) == generation + 1,
        next_after(0xffff_ffff_ffff_ffff) == 0,
{
}

/// The thread of a generation delivers if and only if that is the generation of the active
/// listener.
pub proof fn only_the_active_listener_delivers<E, R>(slot: ListenerSlot<E, R>, generation: u64)
    ensures
        slot.is_current(generation) <==> slot.active is Some && slot.active->0.generation
            == generation,
{
}

/// A start that succeeds makes its callbacks those of the active listener, with the generation
/// that was next, and has a native thread; one whose thread cannot be started leaves all but
/// the next generation as it was, and tells the whole error.
pub proof fn a_start_takes_the_next_generation<E, R>(
    slot: ListenerSlot<E, R>,
    events: E,
    errors: Option<R>,
    e: String,
)
    ensures
        ({
            let (after, r) = slot.started(events, errors, Ok(()));
            &&& r is Ok
            &&& after.native_running
            &&& after.active matches Some(state) && state.generation == slot.next_generation
                && state.events == events && state.errors == errors
            &&& after.next_generation == next_after(slot.next_generation)
        }),
        ({
            let (after, r) = slot.started(events, errors, Err(e));
            &&& r == Err::<(), Seq<char>>("Failed to spawn listener thread: "@ + e@)
            &&& after.native_running == slot.native_running
            &&& after.active == slot.active
            &&& after.next_generation == next_after(slot.next_generation)
        }),
        spawn_message(e@) == "Failed to spawn listener thread: "@ + e@,
{
}

/// Each change of the slot changes what it says and leaves the rest as it was.
pub proof fn changes_of_the_slot_are_separate<E, R>(
    slot: ListenerSlot<E, R>,
    state: ListenerState<E, R>,
)
    ensures
        slot.reserved().next_generation == next_after(slot.next_generation),
        slot.reserved().native_running == slot.native_running,
        slot.reserved().active == slot.active,
        slot.spawned().native_running,
        slot.spawned().next_generation == slot.next_generation,
        slot.spawned().active == slot.active,
        slot.activated(state).active == Some(state),
        slot.activated(state).native_running == slot.native_running,
        slot.activated(state).next_generation == slot.next_generation,
        slot.detached().active is None,
        slot.detached().native_running == slot.native_running,
        slot.detached().next_generation == slot.next_generation,
{
}

/// When a native thread ends there is none any more; its listener goes with it, and no other
/// does. No generation is given away by it.
pub proof fn a_thread_takes_its_own_listener_along<E, R>(
    slot: ListenerSlot<E, R>,
    generation: u64,
)
    ensures
        !slot.exited(generation).native_running,
        slot.exited(generation).next_generation == slot.next_generation,
        !slot.native_running ==> slot.exited(generation) == slot,
        slot.native_running && slot.active is Some && slot.active->0.generation == generation
            ==> slot.exited(generation).active is None,
        slot.active is Some && slot.active->0.generation != generation ==> slot.exited(
            generation,
        ).active == slot.active,
        slot.active is None ==> slot.exited(generation).active is None,
{
}

/// Where nothing is tried before a start, nothing keeps it from going on; and what is tried does
/// not, if it can end well.
pub proof fn a_start_goes_on_after_a_good_check<P: FnOnce() -> Result<(), String>>(
    check: P,
    checked: Result<(), String>,
)
    requires
        check.ensures((), checked),
        checked is Ok,
    ensures
        passes(None::<P>),
        passes(Some(check)),
{
    let tried: Option<P> = Some(check);
    if let Some(p) = tried {
        assert(p.ensures((), checked));
    }
}

} // verus!
