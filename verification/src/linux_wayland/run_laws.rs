//! What holds of a listener from its start to its end.

use super::capture;
use super::codes::RawEvent;
use super::listen;
use super::listen::{FetchOutcome, ListenPhase, ListenReply};
use super::poll;
use crate::events::{Event, EventType};
use vstd::prelude::*;

verus! {

/// What a listener is like after `replies`, one after the other.
pub open spec fn after_all<C, D>(
    listener: listen::ListenView<D>,
    replies: Seq<ListenReply<C, D>>,
) -> listen::ListenView<D>
    decreases replies.len(),
{
    if replies.len() == 0 {
        listener
    } else {
        after_all(listener, replies.drop_last()).step(replies.last()).0
    }
}

/// What a listener asks for after the reply with the index `i`.
pub open spec fn action_at<C, D>(
    listener: listen::ListenView<D>,
    replies: Seq<ListenReply<C, D>>,
    i: int,
) -> listen::ListenActionView<C, D> {
    after_all(listener, replies.take(i)).step(replies[i]).1
}

/// The listener waits for each of `replies` when its turn comes: they are a run of it.
pub open spec fn is_run<C, D>(
    listener: listen::ListenView<D>,
    replies: Seq<ListenReply<C, D>>,
) -> bool {
    forall|i: int|
        0 <= i < replies.len() ==> (#[trigger] after_all(listener, replies.take(i))).accepts(
            replies[i],
        )
}

/// What is handed to the callback in a run, in order.
pub open spec fn deliveries<C, D>(
    listener: listen::ListenView<D>,
    replies: Seq<ListenReply<C, D>>,
) -> Seq<Event<C>>
    decreases replies.len(),
{
    if replies.len() == 0 {
        Seq::empty()
    } else {
        let before = deliveries(listener, replies.drop_last());
        match after_all(listener, replies.drop_last()).step(replies.last()).1 {
            listen::ListenActionView::Deliver(event) => before.push(event),
            _ => before,
        }
    }
}

/// The rounds of a run: each begins with the end of a poll. What comes before the first
/// belongs to none.
pub open spec fn rounds<C, D>(replies: Seq<ListenReply<C, D>>) -> Seq<Seq<ListenReply<C, D>>>
    decreases replies.len(),
{
    if replies.len() == 0 {
        Seq::empty()
    } else {
        let before = rounds(replies.drop_last());
        if replies.last() is Polled {
            before.push(seq![replies.last()])
        } else if before.len() == 0 {
            before
        } else {
            before.drop_last().push(before.last().push(replies.last()))
        }
    }
}

/// The events that are read from the devices in a round, in order.
pub open spec fn events_read<C, D>(round: Seq<ListenReply<C, D>>) -> Seq<RawEvent>
    decreases round.len(),
{
    if round.len() == 0 {
        Seq::empty()
    } else {
        let before = events_read(round.drop_last());
        match round.last() {
            ListenReply::Fetched(FetchOutcome::Events(events)) => before + events@,
            _ => before,
        }
    }
}

/// The places of the pointer that are had in a round, in order.
pub open spec fn places<C, D>(round: Seq<ListenReply<C, D>>) -> Seq<(C, C)>
    decreases round.len(),
{
    if round.len() == 0 {
        Seq::empty()
    } else {
        let before = places(round.drop_last());
        match round.last() {
            ListenReply::Located(Ok(place)) => before.push(place),
            _ => before,
        }
    }
}

/// What is reported of `events`, where `places` are those of the pointer at the motions
/// among them, in order: the last place is that of the last motion.
pub open spec fn reported<C>(events: Seq<RawEvent>, places: Seq<(C, C)>) -> Seq<Event<C>>
    decreases events.len(),
{
    if events.len() == 0 {
        Seq::empty()
    } else {
        match capture::meaning_of::<C>(events.last()) {
            capture::Meaning::Nothing => reported(events.drop_last(), places),
            capture::Meaning::Event(event) => reported(events.drop_last(), places).push(
                capture::unnamed(event),
            ),
            capture::Meaning::PointerMoved => reported(
                events.drop_last(),
                places.drop_last(),
            ).push(
                capture::unnamed(
                    EventType::MouseMove { x: places.last().0, y: places.last().1 },
                ),
            ),
        }
    }
}

/// What is reported of all events of `rounds`, one round after the other.
pub open spec fn reports_of_rounds<C, D>(rounds: Seq<Seq<ListenReply<C, D>>>) -> Seq<Event<C>>
    decreases rounds.len(),
{
    if rounds.len() == 0 {
        Seq::empty()
    } else {
        reports_of_rounds(rounds.drop_last()) + reported(
            events_read(rounds.last()),
            places(rounds.last()),
        )
    }
}

/// The events that have been read and not been dealt with: those that are still to be looked
/// at, and one whose place is being asked for.
pub open spec fn pending<D>(listener: listen::ListenView<D>) -> Seq<RawEvent> {
    if listener.phase == ListenPhase::Delivering {
        listener.batch.drop_first()
    } else {
        listener.batch
    }
}

/// What `delivered` is after a run: the reports of all rounds but the last, and of the events
/// of the last that have been dealt with. These come before those that are pending.
pub open spec fn delivered_in_rounds<C, D>(
    rounds: Seq<Seq<ListenReply<C, D>>>,
    pending: Seq<RawEvent>,
    delivered: Seq<Event<C>>,
) -> bool {
    if rounds.len() == 0 {
        pending.len() == 0 && delivered.len() == 0
    } else {
        let events = events_read(rounds.last());
        let n = events.len() - pending.len();
        &&& n >= 0
        &&& pending == events.skip(n)
        &&& delivered == reports_of_rounds(rounds.drop_last()) + reported(
            events.take(n),
            places(rounds.last()),
        )
    }
}

/// What holds of a listener after a run, besides what has been delivered.
spec fn is_on_track<C, D>(
    listener: listen::ListenView<D>,
    rounds: Seq<Seq<ListenReply<C, D>>>,
) -> bool {
    &&& listener.looking() ==> listener.batch.len() > 0
    &&& listener.phase == ListenPhase::Locating ==> capture::is_motion(listener.batch[0])
    &&& !listener.looking() && listener.phase != ListenPhase::Finished ==> listener.batch
        =~= Seq::empty()
    &&& listener.reading() ==> rounds.len() > 0
}

/// The first `n` events, and the one after them.
proof fn lemma_one_more(events: Seq<RawEvent>, n: int)
    requires
        0 <= n < events.len(),
    ensures
        events.take(n + 1).drop_last() == events.take(n),
        events.take(n + 1).last() == events[n],
        events.skip(n)[0] == events[n],
        events.skip(n).drop_first() == events.skip(n + 1),
{
    assert(events.take(n + 1).drop_last() =~= events.take(n));
    assert(events.skip(n).drop_first() =~= events.skip(n + 1));
}

proof fn lemma_run_goes_on<C, D>(
    listener: listen::ListenView<D>,
    earlier: Seq<ListenReply<C, D>>,
    reply: ListenReply<C, D>,
    delivered: Seq<Event<C>>,
)
    requires
        listener.accepts(reply),
        is_on_track(listener, rounds(earlier)),
        delivered_in_rounds(rounds(earlier), pending(listener), delivered),
    ensures
        ({
            let (next, action) = listener.step(reply);
            let all = earlier.push(reply);
            &&& is_on_track(next, rounds(all))
            &&& delivered_in_rounds(
                rounds(all),
                pending(next),
                match action {
                    listen::ListenActionView::Deliver(event) => delivered.push(event),
                    _ => delivered,
                },
            )
        }),
{
    let (next, action) = listener.step(reply);
    let all = earlier.push(reply);
    let before = rounds(earlier);
    let after = rounds(all);
    assert(all.drop_last() =~= earlier);
    if reply is Polled {
        let round = seq![reply];
        assert(round.drop_last() =~= Seq::empty());
        assert(events_read(round.drop_last()) =~= Seq::empty());
        assert(places(round.drop_last()) =~= Seq::empty());
        assert(events_read(round) =~= Seq::empty());
        assert(places(round) =~= Seq::empty());
        assert(after.drop_last() =~= before);
        assert(pending(listener) =~= Seq::empty());
        assert(pending(next) =~= Seq::empty());
        assert(events_read(round).take(0) =~= Seq::empty());
        assert(events_read(round).skip(0) =~= Seq::empty());
        if before.len() > 0 {
            let events = events_read(before.last());
            assert(events.take(events.len() as int) =~= events);
        } else {
            assert(delivered =~= Seq::empty());
        }
        assert(delivered =~= reports_of_rounds(before) + reported::<C>(
            Seq::empty(),
            Seq::empty(),
        ));
    } else if before.len() > 0 {
        let round = before.last().push(reply);
        let events = events_read(before.last());
        let n = events.len() - pending(listener).len();
        assert(round.drop_last() =~= before.last());
        assert(after.drop_last() =~= before.drop_last());
        assert(after.last() == round);
        match reply {
            ListenReply::Fetched(FetchOutcome::Events(read)) => {
                assert(pending(listener) =~= Seq::empty());
                assert(events_read(round).take(n) =~= events.take(n));
                assert(events_read(round).skip(n) =~= read@);
                assert(pending(next) =~= read@);
            },
            ListenReply::Stop(false) => {
                if listener.phase == ListenPhase::EventStopCheck {
                    lemma_one_more(events, n);
                }
            },
            ListenReply::Located(Ok(place)) => {
                lemma_one_more(events, n);
                assert(places(round).drop_last() =~= places(before.last()));
            },
            _ => {
                assert(pending(next) =~= pending(listener));
            },
        }
        let now = events_read(round);
        let m = now.len() - pending(next).len();
        let handed = match action {
            listen::ListenActionView::Deliver(event) => delivered.push(event),
            _ => delivered,
        };
        assert(handed =~= reports_of_rounds(before.drop_last()) + reported(
            now.take(m),
            places(round),
        ));
    } else {
        assert(after =~= before);
    }
}

proof fn lemma_run<C, D>(listener: listen::ListenView<D>, replies: Seq<ListenReply<C, D>>)
    requires
        listener == listen::ListenView::<D>::fresh(),
        is_run(listener, replies),
    ensures
        is_on_track(after_all(listener, replies), rounds(replies)),
        delivered_in_rounds(
            rounds(replies),
            pending(after_all(listener, replies)),
            deliveries(listener, replies),
        ),
    decreases replies.len(),
{
    if replies.len() > 0 {
        let earlier = replies.drop_last();
        lemma_shorter_run(listener, replies);
        lemma_run(listener, earlier);
        assert(replies.take(replies.len() - 1) =~= earlier);
        assert(after_all(listener, replies.take(replies.len() - 1)).accepts(replies.last()));
        assert(earlier.push(replies.last()) =~= replies);
        lemma_run_goes_on(
            after_all(listener, earlier),
            earlier,
            replies.last(),
            deliveries(listener, earlier),
        );
    }
}

proof fn lemma_shorter_run<C, D>(
    listener: listen::ListenView<D>,
    replies: Seq<ListenReply<C, D>>,
)
    requires
        replies.len() > 0,
        is_run(listener, replies),
    ensures
        is_run(listener, replies.drop_last()),
{
    let earlier = replies.drop_last();
    assert forall|i: int| 0 <= i < earlier.len() implies (#[trigger] after_all(
        listener,
        earlier.take(i),
    )).accepts(earlier[i]) by {
        assert(earlier.take(i) =~= replies.take(i));
        assert(after_all(listener, replies.take(i)).accepts(replies[i]));
        assert(earlier[i] == replies[i]);
    }
}

/// What a listener hands to the callback from its start on is what is reported of its
/// rounds, one after the other and in the order of the events in them, and nothing else; of
/// the last round, what is reported of the events that have been dealt with so far. Where
/// none is pending these are all.
pub proof fn deliveries_are_the_reports_of_the_rounds<C, D>(replies: Seq<ListenReply<C, D>>)
    requires
        is_run(listen::ListenView::<D>::fresh(), replies),
    ensures
        ({
            let start = listen::ListenView::<D>::fresh();
            let end = after_all(start, replies);
            let delivered = deliveries(start, replies);
            &&& delivered_in_rounds(rounds(replies), pending(end), delivered)
            &&& pending(end).len() == 0 ==> delivered == reports_of_rounds(rounds(replies))
        }),
{
    let start = listen::ListenView::<D>::fresh();
    lemma_run(start, replies);
    let all = rounds(replies);
    if all.len() > 0 {
        let events = events_read(all.last());
        assert(events.take(events.len() as int) =~= events);
    } else {
        assert(deliveries(start, replies) =~= reports_of_rounds(all));
    }
}

/// How many devices have been read in a round.
pub open spec fn devices_read<C, D>(round: Seq<ListenReply<C, D>>) -> nat
    decreases round.len(),
{
    if round.len() == 0 {
        0
    } else {
        devices_read(round.drop_last()) + if round.last() is Fetched {
            1nat
        } else {
            0nat
        }
    }
}

/// The indices of the devices that are to be read in a round, by the flags that its poll
/// gave.
pub open spec fn devices_to_read<C, D>(round: Seq<ListenReply<C, D>>) -> Seq<usize> {
    match round[0] {
        ListenReply::Polled(Ok(revents)) => poll::ready_indices(revents@),
        _ => Seq::empty(),
    }
}

/// The devices that a listener has still to read are those of its round that have not been
/// read.
spec fn reads_in_order<C, D>(
    listener: listen::ListenView<D>,
    rounds: Seq<Seq<ListenReply<C, D>>>,
) -> bool {
    if rounds.len() == 0 {
        !listener.reading()
    } else {
        let ready = devices_to_read(rounds.last());
        let read = devices_read(rounds.last()) as int;
        &&& rounds.last().len() > 0
        &&& listener.phase == ListenPhase::Fetching ==> read < ready.len() && listener.ready
            == ready.skip(read)
        &&& listener.looking() ==> 1 <= read <= ready.len() && listener.ready == ready.skip(
            read - 1,
        )
        &&& !listener.reading() && listener.phase != ListenPhase::Finished ==> read == ready.len()
    }
}

proof fn lemma_reading_goes_on<C, D>(
    listener: listen::ListenView<D>,
    earlier: Seq<ListenReply<C, D>>,
    reply: ListenReply<C, D>,
)
    requires
        listener.accepts(reply),
        reads_in_order(listener, rounds(earlier)),
    ensures
        reads_in_order(listener.step(reply).0, rounds(earlier.push(reply))),
{
    let next = listener.step(reply).0;
    let all = earlier.push(reply);
    let before = rounds(earlier);
    let after = rounds(all);
    assert(all.drop_last() =~= earlier);
    if reply is Polled {
        let round = seq![reply];
        assert(round.drop_last() =~= Seq::empty());
        assert(devices_read(round.drop_last()) == 0);
        assert(devices_read(round) == 0);
        assert(after.last() == round);
        let ready = devices_to_read(round);
        assert(ready.skip(0) =~= ready);
    } else if before.len() > 0 {
        let round = before.last().push(reply);
        assert(round.drop_last() =~= before.last());
        assert(round[0] == before.last()[0]);
        assert(after.last() == round);
        let ready = devices_to_read(round);
        let read = devices_read(before.last()) as int;
        if listener.phase == ListenPhase::Fetching {
            assert(ready.skip(read).drop_first() =~= ready.skip(read + 1));
        } else if listener.looking() {
            assert(ready.skip(read - 1).drop_first() =~= ready.skip(read));
        }
    } else {
        assert(after =~= before);
    }
}

proof fn lemma_reading_in_order<C, D>(
    listener: listen::ListenView<D>,
    replies: Seq<ListenReply<C, D>>,
)
    requires
        listener == listen::ListenView::<D>::fresh(),
        is_run(listener, replies),
    ensures
        reads_in_order(after_all(listener, replies), rounds(replies)),
    decreases replies.len(),
{
    if replies.len() > 0 {
        let earlier = replies.drop_last();
        lemma_shorter_run(listener, replies);
        lemma_reading_in_order(listener, earlier);
        assert(replies.take(replies.len() - 1) =~= earlier);
        assert(after_all(listener, replies.take(replies.len() - 1)).accepts(replies.last()));
        assert(earlier.push(replies.last()) =~= replies);
        lemma_reading_goes_on(after_all(listener, earlier), earlier, replies.last());
    }
}

/// In each round of a run the devices are read that have events and are not gone by the poll
/// of that round, in their order: the device that is to be read next is the one after those
/// that have been read. The round does not go on to anything else before all have been read.
pub proof fn each_round_reads_its_devices_in_order<C, D>(replies: Seq<ListenReply<C, D>>)
    requires
        is_run(listen::ListenView::<D>::fresh(), replies),
        rounds(replies).len() > 0,
    ensures
        ({
            let start = listen::ListenView::<D>::fresh();
            let end = after_all(start, replies);
            let round = rounds(replies).last();
            let ready = devices_to_read(round);
            let read = devices_read(round) as int;
            &&& action_at(start, replies, replies.len() - 1) matches
                listen::ListenActionView::Fetch(index) ==> read < ready.len() && index
                == ready[read]
            &&& !end.reading() && end.phase != ListenPhase::Finished ==> read == ready.len()
        }),
{
    let start = listen::ListenView::<D>::fresh();
    let earlier = replies.drop_last();
    lemma_reading_in_order(start, replies);
    assert(replies.take(replies.len() - 1) =~= earlier);
    assert(after_all(start, replies.take(replies.len() - 1)).accepts(replies.last()));
    lemma_fetch(after_all(start, earlier), replies.last());
}

/// A listener that asks for the events of a device is about to read that device.
proof fn lemma_fetch<C, D>(listener: listen::ListenView<D>, reply: ListenReply<C, D>)
    requires
        listener.accepts(reply),
    ensures
        listener.step(reply).1 matches listen::ListenActionView::Fetch(index) ==> {
            &&& listener.step(reply).0.phase == ListenPhase::Fetching
            &&& listener.step(reply).0.ready[0] == index
        },
{
}

/// The reply with the index `j` tells the listener not to stop, and from then on nothing is
/// handed to the callback before the reply with the index `i`.
pub open spec fn is_permitted<C, D>(
    listener: listen::ListenView<D>,
    replies: Seq<ListenReply<C, D>>,
    j: int,
    i: int,
) -> bool {
    &&& 0 <= j <= i
    &&& replies[j] == ListenReply::<C, D>::Stop(false)
    &&& forall|m: int| j <= m < i ==> !(#[trigger] action_at(listener, replies, m) is Deliver)
}

/// What comes of one reply, as far as stopping, asking for the pointer and delivering go.
proof fn lemma_step<C, D>(listener: listen::ListenView<D>, reply: ListenReply<C, D>)
    requires
        listener.accepts(reply),
    ensures
        ({
            let (next, action) = listener.step(reply);
            &&& listener.phase != ListenPhase::Finished
            &&& action is Deliver ==> reply == ListenReply::<C, D>::Stop(false) || listener.phase
                == ListenPhase::Locating
            &&& next.phase == ListenPhase::Locating ==> reply == ListenReply::<C, D>::Stop(false)
                && action is Locate
            &&& reply == ListenReply::<C, D>::Stop(true) ==> next.phase == ListenPhase::Finished
                && action == listen::ListenActionView::<C, D>::Return(Ok(()))
        }),
{
}

/// The reply with the index `i` is awaited by the listener that the replies before it give,
/// and the listener after it is what comes of that.
proof fn lemma_step_at<C, D>(
    listener: listen::ListenView<D>,
    replies: Seq<ListenReply<C, D>>,
    i: int,
)
    requires
        is_run(listener, replies),
        0 <= i < replies.len(),
    ensures
        ({
            let at = after_all(listener, replies.take(i));
            &&& at.accepts(replies[i])
            &&& after_all(listener, replies.take(i + 1)) == at.step(replies[i]).0
            &&& action_at(listener, replies, i) == at.step(replies[i]).1
        }),
{
    let next = replies.take(i + 1);
    assert(next.drop_last() =~= replies.take(i));
    assert(next.last() == replies[i]);
}

/// Nothing is handed to the callback unless the listener has been told, since the delivery
/// before it, not to stop.
pub proof fn every_delivery_is_permitted<C, D>(replies: Seq<ListenReply<C, D>>, i: int)
    requires
        is_run(listen::ListenView::<D>::fresh(), replies),
        0 <= i < replies.len(),
        action_at(listen::ListenView::<D>::fresh(), replies, i) is Deliver,
    ensures
        exists|j: int| is_permitted(listen::ListenView::<D>::fresh(), replies, j, i),
{
    let start = listen::ListenView::<D>::fresh();
    lemma_step_at(start, replies, i);
    lemma_step(after_all(start, replies.take(i)), replies[i]);
    if replies[i] == ListenReply::<C, D>::Stop(false) {
        assert(is_permitted(start, replies, i, i));
    } else {
        if i == 0 {
            assert(replies.take(0) =~= Seq::empty());
        } else {
            lemma_step_at(start, replies, i - 1);
            lemma_step(after_all(start, replies.take(i - 1)), replies[i - 1]);
            assert(is_permitted(start, replies, i - 1, i));
        }
    }
}

/// Once a listener has been told to stop, it returns without an error, the run is over, and
/// nothing more is handed to the callback.
pub proof fn a_stop_ends_the_run<C, D>(replies: Seq<ListenReply<C, D>>, i: int)
    requires
        is_run(listen::ListenView::<D>::fresh(), replies),
        0 <= i < replies.len(),
        replies[i] == ListenReply::<C, D>::Stop(true),
    ensures
        i == replies.len() - 1,
        action_at(listen::ListenView::<D>::fresh(), replies, i)
            == listen::ListenActionView::<C, D>::Return(Ok(())),
        deliveries(listen::ListenView::<D>::fresh(), replies) == deliveries(
            listen::ListenView::<D>::fresh(),
            replies.drop_last(),
        ),
{
    let start = listen::ListenView::<D>::fresh();
    lemma_step_at(start, replies, i);
    lemma_step(after_all(start, replies.take(i)), replies[i]);
    if i < replies.len() - 1 {
        lemma_step_at(start, replies, i + 1);
        lemma_step(after_all(start, replies.take(i + 1)), replies[i + 1]);
    }
    assert(replies.take(i) =~= replies.drop_last());
}

} // verus!
