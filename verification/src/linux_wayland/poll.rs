//! What polling the devices tells: which have events, and which are gone.

use vstd::prelude::*;

verus! {

/// A device has events to read.
pub const POLLIN: i16 = 0x001;

/// A device failed.
pub const POLLERR: i16 = 0x008;

/// A device hung up.
pub const POLLHUP: i16 = 0x010;

/// A device is no longer open.
pub const POLLNVAL: i16 = 0x020;

/// A device failed, hung up, or is no longer open.
pub const POLL_GONE: i16 = POLLHUP | POLLERR | POLLNVAL;

/// How long one poll waits for events, in milliseconds.
pub const POLL_TIMEOUT: u16 = 100;

/// The device has events to read, by the flags that polling it gave. Flags that are
/// unknown count as none.
pub open spec fn readable(revents: Option<i16>) -> bool {
    revents matches Some(bits) && bits & POLLIN == POLLIN
}

/// The device is gone, by the flags that polling it gave.
pub open spec fn gone(revents: Option<i16>) -> bool {
    revents matches Some(bits) && bits & POLL_GONE != 0
}

/// `nix::poll::PollFlags::contains`: whether all bits of `flags` are set in `bits`.
#[verifier::external_body]
fn contains_flags(bits: i16, flags: i16) -> (r: bool)
    ensures
        r == (bits & flags == flags),
{
    nix::poll::PollFlags::from_bits_retain(bits).contains(
        nix::poll::PollFlags::from_bits_retain(flags),
    )
}

/// `nix::poll::PollFlags::intersects`: whether any bit of `flags` is set in `bits`.
#[verifier::external_body]
fn intersects_flags(bits: i16, flags: i16) -> (r: bool)
    ensures
        r == (bits & flags != 0),
{
    nix::poll::PollFlags::from_bits_retain(bits).intersects(
        nix::poll::PollFlags::from_bits_retain(flags),
    )
}

/// The device has events that will be read: one that is gone is not read any more.
pub open spec fn is_ready(revents: Option<i16>) -> bool {
    readable(revents) && !gone(revents)
}

/// The indices of the devices that have events that will be read, in ascending order.
pub open spec fn ready_indices(revents: Seq<Option<i16>>) -> Seq<usize>
    decreases revents.len(),
{
    if revents.len() == 0 {
        Seq::empty()
    } else {
        let before = ready_indices(revents.drop_last());
        if is_ready(revents.last()) {
            before.push((revents.len() - 1) as usize)
        } else {
            before
        }
    }
}

/// The indices of the devices that are gone, in ascending order.
pub open spec fn gone_indices(revents: Seq<Option<i16>>) -> Seq<usize>
    decreases revents.len(),
{
    if revents.len() == 0 {
        Seq::empty()
    } else {
        let before = gone_indices(revents.drop_last());
        if gone(revents.last()) {
            before.push((revents.len() - 1) as usize)
        } else {
            before
        }
    }
}

/// `indices` ascend and are below `n`.
pub open spec fn ascending_below(indices: Seq<usize>, n: int) -> bool {
    &&& forall|i: int, j: int| 0 <= i < j < indices.len() ==> indices[i] < indices[j]
    &&& forall|i: int| 0 <= i < indices.len() ==> indices[i] < n
}

/// The two lists of indices ascend; an index is in the first if and only if its device
/// has events and is not gone, and in the second if and only if its device is gone.
pub proof fn polled_indices_are_exact(revents: Seq<Option<i16>>)
    requires
        revents.len() <= usize::MAX,
    ensures
        ascending_below(ready_indices(revents), revents.len() as int),
        ascending_below(gone_indices(revents), revents.len() as int),
        forall|i: usize| #[trigger]
            ready_indices(revents).contains(i) <==> i < revents.len() && is_ready(
                revents[i as int],
            ),
        forall|i: usize| #[trigger]
            gone_indices(revents).contains(i) <==> i < revents.len() && gone(revents[i as int]),
    decreases revents.len(),
{
    if revents.len() > 0 {
        let before = revents.drop_last();
        polled_indices_are_exact(before);
        let last = (revents.len() - 1) as usize;
        assert forall|i: usize| #[trigger]
            ready_indices(revents).contains(i) <==> i < revents.len() && is_ready(
                revents[i as int],
            ) by {
            lemma_push_contains(ready_indices(before), last, i);
            assert(ready_indices(before).contains(i) <==> i < before.len() && is_ready(
                before[i as int],
            ));
        }
        assert forall|i: usize| #[trigger]
            gone_indices(revents).contains(i) <==> i < revents.len() && gone(
                revents[i as int],
            ) by {
            lemma_push_contains(gone_indices(before), last, i);
            assert(gone_indices(before).contains(i) <==> i < before.len() && gone(
                before[i as int],
            ));
        }
    }
}

proof fn lemma_push_contains(s: Seq<usize>, last: usize, i: usize)
    ensures
        s.push(last).contains(i) <==> s.contains(i) || i == last,
{
    if s.contains(i) {
        assert(s.push(last)[s.index_of(i)] == i);
    }
    assert(s.push(last)[s.len() as int] == last);
}

/// The indices of the devices that have events that will be read, and of those that are
/// gone.
pub fn poll_results(revents: &Vec<Option<i16>>) -> (r: (Vec<usize>, Vec<usize>))
    ensures
        r.0@ == ready_indices(revents@),
        r.1@ == gone_indices(revents@),
        forall|i: usize| #[trigger]
            r.1@.contains(i) <==> i < revents.len() && (revents@[i as int] matches Some(bits) && (
            bits & 0x010 != 0 || bits & 0x008 != 0 || bits & 0x020 != 0)),
        forall|i: usize| #[trigger]
            r.0@.contains(i) <==> i < revents.len() && (revents@[i as int] matches Some(bits)
                && bits & 0x001 != 0 && bits & 0x010 == 0 && bits & 0x008 == 0 && bits & 0x020
                == 0),
{
    let mut ready: Vec<usize> = Vec::new();
    let mut disconnected: Vec<usize> = Vec::new();
    let mut i: usize = 0;
    while i < revents.len()
        invariant
            i <= revents.len(),
            ready@ == ready_indices(revents@.take(i as int)),
            disconnected@ == gone_indices(revents@.take(i as int)),
        decreases revents.len() - i,
    {
        let ghost seen = revents@.take(i + 1);
        assert(seen.drop_last() =~= revents@.take(i as int));
        assert(seen.last() == revents@[i as int]);
        if let Some(bits) = revents[i] {
            if intersects_flags(bits, POLL_GONE) {
                disconnected.push(i);
            } else if contains_flags(bits, POLLIN) {
                ready.push(i);
            }
        }
        i = i + 1;
    }
    assert(revents@.take(revents.len() as int) =~= revents@);
    proof {
        each_flag_counts_by_itself(revents@);
    }
    (ready, disconnected)
}

/// The items whose index is not in `gone`, in their order.
pub open spec fn survivors<T>(items: Seq<T>, gone: Seq<usize>) -> Seq<T>
    decreases items.len(),
{
    if items.len() == 0 {
        Seq::empty()
    } else {
        let before = survivors(items.drop_last(), gone);
        if gone.contains((items.len() - 1) as usize) {
            before
        } else {
            before.push(items.last())
        }
    }
}

/// Items before the first index in `gone` keep their places.
proof fn lemma_survivors_before<T>(items: Seq<T>, gone: Seq<usize>, n: int)
    requires
        0 <= n <= items.len() <= usize::MAX,
        forall|i: int| 0 <= i < gone.len() ==> n <= gone[i],
    ensures
        survivors(items, gone).len() >= n,
        survivors(items, gone).take(n) == items.take(n),
    decreases items.len(),
{
    if items.len() > 0 {
        let last = (items.len() - 1) as usize;
        let before = survivors(items.drop_last(), gone);
        if n < items.len() {
            lemma_survivors_before(items.drop_last(), gone, n);
            assert(items.drop_last().take(n) =~= items.take(n));
            assert(survivors(items, gone).take(n) =~= before.take(n));
        } else {
            lemma_survivors_before(items.drop_last(), gone, n - 1);
            assert(!gone.contains(last));
            lemma_survivors_len(items.drop_last(), gone);
            assert(before =~= before.take(n - 1));
            assert(items.drop_last().take(n - 1) =~= items.drop_last());
            assert(survivors(items, gone).take(n) =~= items.take(n));
        }
    }
}

proof fn lemma_survivors_len<T>(items: Seq<T>, gone: Seq<usize>)
    ensures
        survivors(items, gone).len() <= items.len(),
    decreases items.len(),
{
    if items.len() > 0 {
        lemma_survivors_len(items.drop_last(), gone);
    }
}

/// Taking out one more index, before all others, removes the item at that index.
proof fn lemma_survivors_remove<T>(items: Seq<T>, gone: Seq<usize>, g: usize)
    requires
        g < items.len() <= usize::MAX,
        forall|i: int| 0 <= i < gone.len() ==> g < gone[i],
    ensures
        g < survivors(items, gone).len(),
        survivors(items, seq![g] + gone) == survivors(items, gone).remove(g as int),
    decreases items.len(),
{
    let all = seq![g] + gone;
    let last = (items.len() - 1) as usize;
    assert(all[0] == g);
    assert(forall|i: int| 0 <= i < gone.len() ==> all[i + 1] == gone[i]);
    assert(all.contains(last) <==> last == g || gone.contains(last)) by {
        if gone.contains(last) {
            assert(all[gone.index_of(last) + 1] == last);
        }
        if all.contains(last) {
            let k = all.index_of(last);
            if k > 0 {
                assert(gone[k - 1] == last);
            }
        }
    }
    lemma_survivors_before(items, gone, g + 1);
    if last == g {
        lemma_survivors_before(items.drop_last(), all, g as int);
        lemma_survivors_before(items.drop_last(), gone, g as int);
        lemma_survivors_len(items.drop_last(), all);
        lemma_survivors_len(items.drop_last(), gone);
        assert(survivors(items.drop_last(), all) =~= survivors(items.drop_last(), all).take(
            g as int,
        ));
        assert(survivors(items.drop_last(), gone) =~= survivors(items.drop_last(), gone).take(
            g as int,
        ));
        assert(!gone.contains(last));
        assert(survivors(items, all) =~= survivors(items, gone).remove(g as int));
    } else {
        lemma_survivors_remove(items.drop_last(), gone, g);
        assert(survivors(items, all) =~= survivors(items, gone).remove(g as int));
    }
}

/// Removes the items whose index is in `gone`.
pub fn remove_gone<T>(items: &mut Vec<T>, gone: &Vec<usize>)
    requires
        ascending_below(gone@, old(items).len() as int),
    ensures
        final(items)@ == survivors(old(items)@, gone@),
{
    let ghost all = items@;
    let mut k: usize = gone.len();
    proof {
        assert(gone@.skip(k as int) =~= Seq::empty());
        lemma_survivors_before(all, Seq::empty(), all.len() as int);
        lemma_survivors_len(all, Seq::empty());
        assert(survivors(all, Seq::<usize>::empty()) =~= survivors(
            all,
            Seq::<usize>::empty(),
        ).take(all.len() as int));
        assert(items@ =~= survivors(all, gone@.skip(k as int)));
    }
    assert(all.len() == items.len());
    while k > 0
        invariant
            k <= gone.len(),
            all.len() <= usize::MAX,
            ascending_below(gone@, all.len() as int),
            items@ == survivors(all, gone@.skip(k as int)),
        decreases k,
    {
        let ghost later = gone@.skip(k as int);
        k = k - 1;
        proof {
            assert forall|i: int| 0 <= i < later.len() implies gone@[k as int] < later[i] by {
                assert(later[i] == gone@[k + 1 + i]);
            }
            lemma_survivors_remove(all, later, gone@[k as int]);
            assert(seq![gone@[k as int]] + later =~= gone@.skip(k as int));
        }
        let _ = items.remove(gone[k]);
    }
    assert(gone@.skip(0) =~= gone@);
}

/// The indices below `n` that are not in `gone`, in ascending order.
pub open spec fn kept_indices(n: nat, gone: Seq<usize>) -> Seq<int> {
    Seq::new(n, |i: int| i).filter(|i: int| !gone.contains(i as usize))
}

/// What survives is what stood at the indices that are not gone, in that order.
pub proof fn survivors_are_the_kept_items<T>(items: Seq<T>, gone: Seq<usize>)
    ensures
        survivors(items, gone) == kept_indices(items.len(), gone).map_values(
            |i: int| items[i],
        ),
    decreases items.len(),
{
    reveal(Seq::filter);
    let keep = |i: int| !gone.contains(i as usize);
    let all = Seq::new(items.len(), |i: int| i);
    if items.len() > 0 {
        let rest = items.drop_last();
        survivors_are_the_kept_items(rest, gone);
        assert(all.drop_last() =~= Seq::new(rest.len(), |i: int| i));
        let before = all.drop_last().filter(keep);
        broadcast use Seq::lemma_filter_contains_rev;

        assert(before.map_values(|i: int| items[i]) =~= before.map_values(|i: int| rest[i])) by {
            assert forall|k: int| 0 <= k < before.len() implies items[#[trigger] before[k]]
                == rest[before[k]] by {
                assert(before.contains(before[k]));
                assert(all.drop_last().contains(before[k]));
            }
        }
        assert(all.last() == items.len() - 1);
        if keep(items.len() - 1) {
            assert(all.filter(keep) =~= before.push(items.len() - 1));
            assert(survivors(items, gone) =~= all.filter(keep).map_values(|i: int| items[i]));
        } else {
            assert(all.filter(keep) =~= before);
        }
    } else {
        assert(survivors(items, gone) =~= all.filter(keep).map_values(|i: int| items[i]));
    }
}

/// A device is gone as soon as any one of the flags for failure, for hanging up and for not
/// being open is set, whatever else is set; it is read if and only if none of them is, and
/// the flag for events is. Flags that are unknown count for nothing.
pub proof fn any_flag_of_a_gone_device_counts(bits: i16)
    ensures
        gone(Some(bits)) <==> bits & 0x010 != 0 || bits & 0x008 != 0 || bits & 0x020 != 0,
        readable(Some(bits)) <==> bits & 0x001 != 0,
        is_ready(Some(bits)) <==> bits & 0x001 != 0 && bits & 0x010 == 0 && bits & 0x008 == 0
            && bits & 0x020 == 0,
        !gone(None) && !readable(None) && !is_ready(None),
{
    assert(POLL_GONE == 0x038i16) by {
        assert(0x010i16 | 0x008i16 | 0x020i16 == 0x038i16) by (bit_vector);
    }
    assert(bits & 0x038i16 != 0 <==> bits & 0x010 != 0 || bits & 0x008 != 0 || bits & 0x020 != 0)
        by (bit_vector);
    assert(bits & 0x001i16 == 0x001i16 <==> bits & 0x001i16 != 0) by (bit_vector);
}

/// Which devices are read and which are forgotten follows from the flags of each, one device
/// independent of the others.
pub proof fn each_flag_counts_by_itself(revents: Seq<Option<i16>>)
    requires
        revents.len() <= usize::MAX,
    ensures
        forall|i: usize| #[trigger]
            gone_indices(revents).contains(i) <==> i < revents.len() && (revents[i as int] matches
                Some(bits) && (bits & 0x010 != 0 || bits & 0x008 != 0 || bits & 0x020 != 0)),
        forall|i: usize| #[trigger]
            ready_indices(revents).contains(i) <==> i < revents.len() && (
            revents[i as int] matches Some(bits) && bits & 0x001 != 0 && bits & 0x010 == 0 && bits
                & 0x008 == 0 && bits & 0x020 == 0),
{
    polled_indices_are_exact(revents);
    assert forall|i: usize| i < revents.len() implies {
        &&& gone(#[trigger] revents[i as int]) <==> (revents[i as int] matches Some(bits) && (bits
            & 0x010 != 0 || bits & 0x008 != 0 || bits & 0x020 != 0))
        &&& is_ready(revents[i as int]) <==> (revents[i as int] matches Some(bits) && bits & 0x001
            != 0 && bits & 0x010 == 0 && bits & 0x008 == 0 && bits & 0x020 == 0)
    } by {
        if let Some(bits) = revents[i as int] {
            any_flag_of_a_gone_device_counts(bits);
        }
    }
}

/// A device that is gone stays gone by whatever flags are set with those that it has.
pub proof fn more_flags_do_not_bring_a_device_back(bits: i16, more: i16)
    requires
        gone(Some(bits)),
    ensures
        gone(Some(bits | more)),
        !is_ready(Some(bits | more)),
{
    any_flag_of_a_gone_device_counts(bits);
    any_flag_of_a_gone_device_counts(bits | more);
    assert((bits & 0x010 != 0 ==> (bits | more) & 0x010 != 0) && (bits & 0x008 != 0 ==> (bits
        | more) & 0x008 != 0) && (bits & 0x020 != 0 ==> (bits | more) & 0x020 != 0))
        by (bit_vector);
}

/// Of the items that survive, each stood at an index that is not gone, all such items are
/// there, and their order is kept.
pub proof fn survivors_keep_their_order<T>(items: Seq<T>, gone: Seq<usize>, i: int, j: int)
    requires
        items.len() <= usize::MAX,
        0 <= i < j < items.len(),
        !gone.contains(i as usize),
        !gone.contains(j as usize),
    ensures
        exists|a: int, b: int|
            0 <= a < b < survivors(items, gone).len() && #[trigger] survivors(items, gone)[a]
                == items[i] && #[trigger] survivors(items, gone)[b] == items[j],
    decreases items.len(),
{
    let before = items.drop_last();
    let last = items.len() - 1;
    let all = survivors(items, gone);
    if j < last {
        survivors_keep_their_order(before, gone, i, j);
        let (a, b) = choose|a: int, b: int|
            0 <= a < b < survivors(before, gone).len() && #[trigger] survivors(before, gone)[a]
                == before[i] && #[trigger] survivors(before, gone)[b] == before[j];
        assert(all[a] == items[i] && all[b] == items[j]);
    } else {
        lemma_survivor(before, gone, i);
        let a = choose|a: int|
            0 <= a < survivors(before, gone).len() && #[trigger] survivors(before, gone)[a]
                == before[i];
        let b = survivors(before, gone).len() as int;
        assert(all[a] == items[i] && all[b] == items[j]);
    }
}

proof fn lemma_survivor<T>(items: Seq<T>, gone: Seq<usize>, i: int)
    requires
        items.len() <= usize::MAX,
        0 <= i < items.len(),
        !gone.contains(i as usize),
    ensures
        exists|a: int|
            0 <= a < survivors(items, gone).len() && #[trigger] survivors(items, gone)[a]
                == items[i],
    decreases items.len(),
{
    let before = items.drop_last();
    let all = survivors(items, gone);
    if i < items.len() - 1 {
        lemma_survivor(before, gone, i);
        let a = choose|a: int|
            0 <= a < survivors(before, gone).len() && #[trigger] survivors(before, gone)[a]
                == before[i];
        assert(all[a] == items[i]);
    } else {
        assert(all[survivors(before, gone).len() as int] == items[i]);
    }
}

/// Any indices may be removed that ascend and that there are items at.
pub proof fn any_items_can_be_removed(indices: Seq<usize>, n: int)
    requires
        forall|i: int, j: int| 0 <= i < j < indices.len() ==> indices[i] < indices[j],
        indices.len() > 0 ==> indices.last() < n,
    ensures
        ascending_below(indices, n),
{
}

} // verus!
