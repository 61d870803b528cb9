//! Which input devices there are, and which of them are listened to.

use super::attributes;
use super::attributes::{supports_absolute_axis, supports_key, supports_relative_axis};
use super::codes::{ABS_X, ABS_Y, BTN_LEFT, KEY_A, KEY_ENTER, REL_X, REL_Y};
use vstd::prelude::*;

verus! {

/// An entry of the directory of input devices: the bytes of its file name, and its path
/// as messages show it.
pub struct DevicePath {
    pub file_name: Vec<u8>,
    pub display: String,
}

/// The file names of input devices that report events begin with this.
pub open spec fn event_prefix() -> Seq<u8> {
    seq!['e' as u8, 'v' as u8, 'e' as u8, 'n' as u8, 't' as u8]
}

/// The entry is a device that reports events.
pub open spec fn is_event_device(path: DevicePath) -> bool {
    event_prefix().is_prefix_of(path.file_name@)
}

/// `a` comes before `b` in the order of their bytes, or they are equal.
pub open spec fn bytes_le(a: Seq<u8>, b: Seq<u8>) -> bool
    decreases a.len(),
{
    if a.len() == 0 {
        true
    } else if b.len() == 0 {
        false
    } else {
        a[0] < b[0] || (a[0] == b[0] && bytes_le(a.drop_first(), b.drop_first()))
    }
}

/// The file names of `paths` ascend.
pub open spec fn in_order(paths: Seq<DevicePath>) -> bool {
    forall|i: int, j: int|
        0 <= i <= j < paths.len() ==> bytes_le(
            #[trigger] paths[i].file_name@,
            #[trigger] paths[j].file_name@,
        )
}

/// `path` put in front of the first of `paths` that it may precede.
pub open spec fn inserted(paths: Seq<DevicePath>, path: DevicePath) -> Seq<DevicePath>
    decreases paths.len(),
{
    if paths.len() == 0 || bytes_le(path.file_name@, paths[0].file_name@) {
        seq![path] + paths
    } else {
        seq![paths[0]] + inserted(paths.drop_first(), path)
    }
}

/// The devices among `entries` that report events, ordered by file name; entries with
/// one name stay in their order.
pub open spec fn event_paths(entries: Seq<DevicePath>) -> Seq<DevicePath>
    decreases entries.len(),
{
    if entries.len() == 0 {
        Seq::empty()
    } else {
        let rest = event_paths(entries.drop_first());
        if is_event_device(entries[0]) {
            inserted(rest, entries[0])
        } else {
            rest
        }
    }
}

proof fn lemma_bytes_le_total(a: Seq<u8>, b: Seq<u8>)
    ensures
        bytes_le(a, b) || bytes_le(b, a),
        bytes_le(a, a),
    decreases a.len(),
{
    if a.len() > 0 {
        lemma_bytes_le_total(a.drop_first(), a.drop_first());
    }
    if a.len() > 0 && b.len() > 0 {
        lemma_bytes_le_total(a.drop_first(), b.drop_first());
    }
}

proof fn lemma_bytes_le_transitive(a: Seq<u8>, b: Seq<u8>, c: Seq<u8>)
    requires
        bytes_le(a, b),
        bytes_le(b, c),
    ensures
        bytes_le(a, c),
    decreases a.len(),
{
    if a.len() > 0 && b.len() > 0 && c.len() > 0 && a[0] == b[0] && b[0] == c[0] {
        lemma_bytes_le_transitive(a.drop_first(), b.drop_first(), c.drop_first());
    }
}

proof fn lemma_inserted(paths: Seq<DevicePath>, path: DevicePath)
    requires
        in_order(paths),
    ensures
        in_order(inserted(paths, path)),
        inserted(paths, path).to_multiset() == paths.to_multiset().insert(path),
    decreases paths.len(),
{
    broadcast use vstd::seq_lib::group_to_multiset_ensures;

    let r = inserted(paths, path);
    if paths.len() == 0 || bytes_le(path.file_name@, paths[0].file_name@) {
        vstd::seq_lib::lemma_multiset_commutative(seq![path], paths);
        assert(seq![path] =~= Seq::empty().push(path));
        assert(r.to_multiset() =~= paths.to_multiset().insert(path));
        assert forall|i: int, j: int| 0 <= i <= j < r.len() implies bytes_le(
            #[trigger] r[i].file_name@,
            #[trigger] r[j].file_name@,
        ) by {
            lemma_bytes_le_total(r[i].file_name@, r[j].file_name@);
            if i == 0 && j > 0 {
                assert(r[j] == paths[j - 1]);
                assert(bytes_le(paths[0].file_name@, paths[j - 1].file_name@));
                lemma_bytes_le_transitive(
                    path.file_name@,
                    paths[0].file_name@,
                    paths[j - 1].file_name@,
                );
            } else if i > 0 {
                assert(r[i] == paths[i - 1] && r[j] == paths[j - 1]);
            }
        }
    } else {
        let rest = paths.drop_first();
        assert forall|i: int, j: int| 0 <= i <= j < rest.len() implies bytes_le(
            #[trigger] rest[i].file_name@,
            #[trigger] rest[j].file_name@,
        ) by {
            assert(rest[i] == paths[i + 1] && rest[j] == paths[j + 1]);
        }
        lemma_inserted(rest, path);
        let tail = inserted(rest, path);
        vstd::seq_lib::lemma_multiset_commutative(seq![paths[0]], tail);
        vstd::seq_lib::lemma_multiset_commutative(seq![paths[0]], rest);
        assert(seq![paths[0]] + rest =~= paths);
        assert(r.to_multiset() =~= paths.to_multiset().insert(path));
        lemma_bytes_le_total(path.file_name@, paths[0].file_name@);
        assert forall|i: int, j: int| 0 <= i <= j < r.len() implies bytes_le(
            #[trigger] r[i].file_name@,
            #[trigger] r[j].file_name@,
        ) by {
            lemma_bytes_le_total(r[i].file_name@, r[j].file_name@);
            if i == 0 && j > 0 {
                let p = r[j];
                assert(p == tail[j - 1]);
                assert(tail.to_multiset().contains(p));
                if p != path {
                    assert(rest.to_multiset().contains(p));
                    assert(rest.contains(p));
                    let k = rest.index_of(p);
                    assert(paths[k + 1] == p);
                }
            } else if i > 0 {
                assert(r[i] == tail[i - 1] && r[j] == tail[j - 1]);
            }
        }
    }
}

/// The devices that are listed are those among the entries that report events, each as
/// often as it is there, and in ascending order.
pub proof fn event_paths_are_the_event_devices_in_order(entries: Seq<DevicePath>)
    ensures
        in_order(event_paths(entries)),
        event_paths(entries).to_multiset() == entries.filter(
            |path: DevicePath| is_event_device(path),
        ).to_multiset(),
    decreases entries.len(),
{
    broadcast use vstd::seq_lib::group_to_multiset_ensures;

    let keep = |path: DevicePath| is_event_device(path);
    if entries.len() > 0 {
        let rest = entries.drop_first();
        event_paths_are_the_event_devices_in_order(rest);
        assert(entries =~= seq![entries[0]] + rest);
        Seq::filter_distributes_over_add(seq![entries[0]], rest, keep);
        vstd::seq_lib::lemma_multiset_commutative(seq![entries[0]].filter(keep), rest.filter(keep));
        let one = seq![entries[0]];
        reveal(Seq::filter);
        assert(one.drop_last() =~= Seq::empty());
        assert(one.drop_last().filter(keep) =~= Seq::empty());
        if is_event_device(entries[0]) {
            assert(keep(entries[0]));
            assert(one.filter(keep) =~= one);
            assert(one =~= Seq::empty().push(entries[0]));
            lemma_inserted(event_paths(rest), entries[0]);
            assert(event_paths(entries).to_multiset() =~= entries.filter(keep).to_multiset());
        } else {
            assert(!keep(entries[0]));
            assert(one.filter(keep) =~= Seq::empty());
            assert(event_paths(entries).to_multiset() =~= entries.filter(keep).to_multiset());
        }
    } else {
        reveal(Seq::filter);
    }
}

/// `a` comes before `b` in the order of their bytes, or they are equal.
fn name_le(a: &Vec<u8>, b: &Vec<u8>) -> (r: bool)
    ensures
        r == bytes_le(a@, b@),
{
    let mut i: usize = 0;
    assert(a@.skip(0) =~= a@ && b@.skip(0) =~= b@);
    while i < a.len() && i < b.len()
        invariant
            i <= a.len(),
            i <= b.len(),
            bytes_le(a@, b@) == bytes_le(a@.skip(i as int), b@.skip(i as int)),
        decreases a.len() - i,
    {
        let ghost x = a@.skip(i as int);
        let ghost y = b@.skip(i as int);
        assert(x.drop_first() =~= a@.skip(i + 1) && y.drop_first() =~= b@.skip(i + 1));
        assert(x[0] == a@[i as int] && y[0] == b@[i as int]);
        if a[i] < b[i] {
            return true;
        }
        if a[i] > b[i] {
            return false;
        }
        i = i + 1;
    }
    i >= a.len()
}

/// The entry is a device that reports events.
fn reports_events(path: &DevicePath) -> (r: bool)
    ensures
        r == is_event_device(*path),
{
    let name = &path.file_name;
    name.len() >= 5 && name[0] == 'e' as u8 && name[1] == 'v' as u8 && name[2] == 'e' as u8
        && name[3] == 'n' as u8 && name[4] == 't' as u8
}

/// Puts `path` in front of the first of `paths` that it may precede.
fn insert_path(paths: &mut Vec<DevicePath>, path: DevicePath)
    requires
        old(paths).len() < usize::MAX,
    ensures
        final(paths)@ == inserted(old(paths)@, path),
{
    let mut i: usize = 0;
    assert(paths@.take(0) + inserted(paths@.skip(0), path) =~= inserted(paths@, path)) by {
        assert(paths@.skip(0) =~= paths@);
    }
    while i < paths.len() && !name_le(&path.file_name, &paths[i].file_name)
        invariant
            i <= paths.len(),
            *paths == *old(paths),
            paths@.take(i as int) + inserted(paths@.skip(i as int), path) =~= inserted(
                paths@,
                path,
            ),
        decreases paths.len() - i,
    {
        let ghost rest = paths@.skip(i as int);
        assert(rest.drop_first() =~= paths@.skip(i + 1));
        assert(paths@.take(i + 1) =~= paths@.take(i as int) + seq![rest[0]]);
        i = i + 1;
    }
    let ghost before = paths@;
    paths.insert(i, path);
    assert(paths@ =~= before.take(i as int) + (seq![path] + before.skip(i as int)));
}

/// The devices among `entries` that report events, in ascending order.
pub fn device_paths(entries: Vec<DevicePath>) -> (r: Vec<DevicePath>)
    ensures
        r@ == event_paths(entries@),
        in_order(r@),
        r@.to_multiset() == entries@.filter(
            |path: DevicePath| is_event_device(path),
        ).to_multiset(),
{
    let ghost all = entries@;
    let mut rest = entries;
    assert(all.len() == rest.len());
    let mut paths: Vec<DevicePath> = Vec::new();
    assert(all.skip(all.len() as int) =~= Seq::empty());
    assert(all.take(all.len() as int) =~= all);
    while rest.len() > 0
        invariant
            rest@ == all.take(rest.len() as int),
            rest.len() <= all.len(),
            all.len() <= usize::MAX,
            paths.len() + rest.len() <= all.len(),
            paths@ == event_paths(all.skip(rest.len() as int)),
        decreases rest.len(),
    {
        let ghost n = rest.len() as int;
        let path = rest.pop().unwrap();
        assert(rest@ =~= all.take(n - 1));
        assert(all.skip(n - 1).drop_first() =~= all.skip(n));
        if reports_events(&path) {
            proof {
                event_paths_are_the_event_devices_in_order(all.skip(n));
                lemma_inserted_len(paths@, path);
            }
            insert_path(&mut paths, path);
        }
    }
    assert(all.skip(0) =~= all);
    proof {
        event_paths_are_the_event_devices_in_order(all);
    }
    paths
}

proof fn lemma_inserted_len(paths: Seq<DevicePath>, path: DevicePath)
    ensures
        inserted(paths, path).len() == paths.len() + 1,
    decreases paths.len(),
{
    if paths.len() > 0 {
        lemma_inserted_len(paths.drop_first(), path);
    }
}

/// The device that supports `keys`, `relative` and `absolute` is a keyboard or a pointer.
pub open spec fn is_relevant(
    keys: Option<Set<u16>>,
    relative: Option<Set<u16>>,
    absolute: Option<Set<u16>>,
) -> bool {
    ||| keys matches Some(k) && (k.contains(KEY_A) || k.contains(KEY_ENTER) || k.contains(BTN_LEFT))
    ||| relative matches Some(a) && (a.contains(REL_X) || a.contains(REL_Y))
    ||| absolute matches Some(a) && (a.contains(ABS_X) || a.contains(ABS_Y))
}

/// The device is a keyboard or a pointer, by the keys and axes that it supports.
pub fn relevant(
    keys: Option<&evdev::AttributeSetRef<evdev::KeyCode>>,
    relative: Option<&evdev::AttributeSetRef<evdev::RelativeAxisCode>>,
    absolute: Option<&evdev::AttributeSetRef<evdev::AbsoluteAxisCode>>,
) -> (r: bool)
    ensures
        r == is_relevant(
            match keys {
                Some(set) => Some(attributes::key_codes(set)),
                None => None,
            },
            match relative {
                Some(set) => Some(attributes::relative_axes(set)),
                None => None,
            },
            match absolute {
                Some(set) => Some(attributes::absolute_axes(set)),
                None => None,
            },
        ),
{
    let keyboard = match keys {
        Some(set) => supports_key(set, KEY_A) || supports_key(set, KEY_ENTER) || supports_key(
            set,
            BTN_LEFT,
        ),
        None => false,
    };
    let mouse = match relative {
        Some(set) => supports_relative_axis(set, REL_X) || supports_relative_axis(set, REL_Y),
        None => false,
    };
    let screen = match absolute {
        Some(set) => supports_absolute_axis(set, ABS_X) || supports_absolute_axis(set, ABS_Y),
        None => false,
    };
    keyboard || mouse || screen
}

/// The devices that report events are those whose file name begins with the five letters
/// `event`, whatever follows them.
pub proof fn event_devices_begin_with_event(path: DevicePath)
    ensures
        is_event_device(path) <==> path.file_name@.len() >= 5 && path.file_name@[0] == 101
            && path.file_name@[1] == 118 && path.file_name@[2] == 101 && path.file_name@[3] == 110
            && path.file_name@[4] == 116,
{
    let name = path.file_name@;
    if name.len() >= 5 && name[0] == 101 && name[1] == 118 && name[2] == 101 && name[3] == 110
        && name[4] == 116 {
        assert(name.subrange(0, 5) =~= event_prefix());
    }
    if is_event_device(path) {
        assert(name.subrange(0, 5) =~= event_prefix());
        assert(name.subrange(0, 5)[0] == name[0] && name.subrange(0, 5)[1] == name[1]
            && name.subrange(0, 5)[2] == name[2] && name.subrange(0, 5)[3] == name[3]
            && name.subrange(0, 5)[4] == name[4]);
    }
}

/// `a` and `b` are equal before the index `i`, where `a` has the smaller byte.
pub open spec fn is_smaller_at(a: Seq<u8>, b: Seq<u8>, i: int) -> bool {
    &&& 0 <= i < a.len()
    &&& i < b.len()
    &&& a[i] < b[i]
    &&& forall|j: int| 0 <= j < i ==> a[j] == b[j]
}

/// The first byte in which two names differ decides which comes first; where there is none,
/// the shorter name comes first.
pub proof fn the_first_difference_decides(a: Seq<u8>, b: Seq<u8>)
    ensures
        forall|i: int| #[trigger] is_smaller_at(a, b, i) ==> bytes_le(a, b) && !bytes_le(b, a),
        (forall|j: int| 0 <= j < a.len() && j < b.len() ==> a[j] == b[j]) ==> (bytes_le(a, b)
            <==> a.len() <= b.len()),
        bytes_le(a, b) && bytes_le(b, a) ==> a == b,
        bytes_le(a, b) || bytes_le(b, a),
    decreases a.len(),
{
    lemma_bytes_le_total(a, b);
    if a.len() > 0 && b.len() > 0 {
        let x = a.drop_first();
        let y = b.drop_first();
        the_first_difference_decides(x, y);
        assert forall|i: int| #[trigger] is_smaller_at(a, b, i) implies bytes_le(a, b)
            && !bytes_le(b, a) by {
            if i > 0 {
                assert(a[0] == b[0]);
                assert forall|j: int| 0 <= j < i - 1 implies x[j] == y[j] by {
                    assert(a[j + 1] == b[j + 1]);
                }
                assert(is_smaller_at(x, y, i - 1));
            }
        }
        if forall|j: int| 0 <= j < a.len() && j < b.len() ==> a[j] == b[j] {
            assert(a[0] == b[0]);
            assert forall|j: int| 0 <= j < x.len() && j < y.len() implies x[j] == y[j] by {
                assert(a[j + 1] == b[j + 1]);
            }
        }
        if bytes_le(a, b) && bytes_le(b, a) {
            assert(x == y && a[0] == b[0]);
            assert(a =~= seq![a[0]] + x);
            assert(b =~= seq![b[0]] + y);
        }
    } else if bytes_le(a, b) && bytes_le(b, a) {
        assert(a =~= b);
    }
}

/// What is listed are the entries whose name begins with `event`, each as often as it is
/// there and no other; and of two that are listed, the later has no smaller name.
pub proof fn the_listing_is_complete_and_sorted(entries: Seq<DevicePath>)
    ensures
        forall|path: DevicePath| #[trigger]
            event_paths(entries).to_multiset().count(path) == if path.file_name@.len() >= 5
                && path.file_name@[0] == 101 && path.file_name@[1] == 118 && path.file_name@[2]
                == 101 && path.file_name@[3] == 110 && path.file_name@[4] == 116 {
                entries.to_multiset().count(path)
            } else {
                0
            },
        forall|i: int, j: int, k: int|
            0 <= i < j < event_paths(entries).len() ==> !#[trigger] is_smaller_at(
                #[trigger] event_paths(entries)[j].file_name@,
                #[trigger] event_paths(entries)[i].file_name@,
                k,
            ),
    decreases entries.len(),
{
    broadcast use vstd::seq_lib::group_to_multiset_ensures;

    let listed = event_paths(entries);
    event_paths_are_the_event_devices_in_order(entries);
    assert forall|i: int, j: int, k: int| 0 <= i < j < listed.len() implies !#[trigger] is_smaller_at(
        #[trigger] listed[j].file_name@,
        #[trigger] listed[i].file_name@,
        k,
    ) by {
        assert(bytes_le(listed[i].file_name@, listed[j].file_name@));
        the_first_difference_decides(listed[j].file_name@, listed[i].file_name@);
    }
    assert forall|path: DevicePath| #[trigger] listed.to_multiset().count(path) == if is_event_device(
        path,
    ) {
        entries.to_multiset().count(path)
    } else {
        0
    } by {
        lemma_listed_count(entries, path);
    }
    assert forall|path: DevicePath| #[trigger] listed.to_multiset().count(path) == if path.file_name@.len()
        >= 5 && path.file_name@[0] == 101 && path.file_name@[1] == 118 && path.file_name@[2] == 101
        && path.file_name@[3] == 110 && path.file_name@[4] == 116 {
        entries.to_multiset().count(path)
    } else {
        0
    } by {
        event_devices_begin_with_event(path);
    }
}

proof fn lemma_listed_count(entries: Seq<DevicePath>, path: DevicePath)
    ensures
        event_paths(entries).to_multiset().count(path) == if is_event_device(path) {
            entries.to_multiset().count(path)
        } else {
            0
        },
    decreases entries.len(),
{
    broadcast use vstd::seq_lib::group_to_multiset_ensures;

    if entries.len() > 0 {
        let rest = entries.drop_first();
        lemma_listed_count(rest, path);
        event_paths_are_the_event_devices_in_order(rest);
        let one = seq![entries[0]];
        assert(entries =~= one + rest);
        vstd::seq_lib::lemma_multiset_commutative(one, rest);
        assert(one =~= Seq::empty().push(entries[0]));
        if is_event_device(entries[0]) {
            lemma_inserted(event_paths(rest), entries[0]);
        }
    }
}

/// What `more` has is at least what `less` has: nothing where that has nothing.
pub open spec fn has_all_of(more: Option<Set<u16>>, less: Option<Set<u16>>) -> bool {
    less matches Some(l) ==> (more matches Some(m) && l.subset_of(m))
}

/// A device that supports more than one that is listened to is listened to as well: no key
/// and no axis keeps a device from it.
pub proof fn supporting_more_never_hurts(
    keys: Option<Set<u16>>,
    relative: Option<Set<u16>>,
    absolute: Option<Set<u16>>,
    more_keys: Option<Set<u16>>,
    more_relative: Option<Set<u16>>,
    more_absolute: Option<Set<u16>>,
)
    requires
        is_relevant(keys, relative, absolute),
        has_all_of(more_keys, keys),
        has_all_of(more_relative, relative),
        has_all_of(more_absolute, absolute),
    ensures
        is_relevant(more_keys, more_relative, more_absolute),
{
}

/// One of the keys A and Enter, the left button, or one axis of motion is enough for a device
/// to be listened to, whatever else it supports.
pub proof fn one_key_or_axis_is_enough(
    keys: Option<Set<u16>>,
    relative: Option<Set<u16>>,
    absolute: Option<Set<u16>>,
    code: u16,
)
    ensures
        (code == 30 || code == 28 || code == 0x110) && has_all_of(keys, Some(set![code]))
            ==> is_relevant(keys, relative, absolute),
        (code == 0 || code == 1) && has_all_of(relative, Some(set![code])) ==> is_relevant(
            keys,
            relative,
            absolute,
        ),
        (code == 0 || code == 1) && has_all_of(absolute, Some(set![code])) ==> is_relevant(
            keys,
            relative,
            absolute,
        ),
{
    assert(set![code].contains(code));
}

/// A device that has none of these is not listened to: nothing else that it supports counts.
pub proof fn nothing_else_counts(
    keys: Option<Set<u16>>,
    relative: Option<Set<u16>>,
    absolute: Option<Set<u16>>,
)
    requires
        keys matches Some(k) ==> !k.contains(30) && !k.contains(28) && !k.contains(0x110),
        relative matches Some(a) ==> !a.contains(0) && !a.contains(1),
        absolute matches Some(a) ==> !a.contains(0) && !a.contains(1),
    ensures
        !is_relevant(keys, relative, absolute),
{
}

} // verus!
