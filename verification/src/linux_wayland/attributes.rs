//! The sets of keys and axes of the `evdev` crate: what a device supports, and what the
//! virtual device is to support.

use vstd::prelude::*;

verus! {

/// The code of a key or a button, as `evdev` holds it.
#[verifier::external_type_specification]
#[verifier::external_body]
pub struct ExKeyCode(evdev::KeyCode);

/// The code of a relative axis, as `evdev` holds it.
#[verifier::external_type_specification]
#[verifier::external_body]
pub struct ExRelativeAxisCode(evdev::RelativeAxisCode);

/// The code of an absolute axis, as `evdev` holds it.
#[verifier::external_type_specification]
#[verifier::external_body]
pub struct ExAbsoluteAxisCode(evdev::AbsoluteAxisCode);

/// A set of codes of one kind that belongs to someone else, such as a device.
#[verifier::external_type_specification]
#[verifier::external_body]
#[verifier::reject_recursive_types(T)]
pub struct ExAttributeSetRef<T>(evdev::AttributeSetRef<T>);

/// The codes that a set of keys holds.
pub uninterp spec fn key_codes(set: &evdev::AttributeSetRef<evdev::KeyCode>) -> Set<u16>;

/// The codes that a set of relative axes holds.
pub uninterp spec fn relative_axes(set: &evdev::AttributeSetRef<evdev::RelativeAxisCode>) -> Set<u16>;

/// The codes that a set of absolute axes holds.
pub uninterp spec fn absolute_axes(set: &evdev::AttributeSetRef<evdev::AbsoluteAxisCode>) -> Set<u16>;

/// `evdev::AttributeSetRef::contains` on keys: whether the bit of the code is set. A code
/// beyond the end of the set is not in it.
#[verifier::external_body]
pub(crate) fn supports_key(
    set: &evdev::AttributeSetRef<evdev::KeyCode>,
    code: u16,
) -> (r: bool)
    ensures
        r == key_codes(set).contains(code),
{
    set.contains(evdev::KeyCode(code))
}

/// `evdev::AttributeSetRef::contains` on relative axes: whether the bit of the code is
/// set.
#[verifier::external_body]
pub(crate) fn supports_relative_axis(
    set: &evdev::AttributeSetRef<evdev::RelativeAxisCode>,
    code: u16,
) -> (r: bool)
    ensures
        r == relative_axes(set).contains(code),
{
    set.contains(evdev::RelativeAxisCode(code))
}

/// `evdev::AttributeSetRef::contains` on absolute axes: whether the bit of the code is
/// set.
#[verifier::external_body]
pub(crate) fn supports_absolute_axis(
    set: &evdev::AttributeSetRef<evdev::AbsoluteAxisCode>,
    code: u16,
) -> (r: bool)
    ensures
        r == absolute_axes(set).contains(code),
{
    set.contains(evdev::AbsoluteAxisCode(code))
}

/// A set of keys of its own.
#[verifier::external_body]
pub struct KeySet {
    set: evdev::AttributeSet<evdev::KeyCode>,
}

/// A set of relative axes of its own.
#[verifier::external_body]
pub struct AxisSet {
    set: evdev::AttributeSet<evdev::RelativeAxisCode>,
}

/// A set of keys has room for the codes below this one.
pub const KEY_ROOM: u16 = 0x300;

/// A set of relative axes has room for the codes below this one.
pub const AXIS_ROOM: u16 = 0x10;

/// The codes that a set of keys of its own holds.
pub uninterp spec fn held_keys(set: KeySet) -> Set<u16>;

/// The codes that a set of relative axes of its own holds.
pub uninterp spec fn held_axes(set: AxisSet) -> Set<u16>;

/// `evdev::AttributeSet::<KeyCode>::new`: a set in which no bit is set.
#[verifier::external_body]
pub(crate) fn no_keys() -> (r: KeySet)
    ensures
        held_keys(r) == Set::<u16>::empty(),
{
    KeySet { set: evdev::AttributeSet::new() }
}

/// `evdev::AttributeSetRef::insert` on keys: sets the bit of the code, and no other. It
/// panics where the set has no room for the code.
#[verifier::external_body]
pub(crate) fn insert_key(keys: &mut KeySet, code: u16)
    requires
        code < KEY_ROOM,
    ensures
        held_keys(*final(keys)) == held_keys(*old(keys)).insert(code),
{
    keys.set.insert(evdev::KeyCode(code))
}

/// `evdev::AttributeSet::deref` on keys: the same set, borrowed.
#[verifier::external_body]
pub(crate) fn borrow_keys(keys: &KeySet) -> (r: &evdev::AttributeSetRef<evdev::KeyCode>)
    ensures
        key_codes(r) == held_keys(*keys),
{
    &keys.set
}

/// `evdev::AttributeSet::<RelativeAxisCode>::new`: a set in which no bit is set.
#[verifier::external_body]
pub(crate) fn no_axes() -> (r: AxisSet)
    ensures
        held_axes(r) == Set::<u16>::empty(),
{
    AxisSet { set: evdev::AttributeSet::new() }
}

/// `evdev::AttributeSetRef::insert` on relative axes: sets the bit of the code, and no
/// other. It panics where the set has no room for the code.
#[verifier::external_body]
pub(crate) fn insert_axis(axes: &mut AxisSet, code: u16)
    requires
        code < AXIS_ROOM,
    ensures
        held_axes(*final(axes)) == held_axes(*old(axes)).insert(code),
{
    axes.set.insert(evdev::RelativeAxisCode(code))
}

/// `evdev::AttributeSet::deref` on relative axes: the same set, borrowed.
#[verifier::external_body]
pub(crate) fn borrow_axes(axes: &AxisSet) -> (r: &evdev::AttributeSetRef<evdev::RelativeAxisCode>)
    ensures
        relative_axes(r) == held_axes(*axes),
{
    &axes.set
}

impl KeySet {
    /// The set, as `evdev` takes it.
    pub fn attributes(&self) -> (r: &evdev::AttributeSetRef<evdev::KeyCode>)
        ensures
            key_codes(r) == held_keys(*self),
    {
        borrow_keys(self)
    }
}

impl AxisSet {
    /// The set, as `evdev` takes it.
    pub fn attributes(&self) -> (r: &evdev::AttributeSetRef<evdev::RelativeAxisCode>)
        ensures
            relative_axes(r) == held_axes(*self),
    {
        borrow_axes(self)
    }
}

} // verus!
