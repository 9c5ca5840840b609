//! Bounded lists of device names: the known devices, and the lines shown on
//! the screen.

use vstd::prelude::*;
use crate::text::{STRING_SIZE, text_chars};

verus! {

/// Most devices the list of known devices holds.
pub const MAX_DEVICES: usize = 20;

/// Most lines the screen list holds.
pub const GLOBAL_MAX_ITEMS: usize = 12;

/// The names that a list of known devices holds, in order.
pub uninterp spec fn device_names(
    v: heapless::Vec<heapless::String<STRING_SIZE>, MAX_DEVICES>,
) -> Seq<Seq<char>>;

/// The names that a screen list holds, in order.
pub uninterp spec fn item_names(
    v: heapless::Vec<heapless::String<STRING_SIZE>, GLOBAL_MAX_ITEMS>,
) -> Seq<Seq<char>>;

/// `heapless::Vec::new`: an empty list of devices.
#[verifier::external_body]
pub(crate) fn devices_new() -> (v: heapless::Vec<heapless::String<STRING_SIZE>, MAX_DEVICES>)
    ensures
        device_names(v) == Seq::<Seq<char>>::empty(),
{
    heapless::Vec::new()
}

/// `heapless::Vec::len`: the number of devices held, never above the
/// capacity.
#[verifier::external_body]
pub(crate) fn devices_len(v: &heapless::Vec<heapless::String<STRING_SIZE>, MAX_DEVICES>) -> (r:
    usize)
    ensures
        r == device_names(*v).len(),
        r <= MAX_DEVICES,
{
    v.len()
}

/// Indexing a `heapless::Vec`: the name at position `i`.
#[verifier::external_body]
pub(crate) fn devices_get(
    v: &heapless::Vec<heapless::String<STRING_SIZE>, MAX_DEVICES>,
    i: usize,
) -> (r: &heapless::String<STRING_SIZE>)
    requires
        i < device_names(*v).len(),
    ensures
        text_chars(*r) == device_names(*v)[i as int],
{
    &v[i]
}

/// `heapless::Vec::push`: appends the name when there is room; when the
/// list is full it is left as it was and the name is handed back.
#[verifier::external_body]
pub(crate) fn devices_push(
    v: &mut heapless::Vec<heapless::String<STRING_SIZE>, MAX_DEVICES>,
    item: heapless::String<STRING_SIZE>,
) -> (r: Result<(), heapless::String<STRING_SIZE>>)
    ensures
        device_names(*old(v)).len() < MAX_DEVICES ==> r is Ok,
        device_names(*old(v)).len() < MAX_DEVICES ==> device_names(*final(v)) == device_names(*old(v)).push(
            text_chars(item),
        ),
        device_names(*old(v)).len() >= MAX_DEVICES ==> (r matches Err(back) && back == item),
        device_names(*old(v)).len() >= MAX_DEVICES ==> *final(v) == *old(v),
{
    v.push(item)
}

/// `heapless::Vec::remove`: takes out the name at position `i`, moving the
/// later ones up by one.
#[verifier::external_body]
pub(crate) fn devices_remove(
    v: &mut heapless::Vec<heapless::String<STRING_SIZE>, MAX_DEVICES>,
    i: usize,
) -> (r: heapless::String<STRING_SIZE>)
    requires
        i < device_names(*old(v)).len(),
    ensures
        device_names(*final(v)) == device_names(*old(v)).remove(i as int),
        text_chars(r) == device_names(*old(v))[i as int],
{
    v.remove(i)
}

/// `Clone::clone` of a `heapless::Vec` of names: a list with the same names.
#[verifier::external_body]
pub(crate) fn devices_clone(v: &heapless::Vec<heapless::String<STRING_SIZE>, MAX_DEVICES>) -> (r:
    heapless::Vec<heapless::String<STRING_SIZE>, MAX_DEVICES>)
    ensures
        device_names(r) == device_names(*v),
{
    v.clone()
}

/// `heapless::Vec::new`: an empty screen list.
#[verifier::external_body]
pub(crate) fn items_new() -> (v: heapless::Vec<heapless::String<STRING_SIZE>, GLOBAL_MAX_ITEMS>)
    ensures
        item_names(v) == Seq::<Seq<char>>::empty(),
{
    heapless::Vec::new()
}

/// `heapless::Vec::len`: the number of lines held, never above the
/// capacity.
#[verifier::external_body]
pub(crate) fn items_len(v: &heapless::Vec<heapless::String<STRING_SIZE>, GLOBAL_MAX_ITEMS>) -> (r:
    usize)
    ensures
        r == item_names(*v).len(),
        r <= GLOBAL_MAX_ITEMS,
{
    v.len()
}

/// `heapless::Vec::push`: appends the line when there is room; when the
/// list is full it is left as it was and the line is handed back.
#[verifier::external_body]
pub(crate) fn items_push(
    v: &mut heapless::Vec<heapless::String<STRING_SIZE>, GLOBAL_MAX_ITEMS>,
    item: heapless::String<STRING_SIZE>,
) -> (r: Result<(), heapless::String<STRING_SIZE>>)
    ensures
        item_names(*old(v)).len() < GLOBAL_MAX_ITEMS ==> r is Ok,
        item_names(*old(v)).len() < GLOBAL_MAX_ITEMS ==> item_names(*final(v)) == item_names(*old(v)).push(
            text_chars(item),
        ),
        item_names(*old(v)).len() >= GLOBAL_MAX_ITEMS ==> (r matches Err(back) && back == item),
        item_names(*old(v)).len() >= GLOBAL_MAX_ITEMS ==> *final(v) == *old(v),
{
    v.push(item)
}

} // verus!
