//! Slots for the wakers of tasks that wait on one direction of a source.
//!
//! The slots live in a [`slab::Slab`]. Each item of this module stands for one method of it;
//! their contracts speak of what the slab holds as a map from keys to values.

use slab::Slab;
use std::task::Waker;
use vstd::prelude::*;

verus! {

/// The handle that wakes a task, [`std::task::Waker`]. It is carried about as an opaque value.
#[verifier::external_type_specification]
#[verifier::external_body]
pub struct ExWaker(Waker);

/// The slab of the `slab` crate, whose contents the names below give.
#[verifier::external_type_specification]
#[verifier::external_body]
#[verifier::reject_recursive_types(T)]
pub struct ExSlab<T>(Slab<T>);

/// What a slab of waker slots holds: its occupied keys with their values.
pub uninterp spec fn waker_slots(slots: Slab<Option<Waker>>) -> Map<usize, Option<Waker>>;

/// The key that the next value gets.
pub uninterp spec fn next_slot_key(slots: Slab<Option<Waker>>) -> usize;

/// `a` lists keys from the smallest up, none twice.
pub open spec fn ascending(a: Seq<usize>) -> bool {
    forall|i: int, j: int| 0 <= i < j < a.len() ==> a[i] < a[j]
}

/// [`Slab::new`]: a slab that holds nothing.
#[verifier::external_body]
pub(crate) fn new_slots() -> (slots: Slab<Option<Waker>>)
    ensures
        waker_slots(slots).is_empty(),
{
    Slab::new()
}

/// [`Slab::insert`]: stores the value under the key that was next, which was vacant, and returns
/// that key. The other keys keep their values.
#[verifier::external_body]
pub(crate) fn insert_slot(slots: &mut Slab<Option<Waker>>, value: Option<Waker>) -> (key: usize)
    ensures
        key == next_slot_key(*old(slots)),
        !waker_slots(*old(slots)).contains_key(key),
        waker_slots(*final(slots)) == waker_slots(*old(slots)).insert(key, value),
{
    slots.insert(value)
}

/// [`Slab::get`]: the value under the key, if the key is occupied.
#[verifier::external_body]
pub(crate) fn get_slot(slots: &Slab<Option<Waker>>, key: usize) -> (value: Option<&Option<Waker>>)
    ensures
        match value {
            Some(v) => waker_slots(*slots).contains_key(key) && *v == waker_slots(*slots)[key],
            None => !waker_slots(*slots).contains_key(key),
        },
{
    slots.get(key)
}

/// [`Slab::get_mut`]: access to the value under the key, if the key is occupied. What is written
/// through it is what the slab then holds under that key; nothing else changes.
#[verifier::external_body]
pub(crate) fn get_slot_mut(slots: &mut Slab<Option<Waker>>, key: usize) -> (value: Option<
    &mut Option<Waker>,
>)
    ensures
        match value {
            Some(v) => {
                &&& waker_slots(*old(slots)).contains_key(key)
                &&& *v == waker_slots(*old(slots))[key]
                &&& waker_slots(*final(slots)) == waker_slots(*old(slots)).insert(key, *final(v))
            },
            None => {
                &&& !waker_slots(*old(slots)).contains_key(key)
                &&& waker_slots(*final(slots)) == waker_slots(*old(slots))
            },
        },
{
    slots.get_mut(key)
}

/// [`Slab::contains`]: whether the key is occupied.
#[verifier::external_body]
pub(crate) fn contains_slot(slots: &Slab<Option<Waker>>, key: usize) -> (found: bool)
    ensures
        found == waker_slots(*slots).contains_key(key),
{
    slots.contains(key)
}

/// [`Slab::remove`]: frees an occupied key and returns its value. On a vacant key it panics.
#[verifier::external_body]
pub(crate) fn remove_slot(slots: &mut Slab<Option<Waker>>, key: usize) -> (value: Option<Waker>)
    requires
        waker_slots(*old(slots)).contains_key(key),
    ensures
        value == waker_slots(*old(slots))[key],
        waker_slots(*final(slots)) == waker_slots(*old(slots)).remove(key),
{
    slots.remove(key)
}

/// The keys that [`Slab::iter`] walks over: every occupied key once, from the smallest up.
#[verifier::external_body]
pub(crate) fn slot_keys(slots: &Slab<Option<Waker>>) -> (keys: Vec<usize>)
    ensures
        ascending(keys@),
        forall|key: usize| #[trigger]
            keys@.contains(key) <==> waker_slots(*slots).contains_key(key),
{
    slots.iter().map(|(key, _)| key).collect()
}

} // verus!
