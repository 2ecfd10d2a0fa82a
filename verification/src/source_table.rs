//! The table of registered sources.
//!
//! The sources live in a [`slab::Slab`]. Each function of this module stands for one method of
//! it; their contracts speak of what the slab holds as a map from keys to sources.

use crate::source::Source;
use slab::Slab;
use vstd::prelude::*;

verus! {

/// What the table holds: its occupied keys with their sources.
pub uninterp spec fn source_slots(table: Slab<Source>) -> Map<usize, Source>;

/// The key that the next source gets.
pub uninterp spec fn next_source_key(table: Slab<Source>) -> usize;

/// [`Slab::new`]: a table that holds nothing.
#[verifier::external_body]
pub(crate) fn new_table() -> (table: Slab<Source>)
    ensures
        source_slots(table).is_empty(),
{
    Slab::new()
}

/// [`Slab::vacant_key`]: the key that the next insertion uses, which is vacant.
#[verifier::external_body]
pub(crate) fn vacant_key(table: &Slab<Source>) -> (key: usize)
    ensures
        key == next_source_key(*table),
        !source_slots(*table).contains_key(key),
{
    table.vacant_key()
}

/// [`Slab::insert`]: stores the source under the key that was next, which was vacant, and returns
/// that key. The other keys keep their sources.
#[verifier::external_body]
pub(crate) fn insert_source(table: &mut Slab<Source>, source: Source) -> (key: usize)
    ensures
        key == next_source_key(*old(table)),
        !source_slots(*old(table)).contains_key(key),
        source_slots(*final(table)) == source_slots(*old(table)).insert(key, source),
{
    table.insert(source)
}

/// [`Slab::remove`]: frees an occupied key and returns its source. On a vacant key it panics.
#[verifier::external_body]
pub(crate) fn remove_source(table: &mut Slab<Source>, key: usize) -> (source: Source)
    requires
        source_slots(*old(table)).contains_key(key),
    ensures
        source == source_slots(*old(table))[key],
        source_slots(*final(table)) == source_slots(*old(table)).remove(key),
{
    table.remove(key)
}

/// [`Slab::get`]: the source under the key, if the key is occupied.
#[verifier::external_body]
pub(crate) fn get_source(table: &Slab<Source>, key: usize) -> (source: Option<&Source>)
    ensures
        match source {
            Some(s) => source_slots(*table).contains_key(key) && *s == source_slots(*table)[key],
            None => !source_slots(*table).contains_key(key),
        },
{
    table.get(key)
}

/// [`Slab::get_mut`]: access to the source under the key, if the key is occupied. What is written
/// through it is what the table then holds under that key; nothing else changes.
#[verifier::external_body]
pub(crate) fn get_source_mut(table: &mut Slab<Source>, key: usize) -> (source: Option<&mut Source>)
    ensures
        match source {
            Some(s) => {
                &&& source_slots(*old(table)).contains_key(key)
                &&& *s == source_slots(*old(table))[key]
                &&& source_slots(*final(table)) == source_slots(*old(table)).insert(key, *final(s))
            },
            None => {
                &&& !source_slots(*old(table)).contains_key(key)
                &&& source_slots(*final(table)) == source_slots(*old(table))
            },
        },
{
    table.get_mut(key)
}

} // verus!
