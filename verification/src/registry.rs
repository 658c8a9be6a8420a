//! Process registry: the live children, keyed by process identifier.

use std::collections::hash_map::Entry;
use std::collections::HashMap;
use vstd::prelude::*;

verus! {

broadcast use vstd::std_specs::hash::group_hash_axioms;

/// Identifier that the operating system gave a child at spawn.
pub type ChildId = u32;

/// The children that were spawned and not yet reaped. `C` is the resource
/// that owns one child process.
pub struct Registry<C> {
    children: HashMap<u32, C>,
}

impl<C> View for Registry<C> {
    type V = Map<u32, C>;

    closed spec fn view(&self) -> Map<u32, C> {
        self.children@
    }
}

impl<C> Registry<C> {
    /// A registry with no child.
    pub fn new() -> (registry: Self)
        ensures
            registry@ == Map::<u32, C>::empty(),
    {
        Registry { children: HashMap::new() }
    }

    /// Registers `child` under `pid`; gives back the child that `pid` named
    /// before, if any.
    pub fn insert(&mut self, pid: u32, child: C) -> (previous: Option<C>)
        ensures
            final(self)@ == old(self)@.insert(pid, child),
            previous == (if old(self)@.contains_key(pid) {
                Some(old(self)@[pid])
            } else {
                None
            }),
    {
        self.children.insert(pid, child)
    }

    /// Whether `pid` names a live child.
    pub fn contains(&self, pid: u32) -> (live: bool)
        ensures
            live == self@.contains_key(pid),
    {
        self.children.contains_key(&pid)
    }

    /// The child that `pid` names, if it is live.
    pub fn get(&self, pid: u32) -> (child: Option<&C>)
        ensures
            match child {
                Some(c) => self@.contains_key(pid) && *c == self@[pid],
                None => !self@.contains_key(pid),
            },
    {
        self.children.get(&pid)
    }

    /// Exclusive access to the child that `pid` names, if it is live; no
    /// other entry changes.
    pub fn get_mut(&mut self, pid: u32) -> (child: Option<&mut C>)
        ensures
            match child {
                Some(c) => old(self)@.contains_key(pid) && *c == old(self)@[pid] && final(self)@
                    == old(self)@.insert(pid, *final(c)),
                None => !old(self)@.contains_key(pid) && final(self)@ == old(self)@,
            },
    {
        match self.children.entry(pid) {
            Entry::Occupied(occupied) => Some(occupied.into_mut()),
            Entry::Vacant(_) => None,
        }
    }

    /// Takes the child that `pid` names out of the registry.
    pub fn remove(&mut self, pid: u32) -> (child: Option<C>)
        ensures
            final(self)@ == old(self)@.remove(pid),
            child == (if old(self)@.contains_key(pid) {
                Some(old(self)@[pid])
            } else {
                None
            }),
    {
        self.children.remove(&pid)
    }

    /// The number of live children.
    pub fn len(&self) -> (n: usize)
        ensures
            n == self@.len(),
            self@.dom().finite(),
    {
        self.children.len()
    }
}

} // verus!
