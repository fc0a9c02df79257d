//! The registry of live editors.

use crate::wrapper::AliasEditorWrapper;
use std::collections::HashMap;
use vstd::prelude::*;

verus! {

broadcast use vstd::std_specs::hash::group_hash_axioms;

/// What the plugin owns of one live editor: the display handle that it shares
/// with the host, and the control wrapper that only the registry owns.
pub struct EditorStorage<P, E> {
    pub panel: P,
    pub wrapper: AliasEditorWrapper<E>,
}

/// The live editors, each under its identity.
pub struct InstanceRegistry<P, E> {
    entries: HashMap<usize, EditorStorage<P, E>>,
}

impl<P, E> View for InstanceRegistry<P, E> {
    type V = Map<usize, EditorStorage<P, E>>;

    closed spec fn view(&self) -> Map<usize, EditorStorage<P, E>> {
        self.entries@
    }
}

impl<P, E> InstanceRegistry<P, E> {
    /// A registry holds finitely many editors.
    pub proof fn lemma_finite(&self)
        ensures
            self@.dom().finite(),
    {
    }

    /// A registry without editors.
    pub fn new() -> (r: Self)
        ensures
            r@ == Map::<usize, EditorStorage<P, E>>::empty(),
    {
        InstanceRegistry { entries: HashMap::new() }
    }

    /// The number of live editors.
    pub fn len(&self) -> (r: usize)
        ensures
            r == self@.len(),
    {
        self.entries.len()
    }

    /// Whether no editor is live.
    pub fn is_empty(&self) -> (r: bool)
        ensures
            r == (self@.len() == 0),
    {
        proof {
            self.lemma_finite();
            if self@.len() == 0 {
                self@.dom().lemma_len0_is_empty();
            }
        }
        self.entries.len() == 0
    }

    /// Whether an editor is stored under `identity`.
    pub fn contains(&self, identity: usize) -> (r: bool)
        ensures
            r == self@.contains_key(identity),
    {
        self.entries.contains_key(&identity)
    }

    /// Stores `instance` under `identity`, which must be free. Every other
    /// entry stays as it was.
    pub fn insert(&mut self, identity: usize, instance: EditorStorage<P, E>)
        requires
            !old(self)@.contains_key(identity),
        ensures
            final(self)@ == old(self)@.insert(identity, instance),
            final(self)@.len() == old(self)@.len() + 1,
    {
        proof {
            old(self).lemma_finite();
        }
        self.entries.insert(identity, instance);
    }

    /// The editor stored under `identity`, if there is one.
    pub fn get(&self, identity: usize) -> (r: Option<&EditorStorage<P, E>>)
        ensures
            match r {
                Some(instance) => self@.contains_key(identity) && *instance == self@[identity],
                None => !self@.contains_key(identity),
            },
    {
        self.entries.get(&identity)
    }

    /// Takes the editor stored under `identity` out of the registry and hands
    /// it over; without such an editor nothing changes. The plugin itself
    /// releases its editors only all at once: this is for a host that closes
    /// one editor.
    pub fn remove(&mut self, identity: usize) -> (r: Option<EditorStorage<P, E>>)
        ensures
            final(self)@ == old(self)@.remove(identity),
            match r {
                Some(instance) => old(self)@.contains_key(identity) && instance == old(self)@[identity],
                None => !old(self)@.contains_key(identity),
            },
    {
        self.entries.remove(&identity)
    }

    /// Removes and drops every editor, and returns how many there were.
    pub fn clear(&mut self) -> (count: usize)
        ensures
            count == old(self)@.len(),
            final(self)@ == Map::<usize, EditorStorage<P, E>>::empty(),
    {
        let count: usize = self.entries.len();
        self.entries.clear();
        count
    }
}

} // verus!
