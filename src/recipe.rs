use vstd::prelude::*;

use crate::resource::ResourceAmount;

verus! {

/// A rule that turns `inputs` into `outputs` in `craft_duration_ms` milliseconds of craft time.
#[derive(Clone, Debug)]
pub struct RecipeDefinition {
    pub inputs: Vec<ResourceAmount>,
    pub outputs: Vec<ResourceAmount>,
    pub craft_duration_ms: u64,
}

impl RecipeDefinition {
    pub fn new(inputs: Vec<ResourceAmount>, outputs: Vec<ResourceAmount>, craft_duration_ms: u64) -> (r: RecipeDefinition)
        ensures
            r.inputs@ == inputs@,
            r.outputs@ == outputs@,
            r.craft_duration_ms == craft_duration_ms,
    {
        RecipeDefinition { inputs, outputs, craft_duration_ms }
    }
}

/// The stable identifier a registry hands out for a registered recipe.
#[derive(Clone, Copy, Debug, PartialEq, Eq, Structural)]
pub struct RecipeHandle {
    pub id: u64,
}

/// Why a registry lookup failed.
#[derive(Clone, Copy, Debug, PartialEq, Eq, Structural)]
pub enum RegistryError {
    /// The handle was never handed out by this registry, or its recipe was deregistered.
    NotFound,
}

/// The catalogue of recipe definitions. Slot `i` holds the recipe of handle `i`,
/// or nothing once that recipe was deregistered; handles are never reused.
pub struct RecipeRegistry {
    slots: Vec<Option<RecipeDefinition>>,
}

impl RecipeRegistry {
    /// The slots of the registry, indexed by handle id.
    pub closed spec fn view(&self) -> Seq<Option<RecipeDefinition>> {
        self.slots@
    }

    /// The recipe that `h` resolves to, if any.
    pub open spec fn spec_lookup(&self, h: RecipeHandle) -> Option<RecipeDefinition> {
        if h.id < self@.len() {
            self@[h.id as int]
        } else {
            None
        }
    }

    /// An empty registry.
    pub fn new() -> (r: RecipeRegistry)
        ensures
            r@.len() == 0,
    {
        RecipeRegistry { slots: Vec::new() }
    }

    /// The number of handles handed out so far.
    pub fn len(&self) -> (r: usize)
        ensures
            r == self@.len(),
    {
        self.slots.len()
    }

    /// Stores `definition` under a fresh handle and returns that handle.
    /// Earlier handles keep resolving as before.
    pub fn register(&mut self, definition: RecipeDefinition) -> (h: RecipeHandle)
        requires
            old(self)@.len() < u64::MAX,
        ensures
            h.id == old(self)@.len(),
            final(self)@ == old(self)@.push(Some(definition)),
            final(self).spec_lookup(h) == Some(definition),
    {
        let h = RecipeHandle { id: self.slots.len() as u64 };
        self.slots.push(Some(definition));
        h
    }

    /// Removes the recipe of `h` from the registry; `h` resolves to nothing after.
    /// Returns whether `h` resolved before.
    pub fn deregister(&mut self, h: RecipeHandle) -> (r: bool)
        ensures
            r == old(self).spec_lookup(h) is Some,
            final(self)@.len() == old(self)@.len(),
            final(self).spec_lookup(h) is None,
            forall|g: RecipeHandle| g.id != h.id ==> final(self).spec_lookup(g) == old(self).spec_lookup(g),
    {
        if h.id < self.slots.len() as u64 {
            let i = h.id as usize;
            let was = self.slots[i].is_some();
            self.slots.set(i, None);
            was
        } else {
            false
        }
    }

    /// Replaces the whole definition that `h` resolves to, as a live edit does.
    /// Tasks on `h` see the new definition from their next advancement on.
    /// Fails with `NotFound`, changing nothing, where `h` does not resolve.
    pub fn replace(&mut self, h: RecipeHandle, definition: RecipeDefinition) -> (r: Result<(), RegistryError>)
        ensures
            old(self).spec_lookup(h) is None ==> r == Err::<(), RegistryError>(RegistryError::NotFound)
                && final(self)@ == old(self)@,
            old(self).spec_lookup(h) is Some ==> r is Ok
                && final(self)@ == old(self)@.update(h.id as int, Some(definition)),
    {
        if h.id < self.slots.len() as u64 && self.slots[h.id as usize].is_some() {
            self.slots.set(h.id as usize, Some(definition));
            Ok(())
        } else {
            Err(RegistryError::NotFound)
        }
    }

    /// The recipe that `h` resolves to, or `NotFound`.
    pub fn lookup(&self, h: RecipeHandle) -> (r: Result<&RecipeDefinition, RegistryError>)
        ensures
            self.spec_lookup(h) is None ==> r == Err::<&RecipeDefinition, RegistryError>(RegistryError::NotFound),
            self.spec_lookup(h) is Some ==> r is Ok && *r->Ok_0 == self.spec_lookup(h)->Some_0,
    {
        if h.id < self.slots.len() as u64 {
            match &self.slots[h.id as usize] {
                Some(d) => Ok(d),
                None => Err(RegistryError::NotFound),
            }
        } else {
            Err(RegistryError::NotFound)
        }
    }
}

} // verus!
