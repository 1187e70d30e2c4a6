use std::marker::PhantomData;
use std::ops::Index;
use vstd::prelude::*;
use vstd::std_specs::cmp::PartialEqSpecImpl;

verus! {

/// References a resource within a [`Repository`].
///
/// An identifier is its slot index. The type parameter only keeps the
/// identifiers of different kinds of resources apart.
#[derive(Debug, Hash)]
pub struct ResourceId<T> {
    pub _phantom: PhantomData<T>,
    pub index: usize,
}

impl<T> ResourceId<T> {
    /// Constructs a new [`ResourceId`] for the slot `index`.
    pub fn new(index: usize) -> (id: Self)
        ensures
            id.index == index,
    {
        Self { _phantom: PhantomData, index }
    }
}

impl<T> Clone for ResourceId<T> {
    fn clone(&self) -> (copy: Self)
        ensures
            copy == *self,
    {
        *self
    }
}

impl<T> Copy for ResourceId<T> {

}

impl<T> PartialEq for ResourceId<T> {
    /// Two identifiers are equal when they name the same slot.
    fn eq(&self, other: &Self) -> (equal: bool) {
        self.index == other.index
    }
}

impl<T> PartialEqSpecImpl for ResourceId<T> {
    open spec fn obeys_eq_spec() -> bool {
        true
    }

    open spec fn eq_spec(&self, other: &Self) -> bool {
        self.index == other.index
    }
}

impl<T> Eq for ResourceId<T> {

}

/// What the slot `index` of `slots` holds; nothing beyond the last slot.
pub open spec fn slot_resource<T>(slots: Seq<(Option<T>, usize)>, index: int) -> Option<T> {
    if 0 <= index < slots.len() {
        slots[index].0
    } else {
        None
    }
}

/// How often the slot `index` of `slots` was written; 0 beyond the last slot.
pub open spec fn slot_generation<T>(slots: Seq<(Option<T>, usize)>, index: int) -> nat {
    if 0 <= index < slots.len() {
        slots[index].1 as nat
    } else {
        0
    }
}

/// `slots`, followed by empty slots that were never written, up to `len` slots.
pub open spec fn padded<T>(slots: Seq<(Option<T>, usize)>, len: nat) -> Seq<(Option<T>, usize)> {
    if slots.len() >= len {
        slots
    } else {
        slots + Seq::new((len - slots.len()) as nat, |i: int| (None::<T>, 0usize))
    }
}

/// The slot that an `add` writes: the one named, or else the one after the last.
pub open spec fn target_index<T>(slots: Seq<(Option<T>, usize)>, with_id: Option<ResourceId<T>>) -> nat {
    match with_id {
        Some(id) => id.index as nat,
        None => slots.len(),
    }
}

/// `slots` after `resource` was stored in the slot `index`: the slots grow to
/// reach it, the slot holds the resource, and its generation is one higher.
pub open spec fn stored<T>(slots: Seq<(Option<T>, usize)>, resource: T, index: nat) -> Seq<(Option<T>, usize)> {
    padded(slots, index + 1).update(
        index as int,
        (Some(resource), (slot_generation(slots, index as int) + 1) as usize),
    )
}

/// Manages storing and fetching specific types of resources.
///
/// A repository is a row of slots. Each slot holds at most one resource and
/// counts how often it was written, so that caches can notice a replacement.
pub struct Repository<T> {
    resources: Vec<(Option<T>, usize)>,
}

impl<T> View for Repository<T> {
    type V = Seq<(Option<T>, usize)>;

    closed spec fn view(&self) -> Seq<(Option<T>, usize)> {
        self.resources@
    }
}

impl<T> Default for Repository<T> {
    fn default() -> (repository: Self)
        ensures
            repository@ == Seq::<(Option<T>, usize)>::empty(),
    {
        Self { resources: Vec::new() }
    }
}

impl<T> Repository<T> {
    /// The resource behind `id`, if its slot holds one.
    pub open spec fn resource(&self, id: ResourceId<T>) -> Option<T> {
        slot_resource(self@, id.index as int)
    }

    /// The generation of the slot behind `id`.
    pub open spec fn generation(&self, id: ResourceId<T>) -> nat {
        slot_generation(self@, id.index as int)
    }

    /// Constructs a new, empty [`Repository`].
    pub fn new() -> (repository: Self)
        ensures
            repository@ == Seq::<(Option<T>, usize)>::empty(),
    {
        Self { resources: Vec::new() }
    }

    /// The number of slots.
    pub fn len(&self) -> (len: usize)
        ensures
            len == self@.len(),
    {
        self.resources.len()
    }

    /// Adds a resource to this [`Repository`] and returns its id.
    ///
    /// With an id the resource replaces what that slot held; without one it
    /// goes into a new slot at the end. Either way the slot's generation
    /// goes up by one.
    pub fn add(&mut self, resource: T, with_id: Option<ResourceId<T>>) -> (id: ResourceId<T>)
        requires
            target_index(old(self)@, with_id) < usize::MAX,
            slot_generation(old(self)@, target_index(old(self)@, with_id) as int) < usize::MAX,
        ensures
            id.index == target_index(old(self)@, with_id),
            final(self)@ == stored(old(self)@, resource, id.index as nat),
    {
        let index: usize = match with_id {
            Some(resource_id) => resource_id.index,
            None => self.resources.len(),
        };
        while self.resources.len() <= index
            invariant
                index < usize::MAX,
                self.resources@ == padded(old(self).resources@, self.resources@.len()),
                self.resources@.len() >= old(self).resources@.len(),
                self.resources@.len() <= index + 1 || self.resources@.len() == old(
                    self,
                ).resources@.len(),
            decreases index + 1 - self.resources@.len(),
        {
            self.resources.push((None, 0));
        }
        let generation: usize = self.resources[index].1;
        self.resources.set(index, (Some(resource), generation + 1));
        ResourceId::new(index)
    }

    /// Gets a resource using a [`ResourceId`].
    pub fn get(&self, id: ResourceId<T>) -> (found: Option<&T>)
        ensures
            match found {
                Some(resource) => self.resource(id) == Some(*resource),
                None => self.resource(id) is None,
            },
    {
        if id.index < self.resources.len() {
            self.resources[id.index].0.as_ref()
        } else {
            None
        }
    }

    /// Gets a resource mutably using a [`ResourceId`].
    ///
    /// What the caller writes through the reference is what the slot holds
    /// afterwards; the generation stays as it is.
    pub fn get_mut(&mut self, id: ResourceId<T>) -> (found: Option<&mut T>)
        ensures
            match found {
                Some(resource) => {
                    &&& old(self).resource(id) == Some(*resource)
                    &&& final(self)@ == old(self)@.update(
                        id.index as int,
                        (Some(*final(resource)), old(self)@[id.index as int].1),
                    )
                },
                None => old(self).resource(id) is None && final(self)@ == old(self)@,
            },
    {
        if id.index < self.resources.len() {
            self.resources[id.index].0.as_mut()
        } else {
            None
        }
    }

    /// Gets the generation of a resource given a [`ResourceId`].
    ///
    /// This can be useful to implement caching mechanisms.
    pub fn get_generation(&self, id: ResourceId<T>) -> (generation: usize)
        ensures
            generation == self.generation(id),
    {
        if id.index < self.resources.len() {
            self.resources[id.index].1
        } else {
            0
        }
    }
}

impl<T> vstd::std_specs::core::IndexSpecImpl<ResourceId<T>> for Repository<T> {
    open spec fn index_req(&self, id: &ResourceId<T>) -> bool {
        self.resource(*id) is Some
    }
}

impl<T> Index<ResourceId<T>> for Repository<T> {
    type Output = T;

    /// The resource behind `id`, for callers that know it exists.
    fn index(&self, id: ResourceId<T>) -> (resource: &T)
        ensures
            self.resource(id) == Some(*resource),
    {
        self.resources[id.index].0.as_ref().unwrap()
    }
}

impl<T> std::ops::IndexMut<ResourceId<T>> for Repository<T> {
    /// The resource behind `id`, to write to, for callers that know it exists.
    fn index_mut(&mut self, id: ResourceId<T>) -> (resource: &mut T)
        requires
            old(self).resource(id) is Some,
        ensures
            old(self).resource(id) == Some(*resource),
            final(self)@ == old(self)@.update(
                id.index as int,
                (Some(*final(resource)), old(self)@[id.index as int].1),
            ),
    {
        self.resources[id.index].0.as_mut().unwrap()
    }
}

/// Right after a resource was added, the slot it was given holds that
/// resource: whatever was added before, and whether the slot was named,
/// new or written before.
pub proof fn lemma_add_then_get<T>(
    slots: Seq<(Option<T>, usize)>,
    resource: T,
    with_id: Option<ResourceId<T>>,
)
    ensures
        slot_resource(
            stored(slots, resource, target_index(slots, with_id)),
            target_index(slots, with_id) as int,
        ) == Some(resource),
{
}

/// An add raises the generation of the slot that it writes by exactly one,
/// and leaves the generation of every other slot as it was.
pub proof fn lemma_add_counts_generation<T>(
    slots: Seq<(Option<T>, usize)>,
    resource: T,
    with_id: Option<ResourceId<T>>,
    other: int,
)
    requires
        slot_generation(slots, target_index(slots, with_id) as int) < usize::MAX,
    ensures
        slot_generation(
            stored(slots, resource, target_index(slots, with_id)),
            target_index(slots, with_id) as int,
        ) == slot_generation(slots, target_index(slots, with_id) as int) + 1,
        other != target_index(slots, with_id) ==> slot_generation(
            stored(slots, resource, target_index(slots, with_id)),
            other,
        ) == slot_generation(slots, other),
{
}

/// An add leaves what every other slot holds as it was.
pub proof fn lemma_add_keeps_others<T>(
    slots: Seq<(Option<T>, usize)>,
    resource: T,
    with_id: Option<ResourceId<T>>,
    other: int,
)
    requires
        other != target_index(slots, with_id),
    ensures
        slot_resource(stored(slots, resource, target_index(slots, with_id)), other)
            == slot_resource(slots, other),
{
}

/// A slot that was never written has generation 0 and holds nothing: in a
/// new repository that is every slot.
pub proof fn lemma_unwritten_slot<T>(index: int)
    ensures
        slot_generation(Seq::<(Option<T>, usize)>::empty(), index) == 0,
        slot_resource(Seq::<(Option<T>, usize)>::empty(), index) is None,
{
}

} // verus!
