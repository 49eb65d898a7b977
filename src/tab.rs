use dashmap::{DashMap, ReadOnlyView};
use std::collections::hash_map::RandomState;
use vstd::prelude::*;

use crate::err::ResNotFoundError;
use crate::id::{id_string, Id};

verus! {

#[verifier::external_type_specification]
#[verifier::external_body]
#[verifier::reject_recursive_types(K)]
#[verifier::reject_recursive_types(V)]
#[verifier::reject_recursive_types(S)]
pub struct ExDashMap<K, V, S>(DashMap<K, V, S>);

#[verifier::external_type_specification]
#[verifier::external_body]
#[verifier::reject_recursive_types(K)]
#[verifier::reject_recursive_types(V)]
#[verifier::reject_recursive_types(S)]
pub struct ExReadOnlyView<K, V, S>(ReadOnlyView<K, V, S>);

/// What a building index holds: the slot of each identifier's string form.
pub uninterp spec fn slots(m: DashMap<String, usize, RandomState>) -> Map<Seq<char>, usize>;

/// What a frozen index holds: the slot of each identifier's string form.
pub uninterp spec fn frozen_slots(m: ReadOnlyView<String, usize, RandomState>) -> Map<Seq<char>, usize>;

/// Relies on `DashMap::new`: a new map is empty.
#[verifier::external_body]
fn index_new() -> (r: DashMap<String, usize>)
    ensures
        slots(r).dom().is_empty(),
{
    DashMap::new()
}

/// Relies on `DashMap::get`: the value stored under the key, if any.
#[verifier::external_body]
fn index_get(m: &DashMap<String, usize>, key: &String) -> (r: Option<usize>)
    ensures
        r == (if slots(*m).contains_key(key@) {
            Some(slots(*m)[key@])
        } else {
            None
        }),
{
    m.get(key).map(|e| *e)
}

/// Relies on `DashMap::insert`: the key now maps to the value, and the value that it
/// mapped to before, if any, comes back.
#[verifier::external_body]
fn index_insert(m: &mut DashMap<String, usize>, key: String, slot: usize) -> (r: Option<usize>)
    ensures
        slots(*final(m)) == slots(*old(m)).insert(key@, slot),
        r == (if slots(*old(m)).contains_key(key@) {
            Some(slots(*old(m))[key@])
        } else {
            None
        }),
{
    m.insert(key, slot)
}

/// Relies on `DashMap::into_read_only`: the view holds the same entries.
#[verifier::external_body]
fn index_freeze(m: DashMap<String, usize>) -> (r: ReadOnlyView<String, usize>)
    ensures
        frozen_slots(r) == slots(m),
{
    m.into_read_only()
}

/// Relies on `ReadOnlyView::get`: the value stored under the key, if any.
#[verifier::external_body]
fn frozen_get(m: &ReadOnlyView<String, usize>, key: &String) -> (r: Option<usize>)
    ensures
        r == (if frozen_slots(*m).contains_key(key@) {
            Some(frozen_slots(*m)[key@])
        } else {
            None
        }),
{
    m.get(key).copied()
}

/// Relies on `ReadOnlyView::len`: the number of entries.
#[verifier::external_body]
fn frozen_len(m: &ReadOnlyView<String, usize>) -> (r: usize)
    ensures
        r == frozen_slots(*m).dom().len(),
{
    m.len()
}

/// The resources that an index and its slots describe, by the string form of their
/// identifiers.
pub open spec fn entries<T>(index: Map<Seq<char>, usize>, values: Seq<T>) -> Map<Seq<char>, T> {
    Map::new(|k: Seq<char>| index.contains_key(k), |k: Seq<char>| values[index[k] as int])
}

/// Every slot of the index is in range, and no two keys share one.
pub open spec fn index_wf<T>(index: Map<Seq<char>, usize>, values: Seq<T>) -> bool {
    &&& forall|k: Seq<char>| #[trigger] index.contains_key(k) ==> index[k] < values.len()
    &&& forall|k1: Seq<char>, k2: Seq<char>|
        #[trigger] index.contains_key(k1) && #[trigger] index.contains_key(k2) && index[k1]
            == index[k2] ==> k1 == k2
}

/// A registry being built: a mutable map from [`Id`] to resource.
///
/// Fill it with [`RegistryBuilder::insert`], then freeze it with [`RegistryBuilder::build`].
pub struct RegistryBuilder<T> {
    index: DashMap<String, usize>,
    values: Vec<T>,
}

impl<T> View for RegistryBuilder<T> {
    type V = Map<Seq<char>, T>;

    closed spec fn view(&self) -> Map<Seq<char>, T> {
        entries(slots(self.index), self.values@)
    }
}

impl<T> RegistryBuilder<T> {
    /// The builder's index and its slots agree.
    pub closed spec fn wf(&self) -> bool {
        index_wf(slots(self.index), self.values@)
    }

    /// Creates an empty builder.
    pub fn new() -> (r: Self)
        ensures
            r.wf(),
            r@ == Map::<Seq<char>, T>::empty(),
    {
        let r = RegistryBuilder { index: index_new(), values: Vec::new() };
        assert(r@ =~= Map::<Seq<char>, T>::empty());
        r
    }

    /// Registers `value` under `id`, giving back the resource that `id` held before.
    pub fn insert(&mut self, id: Id<T>, value: T) -> (r: Option<T>)
        requires
            old(self).wf(),
        ensures
            final(self).wf(),
            final(self)@ == old(self)@.insert(id_string(id@), value),
            r == (if old(self)@.contains_key(id_string(id@)) {
                Some(old(self)@[id_string(id@)])
            } else {
                None
            }),
    {
        let key = id.to_string();
        match index_get(&self.index, &key) {
            Some(slot) => {
                let mut v = value;
                self.values.set_and_swap(slot, &mut v);
                assert(self@ =~= old(self)@.insert(key@, value));
                Some(v)
            },
            None => {
                let slot = self.values.len();
                index_insert(&mut self.index, key, slot);
                self.values.push(value);
                assert(self@ =~= old(self)@.insert(key@, value));
                None
            },
        }
    }

    /// Freezes the builder into a [`Registry`] that holds the same entries and that
    /// nothing can insert into.
    pub fn build(self) -> (r: Registry<T>)
        requires
            self.wf(),
        ensures
            r@ == self@,
    {
        let RegistryBuilder { index, values } = self;
        Registry { index: index_freeze(index), values }
    }
}

/// A frozen registry: a read-only map from [`Id`] to resource.
///
/// Build one with [`RegistryBuilder`].
pub struct Registry<T> {
    index: ReadOnlyView<String, usize>,
    values: Vec<T>,
}

impl<T> View for Registry<T> {
    type V = Map<Seq<char>, T>;

    closed spec fn view(&self) -> Map<Seq<char>, T> {
        entries(frozen_slots(self.index), self.values@)
    }
}

impl<T> Registry<T> {
    #[verifier::type_invariant]
    closed spec fn inv(&self) -> bool {
        index_wf(frozen_slots(self.index), self.values@)
    }

    /// The resource registered under `id`, if any.
    pub fn get(&self, id: &Id<T>) -> (r: Option<&T>)
        ensures
            r == (if self@.contains_key(id_string(id@)) {
                Some(&self@[id_string(id@)])
            } else {
                None
            }),
    {
        proof {
            use_type_invariant(self);
        }
        let key = id.to_string();
        match frozen_get(&self.index, &key) {
            Some(slot) => Some(&self.values[slot]),
            None => None,
        }
    }

    /// Whether a resource is registered under `id`.
    pub fn contains_key(&self, id: &Id<T>) -> (r: bool)
        ensures
            r == self@.contains_key(id_string(id@)),
    {
        self.get(id).is_some()
    }

    /// How many resources are registered.
    pub fn len(&self) -> (r: usize)
        ensures
            r == self@.dom().len(),
    {
        let r = frozen_len(&self.index);
        assert(self@.dom() =~= frozen_slots(self.index).dom());
        r
    }

    /// The resource registered under `id`, or an error that names `id`.
    pub fn reg(&self, id: Id<T>) -> (r: Result<&T, ResNotFoundError<T>>)
        ensures
            match r {
                Ok(v) => self@.contains_key(id_string(id@)) && *v == self@[id_string(id@)],
                Err(e) => !self@.contains_key(id_string(id@)) && e.id() == id@,
            },
    {
        match self.get(&id) {
            Some(v) => Ok(v),
            None => Err(ResNotFoundError::new(id)),
        }
    }
}

} // verus!
