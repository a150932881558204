use std::collections::HashMap;
use std::hash::Hash;

use vstd::prelude::*;
use vstd::std_specs::hash::obeys_key_model;

use crate::error::MultiModelViewerAccessError;

verus! {

/// Whether the key type behaves as a hash map assumes: hashing is
/// deterministic, `==` holds exactly of equal keys, and a clone equals its
/// source (the key model of vstd's `HashMap` specification).
///
/// The contracts of [`MultiModelViewerModels`] hold for key types that behave so,
/// `String` among them.
pub open spec fn key_model<K>() -> bool {
    obeys_key_model::<K>()
}

/// The model stored under `key`, or the error that accessing a missing key
/// gives.
pub open spec fn lookup<K, M>(models: Map<K, M>, key: K) -> Result<M, MultiModelViewerAccessError> {
    if models.contains_key(key) {
        Ok(models[key])
    } else {
        Err(MultiModelViewerAccessError::ModelNotFound)
    }
}

/// Whether every key of `keys` names a stored model.
pub open spec fn all_present<K, M>(models: Map<K, M>, keys: Seq<K>) -> bool {
    forall|i: int| 0 <= i < keys.len() ==> models.contains_key(#[trigger] keys[i])
}

/// A model can be read back under the key it was inserted with, and inserting
/// under one key does not change what any other key gives.
pub proof fn lemma_lookup_after_insert<K, M>(models: Map<K, M>, key: K, model: M, other: K)
    ensures
        models.insert(key, model).contains_key(key),
        models.insert(key, model)[key] == model,
        lookup(models.insert(key, model), key) == Ok::<M, MultiModelViewerAccessError>(model),
        other != key ==> lookup(models.insert(key, model), other) == lookup(models, other),
{
}

/// A removed key gives `ModelNotFound`, and removing one key does not change
/// what any other key gives.
pub proof fn lemma_lookup_after_remove<K, M>(models: Map<K, M>, key: K, other: K)
    ensures
        !models.remove(key).contains_key(key),
        lookup(models.remove(key), key) == Err::<M, MultiModelViewerAccessError>(
            MultiModelViewerAccessError::ModelNotFound,
        ),
        other != key ==> lookup(models.remove(key), other) == lookup(models, other),
{
}

/// Removing a model under a key that was free before its insertion undoes the
/// insertion.
pub proof fn lemma_remove_undoes_insert<K, M>(models: Map<K, M>, key: K, model: M)
    requires
        !models.contains_key(key),
    ensures
        models.insert(key, model).remove(key) == models,
{
    assert(models.insert(key, model).remove(key) =~= models);
}

/// Updating a stored model in place changes what its key gives and nothing else;
/// the set of keys stays the same.
pub proof fn lemma_update_in_place<K, M>(models: Map<K, M>, key: K, model: M, other: K)
    requires
        models.contains_key(key),
    ensures
        models.insert(key, model).dom() == models.dom(),
        lookup(models.insert(key, model), key) == Ok::<M, MultiModelViewerAccessError>(model),
        other != key ==> lookup(models.insert(key, model), other) == lookup(models, other),
{
    assert(models.insert(key, model).dom() =~= models.dom());
}


/// Calls `HashMap::get_mut`.
///
/// Claims of it what std documents: for a key that the map holds it hands out
/// the value stored under that key, and the map afterwards holds, under that
/// key, whatever the caller left behind the reference; for any other key it
/// returns `None` and leaves the map alone. The claim is made only for key types
/// that follow the key model.
#[verifier::external_body]
fn hash_map_get_mut<'a, K: Hash + Eq, M>(map: &'a mut HashMap<K, M>, key: &K) -> (r: Option<
    &'a mut M,
>)
    ensures
        key_model::<K>() ==> match r {
            Some(m) => {
                &&& old(map)@.contains_key(*key)
                &&& *m == old(map)@[*key]
                &&& final(map)@ == old(map)@.insert(*key, *final(m))
            },
            None => {
                &&& !old(map)@.contains_key(*key)
                &&& final(map)@ == old(map)@
            },
        },
{
    map.get_mut(key)
}

/// The models of a multi-model viewer, each stored under its key.
pub struct MultiModelViewerModels<K, M> {
    /// The models by key.
    pub models: HashMap<K, M>,
}

impl<K, M> View for MultiModelViewerModels<K, M> {
    type V = Map<K, M>;

    open spec fn view(&self) -> Map<K, M> {
        self.models@
    }
}

impl<K: Hash + Eq, M> MultiModelViewerModels<K, M> {
    /// No models.
    pub fn new() -> (r: Self)
        ensures
            r@ == Map::<K, M>::empty(),
    {
        MultiModelViewerModels { models: HashMap::new() }
    }

    /// Stores `model` under `key`, and returns the model that was stored there
    /// before, if any.
    pub fn insert_model(&mut self, key: K, model: M) -> (r: Option<M>)
        ensures
            key_model::<K>() ==> {
                &&& final(self)@ == old(self)@.insert(key, model)
                &&& r == (if old(self)@.contains_key(key) {
                    Some(old(self)@[key])
                } else {
                    None
                })
            },
    {
        self.models.insert(key, model)
    }

    /// Removes the model stored under `key`, and returns it, if any.
    pub fn remove_model(&mut self, key: &K) -> (r: Option<M>)
        ensures
            key_model::<K>() ==> {
                &&& final(self)@ == old(self)@.remove(*key)
                &&& r == (if old(self)@.contains_key(*key) {
                    Some(old(self)@[*key])
                } else {
                    None
                })
            },
    {
        self.models.remove(key)
    }

    /// The model stored under `key`.
    pub fn model(&self, key: &K) -> (r: Result<&M, MultiModelViewerAccessError>)
        ensures
            key_model::<K>() ==> match r {
                Ok(m) => {
                    &&& self@.contains_key(*key)
                    &&& *m == self@[*key]
                    &&& lookup(self@, *key) == Ok::<M, MultiModelViewerAccessError>(*m)
                },
                Err(e) => {
                    &&& !self@.contains_key(*key)
                    &&& e == MultiModelViewerAccessError::ModelNotFound
                    &&& lookup(self@, *key) == Err::<M, MultiModelViewerAccessError>(e)
                },
            },
    {
        match self.models.get(key) {
            Some(m) => Ok(m),
            None => Err(MultiModelViewerAccessError::ModelNotFound),
        }
    }

    /// The model stored under `key`, to update it in place.
    pub fn model_mut(&mut self, key: &K) -> (r: Result<&mut M, MultiModelViewerAccessError>)
        ensures
            key_model::<K>() ==> match r {
                Ok(m) => {
                    &&& old(self)@.contains_key(*key)
                    &&& *m == old(self)@[*key]
                    &&& lookup(old(self)@, *key) == Ok::<M, MultiModelViewerAccessError>(*m)
                    &&& final(self)@ == old(self)@.insert(*key, *final(m))
                },
                Err(e) => {
                    &&& !old(self)@.contains_key(*key)
                    &&& e == MultiModelViewerAccessError::ModelNotFound
                    &&& lookup(old(self)@, *key) == Err::<M, MultiModelViewerAccessError>(e)
                    &&& final(self)@ == old(self)@
                },
            },
    {
        match hash_map_get_mut(&mut self.models, key) {
            Some(m) => Ok(m),
            None => Err(MultiModelViewerAccessError::ModelNotFound),
        }
    }

    /// The models that a frame renders for `keys`, in the order of `keys`.
    ///
    /// Fails with [`MultiModelViewerAccessError::ModelNotFound`] when any key
    /// names no model; then no model is handed out at all, so a frame never
    /// renders part of the requested models.
    pub fn models_to_render<'a>(&'a self, keys: &[&K]) -> (r: Result<
        Vec<&'a M>,
        MultiModelViewerAccessError,
    >)
        ensures
            key_model::<K>() ==> {
                let wanted = keys@.map_values(|k: &K| *k);
                match r {
                    Ok(v) => {
                        &&& all_present(self@, wanted)
                        &&& forall|i: int| 0 <= i < keys@.len() ==> self@.contains_key(*keys@[i])
                        &&& v@.len() == keys@.len()
                        &&& forall|i: int|
                            0 <= i < v@.len() ==> *(#[trigger] v@[i]) == self@[*keys@[i]]
                    },
                    Err(e) => {
                        &&& !all_present(self@, wanted)
                        &&& exists|i: int| 0 <= i < keys@.len() && !self@.contains_key(*keys@[i])
                        &&& e == MultiModelViewerAccessError::ModelNotFound
                    },
                }
            },
    {
        let ghost wanted = keys@.map_values(|k: &K| *k);
        let mut found: Vec<&'a M> = Vec::new();
        let mut i: usize = 0;
        while i < keys.len()
            invariant
                i <= keys.len(),
                wanted == keys@.map_values(|k: &K| *k),
                found@.len() == i,
                key_model::<K>() ==> forall|j: int|
                    0 <= j < i ==> self@.contains_key(#[trigger] wanted[j]),
                key_model::<K>() ==> forall|j: int|
                    0 <= j < i ==> *(#[trigger] found@[j]) == self@[*keys@[j]],
            decreases keys.len() - i,
        {
            match self.models.get(keys[i]) {
                Some(m) => {
                    found.push(m);
                },
                None => {
                    proof {
                        if key_model::<K>() {
                            assert(!all_present(self@, wanted)) by {
                                assert(!self@.contains_key(wanted[i as int]));
                                assert(wanted[i as int] == *keys@[i as int]);
                            }
                        }
                    }
                    return Err(MultiModelViewerAccessError::ModelNotFound);
                },
            }
            i = i + 1;
        }
        proof {
            if key_model::<K>() {
                assert(all_present(self@, wanted));
                assert forall|j: int| 0 <= j < keys@.len() implies self@.contains_key(*keys@[j]) by {
                    assert(wanted[j] == *keys@[j]);
                }
            }
        }
        Ok(found)
    }
}

} // verus!
