//! The model registry: an `indexmap::IndexMap` from model name to
//! [`Model`], read through trusted declarations.
//!
//! The validator only ever looks models up by name; what the map holds is
//! named by [`model_entries`], and every contract over the registry speaks of
//! that name.
use vstd::prelude::*;

use crate::schema::Model;
use indexmap::IndexMap;

verus! {

/// Declares `indexmap::IndexMap` so that it can stand in signatures. Values of
/// it are opaque; [`model_entries`] names what one holds.
#[verifier::external_type_specification]
#[verifier::external_body]
#[verifier::reject_recursive_types(K)]
#[verifier::reject_recursive_types(V)]
#[verifier::reject_recursive_types(S)]
pub struct ExIndexMap<K, V, S>(IndexMap<K, V, S>);

pub uninterp spec fn model_entries(models: IndexMap<String, Model>) -> Map<Seq<char>, Model>;

/// Relies on indexmap::IndexMap::get: returns a reference to the value stored
/// for the key, or None when no key with the same characters is present.
#[verifier::external_body]
pub fn models_get<'a>(models: &'a IndexMap<String, Model>, name: &String) -> (r: Option<&'a Model>)
    ensures
        match r {
            Some(model) => model_entries(*models).contains_key(name@) && *model == model_entries(
                *models,
            )[name@],
            None => !model_entries(*models).contains_key(name@),
        },
{
    models.get(name)
}

} // verus!
