//! The hash maps of the `ahash` crate, as far as name resolution uses them.
//!
//! The verifier cannot look inside an `AHashMap`. What such a map holds is
//! therefore given a name here, one name for each choice of key and value
//! type that occurs, and the few methods that are called are wrapped in
//! functions whose contracts say what the call does to the named contents.
//! Nothing in this file is proved: the contracts restate the documented
//! behaviour of `std::collections::HashMap`, to which `AHashMap` hands every
//! one of these calls on.

use ahash::AHashMap;
use vstd::prelude::*;

verus! {

/// `ahash::AHashMap`, of which nothing is known but what the functions
/// below say.
#[verifier::external_type_specification]
#[verifier::external_body]
#[verifier::reject_recursive_types(K)]
#[verifier::reject_recursive_types(V)]
#[verifier::reject_recursive_types(S)]
pub struct ExAHashMap<K, V, S>(AHashMap<K, V, S>);

/// `ahash::RandomState`, the hasher state that an `AHashMap` has when no
/// other is named. It is only ever carried along.
#[verifier::external_type_specification]
#[verifier::external_body]
pub struct ExRandomState(ahash::RandomState);

/// `Clone::clone` of an `AHashMap`, which the derived `Clone` of the engine
/// calls. Nothing is claimed of the copy.
pub assume_specification<K, V, S>[ <AHashMap<K, V, S> as Clone>::clone ](
    m: &AHashMap<K, V, S>,
) -> (copy: AHashMap<K, V, S>)
    where K: Clone, V: Clone, S: Clone
;

/// The entries of a map from names to identifiers.
pub uninterp spec fn name_ids(m: AHashMap<String, u32>) -> Map<Seq<char>, u32>;

/// The entries of a map from identifiers to names.
pub uninterp spec fn id_names(m: AHashMap<u32, String>) -> Map<u32, Seq<char>>;

/// The entries of a map from names to names.
pub uninterp spec fn name_names(m: AHashMap<String, String>) -> Map<Seq<char>, Seq<char>>;

/// The entries of a map from names to structural paths.
pub uninterp spec fn name_paths(m: AHashMap<String, [i32; 7]>) -> Map<Seq<char>, Seq<i32>>;

/// The entries of a map from structural paths to names.
pub uninterp spec fn path_names(m: AHashMap<[i32; 7], String>) -> Map<Seq<i32>, Seq<char>>;

/// `AHashMap::default` for a map from names to identifiers: the new map has
/// no entry.
#[verifier::external_body]
pub(crate) fn name_ids_empty() -> (made: AHashMap<String, u32>)
    ensures
        name_ids(made) == (Map::<Seq<char>, u32>::empty()),
{
    AHashMap::default()
}

/// `AHashMap::default` for a map from identifiers to names: the new map has
/// no entry.
#[verifier::external_body]
pub(crate) fn id_names_empty() -> (made: AHashMap<u32, String>)
    ensures
        id_names(made) == (Map::<u32, Seq<char>>::empty()),
{
    AHashMap::default()
}

/// `AHashMap::default` for a map from names to structural paths: the new map
/// has no entry.
#[verifier::external_body]
pub(crate) fn name_paths_empty() -> (made: AHashMap<String, [i32; 7]>)
    ensures
        name_paths(made) == (Map::<Seq<char>, Seq<i32>>::empty()),
{
    AHashMap::default()
}

/// `AHashMap::default` for a map from structural paths to names: the new map
/// has no entry.
#[verifier::external_body]
pub(crate) fn path_names_empty() -> (made: AHashMap<[i32; 7], String>)
    ensures
        path_names(made) == (Map::<Seq<i32>, Seq<char>>::empty()),
{
    AHashMap::default()
}

/// `AHashMap::get` on a map from names to identifiers: the identifier stored
/// under `name`, or `None` when the map has no such key. The map is looked up
/// by the characters of `name`.
#[verifier::external_body]
pub(crate) fn name_ids_get(m: &AHashMap<String, u32>, name: &str) -> (found: Option<u32>)
    ensures
        found == (if name_ids(*m).contains_key(name@) {
            Some(name_ids(*m)[name@])
        } else {
            None
        }),
{
    m.get(name).copied()
}

/// `AHashMap::insert` on a map from names to identifiers: afterwards `name`
/// maps to `id`, and every other key maps to what it did before.
#[verifier::external_body]
pub(crate) fn name_ids_insert(m: &mut AHashMap<String, u32>, name: &str, id: u32)
    ensures
        name_ids(*final(m)) == name_ids(*old(m)).insert(name@, id),
{
    m.insert(name.to_string(), id);
}

/// `AHashMap::insert` on a map from identifiers to names: afterwards `id`
/// maps to `name`, and every other key maps to what it did before.
#[verifier::external_body]
pub(crate) fn id_names_insert(m: &mut AHashMap<u32, String>, id: u32, name: &str)
    ensures
        id_names(*final(m)) == id_names(*old(m)).insert(id, name@),
{
    m.insert(id, name.to_string());
}

/// `AHashMap::get` on a map from names to names: a copy of the name stored
/// under `name`, or `None` when the map has no such key.
#[verifier::external_body]
pub(crate) fn name_names_get(m: &AHashMap<String, String>, name: &str) -> (found: Option<String>)
    ensures
        match found {
            Some(shown) => name_names(*m).contains_key(name@) && shown@ == name_names(*m)[name@],
            None => !name_names(*m).contains_key(name@),
        },
{
    m.get(name).cloned()
}

} // verus!
