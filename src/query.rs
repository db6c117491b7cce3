use vstd::prelude::*;

verus! {

/// How an actor is found: by id, by key, by key creating it when missing, or
/// by creating it. `input` is the CBOR encoding of the creation input.
/// `region` is kept for callers but is not part of any control-plane
/// request: creation bodies carry only name, key and input.
#[derive(Debug, Clone, PartialEq, Eq)]
pub enum ActorQuery {
    GetForId { name: String, actor_id: String },
    GetForKey { name: String, key: Vec<String> },
    GetOrCreateForKey { name: String, key: Vec<String>, input: Option<Vec<u8>>, region: Option<String> },
    Create { name: String, key: Vec<String>, input: Option<Vec<u8>>, region: Option<String> },
}

} // verus!
