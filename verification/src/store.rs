//! The object store: a durable key-to-blob surface.
//!
//! An identifier maps to at most one blob; an overwrite fully replaces the
//! prior blob.  This type carries the store's logic and its model — a map
//! from identifier characters to blob bytes; a transport binding persists
//! the same map on whatever durable medium it owns.

use vstd::prelude::*;
use vstd::hash_map::StringHashMap;

verus! {

/// A key-value store of canonical-format blobs, keyed by identifier.
pub struct ObjectStore {
    blobs: StringHashMap<Vec<u8>>,
}

impl View for ObjectStore {
    type V = Map<Seq<char>, Seq<u8>>;

    /// The store is modelled as the map from each identifier to the bytes
    /// filed under it.
    closed spec fn view(&self) -> Map<Seq<char>, Seq<u8>> {
        self.blobs@.map_values(|blob: Vec<u8>| blob@)
    }
}

impl ObjectStore {
    /// An empty store.
    pub fn new() -> (store: Self)
        ensures
            store@ == Map::<Seq<char>, Seq<u8>>::empty(),
    {
        let store = ObjectStore { blobs: StringHashMap::new() };
        proof {
            assert(store@ =~= Map::<Seq<char>, Seq<u8>>::empty());
        }
        store
    }

    /// Whether an object is filed under `id`.
    pub fn contains(&self, id: &String) -> (present: bool)
        ensures
            present == self@.contains_key(id@),
    {
        self.blobs.contains_key(id.as_str())
    }

    /// The blob filed under `id`, if any.
    pub fn get<'a>(&'a self, id: &String) -> (blob: Option<&'a Vec<u8>>)
        ensures
            match blob {
                Some(b) => self@.contains_key(id@) && b@ == self@[id@],
                None => !self@.contains_key(id@),
            },
    {
        self.blobs.get(id.as_str())
    }

    /// Files `blob` under `id`, replacing in full whatever was there.
    pub fn put(&mut self, id: String, blob: Vec<u8>)
        ensures
            final(self)@ == old(self)@.insert(id@, blob@),
    {
        let ghost id_view = id@;
        let ghost blob_view = blob@;
        self.blobs.insert(id, blob);
        proof {
            assert(self@ =~= old(self)@.insert(id_view, blob_view));
        }
    }

    /// Removes the object filed under `id`; without one the store is unchanged.
    pub fn delete(&mut self, id: &String)
        ensures
            final(self)@ == old(self)@.remove(id@),
    {
        self.blobs.remove(id.as_str());
        proof {
            assert(self@ =~= old(self)@.remove(id@));
        }
    }
}

} // verus!
