//! The image service: the orchestrator of the four operations.
//!
//! Upload, fetch, replace and delete compose the codec adapter, the
//! identifier generator and the object store, and translate their outcomes
//! into the error taxonomy.  Mutating operations are gated by the shared
//! secret; fetch is open by construction — it takes no credential at all.
//! Each operation's contract pins the outcome and the store transition for
//! every input; the proof functions at the bottom state the laws that hold
//! across operations.

use vstd::prelude::*;

use crate::codec::canonical_bytes;
use crate::codec::canonical_container;
use crate::codec::decode_class;
use crate::codec::normalize_payload;
use crate::errors::ApiError;
use crate::ident::generate_id;
use crate::ident::valid_id;
use crate::store::ObjectStore;

verus! {

/// An upload's payload: the raw bytes of the client's file field, handed in
/// by the transport boundary after its size ceiling was enforced.
pub struct UploadImageForm {
    pub image: Vec<u8>,
}

/// The credential gate: a caller is let through exactly when it presents a
/// credential equal to the configured secret.
pub fn checking_api_key(presented: Option<&String>, api_key: &String) -> (ok: bool)
    ensures
        ok == (presented matches Some(k) && k@ == api_key@),
{
    match presented {
        Some(k) => *k == *api_key,
        None => false,
    }
}

/// The image service over its object store, configured with the shared
/// secret that gates every mutating operation.
pub struct ImageService {
    api_key: String,
    store: ObjectStore,
}

impl View for ImageService {
    type V = Map<Seq<char>, Seq<u8>>;

    /// The service is modelled by its store: the map from each identifier
    /// to the canonical bytes filed under it.
    closed spec fn view(&self) -> Map<Seq<char>, Seq<u8>> {
        self.store@
    }
}

impl ImageService {
    /// The configured secret.
    pub closed spec fn secret(&self) -> Seq<char> {
        self.api_key@
    }

    /// True when the presented credential equals the configured secret.
    pub open spec fn authorized(&self, presented: Option<&String>) -> bool {
        presented matches Some(k) && k@ == self.secret()
    }

    /// A fresh service around an empty store.
    pub fn new(api_key: String) -> (service: Self)
        ensures
            service@ == Map::<Seq<char>, Seq<u8>>::empty(),
            service.secret() == api_key@,
    {
        ImageService { api_key, store: ObjectStore::new() }
    }

    /// Upload: normalize the payload and file it under a fresh identifier.
    ///
    /// Without a valid credential nothing happens and the caller is turned
    /// away.  Otherwise success is owed exactly when the codec accepts the
    /// payload; the store then gains the payload's canonical encoding under
    /// the returned identifier, and every failure leaves the store as it was.
    /// The second-to-last clause states the owed success on its own: an
    /// authorized upload whose payload both codec steps accept always comes
    /// back created, with a well-formed identifier and the canonical bytes
    /// stored.
    pub fn create(&mut self, presented: Option<&String>, form: &UploadImageForm) -> (r: Result<
        String,
        ApiError,
    >)
        ensures
            final(self).secret() == old(self).secret(),
            !old(self).authorized(presented) ==> {
                &&& r == Err::<String, ApiError>(ApiError::Unauthorized)
                &&& final(self)@ == old(self)@
            },
            old(self).authorized(presented) ==> match r {
                Ok(id) => {
                    &&& decode_class(form.image@) is Accepted
                    &&& canonical_bytes(form.image@) is Some
                    &&& canonical_container(canonical_bytes(form.image@)->0)
                    &&& valid_id(id@)
                    &&& final(self)@ == old(self)@.insert(id@, canonical_bytes(form.image@)->0)
                },
                Err(e) => final(self)@ == old(self)@ && match e {
                    ApiError::UnreadableInput(_) => decode_class(form.image@) is Unrecognized,
                    ApiError::InvalidImage(_) => decode_class(form.image@) is Malformed,
                    ApiError::EncodeInternal => {
                        &&& decode_class(form.image@) is Accepted
                        &&& canonical_bytes(form.image@) is None
                    },
                    _ => false,
                },
            },
            (old(self).authorized(presented) && decode_class(form.image@) is Accepted
                && canonical_bytes(form.image@) is Some) ==> (r matches Ok(id) && valid_id(id@)
                && final(self)@ == old(self)@.insert(id@, canonical_bytes(form.image@)->0)),
    {
        if !checking_api_key(presented, &self.api_key) {
            return Err(ApiError::Unauthorized);
        }
        let canonical = match normalize_payload(&form.image) {
            Ok(canonical) => canonical,
            Err(e) => {
                return Err(e);
            },
        };
        let id = generate_id();
        self.store.put(id.clone(), canonical);
        Ok(id)
    }

    /// Read: hand back the canonical bytes filed under `id`, which need no
    /// further transformation.  Open to anyone; there is no credential to
    /// present.
    pub fn fetch<'a>(&'a self, id: &String) -> (r: Result<&'a Vec<u8>, ApiError>)
        ensures
            self@.contains_key(id@) ==> (r matches Ok(blob) && blob@ == self@[id@]),
            !self@.contains_key(id@) ==> r == Err::<&'a Vec<u8>, ApiError>(ApiError::NotFound),
    {
        match self.store.get(id) {
            Some(blob) => Ok(blob),
            None => Err(ApiError::NotFound),
        }
    }

    /// Update: overwrite the object under `id` with the payload's canonical
    /// encoding.
    ///
    /// Without a valid credential nothing happens.  A missing `id` is
    /// reported before the payload is touched; with the object present,
    /// success is owed exactly when the codec accepts the payload, and the
    /// new bytes fully replace the old ones.  The second-to-last clause
    /// states the owed success on its own: an authorized replace of a
    /// present object with a payload both codec steps accept always comes
    /// back updated, with the new canonical bytes stored under `id`.
    pub fn replace(&mut self, presented: Option<&String>, id: &String, form: &UploadImageForm) -> (r:
        Result<(), ApiError>)
        ensures
            final(self).secret() == old(self).secret(),
            !old(self).authorized(presented) ==> {
                &&& r == Err::<(), ApiError>(ApiError::Unauthorized)
                &&& final(self)@ == old(self)@
            },
            old(self).authorized(presented) && !old(self)@.contains_key(id@) ==> {
                &&& r == Err::<(), ApiError>(ApiError::NotFound)
                &&& final(self)@ == old(self)@
            },
            old(self).authorized(presented) && old(self)@.contains_key(id@) ==> match r {
                Ok(_) => {
                    &&& decode_class(form.image@) is Accepted
                    &&& canonical_bytes(form.image@) is Some
                    &&& canonical_container(canonical_bytes(form.image@)->0)
                    &&& final(self)@ == old(self)@.insert(id@, canonical_bytes(form.image@)->0)
                },
                Err(e) => final(self)@ == old(self)@ && match e {
                    ApiError::UnreadableInput(_) => decode_class(form.image@) is Unrecognized,
                    ApiError::InvalidImage(_) => decode_class(form.image@) is Malformed,
                    ApiError::EncodeInternal => {
                        &&& decode_class(form.image@) is Accepted
                        &&& canonical_bytes(form.image@) is None
                    },
                    _ => false,
                },
            },
            (old(self).authorized(presented) && old(self)@.contains_key(id@) && decode_class(
                form.image@,
            ) is Accepted && canonical_bytes(form.image@) is Some) ==> (r == Ok::<(), ApiError>(())
                && final(self)@ == old(self)@.insert(id@, canonical_bytes(form.image@)->0)),
    {
        if !checking_api_key(presented, &self.api_key) {
            return Err(ApiError::Unauthorized);
        }
        if !self.store.contains(id) {
            return Err(ApiError::NotFound);
        }
        let canonical = match normalize_payload(&form.image) {
            Ok(canonical) => canonical,
            Err(e) => {
                return Err(e);
            },
        };
        self.store.put(id.clone(), canonical);
        Ok(())
    }

    /// Delete: remove the object under `id`.
    ///
    /// Without a valid credential nothing happens; without the object the
    /// caller learns it was never there; otherwise the object is gone and
    /// the rest of the store is untouched.
    pub fn delete(&mut self, presented: Option<&String>, id: &String) -> (r: Result<(), ApiError>)
        ensures
            final(self).secret() == old(self).secret(),
            !old(self).authorized(presented) ==> {
                &&& r == Err::<(), ApiError>(ApiError::Unauthorized)
                &&& final(self)@ == old(self)@
            },
            old(self).authorized(presented) && !old(self)@.contains_key(id@) ==> {
                &&& r == Err::<(), ApiError>(ApiError::NotFound)
                &&& final(self)@ == old(self)@
            },
            old(self).authorized(presented) && old(self)@.contains_key(id@) ==> {
                &&& r == Ok::<(), ApiError>(())
                &&& final(self)@ == old(self)@.remove(id@)
            },
    {
        if !checking_api_key(presented, &self.api_key) {
            return Err(ApiError::Unauthorized);
        }
        if !self.store.contains(id) {
            return Err(ApiError::NotFound);
        }
        self.store.delete(id);
        Ok(())
    }
}

/// Law: a fetch right after a successful upload returns exactly the
/// canonical encoding of the uploaded payload.  An upload that returns `id`
/// turns the store `objects` into `objects.insert(id, canonical)`, and the
/// fetch contract reads that entry back unchanged; decoding it recovers the
/// uploaded raster up to the canonical format's own tolerance.
pub proof fn lemma_create_then_fetch(objects: Map<Seq<char>, Seq<u8>>, id: Seq<char>, payload: Seq<
    u8,
>)
    ensures
        canonical_bytes(payload) is Some ==> {
            let after = objects.insert(id, canonical_bytes(payload)->0);
            &&& after.contains_key(id)
            &&& after[id] == canonical_bytes(payload)->0
        },
        forall|other: Seq<char>|
            other != id && objects.contains_key(other) ==> objects.insert(
                id,
                canonical_bytes(payload)->0,
            )[other] == objects[other],
{
}

/// Law: after a successful delete of `id`, a later fetch of `id` finds
/// nothing — by the fetch contract it returns not-found — and a later
/// delete of `id` likewise reports not-found.
pub proof fn lemma_delete_then_gone(objects: Map<Seq<char>, Seq<u8>>, id: Seq<char>)
    ensures
        !objects.remove(id).contains_key(id),
{
}

/// Law: replace overwrites, never appends.  Whatever two stores held under
/// `id` before — in particular, whatever the prior content was — a
/// successful replace with the same payload leaves the same bytes under
/// `id`: content derived from the new payload alone.  Every other
/// identifier keeps its prior content.
pub proof fn lemma_replace_overwrites(
    before: Map<Seq<char>, Seq<u8>>,
    other_before: Map<Seq<char>, Seq<u8>>,
    id: Seq<char>,
    payload: Seq<u8>,
)
    ensures
        canonical_bytes(payload) is Some ==> before.insert(id, canonical_bytes(payload)->0)[id]
            == other_before.insert(id, canonical_bytes(payload)->0)[id],
        forall|other: Seq<char>|
            other != id && before.contains_key(other) ==> before.insert(
                id,
                canonical_bytes(payload)->0,
            )[other] == before[other],
{
}

} // verus!
