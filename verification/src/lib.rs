//! A verified core for a small image store.
//!
//! Clients upload arbitrary image bytes; the store normalizes every upload
//! to one canonical encoding, files it under a fresh random identifier, and
//! serves it back by identifier.  Create, replace and delete are gated by a
//! shared secret; fetch is open.  The modules hold the pieces, leaves first:
//! the error taxonomy, the codec adapter, the identifier generator, the
//! object store, and the image service that composes them.  A transport
//! binding around this crate owns sockets, multipart parsing and durable
//! files; it hands the core plain bytes and identifiers and maps each
//! outcome to a status and message of the taxonomy.

pub mod codec;
pub mod errors;
pub mod ident;
pub mod service;
pub mod store;

pub use codec::normalize_payload;
pub use errors::ApiError;
pub use ident::ID_LENGTH;
pub use ident::generate_id;
pub use service::ImageService;
pub use service::UploadImageForm;
pub use service::checking_api_key;
pub use store::ObjectStore;
