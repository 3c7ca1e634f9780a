//! The codec adapter.
//!
//! Uploads arrive in whatever encoding the client chose.  The adapter
//! detects the source format from the bytes' own signature — never from a
//! client-declared type — decodes the content into an in-memory raster, and
//! re-encodes that raster into the one canonical format every stored object
//! uses.  Normalizing at write time keeps every read transformation-free.

use vstd::prelude::*;

use crate::errors::ApiError;

verus! {

/// How the decoder classifies a payload: accepted, signature not recognized
/// as any supported format, or recognized but failing to decode.
pub enum DecodeClass {
    Accepted,
    Unrecognized,
    Malformed,
}

/// The decoder's verdict on a byte sequence.  For a fixed build the verdict
/// depends on the bytes alone; its full definition is the decoder's own and
/// is not restated here.
pub uninterp spec fn decode_class(payload: Seq<u8>) -> DecodeClass;

/// The canonical re-encoding of the raster decoded from `payload`: `Some`
/// bytes when the canonical encoder accepts that raster, `None` when it does
/// not.  Meaningful only for payloads the decoder accepts; for a fixed build
/// the value depends on the payload bytes alone.
pub uninterp spec fn canonical_bytes(payload: Seq<u8>) -> Option<Seq<u8>>;

/// The shape of every canonical blob: the container signature the canonical
/// encoder writes before anything else — `RIFF`, a length, `WEBP`.
pub open spec fn canonical_container(blob: Seq<u8>) -> bool {
    &&& blob.len() >= 12
    &&& blob.subrange(0, 4) == seq![82u8, 73u8, 70u8, 70u8]
    &&& blob.subrange(8, 12) == seq![87u8, 69u8, 66u8, 80u8]
}

#[verifier::external_type_specification]
#[verifier::external_body]
pub struct ExDynamicImage(image::DynamicImage);

/// A decoded in-memory raster.  Only [`decode`] builds one, so the raster
/// held inside is always the one decoded from the recorded source bytes.
struct RasterImage {
    raster: image::DynamicImage,
    source: Vec<u8>,
}

impl View for RasterImage {
    type V = Seq<u8>;

    /// A raster is identified by the bytes it was decoded from.
    closed spec fn view(&self) -> Seq<u8> {
        self.source@
    }
}

/// Relies on `image::guess_format` and `image::load_from_memory_with_format`:
/// the guess consults only the built-in content-signature table, and handing
/// the guessed format back selects the built-in decoder for it directly, so
/// for a fixed build the outcome is a function of the payload bytes alone.
/// A failed guess is an unrecognized signature.  From the decoder, an
/// `Unsupported` error means the recognized format — or a feature of it that
/// this content needs — has no decoder support in this build, which the
/// taxonomy also reports as unreadable input; every other error means the
/// recognized content failed to decode.
#[verifier::external_body]
fn decode(payload: &Vec<u8>) -> (r: Result<RasterImage, ApiError>)
    ensures
        match r {
            Ok(img) => img@ == payload@ && decode_class(payload@) is Accepted,
            Err(ApiError::UnreadableInput(_)) => decode_class(payload@) is Unrecognized,
            Err(ApiError::InvalidImage(_)) => decode_class(payload@) is Malformed,
            Err(_) => false,
        },
{
    let format = match image::guess_format(payload.as_slice()) {
        Ok(format) => format,
        Err(e) => return Err(ApiError::UnreadableInput(e.to_string())),
    };
    match image::load_from_memory_with_format(payload.as_slice(), format) {
        Ok(raster) => Ok(RasterImage { raster, source: payload.clone() }),
        Err(image::ImageError::Unsupported(e)) => Err(ApiError::UnreadableInput(e.to_string())),
        Err(e) => Err(ApiError::InvalidImage(e.to_string())),
    }
}

/// Relies on `image::DynamicImage::write_to` with the canonical WebP target:
/// the encoder is a pure function of the raster, and the raster inside a
/// [`RasterImage`] is decoded from its recorded source bytes, so the output
/// depends on those bytes alone.  On success the encoder has written the
/// `RIFF`/`WEBP` container signature before anything else.  The encoder
/// rejects rasters whose sample layout it does not handle; nothing here
/// promises it succeeds.
#[verifier::external_body]
fn encode_canonical(img: &RasterImage) -> (r: Result<Vec<u8>, ApiError>)
    ensures
        match r {
            Ok(encoded) => {
                &&& canonical_bytes(img@) is Some
                &&& encoded@ == canonical_bytes(img@)->0
                &&& canonical_container(encoded@)
            },
            Err(e) => canonical_bytes(img@) is None && e == ApiError::EncodeInternal,
        },
{
    let mut cursor = std::io::Cursor::new(Vec::new());
    match img.raster.write_to(&mut cursor, image::ImageFormat::WebP) {
        Ok(()) => Ok(cursor.into_inner()),
        Err(_) => Err(ApiError::EncodeInternal),
    }
}

/// Decodes `payload` by content signature and re-encodes it canonically.
///
/// Success is owed exactly when the decoder accepts the payload and the
/// canonical encoder accepts the decoded raster; each failure is classified:
/// an unrecognized signature is the client's unreadable input, recognized
/// but undecodable content is the client's invalid image, and a refused
/// re-encode is an internal fault.
pub fn normalize_payload(payload: &Vec<u8>) -> (r: Result<Vec<u8>, ApiError>)
    ensures
        match r {
            Ok(canonical) => {
                &&& decode_class(payload@) is Accepted
                &&& canonical_bytes(payload@) is Some
                &&& canonical@ == canonical_bytes(payload@)->0
                &&& canonical_container(canonical@)
            },
            Err(ApiError::UnreadableInput(_)) => decode_class(payload@) is Unrecognized,
            Err(ApiError::InvalidImage(_)) => decode_class(payload@) is Malformed,
            Err(ApiError::EncodeInternal) => {
                &&& decode_class(payload@) is Accepted
                &&& canonical_bytes(payload@) is None
            },
            Err(_) => false,
        },
{
    let raster = match decode(payload) {
        Ok(raster) => raster,
        Err(e) => {
            return Err(e);
        },
    };
    encode_canonical(&raster)
}

} // verus!
