use vstd::prelude::*;

verus! {

use crate::errors::ValidationError;
use vstd::string::StrSliceExecFns;
use vstd::string::StringExecFns;

/// Whether the image crate's JPEG decoder accepts the bytes as a
/// well-formed JPEG image: a function of the bytes alone.
pub uninterp spec fn is_jpeg(b: Seq<u8>) -> bool;

/// What the base64 standard-alphabet encoder returns for the bytes: a
/// function of the bytes alone.
pub uninterp spec fn b64_encode_of(b: Seq<u8>) -> Seq<char>;

/// What the base64 standard-alphabet decoder returns for the text:
/// `Some` of the decoded bytes for well-formed base64, `None`
/// otherwise. A function of the text alone.
pub uninterp spec fn b64_decode_of(s: Seq<char>) -> Option<Seq<u8>>;

/// Bytes a photo asset may hold: empty (the absent sentinel) or a
/// well-formed JPEG image.
pub open spec fn valid_photo_bytes(b: Seq<u8>) -> bool {
    b.len() == 0 || is_jpeg(b)
}

/// The view of optional decoded bytes: their contents, when there.
pub open spec fn opt_bytes_view(r: Option<Vec<u8>>) -> Option<Seq<u8>> {
    match r {
        Some(v) => Some(v@),
        None => None,
    }
}

/// Relies on the image crate's JPEG reader: whether an in-memory byte
/// buffer decodes as a JPEG image depends on the bytes alone.
#[verifier::external_body]
fn jpeg_decodable(bytes: &[u8]) -> (r: bool)
    ensures
        r == is_jpeg(bytes@),
{
    image::io::Reader::with_format(std::io::Cursor::new(bytes), image::ImageFormat::Jpeg)
        .decode()
        .is_ok()
}

/// Relies on the base64 crate's standard-alphabet engine: encoding is
/// a function of the bytes, empty bytes encode to empty text, and
/// decoding the encoded text gives the bytes back.
#[verifier::external_body]
fn b64_encode(bytes: &[u8]) -> (r: String)
    ensures
        r@ == b64_encode_of(bytes@),
        b64_decode_of(r@) == Some(bytes@),
        bytes@.len() == 0 ==> r@.len() == 0,
{
    base64::Engine::encode(&base64::engine::general_purpose::STANDARD, bytes)
}

/// Relies on the base64 crate's standard-alphabet engine: whether text
/// decodes, and to what, depends on the text alone.
#[verifier::external_body]
fn b64_decode(s: &str) -> (r: Option<Vec<u8>>)
    ensures
        opt_bytes_view(r) == b64_decode_of(s@),
{
    match base64::Engine::decode(&base64::engine::general_purpose::STANDARD, s) {
        Ok(v) => Some(v),
        Err(_) => None,
    }
}

/// A binary photo payload, validated as JPEG data once, at
/// construction, and treated as immutable validated bytes thereafter.
///
/// The empty byte sequence is the canonical "absent" sentinel and is
/// always accepted. Construction never re-encodes: a successfully
/// built asset holds exactly the input bytes.
#[derive(PartialEq, Eq)]
pub struct JpegPhoto {
    bytes: Vec<u8>,
}

impl View for JpegPhoto {
    type V = Seq<u8>;

    closed spec fn view(&self) -> Seq<u8> {
        self.bytes@
    }
}

impl Clone for JpegPhoto {
    /// The clone holds the same validated bytes.
    fn clone(&self) -> (r: Self)
        ensures
            r@ == self@,
    {
        proof {
            use_type_invariant(self);
        }
        JpegPhoto { bytes: self.bytes.clone() }
    }
}

impl JpegPhoto {
    /// The stored bytes are empty or a well-formed JPEG image.
    #[verifier::type_invariant]
    pub closed spec fn inv(self) -> bool {
        valid_photo_bytes(self.bytes@)
    }

    /// The canonical empty (absent) asset.
    pub fn null() -> (r: JpegPhoto)
        ensures
            r@ == Seq::<u8>::empty(),
    {
        JpegPhoto { bytes: Vec::new() }
    }

    /// Whether this is the empty (absent) asset.
    pub fn is_empty(&self) -> (r: bool)
        ensures
            r == (self@.len() == 0),
    {
        self.bytes.len() == 0
    }

    /// The validated bytes, exactly as they were given at
    /// construction.
    pub fn into_bytes(self) -> (r: Vec<u8>)
        ensures
            r@ == self@,
    {
        self.bytes
    }

    /// The validated bytes, borrowed.
    pub(crate) fn bytes_slice(&self) -> (r: &[u8])
        ensures
            r@ == self@,
            valid_photo_bytes(r@),
    {
        proof {
            use_type_invariant(self);
        }
        self.bytes.as_slice()
    }

    /// Builds an asset from raw bytes. Empty input gives the empty
    /// asset; non-empty input must decode as JPEG, and is then stored
    /// unchanged; anything else is rejected as `InvalidImage`.
    pub fn from_bytes(bytes: Vec<u8>) -> (r: Result<JpegPhoto, ValidationError>)
        ensures
            r is Ok <==> valid_photo_bytes(bytes@),
            r matches Ok(p) ==> p@ == bytes@,
            r is Err ==> r == Err::<JpegPhoto, ValidationError>(ValidationError::InvalidImage),
    {
        if bytes.len() == 0 {
            Ok(JpegPhoto { bytes })
        } else if jpeg_decodable(bytes.as_slice()) {
            Ok(JpegPhoto { bytes })
        } else {
            Err(ValidationError::InvalidImage)
        }
    }

    /// Builds an asset from standard base64 text: malformed base64 is
    /// rejected as `InvalidEncoding`, and the decoded bytes then go
    /// through the same validation as `from_bytes`.
    pub fn from_base64(s: &str) -> (r: Result<JpegPhoto, ValidationError>)
        ensures
            b64_decode_of(s@) is None ==> r == Err::<JpegPhoto, ValidationError>(
                ValidationError::InvalidEncoding,
            ),
            b64_decode_of(s@) matches Some(b) ==> {
                &&& r is Ok <==> valid_photo_bytes(b)
                &&& (r matches Ok(p) ==> p@ == b)
                &&& (r is Err ==> r == Err::<JpegPhoto, ValidationError>(
                    ValidationError::InvalidImage,
                ))
            },
    {
        match b64_decode(s) {
            Some(bytes) => JpegPhoto::from_bytes(bytes),
            None => Err(ValidationError::InvalidEncoding),
        }
    }

    /// The standard base64 text of the stored bytes; the empty asset
    /// encodes to the empty string.
    pub fn to_base64(&self) -> (r: String)
        ensures
            r@ == b64_encode_of(self@),
            b64_decode_of(r@) == Some(self@),
            self@.len() == 0 ==> r@.len() == 0,
    {
        b64_encode(self.bytes.as_slice())
    }

    /// Renders the asset for logs: its base64 text, cut to 100
    /// characters with a trailing ellipsis marker when longer, wrapped
    /// as a debug tuple. Raw bytes are never shown.
    pub fn debug_render(&self) -> (r: String)
        ensures
            r@ == spec_photo_debug(self@),
    {
        let enc = b64_encode(self.bytes.as_slice());
        let mut out = String::new();
        out.append("JpegPhoto(\"b64[");
        let n = enc.as_str().unicode_len();
        if n > 100 {
            let pre = enc.as_str().substring_char(0, 100);
            out.append(pre);
            out.append(" ...");
        } else {
            out.append(enc.as_str());
        }
        out.append("]\")");
        proof {
            assert(out@ =~= spec_photo_debug(self@));
        }
        out
    }
}

/// The log rendering of a photo asset with the given bytes.
pub open spec fn spec_photo_debug(b: Seq<u8>) -> Seq<char> {
    let enc = b64_encode_of(b);
    let shown = if enc.len() > 100 {
        enc.subrange(0, 100) + " ..."@
    } else {
        enc
    };
    "JpegPhoto(\"b64["@ + shown + "]\")"@
}

/// Round trip through the textual form: decoding an asset's own
/// base64 text gives back an asset with identical bytes.
pub fn base64_roundtrip(p: &JpegPhoto) -> (r: JpegPhoto)
    ensures
        r@ == p@,
{
    proof {
        use_type_invariant(p);
    }
    let text = p.to_base64();
    match JpegPhoto::from_base64(text.as_str()) {
        Ok(q) => q,
        Err(_) => vstd::pervasive::unreached(),
    }
}

} // verus!
