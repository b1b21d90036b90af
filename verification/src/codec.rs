use vstd::prelude::*;

verus! {

use std::collections::hash_map::DefaultHasher;
use std::hash::Hasher;

use crate::errors::CodecError;
use crate::identifier::opt_text_view;
use crate::photo::JpegPhoto;
use crate::photo::opt_bytes_view;
use crate::photo::valid_photo_bytes;
use crate::time::Timestamp;
use vstd::bytes::lemma_auto_spec_u64_to_from_le_bytes;
use vstd::bytes::spec_u64_from_le_bytes;
use vstd::bytes::spec_u64_to_le_bytes;
use vstd::bytes::u64_to_le_bytes;
use vstd::std_specs::hash::DefaultHasherAdditionalSpecFns;
use vstd::string::StringExecFns;
use vstd::utf8::encode_utf8;

/// The encoding of a text value: its UTF-8 byte count as 8
/// little-endian bytes, then its UTF-8 bytes.
pub open spec fn spec_encode_text(s: Seq<char>) -> Seq<u8> {
    spec_u64_to_le_bytes(encode_utf8(s).len() as u64) + encode_utf8(s)
}

/// The encoding of an 8-byte integer value: its 8 little-endian bytes.
pub open spec fn spec_encode_i64(i: i64) -> Seq<u8> {
    spec_u64_to_le_bytes(i as u64)
}

/// The encoding of a byte-sequence value: its byte count as 8
/// little-endian bytes, then the bytes.
pub open spec fn spec_encode_bytes(b: Seq<u8>) -> Seq<u8> {
    spec_u64_to_le_bytes(b.len() as u64) + b
}

/// What the binary encoder produces for a timestamp with the given
/// seconds and nanoseconds: a function of the timestamp alone.
pub uninterp spec fn timestamp_encoding_of(secs: int, nsecs: int) -> Seq<u8>;

/// The encoding of a timestamp value.
pub open spec fn spec_encode_timestamp(t: Timestamp) -> Seq<u8> {
    timestamp_encoding_of(t.secs as int, t.nsecs as int)
}

/// What decoding bytes as a text value returns: `Some` of the text
/// when the bytes decode, `None` otherwise. A function of the bytes
/// alone.
pub uninterp spec fn text_decoding_of(b: Seq<u8>) -> Option<Seq<char>>;

/// Relies on bincode's `serialize` under its default configuration
/// (fixed-width little-endian integers, byte-count prefix): a string
/// encodes as its UTF-8 byte count followed by its UTF-8 bytes.
#[verifier::external_body]
fn bincode_encode_text(s: &str) -> (r: Vec<u8>)
    ensures
        r@ == spec_encode_text(s@),
{
    bincode::serialize(s).unwrap()
}

/// Relies on bincode's `serialize` under its default configuration:
/// an `i64` encodes as its 8 little-endian bytes.
#[verifier::external_body]
fn bincode_encode_i64(i: i64) -> (r: Vec<u8>)
    ensures
        r@ == spec_encode_i64(i),
{
    bincode::serialize(&i).unwrap()
}

/// Relies on bincode's `serialize` under its default configuration: a
/// byte slice encodes as its byte count followed by the bytes.
#[verifier::external_body]
fn bincode_encode_bytes(b: &[u8]) -> (r: Vec<u8>)
    ensures
        r@ == spec_encode_bytes(b@),
{
    bincode::serialize(b).unwrap()
}

/// Relies on bincode's `serialize` of a chrono naive datetime: the
/// encoding is a function of the timestamp's seconds and nanoseconds
/// alone. The well-formedness bound keeps the value inside chrono's
/// representable range.
#[verifier::external_body]
fn bincode_encode_timestamp(t: &Timestamp) -> (r: Vec<u8>)
    requires
        t.well_formed(),
    ensures
        r@ == timestamp_encoding_of(t.secs as int, t.nsecs as int),
{
    let dt = chrono::DateTime::<chrono::Utc>::from_timestamp(t.secs, t.nsecs).unwrap().naive_utc();
    bincode::serialize(&dt).unwrap()
}

/// Relies on bincode's `deserialize` into a string: whether the bytes
/// decode, and to what, depends on the bytes alone; the encoding of
/// any text decodes back to exactly that text; and decoding fails when
/// the input is shorter than its length prefix asks for.
#[verifier::external_body]
fn bincode_decode_text(b: &[u8]) -> (r: Option<String>)
    ensures
        opt_text_view(r) == text_decoding_of(b@),
        forall|s: Seq<char>| b@ == spec_encode_text(s) ==> opt_text_view(r) == Some(s),
        b@.len() < 8 ==> r == None::<String>,
        b@.len() >= 8 && spec_u64_from_le_bytes(b@.subrange(0, 8)) as int > b@.len() - 8
            ==> r == None::<String>,
{
    bincode::deserialize::<String>(b).ok()
}

/// Relies on bincode's `deserialize` into an `i64` under the default
/// configuration: it reads exactly the first 8 bytes as a
/// little-endian integer (trailing bytes are allowed) and fails on
/// shorter input.
#[verifier::external_body]
fn bincode_decode_i64(b: &[u8]) -> (r: Option<i64>)
    ensures
        b@.len() >= 8 ==> r == Some(spec_u64_from_le_bytes(b@.subrange(0, 8)) as i64),
        b@.len() < 8 ==> r == None::<i64>,
{
    bincode::deserialize::<i64>(b).ok()
}

/// Relies on bincode's `deserialize` into a byte vector: the encoding
/// of any byte sequence decodes back to exactly that sequence.
#[verifier::external_body]
fn bincode_decode_bytes(b: &[u8]) -> (r: Option<Vec<u8>>)
    ensures
        forall|v: Seq<u8>| b@ == spec_encode_bytes(v) ==> opt_bytes_view(r) == Some(v),
{
    bincode::deserialize::<Vec<u8>>(b).ok()
}

/// Relies on bincode's `deserialize` of a chrono naive datetime: the
/// encoding of any representable timestamp decodes back to a datetime
/// with exactly the same seconds and nanoseconds.
#[verifier::external_body]
fn bincode_decode_timestamp(b: &[u8]) -> (r: Option<Timestamp>)
    ensures
        forall|t: Timestamp|
            t.well_formed() && b@ == spec_encode_timestamp(t) ==> r == Some(t),
{
    match bincode::deserialize::<chrono::NaiveDateTime>(b) {
        Ok(dt) => {
            let utc = dt.and_utc();
            Some(Timestamp { secs: utc.timestamp(), nsecs: utc.timestamp_subsec_nanos() })
        },
        Err(_) => None,
    }
}

/// The two casts between `i64` and `u64` invert each other.
proof fn lemma_i64_u64_casts(a: i64, b: u64)
    ensures
        (a as u64) as i64 == a,
        (b as i64) as u64 == b,
{
    assert((a as u64) as i64 == a) by (bit_vector);
    assert((b as i64) as u64 == b) by (bit_vector);
}

/// An opaque encoded value: the bytes some concrete value (text,
/// 8-byte integer, byte sequence, timestamp) encodes to.
///
/// The bytes carry no type tag; the caller must know, out of band,
/// which type to decode into. Decoding with the correct type is exact
/// and lossless; decoding with a wrong type is surfaced as an error.
#[derive(PartialEq, Eq, Hash)]
pub struct Serialized {
    bytes: Vec<u8>,
}

impl View for Serialized {
    type V = Seq<u8>;

    closed spec fn view(&self) -> Seq<u8> {
        self.bytes@
    }
}

impl Clone for Serialized {
    /// The clone holds the same encoded bytes.
    fn clone(&self) -> (r: Self)
        ensures
            r@ == self@,
    {
        Serialized { bytes: self.bytes.clone() }
    }
}

impl Serialized {
    /// Encodes a text value. Deterministic: equal text gives equal
    /// bytes.
    pub fn from_text(s: &str) -> (r: Serialized)
        ensures
            r@ == spec_encode_text(s@),
    {
        Serialized { bytes: bincode_encode_text(s) }
    }

    /// Encodes an 8-byte integer value; the result is always exactly 8
    /// bytes.
    pub fn from_i64(i: i64) -> (r: Serialized)
        ensures
            r@ == spec_encode_i64(i),
            r@.len() == 8,
    {
        proof {
            lemma_auto_spec_u64_to_from_le_bytes();
        }
        Serialized { bytes: bincode_encode_i64(i) }
    }

    /// Encodes a photo asset's validated bytes.
    pub fn from_photo(p: &JpegPhoto) -> (r: Serialized)
        ensures
            r@ == spec_encode_bytes(p@),
            valid_photo_bytes(p@),
    {
        Serialized { bytes: bincode_encode_bytes(p.bytes_slice()) }
    }

    /// Encodes a timestamp value.
    pub fn from_timestamp(t: &Timestamp) -> (r: Serialized)
        requires
            t.well_formed(),
        ensures
            r@ == spec_encode_timestamp(*t),
    {
        Serialized { bytes: bincode_encode_timestamp(t) }
    }

    /// The encoded bytes, borrowed: what the persistence boundary
    /// stores.
    pub fn as_bytes(&self) -> (r: &[u8])
        ensures
            r@ == self@,
    {
        self.bytes.as_slice()
    }

    /// Rebuilds an opaque value from persisted bytes, unchanged.
    pub fn from_storage_bytes(bytes: Vec<u8>) -> (r: Serialized)
        ensures
            r@ == bytes@,
    {
        Serialized { bytes }
    }

    /// How many bytes the encoding holds.
    pub fn len(&self) -> (r: usize)
        ensures
            r == self@.len(),
    {
        self.bytes.len()
    }

    /// Strict decode as text: exact on bytes this codec produced for
    /// text, an error otherwise — never a panic.
    pub fn decode_text(&self) -> (r: Result<String, CodecError>)
        ensures
            forall|s: Seq<char>| self@ == spec_encode_text(s) ==> (r matches Ok(v) && v@ == s),
            r matches Ok(v) ==> text_decoding_of(self@) == Some(v@),
            r matches Err(e) ==> e == CodecError::TypeMismatch && text_decoding_of(self@)
                is None,
    {
        match bincode_decode_text(self.bytes.as_slice()) {
            Some(v) => Ok(v),
            None => Err(CodecError::TypeMismatch),
        }
    }

    /// Strict decode as an 8-byte integer: exact on bytes this codec
    /// produced for an integer, an error on inputs that are too short.
    pub fn decode_i64(&self) -> (r: Result<i64, CodecError>)
        ensures
            forall|i: i64| self@ == spec_encode_i64(i) ==> r == Ok::<i64, CodecError>(i),
            self@.len() >= 8 ==> r == Ok::<i64, CodecError>(
                spec_u64_from_le_bytes(self@.subrange(0, 8)) as i64,
            ),
            self@.len() < 8 ==> r == Err::<i64, CodecError>(CodecError::TypeMismatch),
    {
        let r = match bincode_decode_i64(self.bytes.as_slice()) {
            Some(i) => Ok(i),
            None => Err(CodecError::TypeMismatch),
        };
        proof {
            lemma_auto_spec_u64_to_from_le_bytes();
            assert forall|i: i64| self@ == spec_encode_i64(i) implies r == Ok::<
                i64,
                CodecError,
            >(i) by {
                assert(spec_u64_to_le_bytes(i as u64).len() == 8);
                assert(self@.subrange(0, 8) =~= self@);
                assert(spec_u64_from_le_bytes(spec_u64_to_le_bytes(i as u64)) == i as u64);
                lemma_i64_u64_casts(i, i as u64);
            }
        }
        r
    }

    /// Strict decode as a byte sequence: exact on bytes this codec
    /// produced for a byte sequence, an error otherwise.
    pub fn decode_bytes(&self) -> (r: Result<Vec<u8>, CodecError>)
        ensures
            forall|v: Seq<u8>| self@ == spec_encode_bytes(v) ==> (r matches Ok(w) && w@ == v),
            r matches Err(e) ==> e == CodecError::TypeMismatch,
    {
        match bincode_decode_bytes(self.bytes.as_slice()) {
            Some(w) => Ok(w),
            None => Err(CodecError::TypeMismatch),
        }
    }

    /// Strict decode as a photo asset: the decoded bytes go through
    /// the asset's own validation, so the result is a validated asset.
    pub fn decode_photo(&self) -> (r: Result<JpegPhoto, CodecError>)
        ensures
            forall|v: Seq<u8>|
                self@ == spec_encode_bytes(v) && valid_photo_bytes(v) ==> (r matches Ok(p)
                    && p@ == v),
            r matches Err(e) ==> e == CodecError::TypeMismatch,
    {
        match self.decode_bytes() {
            Ok(w) => match JpegPhoto::from_bytes(w) {
                Ok(p) => Ok(p),
                Err(_) => Err(CodecError::TypeMismatch),
            },
            Err(e) => Err(e),
        }
    }

    /// Strict decode as a timestamp: exact on bytes this codec
    /// produced for a representable timestamp, an error otherwise.
    pub fn decode_timestamp(&self) -> (r: Result<Timestamp, CodecError>)
        ensures
            forall|t: Timestamp|
                t.well_formed() && self@ == spec_encode_timestamp(t) ==> r == Ok::<
                    Timestamp,
                    CodecError,
                >(t),
            r matches Err(e) ==> e == CodecError::TypeMismatch,
    {
        match bincode_decode_timestamp(self.bytes.as_slice()) {
            Some(t) => Ok(t),
            None => Err(CodecError::TypeMismatch),
        }
    }

    /// Trusted decode as text, for bytes the caller knows this codec
    /// produced for text: mismatch here would be an internal
    /// consistency bug, so the bytes are required to be a text
    /// encoding.
    pub fn unwrap_text(&self) -> (r: String)
        requires
            exists|s: Seq<char>| self@ == spec_encode_text(s),
        ensures
            forall|s: Seq<char>| self@ == spec_encode_text(s) ==> r@ == s,
    {
        match self.decode_text() {
            Ok(v) => v,
            Err(_) => vstd::pervasive::unreached(),
        }
    }

    /// Trusted decode as an 8-byte integer, for bytes the caller knows
    /// hold one: the bytes are required to be 8 long.
    pub fn unwrap_i64(&self) -> (r: i64)
        requires
            self@.len() == 8,
        ensures
            spec_encode_i64(r) == self@,
            forall|i: i64| self@ == spec_encode_i64(i) ==> r == i,
    {
        let r = match self.decode_i64() {
            Ok(i) => i,
            Err(_) => vstd::pervasive::unreached(),
        };
        proof {
            lemma_auto_spec_u64_to_from_le_bytes();
            assert(self@.subrange(0, 8) =~= self@);
            assert(spec_u64_to_le_bytes(spec_u64_from_le_bytes(self@)) == self@);
            lemma_i64_u64_casts(r, spec_u64_from_le_bytes(self@));
        }
        r
    }

    /// Trusted decode as a photo asset, for bytes the caller knows
    /// this codec produced for one.
    pub fn unwrap_photo(&self) -> (r: JpegPhoto)
        requires
            exists|v: Seq<u8>| self@ == spec_encode_bytes(v) && valid_photo_bytes(v),
        ensures
            forall|v: Seq<u8>|
                self@ == spec_encode_bytes(v) && valid_photo_bytes(v) ==> r@ == v,
    {
        match self.decode_photo() {
            Ok(p) => p,
            Err(_) => vstd::pervasive::unreached(),
        }
    }

    /// Trusted decode as a timestamp, for bytes the caller knows this
    /// codec produced for one.
    pub fn unwrap_timestamp(&self) -> (r: Timestamp)
        requires
            exists|t: Timestamp| t.well_formed() && self@ == spec_encode_timestamp(t),
        ensures
            forall|t: Timestamp|
                t.well_formed() && self@ == spec_encode_timestamp(t) ==> r == t,
    {
        match self.decode_timestamp() {
            Ok(t) => t,
            Err(_) => vstd::pervasive::unreached(),
        }
    }
}

/// The decimal digit character for a value below ten.
pub open spec fn dec_digit_char(d: nat) -> char {
    ((48 + d) as u32) as char
}

/// The uppercase hexadecimal digit character for a value below
/// sixteen.
pub open spec fn hex_digit_char(d: nat) -> char {
    if d < 10 {
        ((48 + d) as u32) as char
    } else {
        ((55 + d) as u32) as char
    }
}

/// The decimal digits of a natural number, most significant first, no
/// leading zeros (a lone zero for zero).
pub open spec fn spec_dec_digits(n: nat) -> Seq<char>
    decreases n,
{
    if n < 10 {
        seq![dec_digit_char(n)]
    } else {
        spec_dec_digits(n / 10).push(dec_digit_char(n % 10))
    }
}

/// The decimal rendering of a signed 8-byte integer: a minus sign for
/// negative values, then the digits of the magnitude.
pub open spec fn spec_i64_decimal(i: i64) -> Seq<char> {
    if i < 0 {
        seq!['-'] + spec_dec_digits((-(i as int)) as nat)
    } else {
        spec_dec_digits(i as nat)
    }
}

/// The last `k` hexadecimal digits of a value, most significant first,
/// leading zeros kept.
pub open spec fn spec_hex_digits(v: nat, k: nat) -> Seq<char>
    decreases k,
{
    if k == 0 {
        Seq::<char>::empty()
    } else {
        spec_hex_digits(v / 16, (k - 1) as nat) + seq![hex_digit_char(v % 16)]
    }
}

/// The stable 64-bit fingerprint of a byte sequence: the hash of its
/// length's 8 little-endian bytes followed by the bytes themselves.
pub open spec fn spec_fingerprint(b: Seq<u8>) -> u64 {
    DefaultHasher::spec_finish(seq![spec_u64_to_le_bytes(b.len() as u64), b])
}

/// What the log rendering of an opaque value shows inside the quotes:
/// the text when the bytes decode as text, else the decimal value when
/// they are exactly 8 bytes, else a fixed-width hexadecimal
/// fingerprint — never the raw bytes.
pub open spec fn spec_debug_inner(b: Seq<u8>) -> Seq<char> {
    match text_decoding_of(b) {
        Some(s) => s,
        None => if b.len() == 8 {
            spec_i64_decimal(spec_u64_from_le_bytes(b) as i64)
        } else {
            "hash: 0x"@ + spec_hex_digits(spec_fingerprint(b) as nat, 16)
        },
    }
}

/// The full log rendering of an opaque value with the given bytes.
pub open spec fn spec_debug_render(b: Seq<u8>) -> Seq<char> {
    "Serialized(\""@ + spec_debug_inner(b) + "\")"@
}

/// The decimal digit as a one-character string.
fn dec_digit_str(d: u64) -> (r: &'static str)
    requires
        d < 10,
    ensures
        r@ == seq![dec_digit_char(d as nat)],
{
    proof {
        reveal_strlit("0");
        reveal_strlit("1");
        reveal_strlit("2");
        reveal_strlit("3");
        reveal_strlit("4");
        reveal_strlit("5");
        reveal_strlit("6");
        reveal_strlit("7");
        reveal_strlit("8");
        reveal_strlit("9");
    }
    if d == 0 {
        "0"
    } else if d == 1 {
        "1"
    } else if d == 2 {
        "2"
    } else if d == 3 {
        "3"
    } else if d == 4 {
        "4"
    } else if d == 5 {
        "5"
    } else if d == 6 {
        "6"
    } else if d == 7 {
        "7"
    } else if d == 8 {
        "8"
    } else {
        "9"
    }
}

/// The uppercase hexadecimal digit as a one-character string.
fn hex_digit_str(d: u64) -> (r: &'static str)
    requires
        d < 16,
    ensures
        r@ == seq![hex_digit_char(d as nat)],
{
    proof {
        reveal_strlit("A");
        reveal_strlit("B");
        reveal_strlit("C");
        reveal_strlit("D");
        reveal_strlit("E");
        reveal_strlit("F");
    }
    if d < 10 {
        dec_digit_str(d)
    } else if d == 10 {
        "A"
    } else if d == 11 {
        "B"
    } else if d == 12 {
        "C"
    } else if d == 13 {
        "D"
    } else if d == 14 {
        "E"
    } else {
        "F"
    }
}

/// Renders a natural number in decimal.
fn dec_u64_string(n: u64) -> (r: String)
    ensures
        r@ == spec_dec_digits(n as nat),
    decreases n,
{
    if n < 10 {
        let mut s = String::new();
        s.append(dec_digit_str(n));
        proof {
            assert(s@ =~= spec_dec_digits(n as nat));
        }
        s
    } else {
        let mut s = dec_u64_string(n / 10);
        s.append(dec_digit_str(n % 10));
        proof {
            assert(s@ =~= spec_dec_digits(n as nat));
        }
        s
    }
}

/// Renders a signed 8-byte integer in decimal.
fn i64_decimal_string(i: i64) -> (r: String)
    ensures
        r@ == spec_i64_decimal(i),
{
    if i >= 0 {
        dec_u64_string(i as u64)
    } else {
        let m: u64 = (-(i as i128)) as u64;
        let mut s = String::new();
        s.append("-");
        let digits = dec_u64_string(m);
        s.append(digits.as_str());
        proof {
            reveal_strlit("-");
            assert("-"@ =~= seq!['-']);
            assert(s@ =~= spec_i64_decimal(i));
        }
        s
    }
}

/// Renders the last `k` hexadecimal digits of a value, uppercase.
fn hex_digits_string(v: u64, k: u64) -> (r: String)
    requires
        k <= 16,
    ensures
        r@ == spec_hex_digits(v as nat, k as nat),
    decreases k,
{
    if k == 0 {
        String::new()
    } else {
        let mut s = hex_digits_string(v / 16, k - 1);
        s.append(hex_digit_str(v % 16));
        proof {
            assert(s@ =~= spec_hex_digits(v as nat, k as nat));
        }
        s
    }
}

/// The stable 64-bit fingerprint of the bytes, hashed the way std
/// hashes a byte vector: the length first, then the bytes.
fn fingerprint(bytes: &[u8]) -> (r: u64)
    ensures
        r == spec_fingerprint(bytes@),
{
    let mut hasher = DefaultHasher::new();
    let len_bytes = u64_to_le_bytes(bytes.len() as u64);
    hasher.write(len_bytes.as_slice());
    hasher.write(bytes);
    proof {
        assert(hasher@ =~= seq![spec_u64_to_le_bytes(bytes@.len() as u64), bytes@]);
    }
    hasher.finish()
}

impl Serialized {
    /// Renders the value for logs and inspection: the text it decodes
    /// to when it holds text, else the decimal value when it is
    /// exactly 8 bytes, else a stable hexadecimal fingerprint of the
    /// bytes. Total and deterministic; never shows raw bytes.
    pub fn debug_render(&self) -> (r: String)
        ensures
            r@ == spec_debug_render(self@),
            forall|s: Seq<char>|
                self@ == spec_encode_text(s) ==> r@ == "Serialized(\""@ + s + "\")"@,
            forall|i: i64|
                self@ == spec_encode_i64(i) && i != 0 ==> r@ == "Serialized(\""@
                    + spec_i64_decimal(i) + "\")"@,
    {
        let mut out = String::new();
        out.append("Serialized(\"");
        let decoded = bincode_decode_text(self.bytes.as_slice());
        match &decoded {
            Some(v) => {
                out.append(v.as_str());
            },
            None => {
                if self.bytes.len() == 8 {
                    let i = match bincode_decode_i64(self.bytes.as_slice()) {
                        Some(i) => i,
                        None => vstd::pervasive::unreached(),
                    };
                    proof {
                        assert(self@.subrange(0, 8) =~= self@);
                    }
                    let digits = i64_decimal_string(i);
                    out.append(digits.as_str());
                } else {
                    out.append("hash: 0x");
                    let f = fingerprint(self.bytes.as_slice());
                    let digits = hex_digits_string(f, 16);
                    out.append(digits.as_str());
                }
            },
        }
        out.append("\")");
        proof {
            lemma_auto_spec_u64_to_from_le_bytes();
            assert(out@ =~= spec_debug_render(self@));
            assert forall|s: Seq<char>|
                self@ == spec_encode_text(s) implies out@ == "Serialized(\""@ + s
                + "\")"@ by {
                assert(opt_text_view(decoded) == Some(s));
                assert(out@ =~= "Serialized(\""@ + s + "\")"@);
            }
            assert forall|i: i64|
                self@ == spec_encode_i64(i) && i != 0 implies out@ == "Serialized(\""@
                + spec_i64_decimal(i) + "\")"@ by {
                assert(spec_u64_to_le_bytes(i as u64).len() == 8);
                assert(self@.subrange(0, 8) =~= self@);
                assert(spec_u64_from_le_bytes(self@) == i as u64);
                assert(i != 0 ==> i as u64 != 0) by (bit_vector);
                assert(decoded == None::<String>);
                lemma_i64_u64_casts(i, i as u64);
                assert(out@ =~= "Serialized(\""@ + spec_i64_decimal(i) + "\")"@);
            }
        }
        out
    }
}

/// Encoding text and decoding it again gives the text back, for every
/// text value.
pub fn roundtrip_text(s: &str) -> (r: String)
    ensures
        r@ == s@,
{
    let enc = Serialized::from_text(s);
    enc.unwrap_text()
}

/// Encoding an 8-byte integer and decoding it again gives the integer
/// back, for every integer.
pub fn roundtrip_i64(i: i64) -> (r: i64)
    ensures
        r == i,
{
    let enc = Serialized::from_i64(i);
    enc.unwrap_i64()
}

/// Encoding a photo asset and decoding it again gives an asset with
/// identical bytes, for every validated asset.
pub fn roundtrip_photo(p: &JpegPhoto) -> (r: JpegPhoto)
    ensures
        r@ == p@,
{
    let enc = Serialized::from_photo(p);
    enc.unwrap_photo()
}

/// The value the persistence boundary stores for a photo asset: no
/// value at all for the empty (absent) asset, the encoded bytes
/// otherwise. The empty asset is deliberately not distinguishable from
/// an unset column.
pub fn photo_storage_value(p: &JpegPhoto) -> (r: Option<Serialized>)
    ensures
        p@.len() == 0 ==> r is None,
        p@.len() > 0 ==> (r matches Some(s) && s@ == spec_encode_bytes(p@)),
{
    if p.is_empty() {
        None
    } else {
        Some(Serialized::from_photo(p))
    }
}

/// Encoding a timestamp and decoding it again gives the timestamp
/// back, for every representable timestamp.
pub fn roundtrip_timestamp(t: &Timestamp) -> (r: Timestamp)
    requires
        t.well_formed(),
    ensures
        r == *t,
{
    let enc = Serialized::from_timestamp(t);
    enc.unwrap_timestamp()
}

} // verus!
