use directory_types::codec::Serialized;
use directory_types::entities::AttributeValue;
use directory_types::entities::GroupId;
use directory_types::entities::User;
use directory_types::errors::CodecError;
use directory_types::errors::ValidationError;
use directory_types::identifier::Uuid;
use directory_types::login::UserId;
use directory_types::photo::JpegPhoto;
use directory_types::tag::AttributeType;
use directory_types::time::Timestamp;
use image::ImageOutputFormat;
use image::Rgb;
use image::RgbImage;

/// A small but valid JPEG image: a 32x32 checkerboard at the lowest
/// quality setting.
fn test_photo_bytes() -> Vec<u8> {
    let img = RgbImage::from_fn(32, 32, |x, y| {
        if (x + y) % 2 == 0 {
            Rgb([0, 0, 0])
        } else {
            Rgb([255, 255, 255])
        }
    });
    let mut bytes: Vec<u8> = Vec::new();
    img.write_to(
        &mut std::io::Cursor::new(&mut bytes),
        ImageOutputFormat::Jpeg(0),
    )
    .unwrap();
    bytes
}

fn test_photo() -> JpegPhoto {
    JpegPhoto::from_bytes(test_photo_bytes()).unwrap()
}

#[test]
fn test_serialized_debug_string() {
    assert_eq!(
        &Serialized::from_text("abcd").debug_render(),
        "Serialized(\"abcd\")"
    );
    assert_eq!(
        &Serialized::from_i64(1234).debug_render(),
        "Serialized(\"1234\")"
    );
    assert_eq!(
        &Serialized::from_photo(&test_photo()).debug_render(),
        "Serialized(\"hash: 0xB947C77A16F3C3BD\")"
    );
}

#[test]
fn test_serialized_i64_len() {
    assert_eq!(8, Serialized::from_i64(0).len());
    assert_eq!(8, Serialized::from_i64(i64::MAX).len());
    assert_eq!(8, Serialized::from_i64(i64::MIN).len());
    assert_eq!(8, Serialized::from_i64(-1000).len());
}

#[test]
fn text_encoding_bytes_are_length_prefixed_utf8() {
    let enc = Serialized::from_text("abcd");
    assert_eq!(
        enc.as_bytes(),
        &[4, 0, 0, 0, 0, 0, 0, 0, b'a', b'b', b'c', b'd']
    );
}

#[test]
fn i64_encoding_bytes_are_little_endian() {
    let enc = Serialized::from_i64(1234);
    assert_eq!(enc.as_bytes(), &1234i64.to_le_bytes());
}

#[test]
fn codec_roundtrips_every_supported_type() {
    assert_eq!(
        Serialized::from_text("hello, wörld").decode_text().unwrap(),
        "hello, wörld"
    );
    assert_eq!(Serialized::from_text("").decode_text().unwrap(), "");
    for i in [0i64, 1, -1, i64::MIN, i64::MAX, 1000] {
        assert_eq!(Serialized::from_i64(i).decode_i64().unwrap(), i);
        assert_eq!(Serialized::from_i64(i).unwrap_i64(), i);
    }
    let photo = test_photo();
    let decoded = Serialized::from_photo(&photo).decode_photo().unwrap();
    assert_eq!(decoded.into_bytes(), test_photo_bytes());
    let t = Timestamp::new(1234567890, 123456789).unwrap();
    assert_eq!(Serialized::from_timestamp(&t).decode_timestamp().unwrap(), t);
    assert_eq!(Serialized::from_timestamp(&t).unwrap_timestamp(), t);
    let epoch = Timestamp::epoch();
    assert_eq!(
        Serialized::from_timestamp(&epoch).decode_timestamp().unwrap(),
        epoch
    );
    assert_eq!(Serialized::from_text("abcd").unwrap_text(), "abcd");
}

#[test]
fn codec_reports_type_mismatch() {
    let short = Serialized::from_storage_bytes(vec![1, 2, 3]);
    assert_eq!(short.decode_i64(), Err(CodecError::TypeMismatch));
    let num = Serialized::from_i64(1234);
    assert_eq!(num.decode_text(), Err(CodecError::TypeMismatch));
}

#[test]
fn debug_render_integer_edge_values() {
    assert_eq!(
        &Serialized::from_i64(-5).debug_render(),
        "Serialized(\"-5\")"
    );
    assert_eq!(
        &Serialized::from_i64(i64::MIN).debug_render(),
        "Serialized(\"-9223372036854775808\")"
    );
    // The 8 zero bytes of an encoded zero are also the encoding of the
    // empty string, and the text decoding is tried first.
    assert_eq!(&Serialized::from_i64(0).debug_render(), "Serialized(\"\")");
}

#[test]
fn debug_render_fingerprint_shape() {
    let enc = Serialized::from_photo(&test_photo());
    let shown = enc.debug_render();
    let inner = shown
        .strip_prefix("Serialized(\"hash: 0x")
        .and_then(|rest| rest.strip_suffix("\")"))
        .unwrap();
    assert_eq!(inner.len(), 16);
    assert!(inner
        .chars()
        .all(|c| c.is_ascii_digit() || ('A'..='F').contains(&c)));
}

#[test]
fn uuid_derivation_is_deterministic() {
    let t1 = Timestamp::new(1_700_000_000, 0).unwrap();
    let t2 = Timestamp::new(1_700_000_000, 0).unwrap();
    let a = Uuid::from_name_and_date("bob", &t1);
    let b = Uuid::from_name_and_date("bob", &t2);
    assert_eq!(a.as_str(), b.as_str());
    let t3 = Timestamp::new(1_700_000_001, 0).unwrap();
    let c = Uuid::from_name_and_date("bob", &t3);
    assert_ne!(a.as_str(), c.as_str());
}

#[test]
fn uuid_parse_normalizes_and_roundtrips() {
    let canonical = "550e8400-e29b-41d4-a716-446655440000";
    let parsed = Uuid::parse(canonical).unwrap();
    assert_eq!(parsed.as_str(), canonical);
    let upper = Uuid::parse("550E8400-E29B-41D4-A716-446655440000").unwrap();
    assert_eq!(upper.as_str(), canonical);
    assert_eq!(upper.reparse().as_str(), canonical);
    assert_eq!(parsed.into_string(), canonical.to_owned());
    assert_eq!(
        Uuid::parse("not-a-uuid"),
        Err(ValidationError::InvalidIdentifier)
    );
}

#[test]
fn derived_uuid_is_canonical_text() {
    let t = Timestamp::new(0, 0).unwrap();
    let u = Uuid::from_name_and_date("alice", &t);
    let s = u.as_str();
    assert_eq!(s.len(), 36);
    for (i, c) in s.chars().enumerate() {
        if i == 8 || i == 13 || i == 18 || i == 23 {
            assert_eq!(c, '-');
        } else {
            assert!(c.is_ascii_hexdigit() && !c.is_ascii_uppercase());
        }
    }
    assert_eq!(Uuid::parse(s).unwrap().as_str(), s);
}

#[test]
fn login_identifier_case_folds() {
    let id = UserId::new("Alice@Example.com");
    assert_eq!(id.as_str(), "alice@example.com");
    let s = "MixedCase@Host";
    assert_eq!(UserId::new(s), UserId::new(&s.to_uppercase()));
    assert!(UserId::new(s)
        .as_str()
        .chars()
        .all(|c| !c.is_ascii_uppercase()));
    assert_eq!(
        UserId::from_storage_string("BOB".to_owned()).into_string(),
        "bob"
    );
    assert_eq!(
        UserId::try_from_u64(42),
        Err(ValidationError::InvalidIdentifier)
    );
}

#[test]
fn empty_photo_is_the_null_sentinel() {
    let p = JpegPhoto::from_bytes(Vec::new()).unwrap();
    assert!(p.is_empty());
    assert_eq!(p.to_base64(), "");
    assert!(JpegPhoto::null().is_empty());
    assert_eq!(JpegPhoto::null().into_bytes(), Vec::<u8>::new());
    assert_eq!(p.into_bytes(), Vec::<u8>::new());
}

#[test]
fn photo_validation_accepts_only_jpeg_bytes() {
    let bad = JpegPhoto::from_bytes(b"not a jpeg".to_vec());
    assert_eq!(bad.err(), Some(ValidationError::InvalidImage));
    let bytes = test_photo_bytes();
    let good = JpegPhoto::from_bytes(bytes.clone()).unwrap();
    assert!(!good.is_empty());
    assert_eq!(good.into_bytes(), bytes);
}

#[test]
fn photo_base64_roundtrips() {
    let photo = test_photo();
    let text = photo.to_base64();
    let back = JpegPhoto::from_base64(&text).unwrap();
    assert_eq!(back.into_bytes(), test_photo_bytes());
    assert_eq!(
        JpegPhoto::from_base64("not-base64!!").err(),
        Some(ValidationError::InvalidEncoding)
    );
    assert_eq!(
        JpegPhoto::from_base64(&photo.to_base64()).unwrap().to_base64(),
        text
    );
}

#[test]
fn photo_debug_render_truncates_long_encodings() {
    let photo = test_photo();
    let full = photo.to_base64();
    assert!(full.len() > 100);
    let shown = photo.debug_render();
    let expected = format!("JpegPhoto(\"b64[{} ...]\")", &full[..100]);
    assert_eq!(shown, expected);
    let empty = JpegPhoto::null();
    assert_eq!(empty.debug_render(), "JpegPhoto(\"b64[]\")");
}

#[test]
fn photo_storage_value_maps_empty_to_absent() {
    assert!(directory_types::codec::photo_storage_value(&JpegPhoto::null()).is_none());
    let photo = test_photo();
    let stored = directory_types::codec::photo_storage_value(&photo).unwrap();
    let back = stored.decode_photo().unwrap();
    assert_eq!(back.into_bytes(), test_photo_bytes());
}

#[test]
fn attribute_type_names_roundtrip() {
    assert_eq!(AttributeType::parse("Integer"), Ok(AttributeType::Integer));
    assert_eq!(
        AttributeType::parse("integer"),
        Err(ValidationError::UnknownAttributeType)
    );
    assert_eq!(AttributeType::Integer.to_str(), "Integer");
    for t in [
        AttributeType::Text,
        AttributeType::Integer,
        AttributeType::BinaryAsset,
        AttributeType::Timestamp,
    ] {
        assert_eq!(AttributeType::parse(t.to_str()), Ok(t));
    }
    assert_eq!(AttributeType::Text.to_str(), "String");
    assert_eq!(AttributeType::BinaryAsset.to_str(), "JpegPhoto");
    assert_eq!(AttributeType::Timestamp.to_str(), "DateTime");
    assert_eq!(
        AttributeType::parse(""),
        Err(ValidationError::UnknownAttributeType)
    );
}

#[test]
fn timestamp_rejects_out_of_range_values() {
    assert!(Timestamp::new(0, 1_000_000_000).is_none());
    assert!(Timestamp::new(i64::MAX, 0).is_none());
    let t = Timestamp::new(-1, 999_999_999).unwrap();
    assert_eq!(t.secs, -1);
    assert_eq!(t.nsecs, 999_999_999);
}

#[test]
fn group_id_from_u64_checks_range() {
    assert_eq!(GroupId::try_from_u64(5), Ok(GroupId(5)));
    assert_eq!(GroupId::try_from_u64(i32::MAX as u64), Ok(GroupId(i32::MAX)));
    assert_eq!(
        GroupId::try_from_u64(1 << 40),
        Err(ValidationError::InvalidIdentifier)
    );
}

#[test]
fn user_end_to_end_identifier_derivation() {
    let creation = Timestamp::new(1_600_000_000, 0).unwrap();
    let login = UserId::new("Alice@Example.com");
    let email = "alice@example.com".to_owned();
    let attr = AttributeValue::new(
        "first_name".to_owned(),
        Serialized::from_text("Alice"),
    );
    let user = User::new(
        login,
        email.clone(),
        Some("Alice".to_owned()),
        creation,
        vec![attr],
    );
    assert_eq!(user.user_id.as_str(), "alice@example.com");
    assert_eq!(user.attributes[0].value.decode_text().unwrap(), "Alice");
    let again = Uuid::from_name_and_date(&email, &creation);
    assert_eq!(user.uuid.as_str(), again.as_str());
}
