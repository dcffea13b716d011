use correctify::storage::{
    decode_secret, encode_secret, secure_storage_get, storage_file_name, StorageError,
};

#[test]
fn encodes_as_standard_base64() {
    assert_eq!(encode_secret("hello"), "aGVsbG8=");
    assert_eq!(encode_secret(""), "");
    assert_eq!(encode_secret("sk-SECRET-REDACTED"), "c2stU0VDUkVULVJFREFDVEVE");
}

#[test]
fn round_trip_returns_value_exactly() {
    for v in ["", "plain", "héllo wörld ✓ 日本語 🎉", "line\nbreak"] {
        let stored = encode_secret(v);
        assert_eq!(decode_secret(&stored).unwrap(), v);
        assert_eq!(secure_storage_get("k", Some(stored)).unwrap(), v);
    }
}

#[test]
fn absent_key_is_not_found() {
    match secure_storage_get("api", None) {
        Err(e) => {
            assert!(matches!(e, StorageError::NotFound(ref k) if k == "api"));
            assert_eq!(e.message(), "Key 'api' not found");
        }
        Ok(_) => panic!("found a missing key"),
    }
}

#[test]
fn bad_stored_text() {
    match decode_secret("not base64!") {
        Err(e @ StorageError::InvalidEncoding(_)) => {
            assert!(e.message().starts_with("Failed to decode base64: "));
            assert!(e.message().len() > "Failed to decode base64: ".len());
        }
        _ => panic!("accepted text that is not base64"),
    }
    // 0xFF is no UTF-8.
    match decode_secret("/w==") {
        Err(e @ StorageError::InvalidText(_)) => {
            assert!(e.message().starts_with("Failed to decode value: "));
        }
        _ => panic!("accepted bytes that are not UTF-8"),
    }
    assert_eq!(StorageError::InvalidEncoding("x".to_string()).message(), "Failed to decode base64: x");
    assert_eq!(StorageError::InvalidText("y".to_string()).message(), "Failed to decode value: y");
}

#[test]
fn file_name_of_key() {
    assert_eq!(storage_file_name("openai"), "openai.dat");
}
