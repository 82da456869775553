use pandora::archive_doc::Archive as Document;
use pandora::json_text::{json_to_text, parse_json_text};
use pandora::json::JsonValue;
use pandora::archive::{
    decode_archive, decode_would_panic, decrypt, encode_archive, encrypt, ArchiveDataFormat, ArchiveError, ArchiveHeader,
    VERSION,
};

#[test]
fn create() {
    let archive = ArchiveHeader::new(ArchiveDataFormat::Json, 1_700_000_000_000, 1_700_000_000_000);
    let bytes = encode_archive(&archive, "{}");
    assert!(!bytes.is_empty());
    assert!(archive.version == "1.1.0");
}

#[test]
fn read() {
    let header = ArchiveHeader::new(ArchiveDataFormat::Json, 1_700_000_000_000, 1_700_000_000_000);
    let bytes = encode_archive(&header, "{}");
    assert!(!decode_would_panic(&bytes));
    let archive = decode_archive(&bytes).unwrap();
    assert!(archive.header.version == "1.1.0");
}

#[test]
fn play_with_body() {
    let header = ArchiveHeader::new(ArchiveDataFormat::Json, 1_700_000_000_000, 1_700_000_000_000);
    let bytes = {
        let mut archive = Document { header, body: JsonValue::Object(vec![]) };
        archive.set_raw("Hello", JsonValue::String("World".to_string()));
        archive.encode_full()
    };
    let archive = Document::decode_full(&bytes).unwrap();
    assert!(archive.get_raw("Hello") == Some(&JsonValue::String("World".to_string())));
    let raw = decode_archive(&bytes).unwrap();
    assert!(raw.body == "{\"Hello\":\"World\"}");
}

#[test]
fn document_bodies() {
    assert_eq!(parse_json_text("{\"b\":1,\"a\":[true,null,-2,1.5]}").map(|v| json_to_text(&v)), Some("{\"a\":[true,null,-2,1.5],\"b\":1}".to_string()));
    assert!(parse_json_text("{oops").is_none());
    let header = ArchiveHeader::new(ArchiveDataFormat::Json, 5, 6);
    let bytes = encode_archive(&header, "not json");
    assert!(matches!(Document::decode_full(&bytes), Err(ArchiveError::InvalidBody(_))));
    let mut d = Document { header, body: JsonValue::Null };
    d.set_raw("k", JsonValue::Bool(true));
    assert_eq!(d.get_raw("k"), Some(&JsonValue::Bool(true)));
    assert_eq!(d.get_raw("x"), None);
}

#[test]
fn header_version_is_current() {
    let header = ArchiveHeader::new(ArchiveDataFormat::Toml, 5, 6);
    assert_eq!(header.version, VERSION);
    assert_eq!(header.data_size, 0);
    assert_eq!(header.creation, 5);
    assert_eq!(header.last_modification, 6);
}

#[test]
fn decrypt_undoes_encrypt() {
    let original: Vec<u8> = (0u8..=255).collect();
    let mut data = original.clone();
    encrypt(&mut data, 40);
    assert_ne!(data, original);
    decrypt(&mut data, 40);
    assert_eq!(data, original);
}

#[test]
fn encrypt_undoes_decrypt() {
    let original: Vec<u8> = vec![1, 2, 3, 200, 250, 0, 7];
    let mut data = original.clone();
    decrypt(&mut data, 3);
    encrypt(&mut data, 3);
    assert_eq!(data, original);
}

#[test]
fn decode_rejects_missing_signature() {
    let bytes = vec![0u8, 1, 2, 3, 4, 5, 6, 7];
    assert!(!decode_would_panic(&bytes));
    assert!(decode_archive(&bytes).is_err());
}

#[test]
fn decode_after_encode_gives_header_and_body() {
    let header = ArchiveHeader::new(ArchiveDataFormat::Yaml, 1_600_000_000_000, 1_650_000_000_000);
    let bytes = encode_archive(&header, "a: b");
    let archive = decode_archive(&bytes).unwrap();
    assert_eq!(archive.body, "a: b");
    assert_eq!(archive.header.creation, 1_600_000_000_000);
    assert_eq!(archive.header.last_modification, 1_650_000_000_000);
    assert_eq!(archive.header.data_type, ArchiveDataFormat::Yaml);
}
