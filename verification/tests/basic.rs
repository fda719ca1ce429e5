use biblioteca::BibliotecaProcessSourceError;
use biblioteca::Source;
use biblioteca::payload::build_payload;
use biblioteca::payload::json_escape;

#[test]
fn it_works() {}

#[test]
fn empty_payload_is_empty_object() {
    let entries: Vec<(String, String)> = Vec::new();
    let payload = build_payload(&entries, &None);
    assert_eq!(payload, "{}");
}

#[test]
fn payload_single_entry_no_style() {
    let entries = vec![("k1".to_string(), "{\"a\":1}".to_string())];
    let payload = build_payload(&entries, &None);
    assert_eq!(
        payload,
        "{\"k1\":{\"entry\":{\"a\":1},\"csl_formatted_citation\":null}}"
    );
}

#[test]
fn payload_two_entries_with_citations() {
    let entries = vec![
        ("k1".to_string(), "{\"a\":1}".to_string()),
        ("k2".to_string(), "{\"b\":2}".to_string()),
    ];
    let cits = Some(vec![("k1".to_string(), "Doe 2020".to_string())]);
    let payload = build_payload(&entries, &cits);
    // the identifier the formatter omitted keeps a null citation
    assert_eq!(
        payload,
        "{\"k1\":{\"entry\":{\"a\":1},\"csl_formatted_citation\":\"Doe 2020\"},\
         \"k2\":{\"entry\":{\"b\":2},\"csl_formatted_citation\":null}}"
    );
}

#[test]
fn json_escape_escapes_quotes_backslashes_and_controls() {
    let escaped = json_escape("a\"b\\c\nd\te");
    assert_eq!(escaped, "a\\\"b\\\\c\\u000ad\\u0009e");
}

#[test]
fn payload_with_awkward_strings_parses_back() {
    let entries = vec![("k\"1\\x".to_string(), "{\"t\":\"v\"}".to_string())];
    let cits = Some(vec![("k\"1\\x".to_string(), "cite \"q\"\n".to_string())]);
    let payload = build_payload(&entries, &cits);
    let value: serde_json::Value = serde_json::from_str(&payload).unwrap();
    let obj = value.as_object().unwrap();
    assert_eq!(obj.len(), 1);
    let item = obj.get("k\"1\\x").unwrap();
    assert_eq!(item["entry"]["t"], "v");
    assert_eq!(item["csl_formatted_citation"], "cite \"q\"\n");
}

#[test]
fn staleness_compares_modification_time_with_stored_time() {
    let meta = biblioteca::store::StoreEntryMeta {
        key: "k".to_string(),
        integrity: "sha256-abc".to_string(),
        time: 1000,
    };
    // a source no newer than the stored entry is valid, equal ticks included
    assert!(biblioteca::store::check_staleness(999, &Some(meta)));
    let meta = biblioteca::store::StoreEntryMeta {
        key: "k".to_string(),
        integrity: "sha256-abc".to_string(),
        time: 1000,
    };
    assert!(biblioteca::store::check_staleness(1000, &Some(meta)));
    let meta = biblioteca::store::StoreEntryMeta {
        key: "k".to_string(),
        integrity: "sha256-abc".to_string(),
        time: 1000,
    };
    assert!(!biblioteca::store::check_staleness(1001, &Some(meta)));
    assert!(!biblioteca::store::check_staleness(0, &None));
}

#[test]
fn error_messages_describe_the_kind() {
    let e = BibliotecaProcessSourceError::SourceIoError("no such file".to_string());
    assert_eq!(e.message(), "cannot read from source: no such file");
    let e = BibliotecaProcessSourceError::Unsupported;
    assert_eq!(e.message(), "unsupported source kind");
}

#[test]
fn csl_json_source_is_unsupported() {
    let source = Source::CslJson { path: "whatever.json".to_string() };
    let r = biblioteca::source_to_json(&source);
    assert!(matches!(r, Err(BibliotecaProcessSourceError::Unsupported)));
}
