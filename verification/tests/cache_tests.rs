use biblioteca::BibliotecaProcessSourceError;
use biblioteca::Source;
use biblioteca::process::ProcessRequest;
use biblioteca::store::store_remove_by_digest;
use biblioteca::store::store_write;

const TWO_ENTRIES: &str = "@article{key1, author = {Doe, John}, title = {First Title}, journal = {Journal}, year = {2020}}\n\
@book{key2, author = {Roe, Jane}, title = {Second Title}, publisher = {Press}, year = {2021}}\n";

const TWO_ENTRIES_REVERSED: &str = "@book{key2, author = {Roe, Jane}, title = {Second Title}, publisher = {Press}, year = {2021}}\n\
@article{key1, author = {Doe, John}, title = {First Title}, journal = {Journal}, year = {2020}}\n";

const THREE_ENTRIES: &str = "@article{key1, author = {Doe, John}, title = {First Title}, journal = {Journal}, year = {2020}}\n\
@book{key2, author = {Roe, Jane}, title = {Second Title}, publisher = {Press}, year = {2021}}\n\
@book{key3, author = {Poe, Ann}, title = {Third Title}, publisher = {Press}, year = {2022}}\n";

fn setup(dir: &tempfile::TempDir, content: &str, style: Option<&str>) -> ProcessRequest {
    let source_path = dir.path().join("source.bib");
    fs_err::write(&source_path, content).unwrap();
    ProcessRequest {
        cache_dir: dir.path().join("cache").to_str().unwrap().to_string(),
        source: Source::Bibtex { path: source_path.to_str().unwrap().to_string() },
        csl_style: style.map(|s| s.to_string()),
        csl_locale: None,
    }
}

fn bump_mtime_forward(path: &str, seconds: i64) {
    let now = std::time::SystemTime::now()
        .duration_since(std::time::UNIX_EPOCH)
        .unwrap()
        .as_secs() as i64;
    filetime::set_file_mtime(path, filetime::FileTime::from_unix_time(now + seconds, 0)).unwrap();
}

#[test]
fn scenario_two_entries_no_style() {
    let dir = tempfile::tempdir().unwrap();
    let request = setup(&dir, TWO_ENTRIES, None);
    let payload = request.process().unwrap();
    let value: serde_json::Value = serde_json::from_str(&payload).unwrap();
    let obj = value.as_object().unwrap();
    assert_eq!(obj.len(), 2);
    for (_key, item) in obj {
        assert!(item["csl_formatted_citation"].is_null());
        assert!(item["entry"].is_object());
    }
}

#[test]
fn scenario_style_resolvable_renders_citations() {
    let dir = tempfile::tempdir().unwrap();
    let request = setup(&dir, TWO_ENTRIES, Some("apa"));
    let payload = request.process().unwrap();
    let value: serde_json::Value = serde_json::from_str(&payload).unwrap();
    let obj = value.as_object().unwrap();
    assert_eq!(obj.len(), 2);
    for (_key, item) in obj {
        let citation = item["csl_formatted_citation"].as_str().unwrap();
        assert!(!citation.is_empty());
    }
}

#[test]
fn scenario_unresolvable_style_fails_and_stores_nothing() {
    let dir = tempfile::tempdir().unwrap();
    let request = setup(&dir, TWO_ENTRIES, Some("no-such-style-zzz"));
    let key = request.get_key();
    let r = request.process_cached();
    assert!(matches!(r, Err(BibliotecaProcessSourceError::StyleError(_))));
    let meta = cacache::metadata_sync(&request.cache_dir, &key).unwrap();
    assert!(meta.is_none());
}

#[test]
fn locale_is_accepted_alongside_a_style() {
    let dir = tempfile::tempdir().unwrap();
    let mut request = setup(&dir, TWO_ENTRIES, Some("apa"));
    request.csl_locale = Some("de-DE".to_string());
    let payload = request.process().unwrap();
    let value: serde_json::Value = serde_json::from_str(&payload).unwrap();
    for (_key, item) in value.as_object().unwrap() {
        assert!(item["csl_formatted_citation"].is_string());
    }
}

#[test]
fn a_style_named_like_the_absence_word_is_not_served_the_no_style_payload() {
    let dir = tempfile::tempdir().unwrap();
    let request = setup(&dir, TWO_ENTRIES, None);
    request.process_cached().unwrap();
    let misnamed = ProcessRequest {
        cache_dir: request.cache_dir.clone(),
        source: request.source.clone(),
        csl_style: Some("None".to_string()),
        csl_locale: None,
    };
    let r = misnamed.process_cached();
    assert!(matches!(r, Err(BibliotecaProcessSourceError::StyleError(_))));
}

#[test]
fn entry_order_of_the_source_is_kept_in_the_payload() {
    let dir = tempfile::tempdir().unwrap();
    let request = setup(&dir, TWO_ENTRIES, None);
    let payload = request.process().unwrap();
    // key2 follows key1 in the source, and the payload keeps that order
    let pos1 = payload.find("\"key1\"").unwrap();
    let pos2 = payload.find("\"key2\"").unwrap();
    assert!(pos1 < pos2);
    let reversed = setup(&dir, TWO_ENTRIES_REVERSED, None);
    let payload = reversed.process().unwrap();
    let pos1 = payload.find("\"key1\"").unwrap();
    let pos2 = payload.find("\"key2\"").unwrap();
    assert!(pos2 < pos1);
}

#[test]
fn processing_is_deterministic() {
    let dir = tempfile::tempdir().unwrap();
    let request = setup(&dir, TWO_ENTRIES, Some("apa"));
    let first = request.process().unwrap();
    let second = request.process().unwrap();
    assert_eq!(first, second);
}

#[test]
fn cached_result_is_served_while_valid() {
    let dir = tempfile::tempdir().unwrap();
    let request = setup(&dir, TWO_ENTRIES, None);
    let first = request.process_cached().unwrap();
    let key = request.get_key();
    let (valid, meta) = request.is_cache_valid(&key).unwrap();
    assert!(valid);
    assert!(meta.is_some());
    let second = request.process_cached().unwrap();
    assert_eq!(first, second);
}

#[test]
fn no_stale_serving_after_modification() {
    let dir = tempfile::tempdir().unwrap();
    let request = setup(&dir, TWO_ENTRIES, None);
    let first = request.process_cached().unwrap();
    // modify the source: new content, strictly later modification time
    fs_err::write(request.source.path(), THREE_ENTRIES).unwrap();
    bump_mtime_forward(request.source.path(), 120);
    let key = request.get_key();
    let (valid, _meta) = request.is_cache_valid(&key).unwrap();
    assert!(!valid);
    let second = request.process_cached().unwrap();
    assert_ne!(first, second);
    let value: serde_json::Value = serde_json::from_str(&second).unwrap();
    assert_eq!(value.as_object().unwrap().len(), 3);
}

#[test]
fn stale_entry_is_evicted_before_replacement() {
    let dir = tempfile::tempdir().unwrap();
    let request = setup(&dir, TWO_ENTRIES, None);
    request.process_cached().unwrap();
    let key = request.get_key();
    let old_meta = cacache::metadata_sync(&request.cache_dir, &key).unwrap().unwrap();
    fs_err::write(request.source.path(), THREE_ENTRIES).unwrap();
    bump_mtime_forward(request.source.path(), 120);
    request.process_cached().unwrap();
    // the superseded bytes under the old digest are gone; the key holds
    // exactly the fresh entry
    assert!(cacache::read_hash_sync(&request.cache_dir, &old_meta.integrity).is_err());
    let new_meta = cacache::metadata_sync(&request.cache_dir, &key).unwrap().unwrap();
    assert_ne!(new_meta.integrity, old_meta.integrity);
}

#[test]
fn is_cache_valid_does_not_mutate_the_store() {
    let dir = tempfile::tempdir().unwrap();
    let request = setup(&dir, TWO_ENTRIES, None);
    request.process_cached().unwrap();
    let key = request.get_key();
    let before_meta = cacache::metadata_sync(&request.cache_dir, &key).unwrap().unwrap();
    let before_data = cacache::read_sync(&request.cache_dir, &key).unwrap();
    let (valid, _) = request.is_cache_valid(&key).unwrap();
    assert!(valid);
    let after_meta = cacache::metadata_sync(&request.cache_dir, &key).unwrap().unwrap();
    let after_data = cacache::read_sync(&request.cache_dir, &key).unwrap();
    assert_eq!(before_meta.integrity, after_meta.integrity);
    assert_eq!(before_meta.time, after_meta.time);
    assert_eq!(before_data, after_data);
}

#[test]
fn interleaved_stale_recomputations_leave_one_consistent_entry() {
    // two callers race on the same stale key: each evicts, recomputes and
    // writes; writes are individually atomic and the last writer wins
    let dir = tempfile::tempdir().unwrap();
    let request = setup(&dir, TWO_ENTRIES, None);
    request.process_cached().unwrap();
    fs_err::write(request.source.path(), THREE_ENTRIES).unwrap();
    bump_mtime_forward(request.source.path(), 120);
    let key = request.get_key();
    let (valid_a, meta_a) = request.is_cache_valid(&key).unwrap();
    let (valid_b, meta_b) = request.is_cache_valid(&key).unwrap();
    assert!(!valid_a && !valid_b);
    let payload_a = request.process().unwrap();
    let payload_b = request.process().unwrap();
    let _ = store_remove_by_digest(&request.cache_dir, &meta_a.unwrap().integrity);
    let _ = store_remove_by_digest(&request.cache_dir, &meta_b.unwrap().integrity);
    store_write(&request.cache_dir, &key, &payload_a).unwrap();
    store_write(&request.cache_dir, &key, &payload_b).unwrap();
    let stored = cacache::read_sync(&request.cache_dir, &key).unwrap();
    let stored = String::from_utf8(stored).unwrap();
    assert!(stored == payload_a || stored == payload_b);
}

#[test]
fn missing_source_file_is_a_source_io_error() {
    let dir = tempfile::tempdir().unwrap();
    let request = ProcessRequest {
        cache_dir: dir.path().join("cache").to_str().unwrap().to_string(),
        source: Source::Bibtex { path: dir.path().join("absent.bib").to_str().unwrap().to_string() },
        csl_style: None,
        csl_locale: None,
    };
    assert!(matches!(request.process(), Err(BibliotecaProcessSourceError::SourceIoError(_))));
    let key = request.get_key();
    assert!(matches!(
        request.is_cache_valid(&key),
        Err(BibliotecaProcessSourceError::SourceIoError(_))
    ));
}

#[test]
fn garbage_source_is_a_content_error() {
    let dir = tempfile::tempdir().unwrap();
    let request = setup(&dir, "@article{broken, title = {Unclosed}", None);
    assert!(matches!(
        request.process(),
        Err(BibliotecaProcessSourceError::SourceContentError(_))
    ));
}

#[test]
fn unusable_cache_directory_is_a_store_io_error() {
    let dir = tempfile::tempdir().unwrap();
    let blocker = dir.path().join("not-a-directory");
    fs_err::write(&blocker, "plain file").unwrap();
    let source_path = dir.path().join("source.bib");
    fs_err::write(&source_path, TWO_ENTRIES).unwrap();
    let request = ProcessRequest {
        cache_dir: blocker.to_str().unwrap().to_string(),
        source: Source::Bibtex { path: source_path.to_str().unwrap().to_string() },
        csl_style: None,
        csl_locale: None,
    };
    assert!(matches!(
        request.process_cached(),
        Err(BibliotecaProcessSourceError::StoreIoError(_))
    ));
}

#[test]
fn unsupported_kind_is_reported_before_any_work() {
    let dir = tempfile::tempdir().unwrap();
    let request = ProcessRequest {
        cache_dir: dir.path().join("cache").to_str().unwrap().to_string(),
        source: Source::CslJson { path: "irrelevant.json".to_string() },
        csl_style: None,
        csl_locale: None,
    };
    assert!(matches!(request.process(), Err(BibliotecaProcessSourceError::Unsupported)));
}
