use artifact_writer::writer::ArtifactDifferenceWriter;
use artifact_writer::writer::ArtifactWriter;

#[test]
fn finalize_renders_the_expected_document() {
    let mut w = ArtifactDifferenceWriter::new(b"/report.json".to_vec(), false);
    w.write_if_changed(b"/a".to_vec(), b"x".to_vec(), None);
    w.remove(b"/b".to_vec(), true);
    let report = w.finalize().expect("recording writer always renders a report");
    assert_eq!(
        String::from_utf8(report).unwrap(),
        "{\"removed\":[{\"path\":\"/b\"}],\"changed\":[{\"path\":\"/a\",\"data\":\"x\"}]}",
    );
}

#[test]
fn finalize_without_calls_renders_an_empty_report() {
    let w = ArtifactDifferenceWriter::new(b"/report.json".to_vec(), false);
    let report = w.finalize().unwrap();
    assert_eq!(
        String::from_utf8(report).unwrap(),
        "{\"removed\":[],\"changed\":[]}",
    );
}

#[test]
fn report_escapes_json_string_content() {
    let mut w = ArtifactDifferenceWriter::new(b"/report.json".to_vec(), false);
    w.write_if_changed(
        b"/a\"b".to_vec(),
        b"line\nquote\"backslash\\tab\tbell\x07end".to_vec(),
        None,
    );
    let report = String::from_utf8(w.finalize().unwrap()).unwrap();
    assert_eq!(
        report,
        "{\"removed\":[],\"changed\":[{\"path\":\"/a\\\"b\",\
         \"data\":\"line\\nquote\\\"backslash\\\\tab\\tbell\\u0007end\"}]}",
    );
}

#[test]
fn unverified_session_of_n_writes_reports_n_updates() {
    let mut w = ArtifactDifferenceWriter::new(b"/report.json".to_vec(), false);
    let n = 5;
    for k in 0..n {
        let path = format!("/artifact/{k}.txt");
        w.write_if_changed(path.into_bytes(), b"content".to_vec(), None);
    }
    let report = w.finalize().unwrap();
    let value: serde_json::Value = serde_json::from_slice(&report).unwrap();
    assert_eq!(value["changed"].as_array().unwrap().len(), n);
    assert_eq!(value["removed"].as_array().unwrap().len(), 0);
}

#[test]
fn report_round_trips_through_a_json_parser() {
    let mut w = ArtifactDifferenceWriter::new(b"/report.json".to_vec(), true);
    // qualifying calls: one changed write, one write to an absent path,
    // one removal of an existing path
    w.write_if_changed(b"/x".to_vec(), b"new".to_vec(), Some(b"old".to_vec()));
    w.write_if_changed("/y/ü".as_bytes().to_vec(), "wörld\n".as_bytes().to_vec(), None);
    // non-qualifying calls: unchanged content, removal of an absent path
    w.write_if_changed(b"/x".to_vec(), b"new".to_vec(), Some(b"new".to_vec()));
    w.remove(b"/absent".to_vec(), false);
    w.remove(b"/z".to_vec(), true);
    let report = w.finalize().unwrap();
    let value: serde_json::Value = serde_json::from_slice(&report).unwrap();
    let changed = value["changed"].as_array().unwrap();
    let removed = value["removed"].as_array().unwrap();
    assert_eq!(changed.len(), 2);
    assert_eq!(removed.len(), 1);
    assert_eq!(changed[0]["path"].as_str().unwrap(), "/x");
    assert_eq!(changed[0]["data"].as_str().unwrap(), "new");
    assert_eq!(changed[1]["path"].as_str().unwrap(), "/y/ü");
    assert_eq!(changed[1]["data"].as_str().unwrap(), "wörld\n");
    assert_eq!(removed[0]["path"].as_str().unwrap(), "/z");
}

#[test]
fn report_parses_to_the_reference_value() {
    // Parsed back, the rendered document must equal the value a standard JSON
    // library builds for the same change-set.
    let mut w = ArtifactDifferenceWriter::new(b"/report.json".to_vec(), false);
    w.write_if_changed(b"/p".to_vec(), b"ctrl\x01\x1f quote\" tab\t".to_vec(), None);
    w.remove(b"/q\\r".to_vec(), true);
    let report = w.finalize().unwrap();
    let parsed: serde_json::Value = serde_json::from_slice(&report).unwrap();

    let mut removed_entry = serde_json::Map::new();
    removed_entry.insert(
        "path".to_string(),
        serde_json::Value::String("/q\\r".to_string()),
    );
    let mut changed_entry = serde_json::Map::new();
    changed_entry.insert(
        "path".to_string(),
        serde_json::Value::String("/p".to_string()),
    );
    changed_entry.insert(
        "data".to_string(),
        serde_json::Value::String("ctrl\u{1}\u{1f} quote\" tab\t".to_string()),
    );
    let mut root = serde_json::Map::new();
    root.insert(
        "removed".to_string(),
        serde_json::Value::Array(vec![serde_json::Value::Object(removed_entry)]),
    );
    root.insert(
        "changed".to_string(),
        serde_json::Value::Array(vec![serde_json::Value::Object(changed_entry)]),
    );
    assert_eq!(parsed, serde_json::Value::Object(root));
}
