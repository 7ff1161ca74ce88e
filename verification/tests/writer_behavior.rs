use artifact_writer::bytes_equal;
use artifact_writer::utf8::is_utf8_bytes;
use artifact_writer::writer::ArtifactDifferenceWriter;
use artifact_writer::writer::ArtifactFileWriter;
use artifact_writer::writer::ArtifactWriter;
use artifact_writer::writer::RemovePlan;
use artifact_writer::writer::WritePlan;

#[test]
fn direct_writer_creates_absent_file_with_parent_dirs() {
    let mut w = ArtifactFileWriter;
    let plan = w.write_if_changed(b"/out/a.txt".to_vec(), b"hello".to_vec(), None);
    match plan {
        WritePlan::Write { path, content, create_parent_dirs } => {
            assert_eq!(path, b"/out/a.txt".to_vec());
            assert_eq!(content, b"hello".to_vec());
            assert!(create_parent_dirs);
        }
        WritePlan::Skip => panic!("expected a write"),
    }
}

#[test]
fn direct_writer_skips_identical_content() {
    let mut w = ArtifactFileWriter;
    let plan = w.write_if_changed(
        b"/out/a.txt".to_vec(),
        b"hello".to_vec(),
        Some(b"hello".to_vec()),
    );
    assert!(matches!(plan, WritePlan::Skip));
}

#[test]
fn direct_writer_overwrites_changed_content_without_dir_creation() {
    let mut w = ArtifactFileWriter;
    let plan = w.write_if_changed(
        b"/out/a.txt".to_vec(),
        b"world".to_vec(),
        Some(b"hello".to_vec()),
    );
    match plan {
        WritePlan::Write { path, content, create_parent_dirs } => {
            assert_eq!(path, b"/out/a.txt".to_vec());
            assert_eq!(content, b"world".to_vec());
            assert!(!create_parent_dirs);
        }
        WritePlan::Skip => panic!("expected a write"),
    }
}

#[test]
fn direct_writer_removal_is_best_effort_deletion() {
    // The plan asks for a deletion whether or not the path exists; the shell
    // absorbs the failure of deleting an absent path, so removal of an absent
    // path is a success with no observable effect. This absorption is the
    // documented, intentional policy, not an oversight.
    let mut w = ArtifactFileWriter;
    let plan = w.remove(b"/out/gone.txt".to_vec(), false);
    match plan {
        RemovePlan::Delete { path } => assert_eq!(path, b"/out/gone.txt".to_vec()),
        RemovePlan::Keep => panic!("expected a deletion attempt"),
    }
}

#[test]
fn direct_writer_finalize_buffers_nothing() {
    let w = ArtifactFileWriter;
    assert!(w.finalize().is_none());
}

#[test]
fn recording_writer_never_touches_the_filesystem() {
    let mut w = ArtifactDifferenceWriter::new(b"/report.json".to_vec(), false);
    let plan = w.write_if_changed(b"/a".to_vec(), b"x".to_vec(), None);
    assert!(matches!(plan, WritePlan::Skip));
    let plan = w.remove(b"/b".to_vec(), true);
    assert!(matches!(plan, RemovePlan::Keep));
}

#[test]
fn recording_writer_unverified_records_every_write() {
    let mut w = ArtifactDifferenceWriter::new(b"/report.json".to_vec(), false);
    // With verification off, even a write whose content is already on disk is
    // recorded: no comparison is performed.
    w.write_if_changed(b"/a".to_vec(), b"x".to_vec(), Some(b"x".to_vec()));
    w.write_if_changed(b"/a".to_vec(), b"x".to_vec(), None);
    assert_eq!(w.codegen_records.changed.len(), 2);
    assert_eq!(w.codegen_records.removed.len(), 0);
}

#[test]
fn recording_writer_verified_drops_unchanged_write() {
    let mut w = ArtifactDifferenceWriter::new(b"/report.json".to_vec(), true);
    w.write_if_changed(b"/a".to_vec(), b"x".to_vec(), Some(b"x".to_vec()));
    assert_eq!(w.codegen_records.changed.len(), 0);
}

#[test]
fn recording_writer_verified_records_changed_and_absent() {
    let mut w = ArtifactDifferenceWriter::new(b"/report.json".to_vec(), true);
    w.write_if_changed(b"/a".to_vec(), b"x".to_vec(), Some(b"y".to_vec()));
    w.write_if_changed(b"/b".to_vec(), b"x".to_vec(), None);
    assert_eq!(w.codegen_records.changed.len(), 2);
}

#[test]
fn recording_writer_records_removal_iff_path_exists() {
    let mut w = ArtifactDifferenceWriter::new(b"/report.json".to_vec(), false);
    w.remove(b"/absent".to_vec(), false);
    assert_eq!(w.codegen_records.removed.len(), 0);
    w.remove(b"/present".to_vec(), true);
    assert_eq!(w.codegen_records.removed.len(), 1);
    assert_eq!(w.codegen_records.removed[0].path, b"/present".to_vec());
}

#[test]
fn bytes_equal_compares_contents() {
    assert!(bytes_equal(&b"abc".to_vec(), &b"abc".to_vec()));
    assert!(!bytes_equal(&b"abc".to_vec(), &b"abd".to_vec()));
    assert!(!bytes_equal(&b"abc".to_vec(), &b"ab".to_vec()));
    assert!(bytes_equal(&Vec::new(), &Vec::new()));
}

#[test]
fn utf8_checker_accepts_valid_sequences() {
    assert!(is_utf8_bytes(&b"hello".to_vec()));
    assert!(is_utf8_bytes(&Vec::new()));
    assert!(is_utf8_bytes(&"héllo €1 𝄞".as_bytes().to_vec()));
}

#[test]
fn utf8_checker_rejects_invalid_sequences() {
    assert!(!is_utf8_bytes(&vec![0xFF]));
    // truncated two-byte sequence
    assert!(!is_utf8_bytes(&vec![0xC3]));
    // bare continuation byte
    assert!(!is_utf8_bytes(&vec![0x80]));
    // overlong encoding
    assert!(!is_utf8_bytes(&vec![0xC0, 0x80]));
    // surrogate half
    assert!(!is_utf8_bytes(&vec![0xED, 0xA0, 0x80]));
    // beyond U+10FFFF
    assert!(!is_utf8_bytes(&vec![0xF4, 0x90, 0x80, 0x80]));
}

#[test]
fn utf8_checker_matches_std() {
    let samples: Vec<Vec<u8>> = vec![
        b"plain".to_vec(),
        "ünïcodé".as_bytes().to_vec(),
        vec![0xE0, 0x9F, 0x80],
        vec![0xE0, 0xA0, 0x80],
        vec![0xF0, 0x8F, 0x80, 0x80],
        vec![0xF0, 0x90, 0x80, 0x80],
        vec![0x7F],
        vec![0xC2, 0x80],
        vec![0xC2, 0xC0],
    ];
    for s in samples {
        assert_eq!(is_utf8_bytes(&s), std::str::from_utf8(&s).is_ok(), "{:?}", s);
    }
}

#[test]
fn direct_writer_second_identical_write_is_a_no_op() {
    // Simulate the shell against an in-memory file map: the first call's plan
    // is carried out, the second call sees the observation that follows from
    // it and must not write again.
    let mut files: std::collections::HashMap<Vec<u8>, Vec<u8>> = std::collections::HashMap::new();
    let mut w = ArtifactFileWriter;
    let mut writes = 0;
    for _ in 0..2 {
        let existing = files.get(&b"/out/a.txt".to_vec()).cloned();
        let plan = w.write_if_changed(b"/out/a.txt".to_vec(), b"hello".to_vec(), existing);
        if let WritePlan::Write { path, content, .. } = plan {
            files.insert(path, content);
            writes += 1;
        }
    }
    assert_eq!(writes, 1);
    assert_eq!(files[&b"/out/a.txt".to_vec()], b"hello".to_vec());
}
