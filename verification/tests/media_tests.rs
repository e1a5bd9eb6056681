use tg::media::{validate_checked_files, validate_files, FileAccess, MediaFile, MediaKind, SendFile};

fn entry(path: &str, kind: Option<&str>) -> SendFile {
    SendFile {
        path: path.to_string(),
        kind: kind.map(str::to_string),
        ..Default::default()
    }
}

#[test]
fn absent_files_is_a_text_send() {
    assert!(validate_files(None).unwrap().is_empty());
}

#[test]
fn empty_files_array_is_refused() {
    let err = validate_files(Some(&[])).unwrap_err().to_string();
    assert!(err.contains("present but empty"), "{err}");
}

#[test]
fn absent_kind_means_file() {
    let files = validate_files(Some(&[entry("/tmp/a.pdf", None)])).unwrap();
    assert_eq!(files[0].kind, MediaKind::File);
}

#[test]
fn unknown_kind_is_refused_with_its_index() {
    let path = "/tmp/a.jpg";
    let err = validate_files(Some(&[entry(path, Some("photo")), entry(path, Some("video"))]))
        .unwrap_err()
        .to_string();
    assert!(err.contains("files[1]"), "{err}");
    assert!(err.contains("kind 'video'"), "{err}");
}

#[test]
fn mixed_kinds_are_refused_before_any_path_is_touched() {
    let err = validate_files(Some(&[entry("/nope/a.jpg", Some("photo")), entry("/nope/b.pdf", Some("file"))]))
        .unwrap_err()
        .to_string();
    assert!(err.contains("mixes kind `photo`"), "{err}");
    assert!(err.contains("files[1]"), "{err}");
    assert!(!err.contains("unreadable"), "{err}");
}

#[test]
fn eleven_files_are_refused() {
    let entries: Vec<_> = (0..11).map(|_| entry("/nope/a.pdf", None)).collect();
    let err = validate_files(Some(&entries)).unwrap_err().to_string();
    assert!(err.contains("11 files requested"), "{err}");
    assert!(err.contains("at most 10"), "{err}");
}

#[test]
fn ten_files_are_accepted() {
    let entries: Vec<_> = (0..10).map(|_| entry("/tmp/a.pdf", None)).collect();
    assert_eq!(validate_files(Some(&entries)).unwrap().len(), 10);
}

#[test]
fn relative_path_is_refused() {
    let err = validate_files(Some(&[entry("a.pdf", None)])).unwrap_err().to_string();
    assert!(err.contains("is not absolute"), "{err}");
}

#[test]
fn negative_dimension_is_refused() {
    let err = validate_files(Some(&[SendFile {
        path: "/nope/a.jpg".to_string(),
        kind: Some("photo".to_string()),
        width: Some(-1),
        height: None,
    }]))
    .unwrap_err()
    .to_string();
    assert!(err.contains("cannot be negative"), "{err}");
}

#[test]
fn dimension_on_a_document_is_refused() {
    let err = validate_files(Some(&[SendFile {
        path: "/nope/a.pdf".to_string(),
        kind: None,
        width: Some(640),
        height: None,
    }]))
    .unwrap_err()
    .to_string();
    assert!(err.contains("read only for kind `photo`"), "{err}");
}

#[test]
fn photo_dimensions_are_carried_through() {
    let files = validate_files(Some(&[SendFile {
        path: "/tmp/a.jpg".to_string(),
        kind: Some("photo".to_string()),
        width: Some(800),
        height: Some(600),
    }]))
    .unwrap();
    assert_eq!((files[0].width, files[0].height), (800, 600));
}

#[test]
fn display_name_is_the_basename() {
    let file = MediaFile {
        path: "/outbox/item/0/Q3 report.pdf".to_string(),
        kind: MediaKind::File,
        width: 0,
        height: 0,
    };
    assert_eq!(file.display_name(), "Q3 report.pdf");
}

#[test]
fn media_kind_literals_round_trip() {
    assert_eq!(MediaKind::parse(None).unwrap(), MediaKind::File);
    assert_eq!(MediaKind::parse(Some("photo")).unwrap(), MediaKind::Photo);
    assert_eq!(MediaKind::Photo.as_str(), "photo");
    assert_eq!(MediaKind::File.as_str(), "file");
}

#[test]
fn a_document_never_carries_dimensions() {
    let files = validate_files(Some(&[entry("/tmp/a.pdf", Some("file"))])).unwrap();
    assert_eq!((files[0].width, files[0].height), (0, 0));
}

#[test]
fn missing_file_is_refused() {
    // What the filesystem answers for a path that does not exist.
    let access = vec![FileAccess::Unreadable("No such file or directory (os error 2)".to_string())];
    let err = validate_checked_files(&[entry("/nonexistent/a.pdf", None)], &access).unwrap_err().to_string();
    assert!(err.contains("unreadable"), "{err}");
}

#[test]
fn paths_are_checked_in_order() {
    // An unreadable first entry is reported before a relative second one.
    let access = vec![FileAccess::Unreadable("denied".to_string()), FileAccess::Readable];
    let err = validate_checked_files(&[entry("/a.pdf", None), entry("b.pdf", None)], &access)
        .unwrap_err()
        .to_string();
    assert_eq!(err, "send: files[0].path '/a.pdf' is unreadable: denied");
    let err = validate_checked_files(&[entry("/a.pdf", None), entry("/d", None)], &vec![FileAccess::Readable, FileAccess::NotRegular])
        .unwrap_err()
        .to_string();
    assert_eq!(err, "send: files[1].path '/d' is not a regular file");
    let ok = validate_checked_files(&[entry("/a.pdf", None), entry("/b.pdf", None)], &vec![FileAccess::Readable, FileAccess::Readable]).unwrap();
    assert_eq!(ok.iter().map(|f| f.path.as_str()).collect::<Vec<_>>(), vec!["/a.pdf", "/b.pdf"]);
}
