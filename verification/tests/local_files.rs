//! Classification of locally defined presence bundle files.

use presence_bridge::dispatcher::{on_local_file_set_changed, OutboundEvent};
use presence_bridge::local_presence::{LocalFile, LocalFiles, LocalPresence};

#[test]
fn json_file_is_parsed_js_file_is_raw() {
    let lp = LocalPresence::new();
    let entries = vec![
        ("a.json".to_string(), "{\"x\":1}".to_string()),
        ("b.js".to_string(), "presence();".to_string()),
    ];
    let out = lp.collect_files(&entries);
    assert_eq!(out.files.len(), 2);

    assert_eq!(out.files[0].file, "a.json");
    let expected: serde_json::Value = serde_json::from_str("{\"x\":1}").unwrap();
    assert_eq!(out.files[0].contents, expected);

    assert_eq!(out.files[1].file, "b.js");
    assert_eq!(
        out.files[1].contents,
        serde_json::Value::String("presence();".to_string()),
    );
}

#[test]
fn other_extensions_are_skipped() {
    assert!(LocalFile::new("notes.txt".to_string(), "hello".to_string()).is_none());
    assert!(LocalFile::new("noext".to_string(), "hello".to_string()).is_none());
}

#[test]
fn malformed_json_is_skipped() {
    assert!(LocalFile::new("bad.json".to_string(), "{not json".to_string()).is_none());
}

#[test]
fn js_contents_are_never_parsed() {
    let lf = LocalFile::new("x.js".to_string(), "{\"x\":1}".to_string()).unwrap();
    assert_eq!(lf.contents, serde_json::Value::String("{\"x\":1}".to_string()));
}

#[test]
fn changed_files_are_relayed_unchanged() {
    let a = LocalFile::new("a.json".to_string(), "[1,2]".to_string()).unwrap();
    let b = LocalFile::new("b.js".to_string(), "x".to_string()).unwrap();
    let batch = LocalFiles::new(vec![a, b]);
    match on_local_file_set_changed(batch) {
        OutboundEvent::LocalPresence(f) => {
            assert_eq!(f.files.len(), 2);
            assert_eq!(f.files[0].file, "a.json");
            assert_eq!(f.files[1].file, "b.js");
        },
        _ => panic!("a changed-files batch must come back as a local presence event"),
    }
}
