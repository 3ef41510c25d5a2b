use ministrace::environ::contains_nul;
use ministrace::environ::join_entry;
use ministrace::environ::key_has_reserved_prefix;
use ministrace::environ::sanitize_environ;

fn pair(key: &str, value: &str) -> (Vec<u8>, Vec<u8>) {
    (key.as_bytes().to_vec(), value.as_bytes().to_vec())
}

#[test]
fn reserved_variables_never_reach_the_traced_program() {
    let entries = vec![
        pair("PATH", "/usr/bin"),
        pair("MINISTRACE_JSON", "1"),
        pair("HOME", "/root"),
        pair("MINISTRACE_FAILURE_TIMEOUT", "5s"),
        pair("MINISTRACE_", ""),
    ];
    let lines = sanitize_environ(&entries).expect("clean input sanitizes");
    assert_eq!(
        lines,
        vec![b"PATH=/usr/bin".to_vec(), b"HOME=/root".to_vec()]
    );
    for line in &lines {
        assert!(!line.starts_with(b"MINISTRACE_"));
    }
}

#[test]
fn prefix_match_is_exact_and_order_is_kept() {
    let entries = vec![
        pair("MINISTRACEX", "kept, no underscore"),
        pair("MINISTRAC", "kept, too short"),
        pair("ZVAR", "1"),
        pair("AVAR", "2"),
    ];
    let lines = sanitize_environ(&entries).expect("clean input sanitizes");
    assert_eq!(
        lines,
        vec![
            b"MINISTRACEX=kept, no underscore".to_vec(),
            b"MINISTRAC=kept, too short".to_vec(),
            b"ZVAR=1".to_vec(),
            b"AVAR=2".to_vec(),
        ]
    );
}

#[test]
fn an_embedded_nul_in_a_kept_variable_aborts_sanitizing() {
    let entries = vec![
        pair("GOOD", "value"),
        (b"BAD".to_vec(), b"va\0lue".to_vec()),
    ];
    assert_eq!(sanitize_environ(&entries), None);

    let entries = vec![(b"BA\0D".to_vec(), b"value".to_vec())];
    assert_eq!(sanitize_environ(&entries), None);
}

#[test]
fn a_nul_inside_a_reserved_variable_does_not_matter() {
    let entries = vec![
        (b"MINISTRACE_RAW".to_vec(), b"va\0lue".to_vec()),
        pair("KEPT", "1"),
    ];
    let lines = sanitize_environ(&entries).expect("the reserved entry is dropped first");
    assert_eq!(lines, vec![b"KEPT=1".to_vec()]);
}

#[test]
fn empty_environment_sanitizes_to_nothing() {
    let entries: Vec<(Vec<u8>, Vec<u8>)> = Vec::new();
    assert_eq!(sanitize_environ(&entries), Some(Vec::new()));
}

#[test]
fn helper_primitives_behave() {
    assert!(key_has_reserved_prefix(&b"MINISTRACE_JSON".to_vec()));
    assert!(key_has_reserved_prefix(&b"MINISTRACE_".to_vec()));
    assert!(!key_has_reserved_prefix(&b"MINISTRACE".to_vec()));
    assert!(!key_has_reserved_prefix(&b"ministrace_json".to_vec()));

    assert!(contains_nul(&b"a\0b".to_vec()));
    assert!(!contains_nul(&b"ab".to_vec()));

    assert_eq!(
        join_entry(&b"KEY".to_vec(), &b"value".to_vec()),
        b"KEY=value".to_vec()
    );
}
