use puread_android::file_actions::snapshot::{FileFacts, FileIdentity, ObservedType, PathObservation};
use puread_android::profiles::error::ProfileError;
use puread_android::profiles::xml::{
    backup_path_for, check_backup_dir_state, check_backup_path_free, join_path, plan_bool, sha256_hex,
    validate_backup_rule_id,
};
use puread_android::profiles::xml_bool::{read_bool_value, rewrite_bool_value};

const PREFS: &[u8] = br#"<?xml version='1.0' encoding='utf-8' standalone='yes' ?>
<map>
    <string name="title">weather</string>
    <boolean name="key_content_promotion" value="true" />
    <boolean name="other" value="false" />
</map>
"#;

#[test]
fn reads_the_named_boolean() {
    assert!(read_bool_value(PREFS, "key_content_promotion", "/p.xml").unwrap());
    assert!(!read_bool_value(PREFS, "other", "/p.xml").unwrap());
}

#[test]
fn a_missing_key_is_an_xml_error_naming_the_file() {
    let error = read_bool_value(PREFS, "absent", "/p.xml").unwrap_err();
    assert!(matches!(error, ProfileError::Xml { ref path, ref reason } if path == "/p.xml" && reason == "boolean key not found: absent"));
}

#[test]
fn an_unsupported_value_is_refused() {
    let content = br#"<map><boolean name="k" value="yes" /></map>"#;
    let error = read_bool_value(content, "k", "/p.xml").unwrap_err();
    assert!(matches!(error, ProfileError::Xml { ref path, ref reason } if path.is_empty() && reason == "unsupported boolean value: yes"));
    let content = br#"<map><boolean name="k" /></map>"#;
    let error = read_bool_value(content, "k", "/p.xml").unwrap_err();
    assert!(matches!(error, ProfileError::Xml { ref reason, .. } if reason == "missing boolean value"));
}

#[test]
fn rewrite_changes_only_the_named_boolean() {
    let content = br#"<map><string name="s">x &amp; y</string><boolean name="a" value="true" /><boolean name="b" value="true" /></map>"#;
    let updated = rewrite_bool_value(content, "a", false, "/p.xml").unwrap();
    assert_eq!(
        String::from_utf8(updated).unwrap(),
        r#"<map><string name="s">x &amp; y</string><boolean name="a" value="false"/><boolean name="b" value="true" /></map>"#
    );
}

#[test]
fn rewrite_of_a_start_tag_keeps_it_open() {
    let content = br#"<map><boolean value="true" name="a"></boolean></map>"#;
    let updated = rewrite_bool_value(content, "a", false, "/p.xml").unwrap();
    assert_eq!(String::from_utf8(updated).unwrap(), r#"<map><boolean value="false" name="a"></boolean></map>"#);
}

#[test]
fn rewrite_reads_the_whole_file_and_reports_parse_errors() {
    let content = br#"<map><boolean name="a" value="true"></map>"#;
    assert!(read_bool_value(content, "a", "/p.xml").unwrap());
    let error = rewrite_bool_value(content, "a", false, "/p.xml").unwrap_err();
    assert!(matches!(error, ProfileError::Xml { ref path, .. } if path == "/p.xml"));
}

#[test]
fn sha256_hex_is_lowercase_hex_of_the_digest() {
    assert_eq!(sha256_hex(b"abc"), "ba7816bf8f01cfea414140de5dae2223b00361a396177a9cb410ff61f20015ad");
    assert_eq!(sha256_hex(b""), "e3b0c44298fc1c149afbf4c8996fb92427ae41e4649b934ca495991b7852b855");
}

#[test]
fn backup_paths_join_like_path_join() {
    assert_eq!(backup_path_for("/b", "r-1"), "/b/r-1.xml.bak");
    assert_eq!(backup_path_for("/b/", "r-1"), "/b/r-1.xml.bak");
    assert_eq!(backup_path_for("", "r-1"), "r-1.xml.bak");
    assert_eq!(join_path("rel", "x"), "rel/x");
}

#[test]
fn backup_rule_ids_are_short_ascii_tokens() {
    assert!(validate_backup_rule_id("miui-weather_1").is_ok());
    for bad in ["", "a/b", "a.b", &"x".repeat(97)] {
        let error = validate_backup_rule_id(bad).unwrap_err();
        assert!(matches!(error, ProfileError::InvalidRule { field: "rule_id", .. }));
    }
}

#[test]
fn plan_bool_reads_hashes_and_rewrites_before_any_write() {
    let content = br#"<map><boolean name="key_content_promotion" value="true" /></map>"#;
    let plan = plan_bool(content, "/p.xml", "key_content_promotion", false, "/backups", "miui-weather").unwrap();
    assert!(plan.original_value);
    assert_eq!(plan.original_sha256, sha256_hex(content));
    assert_eq!(plan.backup_path, "/backups/miui-weather.xml.bak");
    assert_eq!(plan.original, content.to_vec());
    assert_eq!(String::from_utf8(plan.updated).unwrap(), r#"<map><boolean name="key_content_promotion" value="false"/></map>"#);
}

#[test]
fn plan_bool_checks_the_rule_id_first() {
    let error = plan_bool(b"not xml at all <", "/p.xml", "k", false, "/backups", "bad id").unwrap_err();
    assert!(matches!(error, ProfileError::InvalidRule { field: "rule_id", .. }));
}

fn facts(file_type: ObservedType) -> FileFacts {
    FileFacts { file_type, mode: 0o755, uid: 0, gid: 0, nlink: 1, identity: FileIdentity { device: 1, inode: 2 } }
}

#[test]
fn commit_needs_a_real_backup_directory_and_a_free_backup_path() {
    assert!(check_backup_dir_state("/b", &PathObservation::Found(facts(ObservedType::Directory))).is_ok());
    assert!(check_backup_dir_state("/b", &PathObservation::Missing("gone".to_owned())).is_ok());
    let error = check_backup_dir_state("/b", &PathObservation::Found(facts(ObservedType::Symlink))).unwrap_err();
    assert!(matches!(error, ProfileError::Io { ref detail, .. } if detail == "backup directory must be a real directory"));
    let error = check_backup_path_free("/b/x.bak", &PathObservation::Found(facts(ObservedType::File))).unwrap_err();
    assert!(matches!(error, ProfileError::Io { ref detail, .. } if detail == "backup path already exists"));
    assert!(check_backup_path_free("/b/x.bak", &PathObservation::Missing("gone".to_owned())).is_ok());
}
