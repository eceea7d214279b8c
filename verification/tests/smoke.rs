use puread_android::crate_name;

#[test]
fn crate_name_returns_android_crate_identifier_when_smoke_test_runs() {
    assert_eq!(crate_name(), "puread-android");
}
