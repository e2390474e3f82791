use airs_window::version;

#[test]
fn version_matches_package_version() {
    assert_eq!(version(), "0.1.0");
}
