#[test]
fn parse_snap_file() {
    assert!(true);
}
