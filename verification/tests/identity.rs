use oxmux::core_identity;

#[test]
fn exposes_core_identity() {
    assert_eq!(core_identity().crate_name, "oxmux");
    assert_eq!(core_identity().version, "0.1.0");
}
