use matrix::admin::resources::token::shared_secret::SharedSecretRegistration;

#[test]
fn generates_mac_accordingly() {
    let want = "c272fb1c287c795ff5ce238c4dba57cf95db5eff";
    let have = SharedSecretRegistration::generate_mac(
        "m@;wYOUOh0f:CH5XA65sJB1^q01~DmIriOysRImot,OR_vzN&B",
        "1234567890",
        "groot",
        "imroot!1234",
        true,
        None,
    )
    .unwrap();

    assert_eq!(have, want);
}

#[test]
fn mac_differs_for_non_admin() {
    let have = SharedSecretRegistration::generate_mac(
        "m@;wYOUOh0f:CH5XA65sJB1^q01~DmIriOysRImot,OR_vzN&B",
        "1234567890",
        "groot",
        "imroot!1234",
        false,
        None,
    )
    .unwrap();
    assert_eq!(have, "1a352bb25dde505a03fe3d7f1bb9552a8d950e6f");
}

#[test]
fn mac_includes_user_type() {
    let have =
        SharedSecretRegistration::generate_mac("secret", "abc", "bob", "pw", false, Some("bot"))
            .unwrap();
    assert_eq!(have, "e825b511dceef6cf1faf4dcb2a6bc6e64ba37780");
}

#[test]
fn mac_accepts_long_keys() {
    let key = "k".repeat(100);
    let have = SharedSecretRegistration::generate_mac(key.as_str(), "n", "u", "p", true, None).unwrap();
    assert_eq!(have, "62636f8fcf83c15950a118ce9326fc95b7aa958a");
    assert_eq!(have.len(), 40);
}
