use steam_checker::platform::Platform;

#[test]
fn platform_is_read_off_the_os_name() {
    assert_eq!(Platform::from_os_name("windows"), Platform::Windows);
    assert_eq!(Platform::from_os_name("macos"), Platform::Macos);
    assert_eq!(Platform::from_os_name("linux"), Platform::Linux);
}

#[test]
fn unknown_os_names_are_other() {
    assert_eq!(Platform::from_os_name("freebsd"), Platform::Other);
    assert_eq!(Platform::from_os_name(""), Platform::Other);
    assert_eq!(Platform::from_os_name("Linux"), Platform::Other);
    assert_eq!(Platform::from_os_name("linux "), Platform::Other);
}
