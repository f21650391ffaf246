use aptabase_rs::{get_info, is_flatpak, InitOptions, OsFamily, PlatformInfo};

fn platform(os_family: OsFamily, is_flatpak: bool) -> PlatformInfo {
    PlatformInfo {
        is_debug: false,
        os_family,
        os_type_name: "Ubuntu".into(),
        os_version: "24.04".into(),
        is_flatpak,
        locale: None,
    }
}

#[test]
fn os_names_follow_the_family() {
    let options = InitOptions::default();
    assert_eq!(get_info(platform(OsFamily::MacOs, true), &options).os_name, "macOS");
    assert_eq!(get_info(platform(OsFamily::Windows, false), &options).os_name, "Windows");
    assert_eq!(get_info(platform(OsFamily::Other, true), &options).os_name, "Flatpak");
    assert_eq!(get_info(platform(OsFamily::Other, false), &options).os_name, "Ubuntu");
}

#[test]
fn missing_locale_is_empty_and_engine_defaults_apply() {
    let info = get_info(platform(OsFamily::Other, false), &InitOptions::default());
    assert_eq!(info.locale, "");
    assert_eq!(info.os_version, "24.04");
    assert!(!info.is_debug);
    assert_eq!(info.engine_name, "Rust");
    assert_eq!(info.engine_version, "unknown");
}

#[test]
fn flatpak_is_detected_from_environment_values() {
    assert!(is_flatpak(true, None));
    assert!(is_flatpak(false, Some(" FlatPak \n".into())));
    assert!(!is_flatpak(false, Some("docker".into())));
    assert!(!is_flatpak(false, None));
    assert!(is_flatpak(false, Some("\u{3000}FLATPAK\u{2003}\t".into())));
    assert!(!is_flatpak(false, Some("flat pak".into())));
}
