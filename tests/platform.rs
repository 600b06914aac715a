use pierre_desktop::platform::{get_platform, Platform};
use pierre_desktop::text::same_text;

const ALL: [Platform; 10] = [
    Platform::Linux,
    Platform::Macos,
    Platform::Ios,
    Platform::Freebsd,
    Platform::Dragonfly,
    Platform::Netbsd,
    Platform::Openbsd,
    Platform::Solaris,
    Platform::Android,
    Platform::Windows,
];

#[test]
fn get_platform_names_linux_macos_windows() {
    assert_eq!(get_platform(Platform::Linux), "linux");
    assert_eq!(get_platform(Platform::Macos), "macos");
    assert_eq!(get_platform(Platform::Windows), "windows");
}

#[test]
fn get_platform_names_mobile_and_bsd_targets() {
    assert_eq!(get_platform(Platform::Ios), "ios");
    assert_eq!(get_platform(Platform::Android), "android");
    assert_eq!(get_platform(Platform::Freebsd), "freebsd");
    assert_eq!(get_platform(Platform::Dragonfly), "dragonfly");
    assert_eq!(get_platform(Platform::Netbsd), "netbsd");
    assert_eq!(get_platform(Platform::Openbsd), "openbsd");
    assert_eq!(get_platform(Platform::Solaris), "solaris");
}

#[test]
fn get_platform_is_constant_across_calls() {
    for p in ALL {
        let first = get_platform(p);
        let second = get_platform(p);
        assert_eq!(first, second);
    }
}

#[test]
fn identifiers_are_non_empty_and_distinct() {
    for (i, p) in ALL.iter().enumerate() {
        assert!(!p.identifier().is_empty());
        for q in ALL.iter().skip(i + 1) {
            assert_ne!(p.identifier(), q.identifier());
        }
    }
}

#[test]
fn identifiers_read_back() {
    for p in ALL {
        assert_eq!(Platform::from_identifier(p.identifier()), Some(p));
        assert_eq!(Platform::from_identifier(&get_platform(p)), Some(p));
    }
}

#[test]
fn unknown_identifiers_are_not_platforms() {
    assert_eq!(Platform::from_identifier(""), None);
    assert_eq!(Platform::from_identifier("Linux"), None);
    assert_eq!(Platform::from_identifier("linu"), None);
    assert_eq!(Platform::from_identifier("linuxx"), None);
    assert_eq!(Platform::from_identifier("haiku"), None);
}

#[test]
fn same_text_compares_whole_strings() {
    assert!(same_text("", ""));
    assert!(same_text("get_platform", "get_platform"));
    assert!(same_text("été", "été"));
    assert!(!same_text("abc", "abd"));
    assert!(!same_text("abc", "ab"));
    assert!(!same_text("", "a"));
}
