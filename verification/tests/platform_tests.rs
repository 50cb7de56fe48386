use nunu_cli::api::{BuildPlatform, DeletionPolicy};
use nunu_cli::artifact::{generate_build_name, has_glob_chars, infer_platform};
use nunu_cli::error::Error;

#[test]
fn test_infer_platform_known_extensions() {
    assert_eq!(infer_platform("game.exe").unwrap(), BuildPlatform::Windows);
    assert_eq!(infer_platform("setup.msi").unwrap(), BuildPlatform::Windows);
    assert_eq!(infer_platform("app.dmg").unwrap(), BuildPlatform::Macos);
    assert_eq!(infer_platform("app.pkg").unwrap(), BuildPlatform::Macos);
    assert_eq!(infer_platform("app.ipa").unwrap(), BuildPlatform::IosNative);
    assert_eq!(infer_platform("app.apk").unwrap(), BuildPlatform::Android);
    assert_eq!(infer_platform("pkg.deb").unwrap(), BuildPlatform::Linux);
    assert_eq!(infer_platform("pkg.rpm").unwrap(), BuildPlatform::Linux);
    assert_eq!(infer_platform("app.appimage").unwrap(), BuildPlatform::Linux);
}

#[test]
fn test_infer_platform_is_case_insensitive() {
    assert_eq!(infer_platform("Game.EXE").unwrap(), BuildPlatform::Windows);
    assert_eq!(infer_platform("APP.Apk").unwrap(), BuildPlatform::Android);
}

#[test]
fn test_infer_platform_uses_last_component_and_extension() {
    assert_eq!(
        infer_platform("builds/v1.2/release.apk").unwrap(),
        BuildPlatform::Android
    );
    assert_eq!(infer_platform("a.b/c.exe").unwrap(), BuildPlatform::Windows);
}

#[test]
fn test_infer_platform_app_is_ambiguous() {
    match infer_platform("Game.app") {
        Err(Error::ConfigError(m)) => assert_eq!(
            m,
            "Cannot infer platform for .app files. Please specify --platform explicitly (macos or ios-simulator)"
        ),
        _ => panic!("the .app extension must be rejected explicitly"),
    }
}

#[test]
fn test_infer_platform_archives_are_ambiguous() {
    for name in ["b.zip", "b.tar", "b.gz", "b.7z", "b.tgz", "b.bz2"] {
        match infer_platform(name) {
            Err(Error::ConfigError(m)) => {
                assert!(m.starts_with("Cannot infer platform for archive files (."));
                assert!(m.ends_with("). Please specify --platform explicitly"));
            }
            _ => panic!("archives must be rejected explicitly"),
        }
    }
}

#[test]
fn test_infer_platform_unknown_extension() {
    match infer_platform("artifact.xyz") {
        Err(Error::ConfigError(m)) => assert_eq!(
            m,
            "Cannot infer platform from file extension '.xyz'. Please specify --platform explicitly"
        ),
        _ => panic!("unknown extensions must be rejected explicitly"),
    }
    match infer_platform("noextension") {
        Err(Error::ConfigError(m)) => assert_eq!(
            m,
            "Cannot infer platform from file extension '.'. Please specify --platform explicitly"
        ),
        _ => panic!("a missing extension must be rejected explicitly"),
    }
}

#[test]
fn test_platform_names_round_trip() {
    let all = [
        (BuildPlatform::Windows, "windows"),
        (BuildPlatform::Macos, "macos"),
        (BuildPlatform::Linux, "linux"),
        (BuildPlatform::Android, "android"),
        (BuildPlatform::IosNative, "ios-native"),
        (BuildPlatform::IosSimulator, "ios-simulator"),
        (BuildPlatform::Xbox, "xbox"),
        (BuildPlatform::Playstation, "playstation"),
    ];
    for (p, name) in all {
        assert_eq!(p.as_str(), name);
        assert_eq!(BuildPlatform::from_str(name).unwrap(), p);
        assert_eq!(BuildPlatform::from_str(&name.to_uppercase()).unwrap(), p);
    }
}

#[test]
fn test_platform_from_str_invalid() {
    match BuildPlatform::from_str("amiga") {
        Err(Error::ConfigError(m)) => assert_eq!(
            m,
            "Invalid platform: 'amiga'. Valid platforms are: windows, macos, linux, android, ios-native, ios-simulator, xbox, playstation"
        ),
        _ => panic!("an unknown platform must be rejected"),
    }
}

#[test]
fn test_deletion_policy_names() {
    assert_eq!(DeletionPolicy::LeastRecent.as_str(), "least_recent");
    assert_eq!(DeletionPolicy::Oldest.as_str(), "oldest");
    assert_eq!(
        DeletionPolicy::from_str("least_recent").unwrap(),
        DeletionPolicy::LeastRecent
    );
    assert_eq!(
        DeletionPolicy::from_str("least-recent").unwrap(),
        DeletionPolicy::LeastRecent
    );
    assert_eq!(DeletionPolicy::from_str("OLDEST").unwrap(), DeletionPolicy::Oldest);
    match DeletionPolicy::from_str("newest") {
        Err(Error::ConfigError(m)) => assert_eq!(
            m,
            "Invalid deletion policy: 'newest'. Valid policies are: least_recent, oldest"
        ),
        _ => panic!("an unknown policy must be rejected"),
    }
}

#[test]
fn test_generate_build_name() {
    assert_eq!(generate_build_name("My Build", "path/app.apk", 1), "My Build");
    assert_eq!(
        generate_build_name("My Build", "path/app.apk", 3),
        "My Build - app.apk"
    );
    assert_eq!(generate_build_name("My Build", "app.apk", 2), "My Build - app.apk");
}

#[test]
fn test_has_glob_chars() {
    assert!(has_glob_chars("*.apk"));
    assert!(has_glob_chars("app?.exe"));
    assert!(has_glob_chars("build[0-9].ipa"));
    assert!(!has_glob_chars("plain/path.apk"));
}
