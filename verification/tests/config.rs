use macroquest::build_config::BuildConfig;
use macroquest::mq::paths;

#[test]
fn test_build_config_load_parses_four_lines() {
    let config = BuildConfig::load("Jan 02 2006 15:04:05\nC:\\MacroQuest\nrelease\nx64").unwrap();
    assert_eq!(config.eq_version(), "Jan 02 2006 15:04:05");
    assert_eq!(config.mq_dir, "C:\\MacroQuest");
    assert_eq!(config.mq_profile, "release");
    assert_eq!(config.mq_arch, "x64");
}

#[test]
fn test_build_config_load_rejects_short_input() {
    assert!(BuildConfig::load("only\nthree\nlines").is_none());
    assert!(BuildConfig::load("").is_none());
}

#[test]
fn test_build_config_include_dirs() {
    let config = BuildConfig::load("stamp\nC:\\MQ\nrelease\nx64\n").unwrap();
    assert_eq!(
        config.include_dirs(),
        vec![
            "C:\\MQ\\include".to_string(),
            "C:\\MQ\\src".to_string(),
            "C:\\MQ\\contrib".to_string(),
            "C:\\MQ\\contrib\\imgui".to_string(),
            "C:\\MQ\\contrib\\vcpkg\\installed\\x64-windows-static\\include".to_string(),
            "C:\\MQ\\contrib\\vcpkg\\installed\\x64-windows\\include".to_string(),
        ]
    );
}

#[test]
fn test_build_config_lib_dirs() {
    let config = BuildConfig::load("stamp\nC:\\MQ\nrelease\nx64\n").unwrap();
    assert_eq!(
        config.lib_dirs(),
        vec![
            "C:\\MQ\\build/bin\\release".to_string(),
            "C:\\MQ\\build/lib\\x64\\release".to_string(),
            "C:\\MQ\\contrib/vcpkg/installed\\x64-windows-static\\lib".to_string(),
            "C:\\MQ\\contrib/vcpkg/installed\\x64-windows\\lib".to_string(),
        ]
    );
}

#[test]
fn test_paths_getters() {
    let p = paths(
        "C:\\MQ".to_string(),
        "C:\\MQ\\config".to_string(),
        "C:\\MQ\\config\\MacroQuest.ini".to_string(),
        "C:\\MQ\\macros".to_string(),
        "C:\\MQ\\logs".to_string(),
        "C:\\MQ\\crashdumps".to_string(),
        "C:\\MQ\\plugins".to_string(),
        "C:\\MQ\\resources".to_string(),
        "C:\\EverQuest".to_string(),
    );
    assert_eq!(p.root(), "C:\\MQ");
    assert_eq!(p.config(), "C:\\MQ\\config");
    assert_eq!(p.ini(), "C:\\MQ\\config\\MacroQuest.ini");
    assert_eq!(p.macros(), "C:\\MQ\\macros");
    assert_eq!(p.logs(), "C:\\MQ\\logs");
    assert_eq!(p.crash_dumps(), "C:\\MQ\\crashdumps");
    assert_eq!(p.plugins(), "C:\\MQ\\plugins");
    assert_eq!(p.resources(), "C:\\MQ\\resources");
    assert_eq!(p.everquest(), "C:\\EverQuest");
}
