use project_peril::config::Config;
use project_peril::logger::{LogLevel, Logger};
use project_peril::text::decimal;

fn sample(name: &str, version: u32) -> Config {
    Config {
        app_name: name.to_string(),
        app_version: version,
        horizontal_fov: 75,
        render_width: 640,
        render_height: 480,
        window_width: 1280,
        window_height: 960,
    }
}

#[test]
fn make_version_packs_fields() {
    assert_eq!(Config::make_version(1, 2, 3), (1 << 22) | (2 << 12) | 3);
    assert_eq!(Config::make_version(1, 2, 3), 4_202_499);
    assert_eq!(Config::make_version(0, 0, 0), 0);
    assert_eq!(Config::make_version(0, 1, 0), 4096);
    assert_eq!(Config::make_version(0x3FF, 0x3FF, 0xFFF), u32::MAX);
}

#[test]
fn make_version_keeps_all_ten_major_bits() {
    assert_eq!(Config::make_version(256, 0, 0), 0x4000_0000);
    assert_eq!(Config::make_version(0x3FF, 0, 0), 0xFFC0_0000);
    assert_ne!(Config::make_version(256, 0, 0), Config::make_version(0, 0, 0));
}

#[test]
fn version_round_trip() {
    let v = Config::make_version(1023, 1023, 4095);
    assert_eq!(sample("x", v).version_to_string(), "v1023.1023.4095");
    let v = Config::make_version(256, 0, 0);
    assert_eq!(sample("x", v).version_to_string(), "v256.0.0");
    let v = Config::make_version(7, 0, 12);
    assert_eq!(sample("x", v).version_to_string(), "v7.0.12");
}

#[test]
fn version_to_string_formats_fields() {
    assert_eq!(sample("x", 4_202_499).version_to_string(), "v1.2.3");
    assert_eq!(sample("x", 0).version_to_string(), "v0.0.0");
    assert_eq!(sample("x", u32::MAX).version_to_string(), "v1023.1023.4095");
}

#[test]
fn decimal_renders_numbers() {
    assert_eq!(decimal(0), "0");
    assert_eq!(decimal(9), "9");
    assert_eq!(decimal(10), "10");
    assert_eq!(decimal(4_294_967_295), "4294967295");
}

#[test]
fn app_name_is_project_peril() {
    assert_eq!(Config::app_name(), "ProjectPeril");
}

#[test]
fn default_config_values() {
    let c = Config::default_config("Name".to_string(), 42);
    assert_eq!(c.app_name, "Name");
    assert_eq!(c.app_version, 42);
    assert_eq!(c.horizontal_fov, 90);
    assert_eq!(c.render_width, 480);
    assert_eq!(c.render_height, 320);
    assert_eq!(c.window_width, 480);
    assert_eq!(c.window_height, 320);
}

#[test]
fn resolve_without_file_uses_defaults_and_saves() {
    let (c, save) = Config::resolve(None, "ProjectPeril".to_string(), 4096);
    assert!(save);
    assert_eq!(c.app_name, "ProjectPeril");
    assert_eq!(c.app_version, 4096);
    assert_eq!(c.horizontal_fov, 90);
    assert_eq!(c.window_height, 320);
}

#[test]
fn resolve_matching_file_needs_no_save() {
    let (c, save) = Config::resolve(Some(sample("ProjectPeril", 4096)), "ProjectPeril".to_string(), 4096);
    assert!(!save);
    assert_eq!(c.horizontal_fov, 75);
    assert_eq!(c.window_width, 1280);
}

#[test]
fn resolve_fixes_name_and_version_keeps_settings() {
    let (c, save) = Config::resolve(Some(sample("Other", 1)), "ProjectPeril".to_string(), 4096);
    assert!(save);
    assert_eq!(c.app_name, "ProjectPeril");
    assert_eq!(c.app_version, 4096);
    assert_eq!(c.horizontal_fov, 75);
    assert_eq!(c.render_width, 640);
    assert_eq!(c.render_height, 480);
    assert_eq!(c.window_width, 1280);
    assert_eq!(c.window_height, 960);
    let (_, save) = Config::resolve(Some(sample("ProjectPeril", 1)), "ProjectPeril".to_string(), 4096);
    assert!(save);
    let (_, save) = Config::resolve(Some(sample("Other", 4096)), "ProjectPeril".to_string(), 4096);
    assert!(save);
}

#[test]
fn resolve_twice_settles() {
    let (c, _) = Config::resolve(Some(sample("Other", 1)), "ProjectPeril".to_string(), 4096);
    let (_, save) = Config::resolve(Some(c), "ProjectPeril".to_string(), 4096);
    assert!(!save);
}

#[test]
fn logger_always_heads_with_trace() {
    let logger = Logger::init(LogLevel::Error);
    assert_eq!(logger.print("hello".to_string()), "TRACEhello");
    let mut logger = Logger::init(LogLevel::Info);
    logger.set_log_level(LogLevel::Warn);
    assert_eq!(logger.print(String::new()), "TRACE");
}
