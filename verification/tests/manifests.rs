use black_anvil::config::Config;
use black_anvil::copy_binary;
use black_anvil::error::ErrorKind;
use black_anvil::install::{copy_result, dir_result, plan_install, CopyOutcome};
use black_anvil::manifest::{manifest_path, package_in, package_name, read_package_name};
use black_anvil::path::{Platform, Profile};

const DEMO: &str = "[package]\nname = \"demo\"\nversion = \"0.1.0\"\n\n[dependencies]\n";

#[test]
fn package_name_is_read() {
    assert_eq!(package_name(DEMO), Some("demo".to_string()));
}

#[test]
fn package_name_in_inline_table() {
    assert_eq!(package_name("package = { name = \"inline\" }"), Some("inline".to_string()));
}

#[test]
fn package_name_is_not_the_text_itself() {
    assert_eq!(package_name("[package]\nname = \"a-b\""), Some("a-b".to_string()));
}

#[test]
fn package_name_missing() {
    assert_eq!(package_name("[package]\nversion = \"1\""), None);
    assert_eq!(package_name("[dependencies]\n"), None);
    assert_eq!(package_name(""), None);
}

#[test]
fn package_name_of_wrong_type() {
    assert_eq!(package_name("[package]\nname = 3"), None);
    assert_eq!(package_name("package = \"demo\""), None);
    assert_eq!(package_name("[package]\nname = true"), None);
}

#[test]
fn manifest_that_is_not_toml() {
    assert_eq!(package_name("[package\nname = "), None);
    assert_eq!(package_name("name"), None);
}

#[test]
fn package_in_parsed_document() {
    let doc: toml::Value = DEMO.parse().unwrap();
    assert_eq!(package_in(&doc), Some("demo".to_string()));
    assert_eq!(package_in(&toml::Value::Boolean(true)), None);
    assert_eq!(package_in(&toml::Value::String("package".to_string())), None);
}

#[test]
fn manifest_lies_at_the_project_root() {
    assert_eq!(manifest_path("proj", Platform::Unix), "proj/Cargo.toml");
    assert_eq!(manifest_path("proj", Platform::Windows), "proj\\Cargo.toml");
}

#[test]
fn demo_release_is_staged_under_its_name() {
    let plan = copy_binary("project_path", Profile::Release, "install_dir", Some(DEMO), Platform::Unix)
        .unwrap();
    assert_eq!(plan.source, "project_path/target/release/demo");
    assert_eq!(plan.install_dir, "install_dir");
    assert_eq!(plan.dest, "install_dir/demo");
    assert_eq!(copy_result(&plan, CopyOutcome::Copied), Ok("install_dir/demo".to_string()));
}

#[test]
fn demo_release_on_windows() {
    let plan = copy_binary("p", Profile::Release, "inst", Some(DEMO), Platform::Windows).unwrap();
    assert_eq!(plan.source, "p\\target\\release\\demo.exe");
    assert_eq!(plan.dest, "inst\\demo.exe");
}

#[test]
fn planning_twice_gives_the_same_plan() {
    let first = copy_binary("p", Profile::Debug, "inst", Some(DEMO), Platform::Unix).unwrap();
    let second = copy_binary("p", Profile::Debug, "inst", Some(DEMO), Platform::Unix).unwrap();
    assert_eq!(first, second);
    assert_eq!(first, plan_install("p", Profile::Debug, "inst", "demo", Platform::Unix));
}

#[test]
fn unreadable_manifest_is_a_read_error() {
    let err = copy_binary("p", Profile::Release, "inst", None, Platform::Unix).unwrap_err();
    assert_eq!(err.kind, ErrorKind::ManifestRead);
    assert_eq!(err.subject, "p/Cargo.toml");
}

#[test]
fn manifest_without_a_name_is_a_parse_error() {
    let err = copy_binary("p", Profile::Release, "inst", Some("[package]\n"), Platform::Unix)
        .unwrap_err();
    assert_eq!(err.kind, ErrorKind::ManifestParse);
    assert_eq!(err.subject, "p/Cargo.toml");
    let err = copy_binary("p", Profile::Release, "inst", Some("= broken"), Platform::Unix)
        .unwrap_err();
    assert_eq!(err.kind, ErrorKind::ManifestParse);
}

#[test]
fn install_dir_that_cannot_be_made() {
    let plan = plan_install("p", Profile::Release, "inst", "demo", Platform::Unix);
    assert_eq!(dir_result(&plan, true), Ok(()));
    let err = dir_result(&plan, false).unwrap_err();
    assert_eq!(err.kind, ErrorKind::InstallDir);
    assert_eq!(err.subject, "inst");
}

#[test]
fn missing_artifact_and_failed_copy() {
    let plan = plan_install("p", Profile::Release, "inst", "demo", Platform::Unix);
    let err = copy_result(&plan, CopyOutcome::SourceMissing).unwrap_err();
    assert_eq!(err.kind, ErrorKind::ArtifactNotFound);
    assert_eq!(err.subject, "p/target/release/demo");
    let err = copy_result(&plan, CopyOutcome::Failed).unwrap_err();
    assert_eq!(err.kind, ErrorKind::Copy);
    assert_eq!(err.subject, "p/target/release/demo");
}

#[test]
fn config_with_every_key() {
    let text = "project_path = \"proj\"\nbuild_type = \"debug\"\ninstall_dir = \"out\"\nvendor = true\n";
    let cfg = Config::from_text(text).unwrap();
    assert_eq!(cfg.project_path, Some("proj".to_string()));
    assert_eq!(cfg.build_type, Some("debug".to_string()));
    assert_eq!(cfg.install_dir, Some("out".to_string()));
    assert_eq!(cfg.vendor, Some(true));
}

#[test]
fn config_keys_are_optional() {
    assert_eq!(Config::from_text(""), Some(Config::default()));
    let cfg = Config::from_text("vendor = false\nother = 1\n").unwrap();
    assert_eq!(cfg.project_path, None);
    assert_eq!(cfg.build_type, None);
    assert_eq!(cfg.install_dir, None);
    assert_eq!(cfg.vendor, Some(false));
}

#[test]
fn config_of_wrong_type_is_refused() {
    assert_eq!(Config::from_text("vendor = \"yes\""), None);
    assert_eq!(Config::from_text("project_path = 1"), None);
    assert_eq!(Config::from_text("build_type = true"), None);
    assert_eq!(Config::from_text("install_dir = [\"a\"]"), None);
    assert_eq!(Config::from_text("project_path = "), None);
}

#[test]
fn config_from_parsed_document() {
    let doc: toml::Value = "install_dir = \"x\"".parse().unwrap();
    let cfg = Config::from_document(&doc).unwrap();
    assert_eq!(cfg.install_dir, Some("x".to_string()));
    assert_eq!(cfg.vendor, None);
}

#[test]
fn default_config_is_empty() {
    let cfg = Config::default();
    assert_eq!(cfg.project_path, None);
    assert_eq!(cfg.build_type, None);
    assert_eq!(cfg.install_dir, None);
    assert_eq!(cfg.vendor, None);
}

#[test]
fn reading_the_package_name_of_a_project() {
    assert_eq!(read_package_name("p", Some(DEMO), Platform::Unix), Ok("demo".to_string()));
    let err = read_package_name("p", None, Platform::Windows).unwrap_err();
    assert_eq!(err.kind, ErrorKind::ManifestRead);
    assert_eq!(err.subject, "p\\Cargo.toml");
    let err = read_package_name("p", Some("[package]"), Platform::Unix).unwrap_err();
    assert_eq!(err.kind, ErrorKind::ManifestParse);
    assert_eq!(err.subject, "p/Cargo.toml");
}
