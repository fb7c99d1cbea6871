use bonnie::command::Command;
use bonnie::commands_registry::CommandsRegistry;
use bonnie::config::record_installed_dependency;
use bonnie::config::recorded_dependency;
use bonnie::config::seed_dependencies;
use bonnie::errors::InstallError;
use bonnie::get_cfg_path;
use bonnie::get_command_from_cfg_and_args;
use bonnie::registry_data::parse_latest_version;
use bonnie::registry_data::parse_manifest;
use bonnie::registry_data::parse_tarball_location;
use bonnie::DEFAULT_BONNIE_CFG_PATH;

const CFG: &str = "# project configuration\n[scripts]\nstart = \"echo hi\"\n\n[dependencies]\nfoo = \"1.0.0\"\n";

#[test]
fn record_then_reload_shows_the_dependency() {
    let out = record_installed_dependency(CFG, "left-pad", "1.3.0").unwrap();
    assert_eq!(recorded_dependency(&out, "left-pad"), Some("1.3.0".to_string()));
}

#[test]
fn record_preserves_other_dependencies_and_top_level_items() {
    let out = record_installed_dependency(CFG, "left-pad", "1.3.0").unwrap();
    assert_eq!(recorded_dependency(&out, "foo"), Some("1.0.0".to_string()));
    // The scripts table still works exactly as before the rewrite.
    let prog_args = vec!["bonnie".to_string(), "start".to_string()];
    assert_eq!(get_command_from_cfg_and_args(out.clone(), prog_args).unwrap(), "echo hi");
    assert!(out.contains("# project configuration"));
    assert!(out.contains("start = \"echo hi\""));
}

#[test]
fn record_overwrites_an_existing_entry() {
    let out = record_installed_dependency(CFG, "foo", "2.0.0").unwrap();
    assert_eq!(recorded_dependency(&out, "foo"), Some("2.0.0".to_string()));
}

#[test]
fn record_creates_the_dependencies_table_when_absent() {
    let out = record_installed_dependency("[scripts]\nstart = \"ls\"\n", "left-pad", "1.3.0")
        .unwrap();
    assert_eq!(recorded_dependency(&out, "left-pad"), Some("1.3.0".to_string()));
    assert!(out.contains("start = \"ls\""));
}

#[test]
fn record_rejects_a_malformed_document() {
    let r = record_installed_dependency("not == toml", "a", "1");
    assert_eq!(r, Err(InstallError::ParseError));
}

#[test]
fn seed_dependencies_reads_the_table_in_order() {
    let seeds = seed_dependencies(CFG).unwrap();
    assert_eq!(seeds, vec![("foo".to_string(), "1.0.0".to_string())]);
}

#[test]
fn seed_dependencies_rejects_a_non_string_entry() {
    let r = seed_dependencies("[dependencies]\nfoo = 3\n");
    assert_eq!(r, Err(InstallError::ParseError));
}

#[test]
fn parse_latest_version_reads_dist_tags() {
    let body = "{\"dist-tags\":{\"latest\":\"1.3.0\"},\"name\":\"left-pad\"}";
    let r = parse_latest_version("left-pad", body).unwrap();
    assert_eq!(r, ("left-pad".to_string(), "1.3.0".to_string()));
}

#[test]
fn parse_latest_version_fails_without_a_latest_tag() {
    assert_eq!(parse_latest_version("x", "{}"), Err(InstallError::NotFound));
    assert_eq!(parse_latest_version("x", "no json"), Err(InstallError::NotFound));
}

#[test]
fn parse_manifest_reads_both_tables() {
    let body = "{\"dependencies\":{\"pad-core\":\"~1.0.0\"},\"devDependencies\":{\"jest\":\"^27.0.0\"}}";
    let m = parse_manifest(body).unwrap();
    assert_eq!(m.dependencies, vec![("pad-core".to_string(), "~1.0.0".to_string())]);
    assert_eq!(m.dev_dependencies, vec![("jest".to_string(), "^27.0.0".to_string())]);
}

#[test]
fn parse_manifest_accepts_missing_tables() {
    let m = parse_manifest("{\"name\":\"tiny\"}").unwrap();
    assert!(m.dependencies.is_empty());
    assert!(m.dev_dependencies.is_empty());
}

#[test]
fn parse_manifest_rejects_non_string_constraints() {
    let r = parse_manifest("{\"dependencies\":{\"a\":1}}");
    assert_eq!(r, Err(InstallError::ParseError));
}

#[test]
fn parse_tarball_location_reads_dist_and_derives_the_file_name() {
    let body = "{\"dist\":{\"tarball\":\"https://registry.example/left-pad/-/left-pad-1.3.0.tgz\"}}";
    let t = parse_tarball_location("left-pad", "1.3.0", body).unwrap();
    assert_eq!(t.download_url, "https://registry.example/left-pad/-/left-pad-1.3.0.tgz");
    assert_eq!(t.file_name, "left-pad-1.3.0.tgz");
}

#[test]
fn parse_tarball_location_fails_without_a_tarball() {
    let r = parse_tarball_location("x", "1.0.0", "{}");
    assert_eq!(r, Err(InstallError::NotFound));
}

#[test]
fn get_cfg_path_prefers_the_environment_override() {
    assert_eq!(get_cfg_path(Some("/tmp/other.toml".to_string())), "/tmp/other.toml");
    assert_eq!(get_cfg_path(None), DEFAULT_BONNIE_CFG_PATH);
}

#[test]
fn registry_add_get_remove() {
    let mut registry = CommandsRegistry::new();
    registry.add("greet", Command::new("echo hello".to_string()));
    assert_eq!(registry.get("greet").unwrap().template, "echo hello");
    registry.add("greet", Command::new("echo hi".to_string()));
    assert_eq!(registry.get("greet").unwrap().template, "echo hi");
    registry.remove("greet");
    assert_eq!(registry.get("greet").unwrap_err(), "Command 'greet' not found.");
}

#[test]
fn insert_args_substitutes_positional_placeholders() {
    let command = Command::new("echo %0 and %1".to_string());
    let args = vec!["first".to_string(), "second".to_string()];
    assert_eq!(command.insert_args(&args).unwrap(), "echo first and second");
}

#[test]
fn insert_args_keeps_a_bare_percent() {
    let command = Command::new("echo 100% done".to_string());
    assert_eq!(command.insert_args(&vec![]).unwrap(), "echo 100% done");
}

#[test]
fn insert_args_fails_on_a_missing_argument() {
    let command = Command::new("echo %0 %1".to_string());
    let args = vec!["only".to_string()];
    assert_eq!(
        command.insert_args(&args).unwrap_err(),
        "Command expects an argument that was not provided."
    );
}

#[test]
fn command_pipeline_produces_the_final_command() {
    let cfg = "[scripts]\ngreet = \"echo hello %0\"\n".to_string();
    let prog_args = vec!["bonnie".to_string(), "greet".to_string(), "world".to_string()];
    assert_eq!(get_command_from_cfg_and_args(cfg, prog_args).unwrap(), "echo hello world");
}

#[test]
fn command_pipeline_requires_a_command() {
    let cfg = "[scripts]\ngreet = \"echo\"\n".to_string();
    let prog_args = vec!["bonnie".to_string()];
    assert_eq!(
        get_command_from_cfg_and_args(cfg, prog_args).unwrap_err(),
        "You must provide a command to run."
    );
}

#[test]
fn command_pipeline_reports_an_unknown_command() {
    let cfg = "[scripts]\ngreet = \"echo\"\n".to_string();
    let prog_args = vec!["bonnie".to_string(), "build".to_string()];
    assert_eq!(
        get_command_from_cfg_and_args(cfg, prog_args).unwrap_err(),
        "Command 'build' not found."
    );
}

#[test]
fn command_pipeline_reports_a_malformed_configuration() {
    let prog_args = vec!["bonnie".to_string(), "greet".to_string()];
    assert_eq!(
        get_command_from_cfg_and_args("not == toml".to_string(), prog_args),
        Err("Error parsing bonnie.toml: the scripts must be a table of strings.".to_string())
    );
}
