use super_analyzer::config::{cli_failure, config_failure, ConfigSource};
use super_analyzer::error::ErrorKind;

fn lines(texts: &[&str]) -> Vec<String> {
    texts.iter().map(|text| text.to_string()).collect()
}

#[test]
fn the_local_file_comes_first_then_the_global_one_on_unix() {
    let table = [
        (true, true, true, ConfigSource::Local),
        (true, true, false, ConfigSource::Local),
        (true, false, true, ConfigSource::Global),
        (true, false, false, ConfigSource::BuiltIn),
        (false, true, true, ConfigSource::Local),
        (false, true, false, ConfigSource::Local),
        (false, false, true, ConfigSource::BuiltIn),
        (false, false, false, ConfigSource::BuiltIn),
    ];
    for (unix, local, global, source) in table {
        assert_eq!(ConfigSource::select(unix, local, global), source);
    }
}

#[test]
fn each_source_has_its_path_and_its_warning() {
    assert_eq!(ConfigSource::Local.path(), Some("config.toml"));
    assert_eq!(
        ConfigSource::Global.path(),
        Some("/etc/super-analyzer/config.toml")
    );
    assert_eq!(ConfigSource::BuiltIn.path(), None);
    assert_eq!(ConfigSource::Local.warning(), None);
    assert_eq!(ConfigSource::Global.warning(), None);
    assert_eq!(
        ConfigSource::BuiltIn.warning(),
        Some("Config file not found. Using default configuration")
    );
}

#[test]
fn a_source_that_cannot_be_read_is_a_configuration_failure() {
    let error = ConfigSource::Global.read_failure(lines(&["expected a table"]));
    assert_eq!(error.kind, ErrorKind::Config);
    assert_eq!(
        error.chain,
        lines(&[
            "There was an error when reading the /etc/super-analyzer/config.toml file",
            "expected a table",
        ])
    );
    assert_eq!(
        ConfigSource::Local.read_failure(vec![]).chain,
        lines(&["There was an error when reading the config.toml file"])
    );
    assert_eq!(
        ConfigSource::BuiltIn.read_failure(lines(&["a", "b"])).chain,
        lines(&["a", "b"])
    );
    assert_eq!(error.exit_code(), 50);
}

#[test]
fn options_that_cannot_be_laid_over_are_a_configuration_failure() {
    let error = cli_failure(lines(&["a", "b"]));
    assert_eq!(error.kind, ErrorKind::Config);
    assert_eq!(
        error.chain,
        lines(&["There was an error reading config from CLI", "a", "b"])
    );
    assert_eq!(
        cli_failure(vec![]).chain,
        lines(&["There was an error reading config from CLI"])
    );
}

#[test]
fn a_configuration_that_does_not_validate_lists_errors_and_sources() {
    let error = config_failure(
        &lines(&["The minimum criticality is not valid", "No package was given"]),
        &lines(&["/etc/super-analyzer/config.toml", "config.toml"]),
    );
    assert_eq!(error.kind, ErrorKind::Config);
    assert_eq!(
        error.chain,
        vec![
            "Configuration errors were found:\n\
             The minimum criticality is not valid\n\
             No package was given\n\
             The configuration was loaded, in order, from the following files: \n\
             \t- Default built-in configuration\n\
             \t- /etc/super-analyzer/config.toml\n\
             \t- config.toml\n"
                .to_string()
        ]
    );
    assert_eq!(error.exit_code(), 50);
}

#[test]
fn without_errors_or_sources_the_message_keeps_its_frame() {
    let error = config_failure(&vec![], &vec![]);
    assert_eq!(
        error.chain,
        vec![
            "Configuration errors were found:\nThe configuration was loaded, in order, from the following files: \n\t- Default built-in configuration\n"
                .to_string()
        ]
    );
}
