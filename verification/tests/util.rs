use pirate_life::error::ConfigError;
use pirate_life::util::config_candidates;
use pirate_life::util::config_path;
use pirate_life::util::is_file;
use pirate_life::util::Environment;

fn strings(items: &[&str]) -> Vec<String> {
    items.iter().map(|item| item.to_string()).collect()
}

fn full() -> Environment {
    Environment {
        override_config: Some("/etc/override.toml".to_string()),
        xdg_config_home: Some("/xdg".to_string()),
        home: Some("/home/me".to_string()),
        appdata: Some("/appdata".to_string()),
        local_appdata: Some("/local".to_string()),
        files: Vec::new(),
    }
}

#[test]
fn candidates_come_in_a_fixed_order() {
    assert_eq!(
        config_candidates(&full()),
        strings(&[
            "/etc/override.toml",
            "/xdg/pirate_life/pirate_life.toml",
            "/xdg/pirate_life.toml",
            "/home/me/.config/pirate_life/pirate_life.toml",
            "/home/me/.pirate_life.toml",
            "/appdata/pirate_life/pirate_life.toml",
            "/appdata/pirate_life.toml",
            "/local/pirate_life/pirate_life.toml",
            "/local/pirate_life.toml",
        ])
    );
}

#[test]
fn unset_variables_contribute_nothing() {
    assert_eq!(config_candidates(&Environment::default()), strings(&[]));
    let env = Environment { home: Some("/home/me/".to_string()), ..Environment::default() };
    assert_eq!(
        config_candidates(&env),
        strings(&["/home/me/.config/pirate_life/pirate_life.toml", "/home/me/.pirate_life.toml"])
    );
}

#[test]
fn first_existing_candidate_wins() {
    let mut env = full();
    env.files = strings(&["/local/pirate_life.toml", "/home/me/.pirate_life.toml", "/other"]);
    assert_eq!(config_path(&env), Ok("/home/me/.pirate_life.toml".to_string()));
}

#[test]
fn override_comes_first() {
    let mut env = full();
    env.files = strings(&["/xdg/pirate_life.toml", "/etc/override.toml"]);
    assert_eq!(config_path(&env), Ok("/etc/override.toml".to_string()));
}

#[test]
fn override_without_file_is_passed_over() {
    let mut env = full();
    env.files = strings(&["/xdg/pirate_life.toml"]);
    assert_eq!(config_path(&env), Ok("/xdg/pirate_life.toml".to_string()));
}

#[test]
fn no_configuration_found() {
    let mut env = full();
    env.files = strings(&["/somewhere/else.toml"]);
    assert_eq!(config_path(&env), Err(ConfigError::NotFound));
    assert_eq!(config_path(&Environment::default()), Err(ConfigError::NotFound));
}

#[test]
fn files_of_the_environment() {
    let env = Environment { files: strings(&["/a", "/b"]), ..Environment::default() };
    assert!(is_file(&env, "/a"));
    assert!(is_file(&env, "/b"));
    assert!(!is_file(&env, "/c"));
    assert!(!is_file(&env, ""));
}
