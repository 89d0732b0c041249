use alt::config::{copy_pairs, Config, Shell};
use alt::protocol::{Failure, Policy, Request, Step};

fn pair(key: &str, value: &str) -> (String, String) {
    (key.to_string(), value.to_string())
}

fn custom() -> Config {
    Config {
        user: "dev".to_string(),
        shell: Shell { main: "/bin/zsh".to_string(), args: "-l".to_string() },
        home: "/home/dev".to_string(),
        envs: vec![pair("PATH", "/usr/bin"), pair("EDITOR", "vi"), pair("PATH", "/opt/bin")],
    }
}

#[test]
fn the_default_configuration_is_root_with_bash() {
    let config = Config::default();
    assert_eq!(config.user, "root");
    assert_eq!(config.home, "/root");
    assert_eq!(config.shell, Shell { main: "bash".to_string(), args: "-l".to_string() });
    assert_eq!(
        config.envs,
        vec![
            pair("PATH", "/usr/local/bin:/usr/bin:/bin"),
            pair("TERM", "xterm-256color"),
            pair("SHELL", "/bin/bash"),
            pair("LANG", "C.UTF-8"),
        ]
    );
    assert_eq!(Shell::default(), config.shell);
}

#[test]
fn init_writes_the_default_only_where_nothing_is_stored() {
    let steps = Config::init("/srv/ct1");
    assert_eq!(
        steps,
        vec![
            Step {
                request: Request::Probe { path: "/srv/ct1/config.toml".to_string() },
                policy: Policy::SkipNextIf(true),
            },
            Step {
                request: Request::WriteConfig {
                    path: "/srv/ct1/config.toml".to_string(),
                    config: Config::default(),
                },
                policy: Policy::Required(Failure::Io),
            },
        ]
    );
}

#[test]
fn read_config_reads_the_file_at_the_root_of_the_container() {
    assert_eq!(
        Config::read_config("/srv/ct1/"),
        Step {
            request: Request::ReadConfig { path: "/srv/ct1/config.toml".to_string() },
            policy: Policy::Load,
        }
    );
}

#[test]
fn a_login_sets_user_and_home_first_and_then_the_stored_pairs() {
    assert_eq!(
        custom().login_envs(),
        vec![
            pair("USER", "dev"),
            pair("HOME", "/home/dev"),
            pair("PATH", "/usr/bin"),
            pair("EDITOR", "vi"),
            pair("PATH", "/opt/bin"),
        ]
    );
}

#[test]
fn stored_pairs_cannot_override_the_identity_of_a_login() {
    let mut config = custom();
    config.envs = vec![
        pair("USER", "mallory"),
        pair("LANG", "C"),
        pair("HOME", "/tmp"),
        pair("user", "kept"),
        pair("USER", "again"),
    ];
    let envs = config.login_envs();
    assert_eq!(
        envs,
        vec![pair("USER", "dev"), pair("HOME", "/home/dev"), pair("LANG", "C"), pair("user", "kept")]
    );
    let mut environment = std::collections::HashMap::new();
    for (key, value) in envs {
        environment.insert(key, value);
    }
    assert_eq!(environment["USER"], "dev");
    assert_eq!(environment["HOME"], "/home/dev");
}

#[test]
fn a_login_without_stored_pairs_sets_the_identity_alone() {
    let mut config = custom();
    config.envs = Vec::new();
    assert_eq!(config.login_envs(), vec![pair("USER", "dev"), pair("HOME", "/home/dev")]);
}

#[test]
fn copies_are_equal_to_what_they_copy() {
    let config = custom();
    assert_eq!(config.duplicate(), config);
    assert_eq!(config.shell.duplicate(), config.shell);
    assert_eq!(copy_pairs(&config.envs), config.envs);
    assert_eq!(copy_pairs(&Vec::new()), Vec::new());
}
