use hook::config::{
    default_config_address, default_config_modules, default_config_mount_path,
    default_config_port, default_config_url_base, prepend_url_base, Module,
};
use hook::git::config::{Action, Config, ConfigError, Event, Policy, Service, UserConfig, UserPolicy};

fn user_policy(full: &str, secret: &str) -> UserPolicy {
    UserPolicy {
        service: Service::Github,
        full_repo_name: full.to_string(),
        secret: secret.to_string(),
        event: Event::Push,
        action: Action::Pull {
            path: "/srv/repo".to_string(),
            remote: "origin".to_string(),
            branch: "main".to_string(),
            ssh_key_path: "/keys/id".to_string(),
        },
    }
}

#[test]
fn policy_splits_full_name_and_derives_remote() {
    let p = Policy::from_user_policy(&user_policy("acme/repo", "s")).unwrap();
    assert_eq!(p.user, "acme");
    assert_eq!(p.repo_name, "repo");
    assert_eq!(p.full_repo_name, "acme/repo");
    assert_eq!(p.ssh_url, "git@github.com:acme/repo.git");
    assert_eq!(p.secret, "s");
}

#[test]
fn policy_rejects_malformed_full_names() {
    for bad in ["acme", "a/b/c", "/repo", "acme/", "", "/"] {
        let r = Policy::from_user_policy(&user_policy(bad, "s"));
        assert!(matches!(r, Err(ConfigError::InvalidRepoName)), "{}", bad);
    }
}

#[test]
fn store_lookup_finds_each_policy() {
    let c = Config::from_user_config(UserConfig {
        policies: vec![user_policy("acme/repo", "one"), user_policy("acme/other", "two")],
    })
    .unwrap();
    assert_eq!(c.get_policy_from_name("repo").unwrap().secret, "one");
    assert_eq!(c.get_policy_from_name("other").unwrap().secret, "two");
    assert_eq!(c.policy_index("other"), Some(1));
    assert!(c.get_policy_from_name("missing").is_none());
    assert!(c.get_policy_from_name("acme/repo").is_none());
}

#[test]
fn store_rejects_duplicate_repo_name() {
    let r = Config::from_user_config(UserConfig {
        policies: vec![user_policy("acme/repo", "one"), user_policy("other/repo", "two")],
    });
    assert!(matches!(r, Err(ConfigError::DuplicateRepoName)));
}

#[test]
fn store_reports_invalid_name_before_duplicates() {
    let r = Config::from_user_config(UserConfig {
        policies: vec![
            user_policy("acme/repo", "one"),
            user_policy("other/repo", "two"),
            user_policy("broken", "three"),
        ],
    });
    assert!(matches!(r, Err(ConfigError::InvalidRepoName)));
}

#[test]
fn empty_store_finds_nothing() {
    let c = Config::from_user_config(UserConfig { policies: vec![] }).unwrap();
    assert!(c.get_policy_from_name("repo").is_none());
}

#[test]
fn server_defaults() {
    assert_eq!(default_config_address(), "localhost");
    assert_eq!(default_config_port(), 7267);
    assert_eq!(default_config_url_base(), "");
    assert!(default_config_modules::<Module>().is_empty());
    assert_eq!(default_config_mount_path(), "/git");
}

#[test]
fn url_base_is_prepended() {
    assert_eq!(prepend_url_base("/git/repo".to_string(), "/hooks"), "/hooks/git/repo");
    assert_eq!(prepend_url_base("/git".to_string(), ""), "/git");
}
