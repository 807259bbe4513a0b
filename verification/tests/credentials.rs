//! Tests of credentials, their resolution and rendering, and the config file.

use metalctl::credentials::{config_from_items, TomlItem};
use metalctl::{
    check_config_permissions, config_path_from, parse_config, ConfigCredentials,
    CredentialSources, Credentials, Error,
};

#[test]
fn rejects_empty_username() {
    assert!(matches!(Credentials::new("", "secret"), Err(Error::InvalidCredentials)));
}

#[test]
fn rejects_empty_password() {
    assert!(matches!(Credentials::new("user", ""), Err(Error::InvalidCredentials)));
}

#[test]
fn builds_basic_authorization_header() {
    // base64("user:pass") == "dXNlcjpwYXNz"
    let credentials = Credentials::new("user", "pass").unwrap();
    assert_eq!(credentials.authorization(), "Basic dXNlcjpwYXNz");
}

#[test]
fn authorization_matches_the_documented_example() {
    let credentials = Credentials::new("user", "secret").unwrap();
    assert!(credentials.header_fits());
    assert_eq!(credentials.authorization(), "Basic dXNlcjpzZWNyZXQ=");
    // The encoding is not the identity: the header differs from the raw pair.
    assert_ne!(credentials.authorization(), "Basic user:secret");
}

#[test]
fn debug_redacts_password() {
    let credentials = Credentials::new("user", "s3cr3t").unwrap();
    let rendered = credentials.debug_string();
    assert!(rendered.contains("<redacted>"));
    assert!(!rendered.contains("s3cr3t"));
    assert_eq!(rendered, r#"Credentials { username: "user", password: "<redacted>" }"#);
}

fn sources(
    flag: Option<(&str, &str)>,
    env: Option<(&str, &str)>,
    config: Option<(&str, &str)>,
) -> CredentialSources {
    CredentialSources {
        flag_user: flag.map(|(user, _)| user.to_string()),
        flag_password: flag.map(|(_, password)| password.to_string()),
        env_user: env.map(|(user, _)| user.to_string()),
        env_password: env.map(|(_, password)| password.to_string()),
        config: config.map(|(user, password)| ConfigCredentials {
            user: Some(user.to_string()),
            password: Some(password.to_string()),
        }),
    }
}

#[test]
fn resolve_prefers_flags_over_env_and_config() {
    let resolved = Credentials::resolve(sources(
        Some(("flag-user", "flag-pass")),
        Some(("env-user", "env-pass")),
        Some(("cfg-user", "cfg-pass")),
    ))
    .unwrap();
    assert_eq!(
        resolved.authorization(),
        Credentials::new("flag-user", "flag-pass").unwrap().authorization()
    );
}

#[test]
fn resolve_falls_back_to_env() {
    let resolved = Credentials::resolve(sources(None, Some(("env-user", "env-pass")), None)).unwrap();
    assert_eq!(
        resolved.authorization(),
        Credentials::new("env-user", "env-pass").unwrap().authorization()
    );
}

#[test]
fn resolve_uses_config_last_and_mixes_sources_per_value() {
    // user from a flag, password from the config file.
    let mixed = Credentials::resolve(CredentialSources {
        flag_user: Some("flag-user".to_string()),
        config: Some(ConfigCredentials {
            user: Some("cfg-user".to_string()),
            password: Some("cfg-pass".to_string()),
        }),
        ..CredentialSources::default()
    })
    .unwrap();
    assert_eq!(
        mixed.authorization(),
        Credentials::new("flag-user", "cfg-pass").unwrap().authorization()
    );
}

#[test]
fn resolve_errors_when_absent() {
    assert!(matches!(
        Credentials::resolve(sources(None, None, None)),
        Err(Error::MissingCredentials)
    ));
}

#[test]
fn resolve_skips_empty_values() {
    let sources = CredentialSources {
        flag_user: Some(String::new()),
        env_user: Some("env-user".to_string()),
        env_password: Some("env-pass".to_string()),
        ..CredentialSources::default()
    };
    let resolved = Credentials::resolve(sources).unwrap();
    assert_eq!(
        resolved.authorization(),
        Credentials::new("env-user", "env-pass").unwrap().authorization()
    );
    let empty_everywhere = CredentialSources {
        flag_user: Some(String::new()),
        env_user: Some(String::new()),
        env_password: Some("pass".to_string()),
        ..CredentialSources::default()
    };
    assert!(matches!(Credentials::resolve(empty_everywhere), Err(Error::MissingCredentials)));
    let half = CredentialSources { flag_user: Some("u".to_string()), ..CredentialSources::default() };
    assert!(matches!(Credentials::resolve(half), Err(Error::MissingCredentials)));
}

#[test]
fn environment_values_must_both_be_set() {
    assert!(matches!(
        Credentials::from_env_values(String::new(), "p".to_string()),
        Err(Error::MissingCredentials)
    ));
    let credentials = Credentials::from_env_values("u".to_string(), "p".to_string()).unwrap();
    assert_eq!(credentials.authorization(), Credentials::new("u", "p").unwrap().authorization());
}

#[test]
fn debug_redacts_passwords_in_sources() {
    let rendered = sources(
        Some(("flag-user", "FLAG-SECRET")),
        Some(("env-user", "ENV-SECRET")),
        Some(("cfg-user", "CFG-SECRET")),
    )
    .debug_string();
    assert!(rendered.contains("<redacted>"));
    assert!(!rendered.contains("FLAG-SECRET"));
    assert!(!rendered.contains("ENV-SECRET"));
    assert!(!rendered.contains("CFG-SECRET"));
}

#[test]
fn source_rendering_names_users_and_hides_passwords() {
    let rendered = sources(Some(("flag-user", "x")), None, None).debug_string();
    assert_eq!(
        rendered,
        r#"CredentialSources { flag_user: Some("flag-user"), flag_password: Some("<redacted>"), env_user: None, env_password: None, config: None }"#
    );
    let config = ConfigCredentials { user: None, password: Some("p".to_string()) };
    assert_eq!(config.debug_string(), r#"ConfigCredentials { user: None, password: Some("<redacted>") }"#);
}

#[test]
fn parses_user_and_password() {
    let config = parse_config("# comment\nuser = \"alice\"\npassword = \"secret\"\n").unwrap();
    assert_eq!(config.user.as_deref(), Some("alice"));
    assert_eq!(config.password.as_deref(), Some("secret"));
}

#[test]
fn rejects_unknown_config_keys() {
    assert!(matches!(parse_config("token = \"x\"\n"), Err(Error::Config(_))));
}

#[test]
fn rejects_malformed_toml() {
    // Missing value.
    assert!(matches!(parse_config("user =\n"), Err(Error::Config(_))));
    // Not TOML at all.
    assert!(matches!(parse_config("this is not toml\n"), Err(Error::Config(_))));
}

#[test]
fn config_values_must_be_strings_and_may_be_absent() {
    match parse_config("user = 5\n") {
        Err(Error::Config(message)) => {
            assert_eq!(message, "invalid config: invalid type for `user`, expected a string");
        }
        _ => panic!("integer user accepted"),
    }
    match parse_config("token = \"x\"\n") {
        Err(Error::Config(message)) => {
            assert_eq!(message, "invalid config: unknown field `token`, expected `user` or `password`");
        }
        _ => panic!("unknown key accepted"),
    }
    let empty = parse_config("").unwrap();
    assert!(empty.user.is_none() && empty.password.is_none());
    let _ = TomlItem::Float;
}

#[test]
fn config_file_must_be_owner_only() {
    match check_config_permissions("/home/a/.config/metalctl/config.toml", 0o100644) {
        Err(Error::Config(message)) => assert_eq!(
            message,
            "/home/a/.config/metalctl/config.toml is accessible by other users (mode 644); run `chmod 600`"
        ),
        _ => panic!("0644 accepted"),
    }
    assert!(check_config_permissions("c", 0o100600).is_ok());
    assert!(check_config_permissions("c", 0o400).is_ok());
    match check_config_permissions("c", 0o007) {
        Err(Error::Config(message)) => assert!(message.contains("(mode 007)")),
        _ => panic!("0007 accepted"),
    }
}

#[test]
fn config_path_follows_the_documented_order() {
    let s = |v: &str| Some(v.to_string());
    assert_eq!(config_path_from(s("/etc/m.toml"), s("/x"), s("/h")).as_deref(), Some("/etc/m.toml"));
    assert_eq!(
        config_path_from(None, s("/x"), s("/h")).as_deref(),
        Some("/x/metalctl/config.toml")
    );
    assert_eq!(
        config_path_from(None, s("/x/"), None).as_deref(),
        Some("/x/metalctl/config.toml")
    );
    assert_eq!(
        config_path_from(None, None, s("/home/a")).as_deref(),
        Some("/home/a/.config/metalctl/config.toml")
    );
    assert_eq!(config_path_from(None, None, None), None);
}

#[test]
fn config_entries_are_checked_in_order() {
    let ok = config_from_items(vec![
        ("user".to_string(), TomlItem::Text("alice".to_string())),
        ("password".to_string(), TomlItem::Text("secret".to_string())),
    ])
    .unwrap();
    assert_eq!(ok.user.as_deref(), Some("alice"));
    assert_eq!(ok.password.as_deref(), Some("secret"));
    match config_from_items(vec![
        ("password".to_string(), TomlItem::Text("p".to_string())),
        ("token".to_string(), TomlItem::Text("x".to_string())),
        ("user".to_string(), TomlItem::Integer(1)),
    ]) {
        Err(Error::Config(message)) => assert_eq!(
            message,
            "invalid config: unknown field `token`, expected `user` or `password`"
        ),
        _ => panic!("expected Error::Config"),
    }
    match config_from_items(vec![("user".to_string(), TomlItem::Integer(1))]) {
        Err(Error::Config(message)) => {
            assert_eq!(message, "invalid config: invalid type for `user`, expected a string")
        }
        _ => panic!("expected Error::Config"),
    }
}
