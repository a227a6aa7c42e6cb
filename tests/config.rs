use tg_notifier::config::{
    config_from_fields, load_source, merge, parse_config, resolve_config, resolve_layers,
    send_target, user_config_path, ConfigError, ConfigSource, Overrides, PartialConfig, ResolvedConfig, SendError,
    SourceRead, TomlScalar,
};

fn text(path: &str, body: &str) -> ConfigSource {
    ConfigSource { path: path.to_string(), read: SourceRead::Text(body.to_string()) }
}

fn missing(path: &str) -> ConfigSource {
    ConfigSource { path: path.to_string(), read: SourceRead::Missing }
}

fn partial(token: Option<&str>, chat: Option<i64>) -> PartialConfig {
    PartialConfig { bot_token: token.map(|t| t.to_string()), chat_id: chat }
}

fn no_overrides() -> Overrides {
    Overrides { token: None, chat_id: None }
}

#[test]
fn parse_reads_both_keys() {
    assert_eq!(parse_config("bot_token = \"abc\"\nchat_id = 42\n"), Ok(partial(Some("abc"), Some(42))));
}

#[test]
fn parse_ignores_other_keys() {
    assert_eq!(parse_config("name = \"x\"\nchat_id = -7\n"), Ok(partial(None, Some(-7))));
}

#[test]
fn parse_empty_document() {
    assert_eq!(parse_config(""), Ok(partial(None, None)));
}

#[test]
fn parse_rejects_invalid_toml() {
    let e = parse_config("bot_token = \n").unwrap_err();
    assert!(!e.is_empty());
    assert!(parse_config("chat_id = 1\nchat_id = 2\n").is_err());
}

#[test]
fn parse_rejects_wrong_types() {
    assert_eq!(parse_config("chat_id = \"111\"\n"), Err("chat_id must be an integer".to_string()));
    assert_eq!(parse_config("bot_token = 5\n"), Err("bot_token must be a string".to_string()));
    assert_eq!(parse_config("chat_id = 1.5\n"), Err("chat_id must be an integer".to_string()));
}

#[test]
fn fields_build_a_record() {
    assert_eq!(
        config_from_fields(Some(TomlScalar::Text("t".to_string())), Some(TomlScalar::Integer(9))),
        Ok(partial(Some("t"), Some(9)))
    );
    assert_eq!(config_from_fields(None, None), Ok(partial(None, None)));
    assert_eq!(config_from_fields(Some(TomlScalar::Integer(1)), None), Err("bot_token must be a string".to_string()));
    assert_eq!(config_from_fields(None, Some(TomlScalar::Other)), Err("chat_id must be an integer".to_string()));
}

#[test]
fn merge_present_fields_win() {
    assert_eq!(merge(partial(Some("a"), Some(1)), partial(None, Some(2))), partial(Some("a"), Some(2)));
    assert_eq!(merge(partial(Some("a"), None), partial(Some("b"), None)), partial(Some("b"), None));
}

#[test]
fn load_missing_is_no_config() {
    assert_eq!(load_source(missing("/nowhere")), Ok(None));
}

#[test]
fn load_unreadable_names_path() {
    let src = ConfigSource { path: "/etc/x.toml".to_string(), read: SourceRead::Unreadable("denied".to_string()) };
    assert_eq!(load_source(src), Err(ConfigError::Unreadable("/etc/x.toml".to_string(), "denied".to_string())));
}

#[test]
fn load_malformed_names_path() {
    assert!(matches!(load_source(text("/u.toml", "= =")), Err(ConfigError::Malformed(p, why)) if p == "/u.toml" && !why.is_empty()));
}

#[test]
fn system_user_and_flag_layering() {
    let cli = Overrides { token: None, chat_id: Some(222) };
    let r = resolve_config(cli, text("/etc/c.toml", "chat_id = 111\n"), Some(text("/home/c.toml", "bot_token = \"abc\"\n")));
    assert_eq!(r, Ok(ResolvedConfig { bot_token: "abc".to_string(), chat_id: Some(222) }));
}

#[test]
fn no_sources_and_no_token_fails() {
    let r = resolve_config(no_overrides(), missing("/etc/c.toml"), Some(missing("/home/c.toml")));
    assert_eq!(r, Err(ConfigError::MissingToken));
    let r = resolve_config(no_overrides(), missing("/etc/c.toml"), None);
    assert_eq!(r, Err(ConfigError::MissingToken));
}

#[test]
fn precedence_flags_over_user_over_system() {
    let sys = Some(partial(Some("sys"), Some(1)));
    let user = Some(partial(Some("user"), None));
    let r = resolve_layers(no_overrides(), partial_clone(&sys), partial_clone(&user));
    assert_eq!(r, Ok(ResolvedConfig { bot_token: "user".to_string(), chat_id: Some(1) }));
    let cli = Overrides { token: Some("cli".to_string()), chat_id: Some(3) };
    let r = resolve_layers(cli, sys, user);
    assert_eq!(r, Ok(ResolvedConfig { bot_token: "cli".to_string(), chat_id: Some(3) }));
    let r = resolve_layers(no_overrides(), Some(partial(None, None)), None);
    assert_eq!(r, Err(ConfigError::MissingToken));
    let r = resolve_layers(Overrides { token: Some("t".to_string()), chat_id: None }, None, None);
    assert_eq!(r, Ok(ResolvedConfig { bot_token: "t".to_string(), chat_id: None }));
}

fn partial_clone(p: &Option<PartialConfig>) -> Option<PartialConfig> {
    p.as_ref().map(|c| PartialConfig { bot_token: c.bot_token.clone(), chat_id: c.chat_id })
}

#[test]
fn resolving_twice_gives_the_same_config() {
    let run = || {
        resolve_config(
            Overrides { token: None, chat_id: Some(5) },
            text("/etc/c.toml", "bot_token = \"s\"\nchat_id = 1\n"),
            Some(text("/home/c.toml", "bot_token = \"u\"\n")),
        )
    };
    let first = run();
    let second = run();
    assert_eq!(first, second);
    assert_eq!(first, Ok(ResolvedConfig { bot_token: "u".to_string(), chat_id: Some(5) }));
}

#[test]
fn missing_user_file_uses_system_and_flags() {
    let with_missing = resolve_config(no_overrides(), text("/etc/c.toml", "bot_token = \"s\"\n"), Some(missing("/home/c.toml")));
    let without = resolve_config(no_overrides(), text("/etc/c.toml", "bot_token = \"s\"\n"), None);
    assert_eq!(with_missing, Ok(ResolvedConfig { bot_token: "s".to_string(), chat_id: None }));
    assert_eq!(with_missing, without);
}

#[test]
fn malformed_system_file_fails_whatever_the_user_file() {
    let cli = Overrides { token: Some("t".to_string()), chat_id: None };
    let r = resolve_config(cli, text("/etc/c.toml", "chat_id = [\n"), Some(text("/home/c.toml", "bot_token = \"u\"\n")));
    assert!(matches!(r, Err(ConfigError::Malformed(p, _)) if p == "/etc/c.toml"));
}

#[test]
fn malformed_user_file_fails_with_its_path() {
    let r = resolve_config(no_overrides(), text("/etc/c.toml", "bot_token = \"s\"\n"), Some(text("/home/c.toml", "bot_token = 'x")));
    assert!(matches!(r, Err(ConfigError::Malformed(p, _)) if p == "/home/c.toml"));
}

#[test]
fn send_needs_a_chat_id() {
    let with = ResolvedConfig { bot_token: "t".to_string(), chat_id: Some(-100) };
    assert_eq!(send_target(&with), Ok(-100));
    let without = ResolvedConfig { bot_token: "t".to_string(), chat_id: None };
    assert_eq!(send_target(&without), Err(SendError::MissingChatId));
}

#[test]
fn wrong_type_in_user_file_names_path_and_cause() {
    let r = resolve_config(no_overrides(), missing("/etc/c.toml"), Some(text("/home/c.toml", "chat_id = \"x\"\n")));
    assert_eq!(r, Err(ConfigError::Malformed("/home/c.toml".to_string(), "chat_id must be an integer".to_string())));
}

#[test]
fn empty_flag_token_is_rejected_not_skipped() {
    let cli = Overrides { token: Some(String::new()), chat_id: None };
    let r = resolve_config(cli, text("/etc/c.toml", "bot_token = \"sys\"\n"), None);
    assert_eq!(r, Err(ConfigError::EmptyToken));
}

#[test]
fn empty_file_token_is_rejected() {
    let r = resolve_config(no_overrides(), text("/etc/c.toml", "bot_token = \"sys\"\n"), Some(text("/home/c.toml", "bot_token = \"\"\n")));
    assert_eq!(r, Err(ConfigError::EmptyToken));
    let r = resolve_layers(no_overrides(), Some(partial(Some(""), Some(1))), None);
    assert_eq!(r, Err(ConfigError::EmptyToken));
}

#[test]
fn user_path_flag_replaces_default() {
    assert_eq!(user_config_path(Some("/a".to_string()), Some("/b".to_string())), Some("/a".to_string()));
    assert_eq!(user_config_path(None, Some("/b".to_string())), Some("/b".to_string()));
    assert_eq!(user_config_path(None, None), None);
}
