//! Configuration: loading partial records from TOML sources and resolving them,
//! together with command-line overrides, into one validated configuration.
use vstd::prelude::*;
use vstd::string::*;

verus! {

/// toml's map type (`toml::Table` is `Map<String, toml::Value>`), carried opaquely.
#[verifier::external_type_specification]
#[verifier::external_body]
#[verifier::reject_recursive_types(K)]
#[verifier::reject_recursive_types(V)]
pub struct ExTomlMap<K, V>(toml::map::Map<K, V>);

/// toml's value type, carried opaquely.
#[verifier::external_type_specification]
#[verifier::external_body]
pub struct ExTomlValue(toml::Value);

/// A TOML value as far as configuration cares: a string, an integer, or
/// anything else (which no recognised key accepts).
#[derive(Debug, PartialEq, Eq)]
pub enum TomlScalar {
    Text(String),
    Integer(i64),
    Other,
}

/// What the TOML parser makes of a document: its top-level entries, or the
/// parser's error message when the text is not valid TOML.
pub uninterp spec fn toml_document(text: Seq<char>) -> Result<Map<Seq<char>, TomlScalar>, Seq<char>>;

/// The top-level entries of a parsed TOML table.
pub uninterp spec fn table_entries(t: toml::Table) -> Map<Seq<char>, TomlScalar>;

/// Relies on `toml::from_str::<toml::Table>`: it accepts a document or not,
/// and both the entries of the table and the error message it gives depend
/// on the text alone.
#[verifier::external_body]
fn parse_table(text: &str) -> (r: Result<toml::Table, String>)
    ensures
        r is Ok <==> toml_document(text@) is Ok,
        r matches Ok(t) ==> (toml_document(text@) matches Ok(e) && e == table_entries(t)),
        r matches Err(m) ==> (toml_document(text@) matches Err(e) && e == m@),
{
    match toml::from_str::<toml::Table>(text) {
        Ok(t) => Ok(t),
        Err(e) => Err(e.to_string()),
    }
}

/// Relies on `toml::Table::get`: the value stored under `key`, if any.
#[verifier::external_body]
fn table_get(t: &toml::Table, key: &str) -> (r: Option<TomlScalar>)
    ensures
        r is Some <==> table_entries(*t).contains_key(key@),
        r matches Some(v) ==> table_entries(*t)[key@] == v,
{
    match t.get(key) {
        None => None,
        Some(toml::Value::String(s)) => Some(TomlScalar::Text(s.clone())),
        Some(toml::Value::Integer(i)) => Some(TomlScalar::Integer(*i)),
        Some(toml::Value::Float(_)) => Some(TomlScalar::Other),
        Some(toml::Value::Boolean(_)) => Some(TomlScalar::Other),
        Some(toml::Value::Datetime(_)) => Some(TomlScalar::Other),
        Some(toml::Value::Array(_)) => Some(TomlScalar::Other),
        Some(toml::Value::Table(_)) => Some(TomlScalar::Other),
    }
}

/// A configuration record in which every field may be absent.
#[derive(Debug, PartialEq, Eq)]
pub struct PartialConfig {
    pub bot_token: Option<String>,
    pub chat_id: Option<i64>,
}

/// The configuration used by the send and listen operations. Resolution only
/// produces it with a non-empty token.
#[derive(Debug, PartialEq, Eq)]
pub struct ResolvedConfig {
    pub bot_token: String,
    pub chat_id: Option<i64>,
}

/// Values given on the command line; they take precedence over every file.
#[derive(Debug, PartialEq, Eq)]
pub struct Overrides {
    pub token: Option<String>,
    pub chat_id: Option<i64>,
}

/// What reading a configuration path produced.
#[derive(Debug, PartialEq, Eq)]
pub enum SourceRead {
    /// Nothing exists at the path.
    Missing,
    /// The path exists but could not be read, for this reason.
    Unreadable(String),
    /// The path was read; this is its text.
    Text(String),
}

/// A configuration file: where it lives and what reading it produced.
#[derive(Debug, PartialEq, Eq)]
pub struct ConfigSource {
    pub path: String,
    pub read: SourceRead,
}

#[derive(Debug, PartialEq, Eq)]
pub enum ConfigError {
    /// The file at this path exists but could not be read; the second field
    /// is the cause.
    Unreadable(String, String),
    /// The file at this path is not a valid configuration document; the
    /// second field is the cause.
    Malformed(String, String),
    /// No source supplied a bot token.
    MissingToken,
    /// The token chosen by precedence is the empty string.
    EmptyToken,
}

/// A configuration error with its texts as character sequences.
pub enum ConfigErrorView {
    Unreadable(Seq<char>, Seq<char>),
    Malformed(Seq<char>, Seq<char>),
    MissingToken,
    EmptyToken,
}

impl View for ConfigError {
    type V = ConfigErrorView;

    open spec fn view(&self) -> ConfigErrorView {
        match self {
            ConfigError::Unreadable(p, c) => ConfigErrorView::Unreadable(p@, c@),
            ConfigError::Malformed(p, c) => ConfigErrorView::Malformed(p@, c@),
            ConfigError::MissingToken => ConfigErrorView::MissingToken,
            ConfigError::EmptyToken => ConfigErrorView::EmptyToken,
        }
    }
}

/// A result with its error viewed.
pub open spec fn err_view<T>(r: Result<T, ConfigError>) -> Result<T, ConfigErrorView> {
    match r {
        Ok(x) => Ok(x),
        Err(e) => Err(e@),
    }
}

/// A result with its error message viewed.
pub open spec fn msg_view<T>(r: Result<T, String>) -> Result<T, Seq<char>> {
    match r {
        Ok(x) => Ok(x),
        Err(m) => Err(m@),
    }
}

pub open spec fn empty_config() -> PartialConfig {
    PartialConfig { bot_token: None, chat_id: None }
}

pub open spec fn entry(m: Map<Seq<char>, TomlScalar>, key: Seq<char>) -> Option<TomlScalar> {
    if m.contains_key(key) {
        Some(m[key])
    } else {
        None
    }
}

/// The record that a document with these two entries describes, or why not:
/// each entry, when present, must have its key's type. Other keys are ignored.
pub open spec fn fields_config(token: Option<TomlScalar>, chat_id: Option<TomlScalar>) -> Result<
    PartialConfig,
    Seq<char>,
> {
    match token {
        Some(TomlScalar::Integer(_)) | Some(TomlScalar::Other) => Err(
            "bot_token must be a string"@,
        ),
        _ => match chat_id {
            Some(TomlScalar::Text(_)) | Some(TomlScalar::Other) => Err(
                "chat_id must be an integer"@,
            ),
            _ => Ok(
                PartialConfig {
                    bot_token: match token {
                        Some(TomlScalar::Text(s)) => Some(s),
                        _ => None,
                    },
                    chat_id: match chat_id {
                        Some(TomlScalar::Integer(i)) => Some(i),
                        _ => None,
                    },
                },
            ),
        },
    }
}

/// The record that a configuration text describes, or the reason it does not
/// describe one.
pub open spec fn document_config(text: Seq<char>) -> Result<PartialConfig, Seq<char>> {
    match toml_document(text) {
        Err(m) => Err(m),
        Ok(m) => fields_config(entry(m, "bot_token"@), entry(m, "chat_id"@)),
    }
}

/// Builds a record from the values a document holds under `bot_token` and
/// `chat_id`.
pub fn config_from_fields(token: Option<TomlScalar>, chat_id: Option<TomlScalar>) -> (r: Result<
    PartialConfig,
    String,
>)
    ensures
        msg_view(r) == fields_config(token, chat_id),
{
    let bot_token = match token {
        None => None,
        Some(TomlScalar::Text(s)) => Some(s),
        Some(_) => {
            return Err(String::from_str("bot_token must be a string"));
        },
    };
    let chat = match chat_id {
        None => None,
        Some(TomlScalar::Integer(i)) => Some(i),
        Some(_) => {
            return Err(String::from_str("chat_id must be an integer"));
        },
    };
    Ok(PartialConfig { bot_token, chat_id: chat })
}

/// Parses the text of a configuration file.
pub fn parse_config(text: &str) -> (r: Result<PartialConfig, String>)
    ensures
        msg_view(r) == document_config(text@),
{
    match parse_table(text) {
        Err(m) => Err(m),
        Ok(table) => {
            let token = table_get(&table, "bot_token");
            let chat_id = table_get(&table, "chat_id");
            config_from_fields(token, chat_id)
        },
    }
}

/// What loading a source gives: `None` when nothing exists at its path.
pub open spec fn loaded(src: ConfigSource) -> Result<Option<PartialConfig>, ConfigErrorView> {
    match src.read {
        SourceRead::Missing => Ok(None),
        SourceRead::Unreadable(why) => Err(ConfigErrorView::Unreadable(src.path@, why@)),
        SourceRead::Text(text) => match document_config(text@) {
            Err(why) => Err(ConfigErrorView::Malformed(src.path@, why)),
            Ok(c) => Ok(Some(c)),
        },
    }
}

/// Loads one configuration source. A missing file is no error; an
/// unreadable or malformed one is, and the error names its path and cause.
pub fn load_source(src: ConfigSource) -> (r: Result<Option<PartialConfig>, ConfigError>)
    ensures
        err_view(r) == loaded(src),
{
    match src.read {
        SourceRead::Missing => Ok(None),
        SourceRead::Unreadable(why) => Err(ConfigError::Unreadable(src.path, why)),
        SourceRead::Text(text) => match parse_config(text.as_str()) {
            Err(why) => Err(ConfigError::Malformed(src.path, why)),
            Ok(c) => Ok(Some(c)),
        },
    }
}

/// The user configuration path: the one given on the command line, else the
/// platform default, if there is one.
pub fn user_config_path(flag: Option<String>, default: Option<String>) -> (r: Option<String>)
    ensures
        r == (if flag is Some {
            flag
        } else {
            default
        }),
{
    match flag {
        Some(p) => Some(p),
        None => default,
    }
}

/// Field-wise overlay: a field present in `overlay` wins, an absent one
/// keeps the value of `base`.
pub open spec fn merged(base: PartialConfig, overlay: PartialConfig) -> PartialConfig {
    PartialConfig {
        bot_token: if overlay.bot_token is Some {
            overlay.bot_token
        } else {
            base.bot_token
        },
        chat_id: if overlay.chat_id is Some {
            overlay.chat_id
        } else {
            base.chat_id
        },
    }
}

pub fn merge(base: PartialConfig, overlay: PartialConfig) -> (r: PartialConfig)
    ensures
        r == merged(base, overlay),
{
    let bot_token = match overlay.bot_token {
        Some(t) => Some(t),
        None => base.bot_token,
    };
    let chat_id = match overlay.chat_id {
        Some(c) => Some(c),
        None => base.chat_id,
    };
    PartialConfig { bot_token, chat_id }
}

/// Overlays an optional layer on an accumulated record.
pub open spec fn layer(acc: PartialConfig, src: Option<PartialConfig>) -> PartialConfig {
    match src {
        Some(c) => merged(acc, c),
        None => acc,
    }
}

/// The record accumulated from the system file and then the user file.
pub open spec fn layered(system: Option<PartialConfig>, user: Option<PartialConfig>) -> PartialConfig {
    layer(layer(empty_config(), system), user)
}

/// The token chosen by precedence: the command line's when given (even if
/// empty), else the accumulated one.
pub open spec fn chosen_token(cli: Overrides, acc: PartialConfig) -> Option<String> {
    if cli.token is Some {
        cli.token
    } else {
        acc.bot_token
    }
}

/// Applies the command-line overrides to an accumulated record. The token
/// must be present and non-empty; the chat id may be absent.
pub open spec fn finalized(cli: Overrides, acc: PartialConfig) -> Result<ResolvedConfig, ConfigErrorView> {
    let chat_id = if cli.chat_id is Some {
        cli.chat_id
    } else {
        acc.chat_id
    };
    match chosen_token(cli, acc) {
        None => Err(ConfigErrorView::MissingToken),
        Some(t) => if t@.len() == 0 {
            Err(ConfigErrorView::EmptyToken)
        } else {
            Ok(ResolvedConfig { bot_token: t, chat_id })
        },
    }
}

/// Resolves already loaded layers: the system record, then the user record
/// over it, then the command-line overrides.
pub fn resolve_layers(
    cli: Overrides,
    system: Option<PartialConfig>,
    user: Option<PartialConfig>,
) -> (r: Result<ResolvedConfig, ConfigError>)
    ensures
        err_view(r) == finalized(cli, layered(system, user)),
{
    let mut acc = PartialConfig { bot_token: None, chat_id: None };
    if let Some(c) = system {
        acc = merge(acc, c);
    }
    if let Some(c) = user {
        acc = merge(acc, c);
    }
    let token = match cli.token {
        Some(t) => Some(t),
        None => acc.bot_token,
    };
    let chat_id = match cli.chat_id {
        Some(c) => Some(c),
        None => acc.chat_id,
    };
    match token {
        None => Err(ConfigError::MissingToken),
        Some(t) => if t.as_str().is_empty() {
            Err(ConfigError::EmptyToken)
        } else {
            Ok(ResolvedConfig { bot_token: t, chat_id })
        },
    }
}

/// The outcome of resolution from the system source, the user source (when
/// there is a user path at all) and the overrides. Sources are loaded in
/// that order and the first failure is the outcome.
pub open spec fn resolution(cli: Overrides, system: ConfigSource, user: Option<ConfigSource>) -> Result<
    ResolvedConfig,
    ConfigErrorView,
> {
    match loaded(system) {
        Err(e) => Err(e),
        Ok(s) => match user {
            None => finalized(cli, layered(s, None)),
            Some(u) => match loaded(u) {
                Err(e) => Err(e),
                Ok(uc) => finalized(cli, layered(s, uc)),
            },
        },
    }
}

/// Loads the system source, then the user source, and resolves them with the
/// command-line overrides.
pub fn resolve_config(cli: Overrides, system: ConfigSource, user: Option<ConfigSource>) -> (r: Result<
    ResolvedConfig,
    ConfigError,
>)
    ensures
        err_view(r) == resolution(cli, system, user),
{
    let sys = match load_source(system) {
        Err(e) => {
            return Err(e);
        },
        Ok(c) => c,
    };
    let usr = match user {
        None => None,
        Some(u) => match load_source(u) {
            Err(e) => {
                return Err(e);
            },
            Ok(c) => c,
        },
    };
    resolve_layers(cli, sys, usr)
}

#[derive(Debug, PartialEq, Eq)]
pub enum SendError {
    /// The resolved configuration names no chat to send to.
    MissingChatId,
}

/// The chat a message is sent to: sending needs a chat id, listening does not.
pub fn send_target(config: &ResolvedConfig) -> (r: Result<i64, SendError>)
    ensures
        config.chat_id matches Some(c) ==> r == Ok::<i64, SendError>(c),
        config.chat_id is None ==> r == Err::<i64, SendError>(SendError::MissingChatId),
{
    match config.chat_id {
        Some(c) => Ok(c),
        None => Err(SendError::MissingChatId),
    }
}

} // verus!
