//! Properties of configuration resolution, proved over the specifications of
//! `resolve_layers` and `resolve_config`.
use vstd::prelude::*;
use crate::config::{
    ConfigErrorView, ConfigSource, Overrides, PartialConfig, ResolvedConfig, SourceRead, document_config,
    finalized, layered, loaded, merged, resolution,
};

verus! {

/// The token a layer defines, if any.
pub open spec fn token_in(src: Option<PartialConfig>) -> Option<String> {
    match src {
        Some(c) => c.bot_token,
        None => None,
    }
}

/// The chat id a layer defines, if any.
pub open spec fn chat_in(src: Option<PartialConfig>) -> Option<i64> {
    match src {
        Some(c) => c.chat_id,
        None => None,
    }
}

/// The token of the highest-precedence source that defines one: the command
/// line, then the user file, then the system file.
pub open spec fn top_token(cli: Overrides, system: Option<PartialConfig>, user: Option<PartialConfig>) -> Option<String> {
    if cli.token is Some {
        cli.token
    } else if token_in(user) is Some {
        token_in(user)
    } else {
        token_in(system)
    }
}

/// The chat id of the highest-precedence source that defines one.
pub open spec fn top_chat(cli: Overrides, system: Option<PartialConfig>, user: Option<PartialConfig>) -> Option<i64> {
    if cli.chat_id is Some {
        cli.chat_id
    } else if chat_in(user) is Some {
        chat_in(user)
    } else {
        chat_in(system)
    }
}

/// Each resolved field comes from the highest-precedence source that defines
/// it: the command line, then the user file, then the system file. An empty
/// token still counts as defined, so it hides lower sources. When no source
/// defines a token resolution fails with `MissingToken`, and when the chosen
/// one is empty with `EmptyToken`; a resolved token is never empty. When no
/// source defines a chat id, the resolved chat id is absent.
pub proof fn lemma_precedence(
    cli: Overrides,
    system: Option<PartialConfig>,
    user: Option<PartialConfig>,
)
    ensures
        (finalized(cli, layered(system, user)) == Err::<ResolvedConfig, ConfigErrorView>(
            ConfigErrorView::MissingToken,
        )) <==> top_token(cli, system, user) is None,
        (finalized(cli, layered(system, user)) == Err::<ResolvedConfig, ConfigErrorView>(
            ConfigErrorView::EmptyToken,
        )) <==> (top_token(cli, system, user) matches Some(t) && t@.len() == 0),
        finalized(cli, layered(system, user)) is Ok <==> (top_token(cli, system, user) matches Some(
            t,
        ) && t@.len() > 0),
        finalized(cli, layered(system, user)) matches Ok(c) ==> (Some(c.bot_token) == top_token(
            cli,
            system,
            user,
        ) && c.bot_token@.len() > 0 && c.chat_id == top_chat(cli, system, user)),
{
}

/// Resolving twice from the same sources yields the same outcome.
pub proof fn lemma_resolution_repeatable(
    cli: Overrides,
    system: ConfigSource,
    user: Option<ConfigSource>,
    first: Result<ResolvedConfig, ConfigErrorView>,
    second: Result<ResolvedConfig, ConfigErrorView>,
)
    requires
        first == resolution(cli, system, user),
        second == resolution(cli, system, user),
    ensures
        first == second,
{
}

/// Overlaying the same record a second time changes nothing.
pub proof fn lemma_overlay_idempotent(base: PartialConfig, overlay: PartialConfig)
    ensures
        merged(merged(base, overlay), overlay) == merged(base, overlay),
{
}

/// A user path with nothing at it is the same as no user source: resolution
/// uses the system file and the overrides alone.
pub proof fn lemma_missing_user_file(cli: Overrides, system: ConfigSource, path: String)
    ensures
        resolution(cli, system, Some(ConfigSource { path, read: SourceRead::Missing })) == resolution(
            cli,
            system,
            None,
        ),
        loaded(system) matches Ok(s) ==> resolution(
            cli,
            system,
            Some(ConfigSource { path, read: SourceRead::Missing }),
        ) == finalized(cli, layered(s, None)),
{
}

/// A malformed system file makes resolution fail with an error naming its
/// path and the parser's reason, whatever the user source and the overrides
/// hold.
pub proof fn lemma_malformed_system_file(
    cli: Overrides,
    system: ConfigSource,
    user: Option<ConfigSource>,
)
    requires
        system.read matches SourceRead::Text(t) && document_config(t@) is Err,
    ensures
        resolution(cli, system, user) matches Err(ConfigErrorView::Malformed(p, why)) && p
            == system.path@ && Err::<PartialConfig, Seq<char>>(why) == document_config(
            system.read->Text_0@,
        ),
{
}

/// A malformed user file makes resolution fail with an error naming its path
/// and the parser's reason, whatever the overrides hold, once the system
/// source has loaded (an earlier failure of the system source is reported
/// first).
pub proof fn lemma_malformed_user_file(cli: Overrides, system: ConfigSource, user: ConfigSource)
    requires
        loaded(system) is Ok,
        user.read matches SourceRead::Text(t) && document_config(t@) is Err,
    ensures
        resolution(cli, system, Some(user)) matches Err(ConfigErrorView::Malformed(p, why)) && p
            == user.path@ && Err::<PartialConfig, Seq<char>>(why) == document_config(
            user.read->Text_0@,
        ),
{
}

} // verus!
