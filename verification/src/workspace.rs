//! The fixed configuration of the bridge.

use crate::ident::{identity_of_text, parse_identity};
use vstd::prelude::*;

verus! {

/// The staff workspace: the guild that holds the ticket channels and the
/// category under which they are created. Both are fixed when the process
/// starts and never change.
#[derive(Clone, Copy, Debug, PartialEq, Eq, Structural)]
pub struct Workspace {
    pub guild_id: u64,
    pub category_id: u64,
}

/// Why the configuration could not be loaded.
#[derive(Clone, Copy, Debug, PartialEq, Eq, Structural)]
pub enum ConfigError {
    /// No bot credential was given.
    TokenMissing,
    /// No guild identity was given.
    GuildMissing,
    /// The guild identity is not the text of an identity.
    GuildUnreadable,
    /// No category identity was given.
    CategoryMissing,
    /// The category identity is not the text of an identity.
    CategoryUnreadable,
}

/// What is read once at start-up: the bot credential and the workspace.
#[derive(Clone, Debug, PartialEq, Eq)]
pub struct Settings {
    pub token: String,
    pub workspace: Workspace,
}

/// What one configured identity amounts to: the identity, or the error for
/// a value that is absent (`missing`) or is not an identity (`unreadable`).
pub open spec fn configured_identity(
    value: Option<Seq<char>>,
    missing: ConfigError,
    unreadable: ConfigError,
) -> Result<u64, ConfigError> {
    match value {
        None => Err(missing),
        Some(text) => match identity_of_text(text) {
            Some(id) => Ok(id),
            None => Err(unreadable),
        },
    }
}

/// The workspace that three configured values describe, or the first error
/// among them: the credential is looked at first, then the guild, then the
/// category.
pub open spec fn configured_workspace(
    token: Option<Seq<char>>,
    guild: Option<Seq<char>>,
    category: Option<Seq<char>>,
) -> Result<Workspace, ConfigError> {
    if token is None {
        Err(ConfigError::TokenMissing)
    } else {
        match configured_identity(guild, ConfigError::GuildMissing, ConfigError::GuildUnreadable) {
            Err(e) => Err(e),
            Ok(guild_id) => match configured_identity(
                category,
                ConfigError::CategoryMissing,
                ConfigError::CategoryUnreadable,
            ) {
                Err(e) => Err(e),
                Ok(category_id) => Ok(Workspace { guild_id, category_id }),
            },
        }
    }
}

fn read_identity(value: Option<&str>, missing: ConfigError, unreadable: ConfigError) -> (id: Result<
    u64,
    ConfigError,
>)
    ensures
        id == configured_identity(value.deep_view(), missing, unreadable),
{
    match value {
        None => Err(missing),
        Some(text) => match parse_identity(text) {
            Some(id) => Ok(id),
            None => Err(unreadable),
        },
    }
}

impl Settings {
    /// Builds the settings from the three values of the environment, each
    /// absent or present as text. Succeeds exactly when all three are present
    /// and the two identities read as identities; otherwise reports the first
    /// value at fault.
    pub fn from_values(token: Option<String>, guild: Option<&str>, category: Option<&str>) -> (loaded:
        Result<Settings, ConfigError>)
        ensures
            match loaded {
                Ok(settings) => configured_workspace(
                    token.deep_view(),
                    guild.deep_view(),
                    category.deep_view(),
                ) == Ok::<Workspace, ConfigError>(settings.workspace) && token == Some(
                    settings.token,
                ),
                Err(e) => configured_workspace(
                    token.deep_view(),
                    guild.deep_view(),
                    category.deep_view(),
                ) == Err::<Workspace, ConfigError>(e),
            },
    {
        let token = match token {
            None => {
                return Err(ConfigError::TokenMissing);
            },
            Some(token) => token,
        };
        let guild_id = match read_identity(
            guild,
            ConfigError::GuildMissing,
            ConfigError::GuildUnreadable,
        ) {
            Err(e) => {
                return Err(e);
            },
            Ok(id) => id,
        };
        let category_id = match read_identity(
            category,
            ConfigError::CategoryMissing,
            ConfigError::CategoryUnreadable,
        ) {
            Err(e) => {
                return Err(e);
            },
            Ok(id) => id,
        };
        Ok(Settings { token, workspace: Workspace { guild_id, category_id } })
    }
}

/// A workspace that was loaded holds two identities, neither of them zero.
pub proof fn lemma_configured_workspace_holds_identities(
    token: Option<Seq<char>>,
    guild: Option<Seq<char>>,
    category: Option<Seq<char>>,
)
    ensures
        configured_workspace(token, guild, category) matches Ok(ws) ==> ws.guild_id != 0
            && ws.category_id != 0,
{
}

} // verus!
