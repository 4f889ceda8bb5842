//! The identity Attacca announces to a Roon Core, and the services it asks for.
use vstd::prelude::*;
use crate::paths::{cli_token_store_path, config_file_spec, law_token_files_distinct, token_store_path};
use crate::text::owned;

verus! {

pub const EXTENSION_ID: &'static str = "org.attacca.client";

pub const DISPLAY_NAME: &'static str = "Attacca";

pub const PUBLISHER: &'static str = "Attacca contributors";

pub const EMAIL: &'static str = "5517989+styx-techno@users.noreply.github.com";

pub const VERSION: &'static str = "0.1.0";

/// The extension id of the debug CLI, so it never shares a Core connection with the app.
pub const CLI_EXTENSION_ID: &'static str = "org.attacca.cli";

pub const CLI_DISPLAY_NAME: &'static str = "Attacca CLI";

/// Everything a Roon client is built from.
pub struct ClientConfig {
    pub extension_id: String,
    pub display_name: String,
    pub version: String,
    pub publisher: String,
    pub email: String,
    /// Where pairing tokens are persisted.
    pub token_path: String,
    pub require_transport: bool,
    pub require_browse: bool,
}

/// A client announcing extension `id` named `name`, keeping its tokens at
/// `tokens`, with transport and browse enabled.
pub fn build_named(id: &str, name: &str, tokens: String) -> (r: ClientConfig)
    ensures
        r.extension_id@ == id@,
        r.display_name@ == name@,
        r.version@ == VERSION@,
        r.publisher@ == PUBLISHER@,
        r.email@ == EMAIL@,
        r.token_path == tokens,
        r.require_transport,
        r.require_browse,
{
    ClientConfig {
        extension_id: owned(id),
        display_name: owned(name),
        version: owned(VERSION),
        publisher: owned(PUBLISHER),
        email: owned(EMAIL),
        token_path: tokens,
        require_transport: true,
        require_browse: true,
    }
}

/// The app's client: the Attacca identity, tokens in the app's token store.
pub fn build_client() -> (r: ClientConfig)
    ensures
        r.extension_id@ == EXTENSION_ID@,
        r.display_name@ == DISPLAY_NAME@,
        r.version@ == VERSION@,
        r.publisher@ == PUBLISHER@,
        r.email@ == EMAIL@,
        exists|home: Option<Seq<char>>| r.token_path@ == config_file_spec(home, "tokens.json"@),
        r.require_transport,
        r.require_browse,
{
    build_named(EXTENSION_ID, DISPLAY_NAME, token_store_path())
}

/// The debug CLI's client, under its own extension identity and token store.
pub fn build_cli_client() -> (r: ClientConfig)
    ensures
        r.extension_id@ == CLI_EXTENSION_ID@,
        r.display_name@ == CLI_DISPLAY_NAME@,
        r.version@ == VERSION@,
        r.publisher@ == PUBLISHER@,
        r.email@ == EMAIL@,
        exists|home: Option<Seq<char>>| r.token_path@ == config_file_spec(
            home,
            "tokens-cli.json"@,
        ),
        r.require_transport,
        r.require_browse,
{
    build_named(CLI_EXTENSION_ID, CLI_DISPLAY_NAME, cli_token_store_path())
}

/// The debug CLI is a client of its own: it announces another extension id
/// than the app and, in the same config directory, keeps its tokens in
/// another file, so it never takes over the app's pairing.
pub proof fn law_cli_identity_distinct(config_home: Option<Seq<char>>)
    ensures
        CLI_EXTENSION_ID@ != EXTENSION_ID@,
        config_file_spec(config_home, "tokens-cli.json"@) != config_file_spec(
            config_home,
            "tokens.json"@,
        ),
{
    reveal_strlit("org.attacca.cli");
    reveal_strlit("org.attacca.client");
    assert(CLI_EXTENSION_ID@.len() != EXTENSION_ID@.len());
    law_token_files_distinct(config_home);
}

} // verus!
