//! The settings the bot starts from.

use crate::reply::text_view;
use vstd::prelude::*;

verus! {

/// What the client is built from: the credentials, read once at startup,
/// and the way commands are marked.
#[derive(Debug, Clone, PartialEq, Eq)]
pub struct ClientSetup {
    /// The token for the gateway.
    pub discord_token: String,
    /// The key for the chat-completion service, if there is one.
    pub openai_key: Option<String>,
    /// The prefix that marks a command.
    pub prefix: String,
    /// Whether white space may stand between the prefix and the command.
    pub with_whitespace: bool,
}

/// Why the bot cannot start.
#[derive(Debug, Clone, Copy, PartialEq, Eq)]
pub enum StartupError {
    /// No gateway token is configured.
    MissingToken,
}

/// [`ClientSetup`] as contracts speak of it, with texts in place of strings.
pub struct ClientSetupView {
    pub discord_token: Seq<char>,
    pub openai_key: Option<Seq<char>>,
    pub prefix: Seq<char>,
    pub with_whitespace: bool,
}

impl View for ClientSetup {
    type V = ClientSetupView;

    open spec fn view(&self) -> ClientSetupView {
        ClientSetupView {
            discord_token: self.discord_token@,
            openai_key: text_view(self.openai_key),
            prefix: self.prefix@,
            with_whitespace: self.with_whitespace,
        }
    }
}

/// The setup for the given credentials: without a token there is none.
pub open spec fn setup_for(token: Option<Seq<char>>, key: Option<Seq<char>>) -> Result<
    ClientSetupView,
    StartupError,
> {
    match token {
        Some(token) => Ok(
            ClientSetupView {
                discord_token: token,
                openai_key: key,
                prefix: crate::router::prefix(),
                with_whitespace: true,
            },
        ),
        None => Err(StartupError::MissingToken),
    }
}

/// Settles what the client is built from, given the gateway token and the
/// chat key as they were found in the environment.
///
/// A missing token is fatal. A missing key is not: it shows when a message is
/// relayed.
pub fn init_client(discord_token: Option<String>, openai_key: Option<String>) -> (r: Result<
    ClientSetup,
    StartupError,
>)
    ensures
        match r {
            Ok(setup) => setup_for(text_view(discord_token), text_view(openai_key)) == Ok::<
                ClientSetupView,
                StartupError,
            >(setup@),
            Err(e) => setup_for(text_view(discord_token), text_view(openai_key)) == Err::<
                ClientSetupView,
                StartupError,
            >(e),
        },
{
    match discord_token {
        Some(token) => {
            proof {
                reveal_strlit("Ru ");
            }
            assert("Ru "@ =~= crate::router::prefix());
            Ok(
                ClientSetup {
                    discord_token: token,
                    openai_key,
                    prefix: String::from_str("Ru "),
                    with_whitespace: true,
                },
            )
        },
        None => Err(StartupError::MissingToken),
    }
}

} // verus!
