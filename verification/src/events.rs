//! What the bot does on the three gateway events it listens to: the gateway
//! is ready, a message came in, a member joined a guild.

use crate::reply::{Outgoing, OutgoingView};
use crate::text::{append_decimal, conjoin, decimal, starts_with, texts};
use vstd::prelude::*;

verus! {

/// The lower-case form of a text, as `str::to_lowercase` gives it.
pub uninterp spec fn lowercase_of(s: Seq<char>) -> Seq<char>;

/// Calls `str::to_lowercase`. Trusted: the result is the lower-case form of
/// the argument, which depends on nothing else.
#[verifier::external_body]
fn lowercase(s: &str) -> (r: String)
    ensures
        r@ == lowercase_of(s@),
{
    s.to_lowercase()
}

/// How a user is mentioned in a message: `<@`, the id, `>`.
pub open spec fn mention(user: u64) -> Seq<char> {
    "<@"@ + decimal(user as nat) + ">"@
}

fn mention_text(user: u64) -> (text: String)
    ensures
        text@ == mention(user),
{
    let mut text = String::from_str("<@");
    append_decimal(&mut text, user);
    text.append(">");
    text
}

/// The status the bot shows.
#[derive(Debug, Clone, Copy, PartialEq, Eq)]
pub enum Status {
    Online,
    Idle,
    DoNotDisturb,
    Invisible,
}

/// The presence the bot takes on: what it is listening to, and its status.
#[derive(Debug, Clone, PartialEq, Eq)]
pub struct Presence {
    pub listening_to: String,
    pub status: Status,
}

/// What is done once the gateway is ready.
#[derive(Debug, Clone, PartialEq, Eq)]
pub struct Startup {
    /// The lines to print.
    pub lines: Vec<String>,
    /// The presence to set.
    pub presence: Presence,
}

/// The line that announces the bot.
pub open spec fn ready_line(bot: Seq<char>) -> Seq<char> {
    "[ READY ] "@ + bot + " is connected."@
}

/// The line for one guild the bot is in.
pub open spec fn guild_line(guild: Seq<char>) -> Seq<char> {
    "\t- "@ + guild
}

/// The lines printed when the gateway is ready: the announcement, then the
/// guilds, if their list could be had.
pub open spec fn ready_lines(bot: Seq<char>, guilds: Option<Seq<Seq<char>>>) -> Seq<Seq<char>> {
    match guilds {
        Some(names) => seq![ready_line(bot)] + names.map_values(|g: Seq<char>| guild_line(g)),
        None => seq![ready_line(bot)],
    }
}

/// The names in an optional list of guilds.
pub open spec fn guild_names(guilds: Option<&Vec<String>>) -> Option<Seq<Seq<char>>> {
    match guilds {
        Some(names) => Some(texts(names@)),
        None => None,
    }
}

/// The gateway is ready: announce the bot, list its guilds and set the
/// presence to idle, listening to "Ru help".
pub fn ready(bot: &str, guilds: Option<&Vec<String>>) -> (startup: Startup)
    ensures
        texts(startup.lines@) == ready_lines(bot@, guild_names(guilds)),
        startup.presence.listening_to@ == "Ru help"@,
        startup.presence.status == Status::Idle,
{
    let mut lines: Vec<String> = Vec::new();
    let mut first = String::from_str("[ READY ] ");
    first.append(bot);
    first.append(" is connected.");
    lines.push(first);
    match guilds {
        Some(names) => {
            let mut i: usize = 0;
            while i < names.len()
                invariant
                    i <= names.len(),
                    lines.len() == i + 1,
                    lines@[0]@ == ready_line(bot@),
                    forall|k: int|
                        1 <= k <= i ==> (#[trigger] lines@[k])@ == guild_line(names@[k - 1]@),
                decreases names.len() - i,
            {
                lines.push(conjoin("\t- ", names[i].as_str()));
                i = i + 1;
            }
            assert(texts(lines@) =~= ready_lines(bot@, guild_names(guilds)));
        },
        None => {
            assert(texts(lines@) =~= ready_lines(bot@, guild_names(guilds)));
        },
    }
    Startup {
        lines,
        presence: Presence { listening_to: String::from_str("Ru help"), status: Status::Idle },
    }
}

/// What a message calls for.
#[derive(Debug, Clone, PartialEq, Eq)]
pub enum MessageAction {
    /// Show the typing indicator and send this greeting.
    Greet(Outgoing),
    /// Hand this text to the chat relay and send what it answers.
    Relay(String),
    /// Nothing.
    Ignore,
}

/// [`MessageAction`] as contracts speak of it, with texts in place of strings.
pub enum MessageActionView {
    Greet(OutgoingView),
    Relay(Seq<char>),
    Ignore,
}

impl View for MessageAction {
    type V = MessageActionView;

    open spec fn view(&self) -> MessageActionView {
        match self {
            MessageAction::Greet(out) => MessageActionView::Greet(out@),
            MessageAction::Relay(text) => MessageActionView::Relay(text@),
            MessageAction::Ignore => MessageActionView::Ignore,
        }
    }
}

/// What a message calls for, given its lower-case form.
///
/// A message that begins with "hello ru", in whatever case, is greeted, and
/// that is all that happens to it. Any other message is relayed if it is
/// known to mention the bot.
pub open spec fn message_action(
    lowered: Seq<char>,
    content: Seq<char>,
    author: u64,
    mentioned: Option<bool>,
) -> MessageActionView {
    if "hello ru"@.is_prefix_of(lowered) {
        MessageActionView::Greet(OutgoingView::Reply("Hello "@ + mention(author)))
    } else if mentioned == Some(true) {
        MessageActionView::Relay(content)
    } else {
        MessageActionView::Ignore
    }
}

/// Decides what a message calls for from its lower-case form `lowered`, its
/// text, its author and whether it mentions the bot (`None` where that could
/// not be found out).
pub fn message_for(lowered: &str, content: &str, author: u64, mentioned: Option<bool>) -> (action:
    MessageAction)
    ensures
        action@ == message_action(lowered@, content@, author, mentioned),
{
    if starts_with(lowered, "hello ru") {
        let name = mention_text(author);
        MessageAction::Greet(Outgoing::Reply(conjoin("Hello ", name.as_str())))
    } else {
        match mentioned {
            Some(true) => MessageAction::Relay(String::from_str(content)),
            _ => MessageAction::Ignore,
        }
    }
}

/// A message came in: decide whether to greet, to relay or to do nothing.
pub fn message(content: &str, author: u64, mentioned: Option<bool>) -> (action: MessageAction)
    ensures
        action@ == message_action(lowercase_of(content@), content@, author, mentioned),
{
    let lowered = lowercase(content);
    message_for(lowered.as_str(), content, author, mentioned)
}

/// A welcome for a new member: the channel to post in, and the message.
#[derive(Debug, Clone, PartialEq, Eq)]
pub struct Welcome {
    pub channel: u64,
    pub message: Outgoing,
}

/// The text that welcomes a member.
pub open spec fn welcome_text(member: u64) -> Seq<char> {
    mention(member) + " Joined in."@
}

/// A member joined a guild: welcome them in the guild's default channel, if
/// one can be found.
pub fn guild_member_addition(member: u64, default_channel: Option<u64>) -> (welcome: Option<
    Welcome,
>)
    ensures
        match default_channel {
            Some(channel) => welcome matches Some(w) && w.channel == channel && w.message@
                == OutgoingView::Say(welcome_text(member)),
            None => welcome is None,
        },
{
    match default_channel {
        Some(channel) => {
            let mut text = mention_text(member);
            text.append(" Joined in.");
            Some(Welcome { channel, message: Outgoing::Say(text) })
        },
        None => None,
    }
}

} // verus!
