//! The command surface: which texts are commands, which command a name
//! stands for, who may run it, and the help listing.
//!
//! A command is a message that, after any leading white space, begins with
//! the prefix `"Ru "` and goes on with at least one word. The first word
//! names the command, the words after it are its arguments.

use crate::reply::{Colour, Embed, EmbedView, Field, FieldView, Outgoing, OutgoingView};
use crate::text::{
    chars_of, is_space, is_word, law_words_of_pieces, law_one_word, same_text, skip_blanks,
    skip_spaces, split_words, texts, words,
};
use vstd::prelude::*;

verus! {

/// The commands of the bot. `Help` also stands for every name that is not
/// known.
#[derive(Debug, Clone, Copy, PartialEq, Eq)]
pub enum Command {
    Ping,
    Meme,
    Gif,
    Details,
    Join,
    Leave,
    Play,
    Mute,
    Unmute,
    Help,
}

/// The two groups the help listing shows.
#[derive(Debug, Clone, Copy, PartialEq, Eq)]
pub enum Group {
    General,
    Music,
}

/// A command with its arguments, as read from a message.
#[derive(Debug, Clone, PartialEq, Eq)]
pub struct Invocation {
    pub command: Command,
    pub args: Vec<String>,
}

/// [`Invocation`] as contracts speak of it, with texts in place of strings.
pub struct InvocationView {
    pub command: Command,
    pub args: Seq<Seq<char>>,
}

impl View for Invocation {
    type V = InvocationView;

    open spec fn view(&self) -> InvocationView {
        InvocationView { command: self.command, args: texts(self.args@) }
    }
}

/// The prefix that marks a command.
pub open spec fn prefix() -> Seq<char> {
    seq!['R', 'u', ' ']
}

/// The name by which a command is called.
pub open spec fn command_name(command: Command) -> Seq<char> {
    match command {
        Command::Ping => "ping"@,
        Command::Meme => "meme"@,
        Command::Gif => "gif"@,
        Command::Details => "details"@,
        Command::Join => "join"@,
        Command::Leave => "leave"@,
        Command::Play => "play"@,
        Command::Mute => "mute"@,
        Command::Unmute => "unmute"@,
        Command::Help => "help"@,
    }
}

/// The command a name stands for: names are matched exactly, and a name that
/// belongs to no command stands for `Help`.
pub open spec fn command_named(name: Seq<char>) -> Command {
    if name == "ping"@ {
        Command::Ping
    } else if name == "meme"@ {
        Command::Meme
    } else if name == "gif"@ {
        Command::Gif
    } else if name == "details"@ {
        Command::Details
    } else if name == "join"@ {
        Command::Join
    } else if name == "leave"@ {
        Command::Leave
    } else if name == "play"@ {
        Command::Play
    } else if name == "mute"@ {
        Command::Mute
    } else if name == "unmute"@ {
        Command::Unmute
    } else {
        Command::Help
    }
}

/// What a command does, as the help listing puts it. `Help` has no entry.
pub open spec fn command_description(command: Command) -> Seq<char> {
    match command {
        Command::Ping => "Reply With Pong!"@,
        Command::Meme => "Reply With random meme image"@,
        Command::Gif => "Reply with random meme gif"@,
        Command::Details => "Sends Server's Information"@,
        Command::Join => "Join Voice Channel"@,
        Command::Leave => "Leave Voice Channel"@,
        Command::Play => "Play a audio using video or audio url"@,
        Command::Mute => "Mute Bot in Voice channel"@,
        Command::Unmute => "Unmute Bot in Voice channel"@,
        Command::Help => Seq::empty(),
    }
}

/// The commands of a group, in the order the help listing shows them.
pub open spec fn group_commands(group: Group) -> Seq<Command> {
    match group {
        Group::General => seq![Command::Ping, Command::Meme, Command::Gif, Command::Details],
        Group::Music => seq![
            Command::Join,
            Command::Leave,
            Command::Play,
            Command::Mute,
            Command::Unmute,
        ],
    }
}

/// The title of a group in the help listing.
pub open spec fn group_title(group: Group) -> Seq<char> {
    match group {
        Group::General => "General"@,
        Group::Music => "Music"@,
    }
}

/// Whether a command works in guilds only: `details` and the voice commands.
pub open spec fn guild_only(command: Command) -> bool {
    match command {
        Command::Details | Command::Join | Command::Leave | Command::Play | Command::Mute
        | Command::Unmute => true,
        _ => false,
    }
}

/// Whether a command is for the administrators of a guild: `details` alone.
pub open spec fn admin_only(command: Command) -> bool {
    command == Command::Details
}

/// Whether a command shows the typing indicator before it answers.
pub open spec fn shows_typing(command: Command) -> bool {
    match command {
        Command::Join | Command::Leave => false,
        _ => true,
    }
}

/// The help entry of a command: its name, a colon and its description.
pub open spec fn help_line(command: Command) -> Seq<char> {
    command_name(command) + ": "@ + command_description(command)
}

/// The help entries of `commands`, one on each line.
pub open spec fn help_lines(commands: Seq<Command>) -> Seq<char>
    decreases commands.len(),
{
    if commands.len() == 0 {
        Seq::empty()
    } else if commands.len() == 1 {
        help_line(commands[0])
    } else {
        help_lines(commands.drop_last()) + "\n"@ + help_line(commands.last())
    }
}

/// The field of the help listing for one group.
pub open spec fn help_field(group: Group) -> FieldView {
    FieldView {
        name: group_title(group),
        value: help_lines(group_commands(group)),
        inline: false,
    }
}

/// The help listing: an embed titled "Commands" with a field for each group.
pub open spec fn help_listing() -> OutgoingView {
    OutgoingView::Embed(
        EmbedView {
            title: "Commands"@,
            image: None,
            thumbnail: None,
            fields: seq![help_field(Group::General), help_field(Group::Music)],
            colour: Colour::DarkGrey,
        },
    )
}

/// Who calls a command, as far as the rules on commands go.
#[derive(Debug, Clone, PartialEq, Eq)]
pub struct Caller {
    /// Whether the message was sent by a bot or a webhook.
    pub automated: bool,
    /// Whether the message was sent in a guild, not in a private channel.
    pub in_guild: bool,
    /// Whether the caller holds the administrator permission there.
    pub administrator: bool,
    /// The names of the caller's roles in the guild.
    pub roles: Vec<String>,
}

/// Whether a command is let through.
#[derive(Debug, Clone, Copy, PartialEq, Eq)]
pub enum Clearance {
    Granted,
    /// The message comes from a bot or a webhook; those are not listened to.
    Ignored,
    /// The command works in guilds only and was sent elsewhere.
    GuildOnly,
    /// The command is for administrators and the caller is none.
    LackingRole,
}

/// Whether one of the roles is called "Admin".
pub open spec fn has_admin_role(roles: Seq<Seq<char>>) -> bool {
    exists|i: int| 0 <= i < roles.len() && roles[i] == "Admin"@
}

/// The rule on who may run a command. Bots and webhooks run none. A command
/// for guilds is refused outside of one. A command for administrators is
/// refused to a caller in a guild who has neither the administrator
/// permission nor a role called "Admin".
pub open spec fn clearance_for(
    command: Command,
    automated: bool,
    in_guild: bool,
    administrator: bool,
    roles: Seq<Seq<char>>,
) -> Clearance {
    if automated {
        Clearance::Ignored
    } else if guild_only(command) && !in_guild {
        Clearance::GuildOnly
    } else if admin_only(command) && in_guild && !administrator && !has_admin_role(roles) {
        Clearance::LackingRole
    } else {
        Clearance::Granted
    }
}

/// The invocation a message carries, if it is a command.
pub open spec fn routed(text: Seq<char>) -> Option<InvocationView> {
    let line = skip_spaces(text);
    if prefix().is_prefix_of(line) {
        let parts = words(line.skip(3));
        if parts.len() == 0 {
            None
        } else {
            Some(InvocationView { command: command_named(parts[0]), args: parts.skip(1) })
        }
    } else {
        None
    }
}

impl Command {
    /// The name by which the command is called.
    pub fn name(self) -> (name: &'static str)
        ensures
            name@ == command_name(self),
    {
        match self {
            Command::Ping => "ping",
            Command::Meme => "meme",
            Command::Gif => "gif",
            Command::Details => "details",
            Command::Join => "join",
            Command::Leave => "leave",
            Command::Play => "play",
            Command::Mute => "mute",
            Command::Unmute => "unmute",
            Command::Help => "help",
        }
    }

    /// What the command does, for the help listing.
    pub fn description(self) -> (text: &'static str)
        ensures
            text@ == command_description(self),
    {
        match self {
            Command::Ping => "Reply With Pong!",
            Command::Meme => "Reply With random meme image",
            Command::Gif => "Reply with random meme gif",
            Command::Details => "Sends Server's Information",
            Command::Join => "Join Voice Channel",
            Command::Leave => "Leave Voice Channel",
            Command::Play => "Play a audio using video or audio url",
            Command::Mute => "Mute Bot in Voice channel",
            Command::Unmute => "Unmute Bot in Voice channel",
            Command::Help => {
                proof {
                    reveal_strlit("");
                }
                assert(""@ =~= Seq::<char>::empty());
                ""
            },
        }
    }

    /// Whether the command works in guilds only.
    pub fn is_guild_only(self) -> (b: bool)
        ensures
            b == guild_only(self),
    {
        match self {
            Command::Details | Command::Join | Command::Leave | Command::Play | Command::Mute
            | Command::Unmute => true,
            _ => false,
        }
    }

    /// Whether the command is for administrators.
    pub fn is_admin_only(self) -> (b: bool)
        ensures
            b == admin_only(self),
    {
        match self {
            Command::Details => true,
            _ => false,
        }
    }

    /// Whether the typing indicator is shown before the command answers.
    pub fn announces_typing(self) -> (b: bool)
        ensures
            b == shows_typing(self),
    {
        match self {
            Command::Join | Command::Leave => false,
            _ => true,
        }
    }

    /// The command that `name` stands for; `Help` for a name that is not
    /// known.
    pub fn from_name(name: &str) -> (command: Command)
        ensures
            command == command_named(name@),
    {
        if same_text(name, "ping") {
            Command::Ping
        } else if same_text(name, "meme") {
            Command::Meme
        } else if same_text(name, "gif") {
            Command::Gif
        } else if same_text(name, "details") {
            Command::Details
        } else if same_text(name, "join") {
            Command::Join
        } else if same_text(name, "leave") {
            Command::Leave
        } else if same_text(name, "play") {
            Command::Play
        } else if same_text(name, "mute") {
            Command::Mute
        } else if same_text(name, "unmute") {
            Command::Unmute
        } else {
            Command::Help
        }
    }
}

/// Reads a message as a command. `None` means that the message is none: it
/// lacks the prefix, or nothing follows the prefix.
pub fn route(text: &str) -> (found: Option<Invocation>)
    ensures
        match found {
            Some(invocation) => routed(text@) == Some(invocation@),
            None => routed(text@) is None,
        },
{
    let chars = chars_of(text);
    let n = chars.len();
    assert(chars@.skip(0) == chars@);
    let start = skip_blanks(&chars, 0);
    let ghost line = chars@.skip(start as int);
    if n - start < 3 || chars[start] != 'R' || chars[start + 1] != 'u' || chars[start + 2] != ' ' {
        assert(!prefix().is_prefix_of(line)) by {
            if line.len() >= 3 {
                let head = line.subrange(0, 3);
                assert(head[0] == line[0] && head[1] == line[1] && head[2] == line[2]);
            }
        }
        return None;
    }
    assert(prefix() =~= line.subrange(0, 3));
    assert(line.skip(3) == chars@.skip(start as int + 3));
    let mut parts = split_words(&chars, start + 3);
    if parts.len() == 0 {
        return None;
    }
    let ghost all = parts@;
    let first = parts.remove(0);
    let command = Command::from_name(first.as_str());
    assert(texts(parts@) =~= texts(all).skip(1));
    Some(Invocation { command, args: parts })
}

impl Group {
    /// The title of the group in the help listing.
    pub fn title(self) -> (title: &'static str)
        ensures
            title@ == group_title(self),
    {
        match self {
            Group::General => "General",
            Group::Music => "Music",
        }
    }

    /// The commands of the group, in the order the help listing shows them.
    pub fn commands(self) -> (list: Vec<Command>)
        ensures
            list@ == group_commands(self),
    {
        let mut list: Vec<Command> = Vec::new();
        match self {
            Group::General => {
                list.push(Command::Ping);
                list.push(Command::Meme);
                list.push(Command::Gif);
                list.push(Command::Details);
            },
            Group::Music => {
                list.push(Command::Join);
                list.push(Command::Leave);
                list.push(Command::Play);
                list.push(Command::Mute);
                list.push(Command::Unmute);
            },
        }
        assert(list@ =~= group_commands(self));
        list
    }
}

/// Decides whether `caller` may run `command`.
pub fn clearance(command: Command, caller: &Caller) -> (c: Clearance)
    ensures
        c == clearance_for(
            command,
            caller.automated,
            caller.in_guild,
            caller.administrator,
            texts(caller.roles@),
        ),
{
    if caller.automated {
        return Clearance::Ignored;
    }
    if command.is_guild_only() && !caller.in_guild {
        return Clearance::GuildOnly;
    }
    if !command.is_admin_only() || !caller.in_guild || caller.administrator {
        return Clearance::Granted;
    }
    let mut i: usize = 0;
    while i < caller.roles.len()
        invariant
            i <= caller.roles.len(),
            !caller.automated,
            caller.in_guild,
            !caller.administrator,
            admin_only(command),
            forall|j: int| 0 <= j < i ==> texts(caller.roles@)[j] != "Admin"@,
        decreases caller.roles.len() - i,
    {
        if same_text(caller.roles[i].as_str(), "Admin") {
            assert(texts(caller.roles@)[i as int] == "Admin"@);
            return Clearance::Granted;
        }
        i = i + 1;
    }
    Clearance::LackingRole
}

fn group_field(group: Group) -> (field: Field)
    ensures
        field@ == help_field(group),
{
    let commands = group.commands();
    let mut value = String::new();
    let mut i: usize = 0;
    while i < commands.len()
        invariant
            i <= commands.len(),
            commands@ == group_commands(group),
            value@ == help_lines(commands@.take(i as int)),
        decreases commands.len() - i,
    {
        proof {
            let seen = commands@.take(i as int + 1);
            assert(seen.drop_last() == commands@.take(i as int));
            assert(seen.last() == commands@[i as int]);
            if i == 0 {
                assert(value@ + help_line(commands@[0]) =~= help_line(commands@[0]));
            }
        }
        if i > 0 {
            value.append("\n");
        }
        value.append(commands[i].name());
        value.append(": ");
        value.append(commands[i].description());
        i = i + 1;
    }
    assert(commands@.take(commands.len() as int) == commands@);
    Field { name: String::from_str(group.title()), value, inline: false }
}

/// The help listing. It answers `help` and every name that is not known.
pub fn help() -> (out: Outgoing)
    ensures
        out@ == help_listing(),
{
    let mut fields: Vec<Field> = Vec::new();
    fields.push(group_field(Group::General));
    fields.push(group_field(Group::Music));
    let embed = Embed {
        title: String::from_str("Commands"),
        image: None,
        thumbnail: None,
        fields,
        colour: Colour::DarkGrey,
    };
    assert(embed@.fields =~= seq![help_field(Group::General), help_field(Group::Music)]);
    Outgoing::Embed(embed)
}

/// Every command is reached by its own name.
pub proof fn law_names_reach_their_commands(command: Command)
    ensures
        command_named(command_name(command)) == command,
{
    reveal_strlit("ping");
    reveal_strlit("meme");
    reveal_strlit("gif");
    reveal_strlit("details");
    reveal_strlit("join");
    reveal_strlit("leave");
    reveal_strlit("play");
    reveal_strlit("mute");
    reveal_strlit("unmute");
    reveal_strlit("help");
    assert("ping"@.len() == 4 && "meme"@.len() == 4 && "join"@.len() == 4);
    assert("play"@.len() == 4 && "mute"@.len() == 4 && "help"@.len() == 4);
    assert("gif"@.len() == 3 && "details"@.len() == 7);
    assert("leave"@.len() == 5 && "unmute"@.len() == 6);
    assert("ping"@[1] != "play"@[1]);
    assert("meme"@[1] != "mute"@[1]);
    assert("ping"@[0] != "meme"@[0]);
    assert("ping"@[0] != "join"@[0]);
    assert("ping"@[0] != "help"@[0]);
    assert("meme"@[0] != "join"@[0]);
    assert("meme"@[0] != "play"@[0]);
    assert("meme"@[0] != "help"@[0]);
    assert("join"@[0] != "play"@[0]);
    assert("join"@[0] != "mute"@[0]);
    assert("join"@[0] != "help"@[0]);
    assert("play"@[0] != "mute"@[0]);
    assert("play"@[0] != "help"@[0]);
    assert("mute"@[0] != "help"@[0]);
}

/// A name that is the name of no command reaches `Help`.
pub proof fn law_unknown_names_reach_help(name: Seq<char>)
    requires
        forall|command: Command| #[trigger] command_name(command) != name,
    ensures
        command_named(name) == Command::Help,
{
    assert(command_name(Command::Ping) != name);
    assert(command_name(Command::Meme) != name);
    assert(command_name(Command::Gif) != name);
    assert(command_name(Command::Details) != name);
    assert(command_name(Command::Join) != name);
    assert(command_name(Command::Leave) != name);
    assert(command_name(Command::Play) != name);
    assert(command_name(Command::Mute) != name);
    assert(command_name(Command::Unmute) != name);
}

/// The prefix followed by one word is a call of the command that the word
/// names, without arguments.
pub proof fn law_prefix_and_word(word: Seq<char>)
    requires
        is_word(word),
    ensures
        routed(prefix() + word) == Some(
            InvocationView { command: command_named(word), args: Seq::empty() },
        ),
{
    let text = prefix() + word;
    assert(text.first() == 'R');
    assert(!is_space('R'));
    assert(skip_spaces(text) == text);
    assert(text.subrange(0, 3) =~= prefix());
    assert(text.skip(3) =~= word);
    law_one_word(word);
    assert(words(word).skip(1) =~= Seq::<Seq<char>>::empty());
}

/// The prefix, a word, a space and more text are a call of the command that
/// the word names, with the words of the text as its arguments.
pub proof fn law_prefix_word_and_arguments(word: Seq<char>, rest: Seq<char>)
    requires
        is_word(word),
    ensures
        routed(prefix() + word + seq![' '] + rest) == Some(
            InvocationView { command: command_named(word), args: words(rest) },
        ),
{
    let text = prefix() + word + seq![' '] + rest;
    assert(text.first() == 'R');
    assert(!is_space('R'));
    assert(is_space(' '));
    assert(skip_spaces(text) == text);
    assert(text.subrange(0, 3) =~= prefix());
    let head = word + seq![' '];
    assert(text.skip(3) =~= head + rest);
    law_words_of_pieces(head, rest);
    assert(head.drop_last() =~= word);
    law_one_word(word);
    assert(words(head) == seq![word]);
    assert((seq![word] + words(rest)).skip(1) =~= words(rest));
}

/// White space before the prefix changes nothing.
pub proof fn law_leading_space_is_skipped(c: char, text: Seq<char>)
    requires
        is_space(c),
    ensures
        routed(seq![c] + text) == routed(text),
{
    let longer = seq![c] + text;
    assert(longer.drop_first() =~= text);
}

/// A message that does not begin with the prefix, leading white space
/// aside, is no command.
pub proof fn law_no_prefix_no_command(text: Seq<char>)
    requires
        !prefix().is_prefix_of(skip_spaces(text)),
    ensures
        routed(text) is None,
{
}

} // verus!
