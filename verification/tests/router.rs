use ru_bot::general::ping;
use ru_bot::reply::{Colour, Outgoing};
use ru_bot::router::{clearance, help, route, Caller, Clearance, Command, Group, Invocation};

fn all_commands() -> Vec<Command> {
    vec![
        Command::Ping,
        Command::Meme,
        Command::Gif,
        Command::Details,
        Command::Join,
        Command::Leave,
        Command::Play,
        Command::Mute,
        Command::Unmute,
        Command::Help,
    ]
}

#[test]
fn ru_ping_is_answered_with_pong() {
    let invocation = route("Ru ping").expect("a command");
    assert_eq!(invocation, Invocation { command: Command::Ping, args: vec![] });
    assert_eq!(ping(), Outgoing::Reply("Pong!".to_string()));
}

#[test]
fn every_name_reaches_its_command() {
    for command in all_commands() {
        assert_eq!(Command::from_name(command.name()), command);
        let text = format!("Ru {}", command.name());
        assert_eq!(route(&text), Some(Invocation { command, args: vec![] }));
    }
}

#[test]
fn names_are_as_listed() {
    let names: Vec<&str> = all_commands().into_iter().map(|c| c.name()).collect();
    assert_eq!(
        names,
        vec!["ping", "meme", "gif", "details", "join", "leave", "play", "mute", "unmute", "help"]
    );
}

#[test]
fn unknown_names_fall_through_to_help() {
    for name in ["pong", "PING", "Ping", "pin", "pingg", "", "memes", "stop", "he lp"] {
        assert_eq!(Command::from_name(name), Command::Help, "{:?}", name);
    }
    assert_eq!(
        route("Ru dance now"),
        Some(Invocation { command: Command::Help, args: vec!["now".to_string()] })
    );
    assert_eq!(route("Ru PING"), Some(Invocation { command: Command::Help, args: vec![] }));
}

#[test]
fn route_needs_the_exact_prefix() {
    assert_eq!(route(""), None);
    assert_eq!(route("ping"), None);
    assert_eq!(route("Ruping"), None);
    assert_eq!(route("ru ping"), None);
    assert_eq!(route("RU ping"), None);
    assert_eq!(route("Ru\tping"), None);
    assert_eq!(route("hello Ru ping"), None);
    assert_eq!(route("R"), None);
    assert_eq!(route("Ru"), None);
}

#[test]
fn route_without_a_word_after_the_prefix() {
    assert_eq!(route("Ru "), None);
    assert_eq!(route("Ru    "), None);
    assert_eq!(route("  Ru \n"), None);
}

#[test]
fn route_tolerates_white_space() {
    let ping = Some(Invocation { command: Command::Ping, args: vec![] });
    assert_eq!(route("  Ru ping"), ping);
    assert_eq!(route("Ru    ping"), ping);
    assert_eq!(route("Ru \t ping  "), ping);
    assert_eq!(route("\nRu ping\n"), ping);
}

#[test]
fn route_hands_on_the_arguments() {
    assert_eq!(
        route("Ru play https://example.com/track.mp3"),
        Some(Invocation {
            command: Command::Play,
            args: vec!["https://example.com/track.mp3".to_string()],
        })
    );
    assert_eq!(
        route("Ru play  never   gonna "),
        Some(Invocation {
            command: Command::Play,
            args: vec!["never".to_string(), "gonna".to_string()],
        })
    );
}

#[test]
fn descriptions_are_as_listed() {
    assert_eq!(Command::Ping.description(), "Reply With Pong!");
    assert_eq!(Command::Meme.description(), "Reply With random meme image");
    assert_eq!(Command::Gif.description(), "Reply with random meme gif");
    assert_eq!(Command::Details.description(), "Sends Server's Information");
    assert_eq!(Command::Join.description(), "Join Voice Channel");
    assert_eq!(Command::Leave.description(), "Leave Voice Channel");
    assert_eq!(Command::Play.description(), "Play a audio using video or audio url");
    assert_eq!(Command::Mute.description(), "Mute Bot in Voice channel");
    assert_eq!(Command::Unmute.description(), "Unmute Bot in Voice channel");
    assert_eq!(Command::Help.description(), "");
}

#[test]
fn groups_hold_their_commands() {
    assert_eq!(Group::General.title(), "General");
    assert_eq!(Group::Music.title(), "Music");
    assert_eq!(
        Group::General.commands(),
        vec![Command::Ping, Command::Meme, Command::Gif, Command::Details]
    );
    assert_eq!(
        Group::Music.commands(),
        vec![Command::Join, Command::Leave, Command::Play, Command::Mute, Command::Unmute]
    );
}

#[test]
fn command_rules() {
    for command in all_commands() {
        let voice = matches!(
            command,
            Command::Join | Command::Leave | Command::Play | Command::Mute | Command::Unmute
        );
        assert_eq!(command.is_guild_only(), voice || command == Command::Details);
        assert_eq!(command.is_admin_only(), command == Command::Details);
        assert_eq!(
            command.announces_typing(),
            !matches!(command, Command::Join | Command::Leave)
        );
    }
}

fn caller(in_guild: bool, administrator: bool, roles: &[&str]) -> Caller {
    Caller {
        automated: false,
        in_guild,
        administrator,
        roles: roles.iter().map(|r| r.to_string()).collect(),
    }
}

#[test]
fn bots_and_webhooks_run_no_command() {
    for command in all_commands() {
        let bot = Caller {
            automated: true,
            in_guild: true,
            administrator: true,
            roles: vec!["Admin".to_string()],
        };
        assert_eq!(clearance(command, &bot), Clearance::Ignored);
        let bot = Caller { automated: true, in_guild: false, administrator: false, roles: vec![] };
        assert_eq!(clearance(command, &bot), Clearance::Ignored);
    }
}

#[test]
fn clearance_outside_a_guild() {
    let private = caller(false, false, &[]);
    assert_eq!(clearance(Command::Ping, &private), Clearance::Granted);
    assert_eq!(clearance(Command::Meme, &private), Clearance::Granted);
    assert_eq!(clearance(Command::Gif, &private), Clearance::Granted);
    assert_eq!(clearance(Command::Help, &private), Clearance::Granted);
    assert_eq!(clearance(Command::Details, &private), Clearance::GuildOnly);
    assert_eq!(clearance(Command::Join, &private), Clearance::GuildOnly);
    assert_eq!(clearance(Command::Leave, &private), Clearance::GuildOnly);
    assert_eq!(clearance(Command::Play, &private), Clearance::GuildOnly);
    assert_eq!(clearance(Command::Mute, &private), Clearance::GuildOnly);
    assert_eq!(clearance(Command::Unmute, &private), Clearance::GuildOnly);
}

#[test]
fn clearance_for_details() {
    assert_eq!(clearance(Command::Details, &caller(true, false, &[])), Clearance::LackingRole);
    assert_eq!(
        clearance(Command::Details, &caller(true, false, &["Member", "admin"])),
        Clearance::LackingRole
    );
    assert_eq!(
        clearance(Command::Details, &caller(true, false, &["Member", "Admin"])),
        Clearance::Granted
    );
    assert_eq!(clearance(Command::Details, &caller(true, false, &["Admin"])), Clearance::Granted);
    assert_eq!(clearance(Command::Details, &caller(true, true, &[])), Clearance::Granted);
}

#[test]
fn clearance_in_a_guild_for_the_rest() {
    let member = caller(true, false, &[]);
    for command in all_commands() {
        if command != Command::Details {
            assert_eq!(clearance(command, &member), Clearance::Granted);
        }
    }
}

#[test]
fn help_lists_both_groups() {
    let out = help();
    let embed = match out {
        Outgoing::Embed(embed) => embed,
        other => panic!("no embed: {:?}", other),
    };
    assert_eq!(embed.title, "Commands");
    assert_eq!(embed.image, None);
    assert_eq!(embed.thumbnail, None);
    assert_eq!(embed.colour, Colour::DarkGrey);
    assert_eq!(embed.fields.len(), 2);
    assert_eq!(embed.fields[0].name, "General");
    assert_eq!(
        embed.fields[0].value,
        "ping: Reply With Pong!\nmeme: Reply With random meme image\n\
         gif: Reply with random meme gif\ndetails: Sends Server's Information"
    );
    assert!(!embed.fields[0].inline);
    assert_eq!(embed.fields[1].name, "Music");
    assert_eq!(
        embed.fields[1].value,
        "join: Join Voice Channel\nleave: Leave Voice Channel\n\
         play: Play a audio using video or audio url\nmute: Mute Bot in Voice channel\n\
         unmute: Unmute Bot in Voice channel"
    );
    assert!(!embed.fields[1].inline);
}
