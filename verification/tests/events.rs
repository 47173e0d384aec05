use ru_bot::events::{
    guild_member_addition, message, message_for, ready, MessageAction, Presence, Startup, Status,
    Welcome,
};
use ru_bot::reply::Outgoing;

fn greeting(author: u64) -> MessageAction {
    MessageAction::Greet(Outgoing::Reply(format!("Hello <@{}>", author)))
}

#[test]
fn ready_announces_the_bot_and_its_guilds() {
    let guilds = vec!["Rustaceans".to_string(), "Crabs".to_string()];
    assert_eq!(
        ready("Ru", Some(&guilds)),
        Startup {
            lines: vec![
                "[ READY ] Ru is connected.".to_string(),
                "\t- Rustaceans".to_string(),
                "\t- Crabs".to_string(),
            ],
            presence: Presence { listening_to: "Ru help".to_string(), status: Status::Idle },
        }
    );
}

#[test]
fn ready_without_the_list_of_guilds() {
    let startup = ready("Ru", None);
    assert_eq!(startup.lines, vec!["[ READY ] Ru is connected.".to_string()]);
    assert_eq!(startup.presence.listening_to, "Ru help");
    assert_eq!(startup.presence.status, Status::Idle);
    let none: Vec<String> = vec![];
    assert_eq!(ready("Ru", Some(&none)).lines, vec!["[ READY ] Ru is connected.".to_string()]);
}

#[test]
fn hello_ru_is_greeted_in_any_case() {
    assert_eq!(message("hello ru", 42, Some(false)), greeting(42));
    assert_eq!(message("Hello Ru", 42, Some(false)), greeting(42));
    assert_eq!(message("HELLO RU, how are you?", 7, None), greeting(7));
    assert_eq!(message("hElLo rUby", 18446744073709551615, Some(false)),
        greeting(18446744073709551615));
}

#[test]
fn a_greeting_is_not_relayed() {
    assert_eq!(message("Hello Ru <@1>", 42, Some(true)), greeting(42));
}

#[test]
fn a_mention_is_relayed() {
    assert_eq!(
        message("<@1> what is Rust?", 42, Some(true)),
        MessageAction::Relay("<@1> what is Rust?".to_string())
    );
    assert_eq!(
        message(" hello ru", 42, Some(true)),
        MessageAction::Relay(" hello ru".to_string())
    );
}

#[test]
fn other_messages_are_ignored() {
    assert_eq!(message("what is Rust?", 42, Some(false)), MessageAction::Ignore);
    assert_eq!(message("<@1> what is Rust?", 42, None), MessageAction::Ignore);
    assert_eq!(message("", 42, Some(false)), MessageAction::Ignore);
    assert_eq!(message("hello r", 42, Some(false)), MessageAction::Ignore);
    assert_eq!(message("say hello ru", 42, Some(false)), MessageAction::Ignore);
}

#[test]
fn message_for_goes_by_the_lowered_text() {
    assert_eq!(message_for("hello ru", "HELLO RU", 3, Some(true)), greeting(3));
    assert_eq!(
        message_for("hi", "Hi", 3, Some(true)),
        MessageAction::Relay("Hi".to_string())
    );
    assert_eq!(message_for("Hello Ru", "Hello Ru", 3, Some(false)), MessageAction::Ignore);
    assert_eq!(message_for("hi", "Hi", 3, None), MessageAction::Ignore);
}

#[test]
fn a_new_member_is_welcomed_in_the_default_channel() {
    assert_eq!(
        guild_member_addition(1234, Some(99)),
        Some(Welcome { channel: 99, message: Outgoing::Say("<@1234> Joined in.".to_string()) })
    );
    assert_eq!(guild_member_addition(1234, None), None);
}
