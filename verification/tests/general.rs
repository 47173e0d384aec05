use ru_bot::general::{
    details, gif, gif_card, gif_from, meme, meme_from, meme_link, ping, GuildInfo, MemberInfo,
};
use ru_bot::reply::{report, Colour, CommandError, Embed, Field, Outgoing, Report};

fn embed_of(out: Outgoing) -> Embed {
    match out {
        Outgoing::Embed(embed) => embed,
        other => panic!("no embed: {:?}", other),
    }
}

#[test]
fn ping_answers_pong() {
    assert_eq!(ping(), Outgoing::Reply("Pong!".to_string()));
}

#[test]
fn gif_builds_the_embed_from_title_and_url() {
    let embed = embed_of(gif("{\"title\":\"T\",\"url\":\"U\"}").expect("an embed"));
    assert_eq!(
        embed,
        Embed {
            title: "T".to_string(),
            image: Some("U".to_string()),
            thumbnail: None,
            fields: vec![],
            colour: Colour::DarkGrey,
        }
    );
    assert!(!embed.title.contains('"'));
    assert!(!embed.image.unwrap().contains('"'));
}

#[test]
fn gif_reads_the_members_wherever_they_stand() {
    let body = "{ \"url\": \"https://i.redd.it/x.gif\", \"nsfw\": false,\n \"title\": \"A cat\" }";
    let embed = embed_of(gif(body).unwrap());
    assert_eq!(embed.title, "A cat");
    assert_eq!(embed.image, Some("https://i.redd.it/x.gif".to_string()));
}

#[test]
fn gif_rejects_a_listing_without_title_or_url() {
    for body in [
        "{\"title\":\"T\"}",
        "{\"url\":\"U\"}",
        "{\"title\":null,\"url\":\"U\"}",
        "{\"title\":\"T\",\"url\":null}",
        "{\"code\":404,\"message\":\"not found\"}",
        "[1,2]",
        "null",
        "\"title\"",
    ] {
        assert_eq!(gif(body), Err(CommandError::UnexpectedShape), "{}", body);
    }
}

#[test]
fn gif_from_reads_a_document() {
    let doc: serde_json::Value = serde_json::from_str("{\"title\":\"T\",\"url\":\"U\"}").unwrap();
    let embed = embed_of(gif_from(&doc).unwrap());
    assert_eq!(embed.title, "T");
    assert_eq!(embed.image, Some("U".to_string()));
    let doc: serde_json::Value = serde_json::from_str("{\"title\":\"T\"}").unwrap();
    assert_eq!(gif_from(&doc), Err(CommandError::UnexpectedShape));
}

#[test]
fn meme_from_reads_a_document() {
    let doc: serde_json::Value = serde_json::from_str("{\"preview\":[0,1,2,\"p\"]}").unwrap();
    assert_eq!(meme_from(&doc), Ok(Outgoing::Reply("p".to_string())));
    let doc: serde_json::Value = serde_json::from_str("{\"preview\":[0,1,2]}").unwrap();
    assert_eq!(meme_from(&doc), Err(CommandError::UnexpectedShape));
}

#[test]
fn gif_writes_other_values_as_json_without_quotes() {
    let embed = embed_of(gif("{\"title\":{\"a\":\"b\"},\"url\":17}").unwrap());
    assert_eq!(embed.title, "{a:b}");
    assert_eq!(embed.image, Some("17".to_string()));
    let embed = embed_of(gif("{\"title\":\"say \\\"hi\\\"\",\"url\":\"u\"}").unwrap());
    assert_eq!(embed.title, "say \\hi\\");
}

#[test]
fn gif_rejects_what_is_not_json() {
    assert_eq!(gif("<html>"), Err(CommandError::MalformedJson));
    assert_eq!(gif(""), Err(CommandError::MalformedJson));
    assert_eq!(gif("{\"title\":\"T\""), Err(CommandError::MalformedJson));
}

#[test]
fn gif_card_strips_the_quotes() {
    let embed = embed_of(gif_card("\"T\"", "\"U\""));
    assert_eq!(embed.title, "T");
    assert_eq!(embed.image, Some("U".to_string()));
    assert_eq!(embed.thumbnail, None);
    assert_eq!(embed.fields, Vec::<Field>::new());
    assert_eq!(embed.colour, Colour::DarkGrey);
}

#[test]
fn meme_answers_with_the_fourth_preview() {
    let body = "{\"preview\":[\"a\",\"b\",\"c\",\"https://preview.redd.it/d.png\",\"e\"]}";
    assert_eq!(meme(body), Ok(Outgoing::Reply("https://preview.redd.it/d.png".to_string())));
}

#[test]
fn meme_rejects_a_listing_without_a_fourth_preview() {
    for body in [
        "{\"preview\":[\"a\",\"b\",\"c\"]}",
        "{\"preview\":[\"a\",\"b\",\"c\",null]}",
        "{\"preview\":[]}",
        "{\"title\":\"T\"}",
        "{\"preview\":{\"3\":\"x\"}}",
        "{\"preview\":\"abcd\"}",
        "3",
    ] {
        assert_eq!(meme(body), Err(CommandError::UnexpectedShape), "{}", body);
    }
}

#[test]
fn meme_writes_other_values_as_json_without_quotes() {
    assert_eq!(meme("{\"preview\":[0,1,2,3]}"), Ok(Outgoing::Reply("3".to_string())));
    assert_eq!(
        meme("{\"preview\":[0,1,2,[\"x\",\"y\"]]}"),
        Ok(Outgoing::Reply("[x,y]".to_string()))
    );
}

#[test]
fn meme_rejects_what_is_not_json() {
    assert_eq!(meme("not json"), Err(CommandError::MalformedJson));
    assert_eq!(meme("{\"preview\":["), Err(CommandError::MalformedJson));
}

#[test]
fn meme_link_strips_the_quotes() {
    assert_eq!(meme_link("\"https://x/y.png\""), Outgoing::Reply("https://x/y.png".to_string()));
    assert_eq!(meme_link("null"), Outgoing::Reply("null".to_string()));
}

fn member(name: &str, id: u64, joined_at: &str) -> MemberInfo {
    MemberInfo { name: name.to_string(), id, joined_at: joined_at.to_string() }
}

fn block(name: &str, value: &str) -> Field {
    Field { name: name.to_string(), value: value.to_string(), inline: false }
}

#[test]
fn details_describes_the_guild_and_each_member() {
    let guild = GuildInfo {
        name: "Rustaceans".to_string(),
        id: 81384788765712384,
        icon_url: Some("https://cdn.example/icon.png".to_string()),
        owner_name: "ferris".to_string(),
        members: vec![
            member("ferris", 1, "2020-01-02T03:04:05Z"),
            member("corro", 18446744073709551615, "2021-06-07T08:09:10Z"),
        ],
    };
    let out = details(&guild);
    assert_eq!(out.len(), 3);
    assert_eq!(
        out[0],
        Outgoing::Embed(Embed {
            title: "Rustaceans Server's Info:".to_string(),
            image: None,
            thumbnail: Some("https://cdn.example/icon.png".to_string()),
            fields: vec![
                block("Owner", "ferris"),
                block("Server ID", "81384788765712384"),
                block("Member Count", "2"),
            ],
            colour: Colour::FabledPink,
        })
    );
    assert_eq!(
        out[1],
        Outgoing::Say("Member name: ferris\nID: 1\nJoined at: 2020-01-02T03:04:05Z".to_string())
    );
    assert_eq!(
        out[2],
        Outgoing::Say(
            "Member name: corro\nID: 18446744073709551615\nJoined at: 2021-06-07T08:09:10Z"
                .to_string()
        )
    );
}

#[test]
fn details_without_icon_and_members() {
    let guild = GuildInfo {
        name: "".to_string(),
        id: 0,
        icon_url: None,
        owner_name: "nobody".to_string(),
        members: vec![],
    };
    let out = details(&guild);
    assert_eq!(out.len(), 1);
    let embed = embed_of(out[0].clone());
    assert_eq!(embed.title, " Server's Info:");
    assert_eq!(embed.thumbnail, Some("No Icon".to_string()));
    assert_eq!(
        embed.fields,
        vec![block("Owner", "nobody"), block("Server ID", "0"), block("Member Count", "0")]
    );
}

#[test]
fn report_words_each_error() {
    assert_eq!(
        report(&CommandError::Transport("connection reset".to_string())),
        Report {
            reply: Outgoing::Say("Failed: connection reset".to_string()),
            log: Some("[ ERROR ] connection reset".to_string()),
        }
    );
    assert_eq!(
        report(&CommandError::MalformedJson),
        Report {
            reply: Outgoing::Say("Failed: malformed JSON".to_string()),
            log: Some("[ ERROR ] malformed JSON".to_string()),
        }
    );
    assert_eq!(
        report(&CommandError::UnexpectedShape),
        Report {
            reply: Outgoing::Say("Failed: unexpected JSON".to_string()),
            log: Some("[ ERROR ] unexpected JSON".to_string()),
        }
    );
}
