//! The general commands: `ping`, `meme`, `gif` and `details`.

use crate::json::{
    element_of, json_element, json_is_null, json_member, json_model, json_parsed, json_rendered,
    member_of, parse_json, render_json, JsonModel,
};
use crate::reply::{
    outgoing_views, reply, text_view, Colour, CommandError, CommandErrorView, Embed, EmbedView,
    Field, FieldView, Outgoing, OutgoingView,
};
use crate::text::{
    append_decimal, decimal, decimal_text, law_without_holds_none, remove_char, without,
};
use vstd::prelude::*;

verus! {

/// The answer to `ping`.
pub fn ping() -> (out: Outgoing)
    ensures
        out@ == OutgoingView::Reply("Pong!"@),
{
    reply("Pong!")
}

/// A JSON text with its double quotes taken out. For a JSON string without
/// escapes this is the string itself.
pub open spec fn unquoted(rendered: Seq<char>) -> Seq<char> {
    without(rendered, '"')
}

/// The answer to `meme` for the rendered fourth preview link.
pub open spec fn meme_reply(preview: Seq<char>) -> OutgoingView {
    OutgoingView::Reply(unquoted(preview))
}

/// The answer to `gif` for the rendered title and link.
pub open spec fn gif_reply(title: Seq<char>, url: Seq<char>) -> OutgoingView {
    OutgoingView::Embed(
        EmbedView {
            title: unquoted(title),
            image: Some(unquoted(url)),
            thumbnail: None,
            fields: Seq::empty(),
            colour: Colour::DarkGrey,
        },
    )
}

/// Whatever the meme service sends, neither the title nor the picture link
/// of the `gif` embed holds a double quote, and nor does the `meme` link.
pub proof fn law_no_quotes_are_sent(title: Seq<char>, url: Seq<char>)
    ensures
        gif_reply(title, url) matches OutgoingView::Embed(embed) && !embed.title.contains('"'),
        gif_reply(title, url) matches OutgoingView::Embed(embed) && embed.image is Some
            && !embed.image->0.contains('"'),
        meme_reply(url) matches OutgoingView::Reply(link) && !link.contains('"'),
{
    law_without_holds_none(title, '"');
    law_without_holds_none(url, '"');
}

/// The part of a meme listing that `meme` sends: element 3 of `preview`.
pub open spec fn meme_preview(doc: JsonModel) -> JsonModel {
    element_of(member_of(doc, "preview"@), 3)
}

/// What `meme` makes of a meme listing: the preview link, as JSON text
/// without its quotes; an error where the listing has none.
pub open spec fn meme_of(doc: JsonModel) -> Result<OutgoingView, CommandErrorView> {
    if meme_preview(doc) is Null {
        Err(CommandErrorView::UnexpectedShape)
    } else {
        Ok(meme_reply(json_rendered(meme_preview(doc))))
    }
}

/// What `gif` makes of a meme listing: an embed from its `title` and `url`,
/// as JSON texts without their quotes; an error where either is missing.
pub open spec fn gif_of(doc: JsonModel) -> Result<OutgoingView, CommandErrorView> {
    if member_of(doc, "title"@) is Null || member_of(doc, "url"@) is Null {
        Err(CommandErrorView::UnexpectedShape)
    } else {
        Ok(
            gif_reply(
                json_rendered(member_of(doc, "title"@)),
                json_rendered(member_of(doc, "url"@)),
            ),
        )
    }
}

/// What `meme` answers to the body of a meme listing.
pub open spec fn meme_outcome(body: Seq<char>) -> Result<OutgoingView, CommandErrorView> {
    match json_parsed(body) {
        Some(doc) => meme_of(doc),
        None => Err(CommandErrorView::MalformedJson),
    }
}

/// What `gif` answers to the body of a meme listing.
pub open spec fn gif_outcome(body: Seq<char>) -> Result<OutgoingView, CommandErrorView> {
    match json_parsed(body) {
        Some(doc) => gif_of(doc),
        None => Err(CommandErrorView::MalformedJson),
    }
}

/// The view of a handler's result.
pub open spec fn outcome_view(r: Result<Outgoing, CommandError>) -> Result<
    OutgoingView,
    CommandErrorView,
> {
    match r {
        Ok(out) => Ok(out@),
        Err(e) => Err(e@),
    }
}

/// Words the `meme` answer from the JSON text of the preview link: the text
/// without its double quotes, as a reply.
pub fn meme_link(preview: &str) -> (out: Outgoing)
    ensures
        out@ == meme_reply(preview@),
{
    Outgoing::Reply(remove_char(preview, '"'))
}

/// Builds the `gif` embed from the JSON texts of title and link: both without
/// their double quotes, the link as the image, dark grey, nothing else set.
pub fn gif_card(title: &str, url: &str) -> (out: Outgoing)
    ensures
        out@ == gif_reply(title@, url@),
{
    let embed = Embed {
        title: remove_char(title, '"'),
        image: Some(remove_char(url, '"')),
        thumbnail: None,
        fields: Vec::new(),
        colour: Colour::DarkGrey,
    };
    assert(embed.fields@.map_values(|f: Field| f@) =~= Seq::<FieldView>::empty());
    Outgoing::Embed(embed)
}

/// Reads the `meme` answer from a meme listing.
pub fn meme_from(doc: &serde_json::Value) -> (r: Result<Outgoing, CommandError>)
    ensures
        outcome_view(r) == meme_of(json_model(*doc)),
{
    let preview = json_element(json_member(doc, "preview"), 3);
    if json_is_null(preview) {
        return Err(CommandError::UnexpectedShape);
    }
    let rendered = render_json(preview);
    Ok(meme_link(rendered.as_str()))
}

/// Reads the `gif` answer from a meme listing.
pub fn gif_from(doc: &serde_json::Value) -> (r: Result<Outgoing, CommandError>)
    ensures
        outcome_view(r) == gif_of(json_model(*doc)),
{
    let title = json_member(doc, "title");
    let url = json_member(doc, "url");
    if json_is_null(title) || json_is_null(url) {
        return Err(CommandError::UnexpectedShape);
    }
    let title = render_json(title);
    let url = render_json(url);
    Ok(gif_card(title.as_str(), url.as_str()))
}

/// `meme`: answers with the fourth preview link of a meme listing.
///
/// `body` is what the meme service sent. Text that is not JSON is an error,
/// and so is JSON with nothing, or null, at `preview[3]`. Whatever else
/// stands there is sent as JSON text without its double quotes.
pub fn meme(body: &str) -> (r: Result<Outgoing, CommandError>)
    ensures
        outcome_view(r) == meme_outcome(body@),
{
    match parse_json(body) {
        Ok(doc) => meme_from(&doc),
        Err(_) => Err(CommandError::MalformedJson),
    }
}

/// `gif`: answers with an embed that carries the title and the picture of a
/// meme listing.
///
/// `body` is what the meme service sent. Text that is not JSON is an error,
/// and so is JSON with nothing, or null, under `title` or under `url`.
/// Whatever else stands there is used as JSON text without its double
/// quotes.
pub fn gif(body: &str) -> (r: Result<Outgoing, CommandError>)
    ensures
        outcome_view(r) == gif_outcome(body@),
{
    match parse_json(body) {
        Ok(doc) => gif_from(&doc),
        Err(_) => Err(CommandError::MalformedJson),
    }
}

/// A member of a guild, as `details` lists it.
#[derive(Debug, Clone, PartialEq, Eq)]
pub struct MemberInfo {
    pub name: String,
    pub id: u64,
    /// When the member joined, already written out.
    pub joined_at: String,
}

/// What `details` reports of a guild.
#[derive(Debug, Clone, PartialEq, Eq)]
pub struct GuildInfo {
    pub name: String,
    pub id: u64,
    pub icon_url: Option<String>,
    pub owner_name: String,
    pub members: Vec<MemberInfo>,
}

/// [`MemberInfo`] as contracts speak of it, with texts in place of strings.
pub struct MemberInfoView {
    pub name: Seq<char>,
    pub id: u64,
    pub joined_at: Seq<char>,
}

/// [`GuildInfo`] as contracts speak of it, with texts in place of strings.
pub struct GuildInfoView {
    pub name: Seq<char>,
    pub id: u64,
    pub icon_url: Option<Seq<char>>,
    pub owner_name: Seq<char>,
    pub members: Seq<MemberInfoView>,
}

impl View for MemberInfo {
    type V = MemberInfoView;

    open spec fn view(&self) -> MemberInfoView {
        MemberInfoView { name: self.name@, id: self.id, joined_at: self.joined_at@ }
    }
}

impl View for GuildInfo {
    type V = GuildInfoView;

    open spec fn view(&self) -> GuildInfoView {
        GuildInfoView {
            name: self.name@,
            id: self.id,
            icon_url: text_view(self.icon_url),
            owner_name: self.owner_name@,
            members: self.members@.map_values(|m: MemberInfo| m@),
        }
    }
}

/// A field that takes a line of its own.
pub open spec fn block_field(name: Seq<char>, value: Seq<char>) -> FieldView {
    FieldView { name, value, inline: false }
}

/// The embed that opens the answer to `details`.
pub open spec fn guild_summary(guild: GuildInfoView) -> EmbedView {
    EmbedView {
        title: guild.name + " Server's Info:"@,
        image: None,
        thumbnail: Some(
            match guild.icon_url {
                Some(url) => url,
                None => "No Icon"@,
            },
        ),
        fields: seq![
            block_field("Owner"@, guild.owner_name),
            block_field("Server ID"@, decimal(guild.id as nat)),
            block_field("Member Count"@, decimal(guild.members.len())),
        ],
        colour: Colour::FabledPink,
    }
}

/// The message that describes one member.
pub open spec fn member_card(member: MemberInfoView) -> Seq<char> {
    "Member name: "@ + member.name + "\nID: "@ + decimal(member.id as nat) + "\nJoined at: "@
        + member.joined_at
}

/// The answer to `details`: the summary, then a message for each member in
/// the order given.
pub open spec fn details_messages(guild: GuildInfoView) -> Seq<OutgoingView> {
    seq![OutgoingView::Embed(guild_summary(guild))] + guild.members.map_values(
        |m: MemberInfoView| OutgoingView::Say(member_card(m)),
    )
}

fn block(name: &str, value: String) -> (f: Field)
    ensures
        f@ == block_field(name@, value@),
{
    Field { name: String::from_str(name), value, inline: false }
}

fn summary(guild: &GuildInfo) -> (embed: Embed)
    ensures
        embed@ == guild_summary(guild@),
{
    let mut title = guild.name.clone();
    title.append(" Server's Info:");
    let thumbnail = match &guild.icon_url {
        Some(url) => url.clone(),
        None => String::from_str("No Icon"),
    };
    let mut fields: Vec<Field> = Vec::new();
    fields.push(block("Owner", guild.owner_name.clone()));
    fields.push(block("Server ID", decimal_text(guild.id)));
    fields.push(block("Member Count", decimal_text(guild.members.len() as u64)));
    let embed = Embed {
        title,
        image: None,
        thumbnail: Some(thumbnail),
        fields,
        colour: Colour::FabledPink,
    };
    assert(embed@.fields =~= guild_summary(guild@).fields);
    embed
}

fn card(member: &MemberInfo) -> (text: String)
    ensures
        text@ == member_card(member@),
{
    let mut text = String::from_str("Member name: ");
    text.append(member.name.as_str());
    text.append("\nID: ");
    append_decimal(&mut text, member.id);
    text.append("\nJoined at: ");
    text.append(member.joined_at.as_str());
    text
}

/// `details`: describes a guild in an embed, then each of its members in a
/// message of its own.
pub fn details(guild: &GuildInfo) -> (out: Vec<Outgoing>)
    ensures
        outgoing_views(out@) == details_messages(guild@),
{
    let mut out: Vec<Outgoing> = Vec::new();
    out.push(Outgoing::Embed(summary(guild)));
    let mut i: usize = 0;
    while i < guild.members.len()
        invariant
            i <= guild.members.len(),
            out.len() == i + 1,
            out@[0]@ == OutgoingView::Embed(guild_summary(guild@)),
            forall|k: int|
                1 <= k <= i ==> (#[trigger] out@[k])@ == OutgoingView::Say(
                    member_card(guild.members@[k - 1]@),
                ),
        decreases guild.members.len() - i,
    {
        out.push(Outgoing::Say(card(&guild.members[i])));
        i = i + 1;
    }
    proof {
        let got = outgoing_views(out@);
        let want = details_messages(guild@);
        assert(got.len() == want.len());
        assert forall|k: int| 0 <= k < got.len() implies got[k] == want[k] by {
            if k >= 1 {
                assert(got[k] == out@[k]@);
                assert(guild@.members[k - 1] == guild.members@[k - 1]@);
            }
        }
        assert(got =~= want);
    }
    out
}

} // verus!
