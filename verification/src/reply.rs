//! What a handler hands back to be sent: plain text or an embed.

use crate::text::conjoin;
use vstd::prelude::*;

verus! {

/// The accent colour of an embed.
#[derive(Debug, Clone, Copy, PartialEq, Eq)]
pub enum Colour {
    DarkGrey,
    FabledPink,
}

/// One titled line of an embed.
#[derive(Debug, Clone, PartialEq, Eq)]
pub struct Field {
    pub name: String,
    pub value: String,
    pub inline: bool,
}

/// A rich message: a title, optional pictures, and fields.
#[derive(Debug, Clone, PartialEq, Eq)]
pub struct Embed {
    pub title: String,
    pub image: Option<String>,
    pub thumbnail: Option<String>,
    pub fields: Vec<Field>,
    pub colour: Colour,
}

/// A message for the channel a command came from.
#[derive(Debug, Clone, PartialEq, Eq)]
pub enum Outgoing {
    /// Text sent as a reply to the invoking message.
    Reply(String),
    /// Text sent to the channel.
    Say(String),
    /// An embed sent to the channel.
    Embed(Embed),
}

/// Why a command was abandoned.
#[derive(Debug, Clone, PartialEq, Eq)]
pub enum CommandError {
    /// A call to an outside service failed; its description of the error.
    Transport(String),
    /// A service answered with text that is not JSON.
    MalformedJson,
    /// A service answered with JSON that lacks what was asked for.
    UnexpectedShape,
}

/// What is sent to the channel and, where there is something to record,
/// the line for the error log.
#[derive(Debug, Clone, PartialEq, Eq)]
pub struct Report {
    pub reply: Outgoing,
    pub log: Option<String>,
}

/// [`CommandError`] as contracts speak of it, with texts in place of strings.
pub enum CommandErrorView {
    Transport(Seq<char>),
    MalformedJson,
    UnexpectedShape,
}

/// [`Field`] as contracts speak of it, with texts in place of strings.
pub struct FieldView {
    pub name: Seq<char>,
    pub value: Seq<char>,
    pub inline: bool,
}

/// [`Embed`] as contracts speak of it, with texts in place of strings.
pub struct EmbedView {
    pub title: Seq<char>,
    pub image: Option<Seq<char>>,
    pub thumbnail: Option<Seq<char>>,
    pub fields: Seq<FieldView>,
    pub colour: Colour,
}

/// [`Outgoing`] as contracts speak of it, with texts in place of strings.
pub enum OutgoingView {
    Reply(Seq<char>),
    Say(Seq<char>),
    Embed(EmbedView),
}

/// The text an optional string holds.
pub open spec fn text_view(s: Option<String>) -> Option<Seq<char>> {
    match s {
        Some(t) => Some(t@),
        None => None,
    }
}

impl View for Field {
    type V = FieldView;

    open spec fn view(&self) -> FieldView {
        FieldView { name: self.name@, value: self.value@, inline: self.inline }
    }
}

impl View for Embed {
    type V = EmbedView;

    open spec fn view(&self) -> EmbedView {
        EmbedView {
            title: self.title@,
            image: text_view(self.image),
            thumbnail: text_view(self.thumbnail),
            fields: self.fields@.map_values(|f: Field| f@),
            colour: self.colour,
        }
    }
}

impl View for Outgoing {
    type V = OutgoingView;

    open spec fn view(&self) -> OutgoingView {
        match self {
            Outgoing::Reply(text) => OutgoingView::Reply(text@),
            Outgoing::Say(text) => OutgoingView::Say(text@),
            Outgoing::Embed(embed) => OutgoingView::Embed(embed@),
        }
    }
}

impl View for CommandError {
    type V = CommandErrorView;

    open spec fn view(&self) -> CommandErrorView {
        match self {
            CommandError::Transport(detail) => CommandErrorView::Transport(detail@),
            CommandError::MalformedJson => CommandErrorView::MalformedJson,
            CommandError::UnexpectedShape => CommandErrorView::UnexpectedShape,
        }
    }
}

/// What an error is called in messages and in the log.
pub open spec fn error_detail(error: CommandErrorView) -> Seq<char> {
    match error {
        CommandErrorView::Transport(detail) => detail,
        CommandErrorView::MalformedJson => "malformed JSON"@,
        CommandErrorView::UnexpectedShape => "unexpected JSON"@,
    }
}

/// The messages a list of outgoing messages stands for.
pub open spec fn outgoing_views(list: Seq<Outgoing>) -> Seq<OutgoingView> {
    list.map_values(|o: Outgoing| o@)
}

/// A reply to the invoking message with the given text.
pub fn reply(text: &str) -> (out: Outgoing)
    ensures
        out@ == OutgoingView::Reply(text@),
{
    Outgoing::Reply(String::from_str(text))
}

/// A message to the channel with the given text.
pub fn say(text: &str) -> (out: Outgoing)
    ensures
        out@ == OutgoingView::Say(text@),
{
    Outgoing::Say(String::from_str(text))
}

/// Turns the error of an abandoned command into the message for its channel
/// and the line for the error log.
pub fn report(error: &CommandError) -> (r: Report)
    ensures
        r.reply@ == OutgoingView::Say("Failed: "@ + error_detail(error@)),
        text_view(r.log) == Some("[ ERROR ] "@ + error_detail(error@)),
{
    let detail: &str = match error {
        CommandError::Transport(detail) => detail.as_str(),
        CommandError::MalformedJson => "malformed JSON",
        CommandError::UnexpectedShape => "unexpected JSON",
    };
    Report {
        reply: Outgoing::Say(conjoin("Failed: ", detail)),
        log: Some(conjoin("[ ERROR ] ", detail)),
    }
}

} // verus!
