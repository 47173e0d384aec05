//! The voice commands: joining and leaving a voice channel, playing a track,
//! muting and unmuting.
//!
//! Talking to the voice backend is not done here. Each command is decided in
//! two moves: a command function looks at the table of sessions and either
//! answers at once or names the one action the backend has to perform;
//! [`settle`] then takes the outcome of that action, brings the table up to
//! date and words the answer.

use crate::reply::{reply, say, text_view, Outgoing, OutgoingView, Report};
use crate::text::{conjoin, texts, trim, trimmed};
use std::collections::HashMap;
use vstd::prelude::*;

verus! {

broadcast use vstd::std_specs::hash::group_hash_axioms;

/// The voice connection of one guild.
#[derive(Debug, Clone, Copy, PartialEq, Eq)]
pub struct VoiceSession {
    /// The channel the connection was last asked to join.
    pub channel: u64,
    /// Whether the bot is muted there.
    pub muted: bool,
}

/// The sessions the bot holds, by guild id: at most one for each guild.
///
/// A session exists from the moment a connection is requested, whether or
/// not the request went through, because the voice backend keeps its handler
/// from then on; it ends when a disconnect succeeds.
pub struct VoiceTable {
    sessions: HashMap<u64, VoiceSession>,
}

impl View for VoiceTable {
    type V = Map<u64, VoiceSession>;

    closed spec fn view(&self) -> Map<u64, VoiceSession> {
        self.sessions@
    }
}

/// Work for the voice backend.
#[derive(Debug, Clone, PartialEq, Eq)]
pub enum VoiceAction {
    /// Connect to `channel` of `guild`, moving there if already connected.
    Connect { guild: u64, channel: u64 },
    /// Leave the voice channel of `guild` and drop its handler.
    Disconnect { guild: u64 },
    /// Set the mute flag of the connection in `guild`.
    SetMute { guild: u64, muted: bool },
    /// Resolve `query`, a URL or a search keyword, into an audio source and
    /// play it in `guild` in place of whatever is playing.
    Source { guild: u64, query: String },
}

/// [`VoiceAction`] as contracts speak of it, with texts in place of strings.
pub enum VoiceActionView {
    Connect { guild: u64, channel: u64 },
    Disconnect { guild: u64 },
    SetMute { guild: u64, muted: bool },
    Source { guild: u64, query: Seq<char> },
}

impl View for VoiceAction {
    type V = VoiceActionView;

    open spec fn view(&self) -> VoiceActionView {
        match self {
            VoiceAction::Connect { guild, channel } => VoiceActionView::Connect {
                guild: *guild,
                channel: *channel,
            },
            VoiceAction::Disconnect { guild } => VoiceActionView::Disconnect { guild: *guild },
            VoiceAction::SetMute { guild, muted } => VoiceActionView::SetMute {
                guild: *guild,
                muted: *muted,
            },
            VoiceAction::Source { guild, query } => VoiceActionView::Source {
                guild: *guild,
                query: query@,
            },
        }
    }
}

/// What the backend reported of an action.
#[derive(Debug, Clone, PartialEq, Eq)]
pub enum VoiceOutcome {
    /// The action went through. After [`VoiceAction::Source`] this carries
    /// the title of the track, if it has one.
    Succeeded(Option<String>),
    /// The backend failed; its description of the error.
    Failed(String),
}

/// [`VoiceOutcome`] as contracts speak of it, with texts in place of strings.
pub enum VoiceOutcomeView {
    Succeeded(Option<Seq<char>>),
    Failed(Seq<char>),
}

impl View for VoiceOutcome {
    type V = VoiceOutcomeView;

    open spec fn view(&self) -> VoiceOutcomeView {
        match self {
            VoiceOutcome::Succeeded(Some(title)) => VoiceOutcomeView::Succeeded(Some(title@)),
            VoiceOutcome::Succeeded(None) => VoiceOutcomeView::Succeeded(None),
            VoiceOutcome::Failed(detail) => VoiceOutcomeView::Failed(detail@),
        }
    }
}

/// The first move of a voice command.
#[derive(Debug, Clone, PartialEq, Eq)]
pub enum VoiceStep {
    /// Nothing to do for the backend: send this and stop.
    Done(Outgoing),
    /// Have the backend perform this, then [`settle`] its outcome.
    Perform(VoiceAction),
}

/// [`VoiceStep`] as contracts speak of it, with texts in place of strings.
pub enum VoiceStepView {
    Done(OutgoingView),
    Perform(VoiceActionView),
}

impl View for VoiceStep {
    type V = VoiceStepView;

    open spec fn view(&self) -> VoiceStepView {
        match self {
            VoiceStep::Done(out) => VoiceStepView::Done(out@),
            VoiceStep::Perform(action) => VoiceStepView::Perform(action@),
        }
    }
}

/// `join`: connect to the caller's voice channel, if they are in one.
pub open spec fn join_step(guild: u64, channel: Option<u64>) -> VoiceStepView {
    match channel {
        Some(channel) => VoiceStepView::Perform(VoiceActionView::Connect { guild, channel }),
        None => VoiceStepView::Done(OutgoingView::Reply("Not in a Voice Channel."@)),
    }
}

/// `leave`: disconnect, if there is a session.
pub open spec fn leave_step(table: Map<u64, VoiceSession>, guild: u64) -> VoiceStepView {
    if table.dom().contains(guild) {
        VoiceStepView::Perform(VoiceActionView::Disconnect { guild })
    } else {
        VoiceStepView::Done(OutgoingView::Reply("Not in a Voice Channel."@))
    }
}

/// The track a `play` command asks for: its first argument, trimmed.
pub open spec fn play_query(args: Seq<Seq<char>>) -> Option<Seq<char>> {
    if args.len() == 0 {
        None
    } else {
        Some(trimmed(args[0]))
    }
}

/// `play`: an argument is needed first, a session second.
pub open spec fn play_step(
    table: Map<u64, VoiceSession>,
    guild: u64,
    args: Seq<Seq<char>>,
) -> VoiceStepView {
    match play_query(args) {
        None => VoiceStepView::Done(
            OutgoingView::Say("Must provide a Keyword OR URL to a video or audio."@),
        ),
        Some(query) => if table.dom().contains(guild) {
            VoiceStepView::Perform(VoiceActionView::Source { guild, query })
        } else {
            VoiceStepView::Done(OutgoingView::Say("Not in a Voice channel to play in"@))
        },
    }
}

/// `mute`: only a session that is not yet muted gives the backend work.
pub open spec fn mute_step(table: Map<u64, VoiceSession>, guild: u64) -> VoiceStepView {
    if !table.dom().contains(guild) {
        VoiceStepView::Done(OutgoingView::Reply("Not in a voice channel"@))
    } else if table[guild].muted {
        VoiceStepView::Done(OutgoingView::Reply("Already muted."@))
    } else {
        VoiceStepView::Perform(VoiceActionView::SetMute { guild, muted: true })
    }
}

/// `unmute`: any session is unmuted, muted or not.
pub open spec fn unmute_step(table: Map<u64, VoiceSession>, guild: u64) -> VoiceStepView {
    if table.dom().contains(guild) {
        VoiceStepView::Perform(VoiceActionView::SetMute { guild, muted: false })
    } else {
        VoiceStepView::Done(OutgoingView::Reply("Not in a voice channel to unmute in"@))
    }
}

/// The table after the backend has performed `action` with `outcome`.
///
/// A connect leaves a session behind even when it fails, and keeps the mute
/// flag of a session that was there. A disconnect removes the session only
/// when it succeeds. The mute flag is set before the backend is told, so it
/// changes whatever the outcome.
pub open spec fn settled_table(
    table: Map<u64, VoiceSession>,
    action: VoiceActionView,
    outcome: VoiceOutcomeView,
) -> Map<u64, VoiceSession> {
    match action {
        VoiceActionView::Connect { guild, channel } => table.insert(
            guild,
            VoiceSession {
                channel,
                muted: if table.dom().contains(guild) {
                    table[guild].muted
                } else {
                    false
                },
            },
        ),
        VoiceActionView::Disconnect { guild } => if outcome is Succeeded {
            table.remove(guild)
        } else {
            table
        },
        VoiceActionView::SetMute { guild, muted } => if table.dom().contains(guild) {
            table.insert(guild, VoiceSession { channel: table[guild].channel, muted })
        } else {
            table
        },
        VoiceActionView::Source { .. } => table,
    }
}

/// The answer after a success.
pub open spec fn success_text(action: VoiceActionView, title: Option<Seq<char>>) -> OutgoingView {
    match action {
        VoiceActionView::Connect { .. } => OutgoingView::Reply("Joined Voice Channel."@),
        VoiceActionView::Disconnect { .. } => OutgoingView::Say("Left Voice Channel."@),
        VoiceActionView::SetMute { muted, .. } => if muted {
            OutgoingView::Say("Now muted."@)
        } else {
            OutgoingView::Say("Unmuted"@)
        },
        VoiceActionView::Source { .. } => match title {
            Some(title) => OutgoingView::Say("Playing "@ + title),
            None => OutgoingView::Say("Playing "@ + "Unknown"@),
        },
    }
}

/// The answer after a failure.
pub open spec fn failure_text(action: VoiceActionView, detail: Seq<char>) -> OutgoingView {
    match action {
        VoiceActionView::Source { .. } => OutgoingView::Say("Error Sourcing FFMPEG"@),
        _ => OutgoingView::Say("Failed: "@ + detail),
    }
}

/// The answer to a settled action.
pub open spec fn settled_reply(action: VoiceActionView, outcome: VoiceOutcomeView) -> OutgoingView {
    match outcome {
        VoiceOutcomeView::Succeeded(title) => success_text(action, title),
        VoiceOutcomeView::Failed(detail) => failure_text(action, detail),
    }
}

/// The line for the error log: one after each failure, none after a success.
pub open spec fn settled_log(outcome: VoiceOutcomeView) -> Option<Seq<char>> {
    match outcome {
        VoiceOutcomeView::Succeeded(_) => None,
        VoiceOutcomeView::Failed(detail) => Some("[ ERROR ] "@ + detail),
    }
}

impl VoiceTable {
    /// A table without sessions.
    pub fn new() -> (table: VoiceTable)
        ensures
            table@ == Map::<u64, VoiceSession>::empty(),
    {
        VoiceTable { sessions: HashMap::new() }
    }

    /// The session of `guild`, if there is one.
    pub fn session(&self, guild: u64) -> (found: Option<VoiceSession>)
        ensures
            found == if self@.dom().contains(guild) {
                Some(self@[guild])
            } else {
                None
            },
    {
        match self.sessions.get(&guild) {
            Some(session) => Some(*session),
            None => None,
        }
    }
}

/// Decides a `join` from the voice channel the caller is in.
pub fn join(guild: u64, channel: Option<u64>) -> (step: VoiceStep)
    ensures
        step@ == join_step(guild, channel),
{
    match channel {
        Some(channel) => VoiceStep::Perform(VoiceAction::Connect { guild, channel }),
        None => VoiceStep::Done(reply("Not in a Voice Channel.")),
    }
}

/// Decides a `leave`. Without a session it answers "Not in a Voice Channel."
/// and asks nothing of the backend.
pub fn leave(table: &VoiceTable, guild: u64) -> (step: VoiceStep)
    ensures
        step@ == leave_step(table@, guild),
{
    match table.session(guild) {
        Some(_) => VoiceStep::Perform(VoiceAction::Disconnect { guild }),
        None => VoiceStep::Done(reply("Not in a Voice Channel.")),
    }
}

/// Decides a `play` from the arguments of the command.
pub fn play(table: &VoiceTable, guild: u64, args: &Vec<String>) -> (step: VoiceStep)
    ensures
        step@ == play_step(table@, guild, texts(args@)),
{
    if args.len() == 0 {
        return VoiceStep::Done(say("Must provide a Keyword OR URL to a video or audio."));
    }
    let query = trim(args[0].as_str());
    match table.session(guild) {
        Some(_) => VoiceStep::Perform(VoiceAction::Source { guild, query }),
        None => VoiceStep::Done(say("Not in a Voice channel to play in")),
    }
}

/// Decides a `mute`. A session that is muted already is left alone: the
/// answer is "Already muted." and the backend is asked nothing.
pub fn mute(table: &VoiceTable, guild: u64) -> (step: VoiceStep)
    ensures
        step@ == mute_step(table@, guild),
{
    match table.session(guild) {
        None => VoiceStep::Done(reply("Not in a voice channel")),
        Some(session) => if session.muted {
            VoiceStep::Done(reply("Already muted."))
        } else {
            VoiceStep::Perform(VoiceAction::SetMute { guild, muted: true })
        },
    }
}

/// Decides an `unmute`.
pub fn unmute(table: &VoiceTable, guild: u64) -> (step: VoiceStep)
    ensures
        step@ == unmute_step(table@, guild),
{
    match table.session(guild) {
        Some(_) => VoiceStep::Perform(VoiceAction::SetMute { guild, muted: false }),
        None => VoiceStep::Done(reply("Not in a voice channel to unmute in")),
    }
}

/// Words the answer to a settled action.
pub fn answer(action: &VoiceAction, outcome: &VoiceOutcome) -> (done: Report)
    ensures
        done.reply@ == settled_reply(action@, outcome@),
        text_view(done.log) == settled_log(outcome@),
{
    match outcome {
        VoiceOutcome::Failed(detail) => {
            let log = Some(conjoin("[ ERROR ] ", detail.as_str()));
            let reply = match action {
                VoiceAction::Source { .. } => say("Error Sourcing FFMPEG"),
                _ => Outgoing::Say(conjoin("Failed: ", detail.as_str())),
            };
            Report { reply, log }
        },
        VoiceOutcome::Succeeded(title) => {
            let reply = match action {
                VoiceAction::Connect { .. } => reply("Joined Voice Channel."),
                VoiceAction::Disconnect { .. } => say("Left Voice Channel."),
                VoiceAction::SetMute { muted, .. } => if *muted {
                    say("Now muted.")
                } else {
                    say("Unmuted")
                },
                VoiceAction::Source { .. } => match title {
                    Some(title) => Outgoing::Say(conjoin("Playing ", title.as_str())),
                    None => Outgoing::Say(conjoin("Playing ", "Unknown")),
                },
            };
            Report { reply, log: None }
        },
    }
}

/// Takes the outcome of an action: brings the table up to date and words
/// the answer.
pub fn settle(table: &mut VoiceTable, action: &VoiceAction, outcome: &VoiceOutcome) -> (done:
    Report)
    ensures
        final(table)@ == settled_table(old(table)@, action@, outcome@),
        done.reply@ == settled_reply(action@, outcome@),
        text_view(done.log) == settled_log(outcome@),
{
    match action {
        VoiceAction::Connect { guild, channel } => {
            let muted = match table.session(*guild) {
                Some(session) => session.muted,
                None => false,
            };
            table.sessions.insert(*guild, VoiceSession { channel: *channel, muted });
        },
        VoiceAction::Disconnect { guild } => {
            match outcome {
                VoiceOutcome::Succeeded(_) => {
                    table.sessions.remove(guild);
                },
                VoiceOutcome::Failed(_) => {},
            }
        },
        VoiceAction::SetMute { guild, muted } => {
            match table.session(*guild) {
                Some(session) => {
                    table.sessions.insert(
                        *guild,
                        VoiceSession { channel: session.channel, muted: *muted },
                    );
                },
                None => {},
            }
        },
        VoiceAction::Source { .. } => {},
    }
    answer(action, outcome)
}

/// A `mute` for a session that is muted already ends at once with "Already
/// muted.": no action is handed to the backend, so nothing is settled and
/// the table stays as it is.
pub proof fn law_mute_when_muted(table: Map<u64, VoiceSession>, guild: u64)
    requires
        table.dom().contains(guild),
        table[guild].muted,
    ensures
        mute_step(table, guild) == VoiceStepView::Done(OutgoingView::Reply("Already muted."@)),
{
}

/// Once a mute has been settled, whatever its outcome, the next `mute` for
/// the same guild finds the session muted.
pub proof fn law_mute_twice(table: Map<u64, VoiceSession>, guild: u64, outcome: VoiceOutcomeView)
    requires
        table.dom().contains(guild),
    ensures
        mute_step(
            settled_table(table, VoiceActionView::SetMute { guild, muted: true }, outcome),
            guild,
        ) == VoiceStepView::Done(OutgoingView::Reply("Already muted."@)),
{
}

/// A `leave` for a guild without a session ends at once with "Not in a Voice
/// Channel.": it is an answer, not an error, and the backend is not asked.
pub proof fn law_leave_without_session(table: Map<u64, VoiceSession>, guild: u64)
    requires
        !table.dom().contains(guild),
    ensures
        leave_step(table, guild) == VoiceStepView::Done(
            OutgoingView::Reply("Not in a Voice Channel."@),
        ),
{
}

/// The guild an action is for.
pub open spec fn guild_of(action: VoiceActionView) -> u64 {
    match action {
        VoiceActionView::Connect { guild, .. } => guild,
        VoiceActionView::Disconnect { guild } => guild,
        VoiceActionView::SetMute { guild, .. } => guild,
        VoiceActionView::Source { guild, .. } => guild,
    }
}

/// Settling an action changes the session of its own guild at most: every
/// other guild keeps the session it had, or stays without one.
pub proof fn law_settle_is_local(
    table: Map<u64, VoiceSession>,
    action: VoiceActionView,
    outcome: VoiceOutcomeView,
    other: u64,
)
    requires
        other != guild_of(action),
    ensures
        settled_table(table, action, outcome).dom().contains(other) == table.dom().contains(other),
        table.dom().contains(other) ==> settled_table(table, action, outcome)[other]
            == table[other],
{
}

/// A successful disconnect ends the session; a `leave` after it is answered
/// with "Not in a Voice Channel.".
pub proof fn law_leave_twice(table: Map<u64, VoiceSession>, guild: u64, title: Option<Seq<char>>)
    ensures
        leave_step(
            settled_table(
                table,
                VoiceActionView::Disconnect { guild },
                VoiceOutcomeView::Succeeded(title),
            ),
            guild,
        ) == VoiceStepView::Done(OutgoingView::Reply("Not in a Voice Channel."@)),
{
}

} // verus!
