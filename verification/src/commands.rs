//! What the three main commands decide.
//!
//! A command gathers facts one by one, some of them over the network, and
//! stops as soon as it knows its answer. Each command is a function from the
//! facts gathered so far to the next step: a fact to fetch, something to do,
//! or the reply that ends the command. The caller fetches, acts and replies.

use crate::coordinator::{JoinError, JoinOutcome};
use vstd::prelude::*;

verus! {

/// Permission to see a channel.
pub const VIEW_CHANNEL: u64 = 0x400;

/// Permission to send messages.
pub const SEND_MESSAGES: u64 = 0x800;

/// Permission to embed links.
pub const EMBED_LINKS: u64 = 0x4000;

/// Permission to add reactions.
pub const ADD_REACTIONS: u64 = 0x40;

/// Permission to connect to a voice channel.
pub const CONNECT: u64 = 0x10_0000;

/// Permission to speak in a voice channel.
pub const SPEAK: u64 = 0x20_0000;

/// What the bot must be allowed in a voice channel to read messages out
/// there: see it, connect to it and speak in it.
pub const VOICE_PERMISSIONS: u64 = VIEW_CHANNEL | CONNECT | SPEAK;

/// The permissions of `required` that `granted` lacks.
pub open spec fn missing_from(required: u64, granted: u64) -> u64 {
    required & !granted
}

/// The permissions that the bot lacks to read messages out in a channel in
/// which it has the permissions `granted`.
pub fn missing_permissions(granted: u64) -> (missing: u64)
    ensures
        missing == missing_from(VOICE_PERMISSIONS, granted),
        missing == 0 <==> granted & VOICE_PERMISSIONS == VOICE_PERMISSIONS,
{
    assert(0x400u64 | 0x10_0000 | 0x20_0000 == 0x30_0400) by (bit_vector);
    assert((0x30_0400u64 & !granted == 0) <==> (granted & 0x30_0400u64 == 0x30_0400u64))
        by (bit_vector);
    VOICE_PERMISSIONS & !granted
}

/// The guild's setup channel, as far as it was looked up.
#[derive(Debug, Clone, Copy, PartialEq, Eq)]
pub struct SetupFacts {
    /// The channel the guild has set the bot up in, if it has.
    pub setup_id: Option<u64>,
    /// Whether the guild still has that channel; `None` when the guild is
    /// not at hand to ask.
    pub setup_in_guild: Option<bool>,
}

/// Whether a command was run where it may be run.
#[derive(Debug, Clone, Copy, PartialEq, Eq)]
pub enum ChannelCheck {
    /// The command goes on.
    Pass,
    /// The author is told to move to the setup channel.
    WrongChannel { setup_id: u64 },
    /// The author is told to set the bot up.
    NotSetup,
    /// The guild is not at hand: the command ends without a word.
    GuildUnavailable,
}

/// A command may be run in the guild's setup channel and in the text chat of
/// the voice channel its author is in. Anywhere else the author is sent to
/// the setup channel, if the guild has one that still exists.
pub open spec fn channel_check_spec(
    channel_id: u64,
    author_vc: Option<u64>,
    setup: SetupFacts,
) -> ChannelCheck {
    if setup.setup_id == Some(channel_id) || author_vc == Some(channel_id) {
        ChannelCheck::Pass
    } else {
        match (setup.setup_id, setup.setup_in_guild) {
            (Some(setup_id), Some(true)) => ChannelCheck::WrongChannel { setup_id },
            (Some(_), Some(false)) => ChannelCheck::NotSetup,
            (Some(_), None) => ChannelCheck::GuildUnavailable,
            (None, _) => ChannelCheck::NotSetup,
        }
    }
}

/// Checks that the command was run in the channel `channel_id` rightly.
pub fn channel_check(channel_id: u64, author_vc: Option<u64>, setup: SetupFacts) -> (check:
    ChannelCheck)
    ensures
        check == channel_check_spec(channel_id, author_vc, setup),
        check is Pass <==> setup.setup_id == Some(channel_id) || author_vc == Some(channel_id),
{
    let in_setup = match setup.setup_id {
        Some(setup_id) => setup_id == channel_id,
        None => false,
    };
    let in_voice_chat = match author_vc {
        Some(vc) => vc == channel_id,
        None => false,
    };
    if in_setup || in_voice_chat {
        return ChannelCheck::Pass;
    }
    match setup.setup_id {
        Some(setup_id) => match setup.setup_in_guild {
            Some(true) => ChannelCheck::WrongChannel { setup_id },
            Some(false) => ChannelCheck::NotSetup,
            None => ChannelCheck::GuildUnavailable,
        },
        None => ChannelCheck::NotSetup,
    }
}

/// The bot's own member record in the guild, as far as `join` reads it.
#[derive(Debug, Clone, Copy, PartialEq, Eq)]
pub struct BotMember {
    /// Until when the bot is timed out, if it is.
    pub communication_disabled_until: Option<i64>,
    /// The time at which the record was read, in the same unit.
    pub now: i64,
}

impl BotMember {
    /// A timeout that has not run out yet.
    pub open spec fn timed_out(self) -> bool {
        self.communication_disabled_until matches Some(until) && until > self.now
    }
}

/// What `join` knows so far. A field that is `None` on the outside has not
/// been fetched yet.
#[derive(Debug, PartialEq, Eq)]
pub struct JoinFacts {
    /// The text channel the command was run in.
    pub channel_id: u64,
    /// The voice channel the author is in.
    pub author_vc: Option<u64>,
    pub setup: Option<SetupFacts>,
    pub bot_member: Option<BotMember>,
    /// The permissions of the bot in the author's voice channel.
    pub bot_permissions: Option<u64>,
    /// The voice channel the bot is in.
    pub bot_vc: Option<Option<u64>>,
    /// What the join coordinator made of the connect.
    pub joined: Option<Result<JoinOutcome, JoinError>>,
}

/// The replies of `join`.
#[derive(Debug, Clone, Copy, PartialEq, Eq)]
pub enum JoinReply {
    /// The author is in no voice channel.
    AuthorNotInVoice,
    WrongChannel { setup_id: u64 },
    NotSetup,
    /// The bot is timed out in this guild.
    BotTimedOut,
    /// The bot lacks these permissions in the author's voice channel.
    MissingPermissions { missing: u64 },
    AlreadyInYourChannel,
    /// The bot is in another voice channel of the guild.
    AlreadyIn { channel_id: u64 },
    /// The connect timed out: the author may try again.
    JoinTimedOut,
    Joined,
}

/// What `join` does next.
#[derive(Debug, PartialEq, Eq)]
pub enum JoinStep {
    FetchSetup,
    FetchBotMember,
    /// Work out the bot's permissions in this voice channel.
    FetchBotPermissions { channel_id: u64 },
    FetchBotVoice,
    /// Join this voice channel through the join coordinator.
    Connect { channel_id: u64 },
    /// Send the reply; the command has succeeded.
    Reply(JoinReply),
    /// Say nothing; the command has succeeded.
    Silent,
    /// The command has failed.
    Fail(JoinError),
}

/// Whether nothing that `join` checks before the connect stands in its way:
/// the author is in a voice channel, the command was run in the right place,
/// the bot is not timed out, lacks no permission and is in no voice channel
/// of the guild.
pub open spec fn may_connect(facts: JoinFacts) -> bool {
    &&& facts.author_vc is Some
    &&& facts.setup matches Some(setup) && channel_check_spec(
        facts.channel_id,
        facts.author_vc,
        setup,
    ) is Pass
    &&& facts.bot_member matches Some(member) && !member.timed_out()
    &&& facts.bot_permissions matches Some(granted) && missing_from(VOICE_PERMISSIONS, granted)
        == 0
    &&& facts.bot_vc == Some(None::<u64>)
}

/// The next step of `join`. The checks come in a fixed order and the first
/// that fails ends the command; a check whose fact is missing asks for it.
pub open spec fn join_step(facts: JoinFacts) -> JoinStep {
    match (facts.author_vc, facts.setup) {
        (None, _) => JoinStep::Reply(JoinReply::AuthorNotInVoice),
        (Some(_), None) => JoinStep::FetchSetup,
        (Some(author_vc), Some(setup)) => match channel_check_spec(
            facts.channel_id,
            facts.author_vc,
            setup,
        ) {
            ChannelCheck::WrongChannel { setup_id } => JoinStep::Reply(
                JoinReply::WrongChannel { setup_id },
            ),
            ChannelCheck::NotSetup => JoinStep::Reply(JoinReply::NotSetup),
            ChannelCheck::GuildUnavailable => JoinStep::Silent,
            ChannelCheck::Pass => join_step_in_place(facts, author_vc),
        },
    }
}

/// The next step of `join` once the command is known to be run in the right
/// place: the checks on the bot itself.
pub open spec fn join_step_in_place(facts: JoinFacts, author_vc: u64) -> JoinStep {
    match (facts.bot_member, facts.bot_permissions) {
        (None, _) => JoinStep::FetchBotMember,
        (Some(member), permissions) => if member.timed_out() {
            JoinStep::Reply(JoinReply::BotTimedOut)
        } else {
            match permissions {
                None => JoinStep::FetchBotPermissions { channel_id: author_vc },
                Some(granted) => if missing_from(VOICE_PERMISSIONS, granted) != 0 {
                    JoinStep::Reply(
                        JoinReply::MissingPermissions {
                            missing: missing_from(VOICE_PERMISSIONS, granted),
                        },
                    )
                } else {
                    join_step_permitted(facts, author_vc)
                },
            }
        },
    }
}

/// The next step of `join` once the bot is known to be allowed into the
/// author's voice channel: where the bot is, then the connect and its end.
pub open spec fn join_step_permitted(facts: JoinFacts, author_vc: u64) -> JoinStep {
    match facts.bot_vc {
        None => JoinStep::FetchBotVoice,
        Some(Some(bot_vc)) => if bot_vc == author_vc {
            JoinStep::Reply(JoinReply::AlreadyInYourChannel)
        } else {
            JoinStep::Reply(JoinReply::AlreadyIn { channel_id: bot_vc })
        },
        Some(None) => match facts.joined {
            None => JoinStep::Connect { channel_id: author_vc },
            Some(Ok(JoinOutcome::Joined { .. })) => JoinStep::Reply(JoinReply::Joined),
            Some(Ok(JoinOutcome::JoinTimedOut)) => JoinStep::Reply(JoinReply::JoinTimedOut),
            Some(Err(error)) => JoinStep::Fail(error),
        },
    }
}

/// Joins the voice channel the author is in.
///
/// Says what to do next, given what is known so far. The connect is asked for
/// only when every check before it has passed, and its result alone decides
/// the end: a success and a timeout are replied to, any other failure fails
/// the command.
pub fn join(facts: &JoinFacts) -> (step: JoinStep)
    ensures
        step == join_step(*facts),
        step is Connect ==> may_connect(*facts) && facts.joined is None,
        step matches JoinStep::Connect { channel_id } ==> facts.author_vc == Some(channel_id),
        step is Fail <==> may_connect(*facts) && facts.joined matches Some(Err(_)),
{
    let author_vc = match facts.author_vc {
        Some(author_vc) => author_vc,
        None => return JoinStep::Reply(JoinReply::AuthorNotInVoice),
    };
    let setup = match facts.setup {
        Some(setup) => setup,
        None => return JoinStep::FetchSetup,
    };
    match channel_check(facts.channel_id, facts.author_vc, setup) {
        ChannelCheck::Pass => {},
        ChannelCheck::WrongChannel { setup_id } => {
            return JoinStep::Reply(JoinReply::WrongChannel { setup_id });
        },
        ChannelCheck::NotSetup => return JoinStep::Reply(JoinReply::NotSetup),
        ChannelCheck::GuildUnavailable => return JoinStep::Silent,
    }
    let member = match facts.bot_member {
        Some(member) => member,
        None => return JoinStep::FetchBotMember,
    };
    if let Some(until) = member.communication_disabled_until {
        if until > member.now {
            return JoinStep::Reply(JoinReply::BotTimedOut);
        }
    }
    let granted = match facts.bot_permissions {
        Some(granted) => granted,
        None => return JoinStep::FetchBotPermissions { channel_id: author_vc },
    };
    let missing = missing_permissions(granted);
    if missing != 0 {
        return JoinStep::Reply(JoinReply::MissingPermissions { missing });
    }
    let bot_vc = match facts.bot_vc {
        Some(bot_vc) => bot_vc,
        None => return JoinStep::FetchBotVoice,
    };
    if let Some(bot_vc) = bot_vc {
        if bot_vc == author_vc {
            return JoinStep::Reply(JoinReply::AlreadyInYourChannel);
        }
        return JoinStep::Reply(JoinReply::AlreadyIn { channel_id: bot_vc });
    }
    match &facts.joined {
        None => JoinStep::Connect { channel_id: author_vc },
        Some(Ok(JoinOutcome::Joined { .. })) => JoinStep::Reply(JoinReply::Joined),
        Some(Ok(JoinOutcome::JoinTimedOut)) => JoinStep::Reply(JoinReply::JoinTimedOut),
        Some(Err(JoinError::JoinFatal { detail })) => JoinStep::Fail(
            JoinError::JoinFatal { detail: detail.clone() },
        ),
    }
}

/// What `leave` knows so far. A field that is `None` on the outside has not
/// been fetched yet.
#[derive(Debug, PartialEq, Eq)]
pub struct LeaveFacts {
    /// The text channel the command was run in.
    pub channel_id: u64,
    /// Whether the guild is at hand to ask.
    pub guild_available: bool,
    /// The voice channel the author is in.
    pub author_vc: Option<u64>,
    /// The voice channel the bot is in.
    pub bot_vc: Option<Option<u64>>,
    pub setup: Option<SetupFacts>,
    /// What the join coordinator made of the disconnect, with the error's
    /// detail if it failed.
    pub left: Option<Result<(), String>>,
    /// Whether the guild's last speaker has been forgotten.
    pub forgot_last_speaker: bool,
}

/// The replies of `leave`.
#[derive(Debug, Clone, Copy, PartialEq, Eq)]
pub enum LeaveReply {
    /// The bot is in no voice channel.
    BotNotInVoice,
    WrongChannel { setup_id: u64 },
    NotSetup,
    /// The author is not in the voice channel the bot is in.
    NotInSameChannel,
    Left,
}

/// What `leave` does next.
#[derive(Debug, PartialEq, Eq)]
pub enum LeaveStep {
    FetchBotVoice,
    FetchSetup,
    /// Leave the voice channel through the join coordinator, which lets no
    /// disconnect run beside a connect of the guild.
    Disconnect,
    /// Forget who spoke last in the guild: the bot has left.
    ForgetLastSpeaker,
    /// Send the reply; the command has succeeded.
    Reply(LeaveReply),
    /// Say nothing; the command has succeeded.
    Silent,
    /// The command has failed, with this detail.
    Fail(String),
}

/// Whether `leave` may make the bot leave: the bot is in a voice channel, the
/// command was run in the right place and its author is in that same voice
/// channel.
pub open spec fn may_disconnect(facts: LeaveFacts) -> bool {
    &&& facts.guild_available
    &&& facts.bot_vc matches Some(Some(bot_vc)) && facts.author_vc == Some(bot_vc)
    &&& facts.setup matches Some(setup) && channel_check_spec(
        facts.channel_id,
        facts.author_vc,
        setup,
    ) is Pass
}

/// The next step of `leave`.
pub open spec fn leave_step(facts: LeaveFacts) -> LeaveStep {
    if !facts.guild_available {
        LeaveStep::Silent
    } else {
        match (facts.bot_vc, facts.setup) {
            (None, _) => LeaveStep::FetchBotVoice,
            (Some(None), _) => LeaveStep::Reply(LeaveReply::BotNotInVoice),
            (Some(Some(_)), None) => LeaveStep::FetchSetup,
            (Some(Some(bot_vc)), Some(setup)) => match channel_check_spec(
                facts.channel_id,
                facts.author_vc,
                setup,
            ) {
                ChannelCheck::WrongChannel { setup_id } => LeaveStep::Reply(
                    LeaveReply::WrongChannel { setup_id },
                ),
                ChannelCheck::NotSetup => LeaveStep::Reply(LeaveReply::NotSetup),
                ChannelCheck::GuildUnavailable => LeaveStep::Silent,
                ChannelCheck::Pass => if facts.author_vc != Some(bot_vc) {
                    LeaveStep::Reply(LeaveReply::NotInSameChannel)
                } else {
                    match facts.left {
                        None => LeaveStep::Disconnect,
                        Some(Ok(_)) => if facts.forgot_last_speaker {
                            LeaveStep::Reply(LeaveReply::Left)
                        } else {
                            LeaveStep::ForgetLastSpeaker
                        },
                        Some(Err(detail)) => LeaveStep::Fail(detail),
                    }
                },
            },
        }
    }
}

/// Leaves the voice channel the bot is in.
///
/// Says what to do next, given what is known so far. The bot leaves only at
/// the word of somebody who is in its voice channel and ran the command in
/// the right place. The last speaker is forgotten after a disconnect that
/// went through and before the reply, and at no other time.
pub fn leave(facts: &LeaveFacts) -> (step: LeaveStep)
    ensures
        step == leave_step(*facts),
        step is Disconnect <==> may_disconnect(*facts) && facts.left is None,
        step is Fail <==> may_disconnect(*facts) && facts.left matches Some(Err(_)),
        step is ForgetLastSpeaker <==> may_disconnect(*facts) && (facts.left matches Some(Ok(_)))
            && !facts.forgot_last_speaker,
        step == LeaveStep::Reply(LeaveReply::Left) <==> may_disconnect(*facts) && (
        facts.left matches Some(Ok(_))) && facts.forgot_last_speaker,
{
    if !facts.guild_available {
        return LeaveStep::Silent;
    }
    let bot_vc = match facts.bot_vc {
        None => return LeaveStep::FetchBotVoice,
        Some(None) => return LeaveStep::Reply(LeaveReply::BotNotInVoice),
        Some(Some(bot_vc)) => bot_vc,
    };
    let setup = match facts.setup {
        Some(setup) => setup,
        None => return LeaveStep::FetchSetup,
    };
    match channel_check(facts.channel_id, facts.author_vc, setup) {
        ChannelCheck::Pass => {},
        ChannelCheck::WrongChannel { setup_id } => {
            return LeaveStep::Reply(LeaveReply::WrongChannel { setup_id });
        },
        ChannelCheck::NotSetup => return LeaveStep::Reply(LeaveReply::NotSetup),
        ChannelCheck::GuildUnavailable => return LeaveStep::Silent,
    }
    let together = match facts.author_vc {
        Some(author_vc) => author_vc == bot_vc,
        None => false,
    };
    if !together {
        return LeaveStep::Reply(LeaveReply::NotInSameChannel);
    }
    match &facts.left {
        None => LeaveStep::Disconnect,
        Some(Ok(_)) => if facts.forgot_last_speaker {
            LeaveStep::Reply(LeaveReply::Left)
        } else {
            LeaveStep::ForgetLastSpeaker
        },
        Some(Err(detail)) => LeaveStep::Fail(detail.clone()),
    }
}

/// What `clear` knows so far.
#[derive(Debug, Clone, Copy, PartialEq, Eq)]
pub struct ClearFacts {
    /// The text channel the command was run in.
    pub channel_id: u64,
    /// The voice channel the author is in.
    pub author_vc: Option<u64>,
    /// Not fetched yet when `None`.
    pub setup: Option<SetupFacts>,
    /// Whether the bot has a voice session in the guild.
    pub in_voice: bool,
    /// Whether the command came as a message with the prefix, not as a slash
    /// command.
    pub prefix: bool,
}

/// How `clear` says that it is done.
#[derive(Debug, Clone, Copy, PartialEq, Eq)]
pub enum Acknowledge {
    /// React to the author's message with a thumbs-up.
    React,
    /// Say a thumbs-up: a slash command has no message to react to.
    Say,
}

/// What `clear` does next.
#[derive(Debug, Clone, Copy, PartialEq, Eq)]
pub enum ClearStep {
    FetchSetup,
    /// Empty the message queue, then acknowledge; the command has succeeded.
    Clear { acknowledge: Acknowledge },
    WrongChannel { setup_id: u64 },
    NotSetup,
    /// Reply that the bot is in no voice channel.
    NotInVoice,
    /// Say nothing; the command has succeeded.
    Silent,
}

/// Whether `clear` may empty the queue: the command was run in the right
/// place and the bot has a voice session.
pub open spec fn may_clear(facts: ClearFacts) -> bool {
    &&& facts.in_voice
    &&& facts.setup matches Some(setup) && channel_check_spec(
        facts.channel_id,
        facts.author_vc,
        setup,
    ) is Pass
}

/// The next step of `clear`.
pub open spec fn clear_step(facts: ClearFacts) -> ClearStep {
    match facts.setup {
        None => ClearStep::FetchSetup,
        Some(setup) => match channel_check_spec(facts.channel_id, facts.author_vc, setup) {
            ChannelCheck::WrongChannel { setup_id } => ClearStep::WrongChannel { setup_id },
            ChannelCheck::NotSetup => ClearStep::NotSetup,
            ChannelCheck::GuildUnavailable => ClearStep::Silent,
            ChannelCheck::Pass => if !facts.in_voice {
                ClearStep::NotInVoice
            } else if facts.prefix {
                ClearStep::Clear { acknowledge: Acknowledge::React }
            } else {
                ClearStep::Clear { acknowledge: Acknowledge::Say }
            },
        },
    }
}

/// Clears the message queue.
///
/// Says what to do next, given what is known so far. The queue is emptied
/// only when the command was run in the right place and the bot has a voice
/// session.
pub fn clear(facts: &ClearFacts) -> (step: ClearStep)
    ensures
        step == clear_step(*facts),
        step is Clear <==> may_clear(*facts),
{
    let setup = match facts.setup {
        Some(setup) => setup,
        None => return ClearStep::FetchSetup,
    };
    match channel_check(facts.channel_id, facts.author_vc, setup) {
        ChannelCheck::Pass => {},
        ChannelCheck::WrongChannel { setup_id } => return ClearStep::WrongChannel { setup_id },
        ChannelCheck::NotSetup => return ClearStep::NotSetup,
        ChannelCheck::GuildUnavailable => return ClearStep::Silent,
    }
    if !facts.in_voice {
        ClearStep::NotInVoice
    } else if facts.prefix {
        ClearStep::Clear { acknowledge: Acknowledge::React }
    } else {
        ClearStep::Clear { acknowledge: Acknowledge::Say }
    }
}

/// One of the main commands.
#[derive(Debug, Clone, Copy, PartialEq, Eq)]
pub enum Command {
    Join,
    Leave,
    Clear,
}

impl Command {
    /// What the bot must be allowed in the text channel to answer the
    /// command.
    pub open spec fn required_permissions(self) -> u64 {
        match self {
            Command::Join => SEND_MESSAGES | EMBED_LINKS,
            Command::Leave => SEND_MESSAGES,
            Command::Clear => SEND_MESSAGES | ADD_REACTIONS,
        }
    }

    /// What the bot must be allowed in the text channel to answer the
    /// command: to send messages, and to embed links for `join` and to add
    /// reactions for `clear`.
    pub fn required_bot_permissions(&self) -> (permissions: u64)
        ensures
            permissions == self.required_permissions(),
            permissions & SEND_MESSAGES == SEND_MESSAGES,
            (permissions & EMBED_LINKS == EMBED_LINKS) == (*self == Command::Join),
            (permissions & ADD_REACTIONS == ADD_REACTIONS) == (*self == Command::Clear),
    {
        assert(0x800u64 | 0x4000 == 0x4800 && 0x800u64 | 0x40 == 0x840) by (bit_vector);
        assert(0x4800u64 & 0x800 == 0x800 && 0x4800u64 & 0x4000 == 0x4000 && 0x4800u64 & 0x40
            != 0x40) by (bit_vector);
        assert(0x800u64 & 0x800 == 0x800 && 0x800u64 & 0x4000 != 0x4000 && 0x800u64 & 0x40 != 0x40)
            by (bit_vector);
        assert(0x840u64 & 0x800 == 0x800 && 0x840u64 & 0x4000 != 0x4000 && 0x840u64 & 0x40 == 0x40)
            by (bit_vector);
        match self {
            Command::Join => SEND_MESSAGES | EMBED_LINKS,
            Command::Leave => SEND_MESSAGES,
            Command::Clear => SEND_MESSAGES | ADD_REACTIONS,
        }
    }

    /// The name by which the command is called.
    pub fn name(&self) -> (name: &'static str)
        ensures
            name@ == match *self {
                Command::Join => "join"@,
                Command::Leave => "leave"@,
                Command::Clear => "clear"@,
            },
    {
        match self {
            Command::Join => "join",
            Command::Leave => "leave",
            Command::Clear => "clear",
        }
    }

    /// Another name by which the command is called: `clear` is also `skip`.
    pub fn alias(&self) -> (alias: Option<&'static str>)
        ensures
            alias is Some <==> *self == Command::Clear,
            alias matches Some(a) ==> a@ == "skip"@,
    {
        match self {
            Command::Clear => Some("skip"),
            _ => None,
        }
    }
}

/// The main commands, in the order in which they are listed.
pub fn commands() -> (all: [Command; 3])
    ensures
        all@ == seq![Command::Join, Command::Leave, Command::Clear],
{
    let all = [Command::Join, Command::Leave, Command::Clear];
    assert(all@ =~= seq![Command::Join, Command::Leave, Command::Clear]);
    all
}

} // verus!
