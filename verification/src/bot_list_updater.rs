//! The statistics broadcaster: once per hour the bot's guild and shard counts
//! are posted to every bot list that a token is configured for.
//!
//! [`BotListUpdater::loop_func`] plans the posts of one tick, whatever the
//! tokens are. [`Broadcast::next`] says what is done with the post at hand:
//! the caller sends it, or gives it up when its token cannot go into a
//! header, and reports to [`Broadcast::record`]. A post that fails is handed
//! back for the log and the tick goes on with the next.

use crate::decimal::{decimal, push_decimal};
use crate::json::{
    ascii_bytes, field_models, field_text, fields_text, json_object, object_text, plainly_named,
    JsonField,
};
use crate::looper::LoopDescriptor;
use vstd::prelude::*;
use vstd::string::StringExecFns;
use vstd::utf8::encode_utf8;

verus! {

/// The name under which the broadcaster's failures are logged.
pub const NAME: &'static str = "Bot List Updater";

/// The time between two ticks of the broadcaster: one hour.
pub const MILLIS: u64 = 1000 * 60 * 60;

/// The content type that every post is sent with: the body is JSON.
pub const CONTENT_TYPE: &'static str = "application/json";

/// A byte that may stand in the value of an HTTP header: a tab, or anything
/// from the space on but the delete character.
pub open spec fn is_header_byte(b: u8) -> bool {
    b == 9 || (b >= 32 && b != 127)
}

/// Whether every byte may stand in the value of an HTTP header.
pub open spec fn is_header_value(bytes: Seq<u8>) -> bool {
    forall|i: int| 0 <= i < bytes.len() ==> is_header_byte(#[trigger] bytes[i])
}

/// Whether `reqwest::header::HeaderValue::from_str` accepts `token`.
///
/// It does so exactly when every byte of the string's UTF-8 form is a tab,
/// or at least 32 and not 127; it looks at nothing else.
#[verifier::external_body]
fn header_value_accepts(token: &str) -> (ok: bool)
    ensures
        ok == is_header_value(encode_utf8(token@)),
{
    reqwest::header::HeaderValue::from_str(token).is_ok()
}

/// The number of shards the bot runs on, which is never zero.
#[derive(Debug, Clone, Copy, PartialEq, Eq)]
pub struct ShardCount {
    count: u32,
}

impl ShardCount {
    #[verifier::type_invariant]
    spec fn positive(&self) -> bool {
        self.count > 0
    }

    pub closed spec fn value(&self) -> u32 {
        self.count
    }

    /// `None` for zero.
    pub fn new(count: u32) -> (shards: Option<ShardCount>)
        ensures
            count == 0 <==> shards is None,
            shards matches Some(s) ==> s.value() == count,
    {
        if count == 0 {
            None
        } else {
            Some(ShardCount { count })
        }
    }

    pub fn get(&self) -> (count: u32)
        ensures
            count == self.value(),
            count > 0,
    {
        proof {
            use_type_invariant(self);
        }
        self.count
    }
}

/// The bot lists that statistics can be posted to.
#[derive(Debug, Clone, Copy, PartialEq, Eq)]
pub enum TargetKind {
    BotsOnDiscord,
    TopGg,
    DiscordBotsGg,
}

/// The tokens of the bot lists. A list without a token is not posted to.
#[derive(Debug, PartialEq, Eq)]
pub struct BotListTokens {
    pub top_gg: Option<String>,
    pub discord_bots_gg: Option<String>,
    pub bots_on_discord: Option<String>,
}

impl BotListTokens {
    /// The token of one list.
    pub open spec fn token(&self, kind: TargetKind) -> Option<Seq<char>> {
        let token = match kind {
            TargetKind::BotsOnDiscord => self.bots_on_discord,
            TargetKind::TopGg => self.top_gg,
            TargetKind::DiscordBotsGg => self.discord_bots_gg,
        };
        match token {
            Some(t) => Some(t@),
            None => None,
        }
    }

    /// The lists that statistics are posted to: those with a token, in the
    /// order in which they are posted to, whatever the tokens are.
    pub fn targets(&self) -> (targets: Vec<BroadcastTarget>)
        ensures
            target_models(targets@) == active(*self),
    {
        let mut found: Vec<BroadcastTarget> = Vec::new();
        if let Some(token) = &self.bots_on_discord {
            found.push(BroadcastTarget::new(TargetKind::BotsOnDiscord, token.clone()));
        }
        if let Some(token) = &self.top_gg {
            found.push(BroadcastTarget::new(TargetKind::TopGg, token.clone()));
        }
        if let Some(token) = &self.discord_bots_gg {
            found.push(BroadcastTarget::new(TargetKind::DiscordBotsGg, token.clone()));
        }
        assert(target_models(found@) =~= active(*self));
        found
    }
}

/// One list that statistics are posted to: which one, and the token for it.
/// There is no target without a token. A target never changes.
#[derive(Debug, PartialEq, Eq)]
pub struct BroadcastTarget {
    kind: TargetKind,
    token: String,
}

impl BroadcastTarget {
    pub closed spec fn kind_spec(&self) -> TargetKind {
        self.kind
    }

    pub closed spec fn token_spec(&self) -> Seq<char> {
        self.token@
    }

    /// The target `kind` with this token.
    pub fn new(kind: TargetKind, token: String) -> (target: BroadcastTarget)
        ensures
            target.kind_spec() == kind,
            target.token_spec() == token@,
    {
        BroadcastTarget { kind, token }
    }

    pub fn kind(&self) -> (kind: TargetKind)
        ensures
            kind == self.kind_spec(),
    {
        self.kind
    }

    pub fn token(&self) -> (token: &str)
        ensures
            token@ == self.token_spec(),
    {
        self.token.as_str()
    }

    /// Whether the token can be sent as the value of the authorization
    /// header. A post to a target whose token cannot be sent fails before it
    /// is sent.
    pub fn is_sendable(&self) -> (ok: bool)
        ensures
            ok == is_header_value(encode_utf8(self.token_spec())),
    {
        header_value_accepts(self.token.as_str())
    }

    /// The request that carries the statistics to this target.
    pub fn request(&self, bot_id: u64, guild_count: usize, shard_count: ShardCount) -> (req:
        BotListReq)
        ensures
            req@ == request_for(
                self.kind_spec(),
                self.token_spec(),
                bot_id,
                guild_count as nat,
                shard_count.value() as nat,
            ),
    {
        BotListReq {
            target: self.kind,
            url: url(self.kind, bot_id),
            body: payload(self.kind, guild_count, shard_count.get()),
            token: self.token.clone(),
        }
    }
}

/// Which list each target is and the token it has.
pub open spec fn target_models(targets: Seq<BroadcastTarget>) -> Seq<(TargetKind, Seq<char>)> {
    Seq::new(targets.len(), |i: int| (targets[i].kind_spec(), targets[i].token_spec()))
}

/// The list `kind` as a sequence: one target with a token, none without.
pub open spec fn active_for(tokens: BotListTokens, kind: TargetKind) -> Seq<
    (TargetKind, Seq<char>),
> {
    match tokens.token(kind) {
        Some(t) => seq![(kind, t)],
        None => Seq::empty(),
    }
}

/// The lists that have a token, in the order in which they are posted to.
pub open spec fn active(tokens: BotListTokens) -> Seq<(TargetKind, Seq<char>)> {
    active_for(tokens, TargetKind::BotsOnDiscord) + active_for(tokens, TargetKind::TopGg)
        + active_for(tokens, TargetKind::DiscordBotsGg)
}

/// The address that the statistics of the bot `bot_id` are posted to.
pub open spec fn url_of(kind: TargetKind, bot_id: u64) -> Seq<char> {
    match kind {
        TargetKind::BotsOnDiscord => "https://bots.ondiscord.xyz/bot-api/bots/"@ + decimal(
            bot_id as nat,
        ) + "/guilds"@,
        TargetKind::TopGg => "https://top.gg/api/bots/"@ + decimal(bot_id as nat) + "/stats"@,
        TargetKind::DiscordBotsGg => "https://discord.bots.gg/api/v1/bots/"@ + decimal(
            bot_id as nat,
        ) + "/stats"@,
    }
}

/// The statistics that a list takes, under the names it knows them by. One
/// of the lists takes no shard count.
pub open spec fn payload_fields(kind: TargetKind, guild_count: nat, shard_count: nat) -> Seq<
    (Seq<char>, nat),
> {
    match kind {
        TargetKind::BotsOnDiscord => seq![("guildCount"@, guild_count)],
        TargetKind::TopGg => seq![("server_count"@, guild_count), ("shard_count"@, shard_count)],
        TargetKind::DiscordBotsGg => seq![("guildCount"@, guild_count), ("shardCount"@, shard_count)],
    }
}

/// The JSON text that carries the statistics to a list.
pub open spec fn payload_of(kind: TargetKind, guild_count: nat, shard_count: nat) -> Seq<char> {
    object_text(payload_fields(kind, guild_count, shard_count))
}

/// The payloads written out.
pub proof fn lemma_payload_texts(guild_count: nat, shard_count: nat)
    ensures
        payload_of(TargetKind::BotsOnDiscord, guild_count, shard_count) == "{\"guildCount\":"@
            + decimal(guild_count) + "}"@,
        payload_of(TargetKind::TopGg, guild_count, shard_count) == "{\"server_count\":"@ + decimal(
            guild_count,
        ) + ",\"shard_count\":"@ + decimal(shard_count) + "}"@,
        payload_of(TargetKind::DiscordBotsGg, guild_count, shard_count) == "{\"guildCount\":"@
            + decimal(guild_count) + ",\"shardCount\":"@ + decimal(shard_count) + "}"@,
{
    reveal_strlit("guildCount");
    reveal_strlit("server_count");
    reveal_strlit("shard_count");
    reveal_strlit("shardCount");
    reveal_strlit("{\"guildCount\":");
    reveal_strlit("{\"server_count\":");
    reveal_strlit(",\"shard_count\":");
    reveal_strlit(",\"shardCount\":");
    reveal_strlit("}");
    let g = decimal(guild_count);
    let n = decimal(shard_count);
    let one = payload_fields(TargetKind::BotsOnDiscord, guild_count, shard_count);
    let top = payload_fields(TargetKind::TopGg, guild_count, shard_count);
    let dbgg = payload_fields(TargetKind::DiscordBotsGg, guild_count, shard_count);
    assert(top.drop_last() =~= seq![("server_count"@, guild_count)]);
    assert(dbgg.drop_last() =~= seq![("guildCount"@, guild_count)]);
    assert(fields_text(top.drop_last()) == field_text("server_count"@, guild_count));
    assert(fields_text(dbgg.drop_last()) == field_text("guildCount"@, guild_count));
    assert(fields_text(top) =~= field_text("server_count"@, guild_count) + seq![','] + field_text(
        "shard_count"@,
        shard_count,
    ));
    assert(fields_text(dbgg) =~= field_text("guildCount"@, guild_count) + seq![','] + field_text(
        "shardCount"@,
        shard_count,
    ));
    assert(object_text(one) =~= "{\"guildCount\":"@ + g + "}"@);
    assert(object_text(top) =~= "{\"server_count\":"@ + g + ",\"shard_count\":"@ + n
        + "}"@);
    assert(object_text(dbgg) =~= "{\"guildCount\":"@ + g + ",\"shardCount\":"@ + n + "}"@);
}

/// What a request is made of, as plain values.
pub struct RequestModel {
    pub target: TargetKind,
    pub url: Seq<char>,
    pub body: Seq<u8>,
    pub token: Seq<char>,
}

impl RequestModel {
    /// Whether the token can be sent as the value of the authorization
    /// header.
    pub open spec fn sendable(self) -> bool {
        is_header_value(encode_utf8(self.token))
    }
}

/// The request that carries the statistics to one list.
pub open spec fn request_for(
    kind: TargetKind,
    token: Seq<char>,
    bot_id: u64,
    guild_count: nat,
    shard_count: nat,
) -> RequestModel {
    RequestModel {
        target: kind,
        url: url_of(kind, bot_id),
        body: ascii_bytes(payload_of(kind, guild_count, shard_count)),
        token,
    }
}

/// One HTTP POST: where to, with which JSON body, and the token that is the
/// value of the authorization header. The content type is [`CONTENT_TYPE`].
#[derive(Debug, PartialEq, Eq)]
pub struct BotListReq {
    pub target: TargetKind,
    pub url: String,
    pub body: Vec<u8>,
    pub token: String,
}

impl View for BotListReq {
    type V = RequestModel;

    open spec fn view(&self) -> RequestModel {
        RequestModel { target: self.target, url: self.url@, body: self.body@, token: self.token@ }
    }
}

/// Builds the address for one list.
fn url(kind: TargetKind, bot_id: u64) -> (url: String)
    ensures
        url@ == url_of(kind, bot_id),
{
    let (head, tail) = match kind {
        TargetKind::BotsOnDiscord => ("https://bots.ondiscord.xyz/bot-api/bots/", "/guilds"),
        TargetKind::TopGg => ("https://top.gg/api/bots/", "/stats"),
        TargetKind::DiscordBotsGg => ("https://discord.bots.gg/api/v1/bots/", "/stats"),
    };
    let mut url = String::from_str(head);
    push_decimal(&mut url, bot_id);
    url.append(tail);
    url
}

/// The names of the statistics are plain, and where a list takes two, the
/// first comes before the second.
proof fn lemma_payload_fields_are_plainly_named(
    kind: TargetKind,
    guild_count: nat,
    shard_count: nat,
)
    ensures
        plainly_named(payload_fields(kind, guild_count, shard_count)),
{
    reveal_strlit("guildCount");
    reveal_strlit("server_count");
    reveal_strlit("shard_count");
    reveal_strlit("shardCount");
    // They part at the second letter and at the first.
    assert("server_count"@.take(1) =~= "shard_count"@.take(1));
    assert("guildCount"@.take(0) =~= "shardCount"@.take(0));
}

/// Builds the JSON body for one list.
fn payload(kind: TargetKind, guild_count: usize, shard_count: u32) -> (body: Vec<u8>)
    ensures
        body@ == ascii_bytes(payload_of(kind, guild_count as nat, shard_count as nat)),
{
    let guilds: u64 = guild_count as u64;
    let shards: u64 = shard_count as u64;
    let mut fields: Vec<JsonField> = Vec::new();
    match kind {
        TargetKind::BotsOnDiscord => {
            fields.push(JsonField { name: "guildCount", value: guilds });
        },
        TargetKind::TopGg => {
            fields.push(JsonField { name: "server_count", value: guilds });
            fields.push(JsonField { name: "shard_count", value: shards });
        },
        TargetKind::DiscordBotsGg => {
            fields.push(JsonField { name: "guildCount", value: guilds });
            fields.push(JsonField { name: "shardCount", value: shards });
        },
    }
    proof {
        lemma_payload_fields_are_plainly_named(kind, guild_count as nat, shard_count as nat);
        assert(field_models(fields@) =~= payload_fields(
            kind,
            guild_count as nat,
            shard_count as nat,
        ));
    }
    json_object(&fields)
}

/// Builds the request for one list from its token, if it has one.
fn request(
    kind: TargetKind,
    token: &Option<String>,
    bot_id: u64,
    guild_count: usize,
    shard_count: u32,
) -> (req: Option<BotListReq>)
    ensures
        match req {
            Some(r) => token matches Some(t) && r@ == request_for(
                kind,
                t@,
                bot_id,
                guild_count as nat,
                shard_count as nat,
            ),
            None => token is None,
        },
{
    match token {
        Some(t) => Some(
            BotListReq {
                target: kind,
                url: url(kind, bot_id),
                body: payload(kind, guild_count, shard_count),
                token: t.clone(),
            },
        ),
        None => None,
    }
}

/// The request for one list as a sequence: one request with a token, none
/// without.
pub open spec fn planned_for(
    tokens: BotListTokens,
    kind: TargetKind,
    bot_id: u64,
    guild_count: nat,
    shard_count: nat,
) -> Seq<RequestModel> {
    match tokens.token(kind) {
        Some(t) => seq![request_for(kind, t, bot_id, guild_count, shard_count)],
        None => Seq::empty(),
    }
}

/// The posts of one tick, in the order in which they are sent.
pub open spec fn planned(
    tokens: BotListTokens,
    bot_id: u64,
    guild_count: nat,
    shard_count: nat,
) -> Seq<RequestModel> {
    planned_for(tokens, TargetKind::BotsOnDiscord, bot_id, guild_count, shard_count)
        + planned_for(tokens, TargetKind::TopGg, bot_id, guild_count, shard_count) + planned_for(
        tokens,
        TargetKind::DiscordBotsGg,
        bot_id,
        guild_count,
        shard_count,
    )
}

/// How many lists have a token.
pub open spec fn configured(tokens: BotListTokens) -> nat {
    (if tokens.bots_on_discord is Some {
        1nat
    } else {
        0nat
    }) + (if tokens.top_gg is Some {
        1nat
    } else {
        0nat
    }) + (if tokens.discord_bots_gg is Some {
        1nat
    } else {
        0nat
    })
}

/// What one POST came to.
#[derive(Debug, PartialEq, Eq)]
pub enum PostResult {
    /// A response arrived, with this status code.
    Status(u16),
    /// No response arrived.
    TransportError(String),
    /// Nothing was sent: the list's token cannot be the value of a header,
    /// or the list takes a shard count and there is none to report.
    Unsendable,
}

/// A post that failed, for the log.
#[derive(Debug, PartialEq, Eq)]
pub struct TargetFailure {
    pub target: TargetKind,
    pub result: PostResult,
}

/// A post has failed when it could not be sent, when no response arrived or
/// when the status is not one of the 2xx codes.
pub open spec fn is_failure(result: PostResult) -> bool {
    match result {
        PostResult::Status(status) => !(200 <= status < 300),
        PostResult::TransportError(_) => true,
        PostResult::Unsendable => true,
    }
}

/// What is handed back for the log when the post to `target` came to
/// `result`.
pub open spec fn failure_of(target: TargetKind, result: PostResult) -> Option<TargetFailure> {
    if is_failure(result) {
        Some(TargetFailure { target, result })
    } else {
        None
    }
}

/// Whether the list takes the number of shards.
pub open spec fn takes_shard_count(kind: TargetKind) -> bool {
    kind != TargetKind::BotsOnDiscord
}

/// Whether `post` can be sent in a tick that reports `shard_count` shards:
/// its token can go into a header, and a list that takes a shard count is
/// given one that is not zero.
pub open spec fn can_be_sent(post: RequestModel, shard_count: nat) -> bool {
    post.sendable() && (takes_shard_count(post.target) ==> shard_count > 0)
}

/// What is handed back for the log when `result` is reported for `post`. A
/// post that cannot be sent has failed as unsendable, whatever is reported.
pub open spec fn recorded(post: RequestModel, shard_count: nat, result: PostResult) -> Option<
    TargetFailure,
> {
    if can_be_sent(post, shard_count) {
        failure_of(post.target, result)
    } else {
        Some(TargetFailure { target: post.target, result: PostResult::Unsendable })
    }
}

/// Posts the bot's statistics to the bot lists, once per hour.
pub struct BotListUpdater {
    tokens: BotListTokens,
}

impl BotListUpdater {
    pub closed spec fn tokens(&self) -> BotListTokens {
        self.tokens
    }

    #[must_use]
    pub fn new(tokens: BotListTokens) -> (updater: BotListUpdater)
        ensures
            updater.tokens() == tokens,
    {
        BotListUpdater { tokens }
    }

    /// The job that the periodic task runner is given: its name and the
    /// interval of one hour.
    pub fn descriptor() -> (descriptor: LoopDescriptor)
        ensures
            descriptor.name_spec() == NAME@,
            descriptor.interval() == MILLIS,
            descriptor.interval() == 3_600_000,
    {
        match LoopDescriptor::new(String::from_str(NAME), MILLIS) {
            Some(descriptor) => descriptor,
            None => vstd::pervasive::unreached(),
        }
    }

    /// The request to top.gg, or `None` without a token for it.
    pub fn top_gg_data(&self, bot_id: u64, guild_count: usize, shard_count: ShardCount) -> (req:
        Option<BotListReq>)
        ensures
            match req {
                Some(r) => self.tokens().token(TargetKind::TopGg) matches Some(t) && r@
                    == request_for(
                    TargetKind::TopGg,
                    t,
                    bot_id,
                    guild_count as nat,
                    shard_count.value() as nat,
                ),
                None => self.tokens().token(TargetKind::TopGg) is None,
            },
    {
        request(TargetKind::TopGg, &self.tokens.top_gg, bot_id, guild_count, shard_count.get())
    }

    /// The request to discord.bots.gg, or `None` without a token for it.
    pub fn discord_bots_gg_data(
        &self,
        bot_id: u64,
        guild_count: usize,
        shard_count: ShardCount,
    ) -> (req: Option<BotListReq>)
        ensures
            match req {
                Some(r) => self.tokens().token(TargetKind::DiscordBotsGg) matches Some(t) && r@
                    == request_for(
                    TargetKind::DiscordBotsGg,
                    t,
                    bot_id,
                    guild_count as nat,
                    shard_count.value() as nat,
                ),
                None => self.tokens().token(TargetKind::DiscordBotsGg) is None,
            },
    {
        request(
            TargetKind::DiscordBotsGg,
            &self.tokens.discord_bots_gg,
            bot_id,
            guild_count,
            shard_count.get(),
        )
    }

    /// The request to bots.ondiscord.xyz, or `None` without a token for it.
    /// This list takes no shard count.
    pub fn bots_on_discord_data(&self, bot_id: u64, guild_count: usize) -> (req: Option<
        BotListReq,
    >)
        ensures
            match req {
                Some(r) => self.tokens().token(TargetKind::BotsOnDiscord) matches Some(t)
                    && forall|shard_count: nat|
                    r@ == #[trigger] request_for(
                        TargetKind::BotsOnDiscord,
                        t,
                        bot_id,
                        guild_count as nat,
                        shard_count,
                    ),
                None => self.tokens().token(TargetKind::BotsOnDiscord) is None,
            },
    {
        request(TargetKind::BotsOnDiscord, &self.tokens.bots_on_discord, bot_id, guild_count, 1)
    }

    /// Begins one tick: plans one post for each list that has a token, in
    /// the order bots.ondiscord.xyz, top.gg, discord.bots.gg, whatever the
    /// tokens and the counts are. Nothing has been sent yet.
    pub fn loop_func(&self, bot_id: u64, guild_count: usize, shard_count: u32) -> (tick:
        Broadcast)
        ensures
            tick.plan() == planned(self.tokens(), bot_id, guild_count as nat, shard_count as nat),
            tick.plan().len() == configured(self.tokens()),
            tick.shards() == shard_count,
            tick.sent() == 0,
    {
        let mut requests: Vec<BotListReq> = Vec::new();
        if let Some(req) = request(
            TargetKind::BotsOnDiscord,
            &self.tokens.bots_on_discord,
            bot_id,
            guild_count,
            shard_count,
        ) {
            requests.push(req);
        }
        if let Some(req) = request(
            TargetKind::TopGg,
            &self.tokens.top_gg,
            bot_id,
            guild_count,
            shard_count,
        ) {
            requests.push(req);
        }
        if let Some(req) = request(
            TargetKind::DiscordBotsGg,
            &self.tokens.discord_bots_gg,
            bot_id,
            guild_count,
            shard_count,
        ) {
            requests.push(req);
        }
        let tick = Broadcast { requests, sent: 0, shard_count };
        assert(tick.plan() =~= planned(
            self.tokens(),
            bot_id,
            guild_count as nat,
            shard_count as nat,
        ));
        tick
    }
}

/// What is done with the post at hand.
#[derive(Debug, PartialEq, Eq)]
pub enum Post<'a> {
    /// Send this request, then report what came of it.
    Send(&'a BotListReq),
    /// Send nothing: the token of this list cannot be the value of a header,
    /// or the list takes a shard count and there is none to report. Report
    /// [`PostResult::Unsendable`].
    Unsendable(TargetKind),
    /// The tick is over.
    Done,
}

/// One tick of the broadcaster: the posts that were planned and how many of
/// them have been sent.
pub struct Broadcast {
    requests: Vec<BotListReq>,
    sent: usize,
    shard_count: u32,
}

impl Broadcast {
    #[verifier::type_invariant]
    spec fn in_range(&self) -> bool {
        self.sent <= self.requests@.len()
    }

    /// The posts of this tick, in the order in which they are sent.
    pub closed spec fn plan(&self) -> Seq<RequestModel> {
        Seq::new(self.requests@.len(), |i: int| self.requests@[i]@)
    }

    /// The number of shards that the tick reports.
    pub closed spec fn shards(&self) -> u32 {
        self.shard_count
    }

    /// How many posts have been sent and reported.
    pub closed spec fn sent(&self) -> nat {
        self.sent as nat
    }

    /// Says what is done with the post at hand: it is sent if its token can
    /// be sent, and given up as that list's failure if not. Either way the
    /// tick goes on with [`Broadcast::record`]. After the last post the tick
    /// is over.
    pub fn next(&self) -> (post: Post<'_>)
        ensures
            self.sent() <= self.plan().len(),
            match post {
                Post::Send(r) => next_post(self.plan(), self.sent()) == Some(r@) && can_be_sent(
                    r@,
                    self.shards() as nat,
                ),
                Post::Unsendable(kind) => next_post(self.plan(), self.sent()) matches Some(m)
                    && !can_be_sent(m, self.shards() as nat) && m.target == kind,
                Post::Done => next_post(self.plan(), self.sent()) is None,
            },
    {
        proof {
            use_type_invariant(self);
        }
        if self.sent < self.requests.len() {
            let req = &self.requests[self.sent];
            if post_can_be_sent(req, self.shard_count) {
                Post::Send(req)
            } else {
                Post::Unsendable(req.target)
            }
        } else {
            Post::Done
        }
    }

    /// Whether every post of the tick has been sent.
    pub fn is_done(&self) -> (done: bool)
        ensures
            done == (self.sent() >= self.plan().len()),
    {
        self.sent >= self.requests.len()
    }

    /// Takes the result of the post at hand and moves on to the next post,
    /// whether this one failed or not. A failure is handed back for the log;
    /// a post that could not be sent is a failure whatever is reported for
    /// it. With the tick over nothing changes.
    pub fn record(&mut self, result: PostResult) -> (failure: Option<TargetFailure>)
        ensures
            final(self).plan() == old(self).plan(),
            final(self).sent() == sent_after(old(self).plan().len(), old(self).sent()),
            failure == match next_post(old(self).plan(), old(self).sent()) {
                Some(post) => recorded(post, old(self).shards() as nat, result),
                None => None,
            },
            final(self).shards() == old(self).shards(),
    {
        proof {
            use_type_invariant(&*self);
        }
        if self.sent < self.requests.len() {
            let target = self.requests[self.sent].target;
            let sendable = post_can_be_sent(&self.requests[self.sent], self.shard_count);
            self.sent = self.sent + 1;
            if sendable {
                classify_post(target, result)
            } else {
                Some(TargetFailure { target, result: PostResult::Unsendable })
            }
        } else {
            None
        }
    }
}

/// Tests whether a post can be sent in a tick that reports `shard_count`
/// shards.
fn post_can_be_sent(req: &BotListReq, shard_count: u32) -> (ok: bool)
    ensures
        ok == can_be_sent(req@, shard_count as nat),
{
    let with_shards = match req.target {
        TargetKind::BotsOnDiscord => true,
        TargetKind::TopGg => shard_count > 0,
        TargetKind::DiscordBotsGg => shard_count > 0,
    };
    with_shards && header_value_accepts(req.token.as_str())
}

/// The post that is sent next when `sent` posts of `plan` have been sent: the
/// next of the plan, until all are sent.
pub open spec fn next_post(plan: Seq<RequestModel>, sent: nat) -> Option<RequestModel> {
    if sent < plan.len() {
        Some(plan[sent as int])
    } else {
        None
    }
}

/// How many posts have been sent after one more result was reported: one
/// more, until all are sent.
pub open spec fn sent_after(planned: nat, sent: nat) -> nat {
    if sent < planned {
        sent + 1
    } else {
        sent
    }
}

/// Tells a failed post from one that went through.
pub fn classify_post(target: TargetKind, result: PostResult) -> (failure: Option<TargetFailure>)
    ensures
        failure == failure_of(target, result),
{
    let failed = match &result {
        PostResult::Status(status) => *status < 200 || *status >= 300,
        PostResult::TransportError(_) => true,
        PostResult::Unsendable => true,
    };
    if failed {
        Some(TargetFailure { target, result })
    } else {
        None
    }
}

/// How many posts have been sent after the results of `results.len()` posts
/// were reported one by one.
pub open spec fn sent_after_all(planned: nat, results: Seq<PostResult>) -> nat
    decreases results.len(),
{
    if results.len() == 0 {
        0
    } else {
        sent_after(planned, sent_after_all(planned, results.drop_last()))
    }
}

/// The failures handed back for the log while the results of the posts of
/// `plan` were reported one by one.
pub open spec fn failures(
    plan: Seq<RequestModel>,
    shard_count: nat,
    results: Seq<PostResult>,
) -> Seq<TargetFailure>
    decreases results.len(),
{
    if results.len() == 0 {
        Seq::empty()
    } else {
        let before = results.drop_last();
        let sent = sent_after_all(plan.len(), before);
        let failure = match next_post(plan, sent) {
            Some(post) => recorded(post, shard_count, results.last()),
            None => None,
        };
        match failure {
            Some(f) => failures(plan, shard_count, before).push(f),
            None => failures(plan, shard_count, before),
        }
    }
}

/// One failing list does not keep the others from their post.
///
/// Whatever the tokens are and whatever the posts so far came to, the post
/// at hand is the next of the plan: after `results.len()` results, failures
/// or not, sent or unsendable, that many posts have been dealt with, each
/// list's once and in the planned order, and never more than were planned. The failures handed back are at most one per
/// result. With no list configured the plan is empty: no post is sent and no
/// failure handed back.
pub proof fn lemma_every_target_is_posted_once(
    plan: Seq<RequestModel>,
    shard_count: nat,
    results: Seq<PostResult>,
)
    ensures
        results.len() <= plan.len() ==> sent_after_all(plan.len(), results) == results.len(),
        results.len() >= plan.len() ==> sent_after_all(plan.len(), results) == plan.len(),
        results.len() < plan.len() ==> next_post(plan, sent_after_all(plan.len(), results))
            == Some(plan[results.len() as int]),
        results.len() >= plan.len() ==> next_post(plan, sent_after_all(plan.len(), results))
            is None,
        failures(plan, shard_count, results).len() <= results.len(),
        plan.len() == 0 ==> failures(plan, shard_count, results) == Seq::<TargetFailure>::empty(),
    decreases results.len(),
{
    if results.len() > 0 {
        lemma_every_target_is_posted_once(plan, shard_count, results.drop_last());
    }
}

/// The posts that went through leave no trace; each that failed is handed
/// back with its list and its result, and each that could not be sent with
/// its list, as unsendable.
pub proof fn lemma_failures_name_their_target(
    plan: Seq<RequestModel>,
    shard_count: nat,
    results: Seq<PostResult>,
    result: PostResult,
)
    requires
        results.len() < plan.len(),
    ensures
        failures(plan, shard_count, results.push(result)) == match recorded(
            plan[results.len() as int],
            shard_count,
            result,
        ) {
            Some(f) => failures(plan, shard_count, results).push(f),
            None => failures(plan, shard_count, results),
        },
        !can_be_sent(plan[results.len() as int], shard_count) ==> failures(
            plan,
            shard_count,
            results.push(result),
        ) == failures(plan, shard_count, results).push(
            TargetFailure { target: plan[results.len() as int].target, result: PostResult::Unsendable },
        ),
{
    lemma_every_target_is_posted_once(plan, shard_count, results);
    assert(results.push(result).drop_last() =~= results);
}

/// A tick plans one post for each configured list and none for the others.
pub proof fn lemma_plan_has_one_post_per_token(
    tokens: BotListTokens,
    bot_id: u64,
    guild_count: nat,
    shard_count: nat,
    kind: TargetKind,
)
    ensures
        planned(tokens, bot_id, guild_count, shard_count).len() == configured(tokens),
        configured(tokens) == 0 ==> planned(tokens, bot_id, guild_count, shard_count)
            == Seq::<RequestModel>::empty(),
        tokens.token(kind) is Some <==> exists|i: int|
            0 <= i < planned(tokens, bot_id, guild_count, shard_count).len() && (#[trigger] planned(
                tokens,
                bot_id,
                guild_count,
                shard_count,
            )[i]).target == kind,
        forall|i: int, j: int|
            0 <= i < j < planned(tokens, bot_id, guild_count, shard_count).len() ==> (#[trigger] planned(
                tokens,
                bot_id,
                guild_count,
                shard_count,
            )[i]).target != (#[trigger] planned(tokens, bot_id, guild_count, shard_count)[j]).target,
{
    let a = planned_for(tokens, TargetKind::BotsOnDiscord, bot_id, guild_count, shard_count);
    let b = planned_for(tokens, TargetKind::TopGg, bot_id, guild_count, shard_count);
    let c = planned_for(tokens, TargetKind::DiscordBotsGg, bot_id, guild_count, shard_count);
    let plan = planned(tokens, bot_id, guild_count, shard_count);
    assert(plan == a + b + c);
    if tokens.token(kind) is Some {
        let i = match kind {
            TargetKind::BotsOnDiscord => 0int,
            TargetKind::TopGg => a.len() as int,
            TargetKind::DiscordBotsGg => (a.len() + b.len()) as int,
        };
        assert(plan[i].target == kind);
    }
    if configured(tokens) == 0 {
        assert(plan =~= Seq::<RequestModel>::empty());
    }
}

/// A tick posts to the targets that the tokens give, and to each its own
/// request.
pub proof fn lemma_plan_follows_targets(
    tokens: BotListTokens,
    bot_id: u64,
    guild_count: nat,
    shard_count: nat,
)
    ensures
        planned(tokens, bot_id, guild_count, shard_count).len() == active(tokens).len(),
        forall|i: int|
            0 <= i < active(tokens).len() ==> (#[trigger] planned(
                tokens,
                bot_id,
                guild_count,
                shard_count,
            )[i]) == request_for(
                active(tokens)[i].0,
                active(tokens)[i].1,
                bot_id,
                guild_count,
                shard_count,
            ),
{
}

} // verus!
