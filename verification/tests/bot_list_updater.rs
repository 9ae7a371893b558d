use poise::serenity_prelude::json::{to_vec, JsonMap, Value};
use reqwest::header::HeaderValue;
use tts_bot::bot_list_updater::{
    classify_post, BotListReq, BotListTokens, BotListUpdater, BroadcastTarget, Post, PostResult,
    ShardCount, TargetFailure, TargetKind, CONTENT_TYPE, MILLIS, NAME,
};
use tts_bot::decimal::push_decimal;

fn tokens(
    bots_on_discord: Option<&str>,
    top_gg: Option<&str>,
    discord_bots_gg: Option<&str>,
) -> BotListTokens {
    BotListTokens {
        top_gg: top_gg.map(String::from),
        discord_bots_gg: discord_bots_gg.map(String::from),
        bots_on_discord: bots_on_discord.map(String::from),
    }
}

fn all_three() -> BotListUpdater {
    BotListUpdater::new(tokens(Some("token a"), Some("token b"), Some("token c")))
}

fn shards(count: u32) -> ShardCount {
    ShardCount::new(count).unwrap()
}

fn json_object(fields: &[(&str, u64)]) -> Vec<u8> {
    let mut map = JsonMap::new();
    for (name, value) in fields {
        map.insert(String::from(*name), Value::from(*value));
    }
    to_vec(&Value::Object(map)).unwrap()
}

#[test]
fn a_failing_target_does_not_keep_the_others_from_their_post() {
    let updater = all_three();
    let mut tick = updater.loop_func(1, 2, 3);
    let mut posted = Vec::new();
    let mut log = Vec::new();
    while let Post::Send(req) = tick.next() {
        posted.push(req.target);
        // The second target cannot be reached.
        let result = if posted.len() == 2 {
            PostResult::TransportError(String::from("connection refused"))
        } else {
            PostResult::Status(200)
        };
        if let Some(failure) = tick.record(result) {
            log.push(failure);
        }
    }
    assert_eq!(tick.next(), Post::Done);
    assert_eq!(
        posted,
        vec![TargetKind::BotsOnDiscord, TargetKind::TopGg, TargetKind::DiscordBotsGg]
    );
    assert_eq!(
        log,
        vec![TargetFailure {
            target: TargetKind::TopGg,
            result: PostResult::TransportError(String::from("connection refused")),
        }]
    );
    assert!(tick.is_done());
}

#[test]
fn every_target_is_posted_to_even_when_all_fail() {
    let updater = all_three();
    let mut tick = updater.loop_func(1, 2, 3);
    let mut posted = 0;
    let mut failed = 0;
    while tick.next() != Post::Done {
        posted += 1;
        if tick.record(PostResult::Status(503)).is_some() {
            failed += 1;
        }
    }
    assert_eq!(posted, 3);
    assert_eq!(failed, 3);
}

#[test]
fn a_token_that_cannot_be_sent_is_the_failure_of_its_list_alone() {
    let updater = BotListUpdater::new(tokens(Some("token a"), Some("a\nb"), Some("token c")));
    assert!(updater.top_gg_data(1, 2, shards(3)).is_some());
    let mut tick = updater.loop_func(1, 2, 3);
    let mut sent = Vec::new();
    let mut log = Vec::new();
    loop {
        let result = match tick.next() {
            Post::Send(req) => {
                sent.push(req.target);
                PostResult::Status(200)
            },
            Post::Unsendable(kind) => {
                assert_eq!(kind, TargetKind::TopGg);
                PostResult::Unsendable
            },
            Post::Done => break,
        };
        if let Some(failure) = tick.record(result) {
            log.push(failure);
        }
    }
    assert_eq!(sent, vec![TargetKind::BotsOnDiscord, TargetKind::DiscordBotsGg]);
    assert_eq!(
        log,
        vec![TargetFailure { target: TargetKind::TopGg, result: PostResult::Unsendable }]
    );
}

#[test]
fn a_post_that_cannot_be_sent_has_failed_whatever_is_reported() {
    let updater = BotListUpdater::new(tokens(None, None, Some("bad\u{7f}")));
    let mut tick = updater.loop_func(1, 2, 3);
    assert_eq!(tick.next(), Post::Unsendable(TargetKind::DiscordBotsGg));
    assert_eq!(
        tick.record(PostResult::Status(200)),
        Some(TargetFailure { target: TargetKind::DiscordBotsGg, result: PostResult::Unsendable })
    );
    assert_eq!(tick.next(), Post::Done);
}

#[test]
fn without_tokens_a_tick_posts_nothing() {
    let updater = BotListUpdater::new(tokens(None, None, None));
    let mut tick = updater.loop_func(1, 2, 3);
    assert_eq!(tick.next(), Post::Done);
    assert!(tick.is_done());
    // A result that nothing asked for is not taken for a failure.
    assert_eq!(tick.record(PostResult::Status(500)), None);
    assert_eq!(tick.next(), Post::Done);
}

#[test]
fn without_a_shard_the_list_that_takes_none_is_still_posted_to() {
    let updater = all_three();
    let mut tick = updater.loop_func(1, 2, 0);
    match tick.next() {
        Post::Send(req) => {
            assert_eq!(req.target, TargetKind::BotsOnDiscord);
            assert_eq!(req.body, Vec::from(*b"{\"guildCount\":2}"));
        },
        other => panic!("{other:?}"),
    }
    assert_eq!(tick.record(PostResult::Status(200)), None);
    assert_eq!(tick.next(), Post::Unsendable(TargetKind::TopGg));
    assert_eq!(
        tick.record(PostResult::Unsendable),
        Some(TargetFailure { target: TargetKind::TopGg, result: PostResult::Unsendable })
    );
    assert_eq!(tick.next(), Post::Unsendable(TargetKind::DiscordBotsGg));
    assert_eq!(
        tick.record(PostResult::Status(204)),
        Some(TargetFailure { target: TargetKind::DiscordBotsGg, result: PostResult::Unsendable })
    );
    assert_eq!(tick.next(), Post::Done);

    let mut tick = updater.loop_func(1, 2, u32::MAX);
    let mut sent = 0;
    while let Post::Send(_) = tick.next() {
        sent += 1;
        tick.record(PostResult::Status(200));
    }
    assert_eq!(sent, 3);
}

#[test]
fn a_target_without_a_token_is_skipped() {
    let updater = BotListUpdater::new(tokens(None, Some("only top.gg"), None));
    let mut tick = updater.loop_func(9, 8, 7);
    match tick.next() {
        Post::Send(req) => {
            assert_eq!(req.target, TargetKind::TopGg);
            assert_eq!(req.token, "only top.gg");
        },
        other => panic!("{other:?}"),
    }
    assert_eq!(tick.record(PostResult::Status(204)), None);
    assert_eq!(tick.next(), Post::Done);

    assert_eq!(updater.bots_on_discord_data(9, 8), None);
    assert_eq!(updater.discord_bots_gg_data(9, 8, shards(7)), None);
    assert!(updater.top_gg_data(9, 8, shards(7)).is_some());
}

#[test]
fn the_request_to_top_gg() {
    let req = all_three().top_gg_data(513423712582762502, 1500, shards(12)).unwrap();
    assert_eq!(
        req,
        BotListReq {
            target: TargetKind::TopGg,
            url: String::from("https://top.gg/api/bots/513423712582762502/stats"),
            body: Vec::from(*b"{\"server_count\":1500,\"shard_count\":12}"),
            token: String::from("token b"),
        }
    );
}

#[test]
fn the_request_to_discord_bots_gg() {
    let req = all_three().discord_bots_gg_data(513423712582762502, 1500, shards(12)).unwrap();
    assert_eq!(
        req,
        BotListReq {
            target: TargetKind::DiscordBotsGg,
            url: String::from("https://discord.bots.gg/api/v1/bots/513423712582762502/stats"),
            body: Vec::from(*b"{\"guildCount\":1500,\"shardCount\":12}"),
            token: String::from("token c"),
        }
    );
}

#[test]
fn the_request_to_bots_on_discord() {
    let req = all_three().bots_on_discord_data(513423712582762502, 1500).unwrap();
    assert_eq!(
        req,
        BotListReq {
            target: TargetKind::BotsOnDiscord,
            url: String::from("https://bots.ondiscord.xyz/bot-api/bots/513423712582762502/guilds"),
            body: Vec::from(*b"{\"guildCount\":1500}"),
            token: String::from("token a"),
        }
    );
}

#[test]
fn the_bodies_are_what_the_json_serializer_writes() {
    let updater = all_three();
    let cases: [(usize, u32); 6] =
        [(0, 1), (1, 1), (9, 10), (10, 99), (123_456_789, 65_536), (usize::MAX, u32::MAX)];
    for (guilds, shard_count) in cases {
        let g = guilds as u64;
        let s = u64::from(shard_count);
        let top_gg = updater.top_gg_data(1, guilds, shards(shard_count)).unwrap();
        assert_eq!(top_gg.body, json_object(&[("server_count", g), ("shard_count", s)]));
        let dbgg = updater.discord_bots_gg_data(1, guilds, shards(shard_count)).unwrap();
        assert_eq!(dbgg.body, json_object(&[("guildCount", g), ("shardCount", s)]));
        let bod = updater.bots_on_discord_data(1, guilds).unwrap();
        assert_eq!(bod.body, json_object(&[("guildCount", g)]));
    }
}

#[test]
fn numbers_are_written_in_decimal() {
    for n in [0u64, 7, 9, 10, 11, 99, 100, 101, 4_294_967_296, u64::MAX] {
        let mut text = String::from("n=");
        push_decimal(&mut text, n);
        assert_eq!(text, format!("n={n}"));
    }
    let mut text = String::new();
    push_decimal(&mut text, 18_446_744_073_709_551_615);
    assert_eq!(text, "18446744073709551615");
}

fn sendable(token: &str) -> bool {
    BroadcastTarget::new(TargetKind::TopGg, String::from(token)).is_sendable()
}

fn first_post_is_sent(token: &str) -> bool {
    let updater = BotListUpdater::new(tokens(None, None, Some(token)));
    let tick = updater.loop_func(1, 2, 3);
    matches!(tick.next(), Post::Send(_))
}

#[test]
fn tokens_are_tested_as_header_values() {
    let usable = [
        "abc",
        "Bearer abc.def-ghi_jkl",
        "",
        " ",
        "\twith tab",
        "~",
        "caf\u{e9}",
        "\u{80}",
        "\u{7ff}\u{ffff}\u{10ffff}",
    ];
    for token in usable {
        assert!(HeaderValue::from_str(token).is_ok(), "{token:?}");
        assert!(sendable(token), "{token:?}");
        assert!(first_post_is_sent(token), "{token:?}");
    }
    let unusable = ["line\nbreak", "\r", "\0", "\u{1f}", "del\u{7f}", "a\u{b}b"];
    for token in unusable {
        assert!(HeaderValue::from_str(token).is_err(), "{token:?}");
        assert!(!sendable(token), "{token:?}");
        assert!(!first_post_is_sent(token), "{token:?}");
    }
}

#[test]
fn a_post_that_is_sent_has_a_token_that_makes_a_header_value() {
    let updater = all_three();
    let mut tick = updater.loop_func(1, 2, 3);
    while let Post::Send(req) = tick.next() {
        let value = HeaderValue::from_str(&req.token).unwrap();
        assert_eq!(value.as_bytes(), req.token.as_bytes());
        tick.record(PostResult::Status(200));
    }
    assert!(tick.is_done());
}

#[test]
fn only_2xx_is_a_success() {
    for status in [200u16, 201, 204, 250, 299] {
        assert_eq!(classify_post(TargetKind::TopGg, PostResult::Status(status)), None);
    }
    for status in [0u16, 100, 199, 300, 301, 304, 400, 401, 404, 429, 500, 503, 599, 600, u16::MAX]
    {
        assert_eq!(
            classify_post(TargetKind::DiscordBotsGg, PostResult::Status(status)),
            Some(TargetFailure {
                target: TargetKind::DiscordBotsGg,
                result: PostResult::Status(status),
            })
        );
    }
    assert_eq!(
        classify_post(TargetKind::BotsOnDiscord, PostResult::TransportError(String::from("dns"))),
        Some(TargetFailure {
            target: TargetKind::BotsOnDiscord,
            result: PostResult::TransportError(String::from("dns")),
        })
    );
    assert_eq!(
        classify_post(TargetKind::TopGg, PostResult::Unsendable),
        Some(TargetFailure { target: TargetKind::TopGg, result: PostResult::Unsendable })
    );
}

#[test]
fn there_are_no_zero_shards() {
    assert_eq!(ShardCount::new(0), None);
    assert_eq!(ShardCount::new(1).unwrap().get(), 1);
    assert_eq!(ShardCount::new(u32::MAX).unwrap().get(), u32::MAX);
}

#[test]
fn the_interval_is_one_hour() {
    assert_eq!(MILLIS, 3_600_000);
    assert_eq!(NAME, "Bot List Updater");
    assert_eq!(CONTENT_TYPE, "application/json");
}

#[test]
fn the_targets_are_the_lists_with_a_token() {
    let found = tokens(Some("a"), None, Some("c")).targets();
    let kinds: Vec<TargetKind> = found.iter().map(BroadcastTarget::kind).collect();
    let secrets: Vec<&str> = found.iter().map(BroadcastTarget::token).collect();
    assert_eq!(kinds, vec![TargetKind::BotsOnDiscord, TargetKind::DiscordBotsGg]);
    assert_eq!(secrets, vec!["a", "c"]);

    assert_eq!(tokens(None, None, None).targets(), Vec::new());

    // A token that cannot be sent does not take the other lists away.
    let all = tokens(Some("a"), Some("b\nb"), Some("c")).targets();
    let kinds: Vec<TargetKind> = all.iter().map(BroadcastTarget::kind).collect();
    let sendable: Vec<bool> = all.iter().map(BroadcastTarget::is_sendable).collect();
    assert_eq!(
        kinds,
        vec![TargetKind::BotsOnDiscord, TargetKind::TopGg, TargetKind::DiscordBotsGg]
    );
    assert_eq!(sendable, vec![true, false, true]);
}

#[test]
fn a_target_builds_the_request_of_its_list() {
    let updater = all_three();
    let target = BroadcastTarget::new(TargetKind::TopGg, String::from("token b"));
    assert_eq!(target.kind(), TargetKind::TopGg);
    assert_eq!(target.token(), "token b");
    assert_eq!(Some(target.request(7, 8, shards(9))), updater.top_gg_data(7, 8, shards(9)));

    let target = BroadcastTarget::new(TargetKind::BotsOnDiscord, String::from("token a"));
    assert_eq!(Some(target.request(7, 8, shards(9))), updater.bots_on_discord_data(7, 8));
    assert_eq!(target.request(7, 8, shards(9)).body, Vec::from(*b"{\"guildCount\":8}"));

    let target = BroadcastTarget::new(TargetKind::DiscordBotsGg, String::from("token c"));
    assert_eq!(
        Some(target.request(7, 8, shards(9))),
        updater.discord_bots_gg_data(7, 8, shards(9))
    );
}
