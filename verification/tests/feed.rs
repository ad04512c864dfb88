use prismoid::batch::{
    parse_batch, tagged_platform, Badge, EmoteMeta, EmoteSpan, ParseOutcome, Platform, Provider,
    UnifiedMessage, SIDECAR_BINARY, SIGNAL_WAIT_TIMEOUT, TAG_KICK, TAG_TWITCH, TAG_YOUTUBE,
};
use serde_json::Value;

fn millis(time: &str) -> i64 {
    chrono::DateTime::parse_from_rfc3339(time).unwrap().timestamp_millis()
}

/// A message whose only detail is the payload's own id, where it has one.
type Message = UnifiedMessage<Option<String>>;

fn message(
    platform: Platform,
    v: &Value,
    name: &Value,
    text: &Value,
    time: &str,
) -> ParseOutcome<Option<String>> {
    match (name.as_str(), text.as_str()) {
        (Some(name), Some(text)) => ParseOutcome::Message(UnifiedMessage {
            platform,
            display_name: name.to_string(),
            message_text: text.to_string(),
            badges: Vec::new(),
            emote_spans: Vec::new(),
            timestamp: millis(time),
            arrival_time: chrono::Utc::now().timestamp_millis(),
            effective_ts: 0,
            arrival_seq: 0,
            details: v["id"].as_str().map(str::to_string),
        }),
        _ => ParseOutcome::Failed,
    }
}

/// A parser for each platform, as far as the payloads here go.
fn parse(platform: Platform, data: &[u8]) -> ParseOutcome<Option<String>> {
    let Ok(v) = serde_json::from_slice::<Value>(data) else {
        return ParseOutcome::Failed;
    };
    match platform {
        Platform::Twitch => {
            if v["metadata"]["message_type"] != "notification" {
                return ParseOutcome::NotChat;
            }
            let event = &v["payload"]["event"];
            let time = v["metadata"]["message_timestamp"].as_str().unwrap();
            message(platform, &v, &event["chatter_user_name"], &event["message"]["text"], time)
        }
        Platform::YouTube => {
            let snippet = &v["snippet"];
            let time = snippet["published_at"].as_str().unwrap();
            let text = &snippet["text_message_details"]["message_text"];
            message(platform, &v, &v["author_details"]["display_name"], text, time)
        }
        Platform::Kick => {
            let Ok(v) = serde_json::from_str::<Value>(v["data"].as_str().unwrap()) else {
                return ParseOutcome::Failed;
            };
            let time = v["created_at"].as_str().unwrap();
            message(platform, &v, &v["sender"]["username"], &v["content"], time)
        }
    }
}

/// No emotes are known.
fn plain(_text: &str, spans: Vec<EmoteSpan>) -> Vec<EmoteSpan> {
    spans
}

/// The platform's time, unless it is far from the time of arrival.
fn snap(timestamp: i64, arrival_time: i64) -> i64 {
    if (timestamp - arrival_time).abs() <= 5_000 {
        timestamp
    } else {
        arrival_time
    }
}

fn run(raw: &[Vec<u8>], batch: &mut Vec<Message>) {
    parse_batch(raw, batch, parse, plain, snap);
}

fn tagged(tag: u8, json: &[u8]) -> Vec<u8> {
    let mut v = vec![tag];
    v.extend_from_slice(json);
    v
}

fn tag_twitch(json: &[u8]) -> Vec<u8> {
    tagged(TAG_TWITCH, json)
}

fn tag_youtube(json: &[u8]) -> Vec<u8> {
    tagged(TAG_YOUTUBE, json)
}

#[test]
fn parse_batch_filters_non_chat_and_parse_errors() {
    let viewer = tag_twitch(br##"{
            "metadata": {"message_id":"m","message_type":"notification","message_timestamp":"2023-11-06T18:11:47.492Z"},
            "payload": {
                "subscription": {"type":"channel.chat.message"},
                "event": {
                    "chatter_user_id":"1","chatter_user_login":"u","chatter_user_name":"U",
                    "message_id":"mid","message":{"text":"hi"}
                }
            }
        }"##);
    let keepalive = tag_twitch(br##"{"metadata":{"message_id":"ka","message_type":"session_keepalive","message_timestamp":"2023-11-06T18:11:49.000Z"},"payload":{}}"##);
    let junk = tag_twitch(b"not json");

    let raw = vec![viewer, keepalive, junk];
    let mut batch = Vec::new();
    run(&raw, &mut batch);
    assert_eq!(batch.len(), 1);
    assert_eq!(batch[0].message_text, "hi");
    assert!(batch[0].emote_spans.is_empty());
}

#[test]
fn parse_batch_empty_input() {
    let mut batch = Vec::new();
    run(&[], &mut batch);
    assert!(batch.is_empty());
}

#[test]
fn parse_batch_appends_to_existing_scratch() {
    let viewer = tag_twitch(br##"{
            "metadata": {"message_id":"m","message_type":"notification","message_timestamp":"2023-11-06T18:11:47.492Z"},
            "payload": {
                "subscription": {"type":"channel.chat.message"},
                "event": {
                    "chatter_user_id":"1","chatter_user_login":"u","chatter_user_name":"U",
                    "message_id":"mid","message":{"text":"second"}
                }
            }
        }"##);

    let mut batch = Vec::new();
    run(std::slice::from_ref(&viewer), &mut batch);
    assert_eq!(batch.len(), 1);
    assert_eq!(batch[0].message_text, "second");

    run(std::slice::from_ref(&viewer), &mut batch);
    assert_eq!(batch.len(), 2);
    assert_eq!(batch[1].message_text, "second");
}

#[test]
fn parse_batch_attaches_emote_spans_from_index() {
    let viewer = tag_twitch(br##"{
            "metadata": {"message_id":"m","message_type":"notification","message_timestamp":"2023-11-06T18:11:47.492Z"},
            "payload": {
                "subscription": {"type":"channel.chat.message"},
                "event": {
                    "chatter_user_id":"1","chatter_user_login":"u","chatter_user_name":"U",
                    "message_id":"mid","message":{"text":"hello Kappa world"}
                }
            }
        }"##);

    let kappa = EmoteMeta {
        id: "1".into(),
        code: "Kappa".into(),
        provider: Provider::Twitch,
        url_1x: "https://t/1".into(),
        url_2x: "".into(),
        url_4x: "".into(),
        width: 28,
        height: 28,
        animated: false,
        zero_width: false,
    };
    let scan = |text: &str, mut spans: Vec<EmoteSpan>| {
        if let Some(start) = text.find(&kappa.code) {
            spans.push(EmoteSpan {
                start,
                end: start + kappa.code.len(),
                emote: kappa.clone(),
            });
        }
        spans
    };

    let mut batch = Vec::new();
    parse_batch(std::slice::from_ref(&viewer), &mut batch, parse, scan, snap);
    assert_eq!(batch.len(), 1);
    assert_eq!(batch[0].emote_spans.len(), 1);
    let span = &batch[0].emote_spans[0];
    assert_eq!(span.start, 6);
    assert_eq!(span.end, 11);
    assert_eq!(span.emote.code, "Kappa");
}

#[test]
fn parse_batch_routes_youtube_messages() {
    let yt_msg = tag_youtube(br##"{"id":"yt-1","snippet":{"type":"TEXT_MESSAGE_EVENT","published_at":"2024-01-01T00:00:00Z","display_message":"hello from yt","text_message_details":{"message_text":"hello from yt"}},"author_details":{"channel_id":"UC123","display_name":"YTUser","is_chat_owner":false,"is_chat_moderator":false,"is_chat_sponsor":false}}"##);

    let mut batch = Vec::new();
    run(std::slice::from_ref(&yt_msg), &mut batch);
    assert_eq!(batch.len(), 1);
    assert_eq!(batch[0].message_text, "hello from yt");
    assert!(matches!(batch[0].platform, Platform::YouTube));
    assert_eq!(batch[0].display_name, "YTUser");
    assert_eq!(batch[0].details.as_deref(), Some("yt-1"));
}

#[test]
fn parse_batch_mixed_platforms() {
    let twitch = tag_twitch(br##"{"metadata":{"message_id":"m","message_type":"notification","message_timestamp":"2023-11-06T18:11:47.492Z"},"payload":{"subscription":{"type":"channel.chat.message"},"event":{"chatter_user_id":"1","chatter_user_login":"u","chatter_user_name":"U","message_id":"mid","message":{"text":"from twitch"}}}}"##);
    let yt = tag_youtube(br##"{"id":"yt-1","snippet":{"type":"TEXT_MESSAGE_EVENT","published_at":"2024-01-01T00:00:00Z","text_message_details":{"message_text":"from youtube"}},"author_details":{"channel_id":"UC1","display_name":"YT"}}"##);

    let raw = vec![twitch, yt];
    let mut batch = Vec::new();
    run(&raw, &mut batch);
    assert_eq!(batch.len(), 2);
    assert!(matches!(batch[0].platform, Platform::Twitch));
    assert!(matches!(batch[1].platform, Platform::YouTube));
}

#[test]
fn parse_batch_handles_kick_messages() {
    let json = br##"{"event":"App\\Events\\ChatMessageEvent","data":"{\"id\":\"k1\",\"chatroom_id\":100,\"content\":\"hello from kick\",\"type\":\"message\",\"created_at\":\"2025-06-01T12:00:00Z\",\"sender\":{\"id\":42,\"username\":\"kuser\",\"slug\":\"kuser\",\"identity\":{\"color\":\"#00FF00\",\"badges\":[]}}}","channel":"chatrooms.100.v2"}"##;
    let kick_msg = tagged(TAG_KICK, json);

    let mut batch = Vec::new();
    run(std::slice::from_ref(&kick_msg), &mut batch);
    assert_eq!(batch.len(), 1);
    assert_eq!(batch[0].message_text, "hello from kick");
    assert!(matches!(batch[0].platform, Platform::Kick));
}

#[test]
fn parse_batch_skips_empty_payloads() {
    let raw = vec![vec![]];
    let mut batch = Vec::new();
    run(&raw, &mut batch);
    assert!(batch.is_empty());
}

#[test]
fn parse_batch_unknown_tag_dropped() {
    let mut payload = vec![0xFF];
    payload.extend_from_slice(b"{}");
    let raw = vec![payload];
    let mut batch = Vec::new();
    run(&raw, &mut batch);
    assert!(batch.is_empty());
}

#[test]
fn parse_batch_stamps_effective_ts_using_snap_rule() {
    let viewer = tag_twitch(br##"{
            "metadata": {"message_id":"m","message_type":"notification","message_timestamp":"2023-11-06T18:11:47.492Z"},
            "payload": {
                "subscription": {"type":"channel.chat.message"},
                "event": {
                    "chatter_user_id":"1","chatter_user_login":"u","chatter_user_name":"U",
                    "message_id":"mid","message":{"text":"hi"}
                }
            }
        }"##);

    let mut batch = Vec::new();
    run(std::slice::from_ref(&viewer), &mut batch);
    assert_eq!(batch.len(), 1);
    // A stale platform time falls back to the time of arrival.
    assert_eq!(batch[0].effective_ts, batch[0].arrival_time);
    // The place among messages of the same time is given later.
    assert_eq!(batch[0].arrival_seq, 0);
}

/// A parser that takes the payload itself for the text.
fn echo(platform: Platform, data: &[u8]) -> ParseOutcome<usize> {
    match data {
        b"panic" => ParseOutcome::Panicked,
        b"fail" => ParseOutcome::Failed,
        b"skip" => ParseOutcome::NotChat,
        _ => ParseOutcome::Message(UnifiedMessage {
            platform,
            display_name: String::new(),
            message_text: String::from_utf8(data.to_vec()).unwrap(),
            badges: vec![Badge { set_id: "moderator".into(), id: "1".into() }],
            emote_spans: Vec::new(),
            timestamp: 5,
            arrival_time: 7,
            effective_ts: -1,
            arrival_seq: 9,
            details: data.len(),
        }),
    }
}

#[test]
fn what_a_parser_drops_is_dropped_and_the_rest_keeps_its_order() {
    let raw: Vec<Vec<u8>> = ["a", "panic", "b", "fail", "skip", "", "c"]
        .iter()
        .map(|s| tagged(TAG_KICK, s.as_bytes()))
        .collect();
    let mut batch = Vec::new();
    parse_batch(&raw, &mut batch, echo, plain, |t: i64, a: i64| t * 10 + a);
    let texts: Vec<&str> = batch.iter().map(|m| m.message_text.as_str()).collect();
    assert_eq!(texts, vec!["a", "b", "", "c"]);
    for m in &batch {
        assert_eq!((m.timestamp, m.arrival_time, m.effective_ts, m.arrival_seq), (5, 7, 57, 9));
        // Badges and details are handed through.
        assert_eq!(m.badges.len(), 1);
        assert_eq!((m.badges[0].set_id.as_str(), m.badges[0].id.as_str()), ("moderator", "1"));
        assert_eq!(m.details, m.message_text.len());
    }

    // Cutting the stream anywhere gives the same messages.
    let mut cut = Vec::new();
    parse_batch(&raw[..3], &mut cut, echo, plain, |t: i64, a: i64| t * 10 + a);
    parse_batch(&raw[3..], &mut cut, echo, plain, |t: i64, a: i64| t * 10 + a);
    let cut_texts: Vec<&str> = cut.iter().map(|m| m.message_text.as_str()).collect();
    assert_eq!(cut_texts, texts);
}

#[test]
fn tags_stand_for_platforms() {
    assert_eq!(tagged_platform(0x01), Some(Platform::Twitch));
    assert_eq!(tagged_platform(0x02), Some(Platform::Kick));
    assert_eq!(tagged_platform(0x03), Some(Platform::YouTube));
    assert_eq!(tagged_platform(0x00), None);
    assert_eq!(tagged_platform(0x04), None);
    assert_eq!(SIDECAR_BINARY, "sidecar");
    assert_eq!(SIGNAL_WAIT_TIMEOUT, 100);
}
