use prismoid::auth_error::{AuthError, YouTubeAuthError};
use prismoid::commands::{
    duration_to_send, moderation_command, twitch_moderation_action, twitch_moderation_reply, twitch_send_message,
    twitch_send_reply, validate_message, validate_youtube_message, youtube_send_message,
    youtube_send_reply, TwitchModerationAction, MAX_CHAT_MESSAGE_BYTES, MAX_TIMEOUT_SECONDS,
    MAX_YOUTUBE_MESSAGE_CHARS,
};
use prismoid::errors::SendCommandError;
use prismoid::events::SendChatResult;
use prismoid::sender::SidecarCommandSender;
use prismoid::tokens::TwitchTokens;
use tokio::sync::oneshot;

/// A child that keeps what is written to it.
type Child = Vec<u8>;

fn write(child: &mut Child, line: &[u8]) -> Result<(), String> {
    child.extend_from_slice(line);
    Ok(())
}

fn broken(_child: &mut Child, _line: &[u8]) -> Result<(), String> {
    Err("pipe closed".to_string())
}

fn make_result(ok: bool, drop_code: &str, drop_message: &str, error: &str) -> SendChatResult {
    SendChatResult {
        request_id: 1,
        ok,
        message_id: if ok { "abc".into() } else { String::new() },
        drop_code: drop_code.into(),
        drop_message: drop_message.into(),
        error_message: error.into(),
    }
}

fn tokens() -> TwitchTokens {
    TwitchTokens {
        access_token: "at".into(),
        refresh_token: "rt".into(),
        expires_at_ms: 1,
        scopes: Vec::new(),
        user_id: "uid".into(),
        login: "login".into(),
    }
}

fn running() -> SidecarCommandSender<Child> {
    let mut sender = SidecarCommandSender::default();
    sender.publish(Vec::new());
    sender
}

#[test]
fn auth_mapping_no_tokens_is_not_logged_in() {
    let mapped = SendCommandError::auth(AuthError::NoTokens);
    assert!(matches!(mapped, SendCommandError::NotLoggedIn { .. }));
}

#[test]
fn auth_mapping_refresh_invalid_is_not_logged_in() {
    let mapped = SendCommandError::auth(AuthError::RefreshTokenInvalid);
    assert!(matches!(mapped, SendCommandError::NotLoggedIn { .. }));
}

#[test]
fn auth_mapping_other_is_auth() {
    let mapped = SendCommandError::auth(AuthError::OAuth("boom".into()));
    assert!(matches!(mapped, SendCommandError::Auth { .. }));
}

#[test]
fn youtube_auth_mapping_no_tokens_is_not_logged_in() {
    let mapped = SendCommandError::youtube_auth(YouTubeAuthError::NoTokens);
    assert!(matches!(mapped, SendCommandError::NotLoggedIn { .. }));
}

#[test]
fn youtube_auth_mapping_refresh_invalid_is_not_logged_in() {
    let mapped = SendCommandError::youtube_auth(YouTubeAuthError::RefreshTokenInvalid);
    assert!(matches!(mapped, SendCommandError::NotLoggedIn { .. }));
}

#[test]
fn youtube_auth_mapping_other_is_auth() {
    let mapped = SendCommandError::youtube_auth(YouTubeAuthError::OAuth("boom".into()));
    assert!(matches!(mapped, SendCommandError::Auth { .. }));
}

#[test]
fn auth_failures_keep_their_words() {
    for err in [
        AuthError::UserDenied,
        AuthError::DeviceCodeExpired,
        AuthError::OAuth("boom".into()),
        AuthError::Config("missing".into()),
    ] {
        let words = err.message();
        assert!(!words.is_empty());
        assert!(matches!(SendCommandError::auth(err), SendCommandError::Auth { message } if message == words));
    }
    assert!(AuthError::OAuth("boom".into()).message().contains("boom"));
    assert_eq!(AuthError::Config("missing".into()).message(), "missing");
    assert!(YouTubeAuthError::OAuth("bang".into()).message().contains("bang"));
}

#[test]
fn validate_youtube_message_rejects_empty() {
    assert!(matches!(validate_youtube_message("   "), Err(SendCommandError::EmptyMessage)));
}

#[test]
fn validate_youtube_message_rejects_over_200_chars() {
    let too_long = "a".repeat(201);
    match validate_youtube_message(&too_long) {
        Err(SendCommandError::MessageTooLongChars { max_chars }) => {
            assert_eq!(max_chars, MAX_YOUTUBE_MESSAGE_CHARS);
        }
        other => panic!("expected MessageTooLongChars, got {other:?}"),
    }
}

#[test]
fn validate_youtube_message_counts_chars_not_bytes() {
    // 200 emoji are about 800 bytes, which a limit on bytes would reject.
    let s = "🎉".repeat(200);
    assert_eq!(validate_youtube_message(&s).unwrap(), s.as_str());
}

#[test]
fn validate_youtube_message_trims_surrounding_whitespace() {
    assert_eq!(validate_youtube_message("  hi  ").unwrap(), "hi");
}

#[test]
fn from_send_result_ok_returns_message_id() {
    let ok = SendCommandError::from_send_result(make_result(true, "", "", ""))
        .expect("ok result must succeed");
    assert_eq!(ok.message_id, "abc");
}

#[test]
fn from_send_result_drop_maps_to_helix() {
    match SendCommandError::from_send_result(make_result(false, "msg_duplicate", "duplicate", ""))
        .unwrap_err()
    {
        SendCommandError::Helix { code, message } => {
            assert_eq!(code, "msg_duplicate");
            assert_eq!(message, "duplicate");
        }
        other => panic!("expected Helix, got {other:?}"),
    }
}

#[test]
fn from_send_result_error_only_maps_to_helix() {
    match SendCommandError::from_send_result(make_result(false, "", "", "401")).unwrap_err() {
        SendCommandError::Helix { code, message } => {
            assert!(code.is_empty());
            assert_eq!(message, "401");
        }
        other => panic!("expected Helix, got {other:?}"),
    }
}

#[test]
fn from_youtube_send_result_ok_returns_message_id() {
    let ok = SendCommandError::from_youtube_send_result(make_result(true, "", "", ""))
        .expect("ok result must succeed");
    assert_eq!(ok.message_id, "abc");
}

#[test]
fn from_youtube_send_result_drop_maps_to_youtube_variant() {
    match SendCommandError::from_youtube_send_result(make_result(
        false,
        "unauthorized",
        "needs reauth",
        "",
    ))
    .unwrap_err()
    {
        SendCommandError::YouTube { code, message } => {
            assert_eq!(code, "unauthorized");
            assert_eq!(message, "needs reauth");
        }
        other => panic!("expected YouTube, got {other:?}"),
    }
}

#[test]
fn from_youtube_send_result_error_only_maps_to_youtube_variant() {
    match SendCommandError::from_youtube_send_result(make_result(false, "", "", "transport"))
        .unwrap_err()
    {
        SendCommandError::YouTube { code, message } => {
            assert!(code.is_empty());
            assert_eq!(message, "transport");
        }
        other => panic!("expected YouTube, got {other:?}"),
    }
}

#[test]
fn silent_refusals_get_a_stock_phrase() {
    for (r, words) in [
        (make_result(false, "code", "", "ignored"), "message rejected"),
        (make_result(false, "", "", ""), "send failed"),
        (make_result(false, "", "dropped", "ignored"), "dropped"),
    ] {
        match SendCommandError::from_send_result(r).unwrap_err() {
            SendCommandError::Helix { message, .. } => assert_eq!(message, words),
            other => panic!("expected Helix, got {other:?}"),
        }
    }
}

#[test]
fn validate_message_trims_and_returns_inner() {
    assert_eq!(validate_message("  hi  ").unwrap(), "hi");
}

#[test]
fn validate_message_rejects_empty() {
    assert!(matches!(validate_message("   ").unwrap_err(), SendCommandError::EmptyMessage));
    assert!(matches!(validate_message("").unwrap_err(), SendCommandError::EmptyMessage));
}

#[test]
fn validate_message_rejects_oversize() {
    let big = "a".repeat(MAX_CHAT_MESSAGE_BYTES + 1);
    match validate_message(&big).unwrap_err() {
        SendCommandError::MessageTooLong { max_bytes } => {
            assert_eq!(max_bytes, MAX_CHAT_MESSAGE_BYTES);
        }
        other => panic!("expected MessageTooLong, got {other:?}"),
    }
}

#[test]
fn validate_message_accepts_exactly_max_bytes() {
    let max = "a".repeat(MAX_CHAT_MESSAGE_BYTES);
    assert!(validate_message(&max).is_ok());
}

#[test]
fn validate_message_counts_bytes_of_the_trimmed_text() {
    let emoji = "🎉".repeat(125);
    let padded = format!("\u{3000}\u{2003} {emoji}\n\u{85}");
    assert_eq!(validate_message(&padded).unwrap(), emoji);
    assert_eq!(validate_message(&emoji).unwrap(), emoji);
    let longer = format!("{emoji}a");
    assert!(matches!(validate_message(&longer), Err(SendCommandError::MessageTooLong { .. })));
    assert_eq!(validate_message(" a \t b ").unwrap(), "a \t b");
    // A zero width space is no white space.
    assert_eq!(validate_message("\u{200b}").unwrap(), "\u{200b}");
}

#[test]
fn sending_writes_one_line_and_registers() {
    let mut sender = running();
    let (tx, mut rx) = oneshot::channel();
    twitch_send_message(&mut sender, "cid", Ok(tokens()), " hi ", tx, write).unwrap();
    assert_eq!(
        sender.child.as_ref().unwrap(),
        b"{\"cmd\":\"send_chat_message\",\"client_id\":\"cid\",\"token\":\"at\",\"broadcaster_id\":\"uid\",\"user_id\":\"uid\",\"message\":\"hi\",\"request_id\":1}\n"
    );
    assert_eq!(sender.pending.map.len(), 1);
    sender.complete_send_chat(make_result(true, "", "", ""));
    let reply = rx.try_recv().ok();
    assert_eq!(twitch_send_reply(reply).unwrap().message_id, "abc");
    assert!(sender.pending.map.is_empty());
}

#[test]
fn sending_to_youtube_writes_its_own_line() {
    let mut sender = running();
    let (first, _rx) = oneshot::channel();
    twitch_send_message(&mut sender, "cid", Ok(tokens()), "x", first, write).unwrap();
    sender.publish(Vec::new());
    let (tx, mut rx) = oneshot::channel();
    youtube_send_message(&mut sender, Ok("yt".into()), "chat", " hi ", tx, write).unwrap();
    assert_eq!(
        sender.child.as_ref().unwrap(),
        b"{\"cmd\":\"youtube_send_message\",\"token\":\"yt\",\"live_chat_id\":\"chat\",\"message\":\"hi\",\"request_id\":2}\n"
    );
    let mut r = make_result(false, "quota_exceeded", "", "");
    r.request_id = 2;
    sender.complete_send_chat(r);
    match youtube_send_reply(rx.try_recv().ok()).unwrap_err() {
        SendCommandError::YouTube { code, message } => {
            assert_eq!((code.as_str(), message.as_str()), ("quota_exceeded", "message rejected"));
        }
        other => panic!("expected YouTube, got {other:?}"),
    }
    assert_eq!(sender.pending.map.len(), 1);
}

#[test]
fn the_text_is_checked_before_the_tokens() {
    let mut sender = running();
    let (tx, _rx) = oneshot::channel();
    let err = twitch_send_message(&mut sender, "c", Err(AuthError::NoTokens), " ", tx, write)
        .unwrap_err();
    assert!(matches!(err, SendCommandError::EmptyMessage));
    let (tx, _rx) = oneshot::channel();
    let err = twitch_send_message(&mut sender, "c", Err(AuthError::NoTokens), "x", tx, write)
        .unwrap_err();
    assert!(matches!(err, SendCommandError::NotLoggedIn { .. }));
    let (tx, _rx) = oneshot::channel();
    let failed = Err(YouTubeAuthError::OAuth("down".into()));
    let err = youtube_send_message(&mut sender, failed, "chat", "x", tx, write).unwrap_err();
    assert!(matches!(err, SendCommandError::Auth { message } if message.contains("down")));
    let (tx, _rx) = oneshot::channel();
    let long = "a".repeat(201);
    let err = youtube_send_message(&mut sender, Ok("t".into()), "chat", &long, tx, write)
        .unwrap_err();
    assert!(matches!(err, SendCommandError::MessageTooLongChars { max_chars: 200 }));
    assert!(sender.child.as_ref().unwrap().is_empty());
    assert_eq!(sender.pending.next_id, 1);
    assert!(sender.pending.map.is_empty());
}

#[test]
fn a_failed_write_takes_the_request_back() {
    let mut sender = running();
    let (tx, mut rx) = oneshot::channel();
    match twitch_send_message(&mut sender, "c", Ok(tokens()), "x", tx, broken).unwrap_err() {
        SendCommandError::Io { message } => assert_eq!(message, "pipe closed"),
        other => panic!("expected Io, got {other:?}"),
    }
    assert!(sender.pending.map.is_empty());
    assert!(matches!(rx.try_recv(), Err(oneshot::error::TryRecvError::Closed)));
    assert_eq!(sender.pending.next_id, 2);
}

#[test]
fn nothing_is_sent_without_a_child() {
    let mut sender: SidecarCommandSender<Child> = SidecarCommandSender::default();
    let (tx, _rx) = oneshot::channel();
    let err = twitch_send_message(&mut sender, "c", Ok(tokens()), "x", tx, write).unwrap_err();
    assert!(matches!(err, SendCommandError::SidecarNotRunning));
    assert!(matches!(twitch_send_reply(None), Err(SendCommandError::SidecarNotRunning)));
    assert!(matches!(youtube_send_reply(None), Err(SendCommandError::SidecarNotRunning)));
    assert!(matches!(twitch_moderation_reply(None), Err(SendCommandError::SidecarNotRunning)));
}

#[test]
fn moderation_needs_its_subject() {
    let words = |action, target: Option<&str>, message: Option<&str>, duration| {
        let (target, message) = (target.map(str::to_string), message.map(str::to_string));
        match moderation_command(&action, &target, &message, duration) {
            Ok(cmd) => cmd.to_string(),
            Err(SendCommandError::Json { message }) => message,
            Err(other) => panic!("expected Json, got {other:?}"),
        }
    };
    assert_eq!(words(TwitchModerationAction::Ban, Some("u"), None, None), "ban_user");
    assert_eq!(
        words(TwitchModerationAction::Ban, None, Some("m"), None),
        "ban requires target_user_id"
    );
    assert_eq!(
        words(TwitchModerationAction::Ban, Some(" \t"), None, None),
        "ban requires target_user_id"
    );
    assert_eq!(words(TwitchModerationAction::Timeout, Some("u"), None, None), "timeout_user");
    assert_eq!(words(TwitchModerationAction::Timeout, Some("u"), None, Some(1)), "timeout_user");
    assert_eq!(
        words(TwitchModerationAction::Timeout, Some("u"), None, Some(MAX_TIMEOUT_SECONDS)),
        "timeout_user"
    );
    for duration in [i32::MIN, -1, 0, 1_209_601, i32::MAX] {
        assert_eq!(
            words(TwitchModerationAction::Timeout, Some("u"), None, Some(duration)),
            "timeout duration out of range [1, 1209600]"
        );
    }
    assert_eq!(
        words(TwitchModerationAction::Timeout, None, None, Some(0)),
        "timeout requires target_user_id"
    );
    assert_eq!(words(TwitchModerationAction::Delete, None, Some("m"), Some(0)), "delete_message");
    assert_eq!(
        words(TwitchModerationAction::Delete, Some("u"), None, None),
        "delete requires message_id"
    );
}

#[test]
fn moderation_writes_the_line_of_its_action() {
    let mut sender = running();
    let (tx, _rx) = oneshot::channel();
    twitch_moderation_action(
        &mut sender,
        "cid",
        Ok(tokens()),
        TwitchModerationAction::Timeout,
        Some("bad".into()),
        None,
        Some(30),
        None,
        tx,
        write,
    )
    .unwrap();
    assert_eq!(
        sender.child.as_ref().unwrap(),
        b"{\"cmd\":\"timeout_user\",\"client_id\":\"cid\",\"token\":\"at\",\"broadcaster_id\":\"uid\",\"user_id\":\"uid\",\"target_user_id\":\"bad\",\"duration_seconds\":30,\"reason\":\"Prismoid streamer agent\",\"request_id\":1}\n"
    );
    let (tx, _rx) = oneshot::channel();
    let err = twitch_moderation_action(
        &mut sender,
        "cid",
        Err(AuthError::RefreshTokenInvalid),
        TwitchModerationAction::Ban,
        None,
        None,
        None,
        Some("spam".into()),
        tx,
        write,
    )
    .unwrap_err();
    assert!(matches!(err, SendCommandError::NotLoggedIn { .. }));
    assert_eq!(sender.pending.map.len(), 1);
}

fn moderation_line(action: TwitchModerationAction, duration: Option<i32>) -> serde_json::Value {
    let mut sender = running();
    let (tx, _rx) = oneshot::channel();
    let (user, message) = (Some("u".into()), Some("m".into()));
    twitch_moderation_action(
        &mut sender,
        "cid",
        Ok(tokens()),
        action,
        user,
        message,
        duration,
        None,
        tx,
        write,
    )
    .unwrap();
    serde_json::from_slice(sender.child.as_ref().unwrap()).unwrap()
}

#[test]
fn every_timeout_carries_a_duration() {
    let line = moderation_line(TwitchModerationAction::Timeout, None);
    assert_eq!(line["cmd"], "timeout_user");
    assert_eq!(line["duration_seconds"], 60);
    let line = moderation_line(TwitchModerationAction::Timeout, Some(600));
    assert_eq!(line["duration_seconds"], 600);
    assert_eq!(duration_to_send(&TwitchModerationAction::Timeout, None), Some(60));
}

#[test]
fn bans_carry_no_duration_and_deletions_what_was_given() {
    for duration in [None, Some(600), Some(-1)] {
        let line = moderation_line(TwitchModerationAction::Ban, duration);
        assert_eq!(line["cmd"], "ban_user");
        assert!(line.get("duration_seconds").is_none());
        let line = moderation_line(TwitchModerationAction::Delete, duration);
        assert_eq!(line["cmd"], "delete_message");
        assert_eq!(line.get("duration_seconds").and_then(|n| n.as_i64()), duration.map(i64::from));
    }
}

#[test]
fn moderation_refusals_prefer_the_words_of_the_transport() {
    assert!(twitch_moderation_reply(Some(make_result(true, "", "", ""))).unwrap().ok);
    for (r, words) in [
        (make_result(false, "c", "dropped", "transport"), "transport"),
        (make_result(false, "c", "dropped", ""), "dropped"),
        (make_result(false, "c", "", ""), ""),
    ] {
        match twitch_moderation_reply(Some(r)).unwrap_err() {
            SendCommandError::Helix { code, message } => {
                assert_eq!((code.as_str(), message.as_str()), ("c", words));
            }
            other => panic!("expected Helix, got {other:?}"),
        }
    }
}

fn as_json(err: SendCommandError) -> serde_json::Value {
    serde_json::from_slice(&err.to_json().unwrap()).unwrap()
}

#[test]
fn send_command_error_serializes_with_kind_tag() {
    let v = as_json(SendCommandError::EmptyMessage);
    assert_eq!(v["kind"], "empty_message");

    let v = as_json(SendCommandError::MessageTooLong { max_bytes: 500 });
    assert_eq!(v["kind"], "message_too_long");
    assert_eq!(v["max_bytes"], 500);

    let v = as_json(SendCommandError::SidecarNotRunning);
    assert_eq!(v["kind"], "sidecar_not_running");

    let v = as_json(SendCommandError::NotLoggedIn { message: "x".into() });
    assert_eq!(v["kind"], "not_logged_in");
    assert_eq!(v["message"], "x");

    let v = as_json(SendCommandError::Helix {
        code: "msg_duplicate".into(),
        message: "dup".into(),
    });
    assert_eq!(v["kind"], "helix");
    assert_eq!(v["code"], "msg_duplicate");
    assert_eq!(v["message"], "dup");

    let v = as_json(SendCommandError::Io { message: "pipe".into() });
    assert_eq!(v["kind"], "io");

    let v = as_json(SendCommandError::Json { message: "bad".into() });
    assert_eq!(v["kind"], "json");

    let v = as_json(SendCommandError::Auth { message: "boom".into() });
    assert_eq!(v["kind"], "auth");
}

#[test]
fn every_error_has_a_tag_of_its_own() {
    let m = || "m".to_string();
    let errors = [
        SendCommandError::NotLoggedIn { message: m() },
        SendCommandError::EmptyMessage,
        SendCommandError::MessageTooLong { max_bytes: 1 },
        SendCommandError::MessageTooLongChars { max_chars: 200 },
        SendCommandError::SidecarNotRunning,
        SendCommandError::Io { message: m() },
        SendCommandError::Auth { message: m() },
        SendCommandError::Json { message: m() },
        SendCommandError::Helix { code: m(), message: m() },
        SendCommandError::YouTube { code: m(), message: m() },
    ];
    let mut tags: Vec<&str> = errors.iter().map(|e| e.kind()).collect();
    tags.sort();
    tags.dedup();
    assert_eq!(tags.len(), errors.len());
    assert_eq!(
        errors[3].to_json().unwrap(),
        b"{\"kind\":\"message_too_long_chars\",\"max_chars\":200}".to_vec()
    );
    assert_eq!(
        errors[9].to_json().unwrap(),
        b"{\"kind\":\"you_tube\",\"code\":\"m\",\"message\":\"m\"}".to_vec()
    );
}
