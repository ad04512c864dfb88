use prismoid::control::{
    build_bootstrap_line, build_kick_connect_line, build_send_chat_message_line,
    build_token_refresh_line, build_twitch_connect_line, build_twitch_moderation_line,
    build_youtube_connect_line, build_youtube_send_message_line, SendChatMessageArgs, TwitchCreds,
    TwitchModerationArgs, YouTubeCreds, YouTubeSendMessageArgs,
};
use prismoid::handles::{mark_handle_inheritable, unmark_handle_inheritable, HandleError};

#[test]
fn bootstrap_line_has_expected_fields_and_newline() {
    let line = build_bootstrap_line(0xDEADBEEF, 0xCAFEBABE, 4096).unwrap();
    assert_eq!(line.last(), Some(&b'\n'));
    let body = &line[..line.len() - 1];
    let parsed: serde_json::Value = serde_json::from_slice(body).unwrap();
    assert_eq!(parsed["shm_handle"], 0xDEADBEEF_u64);
    assert_eq!(parsed["shm_event_handle"], 0xCAFEBABE_u64);
    assert_eq!(parsed["shm_size"], 4096_u64);
}

#[test]
fn twitch_connect_line_has_all_required_fields() {
    let creds = TwitchCreds {
        client_id: "cid".into(),
        access_token: "tok".into(),
        broadcaster_id: "bid".into(),
        user_id: "uid".into(),
    };
    let line = build_twitch_connect_line(&creds).unwrap();
    assert_eq!(line.last(), Some(&b'\n'));
    let body = &line[..line.len() - 1];
    let parsed: serde_json::Value = serde_json::from_slice(body).unwrap();
    assert_eq!(parsed["cmd"], "twitch_connect");
    assert_eq!(parsed["client_id"], "cid");
    assert_eq!(parsed["token"], "tok");
    assert_eq!(parsed["broadcaster_id"], "bid");
    assert_eq!(parsed["user_id"], "uid");
}

#[test]
fn build_send_chat_message_line_includes_request_id() {
    let line = build_send_chat_message_line(SendChatMessageArgs {
        client_id: "cid",
        access_token: "tok",
        broadcaster_id: "b",
        user_id: "u",
        message: "hi",
        request_id: 99,
    })
    .unwrap();
    assert_eq!(line.last(), Some(&b'\n'));
    let body = &line[..line.len() - 1];
    let parsed: serde_json::Value = serde_json::from_slice(body).unwrap();
    assert_eq!(parsed["cmd"], "send_chat_message");
    assert_eq!(parsed["request_id"], 99);
    assert_eq!(parsed["broadcaster_id"], "b");
    assert_eq!(parsed["message"], "hi");
    assert_eq!(parsed["token"], "tok");
}

#[test]
fn build_token_refresh_line_has_cmd_and_token() {
    let line = build_token_refresh_line("fresh-tok").unwrap();
    assert_eq!(line.last(), Some(&b'\n'));
    let body = &line[..line.len() - 1];
    let parsed: serde_json::Value = serde_json::from_slice(body).unwrap();
    assert_eq!(parsed["cmd"], "token_refresh");
    assert_eq!(parsed["token"], "fresh-tok");
}

#[test]
fn build_youtube_send_message_line_serializes_required_fields() {
    let line = build_youtube_send_message_line(YouTubeSendMessageArgs {
        access_token: "yt-tok",
        live_chat_id: "Cg0KC0xpdmVfQ2hhdF9JZA==",
        message: "hello yt",
        request_id: 17,
    })
    .unwrap();
    assert_eq!(line.last(), Some(&b'\n'));
    let body = &line[..line.len() - 1];
    let parsed: serde_json::Value = serde_json::from_slice(body).unwrap();
    assert_eq!(parsed["cmd"], "youtube_send_message");
    assert_eq!(parsed["token"], "yt-tok");
    assert_eq!(parsed["live_chat_id"], "Cg0KC0xpdmVfQ2hhdF9JZA==");
    assert_eq!(parsed["message"], "hello yt");
    assert_eq!(parsed["request_id"], 17);
}

#[test]
fn build_twitch_moderation_line_serializes_timeout() {
    let line = build_twitch_moderation_line(TwitchModerationArgs {
        cmd: "timeout_user",
        client_id: "cid",
        access_token: "tok",
        broadcaster_id: "b",
        moderator_id: "m",
        target_user_id: Some("u"),
        message_id: None,
        duration_seconds: Some(60),
        reason: Some("spam"),
        request_id: 44,
    })
    .unwrap();
    assert_eq!(line.last(), Some(&b'\n'));
    let parsed: serde_json::Value = serde_json::from_slice(&line[..line.len() - 1]).unwrap();
    assert_eq!(parsed["cmd"], "timeout_user");
    assert_eq!(parsed["client_id"], "cid");
    assert_eq!(parsed["token"], "tok");
    assert_eq!(parsed["broadcaster_id"], "b");
    assert_eq!(parsed["user_id"], "m");
    assert_eq!(parsed["target_user_id"], "u");
    assert_eq!(parsed["duration_seconds"], 60);
    assert_eq!(parsed["reason"], "spam");
    assert_eq!(parsed["request_id"], 44);
    assert!(parsed.get("message_id").is_none());
}

#[test]
fn connect_lines_are_exact() {
    let youtube = YouTubeCreds { api_key: "key".into(), live_chat_id: "chat".into() };
    assert_eq!(
        build_youtube_connect_line(&youtube).unwrap(),
        b"{\"cmd\":\"youtube_connect\",\"api_key\":\"key\",\"live_chat_id\":\"chat\"}\n".to_vec()
    );
    assert_eq!(
        build_kick_connect_line(-7).unwrap(),
        b"{\"cmd\":\"kick_connect\",\"chatroom_id\":-7}\n".to_vec()
    );
    assert_eq!(
        build_kick_connect_line(i64::MIN).unwrap(),
        b"{\"cmd\":\"kick_connect\",\"chatroom_id\":-9223372036854775808}\n".to_vec()
    );
    assert_eq!(
        build_bootstrap_line(0, 7, 120).unwrap(),
        b"{\"shm_handle\":0,\"shm_event_handle\":7,\"shm_size\":120}\n".to_vec()
    );
}

#[test]
fn texts_are_escaped() {
    assert_eq!(
        build_token_refresh_line("a\"b\\c\nd\te\r\u{8}\u{c}\u{1}\u{1f}\u{7f}/\u{e9}\u{1f389}")
            .unwrap(),
        "{\"cmd\":\"token_refresh\",\"token\":\"a\\\"b\\\\c\\nd\\te\\r\\b\\f\\u0001\\u001f\u{7f}/\u{e9}\u{1f389}\"}\n"
            .as_bytes()
            .to_vec()
    );
}

#[test]
fn a_line_is_one_line_whatever_the_message() {
    let line = build_send_chat_message_line(SendChatMessageArgs {
        client_id: "c\n",
        access_token: "\n\n",
        broadcaster_id: "b",
        user_id: "u",
        message: "first\nsecond\r\n",
        request_id: u64::MAX,
    })
    .unwrap();
    let newlines: Vec<usize> = (0..line.len()).filter(|i| line[*i] == b'\n').collect();
    assert_eq!(newlines, vec![line.len() - 1]);
    let parsed: serde_json::Value = serde_json::from_slice(&line).unwrap();
    assert_eq!(parsed["message"], "first\nsecond\r\n");
    assert_eq!(parsed["request_id"], u64::MAX);
}

#[test]
fn lines_differ_where_their_arguments_do() {
    let line = |message: &str, request_id: u64| {
        build_send_chat_message_line(SendChatMessageArgs {
            client_id: "c",
            access_token: "t",
            broadcaster_id: "b",
            user_id: "u",
            message,
            request_id,
        })
        .unwrap()
    };
    assert_ne!(line("a", 1), line("a", 11));
    assert_ne!(line("a", 1), line("b", 1));
    assert_ne!(line("a\",\"request_id\":1", 2), line("a", 1));
    let youtube = |live_chat_id: &str, message: &str| {
        build_youtube_send_message_line(YouTubeSendMessageArgs {
            access_token: "t",
            live_chat_id,
            message,
            request_id: 3,
        })
        .unwrap()
    };
    assert_ne!(youtube("ab", "c"), youtube("a", "bc"));
}

#[test]
fn moderation_line_leaves_out_what_is_missing() {
    let args = |target: Option<&'static str>, message: Option<&'static str>| TwitchModerationArgs {
        cmd: "x",
        client_id: "c",
        access_token: "t",
        broadcaster_id: "b",
        moderator_id: "m",
        target_user_id: target,
        message_id: message,
        duration_seconds: None,
        reason: None,
        request_id: 5,
    };
    assert_eq!(
        build_twitch_moderation_line(args(None, None)).unwrap(),
        b"{\"cmd\":\"x\",\"client_id\":\"c\",\"token\":\"t\",\"broadcaster_id\":\"b\",\"user_id\":\"m\",\"request_id\":5}\n"
            .to_vec()
    );
    assert_ne!(
        build_twitch_moderation_line(args(Some("z"), None)).unwrap(),
        build_twitch_moderation_line(args(None, Some("z"))).unwrap()
    );
}

#[test]
fn handles_are_not_inherited_outside_windows() {
    assert_eq!(mark_handle_inheritable(4), Err(HandleError::Unsupported));
    assert_eq!(
        HandleError::Unsupported.message(),
        "handle inheritance not yet supported on this platform"
    );
    assert_eq!(unmark_handle_inheritable(4), Ok(()));
}
