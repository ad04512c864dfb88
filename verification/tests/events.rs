use prismoid::document::{find_member, find_values, read_json, Json};
use prismoid::events::{
    classify_event, decode_answer, parse_sidecar_event, strip, take_envelope, SendChatResult,
    SidecarEvent,
};

/// A bundle as the tests need it: the codes of the emotes, by set.
#[derive(Debug)]
struct Bundle {
    sets: Vec<(String, Vec<String>)>,
}

impl Bundle {
    fn total_emotes(&self) -> usize {
        self.sets.iter().map(|(_, codes)| codes.len()).sum()
    }

    fn codes(&self, set: &str) -> &Vec<String> {
        &self.sets.iter().find(|(name, _)| name == set).unwrap().1
    }
}

fn decode_bundle(payload: Json) -> Option<Bundle> {
    let Json::Object(members) = payload else {
        return None;
    };
    let mut sets = Vec::new();
    for (name, set) in members {
        let Json::Object(set) = set else {
            return None;
        };
        let mut codes = Vec::new();
        if let Some(Json::Array(emotes)) = find_member(&set, "emotes") {
            for emote in emotes {
                let Json::Object(emote) = emote else {
                    return None;
                };
                match find_member(emote, "code") {
                    Some(Json::Text(code)) => codes.push(code.clone()),
                    _ => return None,
                }
            }
        }
        sets.push((name, codes));
    }
    Some(Bundle { sets })
}

fn parse(line: &[u8]) -> SidecarEvent<Bundle> {
    parse_sidecar_event(line, decode_bundle)
}

fn answer(line: &[u8]) -> Option<SendChatResult> {
    match parse(line) {
        SidecarEvent::SendChatResult(r) => Some(r),
        SidecarEvent::Invalid => None,
        _ => panic!("expected an answer or nothing"),
    }
}

#[test]
fn parse_sidecar_event_recognizes_heartbeat() {
    let line = br#"{"type":"heartbeat","payload":{"ts_ms":123,"counter":4}}"#;
    assert!(matches!(parse(line), SidecarEvent::Heartbeat));
}

#[test]
fn parse_sidecar_event_decodes_emote_bundle() {
    let line = br#"{"type":"emote_bundle","payload":{
            "twitch_global_emotes":{"provider":"twitch","scope":"global","emotes":[
                {"id":"1","code":"Kappa","provider":"twitch","url_1x":"https://t/1"}
            ]},
            "twitch_channel_emotes":{"provider":"twitch","scope":"channel","emotes":[]},
            "twitch_global_badges":{"scope":"global","badges":[]},
            "twitch_channel_badges":{"scope":"channel","badges":[]},
            "seventv_global":{"provider":"7tv","scope":"global","emotes":[]},
            "seventv_channel":{"provider":"7tv","scope":"channel","emotes":[]},
            "bttv_global":{"provider":"bttv","scope":"global","emotes":[]},
            "bttv_channel":{"provider":"bttv","scope":"channel","emotes":[]},
            "ffz_global":{"provider":"ffz","scope":"global","emotes":[]},
            "ffz_channel":{"provider":"ffz","scope":"channel","emotes":[]}
        }}"#;
    match parse(line) {
        SidecarEvent::EmoteBundle(b) => {
            assert_eq!(b.total_emotes(), 1);
            assert_eq!(b.codes("twitch_global_emotes")[0], "Kappa");
        }
        _ => panic!("expected EmoteBundle variant"),
    }
}

#[test]
fn parse_sidecar_event_handles_unknown_type() {
    let line = br#"{"type":"future_thing","payload":{"x":1}}"#;
    match parse(line) {
        SidecarEvent::Other(t) => assert_eq!(t, "future_thing"),
        _ => panic!("expected Other variant"),
    }
}

#[test]
fn parse_sidecar_event_rejects_non_json() {
    assert!(matches!(parse(b"plain text log line"), SidecarEvent::Invalid));
    assert!(matches!(parse(b"   \t  "), SidecarEvent::Invalid));
    assert!(matches!(parse(b""), SidecarEvent::Invalid));
}

#[test]
fn parse_sidecar_event_rejects_malformed_emote_bundle_payload() {
    let line = br#"{"type":"emote_bundle","payload":{"twitch_global_emotes":"oops"}}"#;
    assert!(matches!(parse(line), SidecarEvent::Invalid));
}

#[test]
fn parse_sidecar_event_decodes_send_chat_result_success() {
    let line =
        br#"{"type":"send_chat_result","payload":{"request_id":42,"ok":true,"message_id":"abc"}}"#;
    match parse(line) {
        SidecarEvent::SendChatResult(r) => {
            assert_eq!(r.request_id, 42);
            assert!(r.ok);
            assert_eq!(r.message_id, "abc");
        }
        _ => panic!("expected SendChatResult"),
    }
}

#[test]
fn parse_sidecar_event_decodes_send_chat_result_drop() {
    let line = br#"{"type":"send_chat_result","payload":{"request_id":7,"ok":false,"drop_code":"msg_duplicate","drop_message":"dup"}}"#;
    match parse(line) {
        SidecarEvent::SendChatResult(r) => {
            assert_eq!(r.request_id, 7);
            assert!(!r.ok);
            assert_eq!(r.drop_code, "msg_duplicate");
        }
        _ => panic!("expected SendChatResult"),
    }
}

#[test]
fn white_space_around_a_line_is_tolerated() {
    for (before, after) in [("", "\n"), (" \t\r\n\u{c}", ""), ("\u{c} ", " \u{c}\r\n")] {
        let line = format!("{before}{{\"type\":\"heartbeat\",\"payload\":{{}}}}{after}");
        assert!(matches!(parse(line.as_bytes()), SidecarEvent::Heartbeat));
    }
    assert_eq!(strip(b" \n a b\t\r\x0c"), b"a b");
    assert_eq!(strip(b"\t \x0c\r\n"), b"");
    // A vertical tab is no ASCII white space.
    assert_eq!(strip(b"\x0b"), b"\x0b");
}

#[test]
fn lines_without_the_envelope_are_invalid() {
    for line in [
        "null",
        "[]",
        "[\"heartbeat\",null]",
        "\"heartbeat\"",
        "{}",
        "{\"type\":\"\"}",
        "{\"type\":null}",
        "{\"type\":7}",
        "{\"payload\":{}}",
        "{\"type\":\"\",\"payload\":{}}",
        "{\"type\":null,\"payload\":{}}",
        "{\"type\":7,\"payload\":{}}",
        "{\"type\":\"heartbeat\",\"payload\":{}",
        "{\"type\":\"heartbeat\",\"payload\":{}} x",
    ] {
        assert!(matches!(parse(line.as_bytes()), SidecarEvent::Invalid), "{line}");
    }
}

#[test]
fn lines_without_a_payload_are_invalid() {
    for t in ["future_thing", "heartbeat", "emote_bundle", "send_chat_result"] {
        let line = format!("{{\"type\":\"{t}\"}}");
        assert!(matches!(parse(line.as_bytes()), SidecarEvent::Invalid), "{line}");
    }
    let line = br#"{"type":"future_thing","payload":null}"#;
    assert!(matches!(parse(line), SidecarEvent::Other(t) if t == "future_thing"));
}

#[test]
fn lines_with_the_type_or_the_payload_twice_are_invalid() {
    for line in [
        r#"{"type":"heartbeat","type":"heartbeat","payload":1}"#,
        r#"{"type":"x","payload":1,"payload":2}"#,
        r#"{"type":"x", "\u0074ype" : "x","payload":1}"#,
    ] {
        assert!(matches!(parse(line.as_bytes()), SidecarEvent::Invalid), "{line}");
    }
    // Elsewhere names may repeat, and texts may look like names.
    for line in [
        r#"{"type":"heartbeat","a":1,"a":2,"payload":1}"#,
        r#"{"type":"heartbeat","payload":{"type":1,"type":2},"b":[{"payload":1},{"payload":2}]}"#,
        r#"{"a":"\"type\":","type":"heartbeat","payload":"\\"}"#,
        r#"{"payload":"type","type":"heartbeat"}"#,
    ] {
        assert!(matches!(parse(line.as_bytes()), SidecarEvent::Heartbeat), "{line}");
    }
    let text = br#"{"a":[1,{"a":2}],"b":"a","a":{}, "a" :"x\"y" }"#;
    assert_eq!(find_values(text, "a"), vec![&br#"[1,{"a":2}]"#[..], b"{}", br#""x\"y" "#]);
    assert_eq!(find_values(text, "b"), vec![&br#""a""#[..]]);
    assert!(find_values(text, "c").is_empty());
    assert!(find_values(b"[\"a\"]", "a").is_empty());
    assert!(find_values(b"{}", "a").is_empty());
    assert_eq!(
        take_envelope(br#"{"x":[1], "payload": {"y":","} ,"type":"t"}"#).unwrap(),
        br#"{"type":"t","payload": {"y":","} }"#.to_vec()
    );
    assert!(take_envelope(b"{\"type\":1}").is_none());
}

#[test]
fn members_that_nobody_reads_may_hold_anything() {
    let deep = format!("{}{}", "[".repeat(200), "]".repeat(200));
    for extra in ["1e999", "\"\\ud800\"", deep.as_str(), "{\"type\":1e999}"] {
        let line = format!("{{\"x\":{extra},\"type\":\"heartbeat\",\"payload\":{{}}}}");
        assert!(matches!(parse(line.as_bytes()), SidecarEvent::Heartbeat), "{line}");
        // In the payload it counts.
        let line = format!("{{\"type\":\"heartbeat\",\"payload\":{extra}}}");
        assert!(matches!(parse(line.as_bytes()), SidecarEvent::Invalid), "{line}");
    }
    let mut line = b"{\"x\":\"?\",\"type\":\"heartbeat\",\"payload\":{}}".to_vec();
    line[6] = 0xff;
    assert!(matches!(parse(&line), SidecarEvent::Heartbeat));
    // The members still have to be members.
    for line in [
        "{\"x\":1,,\"type\":\"heartbeat\",\"payload\":{}}",
        "{\"x\":[,\"type\":\"heartbeat\",\"payload\":{}}",
        "{\"\\ud800\":1,\"type\":\"heartbeat\",\"payload\":{}}",
        "{x:1,\"type\":\"heartbeat\",\"payload\":{}}",
        "{\"x\":1,\"type\":\"heartbeat\",\"payload\":{},}",
    ] {
        assert!(matches!(parse(line.as_bytes()), SidecarEvent::Invalid), "{line}");
    }
}

#[test]
fn payloads_may_nest_as_deep_as_a_line_may() {
    for (depth, valid) in [(126, true), (127, false)] {
        let payload = format!("{}{}", "[".repeat(depth), "]".repeat(depth));
        let line = format!("{{\"type\":\"heartbeat\",\"payload\":{payload}}}");
        assert_eq!(matches!(parse(line.as_bytes()), SidecarEvent::Heartbeat), valid);
        // The same line, read as one value, is taken or refused alike.
        assert_eq!(read_json(line.as_bytes()).is_some(), valid);
    }
}

#[test]
fn a_payload_that_nobody_reads_may_be_anything() {
    for payload in ["null", "1.5", "-3", "[]", "\"x\""] {
        let line = format!("{{\"payload\":{payload},\"type\":\"heartbeat\",\"more\":[1]}}");
        assert!(matches!(parse(line.as_bytes()), SidecarEvent::Heartbeat));
    }
}

#[test]
fn answers_default_everything_but_ok() {
    let r = answer(br#"{"type":"send_chat_result","payload":{"ok":true}}"#).unwrap();
    assert_eq!(r.request_id, 0);
    assert!(r.ok);
    assert_eq!(r.message_id, "");
    assert_eq!(r.drop_code, "");
    assert_eq!(r.drop_message, "");
    assert_eq!(r.error_message, "");
    let r = answer(
        br#"{"type":"send_chat_result","payload":{"ok":false,"error_message":"e","drop_message":"d","drop_code":"c","message_id":"m","request_id":18446744073709551615}}"#,
    )
    .unwrap();
    assert_eq!(r.request_id, u64::MAX);
    assert_eq!(
        (r.message_id.as_str(), r.drop_code.as_str(), r.drop_message.as_str()),
        ("m", "c", "d")
    );
    assert_eq!(r.error_message, "e");
}

#[test]
fn answers_of_the_wrong_shape_are_invalid() {
    for payload in [
        "null",
        "{}",
        "{\"request_id\":1}",
        "{\"ok\":null}",
        "{\"ok\":1}",
        "{\"ok\":true,\"request_id\":-1}",
        "{\"ok\":true,\"request_id\":1.5}",
        "{\"ok\":true,\"request_id\":\"1\"}",
        "{\"ok\":true,\"message_id\":null}",
        "{\"ok\":true,\"drop_code\":1}",
        "{\"ok\":true,\"drop_message\":[]}",
        "{\"ok\":true,\"error_message\":{}}",
        "[]",
        "[1]",
        "[1,true,\"\",\"\",\"\",\"\",0]",
        "true",
    ] {
        let line = format!("{{\"type\":\"send_chat_result\",\"payload\":{payload}}}");
        assert!(answer(line.as_bytes()).is_none(), "{payload}");
    }
    assert!(answer(b"{\"type\":\"send_chat_result\"}").is_none());
}

#[test]
fn answers_may_come_as_arrays() {
    let r = answer(br#"{"type":"send_chat_result","payload":[9,true,"m","c","d","e"]}"#).unwrap();
    assert_eq!((r.request_id, r.ok), (9, true));
    assert_eq!(r.error_message, "e");
    let r = answer(br#"{"type":"send_chat_result","payload":[9,false]}"#).unwrap();
    assert_eq!((r.request_id, r.ok), (9, false));
    assert_eq!(r.message_id, "");
}

#[test]
fn documents_are_read_whole() {
    let Some(Json::Object(members)) =
        read_json(br#"{"b":[null,true,-1,2.5,18446744073709551615,"\u00e9"],"a":{"x":""}}"#)
    else {
        panic!("expected an object");
    };
    let Some(Json::Array(items)) = find_member(&members, "b") else {
        panic!("expected an array");
    };
    assert!(matches!(items[0], Json::Null));
    assert!(matches!(items[1], Json::Bool(true)));
    assert!(matches!(&items[2], Json::Number { unsigned: None, text } if text == "-1"));
    assert!(matches!(&items[3], Json::Number { unsigned: None, text } if text == "2.5"));
    assert!(matches!(items[4], Json::Number { unsigned: Some(u64::MAX), .. }));
    assert!(matches!(&items[5], Json::Text(s) if s == "\u{e9}"));
    let Some(Json::Object(inner)) = find_member(&members, "a") else {
        panic!("expected an object");
    };
    assert!(matches!(find_member(inner, "x"), Some(Json::Text(s)) if s.is_empty()));
    assert!(find_member(inner, "y").is_none());
    assert!(read_json(b"{").is_none());
    assert!(read_json(b"").is_none());
    assert!(read_json(b"1 2").is_none());
}

#[test]
fn classification_takes_documents_as_values() {
    let doc = |t: &str, payload: Option<Json>| {
        let mut members = vec![("type".to_string(), Json::Text(t.to_string()))];
        if let Some(payload) = payload {
            members.push(("payload".to_string(), payload));
        }
        Some(Json::Object(members))
    };
    let none = |_: Json| -> Option<u8> { None };
    let heartbeat = doc("heartbeat", Some(Json::Bool(false)));
    assert!(matches!(classify_event(heartbeat, none), SidecarEvent::Heartbeat));
    assert!(matches!(classify_event(doc("heartbeat", None), none), SidecarEvent::Invalid));
    assert!(matches!(classify_event(None, none), SidecarEvent::Invalid));
    let five = |payload: Json| match payload {
        Json::Null => Some(5u8),
        _ => None,
    };
    let event = classify_event(doc("emote_bundle", Some(Json::Null)), five);
    assert!(matches!(event, SidecarEvent::EmoteBundle(b) if *b == 5));
    let event = classify_event(doc("emote_bundle", Some(Json::Bool(true))), five);
    assert!(matches!(event, SidecarEvent::Invalid));
    // A payload that is left out does not reach the decoder.
    let event = classify_event(doc("emote_bundle", None), |_: Json| Some(5u8));
    assert!(matches!(event, SidecarEvent::Invalid));
    assert!(decode_answer(&Json::Bool(true)).is_none());
}
