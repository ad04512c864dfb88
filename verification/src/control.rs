//! The control commands the host writes to the sidecar's stdin, one line each.
use vstd::prelude::*;

use crate::framing::control_line;
use crate::framing::law_control_line_is_unambiguous;
use crate::handles::RawHandle;
use crate::json::{
    lemma_value_named_absent, lemma_value_named_at, lemma_value_named_in_both, value_named, Member,
    ObjectWriter, Scalar, NEWLINE,
};

verus! {

/// Twitch OAuth credentials for one connection.
#[derive(Debug, Clone)]
pub struct TwitchCreds {
    pub client_id: String,
    pub access_token: String,
    pub broadcaster_id: String,
    pub user_id: String,
}

/// YouTube credentials for one connection.
#[derive(Debug, Clone)]
pub struct YouTubeCreds {
    pub api_key: String,
    pub live_chat_id: String,
}

/// Arguments for [`build_send_chat_message_line`]. All fields are borrowed so the caller does
/// not have to clone its credentials just to build a control line.
pub struct SendChatMessageArgs<'a> {
    pub client_id: &'a str,
    pub access_token: &'a str,
    pub broadcaster_id: &'a str,
    pub user_id: &'a str,
    pub message: &'a str,
    /// Opaque correlation id, echoed back in the sidecar's `send_chat_result` notification.
    pub request_id: u64,
}

/// Arguments for [`build_youtube_send_message_line`]. The access token's owner is the sender,
/// and the destination is keyed by `live_chat_id`.
pub struct YouTubeSendMessageArgs<'a> {
    pub access_token: &'a str,
    pub live_chat_id: &'a str,
    pub message: &'a str,
    /// Opaque correlation id, from the same registry as the Twitch ones.
    pub request_id: u64,
}

/// Arguments for [`build_twitch_moderation_line`]. What is `None` is left out of the line.
pub struct TwitchModerationArgs<'a> {
    pub cmd: &'a str,
    pub client_id: &'a str,
    pub access_token: &'a str,
    pub broadcaster_id: &'a str,
    pub moderator_id: &'a str,
    pub target_user_id: Option<&'a str>,
    pub message_id: Option<&'a str>,
    pub duration_seconds: Option<i32>,
    pub reason: Option<&'a str>,
    pub request_id: u64,
}

// ---------------------------------------------------------------------------
// What each line carries
// ---------------------------------------------------------------------------

pub open spec fn text_member(name: Seq<char>, value: Seq<char>) -> Member {
    Member { name, value: Scalar::Text(value) }
}

pub open spec fn integer_member(name: Seq<char>, value: int) -> Member {
    Member { name, value: Scalar::Integer(value) }
}

/// The member for a text that may be missing: none at all, or one.
pub open spec fn optional_text(name: Seq<char>, value: Option<Seq<char>>) -> Seq<Member> {
    match value {
        Some(s) => seq![text_member(name, s)],
        None => seq![],
    }
}

/// The member for a number that may be missing: none at all, or one.
pub open spec fn optional_integer(name: Seq<char>, value: Option<i32>) -> Seq<Member> {
    match value {
        Some(n) => seq![integer_member(name, n as int)],
        None => seq![],
    }
}

pub open spec fn bootstrap_members(
    handle: RawHandle,
    event_handle: RawHandle,
    size: usize,
) -> Seq<Member> {
    seq![
        integer_member("shm_handle"@, handle as int),
        integer_member("shm_event_handle"@, event_handle as int),
        integer_member("shm_size"@, size as int),
    ]
}

pub open spec fn twitch_connect_members(creds: TwitchCreds) -> Seq<Member> {
    seq![
        text_member("cmd"@, "twitch_connect"@),
        text_member("client_id"@, creds.client_id@),
        text_member("token"@, creds.access_token@),
        text_member("broadcaster_id"@, creds.broadcaster_id@),
        text_member("user_id"@, creds.user_id@),
    ]
}

pub open spec fn youtube_connect_members(creds: YouTubeCreds) -> Seq<Member> {
    seq![
        text_member("cmd"@, "youtube_connect"@),
        text_member("api_key"@, creds.api_key@),
        text_member("live_chat_id"@, creds.live_chat_id@),
    ]
}

pub open spec fn kick_connect_members(chatroom_id: i64) -> Seq<Member> {
    seq![
        text_member("cmd"@, "kick_connect"@),
        integer_member("chatroom_id"@, chatroom_id as int),
    ]
}

pub open spec fn send_chat_message_members(
    client_id: Seq<char>,
    access_token: Seq<char>,
    broadcaster_id: Seq<char>,
    user_id: Seq<char>,
    message: Seq<char>,
    request_id: u64,
) -> Seq<Member> {
    seq![
        text_member("cmd"@, "send_chat_message"@),
        text_member("client_id"@, client_id),
        text_member("token"@, access_token),
        text_member("broadcaster_id"@, broadcaster_id),
        text_member("user_id"@, user_id),
        text_member("message"@, message),
        integer_member("request_id"@, request_id as int),
    ]
}

pub open spec fn youtube_send_message_members(
    access_token: Seq<char>,
    live_chat_id: Seq<char>,
    message: Seq<char>,
    request_id: u64,
) -> Seq<Member> {
    seq![
        text_member("cmd"@, "youtube_send_message"@),
        text_member("token"@, access_token),
        text_member("live_chat_id"@, live_chat_id),
        text_member("message"@, message),
        integer_member("request_id"@, request_id as int),
    ]
}

/// What a moderation line says, as plain values.
pub struct ModerationRequest {
    pub cmd: Seq<char>,
    pub client_id: Seq<char>,
    pub access_token: Seq<char>,
    pub broadcaster_id: Seq<char>,
    pub moderator_id: Seq<char>,
    pub target_user_id: Option<Seq<char>>,
    pub message_id: Option<Seq<char>>,
    pub duration_seconds: Option<i32>,
    pub reason: Option<Seq<char>>,
    pub request_id: u64,
}

/// The text behind an optional reference.
pub open spec fn optional_view(value: Option<&str>) -> Option<Seq<char>> {
    match value {
        Some(s) => Some(s@),
        None => None,
    }
}

impl<'a> View for TwitchModerationArgs<'a> {
    type V = ModerationRequest;

    open spec fn view(&self) -> ModerationRequest {
        ModerationRequest {
            cmd: self.cmd@,
            client_id: self.client_id@,
            access_token: self.access_token@,
            broadcaster_id: self.broadcaster_id@,
            moderator_id: self.moderator_id@,
            target_user_id: optional_view(self.target_user_id),
            message_id: optional_view(self.message_id),
            duration_seconds: self.duration_seconds,
            reason: optional_view(self.reason),
            request_id: self.request_id,
        }
    }
}

/// The members of a moderation line that are always there, up to the first that may be missing.
pub open spec fn moderation_head(r: ModerationRequest) -> Seq<Member> {
    seq![
        text_member("cmd"@, r.cmd),
        text_member("client_id"@, r.client_id),
        text_member("token"@, r.access_token),
        text_member("broadcaster_id"@, r.broadcaster_id),
        text_member("user_id"@, r.moderator_id),
    ]
}

/// The rest of a moderation line: four members that may be missing, and the request id.
pub open spec fn moderation_tail(r: ModerationRequest) -> Seq<Member> {
    optional_text("target_user_id"@, r.target_user_id) + (optional_text(
        "message_id"@,
        r.message_id,
    ) + (optional_integer("duration_seconds"@, r.duration_seconds) + (optional_text(
        "reason"@,
        r.reason,
    ) + seq![integer_member("request_id"@, r.request_id as int)])))
}

pub open spec fn twitch_moderation_members(r: ModerationRequest) -> Seq<Member> {
    moderation_head(r) + moderation_tail(r)
}

pub open spec fn token_refresh_members(access_token: Seq<char>) -> Seq<Member> {
    seq![text_member("cmd"@, "token_refresh"@), text_member("token"@, access_token)]
}

// ---------------------------------------------------------------------------
// The builders
// ---------------------------------------------------------------------------

/// Closes the object and ends the line.
fn end_line(w: ObjectWriter) -> (bytes: Vec<u8>)
    requires
        w.wf(),
    ensures
        bytes@ == control_line(w.members()),
{
    let mut bytes = w.finish();
    bytes.push(NEWLINE);
    bytes
}

/// The bootstrap line that the host writes immediately after the spawn: the inheritable mapping
/// handle, the auto-reset event handle that the sidecar signals on each ring write, and the
/// ring's size.
pub fn build_bootstrap_line(handle: RawHandle, event_handle: RawHandle, size: usize) -> (line: Result<
    Vec<u8>,
    serde_json::Error,
>)
    ensures
        line is Ok,
        line->Ok_0@ == control_line(bootstrap_members(handle, event_handle, size)),
{
    let mut w = ObjectWriter::new();
    w.unsigned("shm_handle", handle as u64)?;
    w.unsigned("shm_event_handle", event_handle as u64)?;
    w.unsigned("shm_size", size as u64)?;
    assert(w.members() =~= bootstrap_members(handle, event_handle, size));
    Ok(end_line(w))
}

/// The `twitch_connect` line.
pub fn build_twitch_connect_line(creds: &TwitchCreds) -> (line: Result<
    Vec<u8>,
    serde_json::Error,
>)
    ensures
        line is Ok,
        line->Ok_0@ == control_line(twitch_connect_members(*creds)),
{
    let mut w = ObjectWriter::new();
    w.text("cmd", "twitch_connect")?;
    w.text("client_id", creds.client_id.as_str())?;
    w.text("token", creds.access_token.as_str())?;
    w.text("broadcaster_id", creds.broadcaster_id.as_str())?;
    w.text("user_id", creds.user_id.as_str())?;
    assert(w.members() =~= twitch_connect_members(*creds));
    Ok(end_line(w))
}

/// The `youtube_connect` line.
pub fn build_youtube_connect_line(creds: &YouTubeCreds) -> (line: Result<
    Vec<u8>,
    serde_json::Error,
>)
    ensures
        line is Ok,
        line->Ok_0@ == control_line(youtube_connect_members(*creds)),
{
    let mut w = ObjectWriter::new();
    w.text("cmd", "youtube_connect")?;
    w.text("api_key", creds.api_key.as_str())?;
    w.text("live_chat_id", creds.live_chat_id.as_str())?;
    assert(w.members() =~= youtube_connect_members(*creds));
    Ok(end_line(w))
}

/// The `kick_connect` line.
pub fn build_kick_connect_line(chatroom_id: i64) -> (line: Result<Vec<u8>, serde_json::Error>)
    ensures
        line is Ok,
        line->Ok_0@ == control_line(kick_connect_members(chatroom_id)),
{
    let mut w = ObjectWriter::new();
    w.text("cmd", "kick_connect")?;
    w.signed("chatroom_id", chatroom_id)?;
    assert(w.members() =~= kick_connect_members(chatroom_id));
    Ok(end_line(w))
}

/// The `send_chat_message` line. The message's length is the caller's business; this is purely
/// a transport encoder.
pub fn build_send_chat_message_line(args: SendChatMessageArgs<'_>) -> (line: Result<
    Vec<u8>,
    serde_json::Error,
>)
    ensures
        line is Ok,
        line->Ok_0@ == control_line(
            send_chat_message_members(
                args.client_id@,
                args.access_token@,
                args.broadcaster_id@,
                args.user_id@,
                args.message@,
                args.request_id,
            ),
        ),
{
    let mut w = ObjectWriter::new();
    w.text("cmd", "send_chat_message")?;
    w.text("client_id", args.client_id)?;
    w.text("token", args.access_token)?;
    w.text("broadcaster_id", args.broadcaster_id)?;
    w.text("user_id", args.user_id)?;
    w.text("message", args.message)?;
    w.unsigned("request_id", args.request_id)?;
    assert(w.members() =~= send_chat_message_members(
        args.client_id@,
        args.access_token@,
        args.broadcaster_id@,
        args.user_id@,
        args.message@,
        args.request_id,
    ));
    Ok(end_line(w))
}

/// The `youtube_send_message` line.
pub fn build_youtube_send_message_line(args: YouTubeSendMessageArgs<'_>) -> (line: Result<
    Vec<u8>,
    serde_json::Error,
>)
    ensures
        line is Ok,
        line->Ok_0@ == control_line(
            youtube_send_message_members(
                args.access_token@,
                args.live_chat_id@,
                args.message@,
                args.request_id,
            ),
        ),
{
    let mut w = ObjectWriter::new();
    w.text("cmd", "youtube_send_message")?;
    w.text("token", args.access_token)?;
    w.text("live_chat_id", args.live_chat_id)?;
    w.text("message", args.message)?;
    w.unsigned("request_id", args.request_id)?;
    assert(w.members() =~= youtube_send_message_members(
        args.access_token@,
        args.live_chat_id@,
        args.message@,
        args.request_id,
    ));
    Ok(end_line(w))
}

/// A moderation line: `ban_user`, `timeout_user` or `delete_message`, as `args.cmd` says.
pub fn build_twitch_moderation_line(args: TwitchModerationArgs<'_>) -> (line: Result<
    Vec<u8>,
    serde_json::Error,
>)
    ensures
        line is Ok,
        line->Ok_0@ == control_line(twitch_moderation_members(args@)),
{
    let mut w = ObjectWriter::new();
    w.text("cmd", args.cmd)?;
    w.text("client_id", args.client_id)?;
    w.text("token", args.access_token)?;
    w.text("broadcaster_id", args.broadcaster_id)?;
    w.text("user_id", args.moderator_id)?;
    if let Some(target_user_id) = args.target_user_id {
        w.text("target_user_id", target_user_id)?;
    }
    if let Some(message_id) = args.message_id {
        w.text("message_id", message_id)?;
    }
    if let Some(duration_seconds) = args.duration_seconds {
        w.signed("duration_seconds", duration_seconds as i64)?;
    }
    if let Some(reason) = args.reason {
        w.text("reason", reason)?;
    }
    w.unsigned("request_id", args.request_id)?;
    assert(w.members() =~= twitch_moderation_members(args@));
    Ok(end_line(w))
}

/// The `token_refresh` line: the sidecar updates the access token on all running Twitch clients.
pub fn build_token_refresh_line(access_token: &str) -> (line: Result<Vec<u8>, serde_json::Error>)
    ensures
        line is Ok,
        line->Ok_0@ == control_line(token_refresh_members(access_token@)),
{
    let mut w = ObjectWriter::new();
    w.text("cmd", "token_refresh")?;
    w.text("token", access_token)?;
    assert(w.members() =~= token_refresh_members(access_token@));
    Ok(end_line(w))
}

// ---------------------------------------------------------------------------
// Laws
// ---------------------------------------------------------------------------

/// Two `send_chat_message` lines are equal only where every argument is: nothing that a sender
/// hands over, the request id above all, gets lost or mixed up on the way to the line.
pub proof fn law_send_chat_message_line_keeps_its_arguments(
    a: SendChatMessageArgs<'_>,
    b: SendChatMessageArgs<'_>,
)
    requires
        control_line(
            send_chat_message_members(
                a.client_id@,
                a.access_token@,
                a.broadcaster_id@,
                a.user_id@,
                a.message@,
                a.request_id,
            ),
        ) == control_line(
            send_chat_message_members(
                b.client_id@,
                b.access_token@,
                b.broadcaster_id@,
                b.user_id@,
                b.message@,
                b.request_id,
            ),
        ),
    ensures
        a.client_id@ == b.client_id@,
        a.access_token@ == b.access_token@,
        a.broadcaster_id@ == b.broadcaster_id@,
        a.user_id@ == b.user_id@,
        a.message@ == b.message@,
        a.request_id == b.request_id,
{
    let ma = send_chat_message_members(
        a.client_id@,
        a.access_token@,
        a.broadcaster_id@,
        a.user_id@,
        a.message@,
        a.request_id,
    );
    let mb = send_chat_message_members(
        b.client_id@,
        b.access_token@,
        b.broadcaster_id@,
        b.user_id@,
        b.message@,
        b.request_id,
    );
    law_control_line_is_unambiguous(ma, mb);
    assert(ma[1] == mb[1] && ma[2] == mb[2] && ma[3] == mb[3]);
    assert(ma[4] == mb[4] && ma[5] == mb[5] && ma[6] == mb[6]);
}

/// Two `youtube_send_message` lines are equal only where every argument is.
pub proof fn law_youtube_send_message_line_keeps_its_arguments(
    a: YouTubeSendMessageArgs<'_>,
    b: YouTubeSendMessageArgs<'_>,
)
    requires
        control_line(
            youtube_send_message_members(
                a.access_token@,
                a.live_chat_id@,
                a.message@,
                a.request_id,
            ),
        ) == control_line(
            youtube_send_message_members(
                b.access_token@,
                b.live_chat_id@,
                b.message@,
                b.request_id,
            ),
        ),
    ensures
        a.access_token@ == b.access_token@,
        a.live_chat_id@ == b.live_chat_id@,
        a.message@ == b.message@,
        a.request_id == b.request_id,
{
    let ma = youtube_send_message_members(
        a.access_token@,
        a.live_chat_id@,
        a.message@,
        a.request_id,
    );
    let mb = youtube_send_message_members(
        b.access_token@,
        b.live_chat_id@,
        b.message@,
        b.request_id,
    );
    law_control_line_is_unambiguous(ma, mb);
    assert(ma[1] == mb[1] && ma[2] == mb[2] && ma[3] == mb[3] && ma[4] == mb[4]);
}

/// The names of the members that a moderation line may leave out, and of the one behind them.
proof fn lemma_moderation_names_differ()
    ensures
        "target_user_id"@.len() == 14,
        "message_id"@.len() == 10,
        "duration_seconds"@.len() == 16,
        "reason"@.len() == 6,
        "request_id"@.len() == 10,
        "message_id"@ != "request_id"@,
{
    reveal_strlit("target_user_id");
    reveal_strlit("message_id");
    reveal_strlit("duration_seconds");
    reveal_strlit("reason");
    reveal_strlit("request_id");
    assert("message_id"@[0] != "request_id"@[0]);
}

/// The request id, the last member of a moderation line. Each of the three functions below puts
/// one more of the members that may be missing in front.
spec fn from_request(r: ModerationRequest) -> Seq<Member> {
    seq![integer_member("request_id"@, r.request_id as int)]
}

spec fn from_reason(r: ModerationRequest) -> Seq<Member> {
    optional_text("reason"@, r.reason) + from_request(r)
}

spec fn from_duration(r: ModerationRequest) -> Seq<Member> {
    optional_integer("duration_seconds"@, r.duration_seconds) + from_reason(r)
}

spec fn from_message(r: ModerationRequest) -> Seq<Member> {
    optional_text("message_id"@, r.message_id) + from_duration(r)
}

/// Equal moderation members have equal heads and equal tails.
proof fn lemma_moderation_parts(a: ModerationRequest, b: ModerationRequest)
    requires
        twitch_moderation_members(a) == twitch_moderation_members(b),
    ensures
        a.cmd == b.cmd,
        a.client_id == b.client_id,
        a.access_token == b.access_token,
        a.broadcaster_id == b.broadcaster_id,
        a.moderator_id == b.moderator_id,
        moderation_tail(a) == moderation_tail(b),
{
    let ha = moderation_head(a);
    let hb = moderation_head(b);
    let (ta, tb) = (moderation_tail(a), moderation_tail(b));
    assert(ha =~= (ha + ta).take(5));
    assert(hb =~= (hb + tb).take(5));
    assert(ta =~= (ha + ta).skip(5));
    assert(tb =~= (hb + tb).skip(5));
    assert(ha[0] == hb[0] && ha[1] == hb[1] && ha[2] == hb[2] && ha[3] == hb[3] && ha[4] == hb[4]);
}

/// No member that may be missing is followed by one of its own name.
proof fn lemma_moderation_heads(r: ModerationRequest)
    ensures
        from_message(r).len() > 0 && from_message(r)[0].name != "target_user_id"@,
        from_duration(r).len() > 0 && from_duration(r)[0].name != "message_id"@,
        from_reason(r).len() > 0 && from_reason(r)[0].name != "duration_seconds"@,
        from_request(r).len() > 0 && from_request(r)[0].name != "reason"@,
{
    lemma_moderation_names_differ();
}

/// A member that may be missing can be told from what follows it.
proof fn lemma_optional_prefix(
    name: Seq<char>,
    x: Seq<Member>,
    y: Seq<Member>,
    p: Seq<Member>,
    q: Seq<Member>,
)
    requires
        x.len() <= 1,
        y.len() <= 1,
        x.len() == 1 ==> x[0].name == name,
        y.len() == 1 ==> y[0].name == name,
        p.len() > 0 && p[0].name != name,
        q.len() > 0 && q[0].name != name,
        x + p == y + q,
    ensures
        x == y,
        p == q,
{
    let l = x + p;
    let r = y + q;
    assert(l[0].name == name <==> x.len() == 1);
    assert(r[0].name == name <==> y.len() == 1);
    assert(x =~= l.take(x.len() as int));
    assert(y =~= r.take(y.len() as int));
    assert(p =~= l.skip(x.len() as int));
    assert(q =~= r.skip(y.len() as int));
}

proof fn lemma_optional_text_injective(
    name: Seq<char>,
    x: Option<Seq<char>>,
    y: Option<Seq<char>>,
)
    requires
        optional_text(name, x) == optional_text(name, y),
    ensures
        x == y,
{
    let (l, r) = (optional_text(name, x), optional_text(name, y));
    assert(x is Some ==> l.len() == 1 && l[0] == text_member(name, x->0));
    assert(y is Some ==> r.len() == 1 && r[0] == text_member(name, y->0));
    assert(x is None ==> l.len() == 0);
    assert(y is None ==> r.len() == 0);
}

proof fn lemma_optional_integer_injective(name: Seq<char>, x: Option<i32>, y: Option<i32>)
    requires
        optional_integer(name, x) == optional_integer(name, y),
    ensures
        x == y,
{
    let (l, r) = (optional_integer(name, x), optional_integer(name, y));
    assert(x is Some ==> l.len() == 1 && l[0] == integer_member(name, x->0 as int));
    assert(y is Some ==> r.len() == 1 && r[0] == integer_member(name, y->0 as int));
    assert(x is None ==> l.len() == 0);
    assert(y is None ==> r.len() == 0);
}

/// Two moderation lines are equal only where every argument is, what is left out included: no
/// action can be taken for another, nor for one on another user or message.
pub proof fn law_moderation_line_keeps_its_arguments(a: ModerationRequest, b: ModerationRequest)
    requires
        control_line(twitch_moderation_members(a)) == control_line(twitch_moderation_members(b)),
    ensures
        a == b,
{
    let ma = twitch_moderation_members(a);
    let mb = twitch_moderation_members(b);
    law_control_line_is_unambiguous(ma, mb);
    lemma_moderation_heads(a);
    lemma_moderation_heads(b);
    lemma_moderation_parts(a, b);
    lemma_optional_prefix(
        "target_user_id"@,
        optional_text("target_user_id"@, a.target_user_id),
        optional_text("target_user_id"@, b.target_user_id),
        from_message(a),
        from_message(b),
    );
    lemma_optional_prefix(
        "message_id"@,
        optional_text("message_id"@, a.message_id),
        optional_text("message_id"@, b.message_id),
        from_duration(a),
        from_duration(b),
    );
    lemma_optional_prefix(
        "duration_seconds"@,
        optional_integer("duration_seconds"@, a.duration_seconds),
        optional_integer("duration_seconds"@, b.duration_seconds),
        from_reason(a),
        from_reason(b),
    );
    lemma_optional_prefix(
        "reason"@,
        optional_text("reason"@, a.reason),
        optional_text("reason"@, b.reason),
        from_request(a),
        from_request(b),
    );
    assert(from_request(a)[0] == from_request(b)[0]);
    lemma_optional_text_injective("target_user_id"@, a.target_user_id, b.target_user_id);
    lemma_optional_text_injective("message_id"@, a.message_id, b.message_id);
    lemma_optional_integer_injective("duration_seconds"@, a.duration_seconds, b.duration_seconds);
    lemma_optional_text_injective("reason"@, a.reason, b.reason);
}

// ---------------------------------------------------------------------------
// What the sidecar finds on a line, by name
// ---------------------------------------------------------------------------

/// The names that members of control lines have.
spec fn member_names() -> Seq<Seq<char>> {
    seq![
        "cmd"@,
        "client_id"@,
        "token"@,
        "broadcaster_id"@,
        "user_id"@,
        "message"@,
        "request_id"@,
        "live_chat_id"@,
        "api_key"@,
        "chatroom_id"@,
        "shm_handle"@,
        "shm_event_handle"@,
        "shm_size"@,
        "target_user_id"@,
        "message_id"@,
        "duration_seconds"@,
        "reason"@,
    ]
}

proof fn lemma_member_names_differ(i: int, j: int)
    requires
        0 <= i < 17,
        0 <= j < 17,
        i != j,
    ensures
        member_names()[i] != member_names()[j],
{
    reveal_strlit("cmd");
    reveal_strlit("client_id");
    reveal_strlit("token");
    reveal_strlit("broadcaster_id");
    reveal_strlit("user_id");
    reveal_strlit("message");
    reveal_strlit("request_id");
    reveal_strlit("live_chat_id");
    reveal_strlit("api_key");
    reveal_strlit("chatroom_id");
    reveal_strlit("shm_handle");
    reveal_strlit("shm_event_handle");
    reveal_strlit("shm_size");
    reveal_strlit("target_user_id");
    reveal_strlit("message_id");
    reveal_strlit("duration_seconds");
    reveal_strlit("reason");
    let (a, b) = (member_names()[i], member_names()[j]);
    if a == b {
        assert(a.len() == b.len() && a[0] == b[0] && a.last() == b.last());
        assert(a.len() > 4 ==> a[4] == b[4]);
    }
}

/// The members have the names at the given places of the list.
spec fn has_names(ms: Seq<Member>, places: Seq<int>) -> bool {
    &&& ms.len() == places.len()
    &&& forall|i: int|
        0 <= i < ms.len() ==> 0 <= #[trigger] places[i] < 17 && ms[i].name
            == member_names()[places[i]]
    &&& forall|i: int, j: int|
        0 <= i < j < places.len() ==> #[trigger] places[i] != #[trigger] places[j]
}

proof fn lemma_has_names(ms: Seq<Member>, places: Seq<int>)
    requires
        has_names(ms, places),
    ensures
        forall|i: int|
            0 <= i < ms.len() ==> value_named(ms, (#[trigger] ms[i]).name) == Some(ms[i].value),
{
    assert forall|i: int| 0 <= i < ms.len() implies value_named(ms, (#[trigger] ms[i]).name) == Some(
        ms[i].value,
    ) by {
        assert forall|j: int| 0 <= j < i implies (#[trigger] ms[j]).name != ms[i].name by {
            assert(places[j] != places[i]);
            lemma_member_names_differ(places[j], places[i]);
        }
        lemma_value_named_at(ms, i);
    }
}

/// On the bootstrap line the sidecar finds the two handles and the size, each under its name.
pub proof fn law_bootstrap_line_says(handle: RawHandle, event_handle: RawHandle, size: usize)
    ensures
        ({
            let ms = bootstrap_members(handle, event_handle, size);
            &&& ms.len() == 3
            &&& value_named(ms, "shm_handle"@) == Some(Scalar::Integer(handle as int))
            &&& value_named(ms, "shm_event_handle"@) == Some(Scalar::Integer(event_handle as int))
            &&& value_named(ms, "shm_size"@) == Some(Scalar::Integer(size as int))
        }),
{
    let ms = bootstrap_members(handle, event_handle, size);
    assert(has_names(ms, seq![10, 11, 12]));
    lemma_has_names(ms, seq![10, 11, 12]);
    assert(ms[0].name == "shm_handle"@);
    assert(ms[1].name == "shm_event_handle"@);
    assert(ms[2].name == "shm_size"@);
}

/// On a line that connects Twitch the sidecar finds each credential under its name.
pub proof fn law_twitch_connect_line_says(creds: TwitchCreds)
    ensures
        ({
            let ms = twitch_connect_members(creds);
            &&& ms.len() == 5
            &&& value_named(ms, "cmd"@) == Some(Scalar::Text("twitch_connect"@))
            &&& value_named(ms, "client_id"@) == Some(Scalar::Text(creds.client_id@))
            &&& value_named(ms, "token"@) == Some(Scalar::Text(creds.access_token@))
            &&& value_named(ms, "broadcaster_id"@) == Some(Scalar::Text(creds.broadcaster_id@))
            &&& value_named(ms, "user_id"@) == Some(Scalar::Text(creds.user_id@))
        }),
{
    let ms = twitch_connect_members(creds);
    assert(has_names(ms, seq![0, 1, 2, 3, 4]));
    lemma_has_names(ms, seq![0, 1, 2, 3, 4]);
    assert(ms[0].name == "cmd"@);
    assert(ms[1].name == "client_id"@);
    assert(ms[2].name == "token"@);
    assert(ms[3].name == "broadcaster_id"@);
    assert(ms[4].name == "user_id"@);
}

/// On a line that connects YouTube the sidecar finds the key and the chat.
pub proof fn law_youtube_connect_line_says(creds: YouTubeCreds)
    ensures
        ({
            let ms = youtube_connect_members(creds);
            &&& ms.len() == 3
            &&& value_named(ms, "cmd"@) == Some(Scalar::Text("youtube_connect"@))
            &&& value_named(ms, "api_key"@) == Some(Scalar::Text(creds.api_key@))
            &&& value_named(ms, "live_chat_id"@) == Some(Scalar::Text(creds.live_chat_id@))
        }),
{
    let ms = youtube_connect_members(creds);
    assert(has_names(ms, seq![0, 8, 7]));
    lemma_has_names(ms, seq![0, 8, 7]);
    assert(ms[0].name == "cmd"@);
    assert(ms[1].name == "api_key"@);
    assert(ms[2].name == "live_chat_id"@);
}

/// On a line that connects Kick the sidecar finds the chatroom.
pub proof fn law_kick_connect_line_says(chatroom_id: i64)
    ensures
        ({
            let ms = kick_connect_members(chatroom_id);
            &&& ms.len() == 2
            &&& value_named(ms, "cmd"@) == Some(Scalar::Text("kick_connect"@))
            &&& value_named(ms, "chatroom_id"@) == Some(Scalar::Integer(chatroom_id as int))
        }),
{
    let ms = kick_connect_members(chatroom_id);
    assert(has_names(ms, seq![0, 9]));
    lemma_has_names(ms, seq![0, 9]);
    assert(ms[0].name == "cmd"@);
    assert(ms[1].name == "chatroom_id"@);
}

/// On a line that sends to Twitch the sidecar finds who sends what where, each under its name.
pub proof fn law_send_chat_message_line_says(
    client_id: Seq<char>,
    access_token: Seq<char>,
    broadcaster_id: Seq<char>,
    user_id: Seq<char>,
    message: Seq<char>,
    request_id: u64,
)
    ensures
        ({
            let ms = send_chat_message_members(
                client_id,
                access_token,
                broadcaster_id,
                user_id,
                message,
                request_id,
            );
            &&& ms.len() == 7
            &&& value_named(ms, "cmd"@) == Some(Scalar::Text("send_chat_message"@))
            &&& value_named(ms, "client_id"@) == Some(Scalar::Text(client_id))
            &&& value_named(ms, "token"@) == Some(Scalar::Text(access_token))
            &&& value_named(ms, "broadcaster_id"@) == Some(Scalar::Text(broadcaster_id))
            &&& value_named(ms, "user_id"@) == Some(Scalar::Text(user_id))
            &&& value_named(ms, "message"@) == Some(Scalar::Text(message))
            &&& value_named(ms, "request_id"@) == Some(Scalar::Integer(request_id as int))
        }),
{
    let ms = send_chat_message_members(
        client_id,
        access_token,
        broadcaster_id,
        user_id,
        message,
        request_id,
    );
    assert(has_names(ms, seq![0, 1, 2, 3, 4, 5, 6]));
    lemma_has_names(ms, seq![0, 1, 2, 3, 4, 5, 6]);
    assert(ms[0].name == "cmd"@);
    assert(ms[1].name == "client_id"@);
    assert(ms[2].name == "token"@);
    assert(ms[3].name == "broadcaster_id"@);
    assert(ms[4].name == "user_id"@);
    assert(ms[5].name == "message"@);
    assert(ms[6].name == "request_id"@);
}

/// On a line that sends to YouTube the sidecar finds who sends what where, each under its name.
pub proof fn law_youtube_send_message_line_says(
    access_token: Seq<char>,
    live_chat_id: Seq<char>,
    message: Seq<char>,
    request_id: u64,
)
    ensures
        ({
            let ms = youtube_send_message_members(access_token, live_chat_id, message, request_id);
            &&& ms.len() == 5
            &&& value_named(ms, "cmd"@) == Some(Scalar::Text("youtube_send_message"@))
            &&& value_named(ms, "token"@) == Some(Scalar::Text(access_token))
            &&& value_named(ms, "live_chat_id"@) == Some(Scalar::Text(live_chat_id))
            &&& value_named(ms, "message"@) == Some(Scalar::Text(message))
            &&& value_named(ms, "request_id"@) == Some(Scalar::Integer(request_id as int))
        }),
{
    let ms = youtube_send_message_members(access_token, live_chat_id, message, request_id);
    assert(has_names(ms, seq![0, 2, 7, 5, 6]));
    lemma_has_names(ms, seq![0, 2, 7, 5, 6]);
    assert(ms[0].name == "cmd"@);
    assert(ms[1].name == "token"@);
    assert(ms[2].name == "live_chat_id"@);
    assert(ms[3].name == "message"@);
    assert(ms[4].name == "request_id"@);
}

/// On a line that refreshes the token the sidecar finds the token.
pub proof fn law_token_refresh_line_says(access_token: Seq<char>)
    ensures
        ({
            let ms = token_refresh_members(access_token);
            &&& ms.len() == 2
            &&& value_named(ms, "cmd"@) == Some(Scalar::Text("token_refresh"@))
            &&& value_named(ms, "token"@) == Some(Scalar::Text(access_token))
        }),
{
    let ms = token_refresh_members(access_token);
    assert(has_names(ms, seq![0, 2]));
    lemma_has_names(ms, seq![0, 2]);
    assert(ms[0].name == "cmd"@);
    assert(ms[1].name == "token"@);
}

proof fn lemma_optional_text_named(
    at: int,
    value: Option<Seq<char>>,
    rest: Seq<Member>,
    wanted: int,
)
    requires
        0 <= at < 17,
        0 <= wanted < 17,
    ensures
        value_named(optional_text(member_names()[at], value) + rest, member_names()[wanted]) == if at
            == wanted && value is Some {
            Some(Scalar::Text(value->0))
        } else {
            value_named(rest, member_names()[wanted])
        },
{
    let first = optional_text(member_names()[at], value);
    lemma_value_named_in_both(first, rest, member_names()[wanted]);
    if at != wanted {
        lemma_member_names_differ(at, wanted);
    }
    reveal_with_fuel(value_named, 2);
    if value is Some {
        assert(first.len() == 1 && first[0] == text_member(member_names()[at], value->0));
        assert(first.drop_first().len() == 0);
    } else {
        assert(first.len() == 0);
    }
}

proof fn lemma_optional_integer_named(
    at: int,
    value: Option<i32>,
    rest: Seq<Member>,
    wanted: int,
)
    requires
        0 <= at < 17,
        0 <= wanted < 17,
    ensures
        value_named(optional_integer(member_names()[at], value) + rest, member_names()[wanted])
            == if at == wanted && value is Some {
            Some(Scalar::Integer(value->0 as int))
        } else {
            value_named(rest, member_names()[wanted])
        },
{
    let first = optional_integer(member_names()[at], value);
    lemma_value_named_in_both(first, rest, member_names()[wanted]);
    if at != wanted {
        lemma_member_names_differ(at, wanted);
    }
    reveal_with_fuel(value_named, 2);
    if value is Some {
        assert(first.len() == 1 && first[0] == integer_member(member_names()[at], value->0 as int));
        assert(first.drop_first().len() == 0);
    } else {
        assert(first.len() == 0);
    }
}

/// What the tail of a moderation line gives under the name at the place `wanted`.
proof fn lemma_moderation_tail_named(r: ModerationRequest, wanted: int)
    requires
        0 <= wanted < 17,
    ensures
        value_named(moderation_tail(r), member_names()[wanted]) == if wanted == 13
            && r.target_user_id is Some {
            Some(Scalar::Text(r.target_user_id->0))
        } else if wanted == 14 && r.message_id is Some {
            Some(Scalar::Text(r.message_id->0))
        } else if wanted == 15 && r.duration_seconds is Some {
            Some(Scalar::Integer(r.duration_seconds->0 as int))
        } else if wanted == 16 && r.reason is Some {
            Some(Scalar::Text(r.reason->0))
        } else if wanted == 6 {
            Some(Scalar::Integer(r.request_id as int))
        } else {
            None
        },
{
    let last = seq![integer_member("request_id"@, r.request_id as int)];
    let from_reason = optional_text("reason"@, r.reason) + last;
    let from_duration = optional_integer("duration_seconds"@, r.duration_seconds) + from_reason;
    let from_message = optional_text("message_id"@, r.message_id) + from_duration;
    assert(member_names()[13] == "target_user_id"@);
    assert(member_names()[14] == "message_id"@);
    assert(member_names()[15] == "duration_seconds"@);
    assert(member_names()[16] == "reason"@);
    assert(member_names()[6] == "request_id"@);
    lemma_optional_text_named(13, r.target_user_id, from_message, wanted);
    lemma_optional_text_named(14, r.message_id, from_duration, wanted);
    lemma_optional_integer_named(15, r.duration_seconds, from_reason, wanted);
    lemma_optional_text_named(16, r.reason, last, wanted);
    reveal_with_fuel(value_named, 2);
    assert(last[0].name == "request_id"@);
    assert(last.drop_first().len() == 0);
    if wanted != 6 {
        lemma_member_names_differ(6, wanted);
    }
}

/// What the head of a moderation line gives under the name at the place `wanted`.
proof fn lemma_moderation_head_named(r: ModerationRequest, wanted: int)
    requires
        0 <= wanted < 17,
    ensures
        wanted >= 5 ==> value_named(moderation_head(r), member_names()[wanted]) is None,
        value_named(moderation_head(r), "cmd"@) == Some(Scalar::Text(r.cmd)),
        value_named(moderation_head(r), "client_id"@) == Some(Scalar::Text(r.client_id)),
        value_named(moderation_head(r), "token"@) == Some(Scalar::Text(r.access_token)),
        value_named(moderation_head(r), "broadcaster_id"@) == Some(Scalar::Text(r.broadcaster_id)),
        value_named(moderation_head(r), "user_id"@) == Some(Scalar::Text(r.moderator_id)),
{
    let ms = moderation_head(r);
    assert(has_names(ms, seq![0, 1, 2, 3, 4]));
    lemma_has_names(ms, seq![0, 1, 2, 3, 4]);
    assert(ms[0].name == "cmd"@);
    assert(ms[1].name == "client_id"@);
    assert(ms[2].name == "token"@);
    assert(ms[3].name == "broadcaster_id"@);
    assert(ms[4].name == "user_id"@);
    if wanted >= 5 {
        lemma_member_names_differ(0, wanted);
        lemma_member_names_differ(1, wanted);
        lemma_member_names_differ(2, wanted);
        lemma_member_names_differ(3, wanted);
        lemma_member_names_differ(4, wanted);
        lemma_value_named_absent(ms, member_names()[wanted]);
    }
}

/// On a moderation line the sidecar finds the command, who moderates where, and the request id,
/// each under its name; and of the user, the message, the duration and the reason exactly those
/// that were given.
pub proof fn law_moderation_line_says(r: ModerationRequest)
    ensures
        ({
            let ms = twitch_moderation_members(r);
            &&& value_named(ms, "cmd"@) == Some(Scalar::Text(r.cmd))
            &&& value_named(ms, "client_id"@) == Some(Scalar::Text(r.client_id))
            &&& value_named(ms, "token"@) == Some(Scalar::Text(r.access_token))
            &&& value_named(ms, "broadcaster_id"@) == Some(Scalar::Text(r.broadcaster_id))
            &&& value_named(ms, "user_id"@) == Some(Scalar::Text(r.moderator_id))
            &&& value_named(ms, "request_id"@) == Some(Scalar::Integer(r.request_id as int))
            &&& match r.target_user_id {
                Some(s) => value_named(ms, "target_user_id"@) == Some(Scalar::Text(s)),
                None => value_named(ms, "target_user_id"@) is None,
            }
            &&& match r.message_id {
                Some(s) => value_named(ms, "message_id"@) == Some(Scalar::Text(s)),
                None => value_named(ms, "message_id"@) is None,
            }
            &&& match r.duration_seconds {
                Some(n) => value_named(ms, "duration_seconds"@) == Some(Scalar::Integer(n as int)),
                None => value_named(ms, "duration_seconds"@) is None,
            }
            &&& match r.reason {
                Some(s) => value_named(ms, "reason"@) == Some(Scalar::Text(s)),
                None => value_named(ms, "reason"@) is None,
            }
        }),
{
    let (head, tail) = (moderation_head(r), moderation_tail(r));
    assert(member_names()[13] == "target_user_id"@);
    assert(member_names()[14] == "message_id"@);
    assert(member_names()[15] == "duration_seconds"@);
    assert(member_names()[16] == "reason"@);
    assert(member_names()[6] == "request_id"@);
    lemma_value_named_in_both(head, tail, "cmd"@);
    lemma_value_named_in_both(head, tail, "client_id"@);
    lemma_value_named_in_both(head, tail, "token"@);
    lemma_value_named_in_both(head, tail, "broadcaster_id"@);
    lemma_value_named_in_both(head, tail, "user_id"@);
    lemma_value_named_in_both(head, tail, member_names()[6]);
    lemma_value_named_in_both(head, tail, member_names()[13]);
    lemma_value_named_in_both(head, tail, member_names()[14]);
    lemma_value_named_in_both(head, tail, member_names()[15]);
    lemma_value_named_in_both(head, tail, member_names()[16]);
    lemma_moderation_head_named(r, 6);
    lemma_moderation_head_named(r, 13);
    lemma_moderation_head_named(r, 14);
    lemma_moderation_head_named(r, 15);
    lemma_moderation_head_named(r, 16);
    lemma_moderation_tail_named(r, 6);
    lemma_moderation_tail_named(r, 13);
    lemma_moderation_tail_named(r, 14);
    lemma_moderation_tail_named(r, 15);
    lemma_moderation_tail_named(r, 16);
}

/// A moderation request is what its arguments are, field by field.
pub proof fn law_requests_hold_their_arguments(args: TwitchModerationArgs<'_>)
    ensures
        args@.cmd == args.cmd@,
        args@.client_id == args.client_id@,
        args@.access_token == args.access_token@,
        args@.broadcaster_id == args.broadcaster_id@,
        args@.moderator_id == args.moderator_id@,
        args@.request_id == args.request_id,
        args@.duration_seconds == args.duration_seconds,
        args.target_user_id matches Some(s) ==> args@.target_user_id == Some(s@),
        args.target_user_id is None ==> args@.target_user_id is None,
        args.message_id matches Some(s) ==> args@.message_id == Some(s@),
        args.message_id is None ==> args@.message_id is None,
        args.reason matches Some(s) ==> args@.reason == Some(s@),
        args.reason is None ==> args@.reason is None,
{
}

/// A line gives `value` under `name`.
pub open spec fn line_gives(line: Seq<u8>, name: Seq<char>, value: Scalar) -> bool {
    exists|ms: Seq<Member>|
        line == #[trigger] control_line(ms) && value_named(ms, name) == Some(value)
}

/// The bootstrap line that is built gives the handles and the size.
pub proof fn law_built_bootstrap_lines(handle: RawHandle, event_handle: RawHandle, size: usize, line: Result<Vec<u8>, serde_json::Error>)
    requires
        call_ensures(build_bootstrap_line, (handle, event_handle, size), line),
    ensures
        line is Ok,
        line_gives(line->Ok_0@, "shm_handle"@, Scalar::Integer(handle as int)),
        line_gives(line->Ok_0@, "shm_event_handle"@, Scalar::Integer(event_handle as int)),
        line_gives(line->Ok_0@, "shm_size"@, Scalar::Integer(size as int)),
{
    law_bootstrap_line_says(handle, event_handle, size);
}

/// The line that is built to connect Twitch gives the credentials.
pub proof fn law_built_twitch_connect_lines(creds: TwitchCreds, line: Result<Vec<u8>, serde_json::Error>)
    requires
        call_ensures(build_twitch_connect_line, (&creds,), line),
    ensures
        line is Ok,
        line_gives(line->Ok_0@, "cmd"@, Scalar::Text("twitch_connect"@)),
        line_gives(line->Ok_0@, "client_id"@, Scalar::Text(creds.client_id@)),
        line_gives(line->Ok_0@, "token"@, Scalar::Text(creds.access_token@)),
        line_gives(line->Ok_0@, "broadcaster_id"@, Scalar::Text(creds.broadcaster_id@)),
        line_gives(line->Ok_0@, "user_id"@, Scalar::Text(creds.user_id@)),
{
    law_twitch_connect_line_says(creds);
}

/// The line that is built to connect YouTube gives the key and the chat.
pub proof fn law_built_youtube_connect_lines(creds: YouTubeCreds, line: Result<Vec<u8>, serde_json::Error>)
    requires
        call_ensures(build_youtube_connect_line, (&creds,), line),
    ensures
        line is Ok,
        line_gives(line->Ok_0@, "cmd"@, Scalar::Text("youtube_connect"@)),
        line_gives(line->Ok_0@, "api_key"@, Scalar::Text(creds.api_key@)),
        line_gives(line->Ok_0@, "live_chat_id"@, Scalar::Text(creds.live_chat_id@)),
{
    law_youtube_connect_line_says(creds);
}

/// The line that is built to connect Kick gives the chatroom.
pub proof fn law_built_kick_connect_lines(chatroom_id: i64, line: Result<Vec<u8>, serde_json::Error>)
    requires
        call_ensures(build_kick_connect_line, (chatroom_id,), line),
    ensures
        line is Ok,
        line_gives(line->Ok_0@, "cmd"@, Scalar::Text("kick_connect"@)),
        line_gives(line->Ok_0@, "chatroom_id"@, Scalar::Integer(chatroom_id as int)),
{
    law_kick_connect_line_says(chatroom_id);
}

/// The line that is built for a Twitch send gives every argument under its name.
pub proof fn law_built_send_chat_message_lines(args: SendChatMessageArgs<'_>, line: Result<Vec<u8>, serde_json::Error>)
    requires
        call_ensures(build_send_chat_message_line, (args,), line),
    ensures
        line is Ok,
        line_gives(line->Ok_0@, "cmd"@, Scalar::Text("send_chat_message"@)),
        line_gives(line->Ok_0@, "client_id"@, Scalar::Text(args.client_id@)),
        line_gives(line->Ok_0@, "token"@, Scalar::Text(args.access_token@)),
        line_gives(line->Ok_0@, "broadcaster_id"@, Scalar::Text(args.broadcaster_id@)),
        line_gives(line->Ok_0@, "user_id"@, Scalar::Text(args.user_id@)),
        line_gives(line->Ok_0@, "message"@, Scalar::Text(args.message@)),
        line_gives(line->Ok_0@, "request_id"@, Scalar::Integer(args.request_id as int)),
{
    law_send_chat_message_line_says(
        args.client_id@,
        args.access_token@,
        args.broadcaster_id@,
        args.user_id@,
        args.message@,
        args.request_id,
    );
}

/// The line that is built for a YouTube send gives every argument under its name.
pub proof fn law_built_youtube_send_message_lines(args: YouTubeSendMessageArgs<'_>, line: Result<Vec<u8>, serde_json::Error>)
    requires
        call_ensures(build_youtube_send_message_line, (args,), line),
    ensures
        line is Ok,
        line_gives(line->Ok_0@, "cmd"@, Scalar::Text("youtube_send_message"@)),
        line_gives(line->Ok_0@, "token"@, Scalar::Text(args.access_token@)),
        line_gives(line->Ok_0@, "live_chat_id"@, Scalar::Text(args.live_chat_id@)),
        line_gives(line->Ok_0@, "message"@, Scalar::Text(args.message@)),
        line_gives(line->Ok_0@, "request_id"@, Scalar::Integer(args.request_id as int)),
{
    law_youtube_send_message_line_says(
        args.access_token@,
        args.live_chat_id@,
        args.message@,
        args.request_id,
    );
}

/// The line that is built for a token refresh gives the token.
pub proof fn law_built_token_refresh_lines(access_token: &str, line: Result<Vec<u8>, serde_json::Error>)
    requires
        call_ensures(build_token_refresh_line, (access_token,), line),
    ensures
        line is Ok,
        line_gives(line->Ok_0@, "cmd"@, Scalar::Text("token_refresh"@)),
        line_gives(line->Ok_0@, "token"@, Scalar::Text(access_token@)),
{
    law_token_refresh_line_says(access_token@);
}

/// The line that is built for moderation gives every argument that is there under its name.
pub proof fn law_built_moderation_lines(args: TwitchModerationArgs<'_>, line: Result<Vec<u8>, serde_json::Error>)
    requires
        call_ensures(build_twitch_moderation_line, (args,), line),
    ensures
        line is Ok,
        line_gives(line->Ok_0@, "cmd"@, Scalar::Text(args.cmd@)),
        line_gives(line->Ok_0@, "client_id"@, Scalar::Text(args.client_id@)),
        line_gives(line->Ok_0@, "token"@, Scalar::Text(args.access_token@)),
        line_gives(line->Ok_0@, "broadcaster_id"@, Scalar::Text(args.broadcaster_id@)),
        line_gives(line->Ok_0@, "user_id"@, Scalar::Text(args.moderator_id@)),
        line_gives(line->Ok_0@, "request_id"@, Scalar::Integer(args.request_id as int)),
        args.target_user_id matches Some(s) ==> line_gives(line->Ok_0@, "target_user_id"@, Scalar::Text(s@)),
        args.message_id matches Some(s) ==> line_gives(line->Ok_0@, "message_id"@, Scalar::Text(s@)),
        args.duration_seconds matches Some(n) ==> line_gives(line->Ok_0@, "duration_seconds"@, Scalar::Integer(n as int)),
        args.reason matches Some(s) ==> line_gives(line->Ok_0@, "reason"@, Scalar::Text(s@)),
{
    law_moderation_line_says(args@);
}

} // verus!
