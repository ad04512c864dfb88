//! The commands of the frontend: send a chat message, moderate a chat.
//!
//! Each command has two halves. The first turns what the frontend asked, with what the token
//! load came to, into a line on the sidecar's stdin and a registered request. The second turns
//! the answer, once it is there, into what the frontend gets.
use tokio::sync::oneshot;
use vstd::prelude::*;
use vstd::utf8::encode_utf8;

use crate::auth_error::{AuthError, YouTubeAuthError};
use crate::control::{
    build_send_chat_message_line, build_twitch_moderation_line, build_youtube_send_message_line,
    law_moderation_line_says, law_send_chat_message_line_says, law_youtube_send_message_line_says,
    line_gives,
    optional_view, send_chat_message_members, twitch_moderation_members,
    youtube_send_message_members, ModerationRequest, SendChatMessageArgs, TwitchModerationArgs, YouTubeSendMessageArgs,
};
use crate::errors::SendCommandError;
use crate::events::SendChatResult;
use crate::framing::control_line;
use crate::json::{value_named, Member, Scalar};
use crate::sender::{line_sent, SidecarCommandSender};
use crate::text::{
    is_blank, is_white_space, law_trimming, law_trimming_ignores_padding,
    law_trimming_is_idempotent, trim, trimmed,
};
use crate::tokens::TwitchTokens;

verus! {

/// Maximum chat message length that Twitch accepts, in bytes. Checked here so that oversized
/// payloads are rejected before they cross the process boundary.
pub const MAX_CHAT_MESSAGE_BYTES: usize = 500;

/// Maximum chat message length that the YouTube Data API accepts, in Unicode characters.
pub const MAX_YOUTUBE_MESSAGE_CHARS: usize = 200;

/// The longest timeout that Twitch accepts, in seconds.
pub const MAX_TIMEOUT_SECONDS: i32 = 1_209_600;

/// The timeout that is meant where none is given, in seconds.
pub const DEFAULT_TIMEOUT_SECONDS: i32 = 60;

/// Success payload of a send: the platform's id for the message.
#[derive(Debug, Clone)]
pub struct SendChatOk {
    pub message_id: String,
}

/// Success payload of a moderation action.
#[derive(Debug, Clone)]
pub struct ModerationOk {
    pub ok: bool,
}

/// What a moderator can do.
#[derive(Debug, Clone)]
pub enum TwitchModerationAction {
    Ban,
    Timeout,
    Delete,
}

// ---------------------------------------------------------------------------
// Messages
// ---------------------------------------------------------------------------

/// What becomes of a message text.
pub enum MessageVerdict {
    /// Nothing but white space.
    Empty,
    /// Longer than the platform takes.
    TooLong,
    /// The text to send.
    Fits(Seq<char>),
}

/// Twitch counts the bytes of the trimmed text.
pub open spec fn chat_verdict(text: Seq<char>) -> MessageVerdict {
    let t = trimmed(text);
    if t.len() == 0 {
        MessageVerdict::Empty
    } else if encode_utf8(t).len() > MAX_CHAT_MESSAGE_BYTES {
        MessageVerdict::TooLong
    } else {
        MessageVerdict::Fits(t)
    }
}

/// YouTube counts the characters of the trimmed text.
pub open spec fn youtube_verdict(text: Seq<char>) -> MessageVerdict {
    let t = trimmed(text);
    if t.len() == 0 {
        MessageVerdict::Empty
    } else if t.len() > MAX_YOUTUBE_MESSAGE_CHARS {
        MessageVerdict::TooLong
    } else {
        MessageVerdict::Fits(t)
    }
}

/// Trims `text` and rejects empty or oversize messages.
pub fn validate_message(text: &str) -> (r: Result<&str, SendCommandError>)
    ensures
        match chat_verdict(text@) {
            MessageVerdict::Empty => r == Err::<&str, SendCommandError>(
                SendCommandError::EmptyMessage,
            ),
            MessageVerdict::TooLong => r == Err::<&str, SendCommandError>(
                SendCommandError::MessageTooLong { max_bytes: MAX_CHAT_MESSAGE_BYTES },
            ),
            MessageVerdict::Fits(t) => r is Ok && r->Ok_0@ == t,
        },
{
    let trimmed = trim(text);
    if trimmed.is_empty() {
        return Err(SendCommandError::EmptyMessage);
    }
    if trimmed.as_bytes().len() > MAX_CHAT_MESSAGE_BYTES {
        return Err(SendCommandError::MessageTooLong { max_bytes: MAX_CHAT_MESSAGE_BYTES });
    }
    Ok(trimmed)
}

/// YouTube counterpart of [`validate_message`]: the cap is on characters, not bytes.
pub fn validate_youtube_message(text: &str) -> (r: Result<&str, SendCommandError>)
    ensures
        match youtube_verdict(text@) {
            MessageVerdict::Empty => r == Err::<&str, SendCommandError>(
                SendCommandError::EmptyMessage,
            ),
            MessageVerdict::TooLong => r == Err::<&str, SendCommandError>(
                SendCommandError::MessageTooLongChars { max_chars: MAX_YOUTUBE_MESSAGE_CHARS },
            ),
            MessageVerdict::Fits(t) => r is Ok && r->Ok_0@ == t,
        },
{
    let trimmed = trim(text);
    if trimmed.is_empty() {
        return Err(SendCommandError::EmptyMessage);
    }
    if trimmed.unicode_len() > MAX_YOUTUBE_MESSAGE_CHARS {
        return Err(
            SendCommandError::MessageTooLongChars { max_chars: MAX_YOUTUBE_MESSAGE_CHARS },
        );
    }
    Ok(trimmed)
}

// ---------------------------------------------------------------------------
// Answers
// ---------------------------------------------------------------------------

/// What the user is told of a refused message: the platform's own words where it dropped the
/// message, those of the transport where it did not even get there, and a stock phrase where
/// either is silent.
pub open spec fn refusal_text(r: SendChatResult) -> Seq<char> {
    if r.drop_code@.len() > 0 || r.drop_message@.len() > 0 {
        if r.drop_message@.len() > 0 {
            r.drop_message@
        } else {
            "message rejected"@
        }
    } else if r.error_message@.len() > 0 {
        r.error_message@
    } else {
        "send failed"@
    }
}

impl SendCommandError {
    /// `self` is how the frontend hears of `err`.
    pub open spec fn reports_auth(self, err: AuthError) -> bool {
        if err is NoTokens || err is RefreshTokenInvalid {
            self matches SendCommandError::NotLoggedIn { message } && message@ == err.text()
        } else {
            self matches SendCommandError::Auth { message } && message@ == err.text()
        }
    }

    /// `self` is how the frontend hears of `err`.
    pub open spec fn reports_youtube_auth(self, err: YouTubeAuthError) -> bool {
        if err is NoTokens || err is RefreshTokenInvalid {
            self matches SendCommandError::NotLoggedIn { message } && message@ == err.text()
        } else {
            self matches SendCommandError::Auth { message } && message@ == err.text()
        }
    }

    /// Missing or dead tokens mean that the user has to sign in; anything else is a failure of
    /// the authentication itself.
    pub fn auth(err: AuthError) -> (r: Self)
        ensures
            r.reports_auth(err),
    {
        match err {
            AuthError::NoTokens | AuthError::RefreshTokenInvalid => SendCommandError::NotLoggedIn {
                message: err.message(),
            },
            other => SendCommandError::Auth { message: other.message() },
        }
    }

    /// YouTube counterpart of [`SendCommandError::auth`].
    pub fn youtube_auth(err: YouTubeAuthError) -> (r: Self)
        ensures
            r.reports_youtube_auth(err),
    {
        match err {
            YouTubeAuthError::NoTokens | YouTubeAuthError::RefreshTokenInvalid =>
            SendCommandError::NotLoggedIn { message: err.message() },
            other => SendCommandError::Auth { message: other.message() },
        }
    }

    /// What a Twitch send came to.
    pub fn from_send_result(r: SendChatResult) -> (out: Result<SendChatOk, Self>)
        ensures
            r.ok ==> out is Ok && out->Ok_0.message_id@ == r.message_id@,
            !r.ok ==> (out matches Err(SendCommandError::Helix { code, message }) && code@
                == r.drop_code@ && message@ == refusal_text(r)),
    {
        let rejected = |code: String, message: String| -> (e: SendCommandError)
            ensures
                e == (SendCommandError::Helix { code, message }),
        {
            SendCommandError::Helix { code, message }
        };
        Self::from_send_result_with(r, rejected)
    }

    /// YouTube counterpart of [`SendCommandError::from_send_result`].
    pub fn from_youtube_send_result(r: SendChatResult) -> (out: Result<SendChatOk, Self>)
        ensures
            r.ok ==> out is Ok && out->Ok_0.message_id@ == r.message_id@,
            !r.ok ==> (out matches Err(SendCommandError::YouTube { code, message }) && code@
                == r.drop_code@ && message@ == refusal_text(r)),
    {
        let rejected = |code: String, message: String| -> (e: SendCommandError)
            ensures
                e == (SendCommandError::YouTube { code, message }),
        {
            SendCommandError::YouTube { code, message }
        };
        Self::from_send_result_with(r, rejected)
    }

    /// What a send came to, with the platform's own way to report a refusal.
    pub fn from_send_result_with<F>(r: SendChatResult, rejected: F) -> (out: Result<
        SendChatOk,
        Self,
    >) where F: FnOnce(String, String) -> Self
        requires
            forall|code: String, message: String| call_requires(rejected, (code, message)),
        ensures
            r.ok ==> out is Ok && out->Ok_0.message_id@ == r.message_id@,
            !r.ok ==> exists|code: String, message: String, e: Self| #[trigger]
                call_ensures(rejected, (code, message), e) && {
                    &&& out == Err::<SendChatOk, Self>(e)
                    &&& code@ == r.drop_code@
                    &&& message@ == refusal_text(r)
                },
    {
        if r.ok {
            return Ok(SendChatOk { message_id: r.message_id });
        }
        if !r.drop_code.as_str().is_empty() || !r.drop_message.as_str().is_empty() {
            let message = if r.drop_message.as_str().is_empty() {
                "message rejected".to_owned()
            } else {
                r.drop_message
            };
            return Err(rejected(r.drop_code, message));
        }
        let message = if r.error_message.as_str().is_empty() {
            "send failed".to_owned()
        } else {
            r.error_message
        };
        let code = String::new();
        assert(code@ =~= r.drop_code@);
        Err(rejected(code, message))
    }
}

/// The second half of a Twitch send. `None` says that the request was dropped unanswered,
/// because the sidecar is gone.
pub fn twitch_send_reply(reply: Option<SendChatResult>) -> (out: Result<
    SendChatOk,
    SendCommandError,
>)
    ensures
        reply is None ==> out == Err::<SendChatOk, SendCommandError>(
            SendCommandError::SidecarNotRunning,
        ),
        reply is Some && reply->0.ok ==> out is Ok && out->Ok_0.message_id@
            == reply->0.message_id@,
        reply is Some && !reply->0.ok ==> (out matches Err(
            SendCommandError::Helix { code, message },
        ) && code@ == reply->0.drop_code@ && message@ == refusal_text(reply->0)),
{
    match reply {
        Some(result) => SendCommandError::from_send_result(result),
        None => Err(SendCommandError::SidecarNotRunning),
    }
}

/// The second half of a YouTube send.
pub fn youtube_send_reply(reply: Option<SendChatResult>) -> (out: Result<
    SendChatOk,
    SendCommandError,
>)
    ensures
        reply is None ==> out == Err::<SendChatOk, SendCommandError>(
            SendCommandError::SidecarNotRunning,
        ),
        reply is Some && reply->0.ok ==> out is Ok && out->Ok_0.message_id@
            == reply->0.message_id@,
        reply is Some && !reply->0.ok ==> (out matches Err(
            SendCommandError::YouTube { code, message },
        ) && code@ == reply->0.drop_code@ && message@ == refusal_text(reply->0)),
{
    match reply {
        Some(result) => SendCommandError::from_youtube_send_result(result),
        None => Err(SendCommandError::SidecarNotRunning),
    }
}

/// The second half of a moderation action. A refusal is told in the transport's words, or in
/// Twitch's where the transport has none.
pub fn twitch_moderation_reply(reply: Option<SendChatResult>) -> (out: Result<
    ModerationOk,
    SendCommandError,
>)
    ensures
        reply is None ==> out == Err::<ModerationOk, SendCommandError>(
            SendCommandError::SidecarNotRunning,
        ),
        reply is Some && reply->0.ok ==> out is Ok && out->Ok_0.ok,
        reply is Some && !reply->0.ok ==> (out matches Err(
            SendCommandError::Helix { code, message },
        ) && code@ == reply->0.drop_code@ && message@ == if reply->0.error_message@.len() > 0 {
            reply->0.error_message@
        } else {
            reply->0.drop_message@
        }),
{
    match reply {
        None => Err(SendCommandError::SidecarNotRunning),
        Some(result) => {
            if result.ok {
                Ok(ModerationOk { ok: true })
            } else {
                let message = if result.error_message.as_str().is_empty() {
                    result.drop_message
                } else {
                    result.error_message
                };
                Err(SendCommandError::Helix { code: result.drop_code, message })
            }
        },
    }
}

// ---------------------------------------------------------------------------
// Requests
// ---------------------------------------------------------------------------

/// The first half of a Twitch send: validates the text, then takes up what the token load came
/// to, then registers `tx` and writes the line. The first of the three that fails decides the
/// error, and only the last touches `sender`.
pub fn twitch_send_message<C, W, E>(
    sender: &mut SidecarCommandSender<C>,
    client_id: &str,
    auth: Result<TwitchTokens, AuthError>,
    text: &str,
    tx: oneshot::Sender<SendChatResult>,
    write: W,
) -> (r: Result<(), SendCommandError>) where
    W: FnOnce(&mut C, &[u8]) -> Result<(), E>,
    E: std::fmt::Display,

    requires
        forall|child: &mut C, line: &[u8]| call_requires(write, (child, line)),
    ensures
        old(sender).pending.wf() ==> final(sender).pending.wf(),
        match chat_verdict(text@) {
            MessageVerdict::Empty => r == Err::<(), SendCommandError>(
                SendCommandError::EmptyMessage,
            ) && *final(sender) == *old(sender),
            MessageVerdict::TooLong => r == Err::<(), SendCommandError>(
                SendCommandError::MessageTooLong { max_bytes: MAX_CHAT_MESSAGE_BYTES },
            ) && *final(sender) == *old(sender),
            MessageVerdict::Fits(message) => match auth {
                Err(e) => r is Err && r->Err_0.reports_auth(e) && *final(sender) == *old(sender),
                Ok(tokens) => {
                    let id = old(sender).pending.next_id;
                    let line = control_line(
                        send_chat_message_members(
                            client_id@,
                            tokens.access_token@,
                            tokens.user_id@,
                            tokens.user_id@,
                            message,
                            id,
                        ),
                    );
                    if old(sender).child is None {
                        &&& r == Err::<(), SendCommandError>(SendCommandError::SidecarNotRunning)
                        &&& *final(sender) == *old(sender)
                    } else {
                        exists|child: &mut C, bytes: &[u8], written: Result<(), E>| #[trigger]
                            call_ensures(write, (child, bytes), written) && line_sent(
                                *old(sender),
                                *final(sender),
                                tx,
                                line,
                                bytes@,
                                *child,
                                *final(child),
                                written,
                                r,
                            )
                    }
                },
            },
        },
{
    let message = match validate_message(text) {
        Ok(message) => message,
        Err(e) => return Err(e),
    };
    let tokens = match auth {
        Ok(tokens) => tokens,
        Err(e) => return Err(SendCommandError::auth(e)),
    };
    let build_line = |request_id: u64| -> (line: Result<Vec<u8>, serde_json::Error>)
        ensures
            line is Ok,
            line->Ok_0@ == control_line(
                send_chat_message_members(
                    client_id@,
                    tokens.access_token@,
                    tokens.user_id@,
                    tokens.user_id@,
                    message@,
                    request_id,
                ),
            ),
    {
        build_send_chat_message_line(
            SendChatMessageArgs {
                client_id,
                access_token: tokens.access_token.as_str(),
                broadcaster_id: tokens.user_id.as_str(),
                user_id: tokens.user_id.as_str(),
                message,
                request_id,
            },
        )
    };
    sender.send_with_pending(tx, build_line, write)
}

/// The first half of a YouTube send. `auth` is the access token, or why there is none.
pub fn youtube_send_message<C, W, E>(
    sender: &mut SidecarCommandSender<C>,
    auth: Result<String, YouTubeAuthError>,
    live_chat_id: &str,
    text: &str,
    tx: oneshot::Sender<SendChatResult>,
    write: W,
) -> (r: Result<(), SendCommandError>) where
    W: FnOnce(&mut C, &[u8]) -> Result<(), E>,
    E: std::fmt::Display,

    requires
        forall|child: &mut C, line: &[u8]| call_requires(write, (child, line)),
    ensures
        old(sender).pending.wf() ==> final(sender).pending.wf(),
        match youtube_verdict(text@) {
            MessageVerdict::Empty => r == Err::<(), SendCommandError>(
                SendCommandError::EmptyMessage,
            ) && *final(sender) == *old(sender),
            MessageVerdict::TooLong => r == Err::<(), SendCommandError>(
                SendCommandError::MessageTooLongChars { max_chars: MAX_YOUTUBE_MESSAGE_CHARS },
            ) && *final(sender) == *old(sender),
            MessageVerdict::Fits(message) => match auth {
                Err(e) => r is Err && r->Err_0.reports_youtube_auth(e) && *final(sender) == *old(
                    sender,
                ),
                Ok(access_token) => {
                    let id = old(sender).pending.next_id;
                    let line = control_line(
                        youtube_send_message_members(access_token@, live_chat_id@, message, id),
                    );
                    if old(sender).child is None {
                        &&& r == Err::<(), SendCommandError>(SendCommandError::SidecarNotRunning)
                        &&& *final(sender) == *old(sender)
                    } else {
                        exists|child: &mut C, bytes: &[u8], written: Result<(), E>| #[trigger]
                            call_ensures(write, (child, bytes), written) && line_sent(
                                *old(sender),
                                *final(sender),
                                tx,
                                line,
                                bytes@,
                                *child,
                                *final(child),
                                written,
                                r,
                            )
                    }
                },
            },
        },
{
    let message = match validate_youtube_message(text) {
        Ok(message) => message,
        Err(e) => return Err(e),
    };
    let access_token = match auth {
        Ok(access_token) => access_token,
        Err(e) => return Err(SendCommandError::youtube_auth(e)),
    };
    let build_line = |request_id: u64| -> (line: Result<Vec<u8>, serde_json::Error>)
        ensures
            line is Ok,
            line->Ok_0@ == control_line(
                youtube_send_message_members(access_token@, live_chat_id@, message@, request_id),
            ),
    {
        build_youtube_send_message_line(
            YouTubeSendMessageArgs {
                access_token: access_token.as_str(),
                live_chat_id,
                message,
                request_id,
            },
        )
    };
    sender.send_with_pending(tx, build_line, write)
}

/// The text behind an optional string.
pub open spec fn optional_text_of(value: Option<String>) -> Option<Seq<char>> {
    match value {
        Some(s) => Some(s@),
        None => None,
    }
}

/// An id that is not there, or is nothing but white space.
pub open spec fn is_missing(id: Option<Seq<char>>) -> bool {
    match id {
        Some(s) => is_blank(s),
        None => true,
    }
}

/// How long a timeout lasts.
pub open spec fn timeout_length(duration_seconds: Option<i32>) -> i32 {
    match duration_seconds {
        Some(n) => n,
        None => DEFAULT_TIMEOUT_SECONDS,
    }
}

/// The duration that a moderation line carries. A timeout always has one, and a ban is permanent.
/// With a deletion goes what was given.
pub open spec fn sent_duration(
    action: TwitchModerationAction,
    duration_seconds: Option<i32>,
) -> Option<i32> {
    match action {
        TwitchModerationAction::Timeout => Some(timeout_length(duration_seconds)),
        TwitchModerationAction::Ban => None,
        TwitchModerationAction::Delete => duration_seconds,
    }
}

/// What a moderation action comes to: the sidecar's command, or why it is refused.
pub open spec fn moderation_verdict(
    action: TwitchModerationAction,
    target_user_id: Option<Seq<char>>,
    message_id: Option<Seq<char>>,
    duration_seconds: Option<i32>,
) -> Result<Seq<char>, Seq<char>> {
    match action {
        TwitchModerationAction::Ban => if is_missing(target_user_id) {
            Err("ban requires target_user_id"@)
        } else {
            Ok("ban_user"@)
        },
        TwitchModerationAction::Timeout => {
            let duration = timeout_length(duration_seconds);
            if is_missing(target_user_id) {
                Err("timeout requires target_user_id"@)
            } else if !(1 <= duration <= MAX_TIMEOUT_SECONDS) {
                Err("timeout duration out of range [1, 1209600]"@)
            } else {
                Ok("timeout_user"@)
            }
        },
        TwitchModerationAction::Delete => if is_missing(message_id) {
            Err("delete requires message_id"@)
        } else {
            Ok("delete_message"@)
        },
    }
}

/// Is there an id, and is it more than white space?
fn names_something(id: &Option<String>) -> (r: bool)
    ensures
        r == !is_missing(optional_text_of(*id)),
{
    match id {
        Some(s) => {
            proof {
                law_trimming(s@);
            }
            !trim(s.as_str()).is_empty()
        },
        None => false,
    }
}

/// Picks the sidecar's command for a moderation action, once what the action needs is there.
pub fn moderation_command(
    action: &TwitchModerationAction,
    target_user_id: &Option<String>,
    message_id: &Option<String>,
    duration_seconds: Option<i32>,
) -> (r: Result<&'static str, SendCommandError>)
    ensures
        match moderation_verdict(
            *action,
            optional_text_of(*target_user_id),
            optional_text_of(*message_id),
            duration_seconds,
        ) {
            Ok(cmd) => r is Ok && r->Ok_0@ == cmd,
            Err(why) => r matches Err(SendCommandError::Json { message }) && message@ == why,
        },
{
    match action {
        TwitchModerationAction::Ban => {
            if !names_something(target_user_id) {
                return Err(
                    SendCommandError::Json { message: "ban requires target_user_id".to_owned() },
                );
            }
            Ok("ban_user")
        },
        TwitchModerationAction::Timeout => {
            if !names_something(target_user_id) {
                return Err(
                    SendCommandError::Json {
                        message: "timeout requires target_user_id".to_owned(),
                    },
                );
            }
            let duration: i32 = match duration_seconds {
                Some(n) => n,
                None => DEFAULT_TIMEOUT_SECONDS,
            };
            if duration < 1 || duration > MAX_TIMEOUT_SECONDS {
                return Err(
                    SendCommandError::Json {
                        message: "timeout duration out of range [1, 1209600]".to_owned(),
                    },
                );
            }
            Ok("timeout_user")
        },
        TwitchModerationAction::Delete => {
            if !names_something(message_id) {
                return Err(
                    SendCommandError::Json { message: "delete requires message_id".to_owned() },
                );
            }
            Ok("delete_message")
        },
    }
}

/// The duration that a moderation line carries.
pub fn duration_to_send(action: &TwitchModerationAction, duration_seconds: Option<i32>) -> (r: Option<
    i32,
>)
    ensures
        r == sent_duration(*action, duration_seconds),
{
    match action {
        TwitchModerationAction::Timeout => match duration_seconds {
            Some(n) => Some(n),
            None => Some(DEFAULT_TIMEOUT_SECONDS),
        },
        TwitchModerationAction::Ban => None,
        TwitchModerationAction::Delete => duration_seconds,
    }
}

/// The reason that is given where the moderator gives none.
pub open spec fn default_reason() -> Seq<char> {
    "Prismoid streamer agent"@
}

/// The first half of a moderation action: takes up what the token load came to, then checks what
/// the action needs, then registers `tx` and writes the line. The first of the three that fails
/// decides the error, and only the last touches `sender`.
pub fn twitch_moderation_action<C, W, E>(
    sender: &mut SidecarCommandSender<C>,
    client_id: &str,
    auth: Result<TwitchTokens, AuthError>,
    action: TwitchModerationAction,
    target_user_id: Option<String>,
    message_id: Option<String>,
    duration_seconds: Option<i32>,
    reason: Option<String>,
    tx: oneshot::Sender<SendChatResult>,
    write: W,
) -> (r: Result<(), SendCommandError>) where
    W: FnOnce(&mut C, &[u8]) -> Result<(), E>,
    E: std::fmt::Display,

    requires
        forall|child: &mut C, line: &[u8]| call_requires(write, (child, line)),
    ensures
        old(sender).pending.wf() ==> final(sender).pending.wf(),
        match auth {
            Err(e) => r is Err && r->Err_0.reports_auth(e) && *final(sender) == *old(sender),
            Ok(tokens) => match moderation_verdict(
                action,
                optional_text_of(target_user_id),
                optional_text_of(message_id),
                duration_seconds,
            ) {
                Err(why) => {
                    &&& r matches Err(SendCommandError::Json { message })
                    &&& message@ == why
                    &&& *final(sender) == *old(sender)
                },
                Ok(cmd) => {
                    let id = old(sender).pending.next_id;
                    let line = control_line(
                        twitch_moderation_members(
                            ModerationRequest {
                                cmd,
                                client_id: client_id@,
                                access_token: tokens.access_token@,
                                broadcaster_id: tokens.user_id@,
                                moderator_id: tokens.user_id@,
                                target_user_id: optional_text_of(target_user_id),
                                message_id: optional_text_of(message_id),
                                duration_seconds: sent_duration(action, duration_seconds),
                                reason: match reason {
                                    Some(s) => Some(s@),
                                    None => Some(default_reason()),
                                },
                                request_id: id,
                            },
                        ),
                    );
                    if old(sender).child is None {
                        &&& r == Err::<(), SendCommandError>(SendCommandError::SidecarNotRunning)
                        &&& *final(sender) == *old(sender)
                    } else {
                        exists|child: &mut C, bytes: &[u8], written: Result<(), E>| #[trigger]
                            call_ensures(write, (child, bytes), written) && line_sent(
                                *old(sender),
                                *final(sender),
                                tx,
                                line,
                                bytes@,
                                *child,
                                *final(child),
                                written,
                                r,
                            )
                    }
                },
            },
        },
{
    let tokens = match auth {
        Ok(tokens) => tokens,
        Err(e) => return Err(SendCommandError::auth(e)),
    };
    let cmd = match moderation_command(&action, &target_user_id, &message_id, duration_seconds) {
        Ok(cmd) => cmd,
        Err(e) => return Err(e),
    };
    let reason = match reason {
        Some(reason) => reason,
        None => "Prismoid streamer agent".to_owned(),
    };
    let duration_seconds: Option<i32> = duration_to_send(&action, duration_seconds);
    let build_line = |request_id: u64| -> (line: Result<Vec<u8>, serde_json::Error>)
        ensures
            line is Ok,
            line->Ok_0@ == control_line(
                twitch_moderation_members(
                    ModerationRequest {
                        cmd: cmd@,
                        client_id: client_id@,
                        access_token: tokens.access_token@,
                        broadcaster_id: tokens.user_id@,
                        moderator_id: tokens.user_id@,
                        target_user_id: optional_text_of(target_user_id),
                        message_id: optional_text_of(message_id),
                        duration_seconds,
                        reason: Some(reason@),
                        request_id,
                    },
                ),
            ),
    {
        build_twitch_moderation_line(
            TwitchModerationArgs {
                cmd,
                client_id,
                access_token: tokens.access_token.as_str(),
                broadcaster_id: tokens.user_id.as_str(),
                moderator_id: tokens.user_id.as_str(),
                target_user_id: borrowed(&target_user_id),
                message_id: borrowed(&message_id),
                duration_seconds,
                reason: Some(reason.as_str()),
                request_id,
            },
        )
    };
    sender.send_with_pending(tx, build_line, write)
}

/// The text of an optional string, borrowed.
fn borrowed(value: &Option<String>) -> (r: Option<&str>)
    ensures
        optional_view(r) == optional_text_of(*value),
{
    match value {
        Some(s) => Some(s.as_str()),
        None => None,
    }
}

// ---------------------------------------------------------------------------
// Laws
// ---------------------------------------------------------------------------

/// What goes out is what was typed without the white space around it: it is not empty, neither
/// begins nor ends with white space, keeps to the platform's cap, and would be let through
/// unchanged a second time.
pub proof fn law_messages_that_fit(text: Seq<char>)
    ensures
        chat_verdict(text) matches MessageVerdict::Fits(t) ==> {
            &&& t == trimmed(text)
            &&& t.len() > 0 && !is_white_space(t[0]) && !is_white_space(t.last())
            &&& encode_utf8(t).len() <= MAX_CHAT_MESSAGE_BYTES
            &&& chat_verdict(t) == MessageVerdict::Fits(t)
        },
        youtube_verdict(text) matches MessageVerdict::Fits(t) ==> {
            &&& t == trimmed(text)
            &&& t.len() > 0 && !is_white_space(t[0]) && !is_white_space(t.last())
            &&& t.len() <= MAX_YOUTUBE_MESSAGE_CHARS
            &&& youtube_verdict(t) == MessageVerdict::Fits(t)
        },
{
    law_trimming(text);
    law_trimming_is_idempotent(text);
}

/// A text is refused as empty exactly where it is nothing but white space, on both platforms.
pub proof fn law_blank_messages_are_empty(text: Seq<char>)
    ensures
        chat_verdict(text) == MessageVerdict::Empty <==> is_blank(text),
        youtube_verdict(text) == MessageVerdict::Empty <==> is_blank(text),
{
    law_trimming(text);
}

/// White space around a message changes nothing of what becomes of it.
pub proof fn law_padding_is_ignored(before: Seq<char>, text: Seq<char>, after: Seq<char>)
    requires
        is_blank(before),
        is_blank(after),
    ensures
        chat_verdict(before + text + after) == chat_verdict(text),
        youtube_verdict(before + text + after) == youtube_verdict(text),
{
    law_trimming_ignores_padding(before, text, after);
}

/// No moderation command goes out without its subject: a ban and a timeout name a user, a
/// deletion names a message.
pub proof fn law_moderation_names_its_subject(
    action: TwitchModerationAction,
    target_user_id: Option<Seq<char>>,
    message_id: Option<Seq<char>>,
    duration_seconds: Option<i32>,
)
    ensures
        moderation_verdict(action, target_user_id, message_id, duration_seconds) matches Ok(cmd)
            ==> {
            &&& action is Ban ==> cmd == "ban_user"@ && !is_missing(target_user_id)
            &&& action is Timeout ==> cmd == "timeout_user"@ && !is_missing(target_user_id)
            &&& action is Delete ==> cmd == "delete_message"@ && !is_missing(message_id)
        },
{
}

/// Every timeout goes out with a duration that Twitch takes, and every ban without one. What is
/// given as the duration of a ban or a deletion never stops it.
pub proof fn law_durations_concern_timeouts(
    action: TwitchModerationAction,
    target_user_id: Option<Seq<char>>,
    message_id: Option<Seq<char>>,
    duration_seconds: Option<i32>,
)
    ensures
        action is Timeout && moderation_verdict(
            action,
            target_user_id,
            message_id,
            duration_seconds,
        ) is Ok ==> (sent_duration(action, duration_seconds) matches Some(n) && 1 <= n
            <= MAX_TIMEOUT_SECONDS),
        action is Timeout ==> sent_duration(action, None) == Some(DEFAULT_TIMEOUT_SECONDS),
        action is Ban ==> sent_duration(action, duration_seconds) is None,
        !(action is Timeout) ==> moderation_verdict(
            action,
            target_user_id,
            message_id,
            duration_seconds,
        ) == moderation_verdict(action, target_user_id, message_id, None),
        action is Timeout && !is_missing(target_user_id) ==> moderation_verdict(
            action,
            target_user_id,
            message_id,
            None,
        ) is Ok,
{
}

/// A message is refused as too long exactly where it is: beyond the cap on bytes on Twitch, and
/// beyond the cap on characters, however many bytes those are, on YouTube. Every other text that
/// is not blank goes out.
pub proof fn law_messages_are_refused_for_their_length_alone(text: Seq<char>)
    ensures
        chat_verdict(text) == MessageVerdict::TooLong <==> encode_utf8(trimmed(text)).len()
            > MAX_CHAT_MESSAGE_BYTES,
        youtube_verdict(text) == MessageVerdict::TooLong <==> trimmed(text).len()
            > MAX_YOUTUBE_MESSAGE_CHARS,
        !is_blank(text) && encode_utf8(trimmed(text)).len() <= MAX_CHAT_MESSAGE_BYTES
            ==> chat_verdict(text) == MessageVerdict::Fits(trimmed(text)),
        !is_blank(text) && trimmed(text).len() <= MAX_YOUTUBE_MESSAGE_CHARS ==> youtube_verdict(
            text,
        ) == MessageVerdict::Fits(trimmed(text)),
{
    law_trimming(text);
    if trimmed(text).len() == 0 {
        assert(trimmed(text) =~= Seq::empty());
    }
}

/// On YouTube only the number of characters counts: of two trimmed texts of the same length, one
/// goes out exactly where the other does.
pub proof fn law_youtube_counts_characters(a: Seq<char>, b: Seq<char>)
    requires
        trimmed(a).len() == trimmed(b).len(),
    ensures
        youtube_verdict(a) is Empty <==> youtube_verdict(b) is Empty,
        youtube_verdict(a) is TooLong <==> youtube_verdict(b) is TooLong,
        youtube_verdict(a) is Fits <==> youtube_verdict(b) is Fits,
{
}

/// A timeout goes out with the duration that was asked for, and a deletion with what was given.
pub proof fn law_durations_go_out_as_asked(
    target_user_id: Option<Seq<char>>,
    message_id: Option<Seq<char>>,
    n: i32,
)
    ensures
        1 <= n <= MAX_TIMEOUT_SECONDS ==> sent_duration(TwitchModerationAction::Timeout, Some(n))
            == Some(n),
        moderation_verdict(
            TwitchModerationAction::Timeout,
            target_user_id,
            message_id,
            Some(n),
        ) is Ok ==> sent_duration(TwitchModerationAction::Timeout, Some(n)) == Some(n),
        sent_duration(TwitchModerationAction::Delete, Some(n)) == Some(n),
        sent_duration(TwitchModerationAction::Delete, None) is None,
{
}

/// Nothing stops a moderation action but what it lacks: a ban of a named user goes out, a timeout
/// of a named user goes out with any duration that Twitch takes or with none given, and a deletion
/// of a named message goes out.
pub proof fn law_complete_moderation_goes_out(
    user: Seq<char>,
    message: Seq<char>,
    target_user_id: Option<Seq<char>>,
    message_id: Option<Seq<char>>,
    duration_seconds: Option<i32>,
)
    requires
        !is_blank(user),
        !is_blank(message),
    ensures
        moderation_verdict(
            TwitchModerationAction::Ban,
            Some(user),
            message_id,
            duration_seconds,
        ) == Ok::<Seq<char>, Seq<char>>("ban_user"@),
        (duration_seconds matches Some(n) ==> 1 <= n <= MAX_TIMEOUT_SECONDS)
            <==> moderation_verdict(
            TwitchModerationAction::Timeout,
            Some(user),
            message_id,
            duration_seconds,
        ) == Ok::<Seq<char>, Seq<char>>("timeout_user"@),
        moderation_verdict(
            TwitchModerationAction::Delete,
            target_user_id,
            Some(message),
            duration_seconds,
        ) == Ok::<Seq<char>, Seq<char>>("delete_message"@),
{
}

/// Without its subject an action is refused, and the refusal says what is missing; a timeout that
/// names its user is refused for its duration alone.
pub proof fn law_incomplete_moderation_is_refused(
    absent: Option<Seq<char>>,
    target_user_id: Option<Seq<char>>,
    message_id: Option<Seq<char>>,
    duration_seconds: Option<i32>,
)
    requires
        absent matches Some(s) ==> is_blank(s),
    ensures
        moderation_verdict(TwitchModerationAction::Ban, absent, message_id, duration_seconds)
            == Err::<Seq<char>, Seq<char>>("ban requires target_user_id"@),
        moderation_verdict(TwitchModerationAction::Timeout, absent, message_id, duration_seconds)
            == Err::<Seq<char>, Seq<char>>("timeout requires target_user_id"@),
        moderation_verdict(
            TwitchModerationAction::Delete,
            target_user_id,
            absent,
            duration_seconds,
        ) == Err::<Seq<char>, Seq<char>>("delete requires message_id"@),
        (duration_seconds matches Some(n) && !(1 <= n <= MAX_TIMEOUT_SECONDS)) && (
        target_user_id matches Some(s) && !is_blank(s)) ==> moderation_verdict(
            TwitchModerationAction::Timeout,
            target_user_id,
            message_id,
            duration_seconds,
        ) == Err::<Seq<char>, Seq<char>>("timeout duration out of range [1, 1209600]"@),
{
}

/// A refused message is told in the platform's own words where it has any, else in those of the
/// transport where the message was not even dropped, and never in none.
pub proof fn law_refusals_are_told_in_words(r: SendChatResult)
    ensures
        refusal_text(r).len() > 0,
        r.drop_message@.len() > 0 ==> refusal_text(r) == r.drop_message@,
        r.drop_message@.len() == 0 && r.drop_code@.len() > 0 ==> refusal_text(r)
            == "message rejected"@,
        r.drop_message@.len() == 0 && r.drop_code@.len() == 0 && r.error_message@.len() > 0
            ==> refusal_text(r) == r.error_message@,
        r.drop_message@.len() == 0 && r.drop_code@.len() == 0 && r.error_message@.len() == 0
            ==> refusal_text(r) == "send failed"@,
{
    reveal_strlit("message rejected");
    reveal_strlit("send failed");
}

/// The user is asked to sign in exactly where there are no tokens or dead ones, on both
/// platforms, and any other failure is told as one; either way in the failure's own words.
pub proof fn law_sign_in_is_asked_for_when_it_helps(
    e: SendCommandError,
    twitch: AuthError,
    youtube: YouTubeAuthError,
)
    ensures
        e.reports_auth(twitch) ==> {
            &&& e is NotLoggedIn <==> (twitch is NoTokens || twitch is RefreshTokenInvalid)
            &&& e is NotLoggedIn || e is Auth
            &&& e matches SendCommandError::NotLoggedIn { message } ==> message@ == twitch.text()
            &&& e matches SendCommandError::Auth { message } ==> message@ == twitch.text()
        },
        e.reports_youtube_auth(youtube) ==> {
            &&& e is NotLoggedIn <==> (youtube is NoTokens || youtube is RefreshTokenInvalid)
            &&& e is NotLoggedIn || e is Auth
            &&& e matches SendCommandError::NotLoggedIn { message } ==> message@ == youtube.text()
            &&& e matches SendCommandError::Auth { message } ==> message@ == youtube.text()
        },
{
}

/// What validation lets through is the text without the white space around it, and it lets through
/// every text that is not blank and keeps to the cap of its platform.
pub proof fn law_validation(
    text: &str,
    twitch: Result<&str, SendCommandError>,
    youtube: Result<&str, SendCommandError>,
)
    requires
        call_ensures(validate_message, (text,), twitch),
        call_ensures(validate_youtube_message, (text,), youtube),
    ensures
        twitch matches Ok(t) ==> t@ == trimmed(text@),
        twitch is Ok <==> !is_blank(text@) && encode_utf8(trimmed(text@)).len()
            <= MAX_CHAT_MESSAGE_BYTES,
        twitch matches Err(e) ==> (e is EmptyMessage <==> is_blank(text@)) && (e is EmptyMessage
            || e == (SendCommandError::MessageTooLong { max_bytes: MAX_CHAT_MESSAGE_BYTES })),
        youtube matches Ok(t) ==> t@ == trimmed(text@),
        youtube is Ok <==> !is_blank(text@) && trimmed(text@).len() <= MAX_YOUTUBE_MESSAGE_CHARS,
        youtube matches Err(e) ==> (e is EmptyMessage <==> is_blank(text@)) && (e is EmptyMessage
            || e == (SendCommandError::MessageTooLongChars {
            max_chars: MAX_YOUTUBE_MESSAGE_CHARS,
        })),
{
    law_messages_are_refused_for_their_length_alone(text@);
    law_blank_messages_are_empty(text@);
}

/// Both platforms answer a send alike: it worked exactly where the answer says so, with the id
/// that the answer gives, and a refusal differs only in the variant that tells it.
pub proof fn law_replies_are_alike(
    reply: SendChatResult,
    twitch: Result<SendChatOk, SendCommandError>,
    youtube: Result<SendChatOk, SendCommandError>,
)
    requires
        call_ensures(twitch_send_reply, (Some(reply),), twitch),
        call_ensures(youtube_send_reply, (Some(reply),), youtube),
    ensures
        twitch is Ok <==> reply.ok,
        youtube is Ok <==> reply.ok,
        twitch matches Ok(sent) ==> sent.message_id@ == reply.message_id@,
        youtube matches Ok(sent) ==> sent.message_id@ == reply.message_id@,
        twitch matches Err(t) ==> (youtube matches Err(y) && (t matches SendCommandError::Helix {
            code: tc,
            message: tm,
        } && (y matches SendCommandError::YouTube { code: yc, message: ym } && tc@
            == reply.drop_code@ && yc@ == tc@ && ym@ == tm@ && tm@.len() > 0))),
{
    law_refusals_are_told_in_words(reply);
}

/// A moderation action worked exactly where the answer says so, whatever else the answer holds,
/// and a refusal is told in the words of the answer.
pub proof fn law_moderation_is_judged_by_ok_alone(
    reply: SendChatResult,
    out: Result<ModerationOk, SendCommandError>,
)
    requires
        call_ensures(twitch_moderation_reply, (Some(reply),), out),
    ensures
        out is Ok <==> reply.ok,
        out matches Ok(done) ==> done.ok,
        out matches Err(e) ==> (e matches SendCommandError::Helix { code, message } && code@
            == reply.drop_code@ && (message@ == reply.error_message@ || message@
            == reply.drop_message@) && (reply.error_message@.len() > 0 ==> message@
            == reply.error_message@)),
{
}

/// A request that nobody will answer any more is told as such, by every command.
pub proof fn law_dropped_requests_are_told(
    twitch: Result<SendChatOk, SendCommandError>,
    youtube: Result<SendChatOk, SendCommandError>,
    moderation: Result<ModerationOk, SendCommandError>,
)
    requires
        call_ensures(twitch_send_reply, (None,), twitch),
        call_ensures(youtube_send_reply, (None,), youtube),
        call_ensures(twitch_moderation_reply, (None,), moderation),
    ensures
        twitch == Err::<SendChatOk, SendCommandError>(SendCommandError::SidecarNotRunning),
        youtube == Err::<SendChatOk, SendCommandError>(SendCommandError::SidecarNotRunning),
        moderation == Err::<ModerationOk, SendCommandError>(SendCommandError::SidecarNotRunning),
{
}

/// A moderation action is let through with its command exactly where it has its subject and, for a
/// timeout, a duration that Twitch takes or none; and the duration that goes out with a timeout is
/// the one asked for, or the default where none was.
pub proof fn law_moderating(
    action: TwitchModerationAction,
    target_user_id: Option<String>,
    message_id: Option<String>,
    duration_seconds: Option<i32>,
    r: Result<&'static str, SendCommandError>,
    sent: Option<i32>,
)
    requires
        call_ensures(
            moderation_command,
            (&action, &target_user_id, &message_id, duration_seconds),
            r,
        ),
        call_ensures(duration_to_send, (&action, duration_seconds), sent),
    ensures
        action is Ban ==> {
            &&& r is Ok <==> (target_user_id matches Some(s) && !is_blank(s@))
            &&& r matches Ok(cmd) ==> cmd@ == "ban_user"@
            &&& sent is None
        },
        action is Timeout ==> {
            &&& r is Ok <==> (target_user_id matches Some(s) && !is_blank(s@)) && (
            duration_seconds matches Some(n) ==> 1 <= n <= MAX_TIMEOUT_SECONDS)
            &&& r matches Ok(cmd) ==> cmd@ == "timeout_user"@
            &&& duration_seconds matches Some(n) ==> sent == Some(n)
            &&& duration_seconds is None ==> sent == Some(DEFAULT_TIMEOUT_SECONDS)
        },
        action is Delete ==> {
            &&& r is Ok <==> (message_id matches Some(s) && !is_blank(s@))
            &&& r matches Ok(cmd) ==> cmd@ == "delete_message"@
            &&& sent == duration_seconds
        },
        r matches Err(e) ==> e is Json,
{
}

/// `line` is a Twitch send of `message` by the account of `tokens`, under the id `id`.
pub open spec fn says_twitch_send(
    line: Seq<u8>,
    client_id: Seq<char>,
    tokens: TwitchTokens,
    message: Seq<char>,
    id: u64,
) -> bool {
    &&& line_gives(line, "cmd"@, Scalar::Text("send_chat_message"@))
    &&& line_gives(line, "message"@, Scalar::Text(message))
    &&& line_gives(line, "client_id"@, Scalar::Text(client_id))
    &&& line_gives(line, "token"@, Scalar::Text(tokens.access_token@))
    &&& line_gives(line, "broadcaster_id"@, Scalar::Text(tokens.user_id@))
    &&& line_gives(line, "user_id"@, Scalar::Text(tokens.user_id@))
    &&& line_gives(line, "request_id"@, Scalar::Integer(id as int))
}

/// A Twitch send that works has written a line that gives the text without the white space around
/// it, the sender as both the broadcaster and the user, the token of the sender, and the id that
/// the request waits under.
pub proof fn law_twitch_sends_say_what_was_typed<C, W, E>(
    client_id: &str,
    tokens: TwitchTokens,
    text: &str,
    tx: oneshot::Sender<SendChatResult>,
    write: W,
) where W: FnOnce(&mut C, &[u8]) -> Result<(), E>, E: std::fmt::Display
    ensures
        forall|sender: &mut SidecarCommandSender<C>, r: Result<(), SendCommandError>| #[trigger]
            call_ensures(twitch_send_message::<C, W, E>, (sender, client_id, Ok(tokens), text, tx, write), r) && r is Ok ==> {
                let id = sender.pending.next_id;
                &&& final(sender).pending.map@.contains_key(id)
                &&& final(sender).pending.map@[id] == tx
                &&& exists|child: &mut C, bytes: &[u8], written: Result<(), E>|
                    {
                        &&& #[trigger] call_ensures(write, (child, bytes), written)
                        &&& written is Ok
                        &&& sender.child == Some(*child)
                        &&& says_twitch_send(bytes@, client_id@, tokens, trimmed(text@), id)
                    }
            },
{
    assert forall|sender: &mut SidecarCommandSender<C>, r: Result<(), SendCommandError>| #[trigger]
        call_ensures(twitch_send_message::<C, W, E>, (sender, client_id, Ok(tokens), text, tx, write), r) && r is Ok implies {
        let id = sender.pending.next_id;
        &&& final(sender).pending.map@.contains_key(id)
        &&& final(sender).pending.map@[id] == tx
        &&& exists|child: &mut C, bytes: &[u8], written: Result<(), E>|
            {
                &&& #[trigger] call_ensures(write, (child, bytes), written)
                &&& written is Ok
                &&& sender.child == Some(*child)
                &&& says_twitch_send(bytes@, client_id@, tokens, trimmed(text@), id)
            }
    } by {
        law_messages_that_fit(text@);
        lemma_says_twitch_send(client_id@, tokens, trimmed(text@), sender.pending.next_id);
    }
}

proof fn lemma_says_twitch_send(
    client_id: Seq<char>,
    tokens: TwitchTokens,
    message: Seq<char>,
    id: u64,
)
    ensures
        says_twitch_send(
            control_line(
                send_chat_message_members(
                    client_id,
                    tokens.access_token@,
                    tokens.user_id@,
                    tokens.user_id@,
                    message,
                    id,
                ),
            ),
            client_id,
            tokens,
            message,
            id,
        ),
{
    law_send_chat_message_line_says(
        client_id,
        tokens.access_token@,
        tokens.user_id@,
        tokens.user_id@,
        message,
        id,
    );
}

/// `line` is a YouTube send of `message` to the chat, under the id `id`.
pub open spec fn says_youtube_send(
    line: Seq<u8>,
    access_token: Seq<char>,
    live_chat_id: Seq<char>,
    message: Seq<char>,
    id: u64,
) -> bool {
    &&& line_gives(line, "cmd"@, Scalar::Text("youtube_send_message"@))
    &&& line_gives(line, "message"@, Scalar::Text(message))
    &&& line_gives(line, "token"@, Scalar::Text(access_token))
    &&& line_gives(line, "live_chat_id"@, Scalar::Text(live_chat_id))
    &&& line_gives(line, "request_id"@, Scalar::Integer(id as int))
}

proof fn lemma_says_youtube_send(
    access_token: Seq<char>,
    live_chat_id: Seq<char>,
    message: Seq<char>,
    id: u64,
)
    ensures
        says_youtube_send(
            control_line(youtube_send_message_members(access_token, live_chat_id, message, id)),
            access_token,
            live_chat_id,
            message,
            id,
        ),
{
    law_youtube_send_message_line_says(access_token, live_chat_id, message, id);
}

/// A YouTube send that works has written a line that gives the text without the white space around
/// it, the chat that was named, the token, and the id that the request waits under.
pub proof fn law_youtube_sends_say_what_was_typed<C, W, E>(
    access_token: String,
    live_chat_id: &str,
    text: &str,
    tx: oneshot::Sender<SendChatResult>,
    write: W,
) where W: FnOnce(&mut C, &[u8]) -> Result<(), E>, E: std::fmt::Display
    ensures
        forall|sender: &mut SidecarCommandSender<C>, r: Result<(), SendCommandError>| #[trigger]
            call_ensures(youtube_send_message::<C, W, E>, (sender, Ok(access_token), live_chat_id, text, tx, write), r) && r is Ok ==> {
                let id = sender.pending.next_id;
                &&& final(sender).pending.map@.contains_key(id)
                &&& final(sender).pending.map@[id] == tx
                &&& exists|child: &mut C, bytes: &[u8], written: Result<(), E>|
                    {
                        &&& #[trigger] call_ensures(write, (child, bytes), written)
                        &&& written is Ok
                        &&& sender.child == Some(*child)
                        &&& says_youtube_send(bytes@, access_token@, live_chat_id@, trimmed(text@), id)
                    }
            },
{
    assert forall|sender: &mut SidecarCommandSender<C>, r: Result<(), SendCommandError>| #[trigger]
        call_ensures(youtube_send_message::<C, W, E>, (sender, Ok(access_token), live_chat_id, text, tx, write), r) && r is Ok implies {
        let id = sender.pending.next_id;
        &&& final(sender).pending.map@.contains_key(id)
        &&& final(sender).pending.map@[id] == tx
        &&& exists|child: &mut C, bytes: &[u8], written: Result<(), E>|
            {
                &&& #[trigger] call_ensures(write, (child, bytes), written)
                &&& written is Ok
                &&& sender.child == Some(*child)
                &&& says_youtube_send(bytes@, access_token@, live_chat_id@, trimmed(text@), id)
            }
    } by {
        law_messages_that_fit(text@);
        lemma_says_youtube_send(
            access_token@,
            live_chat_id@,
            trimmed(text@),
            sender.pending.next_id,
        );
    }
}

/// `line` is the moderation that was asked for, by the account of `tokens`, under the id `id`: the
/// command of the action, the user and the message that were named, the duration of a timeout, the
/// reason that was given or one of the client's own.
pub open spec fn says_moderation(
    line: Seq<u8>,
    client_id: Seq<char>,
    tokens: TwitchTokens,
    asked: Moderation,
    id: u64,
) -> bool {
    &&& line_gives(
        line,
        "cmd"@,
        Scalar::Text(
            match asked.action {
                TwitchModerationAction::Ban => "ban_user"@,
                TwitchModerationAction::Timeout => "timeout_user"@,
                TwitchModerationAction::Delete => "delete_message"@,
            },
        ),
    )
    &&& line_gives(line, "client_id"@, Scalar::Text(client_id))
    &&& line_gives(line, "token"@, Scalar::Text(tokens.access_token@))
    &&& line_gives(line, "broadcaster_id"@, Scalar::Text(tokens.user_id@))
    &&& line_gives(line, "user_id"@, Scalar::Text(tokens.user_id@))
    &&& line_gives(line, "request_id"@, Scalar::Integer(id as int))
    &&& asked.target_user_id matches Some(s) ==> line_gives(
        line,
        "target_user_id"@,
        Scalar::Text(s@),
    )
    &&& asked.message_id matches Some(s) ==> line_gives(line, "message_id"@, Scalar::Text(s@))
    &&& asked.reason matches Some(s) ==> line_gives(line, "reason"@, Scalar::Text(s@))
    &&& asked.reason is None ==> line_gives(
        line,
        "reason"@,
        Scalar::Text("Prismoid streamer agent"@),
    )
    &&& asked.action is Delete ==> (asked.duration_seconds matches Some(n) ==> line_gives(
        line,
        "duration_seconds"@,
        Scalar::Integer(n as int),
    ))
    &&& asked.action is Timeout ==> (asked.duration_seconds matches Some(n) ==> line_gives(
        line,
        "duration_seconds"@,
        Scalar::Integer(n as int),
    ))
    &&& asked.action is Timeout && asked.duration_seconds is None ==> line_gives(
        line,
        "duration_seconds"@,
        Scalar::Integer(DEFAULT_TIMEOUT_SECONDS as int),
    )
    &&& asked.action is Ban ==> line_lacks(line, "duration_seconds"@)
}

/// What a moderator asks for.
pub struct Moderation {
    pub action: TwitchModerationAction,
    pub target_user_id: Option<String>,
    pub message_id: Option<String>,
    pub duration_seconds: Option<i32>,
    pub reason: Option<String>,
}

/// A line gives nothing under `name`.
pub open spec fn line_lacks(line: Seq<u8>, name: Seq<char>) -> bool {
    exists|ms: Seq<Member>| line == #[trigger] control_line(ms) && value_named(ms, name) is None
}

proof fn lemma_says_moderation(
    client_id: Seq<char>,
    tokens: TwitchTokens,
    asked: Moderation,
    cmd: Seq<char>,
    id: u64,
)
    requires
        moderation_verdict(
            asked.action,
            optional_text_of(asked.target_user_id),
            optional_text_of(asked.message_id),
            asked.duration_seconds,
        ) == Ok::<Seq<char>, Seq<char>>(cmd),
    ensures
        says_moderation(
            control_line(
                twitch_moderation_members(
                    ModerationRequest {
                        cmd,
                        client_id,
                        access_token: tokens.access_token@,
                        broadcaster_id: tokens.user_id@,
                        moderator_id: tokens.user_id@,
                        target_user_id: optional_text_of(asked.target_user_id),
                        message_id: optional_text_of(asked.message_id),
                        duration_seconds: sent_duration(asked.action, asked.duration_seconds),
                        reason: match asked.reason {
                            Some(s) => Some(s@),
                            None => Some(default_reason()),
                        },
                        request_id: id,
                    },
                ),
            ),
            client_id,
            tokens,
            asked,
            id,
        ),
{
    law_moderation_line_says(
        ModerationRequest {
            cmd,
            client_id,
            access_token: tokens.access_token@,
            broadcaster_id: tokens.user_id@,
            moderator_id: tokens.user_id@,
            target_user_id: optional_text_of(asked.target_user_id),
            message_id: optional_text_of(asked.message_id),
            duration_seconds: sent_duration(asked.action, asked.duration_seconds),
            reason: match asked.reason {
                Some(s) => Some(s@),
                None => Some(default_reason()),
            },
            request_id: id,
        },
    );
}

/// A moderation action that works has written a line that gives what was asked for, and its request
/// waits under the id that the line gives.
pub proof fn law_moderation_says_what_was_asked<C, W, E>(
    client_id: &str,
    tokens: TwitchTokens,
    asked: Moderation,
    tx: oneshot::Sender<SendChatResult>,
    write: W,
) where W: FnOnce(&mut C, &[u8]) -> Result<(), E>, E: std::fmt::Display
    ensures
        forall|sender: &mut SidecarCommandSender<C>, r: Result<(), SendCommandError>| #[trigger]
            call_ensures(twitch_moderation_action::<C, W, E>, (
                    sender,
                    client_id,
                    Ok(tokens),
                    asked.action,
                    asked.target_user_id,
                    asked.message_id,
                    asked.duration_seconds,
                    asked.reason,
                    tx,
                    write,
                ), r) && r is Ok ==> {
                let id = sender.pending.next_id;
                &&& final(sender).pending.map@.contains_key(id)
                &&& final(sender).pending.map@[id] == tx
                &&& exists|child: &mut C, bytes: &[u8], written: Result<(), E>|
                    {
                        &&& #[trigger] call_ensures(write, (child, bytes), written)
                        &&& written is Ok
                        &&& sender.child == Some(*child)
                        &&& says_moderation(bytes@, client_id@, tokens, asked, id)
                    }
            },
{
    assert forall|sender: &mut SidecarCommandSender<C>, r: Result<(), SendCommandError>| #[trigger]
        call_ensures(twitch_moderation_action::<C, W, E>, (
                    sender,
                    client_id,
                    Ok(tokens),
                    asked.action,
                    asked.target_user_id,
                    asked.message_id,
                    asked.duration_seconds,
                    asked.reason,
                    tx,
                    write,
                ), r) && r is Ok implies {
        let id = sender.pending.next_id;
        &&& final(sender).pending.map@.contains_key(id)
        &&& final(sender).pending.map@[id] == tx
        &&& exists|child: &mut C, bytes: &[u8], written: Result<(), E>|
            {
                &&& #[trigger] call_ensures(write, (child, bytes), written)
                &&& written is Ok
                &&& sender.child == Some(*child)
                &&& says_moderation(bytes@, client_id@, tokens, asked, id)
            }
    } by {
        let verdict = moderation_verdict(
            asked.action,
            optional_text_of(asked.target_user_id),
            optional_text_of(asked.message_id),
            asked.duration_seconds,
        );
        lemma_says_moderation(client_id@, tokens, asked, verdict->Ok_0, sender.pending.next_id);
    }
}

/// A send that is refused for its text, for its tokens or for want of a sidecar changes nothing,
/// and no other send is refused but for a write that fails.
pub proof fn law_refused_sends_change_nothing<C, W, E>(
    client_id: &str,
    live_chat_id: &str,
    twitch: Result<TwitchTokens, AuthError>,
    youtube: Result<String, YouTubeAuthError>,
    text: &str,
    tx: oneshot::Sender<SendChatResult>,
    write: W,
) where W: FnOnce(&mut C, &[u8]) -> Result<(), E>, E: std::fmt::Display
    ensures
        forall|sender: &mut SidecarCommandSender<C>, r: Result<(), SendCommandError>| #[trigger]
            call_ensures(
                twitch_send_message::<C, W, E>,
                (sender, client_id, twitch, text, tx, write),
                r,
            ) ==> if is_blank(text@) || encode_utf8(trimmed(text@)).len() > MAX_CHAT_MESSAGE_BYTES
                || twitch is Err || sender.child is None {
                r is Err && *final(sender) == *sender
            } else {
                r matches Err(e) ==> e is Io
            },
        forall|sender: &mut SidecarCommandSender<C>, r: Result<(), SendCommandError>| #[trigger]
            call_ensures(
                youtube_send_message::<C, W, E>,
                (sender, youtube, live_chat_id, text, tx, write),
                r,
            ) ==> if is_blank(text@) || trimmed(text@).len() > MAX_YOUTUBE_MESSAGE_CHARS || youtube
                is Err || sender.child is None {
                r is Err && *final(sender) == *sender
            } else {
                r matches Err(e) ==> e is Io
            },
{
    law_messages_are_refused_for_their_length_alone(text@);
    law_blank_messages_are_empty(text@);
}

/// A moderation action that is refused for its tokens, for what it lacks or for want of a sidecar
/// changes nothing, and no other is refused but for a write that fails.
pub proof fn law_refused_moderation_changes_nothing<C, W, E>(
    client_id: &str,
    auth: Result<TwitchTokens, AuthError>,
    asked: Moderation,
    tx: oneshot::Sender<SendChatResult>,
    write: W,
) where W: FnOnce(&mut C, &[u8]) -> Result<(), E>, E: std::fmt::Display
    ensures
        forall|sender: &mut SidecarCommandSender<C>, r: Result<(), SendCommandError>| #[trigger]
            call_ensures(
                twitch_moderation_action::<C, W, E>,
                (
                    sender,
                    client_id,
                    auth,
                    asked.action,
                    asked.target_user_id,
                    asked.message_id,
                    asked.duration_seconds,
                    asked.reason,
                    tx,
                    write,
                ),
                r,
            ) ==> {
                let user = asked.target_user_id matches Some(s) && !is_blank(s@);
                let message = asked.message_id matches Some(s) && !is_blank(s@);
                let length = asked.duration_seconds matches Some(n) ==> 1 <= n
                    <= MAX_TIMEOUT_SECONDS;
                let complete = match asked.action {
                    TwitchModerationAction::Ban => user,
                    TwitchModerationAction::Timeout => user && length,
                    TwitchModerationAction::Delete => message,
                };
                if auth is Err || !complete || sender.child is None {
                    r is Err && *final(sender) == *sender
                } else {
                    r matches Err(e) ==> e is Io
                }
            },
{
}

} // verus!
