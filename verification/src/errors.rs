//! What a command can fail with, as the frontend sees it.
use vstd::prelude::*;

use crate::control::{integer_member, text_member};
use crate::json::{object_bytes, value_named, Member, ObjectWriter, Scalar};

verus! {

/// Frontend-facing error of the send and moderation commands.
#[derive(Debug, Clone)]
pub enum SendCommandError {
    NotLoggedIn { message: String },
    EmptyMessage,
    MessageTooLong { max_bytes: usize },
    /// The text exceeds the YouTube limit. Distinct from [`SendCommandError::MessageTooLong`]
    /// because YouTube caps Unicode characters, not bytes.
    MessageTooLongChars { max_chars: usize },
    SidecarNotRunning,
    Io { message: String },
    Auth { message: String },
    Json { message: String },
    /// Twitch rejected the message or the request. `code` is the drop-reason tag, empty for
    /// transport-level errors.
    Helix { code: String, message: String },
    /// The YouTube Data API rejected the send. `code` is one of the sidecar's stable tags.
    YouTube { code: String, message: String },
}

impl SendCommandError {
    /// The stable tag that the frontend matches against.
    pub open spec fn tag(&self) -> Seq<char> {
        match self {
            SendCommandError::NotLoggedIn { .. } => "not_logged_in"@,
            SendCommandError::EmptyMessage => "empty_message"@,
            SendCommandError::MessageTooLong { .. } => "message_too_long"@,
            SendCommandError::MessageTooLongChars { .. } => "message_too_long_chars"@,
            SendCommandError::SidecarNotRunning => "sidecar_not_running"@,
            SendCommandError::Io { .. } => "io"@,
            SendCommandError::Auth { .. } => "auth"@,
            SendCommandError::Json { .. } => "json"@,
            SendCommandError::Helix { .. } => "helix"@,
            SendCommandError::YouTube { .. } => "you_tube"@,
        }
    }

    /// What the frontend gets beside the tag.
    pub open spec fn details(&self) -> Seq<Member> {
        match self {
            SendCommandError::NotLoggedIn { message } => seq![text_member("message"@, message@)],
            SendCommandError::EmptyMessage => seq![],
            SendCommandError::MessageTooLong { max_bytes } => seq![
                integer_member("max_bytes"@, *max_bytes as int),
            ],
            SendCommandError::MessageTooLongChars { max_chars } => seq![
                integer_member("max_chars"@, *max_chars as int),
            ],
            SendCommandError::SidecarNotRunning => seq![],
            SendCommandError::Io { message } => seq![text_member("message"@, message@)],
            SendCommandError::Auth { message } => seq![text_member("message"@, message@)],
            SendCommandError::Json { message } => seq![text_member("message"@, message@)],
            SendCommandError::Helix { code, message } => seq![
                text_member("code"@, code@),
                text_member("message"@, message@),
            ],
            SendCommandError::YouTube { code, message } => seq![
                text_member("code"@, code@),
                text_member("message"@, message@),
            ],
        }
    }

    /// The stable tag that the frontend matches against.
    pub fn kind(&self) -> (r: &'static str)
        ensures
            r@ == self.tag(),
    {
        match self {
            SendCommandError::NotLoggedIn { .. } => "not_logged_in",
            SendCommandError::EmptyMessage => "empty_message",
            SendCommandError::MessageTooLong { .. } => "message_too_long",
            SendCommandError::MessageTooLongChars { .. } => "message_too_long_chars",
            SendCommandError::SidecarNotRunning => "sidecar_not_running",
            SendCommandError::Io { .. } => "io",
            SendCommandError::Auth { .. } => "auth",
            SendCommandError::Json { .. } => "json",
            SendCommandError::Helix { .. } => "helix",
            SendCommandError::YouTube { .. } => "you_tube",
        }
    }

    /// The error as the JSON object that goes to the frontend: its tag under `kind`, then its
    /// details.
    pub fn to_json(&self) -> (r: Result<Vec<u8>, serde_json::Error>)
        ensures
            r is Ok,
            r->Ok_0@ == object_bytes(seq![text_member("kind"@, self.tag())] + self.details()),
    {
        let mut w = ObjectWriter::new();
        w.text("kind", self.kind())?;
        match self {
            SendCommandError::EmptyMessage | SendCommandError::SidecarNotRunning => {},
            SendCommandError::MessageTooLong { max_bytes } => w.unsigned(
                "max_bytes",
                *max_bytes as u64,
            )?,
            SendCommandError::MessageTooLongChars { max_chars } => w.unsigned(
                "max_chars",
                *max_chars as u64,
            )?,
            SendCommandError::NotLoggedIn { message } => w.text("message", message.as_str())?,
            SendCommandError::Io { message } => w.text("message", message.as_str())?,
            SendCommandError::Auth { message } => w.text("message", message.as_str())?,
            SendCommandError::Json { message } => w.text("message", message.as_str())?,
            SendCommandError::Helix { code, message } => {
                w.text("code", code.as_str())?;
                w.text("message", message.as_str())?;
            },
            SendCommandError::YouTube { code, message } => {
                w.text("code", code.as_str())?;
                w.text("message", message.as_str())?;
            },
        }
        assert(w.members() =~= seq![text_member("kind"@, self.tag())] + self.details());
        Ok(w.finish())
    }
}

/// The tags tell the errors apart: two errors with the same tag are of the same variant.
pub proof fn law_tags_tell_errors_apart(a: SendCommandError, b: SendCommandError)
    requires
        a.tag() == b.tag(),
    ensures
        a is NotLoggedIn <==> b is NotLoggedIn,
        a is EmptyMessage <==> b is EmptyMessage,
        a is MessageTooLong <==> b is MessageTooLong,
        a is MessageTooLongChars <==> b is MessageTooLongChars,
        a is SidecarNotRunning <==> b is SidecarNotRunning,
        a is Io <==> b is Io,
        a is Auth <==> b is Auth,
        a is Json <==> b is Json,
        a is Helix <==> b is Helix,
        a is YouTube <==> b is YouTube,
{
    reveal_strlit("not_logged_in");
    reveal_strlit("empty_message");
    reveal_strlit("message_too_long");
    reveal_strlit("message_too_long_chars");
    reveal_strlit("sidecar_not_running");
    reveal_strlit("io");
    reveal_strlit("auth");
    reveal_strlit("json");
    reveal_strlit("helix");
    reveal_strlit("you_tube");
    let (s, t) = (a.tag(), b.tag());
    assert(s.len() == t.len() && s[0] == t[0]);
}

/// The tag says which error it is and nothing else: two errors of the same variant have the same
/// tag, whatever they carry.
pub proof fn law_tags_depend_on_the_variant_alone(a: SendCommandError, b: SendCommandError)
    ensures
        a is NotLoggedIn && b is NotLoggedIn ==> a.tag() == b.tag(),
        a is MessageTooLong && b is MessageTooLong ==> a.tag() == b.tag(),
        a is MessageTooLongChars && b is MessageTooLongChars ==> a.tag() == b.tag(),
        a is Io && b is Io ==> a.tag() == b.tag(),
        a is Auth && b is Auth ==> a.tag() == b.tag(),
        a is Json && b is Json ==> a.tag() == b.tag(),
        a is Helix && b is Helix ==> a.tag() == b.tag(),
        a is YouTube && b is YouTube ==> a.tag() == b.tag(),
{
}

/// The frontend finds under its name everything that an error carries, and nothing that it does
/// not.
pub proof fn law_errors_carry_their_details(e: SendCommandError)
    ensures
        match e {
            SendCommandError::EmptyMessage | SendCommandError::SidecarNotRunning => {
                e.details().len() == 0
            },
            SendCommandError::MessageTooLong { max_bytes } => {
                &&& e.details().len() == 1
                &&& value_named(e.details(), "max_bytes"@) == Some(
                    Scalar::Integer(max_bytes as int),
                )
            },
            SendCommandError::MessageTooLongChars { max_chars } => {
                &&& e.details().len() == 1
                &&& value_named(e.details(), "max_chars"@) == Some(
                    Scalar::Integer(max_chars as int),
                )
            },
            SendCommandError::NotLoggedIn { message }
            | SendCommandError::Io { message }
            | SendCommandError::Auth { message }
            | SendCommandError::Json { message } => {
                &&& e.details().len() == 1
                &&& value_named(e.details(), "message"@) == Some(Scalar::Text(message@))
            },
            SendCommandError::Helix { code, message }
            | SendCommandError::YouTube { code, message } => {
                &&& e.details().len() == 2
                &&& value_named(e.details(), "code"@) == Some(Scalar::Text(code@))
                &&& value_named(e.details(), "message"@) == Some(Scalar::Text(message@))
            },
        },
{
    reveal_with_fuel(value_named, 3);
    reveal_strlit("code");
    reveal_strlit("message");
    assert("code"@.len() != "message"@.len());
    let details = e.details();
    match e {
        SendCommandError::EmptyMessage | SendCommandError::SidecarNotRunning => {
            assert(details =~= Seq::empty());
        },
        SendCommandError::Helix { code, message } | SendCommandError::YouTube { code, message } => {
            assert(details.len() == 2);
            assert(details[0] == text_member("code"@, code@));
            assert(details.drop_first()[0] == text_member("message"@, message@));
        },
        _ => {
            assert(details.len() == 1);
            assert(details[0] == details.first());
        },
    }
}

} // verus!
