//! Why there are no usable tokens.
use vstd::prelude::*;

use crate::text::{contains_text, lemma_contains_infix};

verus! {

/// Failure of the Twitch sign-in or of the token store.
#[derive(Debug, Clone)]
pub enum AuthError {
    /// The store is empty: nobody has signed in.
    NoTokens,
    /// Twitch no longer takes the stored refresh token.
    RefreshTokenInvalid,
    /// The user refused the sign-in.
    UserDenied,
    /// The user did not authorize the device code in time.
    DeviceCodeExpired,
    /// Any other failure of the OAuth exchange, in its own words.
    OAuth(String),
    /// The stored tokens do not fit what the application needs.
    Config(String),
}

impl AuthError {
    /// The error in words.
    pub open spec fn text(&self) -> Seq<char> {
        match self {
            AuthError::NoTokens => "no stored tokens; sign in first"@,
            AuthError::RefreshTokenInvalid => "the refresh token is no longer valid; sign in again"@,
            AuthError::UserDenied => "the user denied the sign-in request"@,
            AuthError::DeviceCodeExpired => "the device code expired before it was authorized"@,
            AuthError::OAuth(s) => "oauth error: "@ + s@,
            AuthError::Config(s) => s@,
        }
    }

    pub fn message(&self) -> (r: String)
        ensures
            r@ == self.text(),
    {
        match self {
            AuthError::NoTokens => "no stored tokens; sign in first".to_owned(),
            AuthError::RefreshTokenInvalid =>
            "the refresh token is no longer valid; sign in again".to_owned(),
            AuthError::UserDenied => "the user denied the sign-in request".to_owned(),
            AuthError::DeviceCodeExpired =>
            "the device code expired before it was authorized".to_owned(),
            AuthError::OAuth(s) => "oauth error: ".to_owned().concat(s.as_str()),
            AuthError::Config(s) => s.clone(),
        }
    }
}

/// Failure of the YouTube sign-in or of its token store.
#[derive(Debug, Clone)]
pub enum YouTubeAuthError {
    /// The store is empty: nobody has signed in.
    NoTokens,
    /// Google no longer takes the stored refresh token.
    RefreshTokenInvalid,
    /// Any other failure of the OAuth exchange, in its own words.
    OAuth(String),
}

impl YouTubeAuthError {
    /// The error in words.
    pub open spec fn text(&self) -> Seq<char> {
        match self {
            YouTubeAuthError::NoTokens => "no stored tokens; sign in first"@,
            YouTubeAuthError::RefreshTokenInvalid =>
            "the refresh token is no longer valid; sign in again"@,
            YouTubeAuthError::OAuth(s) => "oauth error: "@ + s@,
        }
    }

    pub fn message(&self) -> (r: String)
        ensures
            r@ == self.text(),
    {
        match self {
            YouTubeAuthError::NoTokens => "no stored tokens; sign in first".to_owned(),
            YouTubeAuthError::RefreshTokenInvalid =>
            "the refresh token is no longer valid; sign in again".to_owned(),
            YouTubeAuthError::OAuth(s) => "oauth error: ".to_owned().concat(s.as_str()),
        }
    }
}

/// What went wrong is said in what the user sees: a failure that has words of its own is told with
/// them.
pub proof fn law_failures_are_told_in_their_own_words(s: String)
    ensures
        contains_text(AuthError::OAuth(s).text(), s@),
        contains_text(AuthError::Config(s).text(), s@),
        contains_text(YouTubeAuthError::OAuth(s).text(), s@),
{
    let head = "oauth error: "@;
    lemma_contains_infix(head, s@, Seq::empty());
    assert(head + s@ + Seq::empty() =~= head + s@);
    lemma_contains_infix(Seq::empty(), s@, Seq::empty());
    assert(Seq::empty() + s@ + Seq::empty() =~= s@);
}

} // verus!
