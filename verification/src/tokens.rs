//! The tokens of the one signed-in account.
use vstd::prelude::*;

verus! {

/// The texts behind a list of strings.
pub open spec fn texts(list: Seq<String>) -> Seq<Seq<char>> {
    list.map_values(|s: String| s@)
}

/// A signed-in Twitch account: its tokens, what they allow, and whose they are. Not `Debug`, so
/// that the secrets do not end up in a log.
#[derive(Clone, PartialEq)]
pub struct TwitchTokens {
    pub access_token: String,
    pub refresh_token: String,
    /// When the access token expires, in milliseconds since the Unix epoch.
    pub expires_at_ms: i64,
    pub scopes: Vec<String>,
    pub user_id: String,
    pub login: String,
}

/// [`TwitchTokens`] as plain values.
pub struct TokensView {
    pub access_token: Seq<char>,
    pub refresh_token: Seq<char>,
    pub expires_at_ms: i64,
    pub scopes: Seq<Seq<char>>,
    pub user_id: Seq<char>,
    pub login: Seq<char>,
}

impl View for TwitchTokens {
    type V = TokensView;

    open spec fn view(&self) -> TokensView {
        TokensView {
            access_token: self.access_token@,
            refresh_token: self.refresh_token@,
            expires_at_ms: self.expires_at_ms,
            scopes: texts(self.scopes@),
            user_id: self.user_id@,
            login: self.login@,
        }
    }
}

impl TokensView {
    /// The access token has expired, or does so within `threshold_ms` of `now_ms`.
    pub open spec fn near_expiry(self, now_ms: int, threshold_ms: int) -> bool {
        self.expires_at_ms - now_ms <= threshold_ms
    }
}

impl TwitchTokens {
    /// Is the access token within `threshold_ms` of expiring?
    pub fn needs_refresh(&self, now_ms: i64, threshold_ms: i64) -> (r: bool)
        ensures
            r == self@.near_expiry(now_ms as int, threshold_ms as int),
    {
        self.expires_at_ms as i128 - now_ms as i128 <= threshold_ms as i128
    }

    /// A second copy of the same tokens.
    pub fn duplicate(&self) -> (r: Self)
        ensures
            r@ == self@,
    {
        let mut scopes: Vec<String> = Vec::new();
        for i in 0..self.scopes.len()
            invariant
                scopes@.len() == i,
                forall|j: int| 0 <= j < i ==> scopes@[j]@ == self.scopes@[j]@,
        {
            scopes.push(self.scopes[i].clone());
        }
        let r = TwitchTokens {
            access_token: self.access_token.clone(),
            refresh_token: self.refresh_token.clone(),
            expires_at_ms: self.expires_at_ms,
            scopes,
            user_id: self.user_id.clone(),
            login: self.login.clone(),
        };
        assert(texts(r.scopes@) =~= texts(self.scopes@));
        r
    }
}

/// A refresh is due from one moment on: the threshold before the tokens expire. Before it none is
/// due, and from it on one always is.
pub proof fn law_refresh_is_due_from_a_moment_on(
    tokens: TwitchTokens,
    now_ms: i64,
    threshold_ms: i64,
    due: bool,
)
    requires
        call_ensures(TwitchTokens::needs_refresh, (&tokens, now_ms, threshold_ms), due),
    ensures
        due <==> now_ms >= tokens.expires_at_ms - threshold_ms,
{
}

/// Tokens as plain values are the tokens, field by field.
pub proof fn law_tokens_hold_their_fields(tokens: TwitchTokens)
    ensures
        tokens@.access_token == tokens.access_token@,
        tokens@.refresh_token == tokens.refresh_token@,
        tokens@.expires_at_ms == tokens.expires_at_ms,
        tokens@.user_id == tokens.user_id@,
        tokens@.login == tokens.login@,
        tokens@.scopes.len() == tokens.scopes@.len(),
        forall|i: int|
            0 <= i < tokens.scopes@.len() ==> tokens@.scopes[i] == (#[trigger] tokens.scopes@[i])@,
{
}

} // verus!
