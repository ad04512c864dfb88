//! The sign-in of the one Twitch account: when its tokens are good, when they have to be
//! refreshed, and what becomes of the store.
//!
//! The exchanges with Twitch itself are the caller's. Each method here ends where one of them
//! begins, or takes up what one of them came to.
use chrono::Utc;
use std::time::Duration;
use vstd::prelude::*;
use vstd::string::to_string_from_display_ensures;

use crate::auth_error::AuthError;
use crate::store::{optional_tokens, TokenStore};
use crate::text::{contains_text, lemma_contains_infix, text_contains};
use crate::tokens::{texts, TokensView, TwitchTokens};

verus! {

/// An access token is refreshed once it is within this many milliseconds of expiring.
pub const REFRESH_THRESHOLD_MS: i64 = 300_000;

// ---------------------------------------------------------------------------
// Errors of the exchanges
// ---------------------------------------------------------------------------

/// `err` is what a failure of the device flow that says `s` comes to.
pub open spec fn device_flow_failure(s: Seq<char>, err: AuthError) -> bool {
    if contains_text(s, "access_denied"@) {
        err is UserDenied
    } else if contains_text(s, "expired_token"@) {
        err is DeviceCodeExpired
    } else {
        err matches AuthError::OAuth(text) && text@ == s
    }
}

/// `err` is what a failure of a refresh that says `s` comes to.
pub open spec fn refresh_failure(s: Seq<char>, err: AuthError) -> bool {
    if contains_text(s, "invalid_grant"@) || contains_text(s, "Invalid refresh token"@) {
        err is RefreshTokenInvalid
    } else {
        err matches AuthError::OAuth(text) && text@ == s
    }
}

/// Classifies a failure of the device flow by what it says.
pub fn classify_device_flow_text(s: String) -> (r: AuthError)
    ensures
        device_flow_failure(s@, r),
{
    if text_contains(s.as_str(), "access_denied") {
        AuthError::UserDenied
    } else if text_contains(s.as_str(), "expired_token") {
        AuthError::DeviceCodeExpired
    } else {
        AuthError::OAuth(s)
    }
}

/// Classifies a failure of a refresh by what it says.
pub fn classify_refresh_text(s: String) -> (r: AuthError)
    ensures
        refresh_failure(s@, r),
{
    if text_contains(s.as_str(), "invalid_grant") || text_contains(
        s.as_str(),
        "Invalid refresh token",
    ) {
        AuthError::RefreshTokenInvalid
    } else {
        AuthError::OAuth(s)
    }
}

/// Classifies a failure of the device flow.
pub fn classify_device_flow_error<E: std::fmt::Display>(err: E) -> (r: AuthError)
    ensures
        exists|s: String| #[trigger]
            to_string_from_display_ensures(&err, s) && device_flow_failure(s@, r),
{
    classify_device_flow_text(err.to_string())
}

/// Classifies a failure of a refresh.
pub fn classify_refresh_error<E: std::fmt::Display>(err: E) -> (r: AuthError)
    ensures
        exists|s: String| #[trigger]
            to_string_from_display_ensures(&err, s) && refresh_failure(s@, r),
{
    classify_refresh_text(err.to_string())
}

// ---------------------------------------------------------------------------
// Tokens from a grant
// ---------------------------------------------------------------------------

/// The whole milliseconds of a duration.
pub uninterp spec fn duration_millis(duration: Duration) -> u128;

/// Calls `Duration::as_millis`: the whole milliseconds of a duration, however many those are.
#[verifier::external_body]
fn whole_millis(duration: Duration) -> (r: u128)
    ensures
        r == duration_millis(duration),
{
    duration.as_millis()
}

/// Calls `chrono::Utc::now` and reads it as milliseconds since the Unix epoch. Nothing is
/// claimed of the result.
#[verifier::external_body]
fn now_ms() -> (r: i64)
{
    Utc::now().timestamp_millis()
}

/// `n`, or the nearest `i64` where it is none.
pub open spec fn saturated(n: int) -> i64 {
    if n > i64::MAX {
        i64::MAX
    } else if n < i64::MIN {
        i64::MIN
    } else {
        n as i64
    }
}

/// The time `millis` after `now_ms`, or the end of time where that is out of range.
pub fn expires_at_ms(now_ms: i64, millis: u128) -> (r: i64)
    ensures
        r == saturated(now_ms + saturated(millis as int)),
{
    let expires_in_ms: i64 = if millis > i64::MAX as u128 {
        i64::MAX
    } else {
        millis as i64
    };
    match now_ms.checked_add(expires_in_ms) {
        Some(r) => r,
        None => i64::MAX,
    }
}

/// Overflow-safe absolute expiry timestamp. Both the duration and the sum saturate: an absurd
/// timestamp only means that no refresh comes before Twitch asks for one.
pub fn compute_expires_at_ms(now_ms: i64, expires_in: Duration) -> (r: i64)
    ensures
        r == saturated(now_ms + saturated(duration_millis(expires_in) as int)),
{
    expires_at_ms(now_ms, whole_millis(expires_in))
}

/// A user token as Twitch grants it.
pub struct GrantedToken {
    pub access_token: String,
    pub refresh_token: Option<String>,
    pub expires_in: Duration,
    pub scopes: Vec<String>,
    pub user_id: String,
    pub login: String,
}

/// Neither the user's id nor the user's login is empty.
pub open spec fn identified(user_id: Seq<char>, login: Seq<char>) -> bool {
    user_id.len() > 0 && login.len() > 0
}

/// The complaint about a token without an identity.
pub open spec fn no_identity() -> Seq<char> {
    "twitch_oauth2 returned token with empty user_id or login"@
}

/// Rejects a half-initialized identity, which would break every later call that names the user.
pub fn validate_identity(user_id: &str, login: &str) -> (r: Result<(), AuthError>)
    ensures
        identified(user_id@, login@) ==> r is Ok,
        !identified(user_id@, login@) ==> (r matches Err(AuthError::OAuth(text)) && text@
            == no_identity()),
{
    if user_id.is_empty() || login.is_empty() {
        return Err(
            AuthError::OAuth(
                "twitch_oauth2 returned token with empty user_id or login".to_owned(),
            ),
        );
    }
    Ok(())
}

/// The tokens to keep of a grant at the time `now_ms`. No refresh token is an empty one.
pub open spec fn granted_tokens(token: GrantedToken, now_ms: i64) -> TokensView {
    TokensView {
        access_token: token.access_token@,
        refresh_token: match token.refresh_token {
            Some(s) => s@,
            None => Seq::empty(),
        },
        expires_at_ms: saturated(now_ms + saturated(duration_millis(token.expires_in) as int)),
        scopes: texts(token.scopes@),
        user_id: token.user_id@,
        login: token.login@,
    }
}

/// The tokens to keep of a grant at a given time.
pub fn tokens_granted_at(token: GrantedToken, now_ms: i64) -> (r: Result<TwitchTokens, AuthError>)
    ensures
        identified(token.user_id@, token.login@) ==> r is Ok && r->Ok_0@ == granted_tokens(
            token,
            now_ms,
        ),
        !identified(token.user_id@, token.login@) ==> (r matches Err(AuthError::OAuth(text))
            && text@ == no_identity()),
{
    match validate_identity(token.user_id.as_str(), token.login.as_str()) {
        Ok(_) => {},
        Err(e) => return Err(e),
    }
    Ok(
        TwitchTokens {
            access_token: token.access_token,
            refresh_token: match token.refresh_token {
                Some(s) => s,
                None => String::new(),
            },
            expires_at_ms: compute_expires_at_ms(now_ms, token.expires_in),
            scopes: token.scopes,
            user_id: token.user_id,
            login: token.login,
        },
    )
}

/// The tokens to keep of a grant that just came.
pub fn tokens_from_user_token(token: GrantedToken) -> (r: Result<TwitchTokens, AuthError>)
    ensures
        identified(token.user_id@, token.login@) ==> r is Ok && exists|now_ms: i64|
            r->Ok_0@ == #[trigger] granted_tokens(token, now_ms),
        !identified(token.user_id@, token.login@) ==> (r matches Err(AuthError::OAuth(text))
            && text@ == no_identity()),
{
    tokens_granted_at(token, now_ms())
}

// ---------------------------------------------------------------------------
// The manager
// ---------------------------------------------------------------------------

/// The scopes among `required` that are not `granted`, in their order.
pub open spec fn missing_scopes(required: Seq<Seq<char>>, granted: Seq<Seq<char>>) -> Seq<
    Seq<char>,
>
    decreases required.len(),
{
    if required.len() == 0 {
        Seq::empty()
    } else {
        let missing = missing_scopes(required.drop_last(), granted);
        if granted.contains(required.last()) {
            missing
        } else {
            missing.push(required.last())
        }
    }
}

/// The texts, one after the other, with a comma and a space between them.
pub open spec fn listed(list: Seq<Seq<char>>) -> Seq<char>
    decreases list.len(),
{
    if list.len() == 0 {
        Seq::empty()
    } else if list.len() == 1 {
        list[0]
    } else {
        listed(list.drop_last()) + ", "@ + list.last()
    }
}

/// The complaint about missing scopes.
pub open spec fn missing_scopes_text(missing: Seq<Seq<char>>) -> Seq<char> {
    "stored Twitch token is missing required scopes: "@ + listed(missing) + "; sign in again"@
}

/// What a token load came to, before anything is asked of Twitch.
pub enum LoadStep {
    /// The tokens are good.
    Ready(TwitchTokens),
    /// The tokens have to be refreshed.
    Refresh(TwitchTokens),
}

impl LoadStep {
    /// The stored tokens, whatever has to be done with them.
    pub open spec fn tokens(self) -> TwitchTokens {
        match self {
            LoadStep::Ready(tokens) => tokens,
            LoadStep::Refresh(tokens) => tokens,
        }
    }
}

/// `r` is what it comes to at `now_ms` that the store gave `loaded`.
pub open spec fn planned(
    required: Seq<Seq<char>>,
    loaded: Result<Option<TwitchTokens>, AuthError>,
    now_ms: i64,
    r: Result<LoadStep, AuthError>,
) -> bool {
    match loaded {
        Err(e) => r == Err::<LoadStep, AuthError>(e),
        Ok(None) => r == Err::<LoadStep, AuthError>(AuthError::NoTokens),
        Ok(Some(tokens)) => {
            let missing = missing_scopes(required, tokens@.scopes);
            if missing.len() > 0 {
                r matches Err(AuthError::Config(text)) && text@ == missing_scopes_text(missing)
            } else if tokens@.near_expiry(now_ms as int, REFRESH_THRESHOLD_MS as int) {
                r == Ok::<LoadStep, AuthError>(LoadStep::Refresh(tokens))
            } else {
                r == Ok::<LoadStep, AuthError>(LoadStep::Ready(tokens))
            }
        },
    }
}

/// `r` is the login to show where the store gave `loaded`.
pub open spec fn peeked(
    required: Seq<Seq<char>>,
    loaded: Result<Option<TwitchTokens>, AuthError>,
    r: Result<Option<String>, AuthError>,
) -> bool {
    match loaded {
        Err(e) => r == Err::<Option<String>, AuthError>(e),
        Ok(None) => r == Ok::<Option<String>, AuthError>(None),
        Ok(Some(tokens)) => if missing_scopes(required, tokens@.scopes).len() > 0 {
            r == Ok::<Option<String>, AuthError>(None)
        } else {
            r matches Ok(Some(login)) && login@ == tokens@.login
        },
    }
}

/// Builder for [`AuthManager`].
pub struct AuthManagerBuilder {
    pub client_id: String,
    pub scopes: Vec<String>,
}

impl AuthManagerBuilder {
    /// A builder for the application `client_id`, without scopes.
    pub fn new(client_id: &str) -> (r: Self)
        ensures
            r.client_id@ == client_id@,
            r.scopes@.len() == 0,
    {
        AuthManagerBuilder { client_id: client_id.to_owned(), scopes: Vec::new() }
    }

    /// Adds a scope to request. Scopes are not requested again on a refresh.
    #[must_use]
    pub fn scope(self, scope: &str) -> (r: Self)
        ensures
            r.client_id == self.client_id,
            texts(r.scopes@) == texts(self.scopes@).push(scope@),
    {
        let AuthManagerBuilder { client_id, mut scopes } = self;
        scopes.push(scope.to_owned());
        let r = AuthManagerBuilder { client_id, scopes };
        assert(texts(r.scopes@) =~= texts(self.scopes@).push(scope@));
        r
    }

    /// The manager, over `store`.
    pub fn build<S: TokenStore>(self, store: S) -> (r: AuthManager<S>)
        ensures
            r.client_id == self.client_id,
            r.scopes == self.scopes,
            r.store == store,
    {
        AuthManager { client_id: self.client_id, scopes: self.scopes, store }
    }
}

/// Coordinates the sign-in with the token store.
pub struct AuthManager<S> {
    pub client_id: String,
    /// The scopes that the application needs.
    pub scopes: Vec<String>,
    pub store: S,
}

/// Appends what is between two entries of a list, and the entry.
fn append_entry(list: &mut String, entry: &str, first: bool)
    ensures
        final(list)@ == old(list)@ + (if first {
            entry@
        } else {
            ", "@ + entry@
        }),
{
    if !first {
        list.append(", ");
    }
    list.append(entry);
    assert(list@ =~= old(list)@ + (if first {
        entry@
    } else {
        ", "@ + entry@
    }));
}

/// Is `scope` among `granted`?
fn is_granted(granted: &Vec<String>, scope: &String) -> (r: bool)
    ensures
        r == texts(granted@).contains(scope@),
{
    for i in 0..granted.len()
        invariant
            forall|j: int| 0 <= j < i ==> granted@[j]@ != scope@,
    {
        if granted[i] == *scope {
            assert(texts(granted@)[i as int] == scope@);
            return true;
        }
    }
    assert forall|j: int| 0 <= j < texts(granted@).len() implies texts(granted@)[j] != scope@ by {
        assert(texts(granted@)[j] == granted@[j]@);
    }
    false
}

impl<S: TokenStore> AuthManager<S> {
    pub fn builder(client_id: &str) -> (r: AuthManagerBuilder)
        ensures
            r.client_id@ == client_id@,
            r.scopes@.len() == 0,
    {
        AuthManagerBuilder::new(client_id)
    }

    /// Rejects tokens that lack a scope that the application needs.
    pub fn ensure_required_scopes(&self, tokens: &TwitchTokens) -> (r: Result<(), AuthError>)
        ensures
            ({
                let missing = missing_scopes(texts(self.scopes@), tokens@.scopes);
                &&& missing.len() == 0 ==> r is Ok
                &&& missing.len() > 0 ==> (r matches Err(AuthError::Config(text)) && text@
                    == missing_scopes_text(missing))
            }),
    {
        let ghost required = texts(self.scopes@);
        let ghost granted = texts(tokens.scopes@);
        let mut count: usize = 0;
        let mut list = String::new();
        assert(required.take(0) =~= Seq::<Seq<char>>::empty());
        assert(list@ =~= Seq::<char>::empty());
        for i in 0..self.scopes.len()
            invariant
                required == texts(self.scopes@),
                granted == texts(tokens.scopes@),
                count <= i,
                count == missing_scopes(required.take(i as int), granted).len(),
                list@ == listed(missing_scopes(required.take(i as int), granted)),
        {
            let ghost before = missing_scopes(required.take(i as int), granted);
            assert(required.take(i + 1).drop_last() =~= required.take(i as int));
            assert(required.take(i + 1).last() == self.scopes@[i as int]@);
            if !is_granted(&tokens.scopes, &self.scopes[i]) {
                let first = count == 0;
                append_entry(&mut list, self.scopes[i].as_str(), first);
                count += 1;
                proof {
                    let after = before.push(self.scopes@[i as int]@);
                    assert(after.drop_last() =~= before);
                    if !first {
                        assert(list@ =~= listed(before) + ", "@ + after.last());
                    } else {
                        assert(list@ =~= after[0]);
                    }
                }
            }
        }
        assert(required.take(required.len() as int) =~= required);
        if count == 0 {
            return Ok(());
        }
        let mut text = "stored Twitch token is missing required scopes: ".to_owned();
        text.append(list.as_str());
        text.append("; sign in again");
        Err(AuthError::Config(text))
    }

    /// Decides what becomes of a load at a given time.
    pub fn plan_load(
        &self,
        loaded: Result<Option<TwitchTokens>, AuthError>,
        now_ms: i64,
    ) -> (r: Result<LoadStep, AuthError>)
        ensures
            planned(texts(self.scopes@), loaded, now_ms, r),
    {
        let stored = match loaded {
            Ok(Some(stored)) => stored,
            Ok(None) => return Err(AuthError::NoTokens),
            Err(e) => return Err(e),
        };
        match self.ensure_required_scopes(&stored) {
            Ok(_) => {},
            Err(e) => return Err(e),
        }
        if !stored.needs_refresh(now_ms, REFRESH_THRESHOLD_MS) {
            return Ok(LoadStep::Ready(stored));
        }
        Ok(LoadStep::Refresh(stored))
    }

    /// Loads the stored tokens and decides, at a given time, whether they have to be refreshed.
    pub fn load_or_refresh_at(&self, now_ms: i64) -> (r: Result<LoadStep, AuthError>)
        ensures
            exists|loaded: Result<Option<TwitchTokens>, AuthError>| #[trigger]
                call_ensures(S::load, (&self.store,), loaded) && planned(
                    texts(self.scopes@),
                    loaded,
                    now_ms,
                    r,
                ),
            r is Ok ==> self.store.entry() == Some(r->Ok_0.tokens()@),
    {
        self.plan_load(self.store.load(), now_ms)
    }

    /// Loads the stored tokens and decides whether they have to be refreshed now. What a refresh
    /// comes to goes to [`AuthManager::finish_refresh`].
    pub fn load_or_refresh(&self) -> (r: Result<LoadStep, AuthError>)
        ensures
            exists|loaded: Result<Option<TwitchTokens>, AuthError>, now_ms: i64| #[trigger]
                call_ensures(S::load, (&self.store,), loaded) && #[trigger] planned(
                    texts(self.scopes@),
                    loaded,
                    now_ms,
                    r,
                ),
            r is Ok ==> self.store.entry() == Some(r->Ok_0.tokens()@),
    {
        self.load_or_refresh_at(now_ms())
    }

    /// Takes up what a refresh came to, as [`handle_refresh_result`] does.
    pub fn finish_refresh(&mut self, result: Result<TwitchTokens, AuthError>) -> (r: Result<
        TwitchTokens,
        AuthError,
    >)
        ensures
            final(self).client_id == old(self).client_id,
            final(self).scopes == old(self).scopes,
            match result {
                Ok(tokens) => exists|store: &mut S, saved: Result<(), AuthError>|
                    {
                        &&& #[trigger] call_ensures(S::save, (store, &tokens), saved)
                        &&& *store == old(self).store
                        &&& *final(store) == final(self).store
                        &&& r == match saved {
                            Ok(_) => Ok::<TwitchTokens, AuthError>(tokens),
                            Err(e) => Err::<TwitchTokens, AuthError>(e),
                        }
                    },
                Err(AuthError::RefreshTokenInvalid) => {
                    &&& r == Err::<TwitchTokens, AuthError>(AuthError::RefreshTokenInvalid)
                    &&& exists|store: &mut S, deleted: Result<(), AuthError>|
                        {
                            &&& #[trigger] call_ensures(S::delete, (store,), deleted)
                            &&& *store == old(self).store
                            &&& *final(store) == final(self).store
                        }
                },
                Err(e) => r == Err::<TwitchTokens, AuthError>(e) && final(self).store == old(
                    self,
                ).store,
            },
            r is Ok ==> final(self).store.entry() == Some(r->Ok_0@),
    {
        handle_refresh_result(result, &mut self.store)
    }

    /// Takes up, at a given time, what the device flow came to. The tokens of a user who
    /// authorized the device code are saved.
    pub fn complete_device_flow_at<E: std::fmt::Display>(
        &mut self,
        outcome: Result<GrantedToken, E>,
        now_ms: i64,
    ) -> (r: Result<TwitchTokens, AuthError>)
        ensures
            final(self).client_id == old(self).client_id,
            final(self).scopes == old(self).scopes,
            match outcome {
                Err(err) => {
                    &&& r is Err
                    &&& exists|s: String| #[trigger]
                        to_string_from_display_ensures(&err, s) && device_flow_failure(
                            s@,
                            r->Err_0,
                        )
                    &&& final(self).store == old(self).store
                },
                Ok(token) => if identified(token.user_id@, token.login@) {
                    exists|store: &mut S, tokens: TwitchTokens, saved: Result<(), AuthError>|
                        {
                            &&& #[trigger] call_ensures(S::save, (store, &tokens), saved)
                            &&& tokens@ == granted_tokens(token, now_ms)
                            &&& *store == old(self).store
                            &&& *final(store) == final(self).store
                            &&& r == match saved {
                                Ok(_) => Ok::<TwitchTokens, AuthError>(tokens),
                                Err(e) => Err::<TwitchTokens, AuthError>(e),
                            }
                        }
                } else {
                    &&& r matches Err(AuthError::OAuth(text))
                    &&& text@ == no_identity()
                    &&& final(self).store == old(self).store
                },
            },
            r is Ok ==> final(self).store.entry() == Some(r->Ok_0@),
    {
        let token = match outcome {
            Ok(token) => token,
            Err(err) => return Err(classify_device_flow_error(err)),
        };
        let tokens = match tokens_granted_at(token, now_ms) {
            Ok(tokens) => tokens,
            Err(e) => return Err(e),
        };
        match self.store.save(&tokens) {
            Ok(_) => Ok(tokens),
            Err(e) => Err(e),
        }
    }

    /// Takes up what the device flow just came to.
    pub fn complete_device_flow<E: std::fmt::Display>(
        &mut self,
        outcome: Result<GrantedToken, E>,
    ) -> (r: Result<TwitchTokens, AuthError>)
        ensures
            final(self).client_id == old(self).client_id,
            final(self).scopes == old(self).scopes,
            match outcome {
                Err(err) => {
                    &&& r is Err
                    &&& exists|s: String| #[trigger]
                        to_string_from_display_ensures(&err, s) && device_flow_failure(
                            s@,
                            r->Err_0,
                        )
                    &&& final(self).store == old(self).store
                },
                Ok(token) => if identified(token.user_id@, token.login@) {
                    exists|
                        store: &mut S,
                        tokens: TwitchTokens,
                        saved: Result<(), AuthError>,
                        now_ms: i64,
                    |
                        {
                            &&& #[trigger] call_ensures(S::save, (store, &tokens), saved)
                            &&& tokens@ == #[trigger] granted_tokens(token, now_ms)
                            &&& *store == old(self).store
                            &&& *final(store) == final(self).store
                            &&& r == match saved {
                                Ok(_) => Ok::<TwitchTokens, AuthError>(tokens),
                                Err(e) => Err::<TwitchTokens, AuthError>(e),
                            }
                        }
                } else {
                    &&& r matches Err(AuthError::OAuth(text))
                    &&& text@ == no_identity()
                    &&& final(self).store == old(self).store
                },
            },
            r is Ok ==> final(self).store.entry() == Some(r->Ok_0@),
    {
        self.complete_device_flow_at(outcome, now_ms())
    }

    /// The login of the stored tokens, if they can be used, without asking Twitch.
    pub fn peek_login(&self) -> (r: Result<Option<String>, AuthError>)
        ensures
            exists|loaded: Result<Option<TwitchTokens>, AuthError>| #[trigger]
                call_ensures(S::load, (&self.store,), loaded) && peeked(
                    texts(self.scopes@),
                    loaded,
                    r,
                ),
    {
        match self.store.load() {
            Ok(Some(tokens)) => match self.ensure_required_scopes(&tokens) {
                Ok(_) => Ok(Some(tokens.login)),
                Err(_) => Ok(None),
            },
            Ok(None) => Ok(None),
            Err(e) => Err(e),
        }
    }

    /// Wipes the stored tokens.
    pub fn logout(&mut self) -> (r: Result<(), AuthError>)
        ensures
            final(self).client_id == old(self).client_id,
            final(self).scopes == old(self).scopes,
            exists|store: &mut S|
                {
                    &&& #[trigger] call_ensures(S::delete, (store,), r)
                    &&& *store == old(self).store
                    &&& *final(store) == final(self).store
                },
            r is Ok ==> final(self).store.entry() is None,
    {
        self.store.delete()
    }
}

/// The scopes that the client needs: to read and to write chat, and the two that moderation goes
/// through.
pub open spec fn required_scopes() -> Seq<Seq<char>> {
    seq![
        "user:read:chat"@,
        "user:write:chat"@,
        "moderator:manage:banned_users"@,
        "moderator:manage:chat_messages"@,
    ]
}

/// The manager of the client's Twitch account, with every scope that the client needs.
pub fn twitch_manager<S: TokenStore>(client_id: &str, store: S) -> (r: AuthManager<S>)
    ensures
        r.client_id@ == client_id@,
        texts(r.scopes@) == required_scopes(),
        r.store == store,
{
    let r = AuthManagerBuilder::new(client_id).scope("user:read:chat").scope(
        "user:write:chat",
    ).scope("moderator:manage:banned_users").scope("moderator:manage:chat_messages").build(store);
    assert(texts(r.scopes@) =~= required_scopes());
    r
}

/// Takes up what a refresh came to. Fresh tokens are saved, since Twitch rotates the refresh
/// token on every use. A refresh token that Twitch no longer takes is deleted, so that the next
/// load does not try it again; that the deletion may fail does not matter to the caller. Any
/// other failure leaves the store alone.
pub fn handle_refresh_result<S: TokenStore>(
    result: Result<TwitchTokens, AuthError>,
    store: &mut S,
) -> (r: Result<TwitchTokens, AuthError>)
    ensures
        match result {
            Ok(tokens) => exists|s: &mut S, saved: Result<(), AuthError>|
                {
                    &&& #[trigger] call_ensures(S::save, (s, &tokens), saved)
                    &&& *s == *old(store)
                    &&& *final(s) == *final(store)
                    &&& r == match saved {
                        Ok(_) => Ok::<TwitchTokens, AuthError>(tokens),
                        Err(e) => Err::<TwitchTokens, AuthError>(e),
                    }
                },
            Err(AuthError::RefreshTokenInvalid) => {
                &&& r == Err::<TwitchTokens, AuthError>(AuthError::RefreshTokenInvalid)
                &&& exists|s: &mut S, deleted: Result<(), AuthError>|
                    {
                        &&& #[trigger] call_ensures(S::delete, (s,), deleted)
                        &&& *s == *old(store)
                        &&& *final(s) == *final(store)
                    }
            },
            Err(e) => r == Err::<TwitchTokens, AuthError>(e) && *final(store) == *old(store),
        },
        r is Ok ==> final(store).entry() == Some(r->Ok_0@),
{
    match result {
        Ok(refreshed) => match store.save(&refreshed) {
            Ok(_) => Ok(refreshed),
            Err(e) => Err(e),
        },
        Err(AuthError::RefreshTokenInvalid) => {
            let _ = store.delete();
            Err(AuthError::RefreshTokenInvalid)
        },
        Err(e) => Err(e),
    }
}

// ---------------------------------------------------------------------------
// Laws
// ---------------------------------------------------------------------------

/// What a store holds is what it gives: after tokens were saved, a load that works gives those
/// tokens, and after they were deleted it gives none.
pub proof fn law_loads_give_what_is_held<S: TokenStore>(
    store: S,
    loaded: Result<Option<TwitchTokens>, AuthError>,
)
    requires
        call_ensures(S::load, (&store,), loaded),
        loaded is Ok,
    ensures
        optional_tokens(loaded->Ok_0) == store.entry(),
        loaded->Ok_0 matches Some(tokens) ==> store.entry() == Some(tokens@),
        loaded->Ok_0 is None ==> store.entry() is None,
{
}

/// Without stored tokens every load that works ends with `NoTokens`, at any time: after a
/// sign-out, and after a dead refresh token was evicted, Twitch is not asked again.
pub proof fn law_no_refresh_without_tokens<S: TokenStore>(
    store: S,
    required: Seq<Seq<char>>,
    loaded: Result<Option<TwitchTokens>, AuthError>,
    now_ms: i64,
    r: Result<LoadStep, AuthError>,
)
    requires
        store.entry() is None,
        call_ensures(S::load, (&store,), loaded),
        loaded is Ok,
        planned(required, loaded, now_ms, r),
    ensures
        r == Err::<LoadStep, AuthError>(AuthError::NoTokens),
{
}

/// Tokens with every scope that is needed come back as they are while they are not near expiry,
/// and are refreshed, not refused, once they are.
pub proof fn law_usable_tokens_come_back(
    required: Seq<Seq<char>>,
    tokens: TwitchTokens,
    now_ms: i64,
    r: Result<LoadStep, AuthError>,
)
    requires
        forall|i: int| 0 <= i < required.len() ==> tokens@.scopes.contains(#[trigger] required[i]),
        planned(required, Ok(Some(tokens)), now_ms, r),
    ensures
        tokens@.expires_at_ms - now_ms > REFRESH_THRESHOLD_MS ==> r == Ok::<LoadStep, AuthError>(
            LoadStep::Ready(tokens),
        ),
        tokens@.expires_at_ms - now_ms <= REFRESH_THRESHOLD_MS ==> r == Ok::<LoadStep, AuthError>(
            LoadStep::Refresh(tokens),
        ),
{
    law_missing_scopes(required, tokens@.scopes);
    if missing_scopes(required, tokens@.scopes).len() > 0 {
        assert(missing_scopes(required, tokens@.scopes).contains(
            missing_scopes(required, tokens@.scopes)[0],
        ));
    }
}

/// The scopes that are missing are those that are required and not granted.
pub proof fn law_missing_scopes(required: Seq<Seq<char>>, granted: Seq<Seq<char>>)
    ensures
        forall|s: Seq<char>| #[trigger]
            missing_scopes(required, granted).contains(s) <==> required.contains(s)
                && !granted.contains(s),
    decreases required.len(),
{
    if required.len() > 0 {
        let rest = required.drop_last();
        law_missing_scopes(rest, granted);
        let before = missing_scopes(rest, granted);
        let missing = missing_scopes(required, granted);
        assert forall|s: Seq<char>| #[trigger] missing.contains(s) <==> required.contains(s)
            && !granted.contains(s) by {
            assert(required.contains(s) <==> rest.contains(s) || s == required.last()) by {
                assert(required =~= rest.push(required.last()));
                lemma_push_contains(rest, required.last(), s);
            }
            if !granted.contains(required.last()) {
                lemma_push_contains(before, required.last(), s);
            }
        }
    }
}

proof fn lemma_push_contains(list: Seq<Seq<char>>, entry: Seq<char>, s: Seq<char>)
    ensures
        list.push(entry).contains(s) <==> list.contains(s) || s == entry,
{
    if list.contains(s) {
        let i = choose|i: int| 0 <= i < list.len() && list[i] == s;
        assert(list.push(entry)[i] == s);
    }
    if s == entry {
        assert(list.push(entry)[list.len() as int] == s);
    }
}

/// The login is shown exactly where a load would let the tokens through.
pub proof fn law_login_is_shown_while_tokens_are_usable(
    required: Seq<Seq<char>>,
    loaded: Result<Option<TwitchTokens>, AuthError>,
    now_ms: i64,
    step: Result<LoadStep, AuthError>,
    login: Result<Option<String>, AuthError>,
)
    requires
        planned(required, loaded, now_ms, step),
        peeked(required, loaded, login),
    ensures
        step is Ok <==> (login is Ok && login->Ok_0 is Some),
        step is Ok ==> login->Ok_0->0@ == step->Ok_0.tokens()@.login,
{
}

/// A token never expires before the time it was granted, and the longer it is granted for, the
/// later it expires.
pub proof fn law_expiry_follows_the_grant(now_ms: i64, shorter: u128, longer: u128)
    requires
        shorter <= longer,
    ensures
        now_ms <= saturated(now_ms + saturated(shorter as int)),
        saturated(now_ms + saturated(shorter as int)) <= saturated(
            now_ms + saturated(longer as int),
        ),
{
}

/// An expiry in range is exact.
pub proof fn law_expiry_in_range_is_exact(now_ms: i64, millis: u128)
    requires
        now_ms + millis <= i64::MAX,
        millis <= i64::MAX,
    ensures
        saturated(now_ms + saturated(millis as int)) == now_ms + millis,
{
}

/// A saturated expiry never asks for a refresh, up to the last minutes of time itself.
pub proof fn law_saturated_expiry_asks_for_no_refresh(tokens: TokensView, now_ms: i64)
    requires
        tokens.expires_at_ms == i64::MAX,
        now_ms < i64::MAX - REFRESH_THRESHOLD_MS,
    ensures
        !tokens.near_expiry(now_ms as int, REFRESH_THRESHOLD_MS as int),
{
}

/// Tokens are let through only with every scope that is required: where a load gives a step, or
/// the login is shown, each required scope is one that the stored tokens carry.
pub proof fn law_usable_tokens_carry_every_scope(
    required: Seq<Seq<char>>,
    tokens: TwitchTokens,
    now_ms: i64,
    step: Result<LoadStep, AuthError>,
    login: Result<Option<String>, AuthError>,
    i: int,
)
    requires
        planned(required, Ok(Some(tokens)), now_ms, step),
        peeked(required, Ok(Some(tokens)), login),
        step is Ok || (login matches Ok(shown) && shown is Some),
        0 <= i < required.len(),
    ensures
        exists|j: int|
            0 <= j < tokens.scopes@.len() && (#[trigger] tokens.scopes@[j])@ == required[i],
{
    let missing = missing_scopes(required, tokens@.scopes);
    law_missing_scopes(required, tokens@.scopes);
    assert(missing.len() == 0);
    assert(!missing.contains(required[i]));
    assert(required.contains(required[i]));
    assert(tokens@.scopes.contains(required[i]));
    let j = choose|j: int| 0 <= j < tokens@.scopes.len() && tokens@.scopes[j] == required[i];
    assert(tokens.scopes@[j]@ == required[i]);
}

/// Whom the client lets through it can use for everything: tokens that its own manager takes
/// read chat, write chat, ban and delete.
pub proof fn law_the_client_gets_what_it_needs(
    tokens: TwitchTokens,
    now_ms: i64,
    r: Result<LoadStep, AuthError>,
    scope: Seq<char>,
)
    requires
        planned(required_scopes(), Ok(Some(tokens)), now_ms, r),
        r is Ok,
        scope == "user:read:chat"@ || scope == "user:write:chat"@ || scope
            == "moderator:manage:banned_users"@ || scope == "moderator:manage:chat_messages"@,
    ensures
        tokens@.scopes.contains(scope),
{
    let required = required_scopes();
    law_missing_scopes(required, tokens@.scopes);
    assert(required[0] == "user:read:chat"@);
    assert(required[1] == "user:write:chat"@);
    assert(required[2] == "moderator:manage:banned_users"@);
    assert(required[3] == "moderator:manage:chat_messages"@);
    assert(required.contains(scope));
    assert(!missing_scopes(required, tokens@.scopes).contains(scope));
}

/// A load that cannot be used says why: what the store said where it could not be read,
/// `NoTokens` where it holds none, and a complaint that names each missing scope otherwise. No
/// tokens with every scope are ever refused.
pub proof fn law_refused_loads_say_why(
    required: Seq<Seq<char>>,
    loaded: Result<Option<TwitchTokens>, AuthError>,
    now_ms: i64,
    r: Result<LoadStep, AuthError>,
)
    requires
        planned(required, loaded, now_ms, r),
    ensures
        loaded matches Err(e) ==> r == Err::<LoadStep, AuthError>(e),
        loaded matches Ok(None) ==> r == Err::<LoadStep, AuthError>(AuthError::NoTokens),
        loaded matches Ok(Some(tokens)) ==> match r {
            Ok(step) => step.tokens() == tokens,
            Err(e) => {
                &&& e matches AuthError::Config(text)
                &&& exists|i: int|
                    0 <= i < required.len() && !tokens@.scopes.contains(#[trigger] required[i])
                &&& forall|i: int|
                    0 <= i < required.len() && !tokens@.scopes.contains(#[trigger] required[i])
                        ==> contains_text(text@, required[i])
            },
        },
{
    if let Ok(Some(tokens)) = loaded {
        let missing = missing_scopes(required, tokens@.scopes);
        law_missing_scopes(required, tokens@.scopes);
        if missing.len() > 0 {
            assert(missing.contains(missing[0]));
            let i = choose|i: int| 0 <= i < required.len() && required[i] == missing[0];
            assert(!tokens@.scopes.contains(required[i]));
            assert forall|k: int|
                0 <= k < required.len() && !tokens@.scopes.contains(#[trigger] required[k])
                implies contains_text(missing_scopes_text(missing), required[k]) by {
                assert(missing.contains(required[k]));
                let j = choose|j: int| 0 <= j < missing.len() && missing[j] == required[k];
                lemma_listed_contains(missing, j);
                let list = listed(missing);
                let at = choose|at: int|
                    0 <= at <= list.len() - required[k].len() && #[trigger] list.subrange(
                        at,
                        at + required[k].len(),
                    ) == required[k];
                let head = "stored Twitch token is missing required scopes: "@;
                let text = missing_scopes_text(missing);
                let from = head.len() + at;
                assert(text.subrange(from, from + required[k].len()) =~= list.subrange(
                    at,
                    at + required[k].len(),
                ));
            }
        }
    }
}

proof fn lemma_listed_contains(list: Seq<Seq<char>>, i: int)
    requires
        0 <= i < list.len(),
    ensures
        contains_text(listed(list), list[i]),
    decreases list.len(),
{
    let all = listed(list);
    let n = list[i].len() as int;
    if list.len() == 1 {
        assert(all.subrange(0, 0 + n) =~= list[i]);
    } else if i == list.len() - 1 {
        let from = all.len() - n;
        assert(all.subrange(from, from + n) =~= list[i]);
    } else {
        let rest = list.drop_last();
        lemma_listed_contains(rest, i);
        let at = choose|at: int|
            0 <= at <= listed(rest).len() - n && #[trigger] listed(rest).subrange(at, at + n)
                == list[i];
        assert(all.subrange(at, at + n) =~= listed(rest).subrange(at, at + n));
    }
}

/// A list grows by a comma, a space and the next entry, and starts with its first entry alone.
pub proof fn law_lists_grow_by_an_entry(list: Seq<Seq<char>>, entry: Seq<char>)
    ensures
        list.len() == 0 ==> listed(list.push(entry)) == entry,
        list.len() > 0 ==> listed(list.push(entry)) == listed(list) + ", "@ + entry,
{
    assert(list.push(entry).drop_last() =~= list);
}

/// The missing scopes come in the order in which they are required, each once for each time that
/// it is required: those of two lists, one after the other, are those of both together.
pub proof fn law_missing_scopes_keep_their_order(
    first: Seq<Seq<char>>,
    second: Seq<Seq<char>>,
    granted: Seq<Seq<char>>,
)
    ensures
        missing_scopes(first + second, granted) == missing_scopes(first, granted)
            + missing_scopes(second, granted),
        missing_scopes(first, granted).len() <= first.len(),
    decreases second.len(), first.len(),
{
    if second.len() == 0 {
        assert(first + second =~= first);
        assert(missing_scopes(first, granted) + missing_scopes(second, granted)
            =~= missing_scopes(first, granted));
        if first.len() > 0 {
            law_missing_scopes_keep_their_order(first.drop_last(), second, granted);
        }
    } else {
        law_missing_scopes_keep_their_order(first, second.drop_last(), granted);
        assert((first + second).drop_last() =~= first + second.drop_last());
        assert(missing_scopes(first + second, granted) =~= missing_scopes(first, granted)
            + missing_scopes(second, granted));
    }
}

/// The login that is shown is that of the stored tokens, and one is shown wherever they carry
/// every scope; a store that cannot be read is reported as it said.
pub proof fn law_the_login_is_that_of_the_tokens(
    required: Seq<Seq<char>>,
    loaded: Result<Option<TwitchTokens>, AuthError>,
    r: Result<Option<String>, AuthError>,
)
    requires
        peeked(required, loaded, r),
    ensures
        loaded matches Err(e) ==> r == Err::<Option<String>, AuthError>(e),
        loaded matches Ok(None) ==> r matches Ok(None),
        loaded matches Ok(Some(tokens)) ==> {
            &&& r matches Ok(shown)
            &&& shown matches Some(login) ==> login@ == tokens.login@
            &&& shown is Some <==> forall|i: int|
                0 <= i < required.len() ==> tokens@.scopes.contains(#[trigger] required[i])
        },
{
    if let Ok(Some(tokens)) = loaded {
        let missing = missing_scopes(required, tokens@.scopes);
        law_missing_scopes(required, tokens@.scopes);
        if missing.len() > 0 {
            assert(missing.contains(missing[0]));
            let i = choose|i: int| 0 <= i < required.len() && required[i] == missing[0];
            assert(!tokens@.scopes.contains(required[i]));
        } else {
            assert forall|i: int| 0 <= i < required.len() implies tokens@.scopes.contains(
                #[trigger] required[i],
            ) by {
                assert(!missing.contains(required[i]));
            }
        }
    }
}

/// What Twitch says of a dead refresh token evicts it wherever it stands in the message, and
/// nothing else does: any other failure is passed on in its own words.
pub proof fn law_only_dead_tokens_are_given_up(
    before: Seq<char>,
    after: Seq<char>,
    s: Seq<char>,
    err: AuthError,
)
    requires
        refresh_failure(s, err),
    ensures
        s == before + "invalid_grant"@ + after ==> err is RefreshTokenInvalid,
        s == before + "Invalid refresh token"@ + after ==> err is RefreshTokenInvalid,
        err is RefreshTokenInvalid ==> contains_text(s, "invalid_grant"@) || contains_text(
            s,
            "Invalid refresh token"@,
        ),
        !(err is RefreshTokenInvalid) ==> (err matches AuthError::OAuth(text) && text@ == s),
{
    if s == before + "invalid_grant"@ + after {
        lemma_contains_infix(before, "invalid_grant"@, after);
    }
    if s == before + "Invalid refresh token"@ + after {
        lemma_contains_infix(before, "Invalid refresh token"@, after);
    }
}

/// A refusal by the user is told as such wherever the message says it, a device code that ran out
/// is told as such where the message says that alone, and any other failure is passed on in its
/// own words.
pub proof fn law_device_flow_failures(
    before: Seq<char>,
    after: Seq<char>,
    s: Seq<char>,
    err: AuthError,
)
    requires
        device_flow_failure(s, err),
    ensures
        s == before + "access_denied"@ + after ==> err is UserDenied,
        s == before + "expired_token"@ + after ==> err is UserDenied || err is DeviceCodeExpired,
        err is UserDenied <==> contains_text(s, "access_denied"@),
        err is DeviceCodeExpired ==> contains_text(s, "expired_token"@),
        err is UserDenied || err is DeviceCodeExpired || (err matches AuthError::OAuth(text)
            && text@ == s),
{
    if s == before + "access_denied"@ + after {
        lemma_contains_infix(before, "access_denied"@, after);
    }
    if s == before + "expired_token"@ + after {
        lemma_contains_infix(before, "expired_token"@, after);
    }
}

/// What is kept of a grant is the grant: the same tokens, the same scopes, the same user. They
/// expire as long after now as the grant says, or at the end of time where that lies beyond it.
pub proof fn law_grants_are_kept_whole(token: GrantedToken, now_ms: i64, kept: TwitchTokens)
    requires
        kept@ == granted_tokens(token, now_ms),
    ensures
        kept.access_token@ == token.access_token@,
        token.refresh_token matches Some(s) ==> kept.refresh_token@ == s@,
        token.refresh_token is None ==> kept.refresh_token@.len() == 0,
        kept.scopes@.len() == token.scopes@.len(),
        forall|i: int|
            0 <= i < token.scopes@.len() ==> (#[trigger] kept.scopes@[i])@ == token.scopes@[i]@,
        kept.user_id@ == token.user_id@,
        kept.login@ == token.login@,
        now_ms + duration_millis(token.expires_in) <= i64::MAX && duration_millis(token.expires_in)
            <= i64::MAX ==> kept.expires_at_ms - now_ms == duration_millis(token.expires_in),
        now_ms + duration_millis(token.expires_in) > i64::MAX && now_ms >= 0
            ==> kept.expires_at_ms == i64::MAX,
{
    assert(kept@.scopes.len() == kept.scopes@.len());
    assert forall|i: int| 0 <= i < token.scopes@.len() implies (#[trigger] kept.scopes@[i])@
        == token.scopes@[i]@ by {
        assert(kept@.scopes[i] == kept.scopes@[i]@);
        assert(texts(token.scopes@)[i] == token.scopes@[i]@);
    }
}

/// An identity needs both an id and a login.
pub proof fn law_identities_have_both_parts(user_id: Seq<char>, login: Seq<char>)
    ensures
        identified(user_id, login) <==> !(user_id.len() == 0) && !(login.len() == 0),
{
}

/// What a load comes to, told over the stored tokens themselves: they are good while they expire
/// later than the threshold from now, and have to be refreshed from then on. Neither happens
/// without every scope.
pub proof fn law_planning_a_load<S: TokenStore>(
    manager: AuthManager<S>,
    tokens: TwitchTokens,
    now_ms: i64,
    r: Result<LoadStep, AuthError>,
)
    requires
        call_ensures(AuthManager::<S>::plan_load, (&manager, Ok(Some(tokens)), now_ms), r),
    ensures
        r matches Ok(LoadStep::Ready(t)) ==> t == tokens && tokens.expires_at_ms - now_ms
            > REFRESH_THRESHOLD_MS,
        r matches Ok(LoadStep::Refresh(t)) ==> t == tokens && tokens.expires_at_ms - now_ms
            <= REFRESH_THRESHOLD_MS,
        r is Ok <==> forall|i: int|
            0 <= i < manager.scopes@.len() ==> texts(tokens.scopes@).contains(
                (#[trigger] manager.scopes@[i])@,
            ),
{
    let required = texts(manager.scopes@);
    law_refused_loads_say_why(required, Ok(Some(tokens)), now_ms, r);
    law_missing_scopes(required, tokens@.scopes);
    let missing = missing_scopes(required, tokens@.scopes);
    if missing.len() > 0 {
        assert(missing.contains(missing[0]));
        let i = choose|i: int| 0 <= i < required.len() && required[i] == missing[0];
        assert(manager.scopes@[i]@ == required[i]);
        assert(!texts(tokens.scopes@).contains(manager.scopes@[i]@));
    } else {
        assert forall|i: int| 0 <= i < manager.scopes@.len() implies texts(
            tokens.scopes@,
        ).contains((#[trigger] manager.scopes@[i])@) by {
            assert(required[i] == manager.scopes@[i]@);
            assert(required.contains(required[i]));
            assert(!missing.contains(required[i]));
        }
    }
}

/// Fresh tokens that were saved are what the store holds from then on, a refused refresh token is
/// given up but for a store that fails to delete it, and any other failure leaves the store as it
/// was.
pub proof fn law_refreshes_reach_the_store<S: TokenStore>(tokens: TwitchTokens)
    ensures
        forall|store: &mut S, r: Result<TwitchTokens, AuthError>| #[trigger]
            call_ensures(handle_refresh_result::<S>, (Ok(tokens), store), r) && r is Ok ==> {
                &&& r->Ok_0 == tokens
                &&& final(store).entry() == Some(tokens@)
            },
        forall|store: &mut S, e: AuthError, r: Result<TwitchTokens, AuthError>| #[trigger]
            call_ensures(handle_refresh_result::<S>, (Err(e), store), r) ==> {
                &&& r == Err::<TwitchTokens, AuthError>(e)
                &&& !(e is RefreshTokenInvalid) ==> *final(store) == *store
            },
{
}

/// A refresh token that Twitch no longer takes is deleted, and where the deletion works nothing is
/// left in the store.
pub proof fn law_dead_tokens_are_evicted<S: TokenStore>()
    ensures
        forall|store: &mut S, r: Result<TwitchTokens, AuthError>| #[trigger]
            call_ensures(
                handle_refresh_result::<S>,
                (Err(AuthError::RefreshTokenInvalid), store),
                r,
            ) ==> exists|s: &mut S, deleted: Result<(), AuthError>|
                {
                    &&& #[trigger] call_ensures(S::delete, (s,), deleted)
                    &&& *s == *store
                    &&& *final(s) == *final(store)
                    &&& deleted is Ok ==> final(store).entry() is None
                },
{
}

/// After a sign-out that worked the store holds nothing, and a sign-out changes nothing else.
pub proof fn law_signing_out_empties_the_store<S: TokenStore>()
    ensures
        forall|manager: &mut AuthManager<S>, r: Result<(), AuthError>| #[trigger]
            call_ensures(AuthManager::<S>::logout, (manager,), r) ==> {
                &&& r is Ok ==> final(manager).store.entry() is None
                &&& final(manager).client_id == manager.client_id
                &&& final(manager).scopes == manager.scopes
            },
{
}

/// A sign-in that worked leaves the tokens of this very grant in the store and hands them out. One
/// that failed, or whose grant names nobody, leaves the store as it was.
pub proof fn law_sign_ins_reach_the_store<S: TokenStore, E: std::fmt::Display>(
    token: GrantedToken,
    now_ms: i64,
)
    ensures
        forall|manager: &mut AuthManager<S>, r: Result<TwitchTokens, AuthError>| #[trigger]
            call_ensures(
                AuthManager::<S>::complete_device_flow_at::<E>,
                (manager, Ok(token), now_ms),
                r,
            ) ==> {
                &&& r matches Ok(tokens) ==> {
                    &&& final(manager).store.entry() == Some(tokens@)
                    &&& tokens.access_token@ == token.access_token@
                    &&& tokens.user_id@ == token.user_id@ && tokens.user_id@.len() > 0
                    &&& tokens.login@ == token.login@ && tokens.login@.len() > 0
                }
                &&& token.user_id@.len() == 0 || token.login@.len() == 0 ==> r is Err
                    && final(manager).store == manager.store
            },
        forall|manager: &mut AuthManager<S>, e: E, r: Result<TwitchTokens, AuthError>| #[trigger]
            call_ensures(
                AuthManager::<S>::complete_device_flow_at::<E>,
                (manager, Err(e), now_ms),
                r,
            ) ==> r is Err && final(manager).store == manager.store,
{
    assert forall|manager: &mut AuthManager<S>, r: Result<TwitchTokens, AuthError>| #[trigger]
        call_ensures(
            AuthManager::<S>::complete_device_flow_at::<E>,
            (manager, Ok(token), now_ms),
            r,
        ) && r is Ok implies r->Ok_0.access_token@ == token.access_token@ && r->Ok_0.user_id@
        == token.user_id@ && r->Ok_0.login@ == token.login@ by {
        law_grants_are_kept_whole(token, now_ms, r->Ok_0);
    }
}

/// A builder collects the scopes in their order, and the manager that it builds has them, the
/// client id and the store.
pub proof fn law_builders_keep_what_they_are_given<S: TokenStore>(
    builder: AuthManagerBuilder,
    scope: &str,
    more: AuthManagerBuilder,
    store: S,
    manager: AuthManager<S>,
)
    requires
        call_ensures(AuthManagerBuilder::scope, (builder, scope), more),
        call_ensures(AuthManagerBuilder::build::<S>, (more, store), manager),
    ensures
        texts(manager.scopes@) == texts(builder.scopes@).push(scope@),
        manager.client_id@ == builder.client_id@,
        manager.store == store,
{
}

/// A grant is taken exactly where it names its user by both id and login.
pub proof fn law_nameless_grants_are_refused(
    user_id: &str,
    login: &str,
    r: Result<(), AuthError>,
)
    requires
        call_ensures(validate_identity, (user_id, login), r),
    ensures
        r is Ok <==> user_id@.len() > 0 && login@.len() > 0,
        r matches Err(e) ==> e is OAuth,
{
}

/// The expiry that is computed lies as far from now as the duration says, or at the end of time.
pub proof fn law_computing_an_expiry(now_ms: i64, expires_in: Duration, r: i64)
    requires
        call_ensures(compute_expires_at_ms, (now_ms, expires_in), r),
    ensures
        now_ms <= r,
        duration_millis(expires_in) <= i64::MAX && now_ms + duration_millis(expires_in) <= i64::MAX
            ==> r - now_ms == duration_millis(expires_in),
        now_ms >= 0 && now_ms + duration_millis(expires_in) > i64::MAX ==> r == i64::MAX,
{
}

} // verus!
