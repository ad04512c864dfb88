//! Where the tokens are kept.
use vstd::prelude::*;

use crate::auth_error::AuthError;
use crate::tokens::{TokensView, TwitchTokens};

verus! {

/// Tokens that may be there, as plain values.
pub open spec fn optional_tokens(tokens: Option<TwitchTokens>) -> Option<TokensView> {
    match tokens {
        Some(tokens) => Some(tokens@),
        None => None,
    }
}

/// A place that holds the tokens of one account, or none: the keychain of the OS, say.
///
/// The contracts speak of a store that changes by its own `save` and `delete` alone. Where other
/// processes write to the same place, as they may to a keychain, they hold of what happens between
/// two such writes.
pub trait TokenStore {
    /// The tokens that are held.
    spec fn entry(&self) -> Option<TokensView>;

    /// Hands out the tokens.
    fn load(&self) -> (r: Result<Option<TwitchTokens>, AuthError>)
        ensures
            r is Ok ==> optional_tokens(r->Ok_0) == self.entry(),
    ;

    /// Holds `tokens` from now on, in place of any before.
    fn save(&mut self, tokens: &TwitchTokens) -> (r: Result<(), AuthError>)
        ensures
            r is Ok ==> final(self).entry() == Some(tokens@),
    ;

    /// Holds no tokens from now on.
    fn delete(&mut self) -> (r: Result<(), AuthError>)
        ensures
            r is Ok ==> final(self).entry() is None,
    ;
}

/// A store that forgets its tokens when the process ends. It never fails.
pub struct MemoryStore {
    tokens: Option<TwitchTokens>,
}

impl Default for MemoryStore {
    /// A store without tokens.
    fn default() -> (r: Self)
        ensures
            r.entry() is None,
    {
        MemoryStore { tokens: None }
    }
}

impl TokenStore for MemoryStore {
    closed spec fn entry(&self) -> Option<TokensView> {
        optional_tokens(self.tokens)
    }

    fn load(&self) -> (r: Result<Option<TwitchTokens>, AuthError>)
        ensures
            r is Ok,
    {
        match &self.tokens {
            Some(tokens) => Ok(Some(tokens.duplicate())),
            None => Ok(None),
        }
    }

    fn save(&mut self, tokens: &TwitchTokens) -> (r: Result<(), AuthError>)
        ensures
            r is Ok,
    {
        self.tokens = Some(tokens.duplicate());
        Ok(())
    }

    fn delete(&mut self) -> (r: Result<(), AuthError>)
        ensures
            r is Ok,
    {
        self.tokens = None;
        Ok(())
    }
}

} // verus!
