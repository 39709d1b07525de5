//! In-process token cache.
//!
//! One `Session` value lives for the whole process invocation.  It starts
//! empty, is set at most once, and every later command reuses the token it
//! holds instead of re-reading the credential file or prompting again.

use vstd::prelude::*;

verus! {

/// Write-once slot holding the bearer token resolved for this process.
pub struct Session {
    token: Option<String>,
}

impl View for Session {
    type V = Option<Seq<char>>;

    closed spec fn view(&self) -> Option<Seq<char>> {
        match self.token {
            Some(t) => Some(t@),
            None => None,
        }
    }
}

impl Session {
    /// A fresh process starts with no resolved token.
    pub fn new() -> (r: Session)
        ensures
            r@ is None,
    {
        Session { token: None }
    }

    /// The cached token, or the empty-string sentinel when none was ever set.
    pub fn get_token(&self) -> (r: String)
        ensures
            (match self@ {
                Some(t) => r@ == t,
                None => r@ == Seq::<char>::empty(),
            }),
    {
        match &self.token {
            Some(t) => t.clone(),
            None => String::new(),
        }
    }

    /// Whether a token has been resolved in this process.
    pub fn is_set(&self) -> (r: bool)
        ensures
            r == (self@ is Some),
    {
        self.token.is_some()
    }

    /// Stores the token if the slot is still empty; a second call never
    /// overwrites what the first one stored.
    pub fn set_if_absent(&mut self, token: String) -> (r: bool)
        ensures
            old(self)@ is None ==> final(self)@ == Some(token@) && r,
            old(self)@ is Some ==> final(self)@ == old(self)@ && !r,
    {
        if self.token.is_none() {
            self.token = Some(token);
            true
        } else {
            false
        }
    }
}

} // verus!
