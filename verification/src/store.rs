//! Model of the on-disk credential store.
//!
//! The store keeps at most one credential: a single file under the user's
//! home directory holding exactly the token string.  That invariant is the
//! type itself — one optional slot.  Saving replaces whatever was there,
//! loading returns the stored bytes verbatim, deleting leaves the store
//! empty.  The host mirrors each operation onto the real file; every fatal
//! file-system condition is its own to report as a `CredentialIoFailure`.

use vstd::prelude::*;

verus! {

/// At most one stored credential exists at a time.
pub struct TokenStore {
    contents: Option<String>,
}

impl View for TokenStore {
    type V = Option<Seq<char>>;

    closed spec fn view(&self) -> Option<Seq<char>> {
        match self.contents {
            Some(t) => Some(t@),
            None => None,
        }
    }
}

impl TokenStore {
    /// A store with no credential, as on a machine that never logged in.
    pub fn absent() -> (r: TokenStore)
        ensures
            r@ is None,
    {
        TokenStore { contents: None }
    }

    /// Replaces the stored credential with exactly `token`.
    pub fn save(&mut self, token: &str)
        ensures
            final(self)@ == Some(token@),
    {
        self.contents = Some(token.to_owned());
    }

    /// The stored credential, byte for byte, or `None` when none exists.
    pub fn load(&self) -> (r: Option<String>)
        ensures
            (match r {
                Some(t) => self@ == Some(t@),
                None => self@ is None,
            }),
    {
        match &self.contents {
            Some(t) => Some(t.clone()),
            None => None,
        }
    }

    /// Removes the stored credential; the store is empty afterwards.
    pub fn delete(&mut self)
        ensures
            final(self)@ is None,
    {
        self.contents = None;
    }
}

} // verus!
