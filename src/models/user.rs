use vstd::prelude::*;

use crate::text::{same_text, split_whitespace, words};

verus! {

/// A user as the API describes it.
#[derive(Debug, Clone, PartialEq, Eq)]
pub struct User {
    /// User id.
    pub user_id: u64,
    /// Username.
    pub name: String,
    /// Email address (shown to the user alone).
    pub email: Option<String>,
    /// Profile picture URL.
    pub profile_picture: Option<String>,
}

/// What the API tells of an OAuth token (RFC 7662).
#[derive(Debug, Clone, PartialEq, Eq)]
pub struct TokenIntrospection {
    /// Whether the token is active.
    pub active: bool,
    /// Client that the token was issued to.
    pub client_id: Option<String>,
    /// Token type, such as "Bearer".
    pub token_type: Option<String>,
    /// Scopes, separated by white space.
    pub scope: Option<String>,
    /// Expiry as a Unix time in seconds.
    pub exp: Option<i64>,
}

/// Time elapsed since the Unix epoch, or none where the clock is set before it.
///
/// Relies on `std::time::SystemTime::elapsed`, called on `UNIX_EPOCH`; the
/// value depends on the clock, so nothing is promised of it.
#[verifier::external_body]
fn elapsed_since_epoch() -> Option<std::time::Duration> {
    std::time::UNIX_EPOCH.elapsed().ok()
}

/// Relies on `Duration::as_secs`: the whole seconds of a duration, of
/// which nothing more is needed here.
pub assume_specification[ core::time::Duration::as_secs ](d: &core::time::Duration) -> u64;

impl TokenIntrospection {
    /// The scopes of the token, in the order given; none where no scope is given.
    pub open spec fn scope_list(&self) -> Seq<Seq<char>> {
        match self.scope {
            Some(s) => words(s@),
            None => Seq::empty(),
        }
    }

    /// Whether the token is active.
    pub fn is_active(&self) -> (r: bool)
        ensures
            r == self.active,
    {
        self.active
    }

    /// The scopes of the token, split at white space.
    pub fn scopes(&self) -> (r: Vec<String>)
        ensures
            r@.map_values(|w: String| w@) == self.scope_list(),
    {
        match &self.scope {
            Some(s) => split_whitespace(s.as_str()),
            None => {
                let r: Vec<String> = Vec::new();
                assert(r@.map_values(|w: String| w@) =~= Seq::<Seq<char>>::empty());
                r
            },
        }
    }

    /// Whether the token grants `scope`.
    pub fn has_scope(&self, scope: &str) -> (r: bool)
        ensures
            r == self.scope_list().contains(scope@),
    {
        let all = self.scopes();
        let ghost views = all@.map_values(|w: String| w@);
        let mut i: usize = 0;
        while i < all.len()
            invariant
                views == all@.map_values(|w: String| w@),
                views == self.scope_list(),
                i <= all.len(),
                forall|j: int| 0 <= j < i ==> views[j] != scope@,
            decreases all.len() - i,
        {
            if same_text(all[i].as_str(), scope) {
                assert(views[i as int] == scope@);
                return true;
            }
            i = i + 1;
        }
        assert(!views.contains(scope@));
        false
    }

    /// Whether the token has expired at Unix time `now`: it has, from its
    /// expiry on; a token without an expiry never does.
    pub fn is_expired_at(&self, now: i64) -> (r: bool)
        ensures
            r == (self.exp matches Some(e) && now >= e),
    {
        match self.exp {
            Some(e) => now >= e,
            None => false,
        }
    }

    /// Whether the token has expired by the system clock. A clock set
    /// before 1970 counts as the epoch itself.
    pub fn is_expired(&self) -> (r: bool)
        ensures
            self.exp is None ==> !r,
            self.exp matches Some(e) && e <= 0 ==> r,
    {
        let now: i64 = match elapsed_since_epoch() {
            Some(d) => {
                let secs = d.as_secs();
                if secs > i64::MAX as u64 {
                    i64::MAX
                } else {
                    secs as i64
                }
            },
            None => 0,
        };
        self.is_expired_at(now)
    }
}

} // verus!
