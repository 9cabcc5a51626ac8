use vstd::prelude::*;

verus! {

/// What a logout request comes to.
#[derive(Debug, Clone, Copy, PartialEq, Eq, Structural)]
pub enum LogoutOutcome {
    LoggedOut,
    InvalidToken,
}

/// What a token check comes to.
#[derive(Debug, Clone, Copy, PartialEq, Eq, Structural)]
pub enum TokenOutcome {
    Valid,
    Invalid,
}

/// The outcome of logging out with `token` while `revoked` are withdrawn,
/// when its signature and expiry check gave `authentic`: earlier logouts
/// do not change it.
pub open spec fn logout_outcome(revoked: Set<Seq<char>>, token: Seq<char>, authentic: bool) -> LogoutOutcome {
    if authentic {
        LogoutOutcome::LoggedOut
    } else {
        LogoutOutcome::InvalidToken
    }
}

/// The revoked tokens after logging out with `token`.
pub open spec fn logout_effect(revoked: Set<Seq<char>>, token: Seq<char>, authentic: bool) -> Set<
    Seq<char>,
> {
    if authentic {
        revoked.insert(token)
    } else {
        revoked
    }
}

/// Session tokens withdrawn by logout, each held once.
pub struct RevokedTokens {
    tokens: Vec<String>,
}

impl View for RevokedTokens {
    type V = Set<Seq<char>>;

    closed spec fn view(&self) -> Set<Seq<char>> {
        self.tokens@.map_values(|t: String| t@).to_set()
    }
}

impl RevokedTokens {
    /// No token revoked.
    pub fn new() -> (r: RevokedTokens)
        ensures
            r@ == Set::<Seq<char>>::empty(),
    {
        let r = RevokedTokens { tokens: Vec::new() };
        assert(r@ =~= Set::<Seq<char>>::empty());
        r
    }

    /// Whether `token` was revoked.
    pub fn is_revoked(&self, token: &String) -> (r: bool)
        ensures
            r == self@.contains(token@),
    {
        let ghost views = self.tokens@.map_values(|t: String| t@);
        let mut i: usize = 0;
        while i < self.tokens.len()
            invariant
                i <= self.tokens@.len(),
                views == self.tokens@.map_values(|t: String| t@),
                forall|j: int| 0 <= j < i ==> views[j] != token@,
            decreases self.tokens@.len() - i,
        {
            if self.tokens[i] == *token {
                assert(views.contains(token@)) by {
                    assert(views[i as int] == token@);
                }
                return true;
            }
            i = i + 1;
        }
        assert(!views.contains(token@));
        false
    }

    /// Withdraws `token` when its signature and expiry check, made by the
    /// token issuer, gave `authentic`. Logging out again is no error.
    pub fn logout(&mut self, token: &String, authentic: bool) -> (r: LogoutOutcome)
        ensures
            r == logout_outcome(old(self)@, token@, authentic),
            final(self)@ == logout_effect(old(self)@, token@, authentic),
    {
        if !authentic {
            return LogoutOutcome::InvalidToken;
        }
        if !self.is_revoked(token) {
            let ghost before = self.tokens@.map_values(|t: String| t@);
            self.tokens.push(token.clone());
            let ghost after = self.tokens@.map_values(|t: String| t@);
            assert(after =~= before.push(token@));
            assert forall|x: Seq<char>| after.contains(x) <==> before.contains(x) || x == token@ by {
                if before.contains(x) {
                    let j = choose|j: int| 0 <= j < before.len() && before[j] == x;
                    assert(after[j] == x);
                }
                if x == token@ {
                    assert(after[before.len() as int] == x);
                }
                if after.contains(x) {
                    let j = choose|j: int| 0 <= j < after.len() && after[j] == x;
                    if j < before.len() {
                        assert(before[j] == x);
                    }
                }
            }
            assert(self@ =~= old(self)@.insert(token@));
        } else {
            assert(self@ =~= old(self)@.insert(token@));
        }
        LogoutOutcome::LoggedOut
    }

    /// A token is good when its signature and expiry check gave `authentic`
    /// and no logout withdrew it.
    pub fn verify_token(&self, token: &String, authentic: bool) -> (r: TokenOutcome)
        ensures
            r is Valid <==> authentic && !self@.contains(token@),
    {
        if authentic && !self.is_revoked(token) {
            TokenOutcome::Valid
        } else {
            TokenOutcome::Invalid
        }
    }
}

impl Default for RevokedTokens {
    fn default() -> (r: RevokedTokens)
        ensures
            r@ == Set::<Seq<char>>::empty(),
    {
        RevokedTokens::new()
    }
}

/// Logging out twice with the same token gives the same outcome as logging
/// out once, and leaves the same tokens revoked.
pub proof fn lemma_logout_idempotent(revoked: Set<Seq<char>>, token: Seq<char>, authentic: bool)
    ensures
        logout_effect(logout_effect(revoked, token, authentic), token, authentic)
            == logout_effect(revoked, token, authentic),
        logout_outcome(logout_effect(revoked, token, authentic), token, authentic)
            == logout_outcome(revoked, token, authentic),
{
    assert(logout_effect(logout_effect(revoked, token, authentic), token, authentic)
        =~= logout_effect(revoked, token, authentic));
}

} // verus!
