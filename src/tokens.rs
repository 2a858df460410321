//! One-time download tokens. A token grants one user one download of one
//! file until its expiry; redeeming it removes it whatever the outcome, so
//! it can never be replayed.
use vstd::prelude::*;

verus! {

/// What a download token grants: `user_id` may fetch `file_id` until
/// `expires_at` (seconds since the Unix epoch).
#[derive(Clone, Copy, Debug, PartialEq, Eq, Structural)]
pub struct DownloadToken {
    pub user_id: u128,
    pub file_id: u128,
    pub expires_at: i64,
}

/// Why a token was not honoured.
#[derive(Clone, Copy, Debug, PartialEq, Eq, Structural)]
pub enum TokenError {
    /// No such token is outstanding (never issued, or already redeemed).
    InvalidToken,
    /// The token's expiry has passed.
    TokenExpired,
    /// The token was issued to another user.
    AccessDenied,
}

/// The entries of a store, in the order they were issued: token text and
/// what it grants.
pub type TokenEntries = Seq<(Seq<char>, DownloadToken)>;

/// The grant of the earliest entry for `token`, if any.
pub open spec fn lookup(entries: TokenEntries, token: Seq<char>) -> Option<DownloadToken>
    decreases entries.len(),
{
    if entries.len() == 0 {
        None
    } else {
        match lookup(entries.drop_last(), token) {
            Some(g) => Some(g),
            None => if entries.last().0 == token {
                Some(entries.last().1)
            } else {
                None
            },
        }
    }
}

/// The entries without any for `token`.
pub open spec fn without(entries: TokenEntries, token: Seq<char>) -> TokenEntries
    decreases entries.len(),
{
    if entries.len() == 0 {
        entries
    } else if entries.last().0 == token {
        without(entries.drop_last(), token)
    } else {
        without(entries.drop_last(), token).push(entries.last())
    }
}

/// The expiry of a token issued at `now` for `ttl_minutes`, which counts as
/// at least one minute.
pub open spec fn expiry(now: i64, ttl_minutes: i64) -> int {
    now + (if ttl_minutes < 1 {
        1
    } else {
        ttl_minutes as int
    }) * 60
}

/// The outcome of redeeming `token` by `caller` at `now`.
pub open spec fn redemption(entries: TokenEntries, token: Seq<char>, caller: u128, now: i64) -> Result<
    DownloadToken,
    TokenError,
> {
    match lookup(entries, token) {
        None => Err(TokenError::InvalidToken),
        Some(g) => if g.expires_at < now {
            Err(TokenError::TokenExpired)
        } else if g.user_id != caller {
            Err(TokenError::AccessDenied)
        } else {
            Ok(g)
        },
    }
}

/// The token lifetime in minutes from its stored setting: 60 when unset,
/// and at least 1.
pub fn token_ttl_minutes(stored: Option<i64>) -> (r: i64)
    ensures
        r == (match stored {
            Some(m) => if m < 1 {
                1
            } else {
                m
            },
            None => 60,
        }),
        r >= 1,
{
    let minutes = match stored {
        Some(m) => m,
        None => 60,
    };
    if minutes < 1 {
        1
    } else {
        minutes
    }
}

/// Relies on `uuid::Uuid::new_v4` and its `Display`: a fresh random
/// identifier in text. Nothing is promised of its value.
#[verifier::external_body]
fn fresh_token() -> (r: String) {
    uuid::Uuid::new_v4().to_string()
}

/// Relies on `chrono::Utc::now` and `DateTime::timestamp`: the current time
/// in seconds since the Unix epoch. Nothing is promised of its value.
#[verifier::external_body]
pub(crate) fn unix_now() -> (r: i64) {
    chrono::Utc::now().timestamp()
}

struct TokenEntry {
    token: String,
    grant: DownloadToken,
}

/// The outstanding download tokens.
pub struct DownloadTokenStore {
    entries: Vec<TokenEntry>,
}

impl View for DownloadTokenStore {
    type V = TokenEntries;

    closed spec fn view(&self) -> TokenEntries {
        self.entries@.map_values(|e: TokenEntry| (e.token@, e.grant))
    }
}

proof fn lemma_lookup_without(entries: TokenEntries, token: Seq<char>)
    ensures
        lookup(without(entries, token), token) is None,
    decreases entries.len(),
{
    if entries.len() > 0 {
        lemma_lookup_without(entries.drop_last(), token);
        let w = without(entries.drop_last(), token);
        if entries.last().0 != token {
            assert(w.push(entries.last()).drop_last() =~= w);
        }
    }
}

/// After the entries for `token` are dropped and a new one is added, the
/// new one is what `token` finds.
proof fn lemma_lookup_fresh(entries: TokenEntries, token: Seq<char>, grant: DownloadToken)
    ensures
        lookup(without(entries, token).push((token, grant)), token) == Some(grant),
{
    lemma_lookup_without(entries, token);
    assert(without(entries, token).push((token, grant)).drop_last() =~= without(entries, token));
}

/// Whether no token text appears in two entries.
pub open spec fn distinct_tokens(entries: TokenEntries) -> bool {
    forall|i: int, j: int| 0 <= i < j < entries.len() ==> #[trigger] entries[i].0 != #[trigger] entries[j].0
}

/// Whether some entry is for `token`.
pub open spec fn has_token(entries: TokenEntries, token: Seq<char>) -> bool {
    exists|i: int| 0 <= i < entries.len() && #[trigger] entries[i].0 == token
}

/// Whether the expiry of a token issued at `now` for `ttl_minutes` fits in
/// an `i64`.
pub open spec fn expiry_fits(now: i64, ttl_minutes: i64) -> bool {
    i64::MIN <= expiry(now, ttl_minutes) <= i64::MAX
}

proof fn lemma_without_keys(entries: TokenEntries, token: Seq<char>, k: Seq<char>)
    ensures
        has_token(without(entries, token), k) ==> has_token(entries, k) && k != token,
    decreases entries.len(),
{
    if entries.len() > 0 {
        let e = entries.drop_last();
        lemma_without_keys(e, token, k);
        let w = without(e, token);
        if has_token(without(entries, token), k) {
            let i = choose|i: int| 0 <= i < without(entries, token).len() && #[trigger] without(entries, token)[i].0 == k;
            if entries.last().0 != token && i == w.len() {
                assert(entries[entries.len() - 1].0 == k);
            } else {
                assert(w[i].0 == k);
                assert(has_token(w, k));
                let j = choose|j: int| 0 <= j < e.len() && #[trigger] e[j].0 == k;
                assert(entries[j].0 == k);
            }
        }
    }
}

proof fn lemma_without_distinct(entries: TokenEntries, token: Seq<char>)
    requires
        distinct_tokens(entries),
    ensures
        distinct_tokens(without(entries, token)),
        !has_token(without(entries, token), token),
    decreases entries.len(),
{
    lemma_without_keys(entries, token, token);
    if entries.len() > 0 {
        let e = entries.drop_last();
        assert(distinct_tokens(e)) by {
            assert forall|i: int, j: int| 0 <= i < j < e.len() implies #[trigger] e[i].0 != #[trigger] e[j].0 by {
                assert(e[i] == entries[i] && e[j] == entries[j]);
            }
        }
        lemma_without_distinct(e, token);
        let w = without(e, token);
        let x = entries.last();
        if x.0 != token {
            lemma_without_keys(e, token, x.0);
            if has_token(w, x.0) {
                let j = choose|j: int| 0 <= j < e.len() && #[trigger] e[j].0 == x.0;
                assert(entries[j].0 == entries[entries.len() - 1].0);
            }
            let v = w.push(x);
            assert forall|i: int, j: int| 0 <= i < j < v.len() implies #[trigger] v[i].0 != #[trigger] v[j].0 by {
                if j == w.len() {
                    assert(v[i] == w[i]);
                    if v[i].0 == x.0 {
                        assert(has_token(w, x.0));
                    }
                }
            }
        }
    }
}

proof fn lemma_issue_distinct(entries: TokenEntries, token: Seq<char>, grant: DownloadToken)
    requires
        distinct_tokens(entries),
    ensures
        distinct_tokens(without(entries, token).push((token, grant))),
{
    lemma_without_distinct(entries, token);
    let w = without(entries, token);
    let v = w.push((token, grant));
    assert forall|i: int, j: int| 0 <= i < j < v.len() implies #[trigger] v[i].0 != #[trigger] v[j].0 by {
        if j == w.len() {
            assert(v[i] == w[i]);
            if v[i].0 == token {
                assert(has_token(w, token));
            }
        }
    }
}

impl DownloadTokenStore {
    /// The store's invariant: no token text appears twice.
    pub open spec fn wf(&self) -> bool {
        distinct_tokens(self@)
    }

    /// A store with no tokens.
    pub fn new() -> (r: Self)
        ensures
            r@ == Seq::<(Seq<char>, DownloadToken)>::empty(),
            r.wf(),
    {
        let r = DownloadTokenStore { entries: Vec::new() };
        proof {
            assert(r@ =~= Seq::<(Seq<char>, DownloadToken)>::empty());
        }
        r
    }

    /// Records `token` as granting `user_id` one download of `file_id` until
    /// `ttl_minutes` (at least one) after `now`, replacing an earlier entry
    /// of the same text. Returns the grant.
    pub fn issue(&mut self, token: String, user_id: u128, file_id: u128, ttl_minutes: i64, now: i64) -> (r:
        DownloadToken)
        requires
            old(self).wf(),
            expiry_fits(now, ttl_minutes),
        ensures
            r == (DownloadToken { user_id, file_id, expires_at: expiry(now, ttl_minutes) as i64 }),
            final(self)@ == without(old(self)@, token@).push((token@, r)),
            final(self).wf(),
    {
        let minutes: i64 = if ttl_minutes < 1 {
            1
        } else {
            ttl_minutes
        };
        let expires_at = ((now as i128) + (minutes as i128) * 60) as i64;
        let grant = DownloadToken { user_id, file_id, expires_at };
        let ghost text = token@;
        self.drop_token(&token);
        let ghost dropped = self@;
        self.entries.push(TokenEntry { token, grant });
        proof {
            assert(self@ =~= dropped.push((text, grant)));
            lemma_issue_distinct(old(self)@, text, grant);
        }
        grant
    }

    /// Records `token` as `issue` does when the expiry of a token issued at
    /// `now` for `ttl_minutes` fits in an `i64`; otherwise records nothing.
    pub fn issue_at(&mut self, token: String, user_id: u128, file_id: u128, ttl_minutes: i64, now: i64) -> (r:
        Option<DownloadToken>)
        requires
            old(self).wf(),
        ensures
            r is None <==> !expiry_fits(now, ttl_minutes),
            r matches Some(g) ==> g == (DownloadToken {
                user_id,
                file_id,
                expires_at: expiry(now, ttl_minutes) as i64,
            }) && final(self)@ == without(old(self)@, token@).push((token@, g)),
            r is None ==> final(self)@ == old(self)@,
            final(self).wf(),
    {
        let minutes: i128 = if ttl_minutes < 1 {
            1
        } else {
            ttl_minutes as i128
        };
        let expires = (now as i128) + minutes * 60;
        if expires < i64::MIN as i128 || expires > i64::MAX as i128 {
            return None;
        }
        Some(self.issue(token, user_id, file_id, ttl_minutes, now))
    }

    /// Removes every entry for `token`, returning the earliest one's grant.
    fn drop_token(&mut self, token: &String) -> (r: Option<DownloadToken>)
        ensures
            r == lookup(old(self)@, token@),
            final(self)@ == without(old(self)@, token@),
    {
        let ghost before = self@;
        let mut kept: Vec<TokenEntry> = Vec::new();
        let mut found: Option<DownloadToken> = None;
        let n = self.entries.len();
        let mut i: usize = 0;
        while i < n
            invariant
                n == self.entries@.len(),
                i <= n,
                before == self@,
                kept@.map_values(|e: TokenEntry| (e.token@, e.grant)) == without(
                    before.subrange(0, i as int),
                    token@,
                ),
                found == lookup(before.subrange(0, i as int), token@),
            decreases n - i,
        {
            let entry = &self.entries[i];
            proof {
                let pre = before.subrange(0, i + 1);
                assert(pre.drop_last() =~= before.subrange(0, i as int));
                assert(pre.last() == (entry.token@, entry.grant));
            }
            let ghost kept_before = kept@;
            if entry.token == *token {
                if found.is_none() {
                    found = Some(entry.grant);
                }
            } else {
                kept.push(TokenEntry { token: entry.token.clone(), grant: entry.grant });
                proof {
                    assert(kept@.map_values(|e: TokenEntry| (e.token@, e.grant)) =~= kept_before.map_values(
                        |e: TokenEntry| (e.token@, e.grant),
                    ).push(before[i as int]));
                }
            }
            i = i + 1;
        }
        proof {
            assert(before.subrange(0, n as int) =~= before);
        }
        self.entries = kept;
        found
    }

    /// Redeems `token` for `caller` at time `now`. The token is removed
    /// whatever the outcome. Fails with `InvalidToken` when it is not
    /// outstanding, `TokenExpired` when its expiry is before `now`, and
    /// `AccessDenied` when it was issued to another user; otherwise returns
    /// what it grants.
    pub fn redeem(&mut self, token: &String, caller: u128, now: i64) -> (r: Result<DownloadToken, TokenError>)
        requires
            old(self).wf(),
        ensures
            r == redemption(old(self)@, token@, caller, now),
            final(self)@ == without(old(self)@, token@),
            final(self).wf(),
    {
        proof {
            lemma_without_distinct(old(self)@, token@);
        }
        match self.drop_token(token) {
            None => Err(TokenError::InvalidToken),
            Some(grant) => {
                if grant.expires_at < now {
                    Err(TokenError::TokenExpired)
                } else if grant.user_id != caller {
                    Err(TokenError::AccessDenied)
                } else {
                    Ok(grant)
                }
            },
        }
    }

    /// Issues a fresh random token granting `user_id` one download of
    /// `file_id`, valid for `ttl_minutes` (at least one) from now, as
    /// `issue_at` does at the current time. Returns the token text and its
    /// grant, or nothing when the expiry would not fit in an `i64`.
    pub fn issue_fresh(&mut self, user_id: u128, file_id: u128, ttl_minutes: i64) -> (r: Option<
        (String, DownloadToken),
    >)
        requires
            old(self).wf(),
        ensures
            r matches Some((t, g)) ==> {
                &&& exists|now: i64|
                    expiry_fits(now, ttl_minutes) && g == (DownloadToken {
                        user_id,
                        file_id,
                        expires_at: expiry(now, ttl_minutes) as i64,
                    })
                &&& final(self)@ == without(old(self)@, t@).push((t@, g))
            },
            r is None ==> final(self)@ == old(self)@ && exists|now: i64| !expiry_fits(now, ttl_minutes),
            final(self).wf(),
    {
        let now = unix_now();
        let token = fresh_token();
        let shown = token.clone();
        match self.issue_at(token, user_id, file_id, ttl_minutes, now) {
            Some(grant) => Some((shown, grant)),
            None => None,
        }
    }

    /// Redeems `token` for `caller` at the current time, as `redeem` does.
    pub fn redeem_now(&mut self, token: &String, caller: u128) -> (r: Result<DownloadToken, TokenError>)
        requires
            old(self).wf(),
        ensures
            final(self).wf(),
            lookup(old(self)@, token@) is None ==> r == Err::<DownloadToken, TokenError>(
                TokenError::InvalidToken,
            ),
            r matches Ok(g) ==> lookup(old(self)@, token@) == Some(g) && g.user_id == caller,
            final(self)@ == without(old(self)@, token@),
    {
        let now = unix_now();
        self.redeem(token, caller, now)
    }
}

/// Single use: whatever a redemption of `token` returned, it removed the
/// token, so a second redemption of it fails with `InvalidToken`.
pub proof fn lemma_redeemed_once(entries: TokenEntries, token: Seq<char>, caller: u128, now: i64)
    ensures
        lookup(without(entries, token), token) is None,
        redemption(without(entries, token), token, caller, now) == Err::<DownloadToken, TokenError>(
            TokenError::InvalidToken,
        ),
{
    lemma_lookup_without(entries, token);
}

/// A freshly issued token is honoured once for its user before it expires,
/// refused with `TokenExpired` after its expiry even on the first attempt,
/// and in both cases gone afterwards.
pub proof fn lemma_issued_token_lifecycle(
    entries: TokenEntries,
    token: Seq<char>,
    grant: DownloadToken,
    now: i64,
)
    ensures
        ({
            let issued = without(entries, token).push((token, grant));
            &&& grant.expires_at >= now ==> redemption(issued, token, grant.user_id, now) == Ok::<
                DownloadToken,
                TokenError,
            >(grant)
            &&& grant.expires_at < now ==> redemption(issued, token, grant.user_id, now) == Err::<
                DownloadToken,
                TokenError,
            >(TokenError::TokenExpired)
            &&& redemption(without(issued, token), token, grant.user_id, now) == Err::<
                DownloadToken,
                TokenError,
            >(TokenError::InvalidToken)
        }),
{
    lemma_lookup_fresh(entries, token, grant);
    lemma_lookup_without(without(entries, token).push((token, grant)), token);
}

} // verus!
