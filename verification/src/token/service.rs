//! Tokens that authenticate a connection or resume a session. Only their hashes are kept.

use crate::digest::{bytes_ct_eq, random_token, sha256_digest};
#[allow(unused_imports)]
use crate::digest::{is_token_text, sha256};
#[allow(unused_imports)]
use crate::ids::is_random_uuid;
use crate::ids::Uuid;
use crate::text::str_eq;
#[allow(unused_imports)]
use crate::time::MAX_DURATION_NANOS;
use crate::time::{Duration, Timestamp};
use vstd::prelude::*;
#[allow(unused_imports)]
use vstd::utf8::encode_utf8;

verus! {

/// What a token is good for.
#[derive(Debug, Clone, Copy, PartialEq, Eq, Structural)]
pub enum TokenType {
    Auth,
    Resume,
}

/// What is kept of a token.
#[derive(Debug, Clone)]
pub struct TokenRecord {
    pub token_hash: [u8; 32],
    pub token_type: TokenType,
    pub session_id: Uuid,
    pub user_id: String,
    pub jti: Uuid,
    pub expires_at: Timestamp,
    pub consumed_at: Option<Timestamp>,
    pub revoked_at: Option<Timestamp>,
    pub created_at: Timestamp,
}

/// Why a token is refused.
#[derive(Debug, Clone, Copy, PartialEq, Eq, Structural)]
pub enum TokenError {
    NotFound,
    Expired,
    Revoked,
    Consumed,
    BindingMismatch,
    TypeMismatch,
}

impl TokenError {
    /// What the error says.
    pub open spec fn text(self) -> Seq<char> {
        match self {
            TokenError::NotFound => "token not found"@,
            TokenError::Expired => "token expired"@,
            TokenError::Revoked => "token revoked"@,
            TokenError::Consumed => "token consumed"@,
            TokenError::BindingMismatch => "token/session/user mismatch"@,
            TokenError::TypeMismatch => "token type mismatch"@,
        }
    }

    /// What the error says.
    pub fn message(self) -> (m: String)
        ensures
            m@ == self.text(),
    {
        match self {
            TokenError::NotFound => "token not found".to_owned(),
            TokenError::Expired => "token expired".to_owned(),
            TokenError::Revoked => "token revoked".to_owned(),
            TokenError::Consumed => "token consumed".to_owned(),
            TokenError::BindingMismatch => "token/session/user mismatch".to_owned(),
            TokenError::TypeMismatch => "token type mismatch".to_owned(),
        }
    }
}

/// The tokens that were issued and not yet cleaned up.
#[derive(Debug)]
pub struct TokenService {
    records: Vec<TokenRecord>,
}

/// A token record, with its hash and its user as sequences.
#[verifier::ext_equal]
pub struct TokenView {
    pub hash: Seq<u8>,
    pub token_type: TokenType,
    pub session_id: Uuid,
    pub user: Seq<char>,
    pub jti: Uuid,
    pub expires_at: Timestamp,
    pub consumed_at: Option<Timestamp>,
    pub revoked_at: Option<Timestamp>,
    pub created_at: Timestamp,
}

impl View for TokenRecord {
    type V = TokenView;

    open spec fn view(&self) -> TokenView {
        TokenView {
            hash: self.token_hash@,
            token_type: self.token_type,
            session_id: self.session_id,
            user: self.user_id@,
            jti: self.jti,
            expires_at: self.expires_at,
            consumed_at: self.consumed_at,
            revoked_at: self.revoked_at,
            created_at: self.created_at,
        }
    }
}

impl View for TokenService {
    type V = Seq<TokenView>;

    closed spec fn view(&self) -> Seq<TokenView> {
        self.records@.map_values(|r: TokenRecord| r@)
    }
}

/// The hash under which a token is kept.
pub open spec fn hash_of(raw_token: Seq<char>) -> Seq<u8> {
    sha256(encode_utf8(raw_token))
}

/// Whether `i` is the first record with this hash.
pub open spec fn is_first(records: Seq<TokenView>, hash: Seq<u8>, i: int) -> bool {
    &&& 0 <= i < records.len()
    &&& records[i].hash == hash
    &&& forall|j: int| 0 <= j < i ==> (#[trigger] records[j]).hash != hash
}

/// The position of the first record of a token.
pub open spec fn position(records: Seq<TokenView>, raw_token: Seq<char>) -> Option<int> {
    if exists|i: int| is_first(records, hash_of(raw_token), i) {
        Some(choose|i: int| is_first(records, hash_of(raw_token), i))
    } else {
        None
    }
}

/// Why a token of this record cannot be used by this user on this session, apart from having been
/// used before.
pub open spec fn refusal(
    record: TokenView,
    token_type: TokenType,
    session_id: Uuid,
    user_id: Seq<char>,
    now: Timestamp,
) -> Option<TokenError> {
    if record.token_type != token_type {
        Some(TokenError::TypeMismatch)
    } else if record.session_id != session_id || record.user != user_id {
        Some(TokenError::BindingMismatch)
    } else if record.expires_at.nanos <= now.nanos {
        Some(TokenError::Expired)
    } else if record.revoked_at is Some {
        Some(TokenError::Revoked)
    } else {
        None
    }
}

/// The answer to an attempt to authenticate with a token.
pub open spec fn auth_outcome(
    records: Seq<TokenView>,
    raw_token: Seq<char>,
    session_id: Uuid,
    user_id: Seq<char>,
    now: Timestamp,
) -> Result<(), TokenError> {
    match position(records, raw_token) {
        None => Err(TokenError::NotFound),
        Some(i) => match refusal(records[i], TokenType::Auth, session_id, user_id, now) {
            Some(e) => Err(e),
            None => if records[i].consumed_at is Some {
                Err(TokenError::Consumed)
            } else {
                Ok(())
            },
        },
    }
}

/// The records after an attempt to authenticate: a token that is accepted is spent.
pub open spec fn after_auth(
    records: Seq<TokenView>,
    raw_token: Seq<char>,
    session_id: Uuid,
    user_id: Seq<char>,
    now: Timestamp,
) -> Seq<TokenView> {
    if auth_outcome(records, raw_token, session_id, user_id, now) is Ok {
        let i = position(records, raw_token)->0;
        records.update(i, TokenView { consumed_at: Some(now), ..records[i] })
    } else {
        records
    }
}

/// The answer to an attempt to resume with a token.
pub open spec fn resume_outcome(
    records: Seq<TokenView>,
    raw_token: Seq<char>,
    session_id: Uuid,
    user_id: Seq<char>,
    now: Timestamp,
) -> Result<(), TokenError> {
    match position(records, raw_token) {
        None => Err(TokenError::NotFound),
        Some(i) => match refusal(records[i], TokenType::Resume, session_id, user_id, now) {
            Some(e) => Err(e),
            None => Ok(()),
        },
    }
}

/// The records after a token was revoked. A token that is not there changes nothing.
pub open spec fn after_revoke(
    records: Seq<TokenView>,
    raw_token: Seq<char>,
    now: Timestamp,
) -> Seq<TokenView> {
    match position(records, raw_token) {
        None => records,
        Some(i) => records.update(i, TokenView { revoked_at: Some(now), ..records[i] }),
    }
}

/// Whether something happened at most `retention` before `now`, and not after it.
pub open spec fn recent(at: Option<Timestamp>, now: Timestamp, retention: Duration) -> bool {
    at matches Some(t) && t.nanos <= now.nanos && now.nanos - t.nanos <= retention.nanos()
}

/// Whether a clean-up keeps a record: it has not expired, or it was revoked or spent recently.
pub open spec fn kept(record: TokenView, now: Timestamp, retention: Duration) -> bool {
    ||| record.expires_at.nanos > now.nanos
    ||| recent(record.revoked_at, now, retention)
    ||| recent(record.consumed_at, now, retention)
}

/// The records that a clean-up leaves, in their order.
pub open spec fn after_cleanup(
    records: Seq<TokenView>,
    now: Timestamp,
    retention: Duration,
) -> Seq<TokenView> {
    records.filter(|r: TokenView| kept(r, now, retention))
}

/// Whether this is the record of a token issued at `now`, neither spent nor revoked.
pub open spec fn issued(
    record: TokenView,
    raw_token: Seq<char>,
    token_type: TokenType,
    session_id: Uuid,
    user_id: Seq<char>,
    now: Timestamp,
    ttl: Duration,
) -> bool {
    &&& record.hash == hash_of(raw_token)
    &&& record.token_type == token_type
    &&& record.session_id == session_id
    &&& record.user == user_id
    &&& record.created_at == now
    &&& record.expires_at.nanos == now.nanos + ttl.nanos()
    &&& record.consumed_at is None
    &&& record.revoked_at is None
}

/// Whether the records grew by exactly one newly issued token.
pub open spec fn issues(
    before: Seq<TokenView>,
    after: Seq<TokenView>,
    raw_token: Seq<char>,
    token_type: TokenType,
    session_id: Uuid,
    user_id: Seq<char>,
    ttl: Duration,
) -> bool {
    &&& after.len() == before.len() + 1
    &&& after.drop_last() == before
    &&& issued(after.last(), raw_token, token_type, session_id, user_id, after.last().created_at, ttl)
}

/// The hash under which a token is kept.
pub fn hash_token(raw_token: &str) -> (hash: [u8; 32])
    ensures
        hash@ == hash_of(raw_token@),
{
    sha256_digest(raw_token.as_bytes())
}

/// There is only one first record with a given hash.
pub proof fn lemma_position(records: Seq<TokenView>, raw_token: Seq<char>, i: int)
    requires
        is_first(records, hash_of(raw_token), i),
    ensures
        position(records, raw_token) == Some(i),
{
    let found = position(records, raw_token)->0;
    assert(is_first(records, hash_of(raw_token), found));
    if found < i {
        assert(records[found].hash == hash_of(raw_token));
    } else if i < found {
        assert(records[i].hash == hash_of(raw_token));
    }
}

impl Default for TokenService {
    fn default() -> (service: TokenService)
        ensures
            service@ == Seq::<TokenView>::empty(),
    {
        let service = TokenService { records: Vec::new() };
        assert(service@ =~= Seq::<TokenView>::empty());
        service
    }
}

impl TokenService {
    /// Issues a token that authenticates one connection of `user_id` to the session.
    pub fn issue_auth_token(&mut self, session_id: Uuid, user_id: &str, ttl: Duration) -> (raw:
        String)
        ensures
            is_token_text(raw@),
            is_random_uuid(final(self)@.last().jti.value),
            issues(old(self)@, final(self)@, raw@, TokenType::Auth, session_id, user_id@, ttl),
    {
        self.issue_token(TokenType::Auth, session_id, user_id, ttl)
    }

    /// Issues a token with which `user_id` can resume the session until it is revoked.
    pub fn issue_resume_token(&mut self, session_id: Uuid, user_id: &str, ttl: Duration) -> (raw:
        String)
        ensures
            is_token_text(raw@),
            is_random_uuid(final(self)@.last().jti.value),
            issues(old(self)@, final(self)@, raw@, TokenType::Resume, session_id, user_id@, ttl),
    {
        self.issue_token(TokenType::Resume, session_id, user_id, ttl)
    }

    /// Issues a random token at the current time.
    fn issue_token(
        &mut self,
        token_type: TokenType,
        session_id: Uuid,
        user_id: &str,
        ttl: Duration,
    ) -> (raw: String)
        ensures
            is_token_text(raw@),
            is_random_uuid(final(self)@.last().jti.value),
            issues(old(self)@, final(self)@, raw@, token_type, session_id, user_id@, ttl),
    {
        let raw = random_token();
        let now = Timestamp::now();
        let jti = Uuid::new_v4();
        self.record_token(raw.as_str(), jti, now, token_type, session_id, user_id, ttl);
        raw
    }

    /// Keeps the record of a token that is issued at `now`.
    pub fn record_token(
        &mut self,
        raw_token: &str,
        jti: Uuid,
        now: Timestamp,
        token_type: TokenType,
        session_id: Uuid,
        user_id: &str,
        ttl: Duration,
    )
        requires
            now.nanos <= i128::MAX - MAX_DURATION_NANOS,
        ensures
            issues(old(self)@, final(self)@, raw_token@, token_type, session_id, user_id@, ttl),
            final(self)@.last().created_at == now,
            final(self)@.last().jti == jti,
    {
        let record = TokenRecord {
            token_hash: hash_token(raw_token),
            token_type,
            session_id,
            user_id: user_id.to_owned(),
            jti,
            expires_at: now.plus(ttl),
            consumed_at: None,
            revoked_at: None,
            created_at: now,
        };
        let ghost view = record@;
        self.records.push(record);
        assert(self@ =~= old(self)@.push(view));
        assert(self@.drop_last() =~= old(self)@);
    }

    /// The position of the first record of a token.
    fn find_record(&self, raw_token: &str) -> (at: Option<usize>)
        ensures
            match at {
                Some(i) => position(self@, raw_token@) == Some(i as int) && is_first(
                    self@,
                    hash_of(raw_token@),
                    i as int,
                ),
                None => position(self@, raw_token@) is None,
            },
    {
        let hash = hash_token(raw_token);
        let mut i: usize = 0;
        while i < self.records.len()
            invariant
                i <= self.records@.len(),
                hash@ == hash_of(raw_token@),
                forall|j: int| 0 <= j < i ==> (#[trigger] self@[j]).hash != hash@,
            decreases self.records@.len() - i,
        {
            assert(self@[i as int] == self.records@[i as int]@);
            if bytes_ct_eq(self.records[i].token_hash.as_slice(), hash.as_slice()) {
                assert(is_first(self@, hash_of(raw_token@), i as int));
                proof {
                    lemma_position(self@, raw_token@, i as int);
                }
                return Some(i);
            }
            i += 1;
        }
        assert(forall|k: int| !is_first(self@, hash_of(raw_token@), k));
        None
    }

    /// Why the record at `i` is refused, apart from having been used before.
    fn check_record(
        &self,
        i: usize,
        token_type: TokenType,
        session_id: Uuid,
        user_id: &str,
        now: Timestamp,
    ) -> (refused: Option<TokenError>)
        requires
            i < self@.len(),
        ensures
            refused == refusal(self@[i as int], token_type, session_id, user_id@, now),
    {
        let record = &self.records[i];
        assert(self@[i as int] == record@);
        if record.token_type != token_type {
            return Some(TokenError::TypeMismatch);
        }
        if record.session_id != session_id || !str_eq(record.user_id.as_str(), user_id) {
            return Some(TokenError::BindingMismatch);
        }
        if record.expires_at.nanos <= now.nanos {
            return Some(TokenError::Expired);
        }
        if record.revoked_at.is_some() {
            return Some(TokenError::Revoked);
        }
        None
    }

    /// Accepts a token for one authentication, and never again.
    pub fn validate_and_consume_auth(
        &mut self,
        raw_token: &str,
        session_id: Uuid,
        user_id: &str,
        now: Timestamp,
    ) -> (outcome: Result<(), TokenError>)
        ensures
            outcome == auth_outcome(old(self)@, raw_token@, session_id, user_id@, now),
            final(self)@ == after_auth(old(self)@, raw_token@, session_id, user_id@, now),
    {
        let i = match self.find_record(raw_token) {
            Some(i) => i,
            None => {
                return Err(TokenError::NotFound);
            },
        };
        if let Some(e) = self.check_record(i, TokenType::Auth, session_id, user_id, now) {
            return Err(e);
        }
        assert(self@[i as int] == self.records@[i as int]@);
        if self.records[i].consumed_at.is_some() {
            return Err(TokenError::Consumed);
        }
        self.records[i].consumed_at = Some(now);
        assert(self@ =~= after_auth(old(self)@, raw_token@, session_id, user_id@, now));
        Ok(())
    }

    /// Accepts a token for resuming a session, any number of times until it expires or is revoked.
    pub fn validate_resume(
        &mut self,
        raw_token: &str,
        session_id: Uuid,
        user_id: &str,
        now: Timestamp,
    ) -> (outcome: Result<(), TokenError>)
        ensures
            outcome == resume_outcome(old(self)@, raw_token@, session_id, user_id@, now),
            final(self)@ == old(self)@,
    {
        match self.find_record(raw_token) {
            Some(i) => match self.check_record(i, TokenType::Resume, session_id, user_id, now) {
                Some(e) => Err(e),
                None => Ok(()),
            },
            None => Err(TokenError::NotFound),
        }
    }

    /// Revokes a token, whatever its type.
    pub fn revoke_token(&mut self, raw_token: &str, now: Timestamp) -> (outcome: Result<
        (),
        TokenError,
    >)
        ensures
            outcome == if position(old(self)@, raw_token@) is Some {
                Ok::<(), TokenError>(())
            } else {
                Err::<(), TokenError>(TokenError::NotFound)
            },
            final(self)@ == after_revoke(old(self)@, raw_token@, now),
    {
        match self.find_record(raw_token) {
            Some(i) => {
                assert(self@[i as int] == self.records@[i as int]@);
                self.records[i].revoked_at = Some(now);
                assert(self@ =~= after_revoke(old(self)@, raw_token@, now));
                Ok(())
            },
            None => Err(TokenError::NotFound),
        }
    }

    /// Drops the records of expired tokens, except those that were revoked or spent at most
    /// `retention` ago.
    pub fn cleanup_expired(&mut self, now: Timestamp, retention: Duration)
        ensures
            final(self)@ == after_cleanup(old(self)@, now, retention),
    {
        let ghost before = self@;
        let ghost pred = |r: TokenView| kept(r, now, retention);
        let mut all: Vec<TokenRecord> = Vec::new();
        std::mem::swap(&mut all, &mut self.records);
        let mut left: Vec<TokenRecord> = Vec::new();
        let ghost source = all@;
        assert(before == source.map_values(|r: TokenRecord| r@));
        assert(before.take(0) =~= Seq::<TokenView>::empty());
        assert(left@.map_values(|r: TokenRecord| r@) =~= Seq::<TokenView>::empty());
        reveal(Seq::filter);
        for record in it: all
            invariant
                it.seq() == source,
                before == source.map_values(|r: TokenRecord| r@),
                pred == (|r: TokenView| kept(r, now, retention)),
                left@.map_values(|r: TokenRecord| r@) == before.take(it.index() as int).filter(pred),
        {
            let ghost i = it.index() as int;
            let ghost was = left@;
            assert(before[i] == record@);
            assert(before.take(i + 1).drop_last() =~= before.take(i));
            let keep = record.expires_at.nanos > now.nanos || is_recent(
                record.revoked_at,
                now,
                retention,
            ) || is_recent(record.consumed_at, now, retention);
            assert(keep == pred(before[i]));
            reveal(Seq::filter);
            if keep {
                left.push(record);
                assert(left@.map_values(|r: TokenRecord| r@) =~= was.map_values(
                    |r: TokenRecord| r@,
                ).push(before[i]));
            }
        }
        assert(before.take(before.len() as int) =~= before);
        self.records = left;
    }
}

/// Whether something happened at most `retention` before `now`, and not after it.
fn is_recent(at: Option<Timestamp>, now: Timestamp, retention: Duration) -> (yes: bool)
    ensures
        yes == recent(at, now, retention),
{
    match at {
        Some(t) => now.within(t, retention),
        None => false,
    }
}

/// Each error says what is wrong with the token.
pub proof fn law_errors_say_what_happened()
    ensures
        TokenError::NotFound.text() == "token not found"@,
        TokenError::Expired.text() == "token expired"@,
        TokenError::Revoked.text() == "token revoked"@,
        TokenError::Consumed.text() == "token consumed"@,
        TokenError::BindingMismatch.text() == "token/session/user mismatch"@,
        TokenError::TypeMismatch.text() == "token type mismatch"@,
{
}

} // verus!
