//! What holds of tokens over several operations.

#[allow(unused_imports)]
use crate::digest::sha256;
#[allow(unused_imports)]
use crate::ids::Uuid;
#[allow(unused_imports)]
use crate::time::{Duration, Timestamp};
#[allow(unused_imports)]
use crate::token::service::{
    after_auth, after_cleanup, after_revoke, auth_outcome, hash_of, is_first, issued, issues,
    kept, lemma_position, position, resume_outcome, TokenError, TokenType, TokenView,
};
use vstd::prelude::*;
#[allow(unused_imports)]
use vstd::utf8::encode_utf8;

verus! {

/// Whether no two records have the same hash.
pub open spec fn distinct(records: Seq<TokenView>) -> bool {
    forall|i: int, j: int|
        0 <= i < j < records.len() ==> (#[trigger] records[i]).hash != (#[trigger] records[j]).hash
}

/// What is found is the first record of the token.
pub proof fn lemma_found(records: Seq<TokenView>, raw_token: Seq<char>)
    ensures
        position(records, raw_token) matches Some(i) ==> is_first(records, hash_of(raw_token), i),
{
}

/// Changing fields other than the hash of one record moves no token.
pub proof fn lemma_update_keeps_position(
    records: Seq<TokenView>,
    at: int,
    record: TokenView,
    raw_token: Seq<char>,
)
    requires
        0 <= at < records.len(),
        record.hash == records[at].hash,
    ensures
        position(records.update(at, record), raw_token) == position(records, raw_token),
{
    let changed = records.update(at, record);
    let hash = hash_of(raw_token);
    assert forall|i: int| is_first(records, hash, i) implies is_first(changed, hash, i) by {
        assert forall|j: int| 0 <= j < i implies (#[trigger] changed[j]).hash != hash by {
            assert(records[j].hash != hash);
        }
    }
    assert forall|i: int| is_first(changed, hash, i) implies is_first(records, hash, i) by {
        assert forall|j: int| 0 <= j < i implies (#[trigger] records[j]).hash != hash by {
            assert(changed[j].hash != hash);
        }
    }
    if position(records, raw_token) is Some {
        let i = position(records, raw_token)->0;
        assert(is_first(records, hash, i));
        lemma_position(changed, raw_token, i);
    }
}

/// A token that authenticated a connection is never accepted again: not for the same user and
/// session, nor for others, at no time.
pub proof fn law_auth_token_single_use(
    records: Seq<TokenView>,
    raw_token: Seq<char>,
    session_id: Uuid,
    user_id: Seq<char>,
    now: Timestamp,
    other_session: Uuid,
    other_user: Seq<char>,
    later: Timestamp,
)
    requires
        auth_outcome(records, raw_token, session_id, user_id, now) is Ok,
    ensures
        ({
            let spent = after_auth(records, raw_token, session_id, user_id, now);
            &&& auth_outcome(spent, raw_token, other_session, other_user, later) is Err
            &&& resume_outcome(spent, raw_token, other_session, other_user, later) is Err
            &&& auth_outcome(spent, raw_token, session_id, user_id, now) == Err::<(), TokenError>(
                TokenError::Consumed,
            )
        }),
{
    let i = position(records, raw_token)->0;
    lemma_found(records, raw_token);
    lemma_update_keeps_position(
        records,
        i,
        TokenView { consumed_at: Some(now), ..records[i] },
        raw_token,
    );
}

/// Whether a token can no longer authenticate anyone.
pub open spec fn spent(records: Seq<TokenView>, raw_token: Seq<char>) -> bool {
    match position(records, raw_token) {
        Some(i) => records[i].consumed_at is Some || records[i].revoked_at is Some,
        None => false,
    }
}

/// A token that is spent is refused whoever presents it, and when.
pub proof fn law_spent_is_refused(
    records: Seq<TokenView>,
    raw_token: Seq<char>,
    session_id: Uuid,
    user_id: Seq<char>,
    now: Timestamp,
)
    requires
        spent(records, raw_token),
    ensures
        auth_outcome(records, raw_token, session_id, user_id, now) is Err,
{
}

/// A spent token stays spent, whatever other tokens are used, revoked or issued after it.
pub proof fn law_spent_stays_spent(
    records: Seq<TokenView>,
    raw_token: Seq<char>,
    other_token: Seq<char>,
    session_id: Uuid,
    user_id: Seq<char>,
    now: Timestamp,
    issued_after: TokenView,
)
    requires
        spent(records, raw_token),
    ensures
        spent(after_auth(records, other_token, session_id, user_id, now), raw_token),
        spent(after_revoke(records, other_token, now), raw_token),
        spent(records.push(issued_after), raw_token),
{
    let i = position(records, raw_token)->0;
    lemma_found(records, raw_token);
    lemma_found(records, other_token);
    if position(records, other_token) is Some {
        let k = position(records, other_token)->0;
        lemma_update_keeps_position(
            records,
            k,
            TokenView { consumed_at: Some(now), ..records[k] },
            raw_token,
        );
        lemma_update_keeps_position(
            records,
            k,
            TokenView { revoked_at: Some(now), ..records[k] },
            raw_token,
        );
    }
    let grown = records.push(issued_after);
    assert(is_first(grown, hash_of(raw_token), i)) by {
        assert forall|j: int| 0 <= j < i implies (#[trigger] grown[j]).hash != hash_of(raw_token) by {
            assert(records[j].hash != hash_of(raw_token));
        }
    }
    lemma_position(grown, raw_token, i);
}

/// Revoking a token ends it for good: it can neither resume nor authenticate. One that could have
/// resumed the session is answered with `Revoked`.
pub proof fn law_revoked_is_refused(
    records: Seq<TokenView>,
    raw_token: Seq<char>,
    at: Timestamp,
    session_id: Uuid,
    user_id: Seq<char>,
    now: Timestamp,
)
    ensures
        ({
            let after = after_revoke(records, raw_token, at);
            &&& resume_outcome(after, raw_token, session_id, user_id, now) is Err
            &&& auth_outcome(after, raw_token, session_id, user_id, now) is Err
            &&& resume_outcome(records, raw_token, session_id, user_id, now) is Ok
                ==> resume_outcome(after, raw_token, session_id, user_id, now) == Err::<
                (),
                TokenError,
            >(TokenError::Revoked)
        }),
{
    lemma_found(records, raw_token);
    if position(records, raw_token) is Some {
        let i = position(records, raw_token)->0;
        lemma_update_keeps_position(
            records,
            i,
            TokenView { revoked_at: Some(at), ..records[i] },
            raw_token,
        );
    }
}

/// Using one token changes the answer for no other token.
pub proof fn law_tokens_are_independent(
    records: Seq<TokenView>,
    used: Seq<char>,
    other: Seq<char>,
    session_id: Uuid,
    user_id: Seq<char>,
    now: Timestamp,
    other_session: Uuid,
    other_user: Seq<char>,
    later: Timestamp,
)
    requires
        hash_of(used) != hash_of(other),
    ensures
        ({
            let after = after_auth(records, used, session_id, user_id, now);
            &&& auth_outcome(after, other, other_session, other_user, later) == auth_outcome(
                records,
                other,
                other_session,
                other_user,
                later,
            )
            &&& resume_outcome(after, other, other_session, other_user, later) == resume_outcome(
                records,
                other,
                other_session,
                other_user,
                later,
            )
        }),
        ({
            let after = after_revoke(records, used, now);
            &&& auth_outcome(after, other, other_session, other_user, later) == auth_outcome(
                records,
                other,
                other_session,
                other_user,
                later,
            )
            &&& resume_outcome(after, other, other_session, other_user, later) == resume_outcome(
                records,
                other,
                other_session,
                other_user,
                later,
            )
        }),
{
    lemma_found(records, used);
    lemma_found(records, other);
    if position(records, used) is Some {
        let i = position(records, used)->0;
        lemma_update_keeps_position(
            records,
            i,
            TokenView { consumed_at: Some(now), ..records[i] },
            other,
        );
        lemma_update_keeps_position(
            records,
            i,
            TokenView { revoked_at: Some(now), ..records[i] },
            other,
        );
    }
}

/// A newly issued token is accepted from its user on its session until it expires, and only as
/// what it was issued for. The one exception is a token whose hash was in use already.
pub proof fn law_fresh_token_is_accepted(
    before: Seq<TokenView>,
    record: TokenView,
    raw_token: Seq<char>,
    token_type: TokenType,
    session_id: Uuid,
    user_id: Seq<char>,
    issued_at: Timestamp,
    ttl: Duration,
    now: Timestamp,
)
    requires
        issued(record, raw_token, token_type, session_id, user_id, issued_at, ttl),
        position(before, raw_token) is None,
        now.nanos < issued_at.nanos + ttl.nanos(),
    ensures
        token_type == TokenType::Auth ==> {
            &&& auth_outcome(before.push(record), raw_token, session_id, user_id, now) is Ok
            &&& resume_outcome(before.push(record), raw_token, session_id, user_id, now) == Err::<
                (),
                TokenError,
            >(TokenError::TypeMismatch)
        },
        token_type == TokenType::Resume ==> {
            &&& resume_outcome(before.push(record), raw_token, session_id, user_id, now) is Ok
            &&& auth_outcome(before.push(record), raw_token, session_id, user_id, now) == Err::<
                (),
                TokenError,
            >(TokenError::TypeMismatch)
        },
{
    let all = before.push(record);
    let hash = hash_of(raw_token);
    lemma_absent(before, raw_token);
    assert forall|j: int| 0 <= j < before.len() implies (#[trigger] all[j]).hash != hash by {
        assert(before[j].hash != hash);
    }
    assert(is_first(all, hash, before.len() as int));
    lemma_position(all, raw_token, before.len() as int);
}

/// Where a token has no position, no record has its hash.
proof fn lemma_absent(records: Seq<TokenView>, raw_token: Seq<char>)
    requires
        position(records, raw_token) is None,
    ensures
        forall|j: int| 0 <= j < records.len() ==> (#[trigger] records[j]).hash != hash_of(raw_token),
{
    assert forall|j: int| 0 <= j < records.len() implies (#[trigger] records[j]).hash != hash_of(
        raw_token,
    ) by {
        if records[j].hash == hash_of(raw_token) {
            lemma_first_exists(records, hash_of(raw_token), j);
        }
    }
}

/// Where some record has a hash, one of them is the first.
proof fn lemma_first_exists(records: Seq<TokenView>, hash: Seq<u8>, j: int)
    requires
        0 <= j < records.len(),
        records[j].hash == hash,
    ensures
        exists|i: int| is_first(records, hash, i),
    decreases j,
{
    if exists|k: int| 0 <= k < j && (#[trigger] records[k]).hash == hash {
        let k = choose|k: int| 0 <= k < j && (#[trigger] records[k]).hash == hash;
        lemma_first_exists(records, hash, k);
    } else {
        assert(is_first(records, hash, j));
    }
}

/// A token is accepted only from the user and on the session that it was issued for, before it
/// expires, and for its own purpose: no token does both.
pub proof fn law_acceptance_is_bound(
    records: Seq<TokenView>,
    raw_token: Seq<char>,
    session_id: Uuid,
    user_id: Seq<char>,
    now: Timestamp,
)
    ensures
        auth_outcome(records, raw_token, session_id, user_id, now) is Ok ==> exists|i: int|
            {
                &&& 0 <= i < records.len()
                &&& (#[trigger] records[i]).hash == hash_of(raw_token)
                &&& records[i].token_type == TokenType::Auth
                &&& records[i].session_id == session_id
                &&& records[i].user == user_id
                &&& now.nanos < records[i].expires_at.nanos
            },
        resume_outcome(records, raw_token, session_id, user_id, now) is Ok ==> exists|i: int|
            {
                &&& 0 <= i < records.len()
                &&& (#[trigger] records[i]).hash == hash_of(raw_token)
                &&& records[i].token_type == TokenType::Resume
                &&& records[i].session_id == session_id
                &&& records[i].user == user_id
                &&& now.nanos < records[i].expires_at.nanos
            },
        !(auth_outcome(records, raw_token, session_id, user_id, now) is Ok && resume_outcome(
            records,
            raw_token,
            session_id,
            user_id,
            now,
        ) is Ok),
{
    lemma_found(records, raw_token);
    if position(records, raw_token) is Some {
        let i = position(records, raw_token)->0;
        assert(records[i].hash == hash_of(raw_token));
    }
}

/// Every record that a clean-up leaves was there before and is one to keep, and every record to
/// keep is left.
pub proof fn law_cleanup_keeps_exactly(
    records: Seq<TokenView>,
    now: Timestamp,
    retention: Duration,
    record: TokenView,
)
    ensures
        after_cleanup(records, now, retention).contains(record) <==> records.contains(record)
            && kept(record, now, retention),
        after_cleanup(records, now, retention).len() <= records.len(),
{
    broadcast use vstd::seq_lib::group_filter_ensures;

    let pred = |r: TokenView| kept(r, now, retention);
    let left = after_cleanup(records, now, retention);
    if left.contains(record) {
        records.lemma_filter_contains_rev(pred, record);
        let i = choose|i: int| 0 <= i < left.len() && left[i] == record;
        assert(pred(left[i]));
    }
    if records.contains(record) && kept(record, now, retention) {
        let i = choose|i: int| 0 <= i < records.len() && records[i] == record;
        assert(pred(records[i]));
        assert(records.filter(pred).contains(records[i]));
    }
}

/// A clean-up at the same time with the same retention finds nothing more to drop.
pub proof fn law_cleanup_is_idempotent(
    records: Seq<TokenView>,
    now: Timestamp,
    retention: Duration,
)
    ensures
        after_cleanup(after_cleanup(records, now, retention), now, retention) == after_cleanup(
            records,
            now,
            retention,
        ),
{
    broadcast use vstd::seq_lib::group_filter_ensures;

    let pred = |r: TokenView| kept(r, now, retention);
    let left = records.filter(pred);
    assert forall|i: int| 0 <= i < left.len() implies pred(#[trigger] left[i]) by {}
    lemma_filter_all(left, pred);
}

/// A filter that every item passes changes nothing.
proof fn lemma_filter_all(s: Seq<TokenView>, pred: spec_fn(TokenView) -> bool)
    requires
        forall|i: int| 0 <= i < s.len() ==> pred(#[trigger] s[i]),
    ensures
        s.filter(pred) == s,
    decreases s.len(),
{
    reveal(Seq::filter);
    if s.len() > 0 {
        let shorter = s.drop_last();
        assert forall|i: int| 0 <= i < shorter.len() implies pred(#[trigger] shorter[i]) by {
            assert(shorter[i] == s[i]);
        }
        lemma_filter_all(shorter, pred);
        assert(pred(s[s.len() - 1]));
        assert(shorter.push(s.last()) =~= s);
    } else {
        assert(s.filter(pred) =~= s);
    }
}

/// A clean-up changes the answer for no token that it keeps, and a token that it drops is answered
/// with `NotFound`, as long as no two records share a hash.
pub proof fn law_cleanup_preserves_answers(
    records: Seq<TokenView>,
    now: Timestamp,
    retention: Duration,
    raw_token: Seq<char>,
    session_id: Uuid,
    user_id: Seq<char>,
    later: Timestamp,
)
    requires
        distinct(records),
        position(records, raw_token) is Some,
    ensures
        ({
            let left = after_cleanup(records, now, retention);
            let record = records[position(records, raw_token)->0];
            if kept(record, now, retention) {
                &&& auth_outcome(left, raw_token, session_id, user_id, later) == auth_outcome(
                    records,
                    raw_token,
                    session_id,
                    user_id,
                    later,
                )
                &&& resume_outcome(left, raw_token, session_id, user_id, later) == resume_outcome(
                    records,
                    raw_token,
                    session_id,
                    user_id,
                    later,
                )
            } else {
                &&& auth_outcome(left, raw_token, session_id, user_id, later) == Err::<
                    (),
                    TokenError,
                >(TokenError::NotFound)
                &&& resume_outcome(left, raw_token, session_id, user_id, later) == Err::<
                    (),
                    TokenError,
                >(TokenError::NotFound)
            }
        }),
{
    let left = after_cleanup(records, now, retention);
    let hash = hash_of(raw_token);
    let at = position(records, raw_token)->0;
    lemma_found(records, raw_token);
    let record = records[at];
    law_cleanup_keeps_exactly(records, now, retention, record);
    assert(records.contains(record));
    if position(left, raw_token) is Some {
        lemma_found(left, raw_token);
        let i = position(left, raw_token)->0;
        law_cleanup_keeps_exactly(records, now, retention, left[i]);
        assert(left.contains(left[i]));
        let j = choose|j: int| 0 <= j < records.len() && records[j] == left[i];
        assert(records[j].hash == records[at].hash);
        assert(j == at);
    } else {
        lemma_absent(left, raw_token);
        if kept(record, now, retention) {
            let k = choose|k: int| 0 <= k < left.len() && left[k] == record;
            assert(left[k].hash == hash);
        }
    }
}

/// A clean-up makes no token acceptable that was refused, as long as no two records share a hash.
pub proof fn law_cleanup_revives_nothing(
    records: Seq<TokenView>,
    now: Timestamp,
    retention: Duration,
    raw_token: Seq<char>,
    session_id: Uuid,
    user_id: Seq<char>,
    later: Timestamp,
)
    requires
        distinct(records),
        auth_outcome(records, raw_token, session_id, user_id, later) is Err,
    ensures
        auth_outcome(
            after_cleanup(records, now, retention),
            raw_token,
            session_id,
            user_id,
            later,
        ) is Err,
{
    let left = after_cleanup(records, now, retention);
    if position(records, raw_token) is Some {
        law_cleanup_preserves_answers(
            records,
            now,
            retention,
            raw_token,
            session_id,
            user_id,
            later,
        );
    } else if position(left, raw_token) is Some {
        lemma_found(left, raw_token);
        lemma_absent(records, raw_token);
        let i = position(left, raw_token)->0;
        law_cleanup_keeps_exactly(records, now, retention, left[i]);
        assert(left.contains(left[i]));
    }
}

/// A token is known by the SHA-256 digest of its text, and by nothing else: the first record with
/// that digest decides. It is good to authenticate with exactly if it was issued for that, to this
/// session and this user, has not expired, and was neither revoked nor used; and otherwise the
/// answer says which of these fails, in this order.
pub proof fn law_what_authenticates(
    records: Seq<TokenView>,
    raw_token: Seq<char>,
    session_id: Uuid,
    user_id: Seq<char>,
    now: Timestamp,
    i: int,
)
    requires
        0 <= i < records.len(),
        records[i].hash == sha256(encode_utf8(raw_token)),
        forall|j: int|
            0 <= j < i ==> (#[trigger] records[j]).hash != sha256(encode_utf8(raw_token)),
    ensures
        ({
            let r = records[i];
            let kind = r.token_type == TokenType::Auth;
            let bound = r.session_id == session_id && r.user == user_id;
            let live = now.nanos < r.expires_at.nanos;
            let outcome = auth_outcome(records, raw_token, session_id, user_id, now);
            &&& outcome is Ok <==> kind && bound && live && r.revoked_at is None && r.consumed_at
                is None
            &&& !kind ==> outcome == Err::<(), TokenError>(TokenError::TypeMismatch)
            &&& kind && !bound ==> outcome == Err::<(), TokenError>(TokenError::BindingMismatch)
            &&& kind && bound && !live ==> outcome == Err::<(), TokenError>(TokenError::Expired)
            &&& kind && bound && live && r.revoked_at is Some ==> outcome == Err::<(), TokenError>(
                TokenError::Revoked,
            )
            &&& kind && bound && live && r.revoked_at is None && r.consumed_at is Some ==> outcome
                == Err::<(), TokenError>(TokenError::Consumed)
        }),
        ({
            let after = after_auth(records, raw_token, session_id, user_id, now);
            let r = records[i];
            let a = after[i];
            &&& after.len() == records.len()
            &&& forall|j: int| 0 <= j < records.len() && j != i ==> after[j] == #[trigger] records[j]
            &&& auth_outcome(records, raw_token, session_id, user_id, now) is Ok ==> a.consumed_at
                == Some(now)
            &&& auth_outcome(records, raw_token, session_id, user_id, now) is Err ==> a == r
            &&& a.hash == r.hash && a.token_type == r.token_type && a.session_id == r.session_id
            &&& a.user == r.user && a.jti == r.jti && a.expires_at == r.expires_at
            &&& a.revoked_at == r.revoked_at && a.created_at == r.created_at
        }),
{
    assert(is_first(records, hash_of(raw_token), i));
    lemma_position(records, raw_token, i);
}

/// A token is good to resume with exactly if it was issued for that, to this session and this user,
/// has not expired and was not revoked, however often it was used; and otherwise the answer says
/// which of these fails, in this order. Revoking it marks that record and no other.
pub proof fn law_what_resumes(
    records: Seq<TokenView>,
    raw_token: Seq<char>,
    session_id: Uuid,
    user_id: Seq<char>,
    now: Timestamp,
    i: int,
)
    requires
        0 <= i < records.len(),
        records[i].hash == sha256(encode_utf8(raw_token)),
        forall|j: int|
            0 <= j < i ==> (#[trigger] records[j]).hash != sha256(encode_utf8(raw_token)),
    ensures
        ({
            let r = records[i];
            let kind = r.token_type == TokenType::Resume;
            let bound = r.session_id == session_id && r.user == user_id;
            let live = now.nanos < r.expires_at.nanos;
            let outcome = resume_outcome(records, raw_token, session_id, user_id, now);
            &&& outcome is Ok <==> kind && bound && live && r.revoked_at is None
            &&& !kind ==> outcome == Err::<(), TokenError>(TokenError::TypeMismatch)
            &&& kind && !bound ==> outcome == Err::<(), TokenError>(TokenError::BindingMismatch)
            &&& kind && bound && !live ==> outcome == Err::<(), TokenError>(TokenError::Expired)
            &&& kind && bound && live && r.revoked_at is Some ==> outcome == Err::<(), TokenError>(
                TokenError::Revoked,
            )
        }),
        ({
            let after = after_revoke(records, raw_token, now);
            let r = records[i];
            let a = after[i];
            &&& after.len() == records.len()
            &&& forall|j: int| 0 <= j < records.len() && j != i ==> after[j] == #[trigger] records[j]
            &&& a.revoked_at == Some(now)
            &&& a.hash == r.hash && a.token_type == r.token_type && a.session_id == r.session_id
            &&& a.user == r.user && a.jti == r.jti && a.expires_at == r.expires_at
            &&& a.consumed_at == r.consumed_at && a.created_at == r.created_at
        }),
{
    assert(is_first(records, hash_of(raw_token), i));
    lemma_position(records, raw_token, i);
}

/// A token whose digest no record has is unknown, whoever presents it and when, and presenting or
/// revoking it changes nothing.
pub proof fn law_unknown_tokens_are_refused(
    records: Seq<TokenView>,
    raw_token: Seq<char>,
    session_id: Uuid,
    user_id: Seq<char>,
    now: Timestamp,
)
    requires
        forall|j: int|
            0 <= j < records.len() ==> (#[trigger] records[j]).hash != sha256(
                encode_utf8(raw_token),
            ),
    ensures
        auth_outcome(records, raw_token, session_id, user_id, now) == Err::<(), TokenError>(
            TokenError::NotFound,
        ),
        resume_outcome(records, raw_token, session_id, user_id, now) == Err::<(), TokenError>(
            TokenError::NotFound,
        ),
        after_auth(records, raw_token, session_id, user_id, now) == records,
        after_revoke(records, raw_token, now) == records,
{
    if position(records, raw_token) is Some {
        lemma_found(records, raw_token);
        let i = position(records, raw_token)->0;
        assert(records[i].hash == sha256(encode_utf8(raw_token)));
    }
}

/// A token that is issued, and that no earlier record stands for, is good until its lifetime has
/// passed and not a moment longer, for its session, its user and its purpose only. The records that
/// were there stay as they were.
pub proof fn law_issued_token_lives(
    before: Seq<TokenView>,
    after: Seq<TokenView>,
    raw_token: Seq<char>,
    token_type: TokenType,
    session_id: Uuid,
    user_id: Seq<char>,
    ttl: Duration,
    other_session: Uuid,
    other_user: Seq<char>,
    now: Timestamp,
)
    requires
        issues(before, after, raw_token, token_type, session_id, user_id, ttl),
        forall|j: int|
            0 <= j < before.len() ==> (#[trigger] before[j]).hash != sha256(encode_utf8(raw_token)),
    ensures
        after.len() == before.len() + 1,
        forall|j: int| 0 <= j < before.len() ==> after[j] == #[trigger] before[j],
        ({
            let ends = after[before.len() as int].created_at.nanos + ttl.nanos();
            let mine = other_session == session_id && other_user == user_id;
            let auth = auth_outcome(after, raw_token, other_session, other_user, now);
            let resume = resume_outcome(after, raw_token, other_session, other_user, now);
            &&& after[before.len() as int].expires_at.nanos == ends
            &&& after[before.len() as int].token_type == token_type
            &&& token_type == TokenType::Auth ==> {
                &&& auth is Ok <==> mine && now.nanos < ends
                &&& mine && now.nanos >= ends ==> auth == Err::<(), TokenError>(TokenError::Expired)
                &&& !mine ==> auth == Err::<(), TokenError>(TokenError::BindingMismatch)
                &&& resume is Err
            }
            &&& token_type == TokenType::Resume ==> {
                &&& resume is Ok <==> mine && now.nanos < ends
                &&& mine && now.nanos >= ends ==> resume == Err::<(), TokenError>(
                    TokenError::Expired,
                )
                &&& !mine ==> resume == Err::<(), TokenError>(TokenError::BindingMismatch)
                &&& auth is Err
            }
        }),
{
    let i = before.len() as int;
    assert forall|j: int| 0 <= j < before.len() implies after[j] == #[trigger] before[j] by {
        assert(after.drop_last()[j] == after[j]);
    }
    assert forall|j: int| 0 <= j < i implies (#[trigger] after[j]).hash != sha256(
        encode_utf8(raw_token),
    ) by {
        assert(after[j] == before[j]);
    }
    assert(is_first(after, hash_of(raw_token), i));
    lemma_position(after, raw_token, i);
}

/// How long a record is remembered: until it expires, and after that for as long as the retention
/// says since the token was used or revoked. What is left keeps its order.
pub proof fn law_how_long_records_are_kept(
    records: Seq<TokenView>,
    record: TokenView,
    now: Timestamp,
    retention: Duration,
)
    requires
        records.contains(record),
    ensures
        after_cleanup(records, now, retention).contains(record) <==> {
            ||| now.nanos < record.expires_at.nanos
            ||| record.revoked_at matches Some(t) && t.nanos <= now.nanos <= t.nanos
                + retention.nanos()
            ||| record.consumed_at matches Some(t) && t.nanos <= now.nanos <= t.nanos
                + retention.nanos()
        },
{
    law_cleanup_keeps_exactly(records, now, retention, record);
}

/// A token whose digest some record has is found.
pub proof fn lemma_present(records: Seq<TokenView>, raw_token: Seq<char>, i: int)
    requires
        0 <= i < records.len(),
        records[i].hash == sha256(encode_utf8(raw_token)),
    ensures
        position(records, raw_token) is Some,
    decreases i,
{
    if exists|j: int| 0 <= j < i && (#[trigger] records[j]).hash == records[i].hash {
        let j = choose|j: int| 0 <= j < i && (#[trigger] records[j]).hash == records[i].hash;
        lemma_present(records, raw_token, j);
    } else {
        assert(is_first(records, hash_of(raw_token), i));
    }
}

} // verus!
