//! What holds of sessions over several operations.

#[allow(unused_imports)]
use crate::ids::Uuid;
#[allow(unused_imports)]
use crate::session::manager::{
    after_attach, after_detach, after_end, after_return, after_stale_cleanup, attach_outcome,
    created, detach_outcome, end_outcome, is_final, is_owner, next_epoch, return_outcome,
    Attachment, SessionError, SessionState, SessionView,
};
use vstd::prelude::*;

verus! {

/// An operation on a session.
pub enum SessionOp {
    Attach { conn_id: Uuid, client_id: Option<Uuid> },
    Return { conn_id: Uuid, client_id: Option<Uuid> },
    Detach { conn_id: Uuid },
    StaleCleanup { conn_id: Uuid, epoch: u64 },
    Terminate,
    Expire,
}

/// The sessions after an operation on one of them.
pub open spec fn apply(
    sessions: Map<Uuid, SessionView>,
    session_id: Uuid,
    op: SessionOp,
) -> Map<Uuid, SessionView> {
    match op {
        SessionOp::Attach { conn_id, client_id } => after_attach(
            sessions,
            session_id,
            conn_id,
            client_id,
        ),
        SessionOp::Return { conn_id, client_id } => after_return(
            sessions,
            session_id,
            conn_id,
            client_id,
        ),
        SessionOp::Detach { conn_id } => after_detach(sessions, session_id, conn_id),
        SessionOp::StaleCleanup { conn_id, epoch } => after_stale_cleanup(
            sessions,
            session_id,
            conn_id,
            epoch,
        ),
        SessionOp::Terminate => after_end(sessions, session_id, SessionState::Terminated),
        SessionOp::Expire => after_end(sessions, session_id, SessionState::Expired),
    }
}

/// The sessions after operations on one of them, one after the other.
pub open spec fn apply_all(
    sessions: Map<Uuid, SessionView>,
    session_id: Uuid,
    ops: Seq<SessionOp>,
) -> Map<Uuid, SessionView>
    decreases ops.len(),
{
    if ops.len() == 0 {
        sessions
    } else {
        apply(apply_all(sessions, session_id, ops.drop_last()), session_id, ops.last())
    }
}

/// Whether a session is attached exactly if a connection is attached to it, and knows a client
/// only while it is.
pub open spec fn is_consistent(session: SessionView) -> bool {
    &&& session.state == SessionState::Attached <==> session.attached_conn_id is Some
    &&& session.active_client_id is Some ==> session.state == SessionState::Attached
}

/// Whether every session is consistent.
pub open spec fn all_consistent(sessions: Map<Uuid, SessionView>) -> bool {
    forall|id: Uuid| #[trigger] sessions.contains_key(id) ==> is_consistent(sessions[id])
}

/// A new session is consistent, and every operation leaves consistent sessions consistent: a
/// session is attached to one connection at most, and to one exactly while it is attached.
pub proof fn law_sessions_stay_consistent(
    sessions: Map<Uuid, SessionView>,
    session_id: Uuid,
    ops: Seq<SessionOp>,
    owner: Seq<char>,
    quic_addr: Seq<char>,
    cert_fingerprint: Seq<char>,
)
    requires
        all_consistent(sessions),
    ensures
        all_consistent(
            sessions.insert(session_id, created(session_id, owner, quic_addr, cert_fingerprint)),
        ),
        all_consistent(apply_all(sessions, session_id, ops)),
    decreases ops.len(),
{
    if ops.len() > 0 {
        law_sessions_stay_consistent(
            sessions,
            session_id,
            ops.drop_last(),
            owner,
            quic_addr,
            cert_fingerprint,
        );
        let before = apply_all(sessions, session_id, ops.drop_last());
        let after = apply_all(sessions, session_id, ops);
        assert forall|id: Uuid| #[trigger] after.contains_key(id) implies is_consistent(after[id]) by {
            assert(before.contains_key(id));
            assert(is_consistent(before[id]));
        }
    }
}

/// An operation on one session changes no other, and neither creates nor drops a session.
pub proof fn law_other_sessions_untouched(
    sessions: Map<Uuid, SessionView>,
    session_id: Uuid,
    ops: Seq<SessionOp>,
    other: Uuid,
)
    requires
        other != session_id,
    ensures
        apply_all(sessions, session_id, ops).dom() == sessions.dom(),
        sessions.contains_key(other) ==> apply_all(sessions, session_id, ops)[other]
            == sessions[other],
    decreases ops.len(),
{
    if ops.len() > 0 {
        law_other_sessions_untouched(sessions, session_id, ops.drop_last(), other);
        assert(apply_all(sessions, session_id, ops).dom() =~= sessions.dom());
    }
}

/// The owner, the address and the certificate fingerprint of a session never change, and its epoch
/// never goes back.
pub proof fn law_identity_is_stable(
    sessions: Map<Uuid, SessionView>,
    session_id: Uuid,
    ops: Seq<SessionOp>,
)
    requires
        sessions.contains_key(session_id),
    ensures
        ({
            let after = apply_all(sessions, session_id, ops);
            &&& after.contains_key(session_id)
            &&& after[session_id].session_id == sessions[session_id].session_id
            &&& after[session_id].owner == sessions[session_id].owner
            &&& after[session_id].quic_addr == sessions[session_id].quic_addr
            &&& after[session_id].cert_fingerprint == sessions[session_id].cert_fingerprint
            &&& after[session_id].attach_epoch >= sessions[session_id].attach_epoch
        }),
    decreases ops.len(),
{
    if ops.len() > 0 {
        law_identity_is_stable(sessions, session_id, ops.drop_last());
    }
}

/// A session whose life is over stays over, whatever is done to it, and cannot be attached to or
/// resumed again.
pub proof fn law_final_sessions_stay_final(
    sessions: Map<Uuid, SessionView>,
    session_id: Uuid,
    ops: Seq<SessionOp>,
    client_id: Option<Uuid>,
)
    requires
        all_consistent(sessions),
        sessions.contains_key(session_id),
        is_final(sessions[session_id].state),
    ensures
        ({
            let after = apply_all(sessions, session_id, ops);
            &&& after.contains_key(session_id)
            &&& is_final(after[session_id].state)
            &&& attach_outcome(after, session_id) == Err::<u64, SessionError>(
                SessionError::InvalidState,
            )
            &&& return_outcome(after, session_id, client_id) == Err::<Attachment, SessionError>(
                SessionError::InvalidState,
            )
        }),
    decreases ops.len(),
{
    law_sessions_stay_consistent(
        sessions,
        session_id,
        ops,
        Seq::empty(),
        Seq::empty(),
        Seq::empty(),
    );
    if ops.len() > 0 {
        law_final_sessions_stay_final(sessions, session_id, ops.drop_last(), client_id);
        law_sessions_stay_consistent(
            sessions,
            session_id,
            ops.drop_last(),
            Seq::empty(),
            Seq::empty(),
            Seq::empty(),
        );
        let before = apply_all(sessions, session_id, ops.drop_last());
        assert(is_consistent(before[session_id]));
    }
    let after = apply_all(sessions, session_id, ops);
    assert(after.contains_key(session_id));
    assert(is_consistent(after[session_id]));
}

/// Of several connections that attach to a session, the first one gets it, and the others are
/// denied and change nothing.
pub proof fn law_attach_is_exclusive(
    sessions: Map<Uuid, SessionView>,
    session_id: Uuid,
    first: Uuid,
    first_client: Option<Uuid>,
    second: Uuid,
    second_client: Option<Uuid>,
)
    requires
        attach_outcome(sessions, session_id) is Ok,
    ensures
        ({
            let after = after_attach(sessions, session_id, first, first_client);
            &&& after[session_id].attached_conn_id == Some(first)
            &&& attach_outcome(after, session_id) == Err::<u64, SessionError>(
                SessionError::AttachDenied,
            )
            &&& after_attach(after, session_id, second, second_client) == after
        }),
{
}

/// A connection that has ended takes the session from nobody who was attached after it, not even
/// from a later attachment under its own identifier: its epoch has passed.
pub proof fn law_stale_cleanup_spares_new_owner(
    sessions: Map<Uuid, SessionView>,
    session_id: Uuid,
    stale_conn: Uuid,
    stale_epoch: u64,
    conn_id: Uuid,
    client_id: Option<Uuid>,
)
    requires
        sessions.contains_key(session_id),
        stale_epoch <= sessions[session_id].attach_epoch < u64::MAX,
    ensures
        attach_outcome(sessions, session_id) is Ok ==> {
            let after = after_attach(sessions, session_id, conn_id, client_id);
            &&& !is_owner(after, session_id, stale_conn, stale_epoch)
            &&& after_stale_cleanup(after, session_id, stale_conn, stale_epoch) == after
        },
        return_outcome(sessions, session_id, client_id) is Ok ==> {
            let after = after_return(sessions, session_id, conn_id, client_id);
            &&& !is_owner(after, session_id, stale_conn, stale_epoch)
            &&& after_stale_cleanup(after, session_id, stale_conn, stale_epoch) == after
        },
{
}

/// A connection that has ended releases the session if it still was the owner: the session can be
/// attached to again, under the next epoch.
pub proof fn law_stale_cleanup_releases_owner(
    sessions: Map<Uuid, SessionView>,
    session_id: Uuid,
    conn_id: Uuid,
    epoch: u64,
)
    requires
        all_consistent(sessions),
        is_owner(sessions, session_id, conn_id, epoch),
    ensures
        ({
            let after = after_stale_cleanup(sessions, session_id, conn_id, epoch);
            &&& after[session_id].state == SessionState::Detached
            &&& after[session_id].attached_conn_id is None
            &&& attach_outcome(after, session_id) == Ok::<u64, SessionError>(next_epoch(epoch))
            &&& after_stale_cleanup(after, session_id, conn_id, epoch) == after
        }),
{
    assert(is_consistent(sessions[session_id]));
}

/// Cleaning up after a connection that has detached already changes nothing.
pub proof fn law_cleanup_after_detach_is_idle(
    sessions: Map<Uuid, SessionView>,
    session_id: Uuid,
    conn_id: Uuid,
    epoch: u64,
)
    requires
        detach_outcome(sessions, session_id, conn_id) is Ok,
    ensures
        ({
            let after = after_detach(sessions, session_id, conn_id);
            &&& after_stale_cleanup(after, session_id, conn_id, epoch) == after
            &&& detach_outcome(after, session_id, conn_id) == Err::<(), SessionError>(
                SessionError::AttachDenied,
            )
        }),
{
}

/// A client that returns while it is still attached takes its own place: the session passes to the
/// new connection without being detached in between, and the old one has no say any more.
pub proof fn law_same_client_takes_over(
    sessions: Map<Uuid, SessionView>,
    session_id: Uuid,
    client: Uuid,
    conn_id: Uuid,
    old_conn: Uuid,
    old_epoch: u64,
)
    requires
        all_consistent(sessions),
        is_owner(sessions, session_id, old_conn, old_epoch),
        sessions[session_id].active_client_id == Some(client),
        conn_id != old_conn,
    ensures
        ({
            let after = after_return(sessions, session_id, conn_id, Some(client));
            &&& return_outcome(sessions, session_id, Some(client)) == Ok::<
                Attachment,
                SessionError,
            >(Attachment { epoch: next_epoch(old_epoch), replaced: Some(old_conn) })
            &&& after[session_id].state == SessionState::Attached
            &&& is_owner(after, session_id, conn_id, next_epoch(old_epoch))
            &&& after[session_id].active_client_id == Some(client)
            &&& after_stale_cleanup(after, session_id, old_conn, old_epoch) == after
            &&& detach_outcome(after, session_id, old_conn) == Err::<(), SessionError>(
                SessionError::AttachDenied,
            )
        }),
{
    assert(is_consistent(sessions[session_id]));
}

/// A client cannot take a session from another one.
pub proof fn law_other_client_is_denied(
    sessions: Map<Uuid, SessionView>,
    session_id: Uuid,
    client_id: Option<Uuid>,
    conn_id: Uuid,
)
    requires
        all_consistent(sessions),
        sessions.contains_key(session_id),
        sessions[session_id].state == SessionState::Attached,
        client_id is None || sessions[session_id].active_client_id != client_id,
    ensures
        return_outcome(sessions, session_id, client_id) == Err::<Attachment, SessionError>(
            SessionError::AttachDenied,
        ),
        after_return(sessions, session_id, conn_id, client_id) == sessions,
{
    assert(is_consistent(sessions[session_id]));
}

/// Without a client identifier, returning is attaching: nothing is ever replaced.
pub proof fn law_anonymous_return_is_attach(
    sessions: Map<Uuid, SessionView>,
    session_id: Uuid,
    conn_id: Uuid,
)
    ensures
        after_return(sessions, session_id, conn_id, None) == after_attach(
            sessions,
            session_id,
            conn_id,
            None,
        ),
        match return_outcome(sessions, session_id, None) {
            Ok(a) => a.replaced is None && attach_outcome(sessions, session_id) == Ok::<
                u64,
                SessionError,
            >(a.epoch),
            Err(e) => attach_outcome(sessions, session_id) == Err::<u64, SessionError>(e),
        },
{
}

/// A client that is let in on its return is known from then on: the session belongs to its new
/// connection and to no other, whether it was attached before or not, and whether it gave an
/// identifier or not.
pub proof fn law_return_is_remembered(
    sessions: Map<Uuid, SessionView>,
    session_id: Uuid,
    conn_id: Uuid,
    client_id: Option<Uuid>,
)
    requires
        return_outcome(sessions, session_id, client_id) is Ok,
    ensures
        ({
            let before = sessions[session_id];
            let after = after_return(sessions, session_id, conn_id, client_id)[session_id];
            &&& after.state == SessionState::Attached
            &&& after.attached_conn_id == Some(conn_id)
            &&& after.active_client_id == client_id
            &&& after.attach_epoch == return_outcome(sessions, session_id, client_id)->Ok_0.epoch
            &&& before.attach_epoch < u64::MAX ==> after.attach_epoch == before.attach_epoch + 1
            &&& after.owner == before.owner
            &&& after.session_id == before.session_id
        }),
{
}

/// A client that returned once can return again at any time, on any other connection: it takes the
/// place of the connection on which it returned before, and it can go on doing so.
pub proof fn law_client_returns_again(
    sessions: Map<Uuid, SessionView>,
    session_id: Uuid,
    client: Uuid,
    first: Uuid,
    second: Uuid,
    third: Uuid,
)
    requires
        return_outcome(sessions, session_id, Some(client)) is Ok,
        sessions[session_id].attach_epoch < u64::MAX - 2,
    ensures
        ({
            let epoch = sessions[session_id].attach_epoch;
            let once = after_return(sessions, session_id, first, Some(client));
            let twice = after_return(once, session_id, second, Some(client));
            let again = return_outcome(once, session_id, Some(client));
            let once_more = return_outcome(twice, session_id, Some(client));
            &&& again matches Ok(a) && a.replaced == Some(first) && a.epoch == epoch + 2
            &&& twice[session_id].attached_conn_id == Some(second)
            &&& twice[session_id].active_client_id == Some(client)
            &&& once_more matches Ok(a) && a.replaced == Some(second) && a.epoch == epoch + 3
            &&& after_return(twice, session_id, third, Some(client))[session_id].attached_conn_id
                == Some(third)
        }),
{
}

/// A client that attached under its identifier can return on another connection while it is still
/// attached, and after it was detached or lost its connection.
pub proof fn law_attached_client_returns(
    sessions: Map<Uuid, SessionView>,
    session_id: Uuid,
    client: Uuid,
    first: Uuid,
    second: Uuid,
)
    requires
        attach_outcome(sessions, session_id) is Ok,
        sessions[session_id].attach_epoch < u64::MAX - 1,
    ensures
        ({
            let epoch = sessions[session_id].attach_epoch;
            let once = after_attach(sessions, session_id, first, Some(client));
            let detached = after_detach(once, session_id, first);
            let lost = after_stale_cleanup(once, session_id, first, (epoch + 1) as u64);
            &&& attach_outcome(sessions, session_id) == Ok::<u64, SessionError>((epoch + 1) as u64)
            &&& once[session_id].active_client_id == Some(client)
            &&& once[session_id].attached_conn_id == Some(first)
            &&& once[session_id].state == SessionState::Attached
            &&& return_outcome(once, session_id, Some(client)) matches Ok(a) && a.replaced == Some(
                first,
            ) && a.epoch == epoch + 2
            &&& return_outcome(detached, session_id, Some(client)) matches Ok(a)
                && a.replaced is None && a.epoch == epoch + 2
            &&& return_outcome(lost, session_id, Some(client)) matches Ok(a) && a.replaced is None
                && a.epoch == epoch + 2
            &&& return_outcome(detached, session_id, None) matches Ok(a) && a.replaced is None
            &&& detached == lost
        }),
{
    let epoch = sessions[session_id].attach_epoch;
    let once = after_attach(sessions, session_id, first, Some(client));
    assert(after_detach(once, session_id, first) =~= after_stale_cleanup(
        once,
        session_id,
        first,
        (epoch + 1) as u64,
    ));
}

/// Who gets a session: whoever comes first to one that nobody is attached to and that is not over.
/// Everybody else learns whether it is unknown, over or taken.
pub proof fn law_who_may_attach(sessions: Map<Uuid, SessionView>, session_id: Uuid)
    ensures
        ({
            let known = sessions.contains_key(session_id);
            let over = sessions[session_id].state == SessionState::Expired
                || sessions[session_id].state == SessionState::Terminated;
            let taken = sessions[session_id].attached_conn_id is Some;
            let outcome = attach_outcome(sessions, session_id);
            &&& outcome is Ok <==> known && !over && !taken
            &&& outcome == Err::<u64, SessionError>(SessionError::NotFound) <==> !known
            &&& outcome == Err::<u64, SessionError>(SessionError::InvalidState) <==> known && over
            &&& outcome == Err::<u64, SessionError>(SessionError::AttachDenied) <==> known && !over
                && taken
        }),
{
}

/// Who gets a session on a return: whoever comes to one that is not over, if nobody is attached to
/// it or the very client that is attached to it returns. Everybody else learns why not.
pub proof fn law_who_may_return(
    sessions: Map<Uuid, SessionView>,
    session_id: Uuid,
    client_id: Option<Uuid>,
)
    requires
        all_consistent(sessions),
    ensures
        ({
            let session = sessions[session_id];
            let known = sessions.contains_key(session_id);
            let over = session.state == SessionState::Expired || session.state
                == SessionState::Terminated;
            let taken = session.attached_conn_id is Some;
            let same = client_id is Some && session.active_client_id == client_id;
            let outcome = return_outcome(sessions, session_id, client_id);
            &&& outcome is Ok <==> known && !over && (!taken || same)
            &&& outcome matches Ok(a) ==> a.replaced == session.attached_conn_id
            &&& outcome == Err::<Attachment, SessionError>(SessionError::NotFound) <==> !known
            &&& outcome == Err::<Attachment, SessionError>(SessionError::InvalidState) <==> known
                && over
            &&& outcome == Err::<Attachment, SessionError>(SessionError::AttachDenied) <==> known
                && !over && taken && !same
        }),
{
    if sessions.contains_key(session_id) {
        assert(is_consistent(sessions[session_id]));
    }
}

/// What lets go of a session: the connection that is attached to it, and no other. Nobody is
/// attached to it and no client is known of it afterwards, and everything else stays.
pub proof fn law_who_may_detach(
    sessions: Map<Uuid, SessionView>,
    session_id: Uuid,
    conn_id: Uuid,
    epoch: u64,
)
    requires
        all_consistent(sessions),
    ensures
        ({
            let before = sessions[session_id];
            let known = sessions.contains_key(session_id);
            let mine = before.attached_conn_id == Some(conn_id);
            let detached = after_detach(sessions, session_id, conn_id);
            let cleaned = after_stale_cleanup(sessions, session_id, conn_id, epoch);
            let free = SessionView {
                state: SessionState::Detached,
                attached_conn_id: None,
                active_client_id: None,
                ..before
            };
            &&& detach_outcome(sessions, session_id, conn_id) is Ok <==> known && mine
            &&& detach_outcome(sessions, session_id, conn_id) == Err::<(), SessionError>(
                SessionError::NotFound,
            ) <==> !known
            &&& known && mine ==> detached[session_id] == free
            &&& !(known && mine) ==> detached == sessions
            &&& is_owner(sessions, session_id, conn_id, epoch) <==> known && mine
                && before.attach_epoch == epoch
            &&& known && mine && before.attach_epoch == epoch ==> cleaned[session_id] == free
            &&& !(known && mine && before.attach_epoch == epoch) ==> cleaned == sessions
        }),
{
    if sessions.contains_key(session_id) {
        assert(is_consistent(sessions[session_id]));
    }
}

/// A session that is ended is over in the state that is asked for, and nobody is attached to it:
/// nobody can attach to it, return to it or detach from it any more.
pub proof fn law_ending_is_final(
    sessions: Map<Uuid, SessionView>,
    session_id: Uuid,
    state: SessionState,
    client_id: Option<Uuid>,
    conn_id: Uuid,
)
    requires
        state == SessionState::Expired || state == SessionState::Terminated,
    ensures
        ({
            let after = after_end(sessions, session_id, state);
            &&& end_outcome(sessions, session_id) is Ok <==> sessions.contains_key(session_id)
            &&& end_outcome(sessions, session_id) is Err ==> end_outcome(sessions, session_id)
                == Err::<(), SessionError>(SessionError::NotFound) && after == sessions
            &&& sessions.contains_key(session_id) ==> {
                &&& after[session_id].state == state
                &&& after[session_id].attached_conn_id is None
                &&& after[session_id].active_client_id is None
                &&& after[session_id].owner == sessions[session_id].owner
                &&& after[session_id].attach_epoch == sessions[session_id].attach_epoch
                &&& attach_outcome(after, session_id) is Err
                &&& return_outcome(after, session_id, client_id) is Err
                &&& detach_outcome(after, session_id, conn_id) is Err
            }
        }),
{
}

/// A new session can be attached to, by anyone and under any identifier, and nothing is known of
/// a client before that.
pub proof fn law_new_session_is_free(
    sessions: Map<Uuid, SessionView>,
    session_id: Uuid,
    owner: Seq<char>,
    quic_addr: Seq<char>,
    cert_fingerprint: Seq<char>,
    client_id: Option<Uuid>,
)
    ensures
        ({
            let session = created(session_id, owner, quic_addr, cert_fingerprint);
            let after = sessions.insert(session_id, session);
            &&& session.session_id == session_id
            &&& session.owner == owner
            &&& session.quic_addr == quic_addr
            &&& session.cert_fingerprint == cert_fingerprint
            &&& session.state == SessionState::Created
            &&& session.attached_conn_id is None
            &&& session.active_client_id is None
            &&& attach_outcome(after, session_id) == Ok::<u64, SessionError>(1)
            &&& return_outcome(after, session_id, client_id) matches Ok(a) && a.epoch == 1
                && a.replaced is None
        }),
{
}

} // verus!
