//! When the client tries again, and what it checks before it does.

use crate::client::bootstrap::BootstrapPayload;
use crate::client::cache::SessionCacheEntry;
#[allow(unused_imports)]
use crate::client::cache::EntryView;
use crate::client::error::CliError;
use crate::ids::Uuid;
use crate::text::str_eq;
#[allow(unused_imports)]
use crate::time::NANOS_PER_MILLI;
use crate::time::Duration;
use vstd::prelude::*;

verus! {

/// What to do after an attempt.
#[derive(Debug, Clone, Copy, PartialEq, Eq, Structural)]
pub enum Next {
    /// The session is over.
    Finish,
    /// Try again after this long.
    Retry { delay: Duration },
    /// Resume this session.
    Resume { session_id: Uuid },
    /// Fail as the attempt did.
    Fail,
}

/// How many attempts were made, and how long to wait before the next one.
#[derive(Debug)]
pub struct RetryPlan {
    attempt: u32,
    backoff: Duration,
}

/// How long to wait after `n` waits: a tenth of a second, and twice as long each time.
pub open spec fn delay_nanos(n: nat) -> nat
    decreases n,
{
    if n == 0 {
        100 * NANOS_PER_MILLI as nat
    } else {
        2 * delay_nanos((n - 1) as nat)
    }
}

impl RetryPlan {
    /// How many attempts were made before the current one.
    pub closed spec fn attempts(&self) -> nat {
        self.attempt as nat
    }

    /// How long to wait before the next attempt.
    pub closed spec fn wait(&self) -> Duration {
        self.backoff
    }

    /// Every wait is as long as it should be, and there are two at most.
    #[verifier::type_invariant]
    closed spec fn inv(&self) -> bool {
        self.attempt <= 2 && self.backoff.nanos() == delay_nanos(self.attempt as nat)
    }

    /// A plan with nothing tried yet.
    pub fn new() -> (plan: RetryPlan)
        ensures
            plan.attempts() == 0,
            plan.wait().nanos() == delay_nanos(0),
    {
        RetryPlan { attempt: 0, backoff: Duration::from_millis(100) }
    }

    /// Counts one more attempt, and tells how long to wait before it.
    fn wait_longer(&mut self) -> (delay: Duration)
        requires
            old(self).attempts() < 2,
        ensures
            delay.nanos() == delay_nanos(old(self).attempts()),
            final(self).attempts() == old(self).attempts() + 1,
            final(self).wait().nanos() == delay_nanos(final(self).attempts()),
    {
        proof {
            use_type_invariant(&*self);
            reveal_with_fuel(delay_nanos, 4);
        }
        let delay = self.backoff;
        *self = RetryPlan { attempt: self.attempt + 1, backoff: delay.saturating_double() };
        delay
    }

    /// What to do after an attempt to connect: a refused token is worth one more bootstrap, and a
    /// session that was lost is resumed, if there is a terminal to resume it on.
    pub fn after_connect(&mut self, outcome: &Result<(), CliError>, interactive: bool) -> (next: Next)
        ensures
            connect_decided(old(self).attempts(), *outcome, interactive, next),
            final(self).attempts() == old(self).attempts() + if next is Retry {
                1int
            } else {
                0int
            },
    {
        match outcome {
            Ok(()) => Next::Finish,
            Err(CliError::Closed) => Next::Finish,
            Err(CliError::AuthFailed) => if self.attempt == 0 {
                Next::Retry { delay: self.wait_longer() }
            } else {
                Next::Fail
            },
            Err(CliError::Disconnected(session_id)) => if interactive {
                Next::Resume { session_id: *session_id }
            } else {
                Next::Fail
            },
            Err(_) => Next::Fail,
        }
    }

    /// What to do after an attempt to resume: a refused token and a lost connection are worth two
    /// more attempts, the latter only if there is a terminal.
    pub fn after_resume(&mut self, outcome: &Result<(), CliError>, interactive: bool) -> (next: Next)
        ensures
            resume_decided(old(self).attempts(), *outcome, interactive, next),
            final(self).attempts() == old(self).attempts() + if next is Retry {
                1int
            } else {
                0int
            },
    {
        match outcome {
            Ok(()) => Next::Finish,
            Err(CliError::Closed) => Next::Finish,
            Err(CliError::AuthFailed) => if self.attempt < 2 {
                Next::Retry { delay: self.wait_longer() }
            } else {
                Next::Fail
            },
            Err(CliError::Disconnected(_)) => if interactive && self.attempt < 2 {
                Next::Retry { delay: self.wait_longer() }
            } else {
                Next::Fail
            },
            Err(_) => Next::Fail,
        }
    }
}

/// Whether `next` tries again after the wait that is due.
pub open spec fn retries(attempts: nat, next: Next) -> bool {
    next matches Next::Retry { delay } && delay.nanos() == delay_nanos(attempts)
}

/// Whether this is what to do after an attempt to connect.
pub open spec fn connect_decided(
    attempts: nat,
    outcome: Result<(), CliError>,
    interactive: bool,
    next: Next,
) -> bool {
    match outcome {
        Ok(()) => next is Finish,
        Err(CliError::Closed) => next is Finish,
        Err(CliError::AuthFailed) => if attempts == 0 {
            retries(attempts, next)
        } else {
            next is Fail
        },
        Err(CliError::Disconnected(session_id)) => if interactive {
            next == (Next::Resume { session_id })
        } else {
            next is Fail
        },
        Err(_) => next is Fail,
    }
}

/// Whether this is what to do after an attempt to resume.
pub open spec fn resume_decided(
    attempts: nat,
    outcome: Result<(), CliError>,
    interactive: bool,
    next: Next,
) -> bool {
    match outcome {
        Ok(()) => next is Finish,
        Err(CliError::Closed) => next is Finish,
        Err(CliError::AuthFailed) => if attempts < 2 {
            retries(attempts, next)
        } else {
            next is Fail
        },
        Err(CliError::Disconnected(_)) => if interactive && attempts < 2 {
            retries(attempts, next)
        } else {
            next is Fail
        },
        Err(_) => next is Fail,
    }
}

/// Retries are bounded: a client connects twice at most, and resumes three times at most.
pub proof fn law_retries_are_bounded(
    attempts: nat,
    outcome: Result<(), CliError>,
    interactive: bool,
    next: Next,
)
    ensures
        connect_decided(attempts, outcome, interactive, next) && next is Retry ==> attempts < 1,
        resume_decided(attempts, outcome, interactive, next) && next is Retry ==> attempts < 2,
{
}

/// Whether the command that bootstraps a session has failed before.
#[derive(Debug)]
pub struct BootstrapTries {
    failed: bool,
}

impl BootstrapTries {
    /// Whether the command has failed before.
    pub closed spec fn failed(&self) -> bool {
        self.failed
    }

    /// No failure yet.
    pub fn new() -> (tries: BootstrapTries)
        ensures
            !tries.failed(),
    {
        BootstrapTries { failed: false }
    }

    /// Decides on a failure: the first one is not final, and every later one is.
    pub fn on_failure(&mut self, why: String) -> (given_up: Option<CliError>)
        ensures
            final(self).failed(),
            if old(self).failed() {
                given_up matches Some(CliError::Bootstrap(m)) && m@ == why@
            } else {
                given_up is None
            },
    {
        if self.failed {
            Some(CliError::Bootstrap(why))
        } else {
            self.failed = true;
            None
        }
    }
}

/// Whether the token with which a session could be resumed has expired.
pub fn resume_entry_expired(entry: &SessionCacheEntry, now: u64) -> (yes: bool)
    ensures
        yes == (entry@.resume_token_expires_at <= now),
{
    entry.resume_token_expires_at <= now
}

/// Refuses to resume a session whose token has expired. Such a session is to be forgotten.
pub fn check_entry(entry: &SessionCacheEntry, now: u64) -> (outcome: Result<(), CliError>)
    ensures
        if entry@.resume_token_expires_at <= now {
            outcome matches Err(CliError::Cache(m)) && m@
                == "resume token expired; start a new connect"@
        } else {
            outcome is Ok
        },
{
    if resume_entry_expired(entry, now) {
        Err(CliError::Cache("resume token expired; start a new connect".to_owned()))
    } else {
        Ok(())
    }
}

/// The host to resume a session on: the one that is given, or the one that is remembered.
pub fn resume_target(given: Option<String>, entry: &SessionCacheEntry) -> (target: Result<
    String,
    CliError,
>)
    ensures
        ({
            let chosen = match given {
                Some(t) => t@,
                None => entry@.ssh_target,
            };
            if chosen.len() == 0 {
                target matches Err(CliError::Cache(m)) && m@
                    == "missing ssh_target in cache; pass --target explicitly"@
            } else {
                target matches Ok(t) && t@ == chosen
            }
        }),
{
    let target = match given {
        Some(t) => t,
        None => entry.ssh_target.clone(),
    };
    if target.as_str().is_empty() {
        return Err(
            CliError::Cache("missing ssh_target in cache; pass --target explicitly".to_owned()),
        );
    }
    Ok(target)
}

/// Refuses a renewed token that is for another session.
pub fn validate_renew_payload(expected_session_id: Uuid, payload: &BootstrapPayload) -> (outcome:
    Result<(), CliError>)
    ensures
        if payload@.session_id == expected_session_id {
            outcome is Ok
        } else {
            outcome matches Err(e) && e.is_protocol("renew-auth returned mismatched session_id"@)
        },
{
    if payload.session_id != expected_session_id {
        return Err(CliError::Protocol("renew-auth returned mismatched session_id".to_owned()));
    }
    Ok(())
}

/// Checks a renewed token against what is remembered of the session: the server must show the same
/// certificate, while a new address is remembered in place of the old one.
pub fn check_renewal(
    session_id: Uuid,
    payload: &BootstrapPayload,
    entry: &SessionCacheEntry,
    now: u64,
) -> (outcome: Result<Option<SessionCacheEntry>, CliError>)
    ensures
        if payload@.session_id != session_id {
            outcome matches Err(e) && e.is_protocol("renew-auth returned mismatched session_id"@)
        } else if payload@.cert_fingerprint != entry@.cert_fingerprint {
            outcome matches Err(e) && e.is_protocol(
                "cert_fingerprint changed for existing session_id"@,
            )
        } else if payload@.quic_addr != entry@.quic_addr {
            outcome matches Ok(Some(updated)) && updated@ == (EntryView {
                quic_addr: payload@.quic_addr,
                updated_at: now,
                ..entry@
            })
        } else {
            outcome matches Ok(None)
        },
{
    if let Err(e) = validate_renew_payload(session_id, payload) {
        return Err(e);
    }
    if !str_eq(payload.cert_fingerprint.as_str(), entry.cert_fingerprint.as_str()) {
        return Err(
            CliError::Protocol("cert_fingerprint changed for existing session_id".to_owned()),
        );
    }
    if str_eq(payload.quic_addr.as_str(), entry.quic_addr.as_str()) {
        return Ok(None);
    }
    let updated = SessionCacheEntry {
        session_id: entry.session_id,
        ssh_target: entry.ssh_target.clone(),
        resume_token: entry.resume_token.clone(),
        resume_token_expires_at: entry.resume_token_expires_at,
        quic_addr: payload.quic_addr.clone(),
        cert_fingerprint: entry.cert_fingerprint.clone(),
        updated_at: now,
    };
    assert(updated@ == (EntryView {
        quic_addr: payload@.quic_addr,
        updated_at: now,
        ..entry@
    }));
    Ok(Some(updated))
}

/// The first wait is a tenth of a second, and every wait is twice as long as the one before.
pub proof fn law_waits_double(n: nat)
    ensures
        delay_nanos(0) == 100_000_000,
        delay_nanos(1) == 200_000_000,
        delay_nanos(n + 1) == 2 * delay_nanos(n),
{
    reveal_with_fuel(delay_nanos, 3);
}

/// What a client does after an attempt to connect: it is done if the session ended, it tries once
/// more after a tenth of a second if it was not let in, and it resumes a session that it lost while
/// somebody sat before it. In every other case it gives up.
pub proof fn law_after_connecting(
    attempts: nat,
    outcome: Result<(), CliError>,
    interactive: bool,
    next: Next,
)
    requires
        connect_decided(attempts, outcome, interactive, next),
    ensures
        next is Finish <==> outcome is Ok || outcome == Err::<(), CliError>(CliError::Closed),
        next is Retry <==> outcome == Err::<(), CliError>(CliError::AuthFailed) && attempts == 0,
        next matches Next::Retry { delay } ==> delay.nanos() == 100_000_000,
        next is Resume <==> interactive && outcome is Err && outcome->Err_0 is Disconnected,
        next matches Next::Resume { session_id } ==> outcome == Err::<(), CliError>(
            CliError::Disconnected(session_id),
        ),
{
    law_waits_double(0);
}

/// What a client does after an attempt to resume: it is done if the session ended, and it tries
/// again if it was not let in, or lost the session while somebody sat before it; twice at most,
/// after a tenth of a second and after two tenths. In every other case it gives up.
pub proof fn law_after_resuming(
    attempts: nat,
    outcome: Result<(), CliError>,
    interactive: bool,
    next: Next,
)
    requires
        resume_decided(attempts, outcome, interactive, next),
    ensures
        next is Finish <==> outcome is Ok || outcome == Err::<(), CliError>(CliError::Closed),
        next is Retry <==> attempts < 2 && outcome is Err && (outcome->Err_0 is AuthFailed || (
        interactive && outcome->Err_0 is Disconnected)),
        next matches Next::Retry { delay } ==> delay.nanos() == if attempts == 0 {
            100_000_000nat
        } else {
            200_000_000nat
        },
        next !is Resume,
{
    law_waits_double(0);
}

} // verus!
