use vstd::prelude::*;
use crate::container::{SessionContainer, SessionEntry};
use crate::continuation::{continue_step, FollowUp, NegotiationSlot};
use crate::error::Error;
use crate::ids::{H256, SessionKey};

verus! {

/// Where an inbound message for the session under `key` goes: `Ok(false)`
/// to the live session, `Ok(true)` to a session created for it now (only an
/// initiation message may create one), or nowhere (`UnknownSession`).
pub fn route_message(sessions: &mut SessionContainer, key: &SessionKey, creates_session: bool) -> (r: Result<
    bool,
    Error,
>)
    requires
        old(sessions).wf(),
    ensures
        final(sessions).wf(),
        old(sessions).keys().contains(key@) ==> r == Ok::<bool, Error>(false) && final(sessions).keys()
            == old(sessions).keys(),
        !old(sessions).keys().contains(key@) && creates_session ==> r == Ok::<bool, Error>(true)
            && final(sessions).keys() == old(sessions).keys().insert(key@),
        !old(sessions).keys().contains(key@) && !creates_session ==> r == Err::<bool, Error>(
            Error::UnknownSession,
        ) && final(sessions).keys() == old(sessions).keys(),
        final(sessions).finished_keys() == old(sessions).finished_keys(),
        final(sessions).preserving() == old(sessions).preserving(),
{
    if sessions.get(key, true).is_some() {
        return Ok(false);
    }
    if !creates_session {
        return Err(Error::UnknownSession);
    }
    match sessions.insert(*key, false) {
        Ok(()) => Ok(true),
        Err(e) => Err(e),
    }
}

/// After a message was applied: a session that reached its terminal state
/// leaves the registry (outside preserving mode) and is handed back for its
/// listeners.
pub fn after_message(sessions: &mut SessionContainer, key: &SessionKey, is_finished: bool) -> (r: Option<
    SessionEntry,
>)
    requires
        old(sessions).wf(),
    ensures
        final(sessions).wf(),
        !is_finished ==> r is None && final(sessions).keys() == old(sessions).keys(),
        is_finished && !old(sessions).preserving() ==> final(sessions).keys() == old(sessions).keys().remove(
            key@,
        ) && (r is Some <==> old(sessions).keys().contains(key@)),
        is_finished && old(sessions).preserving() ==> r is None && final(sessions).keys() == old(
            sessions,
        ).keys(),
        final(sessions).settings_kept(old(sessions)),
{
    if is_finished {
        sessions.on_session_finished(key)
    } else {
        None
    }
}

/// After a message was applied to a key-version negotiation that ended with
/// `outcome` (if it ended): the negotiation leaves the registry as any
/// session does, and the continuation hook runs.
pub fn after_negotiation_message(
    sessions: &mut SessionContainer,
    key: &SessionKey,
    slot: &mut NegotiationSlot,
    outcome: Option<Result<H256, Error>>,
) -> (r: (Option<SessionEntry>, Option<FollowUp>))
    requires
        old(sessions).wf(),
        old(slot).result() is None,
    ensures
        final(sessions).wf(),
        final(slot).result() == outcome,
        (final(slot).action(), r.1) == continue_step(old(slot).action(), outcome),
        outcome is None ==> r.0 is None && final(sessions).keys() == old(sessions).keys(),
        outcome is Some && !old(sessions).preserving() ==> final(sessions).keys() == old(
            sessions,
        ).keys().remove(key@) && (r.0 is Some <==> old(sessions).keys().contains(key@)),
        outcome is Some && old(sessions).preserving() ==> r.0 is None && final(sessions).keys() == old(
            sessions,
        ).keys() && final(sessions).finished_keys().contains(key@) == old(sessions).keys().contains(key@),
        final(sessions).settings_kept(old(sessions)),
{
    match outcome {
        Some(o) => {
            slot.complete(o);
            let removed = sessions.on_session_finished(key);
            let follow = slot.try_continue();
            (removed, follow)
        },
        None => {
            let follow = slot.try_continue();
            (None, follow)
        },
    }
}

} // verus!
