use vstd::prelude::*;
use crate::error::{Error, non_fatal};
use crate::ids::{Address, H256, SessionKey};

verus! {

/// Follow-up work bound to a key-version negotiation.
#[derive(Clone, Copy, Debug)]
pub enum ContinueAction {
    Decrypt { session: SessionKey, origin: Option<Address>, is_shadow_decryption: bool, is_broadcast_decryption: bool },
    SchnorrSign { session: SessionKey, message_hash: H256 },
    EcdsaSign { session: SessionKey, message_hash: H256 },
}

/// Caller context to report where the negotiation itself fails.
#[derive(Clone, Copy, Debug)]
pub enum FailedContinueAction {
    Decrypt { origin: Option<Address>, requester: Address },
}

/// Initialization of the follow-up session with the negotiated version.
#[derive(Clone, Copy, Debug)]
pub enum FollowUp {
    Decrypt { session: SessionKey, origin: Option<Address>, version: H256, is_shadow_decryption: bool, is_broadcast_decryption: bool },
    SchnorrSign { session: SessionKey, version: H256, message_hash: H256 },
    EcdsaSign { session: SessionKey, version: H256, message_hash: H256 },
}

/// The follow-up that `action` becomes once `version` is chosen.
pub open spec fn follow_up_of(action: ContinueAction, version: H256) -> FollowUp {
    match action {
        ContinueAction::Decrypt { session, origin, is_shadow_decryption, is_broadcast_decryption } =>
            FollowUp::Decrypt { session, origin, version, is_shadow_decryption, is_broadcast_decryption },
        ContinueAction::SchnorrSign { session, message_hash } =>
            FollowUp::SchnorrSign { session, version, message_hash },
        ContinueAction::EcdsaSign { session, message_hash } =>
            FollowUp::EcdsaSign { session, version, message_hash },
    }
}

/// One step of the continuation hook on a slot that holds `action` and whose
/// negotiation has ended with `outcome` (if at all): the action left in the
/// slot, and the follow-up started by this step.
pub open spec fn continue_step(action: Option<ContinueAction>, outcome: Option<Result<H256, Error>>)
    -> (Option<ContinueAction>, Option<FollowUp>) {
    match (action, outcome) {
        (Some(a), Some(Ok(v))) => (None, Some(follow_up_of(a, v))),
        (Some(a), Some(Err(e))) => if non_fatal(e) { (action, None) } else { (None, None) },
        _ => (action, None),
    }
}

/// The continuation state of one negotiation session: the follow-up it
/// unblocks, the context to report on failure, and how it ended.
pub struct NegotiationSlot {
    continue_action: Option<ContinueAction>,
    failed_continue_action: Option<FailedContinueAction>,
    outcome: Option<Result<H256, Error>>,
}

impl NegotiationSlot {
    pub closed spec fn action(&self) -> Option<ContinueAction> {
        self.continue_action
    }

    pub closed spec fn failed_action(&self) -> Option<FailedContinueAction> {
        self.failed_continue_action
    }

    pub closed spec fn result(&self) -> Option<Result<H256, Error>> {
        self.outcome
    }

    pub fn new() -> (r: NegotiationSlot)
        ensures
            r.action() is None,
            r.failed_action() is None,
            r.result() is None,
    {
        NegotiationSlot { continue_action: None, failed_continue_action: None, outcome: None }
    }

    /// Binds the follow-up work.
    pub fn set_continue_action(&mut self, action: ContinueAction)
        ensures
            final(self).action() == Some(action),
            final(self).failed_action() == old(self).failed_action(),
            final(self).result() == old(self).result(),
    {
        self.continue_action = Some(action);
    }

    /// Binds the context to report on failure.
    pub fn set_failed_continue_action(&mut self, action: FailedContinueAction)
        ensures
            final(self).failed_action() == Some(action),
            final(self).action() == old(self).action(),
            final(self).result() == old(self).result(),
    {
        self.failed_continue_action = Some(action);
    }

    /// Takes the failure context out, at most once.
    pub fn take_failed_continue_action(&mut self) -> (r: Option<FailedContinueAction>)
        ensures
            r == old(self).failed_action(),
            final(self).failed_action() is None,
            final(self).action() == old(self).action(),
            final(self).result() == old(self).result(),
    {
        self.failed_continue_action.take()
    }

    /// Records how the negotiation ended: the chosen version, or an error.
    pub fn complete(&mut self, outcome: Result<H256, Error>)
        ensures
            final(self).result() == Some(outcome),
            final(self).action() == old(self).action(),
            final(self).failed_action() == old(self).failed_action(),
    {
        self.outcome = Some(outcome);
    }

    /// The continuation hook, safe to call from any path any number of
    /// times: once the negotiation has chosen a version, the first call takes
    /// the bound action and returns the follow-up to start; a fatal failure
    /// drops the action; otherwise nothing happens.
    pub fn try_continue(&mut self) -> (r: Option<FollowUp>)
        ensures
            (final(self).action(), r) == continue_step(old(self).action(), old(self).result()),
            final(self).failed_action() == old(self).failed_action(),
            final(self).result() == old(self).result(),
    {
        match (self.continue_action, self.outcome) {
            (Some(a), Some(Ok(version))) => {
                self.continue_action = None;
                let f = match a {
                    ContinueAction::Decrypt { session, origin, is_shadow_decryption, is_broadcast_decryption } =>
                        FollowUp::Decrypt { session, origin, version, is_shadow_decryption, is_broadcast_decryption },
                    ContinueAction::SchnorrSign { session, message_hash } =>
                        FollowUp::SchnorrSign { session, version, message_hash },
                    ContinueAction::EcdsaSign { session, message_hash } =>
                        FollowUp::EcdsaSign { session, version, message_hash },
                };
                Some(f)
            },
            (Some(_), Some(Err(e))) => {
                if !e.is_non_fatal() {
                    self.continue_action = None;
                }
                None
            },
            _ => None,
        }
    }
}

/// The follow-up of a negotiation is started exactly once when the version
/// is chosen, and never otherwise, whichever comes first of the client's hook
/// call (made right after binding the action) and the negotiation's end
/// (followed by the router's hook call).
pub proof fn follow_up_started_once(action: ContinueAction, outcome: Result<H256, Error>, client_first: bool)
    ensures
        ({
            let (a1, f1, a2, f2) = if client_first {
                let (a1, f1) = continue_step(Some(action), None);
                let (a2, f2) = continue_step(a1, Some(outcome));
                (a1, f1, a2, f2)
            } else {
                let (a1, f1) = continue_step(Some(action), Some(outcome));
                let (a2, f2) = continue_step(a1, Some(outcome));
                (a1, f1, a2, f2)
            };
            &&& !(f1 is Some && f2 is Some)
            &&& (outcome matches Ok(v) ==> (f1 == Some(follow_up_of(action, v)) || f2 == Some(follow_up_of(action, v))))
            &&& (outcome is Err ==> f1 is None && f2 is None)
            &&& (outcome is Ok ==> a2 is None)
        }),
{
}

} // verus!
