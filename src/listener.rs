use vstd::prelude::*;
use crate::continuation::{FailedContinueAction, NegotiationSlot};
use crate::error::{Error, non_fatal};
use crate::ids::{Address, H256, NodeId, Public, SessionId};

verus! {

/// A server key was generated, or its generation failed.
#[derive(Clone, Copy, Debug)]
pub struct ServerKeyGenerated {
    pub origin: Option<Address>,
    pub key_id: SessionId,
    pub result: Result<Public, Error>,
}

/// What a shadow decryption hands its requester.
pub struct ShadowArtifacts {
    pub common_point: Public,
    pub threshold: usize,
    pub encrypted_document_key: Public,
    pub participants_coefficients: Vec<(NodeId, Vec<u8>)>,
}

/// A document key shadow was retrieved, or its retrieval failed.
pub struct DocumentKeyShadowRetrieved {
    pub origin: Option<Address>,
    pub key_id: SessionId,
    pub requester: Address,
    pub result: Result<ShadowArtifacts, Error>,
}

/// What a finished decryption session computed.
#[derive(Clone, Copy, Debug)]
pub struct DecryptionResult {
    pub common_point: Option<Public>,
    pub decrypted_secret: Public,
}

/// What the listener learns from a finished generation session: its result
/// where it has one.
pub fn generation_notification(
    is_finished: bool,
    key_id: SessionId,
    origin: Option<Address>,
    result: Option<Result<Public, Error>>,
) -> (r: Option<ServerKeyGenerated>)
    requires
        is_finished,
    ensures
        r == match result {
            Some(res) => Some(ServerKeyGenerated { origin, key_id, result: res }),
            None => None::<ServerKeyGenerated>,
        },
{
    match result {
        Some(res) => Some(ServerKeyGenerated { origin, key_id, result: res }),
        None => None,
    }
}

/// Whether a finished decryption session is reported to the listener: only
/// a shadow decryption with a known requester and broadcast shadows.
pub open spec fn shadow_reported(
    result: Option<Result<DecryptionResult, Error>>,
    is_shadow_decryption: Option<bool>,
    requester: Option<Address>,
    has_shadows: bool,
) -> bool {
    result is Some && is_shadow_decryption == Some(true) && requester is Some && has_shadows
}

/// What the listener learns from a finished decryption session.
pub fn decryption_notification(
    is_finished: bool,
    key_id: SessionId,
    origin: Option<Address>,
    threshold: usize,
    result: Option<Result<DecryptionResult, Error>>,
    is_shadow_decryption: Option<bool>,
    requester: Option<Address>,
    broadcast_shadows: Option<Vec<(NodeId, Vec<u8>)>>,
) -> (r: Option<DocumentKeyShadowRetrieved>)
    requires
        is_finished,
        shadow_reported(result, is_shadow_decryption, requester, broadcast_shadows is Some)
            ==> (result matches Some(Ok(d)) ==> d.common_point is Some),
    ensures
        r is Some <==> shadow_reported(result, is_shadow_decryption, requester, broadcast_shadows is Some),
        r matches Some(n) ==> n.origin == origin && n.key_id == key_id && Some(n.requester) == requester
            && match (n.result, result) {
                (Ok(a), Some(Ok(d))) => Some(a.common_point) == d.common_point && a.threshold == threshold
                    && a.encrypted_document_key == d.decrypted_secret
                    && Some(a.participants_coefficients) == broadcast_shadows,
                (Err(e), Some(Err(f))) => e == f,
                _ => false,
            },
{
    let res = match result {
        Some(res) => res,
        None => return None,
    };
    match (is_shadow_decryption, requester, broadcast_shadows) {
        (Some(true), Some(requester), Some(participants_coefficients)) => {
            let result = match res {
                Ok(d) => {
                    let common_point = match d.common_point {
                        Some(p) => p,
                        None => return None,
                    };
                    Ok(ShadowArtifacts {
                        common_point,
                        threshold,
                        encrypted_document_key: d.decrypted_secret,
                        participants_coefficients,
                    })
                },
                Err(e) => Err(e),
            };
            Some(DocumentKeyShadowRetrieved { origin, key_id, requester, result })
        },
        _ => None,
    }
}

/// What the listener learns from a finished key-version negotiation: only a
/// fatal failure of a negotiation that a decryption waited on is reported,
/// as a failed shadow retrieval. The failure context is taken out of the
/// slot in that case.
pub fn negotiation_notification(
    is_finished: bool,
    key_id: SessionId,
    result: Option<Result<H256, Error>>,
    slot: &mut NegotiationSlot,
) -> (r: Option<DocumentKeyShadowRetrieved>)
    requires
        is_finished,
    ensures
        final(slot).action() == old(slot).action(),
        final(slot).result() == old(slot).result(),
        match result {
            Some(Err(e)) => !non_fatal(e) ==> final(slot).failed_action() is None && match old(slot).failed_action() {
                Some(FailedContinueAction::Decrypt { origin, requester }) => r is Some && r->Some_0.origin == origin
                    && r->Some_0.key_id == key_id && r->Some_0.requester == requester
                    && r->Some_0.result is Err && r->Some_0.result->Err_0 == e,
                None => r is None,
            },
            _ => r is None && final(slot).failed_action() == old(slot).failed_action(),
        },
        (result matches Some(Err(e)) && non_fatal(e)) ==> r is None && final(slot).failed_action()
            == old(slot).failed_action(),
{
    let error = match result {
        Some(Err(e)) => {
            if e.is_non_fatal() {
                return None;
            }
            e
        },
        _ => return None,
    };
    match slot.take_failed_continue_action() {
        Some(FailedContinueAction::Decrypt { origin, requester }) => Some(
            DocumentKeyShadowRetrieved { origin, key_id, requester, result: Err(error) },
        ),
        None => None,
    }
}

} // verus!
