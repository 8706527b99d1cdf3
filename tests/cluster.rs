use key_server_cluster::client::{
    process_initialization_result, servers_set_change_session_id, ClusterSessions, Connectivity,
};
use key_server_cluster::container::SessionContainer;
use key_server_cluster::continuation::{ContinueAction, FollowUp, NegotiationSlot};
use key_server_cluster::error::Error;
use key_server_cluster::ids::{Address, NodeId, Public, SessionId, SessionKey, SubSessionKey, H256};
use key_server_cluster::listener::{
    decryption_notification, generation_notification, negotiation_notification, DecryptionResult,
};
use key_server_cluster::continuation::FailedContinueAction;
use key_server_cluster::view::{create_cluster_view, Cluster, ClusterView};
use key_server_cluster::router::{after_message, after_negotiation_message, route_message};

fn node(i: u8) -> NodeId {
    NodeId::from_bytes([i; 64])
}

fn cluster_of_three() -> Connectivity {
    Connectivity { connected: Ok(vec![node(1), node(2)]), disconnected_count: 0 }
}

fn sid() -> SessionId {
    SessionId::from_bytes([1u8; 32])
}

#[test]
fn cluster_wont_start_generation_session_if_not_fully_connected() {
    let mut sessions = ClusterSessions::new(node(0));
    let net = Connectivity { connected: Err(Error::NodeDisconnected), disconnected_count: 0 };
    match sessions.new_generation_session(sid(), 1, &net) {
        Err(Error::NodeDisconnected) => (),
        Err(e) => panic!("unexpected error {:?}", e),
        _ => panic!("unexpected success"),
    }
    assert!(sessions.generation_sessions.is_empty());
}

#[test]
fn generation_refused_when_a_configured_node_is_disconnected() {
    let mut sessions = ClusterSessions::new(node(0));
    let net = Connectivity { connected: Ok(vec![node(1)]), disconnected_count: 1 };
    assert!(matches!(sessions.new_generation_session(sid(), 1, &net), Err(Error::NodeDisconnected)));
    assert!(sessions.generation_sessions.is_empty());
}

#[test]
fn finished_generation_session_leaves_and_reports_its_error() {
    let mut sessions = ClusterSessions::new(node(0));
    let view = sessions.new_generation_session(sid(), 1, &cluster_of_three()).unwrap();
    assert_eq!(view.connected_nodes_count(), 3);
    let key = SessionKey::plain(sid());
    assert!(sessions.generation_sessions.get(&key, false).is_some());
    let removed = sessions.generation_sessions.on_session_finished(&key);
    assert!(removed.is_some());
    assert!(removed.unwrap().finished);
    assert!(sessions.generation_sessions.get(&key, true).is_none());
    let n = generation_notification(true, sid(), None, Some(Err(Error::Internal))).unwrap();
    assert!(matches!(n.result, Err(Error::Internal)));
}

#[test]
fn failed_initialization_removes_a_finished_session() {
    let mut sessions = ClusterSessions::new(node(0));
    let key = SessionKey::plain(sid());
    sessions.new_generation_session(sid(), 1, &cluster_of_three()).unwrap();
    let (r, removed) = process_initialization_result(Err(Error::Internal), &key, true, &mut sessions.generation_sessions);
    assert_eq!(r, Err(Error::Internal));
    assert!(removed.unwrap().key.same(&key));
    assert!(sessions.generation_sessions.is_empty());
}

#[test]
fn finished_session_is_removed_and_reported_once() {
    let mut sessions = ClusterSessions::new(node(0));
    let key = SessionKey::plain(sid());
    sessions.new_generation_session(sid(), 1, &cluster_of_three()).unwrap();
    let (r, removed) = process_initialization_result(Ok(()), &key, false, &mut sessions.generation_sessions);
    assert_eq!(r, Ok(()));
    assert!(removed.is_none());
    assert!(!sessions.generation_sessions.is_empty());
    assert!(sessions.generation_sessions.on_session_finished(&key).is_some());
    assert!(sessions.generation_sessions.is_empty());
    // a second terminal signal notifies nobody
    assert!(sessions.generation_sessions.on_session_finished(&key).is_none());
}

#[test]
fn sessions_are_removed_when_initialization_fails() {
    let mut sessions = ClusterSessions::new(node(0));
    let net = cluster_of_three();
    assert!(matches!(
        sessions.new_generation_session(sid(), 100, &net),
        Err(Error::NotEnoughNodesForThreshold)
    ));
    assert!(matches!(
        sessions.new_generation_session(sid(), 100, &net),
        Err(Error::NotEnoughNodesForThreshold)
    ));
    assert!(sessions.generation_sessions.is_empty());

    let zero = SessionId::from_bytes([0u8; 32]);
    for _ in 0..2 {
        let st = sessions
            .new_decryption_session(
                zero,
                SubSessionKey::from_bytes([7u8; 32]),
                SubSessionKey::from_bytes([8u8; 32]),
                None,
                false,
                false,
                Some(H256 { bytes: [0u8; 32] }),
                &net,
            )
            .unwrap();
        assert!(st.negotiation.is_none());
        // the session refuses an empty requester signature when it initializes
        let (r, removed) = process_initialization_result(
            Err(Error::InvalidMessage),
            &st.key,
            false,
            &mut sessions.decryption_sessions,
        );
        assert_eq!(r, Err(Error::InvalidMessage));
        assert!(removed.is_some());
    }
    assert!(sessions.decryption_sessions.is_empty());
    assert!(sessions.negotiation_sessions.is_empty());
}

#[test]
fn threshold_equal_to_node_count_minus_one_is_accepted() {
    let mut sessions = ClusterSessions::new(node(0));
    assert!(sessions.new_generation_session(sid(), 2, &cluster_of_three()).is_ok());
    let mut other = ClusterSessions::new(node(0));
    assert!(matches!(
        other.new_generation_session(sid(), 3, &cluster_of_three()),
        Err(Error::NotEnoughNodesForThreshold)
    ));
}

#[test]
fn duplicate_session_id_is_refused() {
    let mut sessions = ClusterSessions::new(node(0));
    sessions.new_encryption_session(sid(), &cluster_of_three()).unwrap();
    assert!(matches!(
        sessions.new_encryption_session(sid(), &cluster_of_three()),
        Err(Error::DuplicateSessionId)
    ));
}

#[test]
fn servers_set_change_needs_the_well_known_id() {
    let mut sessions = ClusterSessions::new(node(0));
    let net = cluster_of_three();
    let migration = Some(H256 { bytes: [6u8; 32] });
    assert!(matches!(
        sessions.new_servers_set_change_session(Some(sid()), migration, vec![node(1)], &net),
        Err(Error::InvalidMessage)
    ));
    assert!(!sessions.has_active_sessions());
    let st = sessions
        .new_servers_set_change_session(Some(servers_set_change_session_id()), migration, vec![node(1), node(2)], &net)
        .unwrap();
    assert_eq!(st.creation_data.new_nodes_set.len(), 2);
    assert_eq!(st.creation_data.migration_id.unwrap().bytes, [6u8; 32]);
    assert!(st.key.id.same(&servers_set_change_session_id()));
    assert!(sessions.has_active_sessions());
    assert!(matches!(
        sessions.new_servers_set_change_session(None, None, vec![], &net),
        Err(Error::DuplicateSessionId)
    ));
    assert_eq!(servers_set_change_session_id().bytes[0], 0x10);
    assert_eq!(servers_set_change_session_id().bytes[31], 0x1c);
}

#[test]
fn exclusive_insert_refused_while_a_session_is_live() {
    let mut c = SessionContainer::new();
    c.insert(SessionKey::plain(sid()), false).unwrap();
    assert_eq!(c.insert(SessionKey::plain(SessionId::from_bytes([2u8; 32])), true), Err(Error::HasActiveSessions));
    assert_eq!(c.insert(SessionKey::plain(sid()), true), Err(Error::DuplicateSessionId));
}

#[test]
fn preserved_sessions_stay_after_finishing() {
    let mut c = SessionContainer::new();
    let key = SessionKey::plain(sid());
    c.preserve_sessions();
    c.insert(key, false).unwrap();
    assert!(c.on_session_finished(&key).is_none());
    assert!(c.get(&key, false).is_none());
    assert!(c.get(&key, true).unwrap().finished);
    assert!(c.first().is_some());
    assert!(c.remove(&key).is_some());
    assert!(c.remove(&key).is_none());
}

#[test]
fn schnorr_follow_up_starts_once_after_negotiation() {
    let mut sessions = ClusterSessions::new(node(0));
    let hash = H256 { bytes: [1u8; 32] };
    let mut st = sessions
        .new_schnorr_signing_session(
            sid(),
            SubSessionKey::from_bytes([3u8; 32]),
            SubSessionKey::from_bytes([4u8; 32]),
            hash,
            None,
            &cluster_of_three(),
        )
        .unwrap();
    let neg = st.negotiation.as_mut().unwrap();
    // the client's own hook call comes before the negotiation ends
    assert!(neg.slot.try_continue().is_none());
    let version = H256 { bytes: [9u8; 32] };
    neg.slot.complete(Ok(version));
    match neg.slot.try_continue() {
        Some(FollowUp::SchnorrSign { version: v, message_hash, .. }) => {
            assert_eq!(v.bytes, [9u8; 32]);
            assert_eq!(message_hash.bytes, [1u8; 32]);
        },
        _ => panic!("follow-up expected"),
    }
    assert!(neg.slot.try_continue().is_none());
    assert!(sessions.negotiation_sessions.first().is_some());
}

#[test]
fn ecdsa_follow_up_dropped_on_fatal_negotiation_failure() {
    let mut sessions = ClusterSessions::new(node(0));
    let hash = H256 { bytes: [5u8; 32] };
    let mut st = sessions
        .new_ecdsa_signing_session(
            sid(),
            SubSessionKey::from_bytes([3u8; 32]),
            SubSessionKey::from_bytes([4u8; 32]),
            hash,
            None,
            &Connectivity { connected: Ok(vec![node(1), node(2), node(3)]), disconnected_count: 0 },
        )
        .unwrap();
    let neg = st.negotiation.as_mut().unwrap();
    neg.slot.complete(Err(Error::ConsensusUnreachable));
    assert!(neg.slot.try_continue().is_none());
    assert!(neg.slot.try_continue().is_none());
    assert_eq!(st.view.connected_nodes_count(), 4);
}

#[test]
fn follow_up_fires_once_when_negotiation_ends_first() {
    let mut slot = NegotiationSlot::new();
    let key = SessionKey::compound(sid(), SubSessionKey::from_bytes([3u8; 32]));
    slot.complete(Ok(H256 { bytes: [2u8; 32] }));
    slot.set_continue_action(ContinueAction::Decrypt {
        session: key,
        origin: None,
        is_shadow_decryption: true,
        is_broadcast_decryption: false,
    });
    assert!(matches!(slot.try_continue(), Some(FollowUp::Decrypt { is_shadow_decryption: true, .. })));
    assert!(slot.try_continue().is_none());
}

#[test]
fn non_fatal_negotiation_error_keeps_the_action() {
    let mut slot = NegotiationSlot::new();
    slot.set_continue_action(ContinueAction::EcdsaSign {
        session: SessionKey::plain(sid()),
        message_hash: H256 { bytes: [2u8; 32] },
    });
    slot.complete(Err(Error::ConsensusTemporaryUnreachable));
    assert!(slot.try_continue().is_none());
    slot.complete(Ok(H256 { bytes: [6u8; 32] }));
    assert!(slot.try_continue().is_some());
}

#[test]
fn view_membership_is_frozen_and_includes_self() {
    let view = create_cluster_view(node(0), Ok(vec![node(1), node(2)]), 2, false).unwrap();
    assert_eq!(view.connected_nodes_count(), 3);
    assert_eq!(view.configured_nodes_count(), 5);
    assert!(view.is_connected(&node(0)));
    assert!(!view.is_connected(&node(9)));
    assert_eq!(view.nodes().len(), 3);
    let to = view.broadcast(&vec![node(1), node(2)]).unwrap();
    assert_eq!(to.len(), 2);
    assert!(matches!(view.broadcast(&vec![node(1)]), Err(Error::NodeDisconnected)));
    assert_eq!(view.send(&node(2), &vec![node(2)]), Ok(()));
    assert_eq!(view.send(&node(1), &vec![node(2)]), Err(Error::NodeDisconnected));
    let fixed = ClusterView::new(node(0), vec![node(0), node(4)], 2);
    assert_eq!(fixed.nodes().len(), 2);
    assert!(matches!(create_cluster_view(node(0), Ok(vec![node(1)]), 1, true), Err(Error::NodeDisconnected)));
}

#[test]
fn shadow_decryption_is_reported_only_when_requested() {
    let point = Public { bytes: [3u8; 64] };
    let secret = Public { bytes: [4u8; 64] };
    let requester = Address { bytes: [5u8; 20] };
    let done = Some(Ok(DecryptionResult { common_point: Some(point), decrypted_secret: secret }));
    let n = decryption_notification(true, sid(), None, 1, done, Some(true), Some(requester), Some(vec![(node(1), vec![1u8])]))
        .unwrap();
    let a = n.result.unwrap();
    assert_eq!(a.common_point.bytes, [3u8; 64]);
    assert_eq!(a.encrypted_document_key.bytes, [4u8; 64]);
    assert_eq!(a.threshold, 1);
    assert_eq!(a.participants_coefficients.len(), 1);
    assert!(decryption_notification(true, sid(), None, 1, done, Some(false), Some(requester), Some(vec![])).is_none());
    assert!(decryption_notification(true, sid(), None, 1, done, Some(true), None, Some(vec![])).is_none());
    assert!(decryption_notification(true, sid(), None, 1, None, Some(true), Some(requester), Some(vec![])).is_none());
}

#[test]
fn negotiation_failure_reported_only_when_fatal_with_decrypt_context() {
    let requester = Address { bytes: [5u8; 20] };
    let mut slot = NegotiationSlot::new();
    slot.set_failed_continue_action(FailedContinueAction::Decrypt { origin: None, requester });
    assert!(negotiation_notification(true, sid(), Some(Err(Error::ConsensusTemporaryUnreachable)), &mut slot).is_none());
    let n = negotiation_notification(true, sid(), Some(Err(Error::ConsensusUnreachable)), &mut slot).unwrap();
    assert!(matches!(n.result, Err(Error::ConsensusUnreachable)));
    assert_eq!(n.requester.bytes, [5u8; 20]);
    assert!(negotiation_notification(true, sid(), Some(Err(Error::ConsensusUnreachable)), &mut slot).is_none());
    assert!(negotiation_notification(true, sid(), Some(Ok(H256 { bytes: [0u8; 32] })), &mut slot).is_none());
}

#[test]
fn generation_without_result_is_not_reported() {
    assert!(generation_notification(true, sid(), None, None).is_none());
    let key = Public { bytes: [8u8; 64] };
    let n = generation_notification(true, sid(), None, Some(Ok(key))).unwrap();
    assert_eq!(n.result.unwrap().bytes, [8u8; 64]);
    assert!(Error::ConsensusTemporaryUnreachable.is_non_fatal());
    assert!(!Error::AccessDenied.is_non_fatal());
}

#[test]
fn drawn_sub_session_keys_keep_parallel_sessions_apart() {
    let mut sessions = ClusterSessions::new(node(0));
    let net = cluster_of_three();
    let hash = H256 { bytes: [1u8; 32] };
    let a = sessions.start_schnorr_signing_session(sid(), hash, None, &net).unwrap();
    let b = sessions.start_schnorr_signing_session(sid(), hash, None, &net).unwrap();
    assert!(!a.key.same(&b.key));
    assert!(a.key.id.same(&sid()));
    let na = a.negotiation.unwrap();
    let nb = b.negotiation.unwrap();
    assert!(!na.key.same(&nb.key));
    assert!(sessions.start_decryption_session(sid(), None, false, false, Some(hash), &net).unwrap().negotiation.is_none());
    assert!(sessions.start_ecdsa_signing_session(sid(), hash, None, &net).is_ok());
    assert!(sessions.start_key_version_negotiation_session(sid(), &net).is_ok());
    let down = Connectivity { connected: Err(Error::NodeDisconnected), disconnected_count: 0 };
    assert!(matches!(sessions.start_key_version_negotiation_session(sid(), &down), Err(Error::NodeDisconnected)));
}

#[test]
fn inbound_messages_are_routed_created_or_dropped() {
    let mut c = SessionContainer::new();
    let key = SessionKey::plain(sid());
    assert_eq!(route_message(&mut c, &key, false), Err(Error::UnknownSession));
    assert!(c.is_empty());
    assert_eq!(route_message(&mut c, &key, true), Ok(true));
    assert_eq!(route_message(&mut c, &key, true), Ok(false));
    assert!(after_message(&mut c, &key, false).is_none());
    assert!(!c.is_empty());
    assert!(after_message(&mut c, &key, true).is_some());
    assert!(c.is_empty());
}

#[test]
fn negotiation_end_removes_it_and_starts_the_follow_up() {
    let mut c = SessionContainer::new();
    let key = SessionKey::compound(sid(), SubSessionKey::from_bytes([4u8; 32]));
    c.insert(key, false).unwrap();
    let mut slot = NegotiationSlot::new();
    slot.set_continue_action(ContinueAction::SchnorrSign { session: key, message_hash: H256 { bytes: [1u8; 32] } });
    let (removed, follow) = after_negotiation_message(&mut c, &key, &mut slot, None);
    assert!(removed.is_none() && follow.is_none());
    let (removed, follow) = after_negotiation_message(&mut c, &key, &mut slot, Some(Ok(H256 { bytes: [3u8; 32] })));
    assert!(removed.is_some());
    assert!(matches!(follow, Some(FollowUp::SchnorrSign { .. })));
    assert!(c.is_empty());
    assert!(slot.try_continue().is_none());
}

#[test]
fn any_live_session_counts_as_active_and_listeners_register_on_three_registries() {
    let mut sessions = ClusterSessions::new(node(0));
    assert!(!sessions.has_active_sessions());
    sessions.new_encryption_session(sid(), &cluster_of_three()).unwrap();
    assert!(sessions.has_active_sessions());
    sessions.register_listener();
    assert_eq!(sessions.generation_sessions.listeners(), 1);
    assert_eq!(sessions.decryption_sessions.listeners(), 1);
    assert_eq!(sessions.negotiation_sessions.listeners(), 1);
    assert_eq!(sessions.encryption_sessions.listeners(), 0);
    assert!(cluster_of_three().is_fully_connected());
    assert!(!Connectivity { connected: Ok(vec![]), disconnected_count: 2 }.is_fully_connected());
}

#[test]
fn error_in_generation_session_broadcasted_to_all_other_nodes() {
    // every node of a three-node cluster drops its failed generation session
    for i in 0..3u8 {
        let mut sessions = ClusterSessions::new(node(i));
        let others: Vec<NodeId> = (0..3u8).filter(|j| *j != i).map(node).collect();
        let net = Connectivity { connected: Ok(others), disconnected_count: 0 };
        let key = SessionKey::plain(sid());
        if i == 0 {
            sessions.new_generation_session(sid(), 1, &net).unwrap();
        } else {
            assert_eq!(route_message(&mut sessions.generation_sessions, &key, true), Ok(true));
        }
        let removed = after_message(&mut sessions.generation_sessions, &key, true).unwrap();
        let n = generation_notification(removed.finished, sid(), None, Some(Err(Error::Internal))).unwrap();
        assert!(n.result.is_err());
        assert!(sessions.generation_sessions.get(&key, true).is_none());
    }
}

#[test]
fn generation_session_completion_signalled_if_failed_on_master() {
    let mut sessions = ClusterSessions::new(node(0));
    let key = SessionKey::plain(sid());
    sessions.new_generation_session(sid(), 1, &cluster_of_three()).unwrap();
    let (r, removed) = process_initialization_result(Err(Error::Internal), &key, false, &mut sessions.generation_sessions);
    assert!(r.is_err());
    assert!(removed.is_some());
    let n = generation_notification(true, sid(), None, Some(Err(Error::Internal))).unwrap();
    assert!(n.result.is_err());
    assert!(sessions.generation_sessions.get(&key, true).is_none());
}

#[test]
fn generation_session_is_removed_when_succeeded() {
    let mut sessions = ClusterSessions::new(node(0));
    let key = SessionKey::plain(sid());
    sessions.new_generation_session(sid(), 1, &cluster_of_three()).unwrap();
    let removed = after_message(&mut sessions.generation_sessions, &key, true).unwrap();
    let n = generation_notification(removed.finished, sid(), None, Some(Ok(Public { bytes: [2u8; 64] }))).unwrap();
    assert!(n.result.is_ok());
    assert!(sessions.generation_sessions.get(&key, true).is_none());
}

fn signing_follow_up(ecdsa: bool, nodes: u8) {
    let mut sessions = ClusterSessions::new(node(0));
    let others: Vec<NodeId> = (1..nodes).map(node).collect();
    let net = Connectivity { connected: Ok(others), disconnected_count: 0 };
    let hash = H256 { bytes: [1u8; 32] };
    let st = if ecdsa {
        sessions.start_ecdsa_signing_session(sid(), hash, None, &net).unwrap()
    } else {
        sessions.start_schnorr_signing_session(sid(), hash, None, &net).unwrap()
    };
    assert_eq!(st.view.connected_nodes_count(), nodes as usize);
    let mut n = st.negotiation.unwrap();
    let (removed, follow) =
        after_negotiation_message(&mut sessions.negotiation_sessions, &n.key, &mut n.slot, Some(Ok(H256 { bytes: [7u8; 32] })));
    assert!(removed.is_some());
    match (ecdsa, follow) {
        (false, Some(FollowUp::SchnorrSign { session, version, .. })) | (true, Some(FollowUp::EcdsaSign { session, version, .. })) => {
            assert!(session.same(&st.key));
            assert_eq!(version.bytes, [7u8; 32]);
        },
        _ => panic!("follow-up expected"),
    }
    assert!(n.slot.try_continue().is_none());
    let removed = after_message(
        if ecdsa { &mut sessions.ecdsa_signing_sessions } else { &mut sessions.schnorr_signing_sessions },
        &st.key,
        true,
    );
    assert!(removed.is_some());
    assert!(!sessions.has_active_sessions());
}

#[test]
fn schnorr_signing_session_completes_if_node_does_not_have_a_share() {
    signing_follow_up(false, 3);
}

#[test]
fn ecdsa_signing_session_completes_if_node_does_not_have_a_share() {
    signing_follow_up(true, 4);
}
