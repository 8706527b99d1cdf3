use vstd::prelude::*;
use crate::container::{finished_are_live, KeyView, SessionContainer, SessionEntry};
use crate::continuation::{ContinueAction, NegotiationSlot};
use crate::error::Error;
use crate::ids::{Address, H256, NodeId, SessionId, SessionKey, SubSessionKey};
use parity_crypto::publickey::Generator;
use crate::view::{create_cluster_view, distinct_nodes, node_set, Cluster, ClusterView};

verus! {

/// The well-known id of the servers-set-change session.
pub open spec fn servers_set_change_id() -> Seq<u8> {
    seq![
        0x10u8, 0xb7, 0xaf, 0x42, 0x3b, 0xb5, 0x51, 0xd5, 0xdc, 0x86, 0x45, 0xdb, 0x75, 0x41, 0x63, 0xa2,
        0x14, 0x5d, 0x37, 0xd7, 0x8d, 0x46, 0x8f, 0xa7, 0x33, 0x04, 0x35, 0xed, 0x77, 0x06, 0x4c, 0x1c,
    ]
}

/// The well-known id of the servers-set-change session.
pub fn servers_set_change_session_id() -> (r: SessionId)
    ensures
        r@ == servers_set_change_id(),
{
    let r = SessionId {
        bytes: [
            0x10u8, 0xb7, 0xaf, 0x42, 0x3b, 0xb5, 0x51, 0xd5, 0xdc, 0x86, 0x45, 0xdb, 0x75, 0x41, 0x63, 0xa2,
            0x14, 0x5d, 0x37, 0xd7, 0x8d, 0x46, 0x8f, 0xa7, 0x33, 0x04, 0x35, 0xed, 0x77, 0x06, 0x4c, 0x1c,
        ],
    };
    assert(r@ =~= servers_set_change_id());
    r
}

/// Relies on parity_crypto's `Random` generator: the secret of a freshly
/// generated key pair, as its 32 bytes. Nothing is known of its value.
#[verifier::external_body]
fn fresh_sub_session_key() -> (r: SubSessionKey) {
    let pair = parity_crypto::publickey::Random.generate();
    SubSessionKey { bytes: pair.secret().to_fixed_bytes() }
}

/// A given id other than the well-known one of the servers-set-change session.
pub open spec fn rejected_id(session_id: Option<SessionId>) -> bool {
    match session_id {
        Some(id) => id@ != servers_set_change_id(),
        None => false,
    }
}

/// What the transport reports when a session starts: the connected nodes
/// (or why they cannot be listed) and how many configured nodes are not
/// connected.
pub struct Connectivity {
    pub connected: Result<Vec<NodeId>, Error>,
    pub disconnected_count: usize,
}

impl Connectivity {
    pub open spec fn valid(&self) -> bool {
        self.connected matches Ok(c) ==> distinct_nodes(c@) && c@.len() + 1 + self.disconnected_count
            <= usize::MAX
    }

    /// Whether every configured node is connected.
    pub fn is_fully_connected(&self) -> (r: bool)
        ensures
            r == (self.disconnected_count == 0),
    {
        self.disconnected_count == 0
    }

    /// The nodes a session started now would see.
    pub open spec fn members(&self, self_node: NodeId) -> Set<Seq<u8>> {
        match self.connected {
            Ok(c) => node_set(c@).insert(self_node@),
            Err(_) => Set::empty(),
        }
    }

    /// The error that a session needing `requires_all` connections fails
    /// with before it is registered, if any.
    pub open spec fn view_error(&self, requires_all: bool) -> Option<Error> {
        match self.connected {
            Err(e) => Some(e),
            Ok(_) => if requires_all && self.disconnected_count > 0 {
                Some(Error::NodeDisconnected)
            } else {
                None
            },
        }
    }
}

/// The outcome of starting a session in a registry: the error, in order of
/// the checks, or `None` where the session is registered.
pub open spec fn start_error(
    c: &SessionContainer,
    net: &Connectivity,
    key: KeyView,
    requires_all: bool,
    is_exclusive: bool,
) -> Option<Error> {
    if net.view_error(requires_all) is Some {
        net.view_error(requires_all)
    } else if c.keys().contains(key) {
        Some(Error::DuplicateSessionId)
    } else if is_exclusive && c.keys() != Set::<KeyView>::empty() {
        Some(Error::HasActiveSessions)
    } else {
        None
    }
}

/// Takes the view of a new session and registers the session under `key`.
fn open_session(
    container: &mut SessionContainer,
    self_node: NodeId,
    key: SessionKey,
    net: &Connectivity,
    requires_all: bool,
    is_exclusive: bool,
) -> (r: Result<ClusterView, Error>)
    requires
        old(container).wf(),
        net.valid(),
    ensures
        final(container).wf(),
        final(container).preserving() == old(container).preserving(),
        final(container).listener_count() == old(container).listener_count(),
        final(container).finished_keys() == old(container).finished_keys(),
        start_error(old(container), net, key@, requires_all, is_exclusive) matches Some(e) ==> r == Err::<
            ClusterView,
            Error,
        >(e) && final(container).keys() == old(container).keys(),
        start_error(old(container), net, key@, requires_all, is_exclusive) is None ==> r is Ok
            && final(container).keys() == old(container).keys().insert(key@),
        r matches Ok(v) ==> v.snapshot() == net.members(self_node) && v.self_node() == self_node@,
{
    let view = match &net.connected {
        Ok(c) => {
            let ghost g = c@;
            let mut copy: Vec<NodeId> = Vec::new();
            let mut i: usize = 0;
            while i < c.len()
                invariant
                    0 <= i <= c@.len(),
                    c@ == g,
                    copy@ == g.take(i as int),
                decreases c.len() - i,
            {
                copy.push(c[i]);
                i = i + 1;
                assert(copy@ =~= g.take(i as int));
            }
            assert(g.take(i as int) =~= g);
            create_cluster_view(self_node, Ok(copy), net.disconnected_count, requires_all)
        },
        Err(e) => Err(*e),
    };
    let view = match view {
        Ok(v) => v,
        Err(e) => return Err(e),
    };
    match container.insert(key, is_exclusive) {
        Ok(()) => Ok(view),
        Err(e) => Err(e),
    }
}

/// Settles a session after its one-time initialization: a session that
/// failed to initialize, or that already reached its terminal state, leaves
/// the registry and is handed back so that its listeners can be told; the
/// initialization result itself is handed back unchanged.
pub fn process_initialization_result(
    result: Result<(), Error>,
    key: &SessionKey,
    is_finished: bool,
    sessions: &mut SessionContainer,
) -> (r: (Result<(), Error>, Option<SessionEntry>))
    requires
        old(sessions).wf(),
    ensures
        final(sessions).wf(),
        r.0 == result,
        r.1 is Some <==> (result is Err || is_finished) && old(sessions).keys().contains(key@),
        r.1 matches Some(e) ==> e.key@ == key@,
        final(sessions).keys() == if result is Err || is_finished {
            old(sessions).keys().remove(key@)
        } else {
            old(sessions).keys()
        },
        final(sessions).finished_keys() == if result is Err || is_finished {
            old(sessions).finished_keys().remove(key@)
        } else {
            old(sessions).finished_keys()
        },
        final(sessions).settings_kept(old(sessions)),
{
    let removed = if result.is_err() || is_finished {
        sessions.remove(key)
    } else {
        None
    };
    (result, removed)
}

/// Registers a key-version negotiation on `session_id` under `access_key`.
fn open_negotiation(
    negotiations: &mut SessionContainer,
    self_node: NodeId,
    session_id: SessionId,
    access_key: SubSessionKey,
    net: &Connectivity,
) -> (r: Result<NegotiationStart, Error>)
    requires
        old(negotiations).wf(),
        net.valid(),
    ensures
        final(negotiations).wf(),
        final(negotiations).preserving() == old(negotiations).preserving(),
        final(negotiations).listener_count() == old(negotiations).listener_count(),
        final(negotiations).finished_keys() == old(negotiations).finished_keys(),
        ({
            let k = (session_id@, Some(access_key@));
            &&& start_error(old(negotiations), net, k, false, false) matches Some(e) ==> r == Err::<
                NegotiationStart,
                Error,
            >(e) && final(negotiations).keys() == old(negotiations).keys()
            &&& start_error(old(negotiations), net, k, false, false) is None ==> r is Ok
                && final(negotiations).keys() == old(negotiations).keys().insert(k)
            &&& r matches Ok(n) ==> n.key@ == k && n.view.snapshot() == net.members(self_node)
                && n.slot.action() is None && n.slot.result() is None
        }),
{
    let key = SessionKey::compound(session_id, access_key);
    match open_session(negotiations, self_node, key, net, false, false) {
        Ok(view) => Ok(NegotiationStart { key, view, slot: NegotiationSlot::new() }),
        Err(e) => Err(e),
    }
}

/// The error that starting a decryption or signing session under `key`
/// fails with, if any; where no version is given, a negotiation under
/// `negotiation_key` is started too.
pub open spec fn versioned_start_error(
    target: &SessionContainer,
    negotiations: &SessionContainer,
    net: &Connectivity,
    key: KeyView,
    negotiation_key: KeyView,
    has_version: bool,
) -> Option<Error> {
    if start_error(target, net, key, false, false) is Some {
        start_error(target, net, key, false, false)
    } else if !has_version {
        start_error(negotiations, net, negotiation_key, false, false)
    } else {
        None
    }
}

/// Registers a decryption or signing session, and where no key version is
/// given the negotiation that must choose it; a failed negotiation start
/// takes the session out again.
fn open_versioned(
    target: &mut SessionContainer,
    negotiations: &mut SessionContainer,
    self_node: NodeId,
    session_id: SessionId,
    access_key: SubSessionKey,
    negotiation_key: SubSessionKey,
    has_version: bool,
    net: &Connectivity,
) -> (r: Result<(SessionKey, ClusterView, Option<NegotiationStart>), Error>)
    requires
        old(target).wf(),
        old(negotiations).wf(),
        net.valid(),
    ensures
        final(target).wf(),
        final(negotiations).wf(),
        final(target).settings_kept(old(target)),
        final(negotiations).settings_kept(old(negotiations)),
        final(target).finished_keys() == old(target).finished_keys(),
        final(negotiations).finished_keys() == old(negotiations).finished_keys(),
        ({
            let k = (session_id@, Some(access_key@));
            let nk = (session_id@, Some(negotiation_key@));
            &&& versioned_start_error(old(target), old(negotiations), net, k, nk, has_version) matches Some(e)
                ==> r == Err::<(SessionKey, ClusterView, Option<NegotiationStart>), Error>(e)
                && final(target).keys() == old(target).keys()
                && final(negotiations).keys() == old(negotiations).keys()
            &&& versioned_start_error(old(target), old(negotiations), net, k, nk, has_version) is None
                ==> r is Ok && final(target).keys() == old(target).keys().insert(k)
                && final(negotiations).keys() == if has_version {
                    old(negotiations).keys()
                } else {
                    old(negotiations).keys().insert(nk)
                }
            &&& r matches Ok((key, v, neg)) ==> key@ == k && v.snapshot() == net.members(self_node)
                && (neg is Some <==> !has_version)
                && (neg matches Some(n) ==> n.key@ == nk && n.slot.action() is None && n.slot.result() is None)
        }),
{
    let key = SessionKey::compound(session_id, access_key);
    let view = match open_session(target, self_node, key, net, false, false) {
        Ok(v) => v,
        Err(e) => return Err(e),
    };
    if has_version {
        return Ok((key, view, None));
    }
    match open_negotiation(negotiations, self_node, session_id, negotiation_key, net) {
        Ok(n) => Ok((key, view, Some(n))),
        Err(e) => {
            proof {
                finished_are_live(old(target));
            }
            let _ = target.remove(&key);
            assert(target.keys() =~= old(target).keys());
            assert(target.finished_keys() =~= old(target).finished_keys());
            Err(e)
        },
    }
}

/// A registry that keeps its finished sessions, preserving mode and
/// listeners.
pub open spec fn registry_kept(after: &SessionContainer, before: &SessionContainer) -> bool {
    after.finished_keys() == before.finished_keys() && after.settings_kept(before)
}

/// What the servers-set-change session is created with: the migration it
/// belongs to, if any, and the set of servers to move to.
pub struct ServersSetChangeData {
    pub migration_id: Option<H256>,
    pub new_nodes_set: Vec<NodeId>,
}

/// A servers-set-change session that was registered, with its creation data.
pub struct ServersSetChangeStart {
    pub key: SessionKey,
    pub view: ClusterView,
    pub creation_data: ServersSetChangeData,
}

/// A decryption or signing session that was registered, with the
/// negotiation that must choose its key version first where none was given.
pub struct VersionedStart {
    pub key: SessionKey,
    pub view: ClusterView,
    pub negotiation: Option<NegotiationStart>,
}

/// A key-version negotiation that was registered.
pub struct NegotiationStart {
    pub key: SessionKey,
    pub view: ClusterView,
    pub slot: NegotiationSlot,
}

/// The live sessions of a node, one registry per kind.
pub struct ClusterSessions {
    pub self_node: NodeId,
    pub generation_sessions: SessionContainer,
    pub encryption_sessions: SessionContainer,
    pub decryption_sessions: SessionContainer,
    pub schnorr_signing_sessions: SessionContainer,
    pub ecdsa_signing_sessions: SessionContainer,
    pub negotiation_sessions: SessionContainer,
    pub admin_sessions: SessionContainer,
}

impl ClusterSessions {
    pub open spec fn wf(&self) -> bool {
        &&& self.generation_sessions.wf()
        &&& self.encryption_sessions.wf()
        &&& self.decryption_sessions.wf()
        &&& self.schnorr_signing_sessions.wf()
        &&& self.ecdsa_signing_sessions.wf()
        &&& self.negotiation_sessions.wf()
        &&& self.admin_sessions.wf()
    }

    pub fn new(self_node: NodeId) -> (r: ClusterSessions)
        ensures
            r.wf(),
            r.self_node == self_node,
            r.generation_sessions.keys() == Set::<KeyView>::empty(),
            r.encryption_sessions.keys() == Set::<KeyView>::empty(),
            r.decryption_sessions.keys() == Set::<KeyView>::empty(),
            r.schnorr_signing_sessions.keys() == Set::<KeyView>::empty(),
            r.ecdsa_signing_sessions.keys() == Set::<KeyView>::empty(),
            r.negotiation_sessions.keys() == Set::<KeyView>::empty(),
            r.admin_sessions.keys() == Set::<KeyView>::empty(),
    {
        ClusterSessions {
            self_node,
            generation_sessions: SessionContainer::new(),
            encryption_sessions: SessionContainer::new(),
            decryption_sessions: SessionContainer::new(),
            schnorr_signing_sessions: SessionContainer::new(),
            ecdsa_signing_sessions: SessionContainer::new(),
            negotiation_sessions: SessionContainer::new(),
            admin_sessions: SessionContainer::new(),
        }
    }

    /// `self` differs from `before` only in the registries flagged, each of
    /// which keeps its finished sessions, preserving mode and listeners.
    pub open spec fn changed_only(
        &self,
        before: &ClusterSessions,
        generation: bool,
        encryption: bool,
        decryption: bool,
        schnorr: bool,
        ecdsa: bool,
        negotiation: bool,
        admin: bool,
    ) -> bool {
        &&& self.self_node == before.self_node
        &&& if generation {
            registry_kept(&self.generation_sessions, &before.generation_sessions)
        } else {
            self.generation_sessions == before.generation_sessions
        }
        &&& if encryption {
            registry_kept(&self.encryption_sessions, &before.encryption_sessions)
        } else {
            self.encryption_sessions == before.encryption_sessions
        }
        &&& if decryption {
            registry_kept(&self.decryption_sessions, &before.decryption_sessions)
        } else {
            self.decryption_sessions == before.decryption_sessions
        }
        &&& if schnorr {
            registry_kept(&self.schnorr_signing_sessions, &before.schnorr_signing_sessions)
        } else {
            self.schnorr_signing_sessions == before.schnorr_signing_sessions
        }
        &&& if ecdsa {
            registry_kept(&self.ecdsa_signing_sessions, &before.ecdsa_signing_sessions)
        } else {
            self.ecdsa_signing_sessions == before.ecdsa_signing_sessions
        }
        &&& if negotiation {
            registry_kept(&self.negotiation_sessions, &before.negotiation_sessions)
        } else {
            self.negotiation_sessions == before.negotiation_sessions
        }
        &&& if admin {
            registry_kept(&self.admin_sessions, &before.admin_sessions)
        } else {
            self.admin_sessions == before.admin_sessions
        }
    }

    /// Whether any session of any kind is live.
    pub fn has_active_sessions(&self) -> (r: bool)
        ensures
            r == (self.generation_sessions.keys() != Set::<KeyView>::empty()
                || self.encryption_sessions.keys() != Set::<KeyView>::empty()
                || self.decryption_sessions.keys() != Set::<KeyView>::empty()
                || self.schnorr_signing_sessions.keys() != Set::<KeyView>::empty()
                || self.ecdsa_signing_sessions.keys() != Set::<KeyView>::empty()
                || self.negotiation_sessions.keys() != Set::<KeyView>::empty()
                || self.admin_sessions.keys() != Set::<KeyView>::empty()),
    {
        !self.generation_sessions.is_empty() || !self.encryption_sessions.is_empty()
            || !self.decryption_sessions.is_empty() || !self.schnorr_signing_sessions.is_empty()
            || !self.ecdsa_signing_sessions.is_empty() || !self.negotiation_sessions.is_empty()
            || !self.admin_sessions.is_empty()
    }

    /// Registers one listener of removals on the generation, decryption and
    /// negotiation registries, the ones whose endings the service reports.
    pub fn register_listener(&mut self)
        requires
            old(self).wf(),
            old(self).generation_sessions.listener_count() < usize::MAX,
            old(self).decryption_sessions.listener_count() < usize::MAX,
            old(self).negotiation_sessions.listener_count() < usize::MAX,
        ensures
            final(self).wf(),
            final(self).generation_sessions.listener_count() == old(self).generation_sessions.listener_count() + 1,
            final(self).decryption_sessions.listener_count() == old(self).decryption_sessions.listener_count() + 1,
            final(self).negotiation_sessions.listener_count() == old(self).negotiation_sessions.listener_count()
                + 1,
            final(self).generation_sessions.keys() == old(self).generation_sessions.keys(),
            final(self).generation_sessions.finished_keys() == old(self).generation_sessions.finished_keys(),
            final(self).generation_sessions.preserving() == old(self).generation_sessions.preserving(),
            final(self).decryption_sessions.keys() == old(self).decryption_sessions.keys(),
            final(self).decryption_sessions.finished_keys() == old(self).decryption_sessions.finished_keys(),
            final(self).decryption_sessions.preserving() == old(self).decryption_sessions.preserving(),
            final(self).negotiation_sessions.keys() == old(self).negotiation_sessions.keys(),
            final(self).negotiation_sessions.finished_keys() == old(self).negotiation_sessions.finished_keys(),
            final(self).negotiation_sessions.preserving() == old(self).negotiation_sessions.preserving(),
            final(self).self_node == old(self).self_node,
            final(self).encryption_sessions == old(self).encryption_sessions,
            final(self).schnorr_signing_sessions == old(self).schnorr_signing_sessions,
            final(self).ecdsa_signing_sessions == old(self).ecdsa_signing_sessions,
            final(self).admin_sessions == old(self).admin_sessions,
    {
        self.generation_sessions.add_listener();
        self.decryption_sessions.add_listener();
        self.negotiation_sessions.add_listener();
    }

    /// Registers a generation session over every configured node. Fails
    /// where the view cannot be taken, the id is live, or the session would
    /// have fewer than `threshold + 1` nodes (`NotEnoughNodesForThreshold`),
    /// and then leaves the registry as it was.
    pub fn new_generation_session(&mut self, session_id: SessionId, threshold: usize, net: &Connectivity)
        -> (r: Result<ClusterView, Error>)
        requires
            old(self).wf(),
            net.valid(),
        ensures
            final(self).wf(),
            final(self).changed_only(old(self), true, false, false, false, false, false, false),
            ({
                let k = (session_id@, None::<Seq<u8>>);
                let g = &old(self).generation_sessions;
                &&& start_error(g, net, k, true, false) matches Some(e) ==> r == Err::<ClusterView, Error>(e)
                &&& start_error(g, net, k, true, false) is None && threshold + 1 > net.members(
                    old(self).self_node,
                ).len() ==> r == Err::<ClusterView, Error>(Error::NotEnoughNodesForThreshold)
                &&& start_error(g, net, k, true, false) is None && threshold + 1 <= net.members(
                    old(self).self_node,
                ).len() ==> r is Ok
                &&& r is Err ==> final(self).generation_sessions.keys() == g.keys()
                &&& r matches Ok(v) ==> final(self).generation_sessions.keys() == g.keys().insert(k)
                    && v.snapshot() == net.members(old(self).self_node)
            }),
    {
        let key = SessionKey::plain(session_id);
        let view = open_session(&mut self.generation_sessions, self.self_node, key, net, true, false);
        match view {
            Ok(v) => {
                if threshold >= v.connected_nodes_count() {
                    proof {
                        finished_are_live(&old(self).generation_sessions);
                    }
                    let _ = self.generation_sessions.remove(&key);
                    assert(self.generation_sessions.finished_keys() =~= old(self).generation_sessions.finished_keys());
                    Err(Error::NotEnoughNodesForThreshold)
                } else {
                    Ok(v)
                }
            },
            Err(e) => Err(e),
        }
    }

    /// Registers an encryption session over every configured node.
    pub fn new_encryption_session(&mut self, session_id: SessionId, net: &Connectivity)
        -> (r: Result<ClusterView, Error>)
        requires
            old(self).wf(),
            net.valid(),
        ensures
            final(self).wf(),
            final(self).changed_only(old(self), false, true, false, false, false, false, false),
            ({
                let k = (session_id@, None::<Seq<u8>>);
                let c = &old(self).encryption_sessions;
                &&& start_error(c, net, k, true, false) matches Some(e) ==> r == Err::<ClusterView, Error>(e)
                    && final(self).encryption_sessions.keys() == c.keys()
                &&& start_error(c, net, k, true, false) is None ==> r is Ok
                    && final(self).encryption_sessions.keys() == c.keys().insert(k)
                &&& r matches Ok(v) ==> v.snapshot() == net.members(old(self).self_node)
            }),
    {
        let key = SessionKey::plain(session_id);
        open_session(&mut self.encryption_sessions, self.self_node, key, net, true, false)
    }

    /// Registers a key-version negotiation on `session_id` under the
    /// sub-session key `access_key`.
    pub fn new_key_version_negotiation_session(
        &mut self,
        session_id: SessionId,
        access_key: SubSessionKey,
        net: &Connectivity,
    ) -> (r: Result<NegotiationStart, Error>)
        requires
            old(self).wf(),
            net.valid(),
        ensures
            final(self).wf(),
            final(self).changed_only(old(self), false, false, false, false, false, true, false),
            ({
                let k = (session_id@, Some(access_key@));
                let c = &old(self).negotiation_sessions;
                &&& start_error(c, net, k, false, false) matches Some(e) ==> r == Err::<NegotiationStart, Error>(e)
                    && final(self).negotiation_sessions.keys() == c.keys()
                &&& start_error(c, net, k, false, false) is None ==> r is Ok
                    && final(self).negotiation_sessions.keys() == c.keys().insert(k)
                &&& r matches Ok(n) ==> n.key@ == k && n.view.snapshot() == net.members(old(self).self_node)
                    && n.slot.action() is None && n.slot.result() is None
            }),
    {
        open_negotiation(&mut self.negotiation_sessions, self.self_node, session_id, access_key, net)
    }

    /// Registers a decryption session under `access_key`. Where no
    /// version is given, a key-version negotiation under `negotiation_key`
    /// is registered too, with the follow-up bound to it.
    pub fn new_decryption_session(
        &mut self,
        session_id: SessionId,
        access_key: SubSessionKey,
        negotiation_key: SubSessionKey,
        origin: Option<Address>,
        is_shadow_decryption: bool,
        is_broadcast_decryption: bool,
        version: Option<H256>,
        net: &Connectivity,
    ) -> (r: Result<VersionedStart, Error>)
        requires
            old(self).wf(),
            net.valid(),
        ensures
            final(self).wf(),
            final(self).changed_only(old(self), false, false, true, false, false, true, false),
            ({
                let k = (session_id@, Some(access_key@));
                let nk = (session_id@, Some(negotiation_key@));
                let t = &old(self).decryption_sessions;
                let n = &old(self).negotiation_sessions;
                &&& versioned_start_error(t, n, net, k, nk, version is Some) matches Some(e)
                    ==> r == Err::<VersionedStart, Error>(e) && final(self).decryption_sessions.keys() == t.keys()
                    && final(self).negotiation_sessions.keys() == n.keys()
                &&& versioned_start_error(t, n, net, k, nk, version is Some) is None ==> r is Ok
                    && final(self).decryption_sessions.keys() == t.keys().insert(k)
                    && final(self).negotiation_sessions.keys() == if version is Some {
                        n.keys()
                    } else {
                        n.keys().insert(nk)
                    }
                &&& r matches Ok(st) ==> st.key@ == k && st.view.snapshot() == net.members(old(self).self_node)
                    && (st.negotiation is Some <==> version is None)
                    && (st.negotiation matches Some(ns) ==> ns.key@ == nk && ns.slot.result() is None
                        && ns.slot.action() == Some(ContinueAction::Decrypt { session: st.key, origin, is_shadow_decryption, is_broadcast_decryption }))
            }),
    {
        let self_node = self.self_node;
        let started = open_versioned(
            &mut self.decryption_sessions,
            &mut self.negotiation_sessions,
            self_node,
            session_id,
            access_key,
            negotiation_key,
            version.is_some(),
            net,
        );
        match started {
            Ok((key, view, Some(mut n))) => {
                n.slot.set_continue_action(ContinueAction::Decrypt { session: key, origin, is_shadow_decryption, is_broadcast_decryption });
                Ok(VersionedStart { key, view, negotiation: Some(n) })
            },
            Ok((key, view, None)) => Ok(VersionedStart { key, view, negotiation: None }),
            Err(e) => Err(e),
        }
    }

    /// Registers a Schnorr signing session under `access_key`. Where no
    /// version is given, a key-version negotiation under `negotiation_key`
    /// is registered too, with the follow-up bound to it.
    pub fn new_schnorr_signing_session(
        &mut self,
        session_id: SessionId,
        access_key: SubSessionKey,
        negotiation_key: SubSessionKey,
        message_hash: H256,
        version: Option<H256>,
        net: &Connectivity,
    ) -> (r: Result<VersionedStart, Error>)
        requires
            old(self).wf(),
            net.valid(),
        ensures
            final(self).wf(),
            final(self).changed_only(old(self), false, false, false, true, false, true, false),
            ({
                let k = (session_id@, Some(access_key@));
                let nk = (session_id@, Some(negotiation_key@));
                let t = &old(self).schnorr_signing_sessions;
                let n = &old(self).negotiation_sessions;
                &&& versioned_start_error(t, n, net, k, nk, version is Some) matches Some(e)
                    ==> r == Err::<VersionedStart, Error>(e) && final(self).schnorr_signing_sessions.keys() == t.keys()
                    && final(self).negotiation_sessions.keys() == n.keys()
                &&& versioned_start_error(t, n, net, k, nk, version is Some) is None ==> r is Ok
                    && final(self).schnorr_signing_sessions.keys() == t.keys().insert(k)
                    && final(self).negotiation_sessions.keys() == if version is Some {
                        n.keys()
                    } else {
                        n.keys().insert(nk)
                    }
                &&& r matches Ok(st) ==> st.key@ == k && st.view.snapshot() == net.members(old(self).self_node)
                    && (st.negotiation is Some <==> version is None)
                    && (st.negotiation matches Some(ns) ==> ns.key@ == nk && ns.slot.result() is None
                        && ns.slot.action() == Some(ContinueAction::SchnorrSign { session: st.key, message_hash }))
            }),
    {
        let self_node = self.self_node;
        let started = open_versioned(
            &mut self.schnorr_signing_sessions,
            &mut self.negotiation_sessions,
            self_node,
            session_id,
            access_key,
            negotiation_key,
            version.is_some(),
            net,
        );
        match started {
            Ok((key, view, Some(mut n))) => {
                n.slot.set_continue_action(ContinueAction::SchnorrSign { session: key, message_hash });
                Ok(VersionedStart { key, view, negotiation: Some(n) })
            },
            Ok((key, view, None)) => Ok(VersionedStart { key, view, negotiation: None }),
            Err(e) => Err(e),
        }
    }

    /// Registers a ECDSA signing session under `access_key`. Where no
    /// version is given, a key-version negotiation under `negotiation_key`
    /// is registered too, with the follow-up bound to it.
    pub fn new_ecdsa_signing_session(
        &mut self,
        session_id: SessionId,
        access_key: SubSessionKey,
        negotiation_key: SubSessionKey,
        message_hash: H256,
        version: Option<H256>,
        net: &Connectivity,
    ) -> (r: Result<VersionedStart, Error>)
        requires
            old(self).wf(),
            net.valid(),
        ensures
            final(self).wf(),
            final(self).changed_only(old(self), false, false, false, false, true, true, false),
            ({
                let k = (session_id@, Some(access_key@));
                let nk = (session_id@, Some(negotiation_key@));
                let t = &old(self).ecdsa_signing_sessions;
                let n = &old(self).negotiation_sessions;
                &&& versioned_start_error(t, n, net, k, nk, version is Some) matches Some(e)
                    ==> r == Err::<VersionedStart, Error>(e) && final(self).ecdsa_signing_sessions.keys() == t.keys()
                    && final(self).negotiation_sessions.keys() == n.keys()
                &&& versioned_start_error(t, n, net, k, nk, version is Some) is None ==> r is Ok
                    && final(self).ecdsa_signing_sessions.keys() == t.keys().insert(k)
                    && final(self).negotiation_sessions.keys() == if version is Some {
                        n.keys()
                    } else {
                        n.keys().insert(nk)
                    }
                &&& r matches Ok(st) ==> st.key@ == k && st.view.snapshot() == net.members(old(self).self_node)
                    && (st.negotiation is Some <==> version is None)
                    && (st.negotiation matches Some(ns) ==> ns.key@ == nk && ns.slot.result() is None
                        && ns.slot.action() == Some(ContinueAction::EcdsaSign { session: st.key, message_hash }))
            }),
    {
        let self_node = self.self_node;
        let started = open_versioned(
            &mut self.ecdsa_signing_sessions,
            &mut self.negotiation_sessions,
            self_node,
            session_id,
            access_key,
            negotiation_key,
            version.is_some(),
            net,
        );
        match started {
            Ok((key, view, Some(mut n))) => {
                n.slot.set_continue_action(ContinueAction::EcdsaSign { session: key, message_hash });
                Ok(VersionedStart { key, view, negotiation: Some(n) })
            },
            Ok((key, view, None)) => Ok(VersionedStart { key, view, negotiation: None }),
            Err(e) => Err(e),
        }
    }

    /// Registers the administrative session that changes the set of servers.
    /// Its id is the well-known one: any other given id fails with
    /// `InvalidMessage`. It needs every configured node connected, and no
    /// other administrative session may be live.
    pub fn new_servers_set_change_session(
        &mut self,
        session_id: Option<SessionId>,
        migration_id: Option<H256>,
        new_nodes_set: Vec<NodeId>,
        net: &Connectivity,
    ) -> (r: Result<ServersSetChangeStart, Error>)
        requires
            old(self).wf(),
            net.valid(),
        ensures
            final(self).wf(),
            final(self).changed_only(old(self), false, false, false, false, false, false, true),
            rejected_id(session_id) ==> r == Err::<ServersSetChangeStart, Error>(
                Error::InvalidMessage,
            ) && final(self).admin_sessions.keys() == old(self).admin_sessions.keys(),
            ({
                let k = (servers_set_change_id(), None::<Seq<u8>>);
                let a = &old(self).admin_sessions;
                &&& rejected_id(session_id) || start_error(
                    a,
                    net,
                    k,
                    true,
                    true,
                ) is Some ==> final(self).admin_sessions.keys() == a.keys() && r is Err
                &&& !rejected_id(session_id) && start_error(a, net, k, true, true) is Some
                    ==> r == Err::<ServersSetChangeStart, Error>(start_error(a, net, k, true, true)->Some_0)
                &&& !rejected_id(session_id) && start_error(
                    a,
                    net,
                    k,
                    true,
                    true,
                ) is None ==> r is Ok && final(self).admin_sessions.keys() == a.keys().insert(k)
                &&& r matches Ok(st) ==> st.key@ == k && st.view.snapshot() == net.members(old(self).self_node)
                    && st.creation_data.migration_id == migration_id
                    && st.creation_data.new_nodes_set@ == new_nodes_set@
            }),
    {
        let well_known = servers_set_change_session_id();
        let id = match session_id {
            Some(id) => {
                if !id.same(&well_known) {
                    return Err(Error::InvalidMessage);
                }
                id
            },
            None => well_known,
        };
        let key = SessionKey::plain(id);
        match open_session(&mut self.admin_sessions, self.self_node, key, net, true, true) {
            Ok(view) => Ok(
                ServersSetChangeStart {
                    key,
                    view,
                    creation_data: ServersSetChangeData { migration_id, new_nodes_set },
                },
            ),
            Err(e) => Err(e),
        }
    }

    /// Registers a decryption session and, where no version is given, its
    /// key-version negotiation, each under a freshly drawn sub-session key.
    pub fn start_decryption_session(
        &mut self,
        session_id: SessionId,
        origin: Option<Address>,
        is_shadow_decryption: bool,
        is_broadcast_decryption: bool,
        version: Option<H256>,
        net: &Connectivity,
    ) -> (r: Result<VersionedStart, Error>)
        requires
            old(self).wf(),
            net.valid(),
        ensures
            final(self).wf(),
            final(self).changed_only(old(self), false, false, true, false, false, true, false),
            net.view_error(false) matches Some(e) ==> r == Err::<VersionedStart, Error>(e),
            net.view_error(false) is None && (forall|k: KeyView| #[trigger] old(self).decryption_sessions.keys().contains(k)
                ==> k.0 != session_id@) && (version is None ==> forall|k: KeyView|
                #[trigger] old(self).negotiation_sessions.keys().contains(k) ==> k.0 != session_id@) ==> r is Ok,
            r matches Ok(st) ==> st.key@.0 == session_id@ && final(self).decryption_sessions.keys() == old(
                self,
            ).decryption_sessions.keys().insert(st.key@) && st.view.snapshot() == net.members(old(self).self_node)
                && (st.negotiation is Some <==> version is None),
            r is Err ==> final(self).decryption_sessions.keys() == old(self).decryption_sessions.keys()
                && final(self).negotiation_sessions.keys() == old(self).negotiation_sessions.keys(),
    {
        let access_key = fresh_sub_session_key();
        let negotiation_key = fresh_sub_session_key();
        self.new_decryption_session(session_id, access_key, negotiation_key, origin, is_shadow_decryption, is_broadcast_decryption, version, net)
    }

    /// Registers a Schnorr signing session and, where no version is given, its
    /// key-version negotiation, each under a freshly drawn sub-session key.
    pub fn start_schnorr_signing_session(
        &mut self,
        session_id: SessionId,
        message_hash: H256,
        version: Option<H256>,
        net: &Connectivity,
    ) -> (r: Result<VersionedStart, Error>)
        requires
            old(self).wf(),
            net.valid(),
        ensures
            final(self).wf(),
            final(self).changed_only(old(self), false, false, false, true, false, true, false),
            net.view_error(false) matches Some(e) ==> r == Err::<VersionedStart, Error>(e),
            net.view_error(false) is None && (forall|k: KeyView| #[trigger] old(self).schnorr_signing_sessions.keys().contains(k)
                ==> k.0 != session_id@) && (version is None ==> forall|k: KeyView|
                #[trigger] old(self).negotiation_sessions.keys().contains(k) ==> k.0 != session_id@) ==> r is Ok,
            r matches Ok(st) ==> st.key@.0 == session_id@ && final(self).schnorr_signing_sessions.keys() == old(
                self,
            ).schnorr_signing_sessions.keys().insert(st.key@) && st.view.snapshot() == net.members(old(self).self_node)
                && (st.negotiation is Some <==> version is None),
            r is Err ==> final(self).schnorr_signing_sessions.keys() == old(self).schnorr_signing_sessions.keys()
                && final(self).negotiation_sessions.keys() == old(self).negotiation_sessions.keys(),
    {
        let access_key = fresh_sub_session_key();
        let negotiation_key = fresh_sub_session_key();
        self.new_schnorr_signing_session(session_id, access_key, negotiation_key, message_hash, version, net)
    }

    /// Registers a ECDSA signing session and, where no version is given, its
    /// key-version negotiation, each under a freshly drawn sub-session key.
    pub fn start_ecdsa_signing_session(
        &mut self,
        session_id: SessionId,
        message_hash: H256,
        version: Option<H256>,
        net: &Connectivity,
    ) -> (r: Result<VersionedStart, Error>)
        requires
            old(self).wf(),
            net.valid(),
        ensures
            final(self).wf(),
            final(self).changed_only(old(self), false, false, false, false, true, true, false),
            net.view_error(false) matches Some(e) ==> r == Err::<VersionedStart, Error>(e),
            net.view_error(false) is None && (forall|k: KeyView| #[trigger] old(self).ecdsa_signing_sessions.keys().contains(k)
                ==> k.0 != session_id@) && (version is None ==> forall|k: KeyView|
                #[trigger] old(self).negotiation_sessions.keys().contains(k) ==> k.0 != session_id@) ==> r is Ok,
            r matches Ok(st) ==> st.key@.0 == session_id@ && final(self).ecdsa_signing_sessions.keys() == old(
                self,
            ).ecdsa_signing_sessions.keys().insert(st.key@) && st.view.snapshot() == net.members(old(self).self_node)
                && (st.negotiation is Some <==> version is None),
            r is Err ==> final(self).ecdsa_signing_sessions.keys() == old(self).ecdsa_signing_sessions.keys()
                && final(self).negotiation_sessions.keys() == old(self).negotiation_sessions.keys(),
    {
        let access_key = fresh_sub_session_key();
        let negotiation_key = fresh_sub_session_key();
        self.new_ecdsa_signing_session(session_id, access_key, negotiation_key, message_hash, version, net)
    }

    /// Registers a key-version negotiation under a freshly drawn sub-session
    /// key.
    pub fn start_key_version_negotiation_session(&mut self, session_id: SessionId, net: &Connectivity)
        -> (r: Result<NegotiationStart, Error>)
        requires
            old(self).wf(),
            net.valid(),
        ensures
            final(self).wf(),
            final(self).changed_only(old(self), false, false, false, false, false, true, false),
            net.view_error(false) matches Some(e) ==> r == Err::<NegotiationStart, Error>(e),
            net.view_error(false) is None && (forall|k: KeyView| #[trigger] old(self).negotiation_sessions.keys().contains(k)
                ==> k.0 != session_id@) ==> r is Ok,
            r matches Ok(n) ==> n.key@.0 == session_id@ && final(self).negotiation_sessions.keys() == old(
                self,
            ).negotiation_sessions.keys().insert(n.key@) && n.slot.action() is None,
            r is Err ==> final(self).negotiation_sessions.keys() == old(self).negotiation_sessions.keys(),
    {
        let access_key = fresh_sub_session_key();
        self.new_key_version_negotiation_session(session_id, access_key, net)
    }
}

} // verus!
