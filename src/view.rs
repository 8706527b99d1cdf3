use vstd::prelude::*;
use crate::error::Error;
use crate::ids::NodeId;

verus! {

/// The identifiers that a list of nodes holds.
pub open spec fn node_set(s: Seq<NodeId>) -> Set<Seq<u8>> {
    Set::new(|v: Seq<u8>| exists|i: int| 0 <= i < s.len() && s[i]@ == v)
}

/// No identifier stands twice in the list.
pub open spec fn distinct_nodes(s: Seq<NodeId>) -> bool {
    forall|i: int, j: int| 0 <= i < s.len() && 0 <= j < s.len() && i != j ==> s[i]@ != s[j]@
}

/// Whether `n` stands in `v`.
pub fn contains_node(v: &Vec<NodeId>, n: &NodeId) -> (r: bool)
    ensures
        r == node_set(v@).contains(n@),
{
    let mut i: usize = 0;
    while i < v.len()
        invariant
            0 <= i <= v@.len(),
            forall|j: int| 0 <= j < i ==> v@[j]@ != n@,
        decreases v.len() - i,
    {
        if v[i].same(n) {
            return true;
        }
        i = i + 1;
    }
    false
}

/// Communication capability of one session over the membership frozen when
/// the session was created.
pub trait Cluster {
    /// The nodes of the frozen membership.
    spec fn snapshot(&self) -> Set<Seq<u8>>;

    /// This node.
    spec fn self_node(&self) -> Seq<u8>;

    /// Count of configured nodes when the view was taken.
    spec fn configured(&self) -> nat;

    /// Recipients of a broadcast, given the nodes the transport can reach
    /// now: every member but this node, or `NodeDisconnected` where one of
    /// them cannot be reached.
    fn broadcast(&self, reachable: &Vec<NodeId>) -> (r: Result<Vec<NodeId>, Error>)
        ensures
            (forall|n: Seq<u8>| self.snapshot().contains(n) && n != self.self_node()
                ==> node_set(reachable@).contains(n)) <==> r is Ok,
            r is Err ==> r == Err::<Vec<NodeId>, Error>(Error::NodeDisconnected),
            r matches Ok(to) ==> node_set(to@) == self.snapshot().remove(self.self_node()) && distinct_nodes(to@),
    ;

    /// Whether a message can go to `to`, given the nodes the transport can
    /// reach now.
    fn send(&self, to: &NodeId, reachable: &Vec<NodeId>) -> (r: Result<(), Error>)
        ensures
            r is Ok <==> node_set(reachable@).contains(to@),
            r is Err ==> r == Err::<(), Error>(Error::NodeDisconnected),
    ;

    /// Whether `node` is a member.
    fn is_connected(&self, node: &NodeId) -> (r: bool)
        ensures
            r == self.snapshot().contains(node@),
    ;

    /// The members.
    fn nodes(&self) -> (r: Vec<NodeId>)
        ensures
            node_set(r@) == self.snapshot(),
            distinct_nodes(r@),
    ;

    /// Count of nodes configured when the view was taken.
    fn configured_nodes_count(&self) -> (r: usize)
        ensures
            r == self.configured(),
    ;

    /// Count of members.
    fn connected_nodes_count(&self) -> (r: usize)
        ensures
            r == self.snapshot().len(),
    ;
}

/// A session's view of the cluster.
pub struct ClusterView {
    self_node: NodeId,
    connected_nodes: Vec<NodeId>,
    configured_nodes_count: usize,
}

impl ClusterView {
    #[verifier::type_invariant]
    spec fn members_distinct(&self) -> bool {
        distinct_nodes(self.connected_nodes@)
    }

    /// A view over `nodes`, frozen from now on.
    pub fn new(self_node: NodeId, nodes: Vec<NodeId>, configured_nodes_count: usize) -> (r: ClusterView)
        requires
            distinct_nodes(nodes@),
        ensures
            r.snapshot() == node_set(nodes@),
            r.self_node() == self_node@,
            r.configured() == configured_nodes_count,
    {
        ClusterView { self_node, connected_nodes: nodes, configured_nodes_count }
    }
}

proof fn lemma_node_set_push(s: Seq<NodeId>, x: NodeId)
    ensures
        node_set(s.push(x)) == node_set(s).insert(x@),
{
    let t = s.push(x);
    assert forall|v: Seq<u8>| node_set(t).contains(v) <==> node_set(s).insert(x@).contains(v) by {
        if node_set(t).contains(v) {
            let k = choose|k: int| 0 <= k < t.len() && t[k]@ == v;
            if k < s.len() {
                assert(t[k] == s[k]);
            }
        }
        if node_set(s).contains(v) {
            let k = choose|k: int| 0 <= k < s.len() && s[k]@ == v;
            assert(t[k] == s[k]);
        }
        if v == x@ {
            assert(t[s.len() as int] == x);
        }
    }
    assert(node_set(t) =~= node_set(s).insert(x@));
}

proof fn lemma_distinct_len(s: Seq<NodeId>)
    requires
        distinct_nodes(s),
    ensures
        node_set(s).finite(),
        node_set(s).len() == s.len(),
    decreases s.len(),
{
    if s.len() == 0 {
        assert(node_set(s) =~= Set::empty());
    } else {
        let t = s.drop_last();
        lemma_distinct_len(t);
        assert(s =~= t.push(s.last()));
        lemma_node_set_push(t, s.last());
        assert(node_set(s) =~= node_set(t).insert(s.last()@));
        if node_set(t).contains(s.last()@) {
            let k = choose|k: int| 0 <= k < t.len() && t[k]@ == s.last()@;
            assert(s[k] == t[k]);
        }
        assert(!node_set(t).contains(s.last()@));
    }
}

impl Cluster for ClusterView {
    closed spec fn snapshot(&self) -> Set<Seq<u8>> {
        node_set(self.connected_nodes@)
    }

    closed spec fn self_node(&self) -> Seq<u8> {
        self.self_node@
    }

    closed spec fn configured(&self) -> nat {
        self.configured_nodes_count as nat
    }

    fn broadcast(&self, reachable: &Vec<NodeId>) -> (r: Result<Vec<NodeId>, Error>) {
        proof {
            use_type_invariant(self);
        }
        let mut to: Vec<NodeId> = Vec::new();
        let mut i: usize = 0;
        assert(node_set(to@) =~= node_set(self.connected_nodes@.take(0)).remove(self.self_node@));
        while i < self.connected_nodes.len()
            invariant
                0 <= i <= self.connected_nodes@.len(),
                node_set(to@) == node_set(self.connected_nodes@.take(i as int)).remove(self.self_node@),
                distinct_nodes(to@),
                distinct_nodes(self.connected_nodes@),
                forall|j: int| 0 <= j < i && self.connected_nodes@[j]@ != self.self_node@
                    ==> node_set(reachable@).contains(self.connected_nodes@[j]@),
            decreases self.connected_nodes.len() - i,
        {
            let node = self.connected_nodes[i];
            proof {
                assert(self.connected_nodes@.take(i + 1) =~= self.connected_nodes@.take(i as int).push(node));
                lemma_node_set_push(self.connected_nodes@.take(i as int), node);
            }
            if !node.same(&self.self_node) {
                if !contains_node(reachable, &node) {
                    assert(self.connected_nodes@[i as int] == node);
                    assert(node_set(self.connected_nodes@).contains(node@));
                    assert(!(self.snapshot().contains(node@) && node@ != self.self_node@
                        ==> node_set(reachable@).contains(node@)));
                    return Err(Error::NodeDisconnected);
                }
                proof {
                    lemma_node_set_push(to@, node);
                    if node_set(self.connected_nodes@.take(i as int)).contains(node@) {
                        let k = choose|k: int| 0 <= k < i && self.connected_nodes@.take(i as int)[k]@ == node@;
                        assert(self.connected_nodes@[k]@ == self.connected_nodes@[i as int]@);
                    }
                    assert(!node_set(to@).contains(node@));
                }
                let ghost before = to@;
                to.push(node);
                assert forall|a: int, b: int| 0 <= a < to@.len() && 0 <= b < to@.len() && a != b
                    implies to@[a]@ != to@[b]@ by {
                    if a == before.len() {
                        assert(node_set(before).contains(to@[b]@));
                    }
                    if b == before.len() {
                        assert(node_set(before).contains(to@[a]@));
                    }
                }
                assert(node_set(to@) =~= node_set(self.connected_nodes@.take(i + 1)).remove(self.self_node@));
            } else {
                assert(node_set(to@) =~= node_set(self.connected_nodes@.take(i + 1)).remove(self.self_node@));
            }
            i = i + 1;
        }
        assert(self.connected_nodes@.take(i as int) =~= self.connected_nodes@);
        assert forall|n: Seq<u8>| self.snapshot().contains(n) && n != self.self_node()
            implies node_set(reachable@).contains(n) by {
            let k = choose|k: int| 0 <= k < self.connected_nodes@.len() && self.connected_nodes@[k]@ == n;
        }
        Ok(to)
    }

    fn send(&self, to: &NodeId, reachable: &Vec<NodeId>) -> (r: Result<(), Error>) {
        if contains_node(reachable, to) {
            Ok(())
        } else {
            Err(Error::NodeDisconnected)
        }
    }

    fn is_connected(&self, node: &NodeId) -> (r: bool) {
        contains_node(&self.connected_nodes, node)
    }

    fn nodes(&self) -> (r: Vec<NodeId>) {
        proof { use_type_invariant(self); }
        self.connected_nodes.clone()
    }

    fn configured_nodes_count(&self) -> (r: usize) {
        self.configured_nodes_count
    }

    fn connected_nodes_count(&self) -> (r: usize) {
        proof {
            use_type_invariant(self);
            lemma_distinct_len(self.connected_nodes@);
        }
        self.connected_nodes.len()
    }
}

} // verus!

verus! {

/// Takes a session's view: the nodes the transport reports connected, with
/// this node added. Where the session needs every configured node and some
/// are disconnected, fails with `NodeDisconnected`.
pub fn create_cluster_view(
    self_node: NodeId,
    connected: Result<Vec<NodeId>, Error>,
    disconnected_count: usize,
    requires_all_connections: bool,
) -> (r: Result<ClusterView, Error>)
    requires
        connected matches Ok(c) ==> distinct_nodes(c@) && c@.len() + 1 + disconnected_count
            <= usize::MAX,
    ensures
        connected matches Err(e) ==> r == Err::<ClusterView, Error>(e),
        connected is Ok && requires_all_connections && disconnected_count > 0 ==> r == Err::<
            ClusterView,
            Error,
        >(Error::NodeDisconnected),
        connected is Ok && !(requires_all_connections && disconnected_count > 0) ==> r is Ok,
        r matches Ok(v) ==> connected matches Ok(c) && v.snapshot() == node_set(c@).insert(self_node@)
            && v.self_node() == self_node@ && v.configured() == v.snapshot().len()
            + disconnected_count,
{
    let mut nodes = match connected {
        Ok(c) => c,
        Err(e) => return Err(e),
    };
    if requires_all_connections && disconnected_count != 0 {
        return Err(Error::NodeDisconnected);
    }
    let ghost before = nodes@;
    if !contains_node(&nodes, &self_node) {
        nodes.push(self_node);
        proof {
            lemma_node_set_push(before, self_node);
            assert forall|i: int, j: int| 0 <= i < nodes@.len() && 0 <= j < nodes@.len() && i != j
                implies nodes@[i]@ != nodes@[j]@ by {
                if i == before.len() {
                    assert(node_set(before).contains(nodes@[j]@));
                }
                if j == before.len() {
                    assert(node_set(before).contains(nodes@[i]@));
                }
            }
        }
    } else {
        assert(node_set(before).insert(self_node@) =~= node_set(before));
    }
    proof {
        lemma_distinct_len(nodes@);
    }
    let count = nodes.len() + disconnected_count;
    Ok(ClusterView::new(self_node, nodes, count))
}

} // verus!
