use vstd::prelude::*;

verus! {

/// Identifier of a session, chosen by its initiator.
#[derive(Clone, Copy, Debug)]
pub struct SessionId {
    pub bytes: [u8; 32],
}

/// Identifier of a node: its public key.
#[derive(Clone, Copy, Debug)]
pub struct NodeId {
    pub bytes: [u8; 64],
}

/// Fresh secret that tells apart the sub-sessions started on one key.
#[derive(Clone, Copy, Debug)]
pub struct SubSessionKey {
    pub bytes: [u8; 32],
}

impl View for SessionId {
    type V = Seq<u8>;

    open spec fn view(&self) -> Seq<u8> {
        self.bytes@
    }
}

impl View for NodeId {
    type V = Seq<u8>;

    open spec fn view(&self) -> Seq<u8> {
        self.bytes@
    }
}

impl View for SubSessionKey {
    type V = Seq<u8>;

    open spec fn view(&self) -> Seq<u8> {
        self.bytes@
    }
}

/// Byte-wise equality of two 32-byte strings.
fn same32(a: &[u8; 32], b: &[u8; 32]) -> (r: bool)
    ensures
        r == (a@ == b@),
{
    let mut i: usize = 0;
    while i < 32
        invariant
            0 <= i <= 32,
            a@.len() == 32,
            b@.len() == 32,
            forall|j: int| 0 <= j < i ==> a@[j] == b@[j],
        decreases 32 - i,
    {
        if a[i] != b[i] {
            return false;
        }
        i = i + 1;
    }
    assert(a@ =~= b@);
    true
}

impl SessionId {
    pub fn from_bytes(bytes: [u8; 32]) -> (r: SessionId)
        ensures
            r@ == bytes@,
    {
        SessionId { bytes }
    }

    /// Whether both identifiers hold the same bytes.
    pub fn same(&self, other: &SessionId) -> (r: bool)
        ensures
            r == (self@ == other@),
    {
        same32(&self.bytes, &other.bytes)
    }
}

impl SubSessionKey {
    pub fn from_bytes(bytes: [u8; 32]) -> (r: SubSessionKey)
        ensures
            r@ == bytes@,
    {
        SubSessionKey { bytes }
    }

    /// Whether both keys hold the same bytes.
    pub fn same(&self, other: &SubSessionKey) -> (r: bool)
        ensures
            r == (self@ == other@),
    {
        same32(&self.bytes, &other.bytes)
    }
}

impl NodeId {
    pub fn from_bytes(bytes: [u8; 64]) -> (r: NodeId)
        ensures
            r@ == bytes@,
    {
        NodeId { bytes }
    }

    /// Whether both identifiers hold the same bytes.
    pub fn same(&self, other: &NodeId) -> (r: bool)
        ensures
            r == (self@ == other@),
    {
        let mut i: usize = 0;
        while i < 64
            invariant
                0 <= i <= 64,
                self@.len() == 64,
                other@.len() == 64,
                forall|j: int| 0 <= j < i ==> self@[j] == other@[j],
            decreases 64 - i,
        {
            if self.bytes[i] != other.bytes[i] {
                return false;
            }
            i = i + 1;
        }
        assert(self@ =~= other@);
        true
    }
}

/// Key of a session in its registry: the session id, and for decryption,
/// signing and negotiation sessions the sub-session key beside it.
#[derive(Clone, Copy, Debug)]
pub struct SessionKey {
    pub id: SessionId,
    pub sub: Option<SubSessionKey>,
}

pub open spec fn sub_view(s: Option<SubSessionKey>) -> Option<Seq<u8>> {
    match s {
        Some(k) => Some(k@),
        None => None,
    }
}

impl View for SessionKey {
    type V = (Seq<u8>, Option<Seq<u8>>);

    open spec fn view(&self) -> (Seq<u8>, Option<Seq<u8>>) {
        (self.id@, sub_view(self.sub))
    }
}

impl SessionKey {
    /// Key of a session identified by its id alone.
    pub fn plain(id: SessionId) -> (r: SessionKey)
        ensures
            r@ == (id@, None::<Seq<u8>>),
    {
        SessionKey { id, sub: None }
    }

    /// Key of a session identified by an id and a sub-session key.
    pub fn compound(id: SessionId, sub: SubSessionKey) -> (r: SessionKey)
        ensures
            r@ == (id@, Some(sub@)),
    {
        SessionKey { id, sub: Some(sub) }
    }

    /// Whether both keys name the same session.
    pub fn same(&self, other: &SessionKey) -> (r: bool)
        ensures
            r == (self@ == other@),
    {
        if !self.id.same(&other.id) {
            return false;
        }
        match (&self.sub, &other.sub) {
            (Some(a), Some(b)) => a.same(b),
            (None, None) => true,
            _ => false,
        }
    }
}

} // verus!

verus! {

/// A 20-byte account address.
#[derive(Clone, Copy, Debug)]
pub struct Address {
    pub bytes: [u8; 20],
}

/// A 32-byte hash: a key version or a message digest.
#[derive(Clone, Copy, Debug)]
pub struct H256 {
    pub bytes: [u8; 32],
}

} // verus!

verus! {

/// A 64-byte public key or curve point.
#[derive(Clone, Copy, Debug)]
pub struct Public {
    pub bytes: [u8; 64],
}

} // verus!
