//! The values that travel between nodes.
use vstd::prelude::*;
use vstd::std_specs::convert::FromSpec;

verus! {

/// A 256-bit identifier of a node or of a stored value, as two halves of its
/// big-endian number.
#[derive(Clone, Copy, Debug, PartialEq, Eq, Structural)]
pub struct HashId {
    pub hi: u128,
    pub lo: u128,
}

impl HashId {
    /// The identifier as a number.
    pub open spec fn value(self) -> nat {
        (self.hi as nat) * 0x1_0000_0000_0000_0000_0000_0000_0000_0000nat + (self.lo as nat)
    }

    /// Whether this identifier is the smaller number of the two.
    pub fn is_below(&self, other: &HashId) -> (res: bool)
        ensures
            res == (self.value() < other.value()),
            res == (self.hi < other.hi || (self.hi == other.hi && self.lo < other.lo)),
    {
        self.hi < other.hi || (self.hi == other.hi && self.lo < other.lo)
    }

    /// Two identifiers with the same number are the same identifier.
    pub proof fn value_is_injective(a: HashId, b: HashId)
        requires
            a.value() == b.value(),
        ensures
            a == b,
    {
    }

    /// Identifiers are ordered by their high halves, and by their low halves only
    /// where the high ones are the same.
    pub proof fn high_half_decides(a: HashId, b: HashId)
        ensures
            a.value() < b.value() <==> a.hi < b.hi || (a.hi == b.hi && a.lo < b.lo),
            a.value() == b.value() <==> a.hi == b.hi && a.lo == b.lo,
    {
    }

    /// The identifier made of a number is that number, whose high half is zero.
    pub proof fn identifier_of_a_number_is_the_number(low: u128)
        ensures
            <HashId as FromSpec<u128>>::from_spec(low).hi == 0,
            <HashId as FromSpec<u128>>::from_spec(low).lo == low,
            <HashId as FromSpec<u128>>::from_spec(low).value() == low,
    {
    }
}

impl From<u128> for HashId {
    fn from(low: u128) -> (res: HashId) {
        HashId { hi: 0, lo: low }
    }
}

impl vstd::std_specs::convert::FromSpecImpl<u128> for HashId {
    open spec fn obeys_from_spec() -> bool {
        true
    }

    open spec fn from_spec(low: u128) -> HashId {
        HashId { hi: 0, lo: low }
    }
}

/// An internet address.
#[derive(Clone, Copy, Debug, PartialEq, Eq, Structural)]
pub enum IpAddr {
    V4(u32),
    V6(u128),
}

/// Where a node can be reached: an internet address and a port.
#[derive(Clone, Copy, Debug, PartialEq, Eq, Structural)]
pub struct Addr(pub IpAddr, pub u16);

/// A node together with one of its addresses.
#[derive(Clone, Copy, Debug, PartialEq, Eq, Structural)]
pub struct SinglePeer {
    pub id: HashId,
    pub addr: Addr,
}

impl SinglePeer {
    pub fn new(id: HashId, addr: Addr) -> (res: SinglePeer)
        ensures
            res == (SinglePeer { id, addr }),
    {
        SinglePeer { id, addr }
    }
}

/// A node together with every address it is known under, the preferred one
/// first, each with the number that the routing table keeps beside it.
#[derive(Clone, Debug)]
pub struct Peer {
    pub id: HashId,
    pub addresses: Vec<(Addr, usize)>,
}

impl Peer {
    /// The addresses alone, in order.
    pub open spec fn addrs(self) -> Seq<Addr> {
        self.addresses@.map_values(|a: (Addr, usize)| a.0)
    }

    pub fn new(id: HashId, addr: Addr) -> (res: Peer)
        ensures
            res.id == id,
            res.addresses@ == seq![(addr, 0usize)],
    {
        Peer { id, addresses: vec![(addr, 0usize)] }
    }

    /// The addresses alone are as many as the peer is known under, each one whole
    /// and in its place.
    pub proof fn addresses_stand_in_their_places(peer: Peer)
        ensures
            peer.addrs().len() == peer.addresses@.len(),
            forall|i: int|
                0 <= i < peer.addresses@.len() ==> #[trigger] peer.addrs()[i]
                    == peer.addresses@[i].0,
    {
    }
}

/// What a request asks for. `E` is the type of a stored entry, which this
/// layer hands on as it is.
#[derive(Clone, Debug)]
pub enum RpcOp<E> {
    GetAddresses(HashId),
    Store(HashId, Box<E>),
    FindNode(HashId),
    FindValue(HashId),
}

/// A request: who asks, what for, from where and when.
#[derive(Clone, Debug)]
pub struct RpcContext<E> {
    pub id: HashId,
    pub op: RpcOp<E>,
    pub addr: Addr,
    pub timestamp: u64,
}

impl<E> RpcContext<E> {
    pub fn new(id: HashId, op: RpcOp<E>, addr: Addr, timestamp: u64) -> (res: RpcContext<E>)
        ensures
            res == (RpcContext { id, op, addr, timestamp }),
    {
        RpcContext { id, op, addr, timestamp }
    }

    /// The request with the signature `sign`.
    pub fn signed(self, sign: String) -> (res: RpcArgs<E>)
        ensures
            res == (self, sign),
    {
        (self, sign)
    }
}

/// What a lookup of a value found: the entry itself, or nodes that are closer
/// to it.
#[derive(Clone, Debug)]
pub enum FindValueResult<E> {
    Value(Box<E>),
    Nodes(Vec<SinglePeer>),
}

/// The answer to a request.
#[derive(Clone, Debug)]
pub enum RpcResult<E> {
    Key(String),
    Ping,
    GetAddresses(Option<Vec<Addr>>),
    Store,
    FindNode(Vec<SinglePeer>),
    FindValue(Box<FindValueResult<E>>),
    Bad,
}

impl<E> RpcResult<E> {
    /// The answer with the context `ctx` and the signature `sign`.
    pub fn signed(self, ctx: ReplyContext, sign: String) -> (res: RpcResults<E>)
        ensures
            res == (self, ctx, sign),
    {
        (self, ctx, sign)
    }
}

/// Who answers a request, from where and when.
#[derive(Clone, Copy, Debug, PartialEq, Eq, Structural)]
pub struct ReplyContext {
    pub id: HashId,
    pub addr: Addr,
    pub timestamp: u64,
}

/// A request with the signature of the node that makes it.
pub type RpcArgs<E> = (RpcContext<E>, String);

/// An answer with its context and the signature of the node that gives it.
pub type RpcResults<E> = (RpcResult<E>, ReplyContext, String);

} // verus!
