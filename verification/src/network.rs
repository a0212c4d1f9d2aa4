//! How nodes reach each other: which address of a peer is tried, and how
//! requests and answers of both sides share one connection.
use vstd::prelude::*;
use vstd::std_specs::convert::FromSpec;

use crate::util::{Addr, HashId, Peer, SinglePeer};

verus! {

/// How long one address is tried, in seconds.
pub const TIMEOUT: u64 = 30;

/// How many incoming connections are served at a time.
pub const MAX_CONNECTIONS: usize = 10;

/// A message on a connection that carries requests and answers both ways.
#[derive(Debug)]
pub enum RpcMessage<Req, Resp> {
    Request(Req),
    Response(Resp),
}

/// What went wrong with a channel inside the node.
#[derive(Clone, Debug)]
pub struct ChannelError(pub String);

/// What went wrong with a connection.
#[derive(Clone, Debug)]
pub struct IoError(pub String);

/// What ended the exchange over a connection.
#[derive(Clone, Debug)]
pub enum RpcError {
    ChannelError(ChannelError),
    IOError(IoError),
}

impl RpcError {
    /// What went wrong, in words.
    pub fn message(&self) -> (res: &str)
        ensures
            res@ == match self {
                RpcError::ChannelError(e) => e.0@,
                RpcError::IOError(e) => e.0@,
            },
    {
        match self {
            RpcError::ChannelError(e) => e.0.as_str(),
            RpcError::IOError(e) => e.0.as_str(),
        }
    }
}

impl From<ChannelError> for RpcError {
    fn from(e: ChannelError) -> (res: RpcError) {
        RpcError::ChannelError(e)
    }
}

impl vstd::std_specs::convert::FromSpecImpl<ChannelError> for RpcError {
    open spec fn obeys_from_spec() -> bool {
        true
    }

    open spec fn from_spec(e: ChannelError) -> RpcError {
        RpcError::ChannelError(e)
    }
}

impl From<IoError> for RpcError {
    fn from(e: IoError) -> (res: RpcError) {
        RpcError::IOError(e)
    }
}

impl vstd::std_specs::convert::FromSpecImpl<IoError> for RpcError {
    open spec fn obeys_from_spec() -> bool {
        true
    }

    open spec fn from_spec(e: IoError) -> RpcError {
        RpcError::IOError(e)
    }
}

/// What is done with what a connection gave.
pub enum Inbound<Req, Resp> {
    /// The request goes to this node's server.
    ToServer(Req),
    /// The answer goes to this node's client.
    ToClient(Resp),
    /// The exchange is over, in both directions.
    Stop(Result<(), RpcError>),
}

/// What is done with `item`, the next thing that a connection gave: nothing
/// where the other side closed it, an error, or a message.
pub open spec fn routed<Req, Resp>(
    item: Option<Result<RpcMessage<Req, Resp>, IoError>>,
) -> Inbound<Req, Resp> {
    match item {
        None => Inbound::Stop(Ok(())),
        Some(Err(e)) => Inbound::Stop(Err(RpcError::IOError(e))),
        Some(Ok(RpcMessage::Request(req))) => Inbound::ToServer(req),
        Some(Ok(RpcMessage::Response(resp))) => Inbound::ToClient(resp),
    }
}

/// Decides what is done with the next thing that a connection gave.
pub fn receive<Req, Resp>(item: Option<Result<RpcMessage<Req, Resp>, IoError>>) -> (res: Inbound<
    Req,
    Resp,
>)
    ensures
        res == routed(item),
{
    match item {
        None => Inbound::Stop(Ok(())),
        Some(Ok(RpcMessage::Request(req))) => Inbound::ToServer(req),
        Some(Ok(RpcMessage::Response(resp))) => Inbound::ToClient(resp),
        Some(Err(e)) => Inbound::Stop(Err(RpcError::from(e))),
    }
}

/// How the exchange goes on after a message was handed to the server or the
/// client: it is over where it could not be.
pub open spec fn after_delivery(sent: Result<(), ChannelError>) -> Result<(), RpcError> {
    match sent {
        Ok(()) => Ok(()),
        Err(e) => Err(RpcError::ChannelError(e)),
    }
}

/// Goes on after a message was handed to the server or the client.
pub fn delivered(sent: Result<(), ChannelError>) -> (res: Result<(), RpcError>)
    ensures
        res == after_delivery(sent),
{
    match sent {
        Ok(()) => Ok(()),
        Err(e) => Err(RpcError::from(e)),
    }
}

/// The message that carries an answer of this node's server.
pub fn send_response<Req, Resp>(resp: Resp) -> (res: RpcMessage<Req, Resp>)
    ensures
        res == RpcMessage::<Req, Resp>::Response(resp),
{
    RpcMessage::Response(resp)
}

/// The message that carries a request of this node's client.
pub fn send_request<Req, Resp>(req: Req) -> (res: RpcMessage<Req, Resp>)
    ensures
        res == RpcMessage::<Req, Resp>::Request(req),
{
    RpcMessage::Request(req)
}

/// What the server and the client take, in order, of what a connection gives
/// until it is closed, and how the exchange ends. With each thing that the
/// connection gives stands whether the side that it is handed to takes it.
pub open spec fn forwarded<Req, Resp>(
    items: Seq<(Result<RpcMessage<Req, Resp>, IoError>, Result<(), ChannelError>)>,
) -> (Seq<Req>, Seq<Resp>, Result<(), RpcError>)
    decreases items.len(),
{
    if items.len() == 0 {
        (seq![], seq![], Ok(()))
    } else {
        let rest = forwarded(items.drop_first());
        match (routed(Some(items[0].0)), after_delivery(items[0].1)) {
            (Inbound::Stop(end), _) => (seq![], seq![], end),
            (_, Err(e)) => (seq![], seq![], Err(e)),
            (Inbound::ToServer(req), Ok(())) => (seq![req] + rest.0, rest.1, rest.2),
            (Inbound::ToClient(resp), Ok(())) => (rest.0, seq![resp] + rest.1, rest.2),
        }
    }
}

/// Whether every item is a message that was taken.
pub open spec fn all_taken<Req, Resp>(
    items: Seq<(Result<RpcMessage<Req, Resp>, IoError>, Result<(), ChannelError>)>,
) -> bool {
    forall|i: int| 0 <= i < items.len() ==> (#[trigger] items[i]).0 is Ok && items[i].1 is Ok
}

/// A request that one node's client sends comes to the other node's server, and
/// an answer of its server to the other node's client.
pub proof fn messages_reach_their_side<Req, Resp>(req: Req, resp: Resp)
    ensures
        routed(Some(Ok::<_, IoError>(RpcMessage::<Req, Resp>::Request(req)))) == Inbound::<
            Req,
            Resp,
        >::ToServer(req),
        routed(Some(Ok::<_, IoError>(RpcMessage::<Req, Resp>::Response(resp)))) == Inbound::<
            Req,
            Resp,
        >::ToClient(resp),
{
}

/// While a connection gives messages and they are taken, each is handed on
/// exactly once and in order: adding a request or an answer at the end adds it to
/// what the server or the client takes, and changes nothing else.
pub proof fn messages_are_forwarded_in_order<Req, Resp>(
    items: Seq<(Result<RpcMessage<Req, Resp>, IoError>, Result<(), ChannelError>)>,
    message: RpcMessage<Req, Resp>,
)
    requires
        all_taken(items),
    ensures
        forwarded(items).2 == Ok::<(), RpcError>(()),
        forwarded(items).0.len() + forwarded(items).1.len() == items.len(),
        forwarded(items.push((Ok(message), Ok(())))) == match message {
            RpcMessage::Request(req) => (
                forwarded(items).0.push(req),
                forwarded(items).1,
                Ok::<(), RpcError>(()),
            ),
            RpcMessage::Response(resp) => (
                forwarded(items).0,
                forwarded(items).1.push(resp),
                Ok::<(), RpcError>(()),
            ),
        },
    decreases items.len(),
{
    reveal_with_fuel(forwarded, 2);
    let longer = items.push((Ok(message), Ok(())));
    if items.len() == 0 {
        assert(longer.drop_first() =~= items);
    } else {
        let rest = items.drop_first();
        assert(all_taken(rest));
        messages_are_forwarded_in_order(rest, message);
        assert(longer.drop_first() =~= rest.push((Ok(message), Ok(()))));
        assert(items[0].0 is Ok);
    }
    assert(forwarded(longer).0 =~= match message {
        RpcMessage::Request(req) => forwarded(items).0.push(req),
        RpcMessage::Response(_) => forwarded(items).0,
    });
    assert(forwarded(longer).1 =~= match message {
        RpcMessage::Request(_) => forwarded(items).1,
        RpcMessage::Response(resp) => forwarded(items).1.push(resp),
    });
}

/// An error of the connection ends the exchange with that error: what came
/// before it is handed on, what comes after it is not.
pub proof fn error_ends_the_exchange<Req, Resp>(
    before: Seq<(Result<RpcMessage<Req, Resp>, IoError>, Result<(), ChannelError>)>,
    error: IoError,
    sent: Result<(), ChannelError>,
    after: Seq<(Result<RpcMessage<Req, Resp>, IoError>, Result<(), ChannelError>)>,
)
    requires
        all_taken(before),
    ensures
        forwarded(before.push((Err(error), sent)) + after) == (
            forwarded(before).0,
            forwarded(before).1,
            Err::<(), RpcError>(RpcError::IOError(error)),
        ),
    decreases before.len(),
{
    reveal_with_fuel(forwarded, 2);
    let all = before.push((Err(error), sent)) + after;
    if before.len() > 0 {
        let rest = before.drop_first();
        assert(all_taken(rest));
        error_ends_the_exchange(rest, error, sent, after);
        assert(all.drop_first() =~= rest.push((Err(error), sent)) + after);
        assert(all[0] == before[0] && before[0].0 is Ok);
    }
}

/// A message that the server or the client does not take ends the exchange with
/// the error of its channel: what came before it has been handed on, and neither
/// the message nor what comes after it is.
pub proof fn failed_delivery_ends_the_exchange<Req, Resp>(
    before: Seq<(Result<RpcMessage<Req, Resp>, IoError>, Result<(), ChannelError>)>,
    message: RpcMessage<Req, Resp>,
    error: ChannelError,
    after: Seq<(Result<RpcMessage<Req, Resp>, IoError>, Result<(), ChannelError>)>,
)
    requires
        all_taken(before),
    ensures
        forwarded(before.push((Ok(message), Err(error))) + after) == (
            forwarded(before).0,
            forwarded(before).1,
            Err::<(), RpcError>(RpcError::ChannelError(error)),
        ),
    decreases before.len(),
{
    reveal_with_fuel(forwarded, 2);
    let all = before.push((Ok(message), Err(error))) + after;
    if before.len() > 0 {
        let rest = before.drop_first();
        assert(all_taken(rest));
        failed_delivery_ends_the_exchange(rest, message, error, after);
        assert(all.drop_first() =~= rest.push((Ok(message), Err(error))) + after);
        assert(all[0] == before[0] && before[0].0 is Ok);
    }
}

/// A peer whose addresses are tried one after the other.
pub struct Dial {
    peer: Peer,
    at: usize,
}

impl Dial {
    #[verifier::type_invariant]
    spec fn inv(self) -> bool {
        self.at < self.peer.addresses@.len()
    }

    /// The identifier of the peer.
    pub closed spec fn id(self) -> HashId {
        self.peer.id
    }

    /// The addresses of the peer.
    pub closed spec fn addrs(self) -> Seq<Addr> {
        self.peer.addrs()
    }

    /// The position of the address that is tried.
    pub closed spec fn position(self) -> int {
        self.at as int
    }

    /// Starts with the first address of `peer`.
    pub fn connect_peer(peer: Peer) -> (res: Dial)
        requires
            peer.addresses@.len() > 0,
        ensures
            res.id() == peer.id,
            res.addrs() == peer.addrs(),
            res.addrs().len() == peer.addresses@.len(),
            forall|i: int|
                0 <= i < peer.addresses@.len() ==> #[trigger] res.addrs()[i]
                    == peer.addresses@[i].0,
            res.position() == 0,
    {
        Dial { peer, at: 0 }
    }

    /// The address that is tried.
    pub fn addr(&self) -> (res: Addr)
        ensures
            0 <= self.position() < self.addrs().len(),
            res == self.addrs()[self.position()],
    {
        proof {
            use_type_invariant(self);
        }
        self.peer.addresses[self.at].0
    }

    /// Ends with the address that was tried, which can be reached.
    pub fn connected(self) -> (res: SinglePeer)
        ensures
            res == (SinglePeer { id: self.id(), addr: self.addrs()[self.position()] }),
            forall|reachable: Set<int>|
                reachable.contains(self.position()) ==> #[trigger] dialled(
                    self.addrs(),
                    self.position(),
                    reachable,
                ) == Ok::<Addr, Addr>(res.addr),
    {
        proof {
            use_type_invariant(&self);
        }
        SinglePeer { id: self.peer.id, addr: self.peer.addresses[self.at].0 }
    }

    /// Goes on to the next address, as the one that was tried cannot be reached,
    /// or gives up with that one where it was the last.
    pub fn failed(self) -> (res: Result<Dial, SinglePeer>)
        ensures
            res is Ok <==> self.position() + 1 < self.addrs().len(),
            res matches Ok(next) ==> next.id() == self.id() && next.addrs() == self.addrs()
                && next.position() == self.position() + 1,
            res matches Err(last) ==> last == (SinglePeer {
                id: self.id(),
                addr: self.addrs()[self.position()],
            }),
            forall|reachable: Set<int>|
                !reachable.contains(self.position()) ==> #[trigger] dialled(
                    self.addrs(),
                    self.position(),
                    reachable,
                ) == match res {
                    Ok(next) => dialled(next.addrs(), next.position(), reachable),
                    Err(last) => Err::<Addr, Addr>(last.addr),
                },
    {
        proof {
            use_type_invariant(&self);
        }
        let last: usize = self.peer.addresses.len() - 1;
        if self.at < last {
            Ok(Dial { peer: self.peer, at: self.at + 1 })
        } else {
            Err(SinglePeer { id: self.peer.id, addr: self.peer.addresses[self.at].0 })
        }
    }
}

/// How trying `addrs` from position `at` on ends, where exactly the positions in
/// `reachable` can be reached.
pub open spec fn dialled(addrs: Seq<Addr>, at: int, reachable: Set<int>) -> Result<Addr, Addr>
    decreases addrs.len() - at,
{
    if reachable.contains(at) {
        Ok(addrs[at])
    } else if at + 1 < addrs.len() {
        dialled(addrs, at + 1, reachable)
    } else {
        Err(addrs[at])
    }
}

/// The first address that can be reached is the one that is connected to.
pub proof fn first_reachable_address_is_taken(
    addrs: Seq<Addr>,
    at: int,
    first: int,
    reachable: Set<int>,
)
    requires
        0 <= at <= first < addrs.len(),
        reachable.contains(first),
        forall|i: int| at <= i < first ==> !reachable.contains(i),
    ensures
        dialled(addrs, at, reachable) == Ok::<Addr, Addr>(addrs[first]),
    decreases first - at,
{
    if at < first {
        first_reachable_address_is_taken(addrs, at + 1, first, reachable);
    }
}

/// A peer of which no address can be reached is given up with its last address.
pub proof fn unreachable_peer_is_given_up(addrs: Seq<Addr>, at: int, reachable: Set<int>)
    requires
        0 <= at < addrs.len(),
        forall|i: int| at <= i < addrs.len() ==> !reachable.contains(i),
    ensures
        dialled(addrs, at, reachable) == Err::<Addr, Addr>(addrs.last()),
    decreases addrs.len() - at,
{
    if at + 1 < addrs.len() {
        unreachable_peer_is_given_up(addrs, at + 1, reachable);
    }
}

/// A closed connection ends the exchange without an error, a broken one with the
/// error that it gave.
pub proof fn connection_ends_as_it_says<Req, Resp>(e: IoError)
    ensures
        routed(None::<Result<RpcMessage<Req, Resp>, IoError>>) == Inbound::<Req, Resp>::Stop(Ok(())),
        routed(Some(Err::<RpcMessage<Req, Resp>, IoError>(e))) == Inbound::<Req, Resp>::Stop(
            Err(RpcError::IOError(e)),
        ),
{
}

/// The exchange goes on exactly while what is handed on is taken; otherwise it
/// ends with the error of the channel.
pub proof fn exchange_goes_on_while_messages_are_taken(sent: Result<(), ChannelError>)
    ensures
        after_delivery(sent) is Ok <==> sent is Ok,
        sent matches Err(e) ==> after_delivery(sent) == Err::<(), RpcError>(
            RpcError::ChannelError(e),
        ),
{
}

/// An error of a channel or of a connection stays as it is when it is taken for
/// the end of an exchange.
pub proof fn errors_are_kept_whole(channel: ChannelError, io: IoError)
    ensures
        <RpcError as FromSpec<ChannelError>>::from_spec(channel) == RpcError::ChannelError(channel),
        <RpcError as FromSpec<IoError>>::from_spec(io) == RpcError::IOError(io),
{
}

/// An address is tried for half a minute, and ten connections are served at a
/// time.
pub proof fn limits_of_the_network()
    ensures
        2 * TIMEOUT == 60,
        MAX_CONNECTIONS == 10,
{
}

} // verus!
