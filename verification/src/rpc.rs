//! What a node does for each request, one piece of work at a time.
//!
//! A request is answered by a chain of [`Step`]s. Each step names a piece of
//! work for the node, and carries what goes on with the outcome, until a step
//! is the answer.
use vstd::prelude::*;

use crate::crypto::{entered, entering_a_key_keeps_the_others, verdict, Crypto, Verdict};
use crate::keyring::Known;
use crate::keys::{accepts, pkcs1_public_key, pkcs1_public_pem, MAX_MODULUS_BYTES};
use crate::util::{
    Addr, FindValueResult, HashId, Peer, ReplyContext, RpcArgs, RpcOp, RpcResult, RpcResults,
    SinglePeer,
};

verus! {

/// The requests that are answered only once their sender is verified.
#[derive(Clone, Copy, Debug, PartialEq, Eq, Structural)]
pub enum Call {
    Store,
    FindNode,
    FindValue,
}

/// A request whose sender was asked for its key.
pub struct Pending<E> {
    pub call: Call,
    pub args: RpcArgs<E>,
    pub text: String,
}

/// What goes on once the sender was put into the routing table.
pub enum AfterUpdate<E> {
    /// The entry is stored.
    Put(SinglePeer, HashId, E),
    /// The entry is looked up.
    Get(Lookup),
    /// These nodes are the answer.
    Reply(Vec<SinglePeer>),
}

/// What goes on with the nodes of a bucket.
pub enum AfterBucket {
    /// The sender is put into the routing table, then they are the answer.
    Update(SinglePeer),
    /// They are the answer in place of an entry.
    Reply,
}

/// An entry that is looked up in the store.
pub struct Lookup {
    pub id: HashId,
}

/// A piece of work for the node.
pub enum Step<E> {
    /// Ask the sender for its public key.
    FetchKey(Pending<E>),
    /// Put the sender into the routing table.
    Update(SinglePeer, AfterUpdate<E>),
    /// Store an entry of the sender under an identifier.
    Put(SinglePeer, HashId, E),
    /// Look up an entry.
    Get(Lookup),
    /// Look up the bucket that an identifier falls into.
    FindBucket(HashId, AfterBucket),
    /// Look up a peer in the routing table.
    Find(HashId),
    /// Give this answer, signed.
    Reply(RpcResult<E>),
    /// Give this answer without a signature.
    ReplyUnsigned(RpcResult<E>),
}

/// The sender of a request.
pub open spec fn sender<E>(args: RpcArgs<E>) -> SinglePeer {
    SinglePeer { id: args.0.id, addr: args.0.addr }
}

/// The first step of a request whose sender is verified. One that asks for
/// something else than its call is bad.
pub open spec fn verified_step<E>(call: Call, args: RpcArgs<E>) -> Step<E> {
    match (call, args.0.op) {
        (Call::Store, RpcOp::Store(k, v)) => Step::Update(
            sender(args),
            AfterUpdate::Put(sender(args), k, *v),
        ),
        (Call::FindNode, RpcOp::FindNode(id)) => Step::FindBucket(
            id,
            AfterBucket::Update(sender(args)),
        ),
        (Call::FindValue, RpcOp::FindValue(id)) => Step::Update(
            sender(args),
            AfterUpdate::Get(Lookup { id }),
        ),
        _ => Step::Reply(RpcResult::Bad),
    }
}

/// The first step of a request at a node with the keys `ring`.
pub open spec fn first_step<E>(
    ring: Map<HashId, Known>,
    call: Call,
    args: RpcArgs<E>,
    text: String,
) -> Step<E> {
    match verdict(ring, args.0.id, text@, args.1@) {
        Verdict::Accepted => verified_step(call, args),
        Verdict::Refused => Step::Reply(RpcResult::Bad),
        Verdict::KeyNeeded => Step::FetchKey(Pending { call, args, text }),
    }
}

/// The keys `ring` after a request of `id` was followed by the question for its
/// key, and `reply` came back: a key is put in, anything else is not looked at.
pub open spec fn with_reply<E>(
    ring: Map<HashId, Known>,
    id: HashId,
    reply: Option<RpcResult<E>>,
    now: u64,
) -> Map<HashId, Known> {
    match reply {
        Some(RpcResult::Key(key)) => entered(ring, id, key@, now),
        _ => ring,
    }
}

/// The step after the question for a key, at a node that then has the keys
/// `ring`.
pub open spec fn step_with_key<E>(ring: Map<HashId, Known>, pending: Pending<E>) -> Step<E> {
    if verdict(ring, pending.args.0.id, pending.text@, pending.args.1@) == Verdict::Accepted {
        verified_step(pending.call, pending.args)
    } else {
        Step::Reply(RpcResult::Bad)
    }
}

/// The step after the sender was put into the routing table.
pub open spec fn step_after_update<E>(after: AfterUpdate<E>) -> Step<E> {
    match after {
        AfterUpdate::Put(sender, k, v) => Step::Put(sender, k, v),
        AfterUpdate::Get(lookup) => Step::Get(lookup),
        AfterUpdate::Reply(nodes) => Step::Reply(RpcResult::FindNode(nodes)),
    }
}

/// The step after the nodes of a bucket were looked up.
pub open spec fn step_after_bucket<E>(after: AfterBucket, nodes: Vec<SinglePeer>) -> Step<E> {
    match after {
        AfterBucket::Update(sender) => Step::Update(sender, AfterUpdate::Reply(nodes)),
        AfterBucket::Reply => Step::Reply(
            RpcResult::FindValue(Box::new(FindValueResult::Nodes(nodes))),
        ),
    }
}

/// The step after an entry was looked up.
pub open spec fn step_after_get<E>(lookup: Lookup, entry: Option<E>) -> Step<E> {
    match entry {
        Some(e) => Step::Reply(
            RpcResult::FindValue(Box::new(FindValueResult::Value(Box::new(e)))),
        ),
        None => Step::FindBucket(lookup.id, AfterBucket::Reply),
    }
}

/// The step after the store took an entry or not.
pub open spec fn step_after_put<E>(stored: bool) -> Step<E> {
    if stored {
        Step::Reply(RpcResult::Store)
    } else {
        Step::Reply(RpcResult::Bad)
    }
}

impl<E> Pending<E> {
    /// Goes on with what came back when the sender was asked for its key, if
    /// anything did, at the time `now`.
    pub fn resume(self, crypto: &mut Crypto, reply: Option<RpcResult<E>>, now: u64) -> (res: Step<
        E,
    >)
        ensures
            final(crypto).keyring@ == with_reply(old(crypto).keyring@, self.args.0.id, reply, now),
            final(crypto).private == old(crypto).private,
            final(crypto).public == old(crypto).public,
            res == step_with_key(final(crypto).keyring@, self),
    {
        if let Some(RpcResult::Key(key)) = reply {
            crypto.entry(self.args.0.id, key.as_str(), now);
        }
        if crypto.verify_args_again(&self.args, self.text.as_str()) {
            Service::verified(self.call, self.args)
        } else {
            Step::Reply(RpcResult::Bad)
        }
    }
}

impl<E> AfterUpdate<E> {
    /// Goes on once the sender was put into the routing table.
    pub fn resume(self) -> (res: Step<E>)
        ensures
            res == step_after_update(self),
    {
        match self {
            AfterUpdate::Put(sender, k, v) => Step::Put(sender, k, v),
            AfterUpdate::Get(lookup) => Step::Get(lookup),
            AfterUpdate::Reply(nodes) => Step::Reply(RpcResult::FindNode(nodes)),
        }
    }
}

impl AfterBucket {
    /// Goes on with the nodes of the bucket.
    pub fn resume<E>(self, nodes: Vec<SinglePeer>) -> (res: Step<E>)
        ensures
            res == step_after_bucket::<E>(self, nodes),
    {
        match self {
            AfterBucket::Update(sender) => Step::Update(sender, AfterUpdate::Reply(nodes)),
            AfterBucket::Reply => Step::Reply(
                RpcResult::FindValue(Box::new(FindValueResult::Nodes(nodes))),
            ),
        }
    }
}

impl Lookup {
    /// Goes on with the entry, if there is one.
    pub fn resume<E>(self, entry: Option<E>) -> (res: Step<E>)
        ensures
            res == step_after_get(self, entry),
    {
        match entry {
            Some(e) => Step::Reply(
                RpcResult::FindValue(Box::new(FindValueResult::Value(Box::new(e)))),
            ),
            None => Step::FindBucket(self.id, AfterBucket::Reply),
        }
    }
}

impl<E> Step<E> {
    /// Whether the context of the answer is taken before this step, unless it
    /// was taken before an earlier one: before an entry is stored, before nodes
    /// are looked up for their own sake, and before the answer.
    pub fn takes_context(&self) -> (res: bool)
        ensures
            res == (self is Put || self is Reply || self is ReplyUnsigned || (self matches Step::FindBucket(
                _,
                after,
            ) && after is Update)),
    {
        match self {
            Step::Put(_, _, _) => true,
            Step::FindBucket(_, AfterBucket::Update(_)) => true,
            Step::Reply(_) => true,
            Step::ReplyUnsigned(_) => true,
            _ => false,
        }
    }
}

/// The requests that a node answers.
pub struct Service {}

impl Service {
    /// Checks the sender of a request, whose serialised form is `text`, and
    /// starts on it.
    pub fn verify<E>(crypto: &Crypto, call: Call, args: RpcArgs<E>, text: String) -> (res: Step<E>)
        ensures
            res == first_step(crypto.keyring@, call, args, text),
    {
        match crypto.verify_args(&args, text.as_str()) {
            Verdict::Accepted => Service::verified(call, args),
            Verdict::Refused => Step::Reply(RpcResult::Bad),
            Verdict::KeyNeeded => Step::FetchKey(Pending { call, args, text }),
        }
    }

    /// Starts on a request whose sender is verified.
    fn verified<E>(call: Call, args: RpcArgs<E>) -> (res: Step<E>)
        ensures
            res == verified_step(call, args),
    {
        let sender = SinglePeer::new(args.0.id, args.0.addr);
        match (call, args.0.op) {
            (Call::Store, RpcOp::Store(k, v)) => Step::Update(
                sender,
                AfterUpdate::Put(sender, k, *v),
            ),
            (Call::FindNode, RpcOp::FindNode(id)) => Step::FindBucket(
                id,
                AfterBucket::Update(sender),
            ),
            (Call::FindValue, RpcOp::FindValue(id)) => Step::Update(
                sender,
                AfterUpdate::Get(Lookup { id }),
            ),
            _ => Step::Reply(RpcResult::Bad),
        }
    }

    /// Gives the public key of the node.
    pub fn key<E>(crypto: &Crypto) -> (res: Step<E>)
        ensures
            match pkcs1_public_pem(crypto.public@.0, crypto.public@.1) {
                Some(pem) => res matches Step::Reply(RpcResult::Key(key)) && key@ == pem,
                None => res == Step::<E>::Reply(RpcResult::Bad),
            },
            crypto.public@.0.len() <= MAX_MODULUS_BYTES ==> (res matches Step::Reply(
                RpcResult::Key(key),
            ) && pkcs1_public_key(key@) == Some(crypto.public@)),
    {
        if let Ok(key) = crypto.public_key_as_string() {
            Step::Reply(RpcResult::Key(key))
        } else {
            Step::Reply(RpcResult::Bad)
        }
    }

    /// Says that the node speaks this language. A ping identifies nobody.
    pub fn ping<E>() -> (res: Step<E>)
        ensures
            res == Step::<E>::Reply(RpcResult::Ping),
    {
        Step::Reply(RpcResult::Ping)
    }

    /// Looks up the addresses of a peer. The sender is not verified, and the
    /// answer is not signed.
    pub fn get_addresses<E>(args: RpcArgs<E>) -> (res: Step<E>)
        ensures
            res == match args.0.op {
                RpcOp::GetAddresses(id) => Step::<E>::Find(id),
                _ => Step::<E>::ReplyUnsigned(RpcResult::Bad),
            },
    {
        if let RpcOp::GetAddresses(id) = args.0.op {
            Step::Find(id)
        } else {
            Step::ReplyUnsigned(RpcResult::Bad)
        }
    }

    /// Goes on with the peer whose addresses were asked for, if it is known.
    pub fn found<E>(peer: Option<Peer>) -> (res: Step<E>)
        ensures
            peer is None ==> res == Step::<E>::ReplyUnsigned(RpcResult::GetAddresses(None)),
            peer matches Some(p) ==> (res matches Step::ReplyUnsigned(
                RpcResult::GetAddresses(Some(addresses)),
            ) && addresses@ == p.addrs() && addresses@.len() == p.addresses@.len() && forall|i: int|
                0 <= i < p.addresses@.len() ==> #[trigger] addresses@[i] == p.addresses@[i].0),
    {
        Step::ReplyUnsigned(
            RpcResult::GetAddresses(
                if let Some(p) = peer {
                    let mut addresses: Vec<Addr> = Vec::new();
                    let mut i: usize = 0;
                    while i < p.addresses.len()
                        invariant
                            i <= p.addresses@.len(),
                            addresses@ == p.addrs().take(i as int),
                        decreases p.addresses@.len() - i,
                    {
                        addresses.push(p.addresses[i].0);
                        i += 1;
                        assert(addresses@ =~= p.addrs().take(i as int));
                    }
                    assert(addresses@ =~= p.addrs());
                    Some(addresses)
                } else {
                    None
                },
            ),
        )
    }

    /// Stores an entry for a verified sender.
    pub fn store<E>(crypto: &Crypto, args: RpcArgs<E>, text: String) -> (res: Step<E>)
        ensures
            res == first_step(crypto.keyring@, Call::Store, args, text),
    {
        Service::verify(crypto, Call::Store, args, text)
    }

    /// Goes on with whether the store took the entry.
    pub fn stored<E>(stored: bool) -> (res: Step<E>)
        ensures
            res == step_after_put::<E>(stored),
    {
        if stored {
            Step::Reply(RpcResult::Store)
        } else {
            Step::Reply(RpcResult::Bad)
        }
    }

    /// Looks up nodes for a verified sender.
    pub fn find_node<E>(crypto: &Crypto, args: RpcArgs<E>, text: String) -> (res: Step<E>)
        ensures
            res == first_step(crypto.keyring@, Call::FindNode, args, text),
    {
        Service::verify(crypto, Call::FindNode, args, text)
    }

    /// Looks up an entry for a verified sender.
    pub fn find_value<E>(crypto: &Crypto, args: RpcArgs<E>, text: String) -> (res: Step<E>)
        ensures
            res == first_step(crypto.keyring@, Call::FindValue, args, text),
    {
        Service::verify(crypto, Call::FindValue, args, text)
    }

    /// The answer `res` without a signature.
    pub fn unsigned<E>(ctx: ReplyContext, res: RpcResult<E>) -> (results: RpcResults<E>)
        ensures
            results.0 == res,
            results.1 == ctx,
            results.2@ == Seq::<char>::empty(),
    {
        res.signed(ctx, String::new())
    }
}

/// What the rest of a node does with the work it is given.
pub struct World<E> {
    pub stored: bool,
    pub entry: Option<E>,
    pub bucket: Vec<SinglePeer>,
}

/// The step that follows `step` in `world`, if it is known without a key or a
/// routing table of peers.
pub open spec fn next_step<E>(step: Step<E>, world: World<E>) -> Option<Step<E>> {
    match step {
        Step::Update(_, after) => Some(step_after_update(after)),
        Step::Put(_, _, _) => Some(step_after_put(world.stored)),
        Step::Get(lookup) => Some(step_after_get(lookup, world.entry)),
        Step::FindBucket(_, after) => Some(step_after_bucket(after, world.bucket)),
        _ => None,
    }
}

/// The first `count` steps from `step` on, in `world`.
pub open spec fn steps<E>(step: Step<E>, world: World<E>, count: nat) -> Seq<Step<E>>
    decreases count,
{
    if count == 0 {
        seq![]
    } else {
        match next_step(step, world) {
            Some(next) => seq![step] + steps(next, world, (count - 1) as nat),
            None => seq![step],
        }
    }
}

/// A verified sender that stores an entry is put into the routing table, then
/// its entry is stored under the identifier it gave, and the answer says
/// whether it was.
pub proof fn store_runs<E>(args: RpcArgs<E>, k: HashId, v: Box<E>, world: World<E>, count: nat)
    requires
        args.0.op == RpcOp::Store(k, v),
        count >= 4,
    ensures
        steps(verified_step(Call::Store, args), world, count) == seq![
            Step::Update(SinglePeer { id: args.0.id, addr: args.0.addr }, AfterUpdate::Put(SinglePeer { id: args.0.id, addr: args.0.addr }, k, *v)),
            Step::Put(SinglePeer { id: args.0.id, addr: args.0.addr }, k, *v),
            Step::Reply(
                if world.stored {
                    RpcResult::Store
                } else {
                    RpcResult::Bad
                },
            ),
        ],
{
    reveal_with_fuel(steps, 4);
}

/// A verified sender that looks for nodes gets those that were in the bucket
/// before it was put into the routing table itself.
pub proof fn find_node_runs<E>(args: RpcArgs<E>, id: HashId, world: World<E>, count: nat)
    requires
        args.0.op == RpcOp::<E>::FindNode(id),
        count >= 4,
    ensures
        steps(verified_step(Call::FindNode, args), world, count) == seq![
            Step::<E>::FindBucket(id, AfterBucket::Update(SinglePeer { id: args.0.id, addr: args.0.addr })),
            Step::Update(SinglePeer { id: args.0.id, addr: args.0.addr }, AfterUpdate::Reply(world.bucket)),
            Step::Reply(RpcResult::FindNode(world.bucket)),
        ],
{
    reveal_with_fuel(steps, 4);
}

/// A verified sender that looks for an entry is put into the routing table and
/// gets the entry of the store if there is one, and otherwise the nodes of the
/// bucket.
pub proof fn find_value_runs<E>(args: RpcArgs<E>, id: HashId, world: World<E>, count: nat)
    requires
        args.0.op == RpcOp::<E>::FindValue(id),
        count >= 4,
    ensures
        steps(verified_step(Call::FindValue, args), world, count) == match world.entry {
            Some(e) => seq![
                Step::Update(SinglePeer { id: args.0.id, addr: args.0.addr }, AfterUpdate::Get(Lookup { id })),
                Step::Get(Lookup { id }),
                Step::Reply(RpcResult::FindValue(Box::new(FindValueResult::Value(Box::new(e))))),
            ],
            None => seq![
                Step::Update(SinglePeer { id: args.0.id, addr: args.0.addr }, AfterUpdate::Get(Lookup { id })),
                Step::Get(Lookup { id }),
                Step::FindBucket(id, AfterBucket::Reply),
                Step::Reply(
                    RpcResult::FindValue(Box::new(FindValueResult::Nodes(world.bucket))),
                ),
            ],
        },
{
    reveal_with_fuel(steps, 5);
}

/// Whether `step` does nothing for the sender but ask for its key or call its
/// request bad.
pub open spec fn is_turned_away<E>(step: Step<E>) -> bool {
    step is FetchKey || step == Step::<E>::Reply(RpcResult::Bad)
}

/// A request that its sender's key does not accept, whether the key was known or
/// came with `reply` when it was asked for, is answered as bad, and nothing else
/// is done: nothing is stored, looked up or put into the routing table, and no
/// key but the one in `reply` is put in.
pub proof fn unverified_request_is_bad<E>(
    ring: Map<HashId, Known>,
    call: Call,
    args: RpcArgs<E>,
    text: String,
    reply: Option<RpcResult<E>>,
    now: u64,
    world: World<E>,
    count: nat,
)
    requires
        verdict(ring, args.0.id, text@, args.1@) != Verdict::Accepted,
        verdict(ring, args.0.id, text@, args.1@) == Verdict::KeyNeeded ==> verdict(
            with_reply(ring, args.0.id, reply, now),
            args.0.id,
            text@,
            args.1@,
        ) != Verdict::Accepted,
        count > 0,
    ensures
        ({
            let first = first_step(ring, call, args, text);
            &&& is_turned_away(first)
            &&& steps(first, world, count) == seq![first]
            &&& first matches Step::FetchKey(pending) ==> steps(
                step_with_key(with_reply(ring, args.0.id, reply, now), pending),
                world,
                count,
            ) == seq![Step::<E>::Reply(RpcResult::Bad)]
        }),
{
    reveal_with_fuel(steps, 1);
}

/// A verified request that asks for something else than its call is answered as
/// bad, and nothing else is done.
pub proof fn mismatched_request_is_bad<E>(
    call: Call,
    args: RpcArgs<E>,
    world: World<E>,
    count: nat,
)
    requires
        match call {
            Call::Store => !(args.0.op is Store),
            Call::FindNode => !(args.0.op is FindNode),
            Call::FindValue => !(args.0.op is FindValue),
        },
        count > 0,
    ensures
        steps(verified_step(call, args), world, count) == seq![Step::<E>::Reply(RpcResult::Bad)],
{
    reveal_with_fuel(steps, 1);
}

/// Every verified request comes to a signed answer, in four steps at most.
pub proof fn verified_request_is_answered<E>(
    call: Call,
    args: RpcArgs<E>,
    world: World<E>,
    count: nat,
)
    requires
        count >= 4,
    ensures
        1 <= steps(verified_step(call, args), world, count).len() <= 4,
        steps(verified_step(call, args), world, count).last() is Reply,
{
    reveal_with_fuel(steps, 5);
}

/// Only a sender whose key is not known is asked for it, so no request puts
/// another key in the place of a known one.
pub proof fn known_sender_is_not_asked_for_a_key<E>(
    ring: Map<HashId, Known>,
    call: Call,
    args: RpcArgs<E>,
    text: String,
)
    ensures
        first_step(ring, call, args, text) is FetchKey <==> !ring.contains_key(args.0.id),
{
}

/// A request whose sender is known, with a key that accepts its signature, is
/// started on as what it asks for. To store an entry, the sender is put into the
/// routing table, and the entry is to be put under its identifier; to find nodes,
/// they are looked up, and the sender is then to be put into the routing table;
/// to find an entry, the sender is put into the routing table, and the entry is to
/// be looked up. The sender is the node that the request names, at the address
/// that it names. A request that asks for something else than its call is bad.
pub proof fn accepted_request_is_started<E>(
    ring: Map<HashId, Known>,
    call: Call,
    args: RpcArgs<E>,
    text: String,
)
    requires
        ring.contains_key(args.0.id),
        accepts(ring[args.0.id].0, text@, args.1@),
    ensures
        match (call, args.0.op) {
            (Call::Store, RpcOp::Store(k, v)) => first_step(ring, call, args, text) matches Step::Update(
                learned,
                AfterUpdate::Put(owner, under, entry),
            ) && learned.id == args.0.id && learned.addr == args.0.addr && owner.id == args.0.id
                && owner.addr == args.0.addr && under == k && entry == *v,
            (Call::FindNode, RpcOp::FindNode(id)) => first_step(ring, call, args, text) matches Step::FindBucket(
                wanted,
                AfterBucket::Update(learned),
            ) && wanted == id && learned.id == args.0.id && learned.addr == args.0.addr,
            (Call::FindValue, RpcOp::FindValue(id)) => first_step(ring, call, args, text) matches Step::Update(
                learned,
                AfterUpdate::Get(lookup),
            ) && learned.id == args.0.id && learned.addr == args.0.addr && lookup.id == id,
            _ => first_step(ring, call, args, text) == Step::<E>::Reply(RpcResult::Bad),
        },
{
}

/// A request whose sender is known, with a key that does not accept its signature,
/// is bad, whatever it asks for.
pub proof fn refused_request_is_bad<E>(
    ring: Map<HashId, Known>,
    call: Call,
    args: RpcArgs<E>,
    text: String,
)
    requires
        ring.contains_key(args.0.id),
        !accepts(ring[args.0.id].0, text@, args.1@),
    ensures
        first_step(ring, call, args, text) == Step::<E>::Reply(RpcResult::Bad),
{
}

/// A request whose sender is not known waits, as it is, for the key of the
/// sender.
pub proof fn request_of_an_unknown_sender_waits<E>(
    ring: Map<HashId, Known>,
    call: Call,
    args: RpcArgs<E>,
    text: String,
)
    requires
        !ring.contains_key(args.0.id),
    ensures
        first_step(ring, call, args, text) matches Step::FetchKey(pending) && pending.call == call
            && pending.args == args && pending.text == text,
{
}

/// A request that waited for the key of its sender goes on as if the key had been
/// known from the start, and is bad where it still is not.
pub proof fn waiting_makes_no_difference<E>(ring: Map<HashId, Known>, pending: Pending<E>)
    ensures
        ring.contains_key(pending.args.0.id) ==> step_with_key(ring, pending) == first_step(
            ring,
            pending.call,
            pending.args,
            pending.text,
        ),
        !ring.contains_key(pending.args.0.id) ==> step_with_key(ring, pending) == Step::<E>::Reply(
            RpcResult::Bad,
        ),
{
}

/// Which keys a node knows once it asked `id` for its key and a text that can be
/// read as `read` came back: that key with its time, and every other as it was.
/// Only where they are then more than 64 is one of them gone, the one that every
/// other is younger than; of keys of one time the one with the greater identifier
/// counts as the younger.
pub proof fn key_that_comes_back_is_put_in<E>(
    ring: Map<HashId, Known>,
    id: HashId,
    key: String,
    read: (Seq<u8>, Seq<u8>),
    now: u64,
    peer: HashId,
)
    requires
        ring.dom().finite(),
        pkcs1_public_key(key@) == Some(read),
    ensures
        ({
            let all = ring.insert(id, (read, now));
            let after = with_reply(ring, id, Some(RpcResult::<E>::Key(key)), now);
            &&& after.contains_key(peer) <==> (peer == id || ring.contains_key(peer)) && !(all.len()
                > 64 && forall|other: HashId| #[trigger]
                all.contains_key(other) && other != peer ==> all[peer].1 < all[other].1 || (
                all[peer].1 == all[other].1 && (peer.hi < other.hi || (peer.hi == other.hi && peer.lo
                    < other.lo))))
            &&& after.contains_key(peer) && peer == id ==> after[peer] == (read, now)
            &&& after.contains_key(peer) && peer != id ==> after[peer] == ring[peer]
            &&& all.len() <= 64 ==> after == all
        }),
{
    entering_a_key_keeps_the_others(ring, id, key@, read, now, peer);
}

/// Where no answer comes back, or one that is no key, or a key text that cannot be
/// read, the node knows the keys that it knew.
pub proof fn other_replies_change_no_key<E>(
    ring: Map<HashId, Known>,
    id: HashId,
    reply: Option<RpcResult<E>>,
    now: u64,
)
    requires
        reply matches Some(RpcResult::Key(key)) ==> pkcs1_public_key(key@) is None,
    ensures
        with_reply(ring, id, reply, now) == ring,
{
}

/// A request of an unknown sender goes on as a verified one where the key that
/// comes back accepts its signature: the sender is then known by that key, and
/// what is done is what is done for a sender that was known by it from the start.
/// It takes room for the key, or one that is older.
pub proof fn sender_is_verified_with_the_key_that_comes_back<E>(
    ring: Map<HashId, Known>,
    call: Call,
    args: RpcArgs<E>,
    text: String,
    key: String,
    read: (Seq<u8>, Seq<u8>),
    now: u64,
    older: HashId,
    known: Map<HashId, Known>,
)
    requires
        ring.dom().finite(),
        !ring.contains_key(args.0.id),
        pkcs1_public_key(key@) == Some(read),
        accepts(read, text@, args.1@),
        ring.len() < 64 || (ring.contains_key(older) && (ring[older].1 < now || (ring[older].1
            == now && (older.hi < args.0.id.hi || (older.hi == args.0.id.hi && older.lo
            < args.0.id.lo))))),
        known.contains_key(args.0.id) && known[args.0.id].0 == read,
    ensures
        ({
            let after = with_reply(ring, args.0.id, Some(RpcResult::<E>::Key(key)), now);
            &&& after.contains_key(args.0.id) && after[args.0.id] == (read, now)
            &&& step_with_key(after, Pending { call, args, text }) == first_step(
                known,
                call,
                args,
                text,
            )
            &&& match (call, args.0.op) {
                (Call::Store, RpcOp::Store(_, _)) => step_with_key(
                    after,
                    Pending { call, args, text },
                ) is Update,
                (Call::FindNode, RpcOp::FindNode(_)) => step_with_key(
                    after,
                    Pending { call, args, text },
                ) is FindBucket,
                (Call::FindValue, RpcOp::FindValue(_)) => step_with_key(
                    after,
                    Pending { call, args, text },
                ) is Update,
                _ => true,
            }
        }),
{
    let all = ring.insert(args.0.id, (read, now));
    assert(all.dom() =~= ring.dom().insert(args.0.id));
    if ring.len() >= 64 {
        assert(all.contains_key(older) && older != args.0.id);
        assert(all[older] == ring[older]);
    }
    entering_a_key_keeps_the_others(ring, args.0.id, key@, read, now, args.0.id);
}

/// Whatever a request asks for and whatever comes of its work, no other node is
/// put into the routing table, or taken for the owner of an entry, than the one
/// that the request names, at the address that it names.
pub proof fn only_the_sender_is_learned<E>(
    ring: Map<HashId, Known>,
    call: Call,
    args: RpcArgs<E>,
    text: String,
    start: Step<E>,
    world: World<E>,
    count: nat,
)
    requires
        start == first_step(ring, call, args, text) || start == step_with_key(
            ring,
            Pending { call, args, text },
        ),
    ensures
        forall|i: int|
            0 <= i < steps(start, world, count).len() ==> match #[trigger] steps(
                start,
                world,
                count,
            )[i] {
                Step::Update(learned, after) => learned.id == args.0.id && learned.addr
                    == args.0.addr && (after matches AfterUpdate::Put(owner, _, _) ==> owner.id
                    == args.0.id && owner.addr == args.0.addr),
                Step::Put(owner, _, _) => owner.id == args.0.id && owner.addr == args.0.addr,
                Step::FindBucket(_, AfterBucket::Update(learned)) => learned.id == args.0.id
                    && learned.addr == args.0.addr,
                _ => true,
            },
{
    reveal_with_fuel(steps, 5);
}

/// Once the sender was put into the routing table, its entry is put under the
/// identifier that it gave, with the sender as its owner, and the answer says
/// whether the store took it.
pub proof fn entry_is_put_as_it_came<E>(owner: SinglePeer, k: HashId, v: E)
    ensures
        step_after_update(AfterUpdate::Put(owner, k, v)) == Step::Put(owner, k, v),
        step_after_put::<E>(true) == Step::<E>::Reply(RpcResult::Store),
        step_after_put::<E>(false) == Step::<E>::Reply(RpcResult::Bad),
{
}

/// The nodes that were looked up for their own sake are the answer, all of them
/// and in order, after the sender was put into the routing table.
pub proof fn nodes_are_answered_as_they_were_found<E>(
    learned: SinglePeer,
    nodes: Vec<SinglePeer>,
)
    ensures
        step_after_bucket::<E>(AfterBucket::Update(learned), nodes) == Step::<E>::Update(
            learned,
            AfterUpdate::Reply(nodes),
        ),
        step_after_update(AfterUpdate::<E>::Reply(nodes)) == Step::<E>::Reply(
            RpcResult::FindNode(nodes),
        ),
{
}

/// An entry is looked up under the identifier that was asked for and is the answer
/// where there is one; otherwise the nodes of the bucket of that same identifier
/// are.
pub proof fn entry_or_its_nodes_are_answered<E>(id: HashId, entry: E, nodes: Vec<SinglePeer>)
    ensures
        step_after_update(AfterUpdate::<E>::Get(Lookup { id })) == Step::<E>::Get(Lookup { id }),
        step_after_get(Lookup { id }, Some(entry)) == Step::Reply(
            RpcResult::FindValue(Box::new(FindValueResult::Value(Box::new(entry)))),
        ),
        step_after_get(Lookup { id }, None::<E>) == Step::<E>::FindBucket(id, AfterBucket::Reply),
        step_after_bucket::<E>(AfterBucket::Reply, nodes) == Step::<E>::Reply(
            RpcResult::FindValue(Box::new(FindValueResult::Nodes(nodes))),
        ),
{
}

} // verus!
