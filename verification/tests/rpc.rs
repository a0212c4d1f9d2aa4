use kad::crypto::Crypto;
use kad::keys::PrivateKey;
use kad::rpc::{AfterBucket, Service, Step};
use kad::util::{
    Addr, FindValueResult, HashId, IpAddr, Peer, ReplyContext, RpcArgs, RpcContext, RpcOp,
    RpcResult, RpcResults, SinglePeer,
};

const BUCKET_SIZE: usize = 20;

fn localhost(port: u16) -> Addr {
    Addr(IpAddr::V4(0x7f00_0001), port)
}

fn hash(text: &str) -> HashId {
    let mut h: u128 = 0xcbf2_9ce4_8422_2325;
    for b in text.bytes() {
        h = (h ^ b as u128).wrapping_mul(0x0100_0000_01b3);
    }
    HashId::from(h)
}

fn generate_peer(id: Option<HashId>) -> SinglePeer {
    SinglePeer::new(id.unwrap_or(hash("peer")), localhost(8000))
}

fn small_crypto() -> Crypto {
    Crypto::from_key(PrivateKey::generate(512).unwrap())
}

/// A node whose routing table and store are plain lists.
struct Node {
    crypto: Crypto,
    id: HashId,
    addr: Addr,
    table: Vec<Peer>,
    store: Vec<(HashId, SinglePeer, String)>,
    log: Vec<&'static str>,
    answers_keys: bool,
    takes_entries: bool,
}

impl Node {
    fn new(port: u16) -> Node {
        Node {
            crypto: small_crypto(),
            id: hash(&format!("node {}", port)),
            addr: localhost(port),
            table: Vec::new(),
            store: Vec::new(),
            log: Vec::new(),
            answers_keys: true,
            takes_entries: true,
        }
    }

    fn ctx(&self) -> ReplyContext {
        ReplyContext { id: self.id, addr: self.addr, timestamp: 1 }
    }

    fn update(&mut self, sender: SinglePeer) {
        for p in self.table.iter_mut() {
            if p.id == sender.id {
                if !p.addresses.iter().any(|a| a.0 == sender.addr) {
                    p.addresses.push((sender.addr, 0));
                }
                return;
            }
        }
        self.table.push(Peer::new(sender.id, sender.addr));
    }

    fn find(&self, id: HashId) -> Option<Peer> {
        self.table.iter().find(|p| p.id == id).cloned()
    }

    fn find_bucket(&self, _id: HashId) -> Vec<SinglePeer> {
        self.table.iter().map(|p| SinglePeer::new(p.id, p.addresses[0].0)).collect()
    }

    fn get(&self, id: HashId) -> Option<String> {
        self.store.iter().find(|e| e.0 == id).map(|e| e.2.clone())
    }

    fn request(&self, op: RpcOp<String>) -> (RpcArgs<String>, String) {
        let ctx = RpcContext::new(self.id, op, self.addr, 1);
        let text = format!("{:?}", ctx);
        (self.crypto.args(ctx, &text).unwrap(), text)
    }

    fn signed(&self, answer: RpcResult<String>) -> RpcResults<String> {
        let text = format!("{:?}", answer);
        self.crypto.results(self.ctx(), answer, &text).unwrap()
    }

    fn key(&self) -> RpcResult<String> {
        match Service::key::<String>(&self.crypto) {
            Step::Reply(answer) => self.signed(answer).0,
            _ => panic!("not an answer"),
        }
    }

    /// Does the work of a request of `caller`, step by step.
    fn run(&mut self, caller: &Node, first: Step<String>) -> RpcResults<String> {
        let mut step = first;
        loop {
            step = match step {
                Step::FetchKey(pending) => {
                    self.log.push("fetch");
                    let reply = if caller.answers_keys { Some(caller.key()) } else { None };
                    pending.resume(&mut self.crypto, reply, 1)
                }
                Step::Update(sender, after) => {
                    self.log.push("update");
                    self.update(sender);
                    after.resume()
                }
                Step::Put(sender, k, v) => {
                    self.log.push("put");
                    if self.takes_entries {
                        self.store.push((k, sender, v));
                    }
                    Service::stored(self.takes_entries)
                }
                Step::Get(lookup) => {
                    self.log.push("get");
                    let entry = self.get(lookup.id);
                    lookup.resume(entry)
                }
                Step::FindBucket(id, after) => {
                    self.log.push("bucket");
                    after.resume(self.find_bucket(id))
                }
                Step::Find(id) => {
                    self.log.push("find");
                    Service::found(self.find(id))
                }
                Step::Reply(answer) => return self.signed(answer),
                Step::ReplyUnsigned(answer) => return Service::unsigned(self.ctx(), answer),
            }
        }
    }
}

fn store_at(second: &mut Node, first: &Node, k: HashId, v: &str) -> RpcResults<String> {
    let (args, text) = first.request(RpcOp::Store(k, Box::new(v.to_string())));
    let step = Service::store(&second.crypto, args, text);
    second.run(first, step)
}

fn find_value_at(second: &mut Node, first: &Node, k: HashId) -> FindValueResult<String> {
    let (args, text) = first.request(RpcOp::FindValue(k));
    let step = Service::find_value(&second.crypto, args, text);
    match second.run(first, step).0 {
        RpcResult::FindValue(found) => *found,
        _ => panic!("not a value result"),
    }
}

#[test]
fn key() {
    let (mut first, second) = (Node::new(16161), Node::new(16162));

    let second_peer = Peer::new(second.id, second.addr);

    if let RpcResult::Key(key) = second.key() {
        assert!(first.crypto.entry(second_peer.id, &key, 1));
    } else {
        panic!("not a key");
    }

    let result = first.crypto.keyring.get(second_peer.id).unwrap().0.to_pkcs1_pem().unwrap();

    assert_eq!(result, second.crypto.public_key_as_string().unwrap());
}

#[test]
fn get_addresses() {
    let (first, mut second) = (Node::new(16163), Node::new(16164));

    // add addresses
    for i in 0..=3 {
        second.update(SinglePeer::new(HashId::from(1u128), localhost(8000 + i)));
    }

    let reference = second.find(HashId::from(1u128)).unwrap();

    let (args, _) = first.request(RpcOp::GetAddresses(HashId::from(1u128)));
    let results = second.run(&first, Service::get_addresses(args));
    assert_eq!(results.2, "");
    let res = match results.0 {
        RpcResult::GetAddresses(Some(res)) => res,
        _ => panic!("no addresses"),
    };

    assert_eq!(reference.addresses.len(), 4);
    assert_eq!(res.len(), 4);
    assert!(reference.addresses.iter().zip(res).all(|(x, y)| x.0 == y));
    assert_eq!(second.log, vec!["find"]);
}

#[test]
fn store() {
    let (first, mut second) = (Node::new(16165), Node::new(16166));

    let results = store_at(&mut second, &first, hash("good morning"), "hello");
    assert!(matches!(results.0, RpcResult::Store));

    assert!(second.get(hash("good morning")).is_some());
    assert_eq!(second.log, vec!["fetch", "update", "put"]);
    assert_eq!(second.store[0].1, SinglePeer::new(first.id, first.addr));
}

#[test]
fn find_node() {
    let (first, mut second) = (Node::new(16167), Node::new(16168));

    let to_find = HashId::from(1u128);

    for i in 0..(BUCKET_SIZE - 1) {
        second.update(generate_peer(Some(HashId::from(i as u128))));
    }

    let reference = second.find_bucket(to_find);

    assert!(!reference.is_empty());

    let (args, text) = first.request(RpcOp::FindNode(to_find));
    let step = Service::find_node(&second.crypto, args, text);
    let res = match second.run(&first, step).0 {
        RpcResult::FindNode(res) => res,
        _ => panic!("not a list of nodes"),
    };

    assert!(!res.is_empty());
    assert!(reference.iter().zip(res.iter()).all(|(x, y)| x.id == y.id));
    assert_eq!(reference.len(), res.len());
    assert_eq!(second.log, vec!["fetch", "bucket", "update"]);
}

#[test]
fn find_value() {
    let (first, mut second) = (Node::new(16169), Node::new(16170));

    // fill second node with random entries
    for i in 0..(BUCKET_SIZE - 1) {
        second.update(generate_peer(Some(HashId::from(i as u128))));
    }

    // store a value in second node
    assert!(
        matches!(
            store_at(&mut second, &first, hash("good morning"), "hello").0,
            RpcResult::Store
        ),
        "check if store was successful"
    );

    // request existing value from node
    assert!(
        if let FindValueResult::Value(v) = find_value_at(&mut second, &first, hash("good morning"))
        {
            *v == "hello"
        } else {
            false
        },
        "check if value exists in stored node"
    );

    // request nonexisting value from node
    if let FindValueResult::Nodes(n) = find_value_at(&mut second, &first, hash("good AFTERNOON")) {
        let reference = second.find_bucket(hash("good AFTERNOON"));

        assert!(!reference.is_empty(), "check if local bucket is not empty");
        assert!(!n.is_empty(), "check if obtained bucket is not empty");
        assert!(
            reference.iter().zip(n.iter()).all(|(x, y)| x.id == y.id),
            "check if obtained bucket matches local bucket"
        );
    } else {
        panic!("not a list of nodes");
    }

    assert_eq!(
        second.log,
        vec!["fetch", "update", "put", "update", "get", "update", "get", "bucket"]
    );
}

#[test]
fn ping_and_key_are_answered_without_a_request_context() {
    let node = Node::new(16171);
    assert!(matches!(Service::ping::<String>(), Step::Reply(RpcResult::Ping)));
    match node.key() {
        RpcResult::Key(key) => assert_eq!(key, node.crypto.public_key_as_string().unwrap()),
        _ => panic!("not a key"),
    }
}

#[test]
fn sender_without_a_key_is_turned_away() {
    let (mut first, mut second) = (Node::new(16172), Node::new(16173));
    first.answers_keys = false;
    let results = store_at(&mut second, &first, hash("good morning"), "hello");
    assert!(matches!(results.0, RpcResult::Bad));
    assert_eq!(second.log, vec!["fetch"]);
    assert!(second.store.is_empty() && second.table.is_empty());
    assert!(second.crypto.if_unknown(first.id));
    // the refusal is signed
    assert!(second.crypto.public.verify("Bad", &results.2));
}

#[test]
fn forged_request_is_turned_away() {
    let (first, mut second) = (Node::new(16174), Node::new(16175));
    let (args, _) = first.request(RpcOp::FindNode(HashId::from(1u128)));
    let step = Service::find_node(&second.crypto, args.clone(), "other text".to_string());
    assert!(matches!(second.run(&first, step).0, RpcResult::Bad));
    // the key that came with the question is known now, so none is asked for
    let step = Service::find_node(&second.crypto, args, "other text".to_string());
    assert!(matches!(second.run(&first, step).0, RpcResult::Bad));
    assert_eq!(second.log, vec!["fetch"]);
    assert!(second.table.is_empty());
}

#[test]
fn request_for_something_else_is_bad() {
    let (first, mut second) = (Node::new(16176), Node::new(16177));
    let (args, text) = first.request(RpcOp::FindNode(HashId::from(1u128)));
    let step = Service::store(&second.crypto, args.clone(), text.clone());
    assert!(matches!(second.run(&first, step).0, RpcResult::Bad));
    let step = Service::find_value(&second.crypto, args.clone(), text);
    assert!(matches!(second.run(&first, step).0, RpcResult::Bad));
    let results = second.run(&first, Service::get_addresses(args));
    assert!(matches!(results.0, RpcResult::Bad));
    assert_eq!(results.2, "");
    assert_eq!(second.log, vec!["fetch"]);
}

#[test]
fn refused_entry_is_answered_as_bad() {
    let (first, mut second) = (Node::new(16178), Node::new(16179));
    second.takes_entries = false;
    let results = store_at(&mut second, &first, hash("good morning"), "hello");
    assert!(matches!(results.0, RpcResult::Bad));
    assert_eq!(second.log, vec!["fetch", "update", "put"]);
}

#[test]
fn peer_that_is_not_in_the_table_has_no_addresses() {
    let (first, mut second) = (Node::new(16180), Node::new(16181));
    let (args, _) = first.request(RpcOp::GetAddresses(HashId::from(9u128)));
    let results = second.run(&first, Service::get_addresses(args));
    assert!(matches!(results.0, RpcResult::GetAddresses(None)));
}

#[test]
fn context_is_taken_before_the_work_that_the_answer_reports() {
    let sender = SinglePeer::new(HashId::from(1u128), localhost(8000));
    let put: Step<String> = Step::Put(sender, HashId::from(2u128), "hello".to_string());
    assert!(put.takes_context());
    let bucket: Step<String> = Step::FindBucket(HashId::from(2u128), AfterBucket::Update(sender));
    assert!(bucket.takes_context());
    let bucket: Step<String> = Step::FindBucket(HashId::from(2u128), AfterBucket::Reply);
    assert!(!bucket.takes_context());
    let find: Step<String> = Step::Find(HashId::from(2u128));
    assert!(!find.takes_context());
    assert!(Service::ping::<String>().takes_context());
}
