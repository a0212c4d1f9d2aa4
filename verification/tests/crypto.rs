use kad::crypto::{Crypto, Verdict};
use kad::keys::KeyError;
use kad::util::{Addr, HashId, IpAddr, ReplyContext, RpcArgs, RpcContext, RpcOp, RpcResult};
use rsa::pkcs1::{EncodeRsaPrivateKey, LineEnding};
use rsa::pkcs8::EncodePublicKey;

fn texts(bits: usize) -> (String, String) {
    let key = rsa::RsaPrivateKey::new(&mut rand::thread_rng(), bits).unwrap();
    let public = key.to_public_key().to_public_key_pem(LineEnding::LF).unwrap();
    (key.to_pkcs1_pem(LineEnding::LF).unwrap().to_string(), public)
}

fn node() -> Crypto {
    let (private, public) = texts(512);
    Crypto::from_pem(&private, &public).unwrap()
}

fn addr() -> Addr {
    Addr(IpAddr::V4(0x7f00_0001), 16161)
}

fn request(crypto: &Crypto, id: HashId) -> (RpcArgs<String>, String) {
    let ctx: RpcContext<String> = RpcContext::new(id, RpcOp::FindNode(HashId::from(1u128)), addr(), 9);
    let text = format!("{:?}", ctx);
    (crypto.args(ctx, &text).unwrap(), text)
}

#[test]
fn node_is_read_from_texts() {
    let (private, public) = texts(512);
    let crypto = Crypto::from_pem(&private, &public).unwrap();
    assert_eq!(crypto.private_key_as_string().unwrap(), private);
    assert_eq!(crypto.keyring.len(), 0);
    assert!(crypto.public.verify("hello", &crypto.sign("hello").unwrap()));
}

#[test]
fn bad_texts_are_refused() {
    let (private, public) = texts(512);
    assert_eq!(Crypto::from_pem("", &public).err(), Some(KeyError::ReadPrivate));
    assert_eq!(Crypto::from_pem("", "").err(), Some(KeyError::ReadPrivate));
    assert_eq!(Crypto::from_pem(&private, "").err(), Some(KeyError::ReadPublic));
}

#[test]
fn written_public_key_is_not_read_as_a_file() {
    let crypto = node();
    let private = crypto.private_key_as_string().unwrap();
    let public = crypto.public_key_as_string().unwrap();
    assert!(public.starts_with("-----BEGIN RSA PUBLIC KEY-----\n"));
    assert_eq!(Crypto::from_pem(&private, &public).err(), Some(KeyError::ReadPublic));
}

#[test]
fn short_key_cannot_sign_requests() {
    let (private, public) = texts(256);
    let crypto = Crypto::from_pem(&private, &public).unwrap();
    assert_eq!(crypto.sign("hello").unwrap_err(), KeyError::Sign);
    let ctx: RpcContext<String> =
        RpcContext::new(HashId::from(1u128), RpcOp::FindNode(HashId::from(1u128)), addr(), 9);
    assert_eq!(crypto.args(ctx, "text").err(), Some(KeyError::Sign));
}

#[test]
fn unknown_sender_is_accepted_with_its_key() {
    let (signer, mut peer) = (node(), node());
    let id = HashId::from(5u128);
    let (args, text) = request(&signer, id);
    assert!(peer.if_unknown(id));
    assert_eq!(peer.verify_args(&args, &text), Verdict::KeyNeeded);
    assert!(!peer.verify_args_again(&args, &text));

    assert!(peer.entry(id, &signer.public_key_as_string().unwrap(), 1));
    assert!(!peer.if_unknown(id));
    assert_eq!(peer.verify_args(&args, &text), Verdict::Accepted);
    assert!(peer.verify_args_again(&args, &text));
    assert!(peer.verify(id, &text, &args.1));
    assert_eq!(peer.verify_args(&args, "something else"), Verdict::Refused);
    assert!(!peer.verify_args_again(&args, "something else"));

    peer.remove(id);
    assert_eq!(peer.verify_args(&args, &text), Verdict::KeyNeeded);
}

#[test]
fn signature_of_another_node_is_refused() {
    let (signer, other, mut peer) = (node(), node(), node());
    let id = HashId::from(5u128);
    peer.entry(id, &other.public_key_as_string().unwrap(), 1);
    let (args, text) = request(&signer, id);
    assert_eq!(peer.verify_args(&args, &text), Verdict::Refused);
}

#[test]
fn unreadable_key_is_not_entered() {
    let mut peer = node();
    let id = HashId::from(5u128);
    assert!(!peer.entry(id, "no key", 1));
    assert!(peer.if_unknown(id));
}

#[test]
fn entering_a_key_beyond_the_bound_prunes_the_oldest() {
    let mut peer = node();
    let pem = node().public_key_as_string().unwrap();
    for i in 0..65u128 {
        assert!(peer.entry(HashId::from(i), &pem, 10 + i as u64));
    }
    assert_eq!(peer.keyring.len(), 64);
    assert!(peer.if_unknown(HashId::from(0u128)));
    assert!(!peer.if_unknown(HashId::from(1u128)));
    assert!(!peer.if_unknown(HashId::from(64u128)));
}

#[test]
fn signed_answer_is_accepted() {
    let (signer, mut peer) = (node(), node());
    let id = HashId::from(5u128);
    let ctx = ReplyContext { id, addr: addr(), timestamp: 3 };
    let answer: RpcResult<String> = RpcResult::Ping;
    let text = format!("{:?}", answer);
    let results = signer.results(ctx, answer, &text).unwrap();
    assert_eq!(results.1, ctx);
    assert!(matches!(results.0, RpcResult::Ping));

    assert!(!peer.verify_results(id, &results, &text));
    peer.entry(id, &signer.public_key_as_string().unwrap(), 1);
    assert!(peer.verify_results(id, &results, &text));
    assert!(!peer.verify_results(id, &results, "Bad"));
}
