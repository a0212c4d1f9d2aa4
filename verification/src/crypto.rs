//! The identity of a node: its own keys, the keys of its peers, and what it
//! signs and accepts with them.
use vstd::arithmetic::power2::pow2;
use vstd::prelude::*;

use crate::keyring::{
    all_but_the_oldest_are_left, inserted_key_is_kept, is_oldest, pruned, Keyring, Known, MAX_KEYS,
};
use crate::keys::{
    accepts, are_primes, binds, is_prime, is_private, number, pkcs1_private_key,
    pkcs1_private_pem, pkcs1_public_key, pkcs1_public_pem, sha256_digest, signs, spki_public_key,
    KeyError, PrivateKey, PublicKey, MAX_MODULUS_BYTES, MIN_SIGNING_BYTES,
    PUBLIC_EXPONENT,
};
use crate::util::{HashId, ReplyContext, RpcArgs, RpcContext, RpcResult, RpcResults};

verus! {

/// The size of a generated key.
pub const KEY_BITS: usize = 2048;

/// What a node makes of a signed request.
#[derive(Clone, Copy, Debug, PartialEq, Eq, Structural)]
pub enum Verdict {
    /// The key of the sender is known and accepts the signature.
    Accepted,
    /// The key of the sender is known and does not accept the signature.
    Refused,
    /// The key of the sender is not known.
    KeyNeeded,
}

/// What a node with the keys `ring` makes of `data` signed by `id`.
pub open spec fn verdict(
    ring: Map<HashId, Known>,
    id: HashId,
    data: Seq<char>,
    signature: Seq<char>,
) -> Verdict {
    if !ring.contains_key(id) {
        Verdict::KeyNeeded
    } else if accepts(ring[id].0, data, signature) {
        Verdict::Accepted
    } else {
        Verdict::Refused
    }
}

/// The keys `ring` after `pem` was put in as the key of `id` at the time `now`.
pub open spec fn entered(
    ring: Map<HashId, Known>,
    id: HashId,
    pem: Seq<char>,
    now: u64,
) -> Map<HashId, Known> {
    match pkcs1_public_key(pem) {
        Some(key) => pruned(ring.insert(id, (key, now))),
        None => ring,
    }
}

/// The keys of a node and those of its peers.
pub struct Crypto {
    pub private: PrivateKey,
    pub public: PublicKey,
    pub keyring: Keyring,
}

impl Crypto {
    /// Whether the public key is the public half of the private key.
    pub open spec fn is_matched(self) -> bool {
        self.public@ == (self.private@.0, self.private@.1)
    }

    /// Whether the node can sign: its key has two unequal primes as factors, and
    /// room for a signature.
    pub open spec fn can_sign(self) -> bool {
        &&& are_primes(self.private@.3, self.private@.4)
        &&& self.private@.0.len() >= MIN_SIGNING_BYTES
    }

    /// A node with a new random key that knows no peer. It can sign where the
    /// factors of the key are primes.
    pub fn new() -> (res: Result<Crypto, KeyError>)
        ensures
            res is Ok,
            res matches Ok(c) ==> c.is_matched() && is_private(
                c.private@.0,
                c.private@.1,
                c.private@.2,
                c.private@.3,
                c.private@.4,
            ),
            res matches Ok(c) ==> 8 * c.public@.0.len() == KEY_BITS == 2048,
            res matches Ok(c) ==> c.public@.0 == c.private@.0 && c.public@.1 == c.private@.1,
            res matches Ok(c) ==> pow2((KEY_BITS - 1) as nat) <= number(c.public@.0) < pow2(
                KEY_BITS as nat,
            ),
            res matches Ok(c) ==> number(c.public@.1) == PUBLIC_EXPONENT == 65537,
            res matches Ok(c) ==> number(c.private@.3) != number(c.private@.4),
            res matches Ok(c) ==> is_prime(number(c.private@.3)) && is_prime(number(c.private@.4))
                ==> c.can_sign(),
            res matches Ok(c) ==> c.keyring@ == Map::<HashId, Known>::empty(),
    {
        match PrivateKey::generate(KEY_BITS) {
            Ok(private) => Ok(Crypto::from_key(private)),
            Err(e) => Err(e),
        }
    }

    /// A node with the key `private` and its public half, that knows no peer.
    pub fn from_key(private: PrivateKey) -> (res: Crypto)
        ensures
            res.private == private,
            res.is_matched(),
            res.public@.0 == private@.0 && res.public@.1 == private@.1,
            res.keyring@ == Map::<HashId, Known>::empty(),
    {
        let public = private.to_public_key();
        Crypto { private, public, keyring: Keyring::new() }
    }

    /// A node with the keys of two texts, that knows no peer: the private key
    /// in PKCS#1, the public key as a subject public key. Whether the two
    /// belong together is not looked at.
    pub fn from_pem(private_pem: &str, public_pem: &str) -> (res: Result<Crypto, KeyError>)
        ensures
            res matches Ok(c) ==> pkcs1_private_key(private_pem@) == Some(c.private@),
            res matches Ok(c) ==> spki_public_key(public_pem@) == Some(c.public@),
            res matches Ok(c) ==> c.public@.0.len() <= MAX_MODULUS_BYTES,
            res matches Ok(c) ==> c.keyring@ == Map::<HashId, Known>::empty(),
            res is Ok <==> pkcs1_private_key(private_pem@) is Some && spki_public_key(
                public_pem@,
            ) is Some,
            res matches Err(e) ==> e == if pkcs1_private_key(private_pem@) is None {
                KeyError::ReadPrivate
            } else {
                KeyError::ReadPublic
            },
    {
        match PrivateKey::from_pkcs1_pem(private_pem) {
            Ok(private) => match PublicKey::from_public_key_pem(public_pem) {
                Ok(public) => Ok(Crypto { private, public, keyring: Keyring::new() }),
                Err(e) => Err(e),
            },
            Err(e) => Err(e),
        }
    }

    /// The public key as text, as peers are given it and as it is written to a
    /// file: PKCS#1, which `from_pem` does not read.
    pub fn public_key_as_string(&self) -> (res: Result<String, KeyError>)
        ensures
            res matches Ok(pem) ==> pkcs1_public_pem(self.public@.0, self.public@.1) == Some(pem@),
            res matches Err(e) ==> pkcs1_public_pem(self.public@.0, self.public@.1) is None && e
                == KeyError::WritePublic,
            res matches Ok(pem) ==> self.public@.0.len() <= MAX_MODULUS_BYTES ==> pkcs1_public_key(
                pem@,
            ) == Some(self.public@),
            res matches Ok(pem) ==> spki_public_key(pem@) is None,
            self.public@.0.len() <= MAX_MODULUS_BYTES ==> res is Ok,
    {
        self.public.to_pkcs1_pem()
    }

    /// The private key as text, as it is written to a file.
    pub fn private_key_as_string(&self) -> (res: Result<String, KeyError>)
        ensures
            res matches Ok(pem) ==> pkcs1_private_pem(
                self.private@.0,
                self.private@.1,
                self.private@.2,
                self.private@.3,
                self.private@.4,
            ) == Some(pem@),
            res matches Err(e) ==> pkcs1_private_pem(
                self.private@.0,
                self.private@.1,
                self.private@.2,
                self.private@.3,
                self.private@.4,
            ) is None && e == KeyError::WritePrivate,
            res matches Ok(pem) ==> pkcs1_private_key(pem@) == Some(self.private@),
            are_primes(self.private@.3, self.private@.4) && self.private@.0.len()
                <= MAX_MODULUS_BYTES && self.private@.2.len() <= MAX_MODULUS_BYTES ==> res is Ok,
    {
        self.private.to_pkcs1_pem()
    }

    /// Signs `data` with the private key, in upper-case hexadecimal.
    pub fn sign(&self, data: &str) -> (res: Result<String, KeyError>)
        ensures
            res matches Ok(text) ==> signs(self.private@, data@, text@),
            res matches Ok(text) ==> accepts((self.private@.0, self.private@.1), data@, text@),
            res matches Err(e) ==> e == KeyError::Sign,
            self.can_sign() ==> res is Ok,
            are_primes(self.private@.3, self.private@.4) && self.private@.0.len() >= 62 ==> res is Ok,
            self.private@.0.len() < MIN_SIGNING_BYTES ==> res is Err,
    {
        self.private.sign(data)
    }

    /// Whether the known key of `id` accepts `sig` as a signature of `data`.
    pub fn verify(&self, id: HashId, data: &str, sig: &str) -> (res: bool)
        requires
            self.keyring@.contains_key(id),
        ensures
            res == accepts(self.keyring@[id].0, data@, sig@),
            res ==> binds(self.keyring@[id].0, data@, sig@),
            res ==> sig@.len() == 2 * self.keyring@[id].0.0.len(),
    {
        match self.keyring.get(id) {
            Some((key, _)) => key.verify(data, sig),
            None => false,
        }
    }

    /// Signs the request `ctx`, whose serialised form is `text`.
    pub fn args<E>(&self, ctx: RpcContext<E>, text: &str) -> (res: Result<RpcArgs<E>, KeyError>)
        ensures
            res matches Ok(args) ==> args.0 == ctx && signs(self.private@, text@, args.1@),
            res matches Ok(args) ==> accepts((self.private@.0, self.private@.1), text@, args.1@),
            res matches Err(e) ==> e == KeyError::Sign,
            self.can_sign() ==> res is Ok,
            are_primes(self.private@.3, self.private@.4) && self.private@.0.len() >= 62 ==> res is Ok,
            self.private@.0.len() < MIN_SIGNING_BYTES ==> res is Err,
    {
        match self.sign(text) {
            Ok(sign) => Ok(ctx.signed(sign)),
            Err(e) => Err(e),
        }
    }

    /// Signs the answer `res`, whose serialised form is `text`, and gives it
    /// with its context `ctx`.
    pub fn results<E>(&self, ctx: ReplyContext, res: RpcResult<E>, text: &str) -> (signed: Result<
        RpcResults<E>,
        KeyError,
    >)
        ensures
            signed matches Ok(results) ==> results.0 == res && results.1 == ctx && signs(
                self.private@,
                text@,
                results.2@,
            ),
            signed matches Ok(results) ==> accepts(
                (self.private@.0, self.private@.1),
                text@,
                results.2@,
            ),
            signed matches Err(e) ==> e == KeyError::Sign,
            self.can_sign() ==> signed is Ok,
            are_primes(self.private@.3, self.private@.4) && self.private@.0.len() >= 62
                ==> signed is Ok,
            self.private@.0.len() < MIN_SIGNING_BYTES ==> signed is Err,
    {
        match self.sign(text) {
            Ok(sign) => Ok(res.signed(ctx, sign)),
            Err(e) => Err(e),
        }
    }

    /// Puts in `key` as the key of `id` at the time `now`, if it can be read,
    /// and lets go of the oldest key where there are then too many. Gives back
    /// whether it could be read.
    pub fn entry(&mut self, id: HashId, key: &str, now: u64) -> (res: bool)
        ensures
            res == (pkcs1_public_key(key@) is Some),
            final(self).keyring@ == entered(old(self).keyring@, id, key@, now),
            !res ==> final(self).keyring@ == old(self).keyring@,
            pkcs1_public_key(key@) matches Some(public) ==> old(self).keyring@.insert(
                id,
                (public, now),
            ).len() <= 64 ==> final(self).keyring@ == old(self).keyring@.insert(id, (public, now)),
            forall|other: HashId| #[trigger]
                final(self).keyring@.contains_key(other) && other != id ==> old(
                    self,
                ).keyring@.contains_key(other) && final(self).keyring@[other] == old(
                    self,
                ).keyring@[other],
            final(self).private == old(self).private,
            final(self).public == old(self).public,
    {
        if let Ok(public) = PublicKey::from_pkcs1_pem(key) {
            self.keyring.insert(id, public, now);
            true
        } else {
            false
        }
    }

    /// Lets go of the key of `id`, if there is one.
    pub fn remove(&mut self, id: HashId)
        ensures
            final(self).keyring@ == old(self).keyring@.remove(id),
            final(self).private == old(self).private,
            final(self).public == old(self).public,
    {
        self.keyring.remove(id);
    }

    /// Whether the key of `id` is still to be asked for. What is then done
    /// about it decides; for a known peer nothing is done.
    pub fn if_unknown(&self, id: HashId) -> (res: bool)
        ensures
            res == !self.keyring@.contains_key(id),
    {
        !self.keyring.contains(id)
    }

    /// Checks the request `args`, whose serialised form is `text`.
    pub fn verify_args<E>(&self, args: &RpcArgs<E>, text: &str) -> (res: Verdict)
        ensures
            res == verdict(self.keyring@, args.0.id, text@, args.1@),
            res is Accepted ==> binds(self.keyring@[args.0.id].0, text@, args.1@) && args.1@.len()
                == 2 * self.keyring@[args.0.id].0.0.len(),
    {
        if self.keyring.contains(args.0.id) {
            if self.verify(args.0.id, text, args.1.as_str()) {
                Verdict::Accepted
            } else {
                Verdict::Refused
            }
        } else {
            Verdict::KeyNeeded
        }
    }

    /// Checks the request `args`, whose serialised form is `text`, after its
    /// sender was asked for a key. A sender that is still unknown is given up.
    pub fn verify_args_again<E>(&mut self, args: &RpcArgs<E>, text: &str) -> (res: bool)
        ensures
            res == (verdict(old(self).keyring@, args.0.id, text@, args.1@) == Verdict::Accepted),
            res ==> binds(old(self).keyring@[args.0.id].0, text@, args.1@) && args.1@.len() == 2
                * old(self).keyring@[args.0.id].0.0.len(),
            final(self).keyring@ == old(self).keyring@,
            final(self).private == old(self).private,
            final(self).public == old(self).public,
    {
        if self.keyring.contains(args.0.id) {
            self.verify(args.0.id, text, args.1.as_str())
        } else {
            self.remove(args.0.id);
            proof {
                assert(self.keyring@ =~= old(self).keyring@);
            }
            false
        }
    }

    /// Checks the answer `results` of `id`, whose serialised form is `text`. An
    /// unknown peer is given up.
    pub fn verify_results<E>(&mut self, id: HashId, results: &RpcResults<E>, text: &str) -> (res:
        bool)
        ensures
            res == (verdict(old(self).keyring@, id, text@, results.2@) == Verdict::Accepted),
            res ==> binds(old(self).keyring@[id].0, text@, results.2@) && results.2@.len() == 2
                * old(self).keyring@[id].0.0.len(),
            final(self).keyring@ == old(self).keyring@,
            final(self).private == old(self).private,
            final(self).public == old(self).public,
    {
        if self.keyring.contains(id) {
            self.verify(id, text, results.2.as_str())
        } else {
            self.remove(id);
            proof {
                assert(self.keyring@ =~= old(self).keyring@);
            }
            false
        }
    }
}

/// What a node signs, a peer that holds its public key accepts. The signature
/// is any that `sign`, `args` or `results` of the signer can give for the text.
pub proof fn signed_text_is_accepted(
    signer: Crypto,
    ring: Map<HashId, Known>,
    id: HashId,
    text: Seq<char>,
    signature: Seq<char>,
)
    requires
        signer.is_matched(),
        accepts((signer.private@.0, signer.private@.1), text, signature),
        ring.contains_key(id),
        ring[id].0 == signer.public@,
    ensures
        verdict(ring, id, text, signature) == Verdict::Accepted,
{
}

/// What a node signed is refused, by a peer that holds its public key, together
/// with any text that has another digest: a request or an answer that was
/// altered is not taken for the one that was signed. The signature is any that
/// `sign`, `args` or `results` of the signer can give for the text.
pub proof fn altered_text_is_refused(
    signer: Crypto,
    ring: Map<HashId, Known>,
    id: HashId,
    text: Seq<char>,
    signature: Seq<char>,
    altered: Seq<char>,
)
    requires
        signer.is_matched(),
        signs(signer.private@, text, signature),
        ring.contains_key(id),
        ring[id].0 == signer.public@,
        sha256_digest(altered)@ != sha256_digest(text)@,
    ensures
        verdict(ring, id, altered, signature) == Verdict::Refused,
{
}

/// A node that can sign gives one signature of a text, whichever call is made.
pub proof fn signature_is_the_same_each_time(
    signer: Crypto,
    text: Seq<char>,
    first: Seq<char>,
    second: Seq<char>,
)
    requires
        signer.can_sign(),
        signs(signer.private@, text, first),
        signs(signer.private@, text, second),
    ensures
        first == second,
{
}

/// The public key that a node gives out as text is, once it was put in, the key
/// that the peer holds of it, unless the ring was full and the new key would be
/// its oldest.
pub proof fn key_text_is_entered_as_the_key(
    node: Crypto,
    pem: Seq<char>,
    ring: Map<HashId, Known>,
    id: HashId,
    now: u64,
)
    requires
        pkcs1_public_key(pem) == Some(node.public@),
        ring.dom().finite(),
        ring.insert(id, (node.public@, now)).len() <= MAX_KEYS || !is_oldest(
            ring.insert(id, (node.public@, now)),
            id,
        ),
    ensures
        entered(ring, id, pem, now).contains_key(id),
        entered(ring, id, pem, now)[id] == (node.public@, now),
{
    inserted_key_is_kept(ring, id, (node.public@, now));
}

/// A request of a peer that is not known asks for its key, and is accepted
/// once the key that the peer gives out was put in.
pub proof fn new_peer_is_accepted_with_its_key(
    signer: Crypto,
    pem: Seq<char>,
    ring: Map<HashId, Known>,
    id: HashId,
    now: u64,
    text: Seq<char>,
    signature: Seq<char>,
)
    requires
        signer.is_matched(),
        accepts((signer.private@.0, signer.private@.1), text, signature),
        pkcs1_public_key(pem) == Some(signer.public@),
        ring.dom().finite(),
        !ring.contains_key(id),
        ring.insert(id, (signer.public@, now)).len() <= MAX_KEYS || !is_oldest(
            ring.insert(id, (signer.public@, now)),
            id,
        ),
    ensures
        verdict(ring, id, text, signature) == Verdict::KeyNeeded,
        verdict(entered(ring, id, pem, now), id, text, signature) == Verdict::Accepted,
{
    key_text_is_entered_as_the_key(signer, pem, ring, id, now);
}

/// A key that was let go of is not known, and no other key changes.
pub proof fn removed_peer_is_unknown(
    ring: Map<HashId, Known>,
    id: HashId,
    other: HashId,
    text: Seq<char>,
    signature: Seq<char>,
)
    ensures
        verdict(ring.remove(id), id, text, signature) == Verdict::KeyNeeded,
        other != id ==> verdict(ring.remove(id), other, text, signature) == verdict(
            ring,
            other,
            text,
            signature,
        ),
{
}

/// A node makes of a signed text what its own key of the signer says: without one
/// it has to ask, and with one the signature is accepted or refused.
pub proof fn signature_is_judged_by_the_known_key(
    ring: Map<HashId, Known>,
    id: HashId,
    text: Seq<char>,
    signature: Seq<char>,
)
    ensures
        verdict(ring, id, text, signature) == Verdict::KeyNeeded <==> !ring.contains_key(id),
        ring.contains_key(id) ==> (verdict(ring, id, text, signature) == Verdict::Accepted
            <==> accepts(ring[id].0, text, signature)),
        ring.contains_key(id) ==> (verdict(ring, id, text, signature) == Verdict::Refused
            <==> !accepts(ring[id].0, text, signature)),
{
}

/// What a node makes of a signed text does not depend on the keys of others, nor
/// on when the key of the signer was put in.
pub proof fn keys_of_others_make_no_difference(
    ring: Map<HashId, Known>,
    id: HashId,
    known: Known,
    other: HashId,
    unrelated: Known,
    text: Seq<char>,
    signature: Seq<char>,
    seen: u64,
)
    requires
        other != id,
    ensures
        verdict(ring.insert(other, unrelated), id, text, signature) == verdict(
            ring,
            id,
            text,
            signature,
        ),
        verdict(ring.insert(id, known), id, text, signature) == verdict(
            ring.insert(id, (known.0, seen)),
            id,
            text,
            signature,
        ),
{
}

/// The two keys of a node belong together exactly where they have the same
/// modulus and the same public exponent.
pub proof fn matched_keys_are_halves_of_one(node: Crypto)
    ensures
        node.is_matched() <==> node.public@.0 == node.private@.0 && node.public@.1
            == node.private@.1,
{
}

/// A node can sign exactly where the factors of its key are two unequal primes
/// and the modulus has at least 62 bytes.
pub proof fn primes_and_room_are_enough_to_sign(node: Crypto)
    ensures
        node.can_sign() <==> is_prime(number(node.private@.3)) && is_prime(number(node.private@.4))
            && number(node.private@.3) != number(node.private@.4) && node.private@.0.len() >= 62,
{
}

/// Which keys a node knows once a key text that can be read as `key` was put in
/// for `id`: that key with its time, and every other as it was. Only where they
/// are then more than 64 is one of them gone, the one that every other is younger
/// than; of keys of one time the one with the greater identifier counts as the
/// younger.
pub proof fn entering_a_key_keeps_the_others(
    ring: Map<HashId, Known>,
    id: HashId,
    pem: Seq<char>,
    key: (Seq<u8>, Seq<u8>),
    now: u64,
    peer: HashId,
)
    requires
        ring.dom().finite(),
        pkcs1_public_key(pem) == Some(key),
    ensures
        ({
            let all = ring.insert(id, (key, now));
            let after = entered(ring, id, pem, now);
            &&& after.contains_key(peer) <==> (peer == id || ring.contains_key(peer)) && !(all.len()
                > 64 && forall|other: HashId| #[trigger]
                all.contains_key(other) && other != peer ==> all[peer].1 < all[other].1 || (
                all[peer].1 == all[other].1 && (peer.hi < other.hi || (peer.hi == other.hi && peer.lo
                    < other.lo))))
            &&& after.contains_key(peer) && peer == id ==> after[peer] == (key, now)
            &&& after.contains_key(peer) && peer != id ==> after[peer] == ring[peer]
            &&& all.len() <= 64 ==> after == all
            &&& all.len() > 64 ==> after.len() == all.len() - 1
        }),
{
    all_but_the_oldest_are_left(ring.insert(id, (key, now)), peer);
}

/// A key text that cannot be read changes no key.
pub proof fn unreadable_key_changes_nothing(
    ring: Map<HashId, Known>,
    id: HashId,
    pem: Seq<char>,
    now: u64,
)
    requires
        pkcs1_public_key(pem) is None,
    ensures
        entered(ring, id, pem, now) == ring,
{
}

} // verus!
