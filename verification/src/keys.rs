//! RSA keys as numbers, and the calls that read, write and use them.
use rsa::pkcs1::{
    DecodeRsaPrivateKey, DecodeRsaPublicKey, EncodeRsaPrivateKey, EncodeRsaPublicKey, LineEnding,
};
use rsa::pkcs1v15::{Signature, SigningKey, VerifyingKey};
use rsa::pkcs8::DecodePublicKey;
use rsa::sha2::{Digest, Sha256};
use rsa::signature::{RandomizedSigner, Verifier};
use rsa::traits::{PrivateKeyParts, PublicKeyParts};
use rsa::{BigUint, RsaPrivateKey, RsaPublicKey};
use vstd::arithmetic::div_mod::lemma_fundamental_div_mod_converse;
use vstd::arithmetic::mul::lemma_mul_is_commutative;
use vstd::arithmetic::power::pow;
use vstd::arithmetic::power2::pow2;
use vstd::prelude::*;

use crate::hex::{
    bytes_of, decode_hex, upper_text, upper_text_is_written_digit_by_digit, upper_text_reads_back,
};

verus! {

/// The longest modulus, in bytes, of a public key that can be read from text.
pub const MAX_MODULUS_BYTES: usize = 512;

/// The shortest modulus, in bytes, that has room for a signature of a SHA-256
/// digest.
pub const MIN_SIGNING_BYTES: usize = 62;

/// The exponent of a generated key.
pub const PUBLIC_EXPONENT: u64 = 65537;

/// The number that big-endian `bytes` write.
#[verifier::opaque]
pub open spec fn number(bytes: Seq<u8>) -> nat
    decreases bytes.len(),
{
    if bytes.len() == 0 {
        0
    } else {
        number(bytes.drop_last()) * 256 + bytes.last() as nat
    }
}

/// Whether `bytes` write their number without a leading zero.
pub open spec fn is_shortest(bytes: Seq<u8>) -> bool {
    &&& bytes.len() > 0
    &&& bytes.len() > 1 ==> bytes[0] != 0
}

/// Whether modulus `n` and exponent `e` make a public key.
pub open spec fn is_public(n: Seq<u8>, e: Seq<u8>) -> bool {
    &&& is_shortest(n)
    &&& is_shortest(e)
    &&& number(n) % 2 == 1
    &&& number(e) % 2 == 1
    &&& 2 <= number(e) <= 0x1_ffff_ffff
    &&& number(e) < number(n)
}

/// Whether `d` is an exponent that undoes `e` for the prime `p`.
pub open spec fn undoes(d: Seq<u8>, e: Seq<u8>, p: Seq<u8>) -> bool {
    &&& number(p) > 1
    &&& (number(e) * number(d)) % ((number(p) - 1) as nat) == 1
}

/// Whether modulus `n`, exponents `e` and `d` and factors `p` and `q` make a
/// private key.
pub open spec fn is_private(
    n: Seq<u8>,
    e: Seq<u8>,
    d: Seq<u8>,
    p: Seq<u8>,
    q: Seq<u8>,
) -> bool {
    &&& is_public(n, e)
    &&& is_shortest(d)
    &&& is_shortest(p)
    &&& is_shortest(q)
    &&& number(p) * number(q) == number(n)
    &&& undoes(d, e, p)
    &&& undoes(d, e, q)
}

/// Whether `d` divides `n`.
pub open spec fn divides(d: nat, n: nat) -> bool {
    d > 0 && n % d == 0
}

/// Whether `n` is a prime number.
pub open spec fn is_prime(n: nat) -> bool {
    &&& n > 1
    &&& forall|d: nat| #[trigger] divides(d, n) ==> d == 1 || d == n
}

/// Whether `p` and `q` are two unequal primes.
pub open spec fn are_primes(p: Seq<u8>, q: Seq<u8>) -> bool {
    &&& is_prime(number(p))
    &&& is_prime(number(q))
    &&& number(p) != number(q)
}

/// Why a key could not be made, read, written or used.
#[derive(Clone, Copy, Debug, PartialEq, Eq, Structural)]
pub enum KeyError {
    Generate,
    ReadPrivate,
    ReadPublic,
    WritePrivate,
    WritePublic,
    Sign,
}

/// The error of key generation.
#[verifier::external_type_specification]
#[verifier::external_body]
pub struct ExRsaError(rsa::Error);

/// The error of reading and writing PKCS#1 text.
#[verifier::external_type_specification]
#[verifier::external_body]
pub struct ExPkcs1Error(rsa::pkcs1::Error);

/// The error of reading subject public key text.
#[verifier::external_type_specification]
#[verifier::external_body]
pub struct ExSpkiError(rsa::pkcs8::spki::Error);

/// The error of signing.
#[verifier::external_type_specification]
#[verifier::external_body]
pub struct ExSignatureError(rsa::signature::Error);

/// Modulus and exponent of the key that `RsaPublicKey::from_pkcs1_pem` reads
/// from a text, none where it reads none.
pub uninterp spec fn pkcs1_public_key(pem: Seq<char>) -> Option<(Seq<u8>, Seq<u8>)>;

/// Modulus and exponent of the key that `RsaPublicKey::from_public_key_pem`
/// reads from a text, none where it reads none.
pub uninterp spec fn spki_public_key(pem: Seq<char>) -> Option<(Seq<u8>, Seq<u8>)>;

/// Modulus, exponents and factors of the key that
/// `RsaPrivateKey::from_pkcs1_pem` reads from a text, none where it reads none.
pub uninterp spec fn pkcs1_private_key(pem: Seq<char>) -> Option<
    (Seq<u8>, Seq<u8>, Seq<u8>, Seq<u8>, Seq<u8>),
>;

/// The text that `RsaPublicKey::to_pkcs1_pem` writes, with line feeds, for a
/// key with this modulus and exponent, none where it writes none.
pub uninterp spec fn pkcs1_public_pem(n: Seq<u8>, e: Seq<u8>) -> Option<Seq<char>>;

/// The text that `RsaPrivateKey::to_pkcs1_pem` writes, with line feeds, for a
/// key with this modulus, these exponents and these factors, none where it
/// writes none.
pub uninterp spec fn pkcs1_private_pem(
    n: Seq<u8>,
    e: Seq<u8>,
    d: Seq<u8>,
    p: Seq<u8>,
    q: Seq<u8>,
) -> Option<Seq<char>>;

/// What `Sha256::digest` gives of the UTF-8 bytes of a text.
pub uninterp spec fn sha256_digest(data: Seq<char>) -> [u8; 32];

/// What stands before a SHA-256 digest in a signature: the header of a sequence
/// that holds the identifier of SHA-256 and the digest.
pub open spec fn sha256_prefix() -> Seq<u8> {
    seq![
        0x30u8, 0x31u8, 0x30u8, 0x0du8, 0x06u8, 0x09u8, 0x60u8, 0x86u8, 0x48u8, 0x01u8, 0x65u8,
        0x03u8, 0x04u8, 0x02u8, 0x01u8, 0x05u8, 0x00u8, 0x04u8, 0x20u8,
    ]
}

/// The digest of `data`, padded to `len` bytes as PKCS#1 v1.5 does for
/// signatures.
pub open spec fn padded_digest(len: nat, data: Seq<char>) -> Seq<u8> {
    seq![0x00u8, 0x01u8] + Seq::new((len - 54) as nat, |i: int| 0xffu8) + seq![0x00u8]
        + sha256_prefix() + sha256_digest(data)@
}

/// Whether `signature` is a PKCS#1 v1.5 signature of the SHA-256 digest of `data`
/// under the key with modulus `n` and exponent `e`: as long as the modulus, a
/// number below it, and taken by the exponent to the padded digest.
pub open spec fn pkcs1v15_accepts(
    n: Seq<u8>,
    e: Seq<u8>,
    data: Seq<char>,
    signature: Seq<u8>,
) -> bool {
    &&& n.len() >= MIN_SIGNING_BYTES
    &&& signature.len() == n.len()
    &&& number(signature) < number(n)
    &&& pow(number(signature) as int, number(e)) % (number(n) as int) == number(
        padded_digest(n.len(), data),
    )
}

/// The signature of `data` under the key with modulus `n` and exponent `e`. There
/// is exactly one where the modulus has room and its factors are two unequal
/// primes.
pub open spec fn pkcs1v15_signature(n: Seq<u8>, e: Seq<u8>, data: Seq<char>) -> Seq<u8> {
    choose|signature: Seq<u8>| pkcs1v15_accepts(n, e, data, signature)
}

/// Whether `signature`, in hexadecimal, is one of `data` under the public key
/// with modulus `key.0` and exponent `key.1`.
pub open spec fn accepts(
    key: (Seq<u8>, Seq<u8>),
    data: Seq<char>,
    signature: Seq<char>,
) -> bool {
    bytes_of(signature) matches Some(bytes) && pkcs1v15_accepts(key.0, key.1, data, bytes)
}

/// Whether `signature` is one of `data` under `key`, and of no text with another
/// digest.
pub open spec fn binds(
    key: (Seq<u8>, Seq<u8>),
    data: Seq<char>,
    signature: Seq<char>,
) -> bool {
    &&& accepts(key, data, signature)
    &&& forall|other: Seq<char>| #[trigger]
        accepts(key, other, signature) == (sha256_digest(other)@ == sha256_digest(data)@)
}

/// Whether `text` is what the private key `key` (modulus, exponents and factors)
/// gives as a signature of `data`: as many bytes as the modulus has, in
/// upper-case hexadecimal, that the public half takes for a signature of `data`
/// and of no text with another digest. Where the factors are two unequal primes
/// there is only one such text.
pub open spec fn signs(
    key: (Seq<u8>, Seq<u8>, Seq<u8>, Seq<u8>, Seq<u8>),
    data: Seq<char>,
    text: Seq<char>,
) -> bool {
    &&& binds((key.0, key.1), data, text)
    &&& text == upper_text(bytes_of(text)->Some_0)
    &&& text.len() == 2 * key.0.len()
    &&& are_primes(key.3, key.4) ==> text == upper_text(pkcs1v15_signature(key.0, key.1, data))
}

/// An RSA public key: modulus and exponent, each in big-endian bytes.
#[derive(Debug)]
pub struct PublicKey {
    n: Vec<u8>,
    e: Vec<u8>,
}

impl View for PublicKey {
    type V = (Seq<u8>, Seq<u8>);

    closed spec fn view(&self) -> (Seq<u8>, Seq<u8>) {
        (self.n@, self.e@)
    }
}

/// An RSA private key with two factors: its public half, the private exponent
/// and the factors, each in big-endian bytes.
pub struct PrivateKey {
    public: PublicKey,
    d: Vec<u8>,
    p: Vec<u8>,
    q: Vec<u8>,
}

impl View for PrivateKey {
    type V = (Seq<u8>, Seq<u8>, Seq<u8>, Seq<u8>, Seq<u8>);

    closed spec fn view(&self) -> (Seq<u8>, Seq<u8>, Seq<u8>, Seq<u8>, Seq<u8>) {
        (self.public@.0, self.public@.1, self.d@, self.p@, self.q@)
    }
}

/// Calls `RsaPrivateKey::new` with the thread's random number generator. It looks
/// for a key until it has one, so that a key always comes back, another one with
/// each call. The key has two unequal factors, a modulus of exactly `bits` bits
/// and the exponent 65537, and has passed `RsaPrivateKey::validate`. The factors
/// have passed a probabilistic test for primes; that they are primes is not
/// claimed.
#[verifier::external_body]
fn generate_key(bits: usize) -> (res: Result<PrivateKey, rsa::Error>)
    requires
        64 <= bits <= 4096,
    ensures
        res is Ok,
        res matches Ok(key) ==> is_private(key@.0, key@.1, key@.2, key@.3, key@.4),
        res matches Ok(key) ==> key@.0.len() == (bits + 7) / 8,
        res matches Ok(key) ==> pow2((bits - 1) as nat) <= number(key@.0) < pow2(bits as nat),
        res matches Ok(key) ==> number(key@.1) == PUBLIC_EXPONENT,
        res matches Ok(key) ==> number(key@.3) != number(key@.4),
{
    let key = RsaPrivateKey::new(&mut rand::thread_rng(), bits)?;
    let public = PublicKey { n: key.n().to_bytes_be(), e: key.e().to_bytes_be() };
    let d = key.d().to_bytes_be();
    Ok(PrivateKey { public, d, p: key.primes()[0].to_bytes_be(), q: key.primes()[1].to_bytes_be() })
}

/// Calls `RsaPrivateKey::from_pkcs1_pem`. A key that it reads has two factors
/// and has passed `RsaPrivateKey::validate`.
#[verifier::external_body]
fn read_private_pem(pem: &str) -> (res: Result<PrivateKey, rsa::pkcs1::Error>)
    ensures
        res matches Ok(key) ==> pkcs1_private_key(pem@) == Some(key@),
        res matches Ok(key) ==> is_private(key@.0, key@.1, key@.2, key@.3, key@.4),
        res is Err ==> pkcs1_private_key(pem@) is None,
{
    let key = RsaPrivateKey::from_pkcs1_pem(pem)?;
    let public = PublicKey { n: key.n().to_bytes_be(), e: key.e().to_bytes_be() };
    let d = key.d().to_bytes_be();
    Ok(PrivateKey { public, d, p: key.primes()[0].to_bytes_be(), q: key.primes()[1].to_bytes_be() })
}

/// Calls `RsaPublicKey::from_pkcs1_pem`. A key that it reads has passed the
/// bounds of `RsaPublicKey::new`.
#[verifier::external_body]
fn read_public_pem(pem: &str) -> (res: Result<PublicKey, rsa::pkcs1::Error>)
    ensures
        res matches Ok(key) ==> pkcs1_public_key(pem@) == Some(key@),
        res matches Ok(key) ==> is_public(key@.0, key@.1) && key@.0.len() <= MAX_MODULUS_BYTES,
        res is Err ==> pkcs1_public_key(pem@) is None,
{
    let key = RsaPublicKey::from_pkcs1_pem(pem)?;
    Ok(PublicKey { n: key.n().to_bytes_be(), e: key.e().to_bytes_be() })
}

/// Calls `RsaPublicKey::from_public_key_pem`. A key that it reads has passed
/// the bounds of `RsaPublicKey::new`.
#[verifier::external_body]
fn read_spki_pem(pem: &str) -> (res: Result<PublicKey, rsa::pkcs8::spki::Error>)
    ensures
        res matches Ok(key) ==> spki_public_key(pem@) == Some(key@),
        res matches Ok(key) ==> is_public(key@.0, key@.1) && key@.0.len() <= MAX_MODULUS_BYTES,
        res is Err ==> spki_public_key(pem@) is None,
{
    let key = RsaPublicKey::from_public_key_pem(pem)?;
    Ok(PublicKey { n: key.n().to_bytes_be(), e: key.e().to_bytes_be() })
}

/// Calls `RsaPublicKey::to_pkcs1_pem` with line feeds. `from_pkcs1_pem` reads a
/// text that it writes back as the same key, unless the modulus is over the
/// bound on what can be read. `from_public_key_pem` refuses such a text, which
/// is labelled `RSA PUBLIC KEY` and not `PUBLIC KEY`. A key within the bound is
/// always written: only lengths that do not fit give an error.
#[verifier::external_body]
fn write_public_pem(key: &PublicKey) -> (res: Result<String, rsa::pkcs1::Error>)
    requires
        is_public(key@.0, key@.1),
    ensures
        res matches Ok(pem) ==> pkcs1_public_pem(key@.0, key@.1) == Some(pem@),
        res is Err ==> pkcs1_public_pem(key@.0, key@.1) is None,
        res matches Ok(pem) ==> key@.0.len() <= MAX_MODULUS_BYTES ==> pkcs1_public_key(pem@)
            == Some(key@),
        res matches Ok(pem) ==> spki_public_key(pem@) is None,
        key@.0.len() <= MAX_MODULUS_BYTES ==> res is Ok,
{
    let n = BigUint::from_bytes_be(&key.n);
    RsaPublicKey::new_unchecked(n, BigUint::from_bytes_be(&key.e)).to_pkcs1_pem(LineEnding::LF)
}

/// Calls `RsaPrivateKey::to_pkcs1_pem` with line feeds, on the key that
/// `from_components` makes of these numbers, which it does for every private
/// key. `from_pkcs1_pem` reads a text that it writes back as the same key. A key
/// with two unequal primes and numbers of the usual length is always written:
/// only factors that have one in common, and lengths that do not fit, give an
/// error.
#[verifier::external_body]
fn write_private_pem(key: &PrivateKey) -> (res: Result<String, rsa::pkcs1::Error>)
    requires
        is_private(key@.0, key@.1, key@.2, key@.3, key@.4),
    ensures
        res matches Ok(pem) ==> pkcs1_private_pem(key@.0, key@.1, key@.2, key@.3, key@.4) == Some(
            pem@,
        ),
        res is Err ==> pkcs1_private_pem(key@.0, key@.1, key@.2, key@.3, key@.4) is None,
        res matches Ok(pem) ==> pkcs1_private_key(pem@) == Some(key@),
        are_primes(key@.3, key@.4) && key@.0.len() <= MAX_MODULUS_BYTES && key@.2.len()
            <= MAX_MODULUS_BYTES ==> res is Ok,
{
    let n = BigUint::from_bytes_be(&key.public.n);
    let e = BigUint::from_bytes_be(&key.public.e);
    let d = BigUint::from_bytes_be(&key.d);
    let primes = vec![BigUint::from_bytes_be(&key.p), BigUint::from_bytes_be(&key.q)];
    let text = RsaPrivateKey::from_components(n, e, d, primes).unwrap().to_pkcs1_pem(LineEnding::LF)?;
    Ok(text.to_string())
}

/// Calls `Sha256::digest` on the UTF-8 bytes of `data`. It gives 32 bytes, for
/// the same text always the same ones.
#[verifier::external_body]
fn digest(data: &str) -> (res: [u8; 32])
    ensures
        res == sha256_digest(data@),
{
    Sha256::digest(data.as_bytes()).into()
}

/// Calls `SigningKey::<Sha256>::try_sign_with_rng` with the thread's random
/// number generator, on the key that `from_components` makes of these numbers,
/// and writes the signature with its `Display`: two upper-case digits for each
/// byte. A signature that comes back has been checked against the public half.
/// Where the factors are two unequal primes and the modulus has room for the
/// padded digest, a signature always comes back, and it is the only one there
/// is; of other factors neither is claimed. A modulus without room gives an
/// error. A second factor that is longer than the first is left out: the call
/// adds the first factor as often as it takes to reach the second, which may be
/// too often to come to an end.
#[verifier::external_body]
fn sign_text(key: &PrivateKey, data: &str) -> (res: Result<String, rsa::signature::Error>)
    requires
        is_private(key@.0, key@.1, key@.2, key@.3, key@.4),
        key@.4.len() <= key@.3.len(),
    ensures
        res matches Ok(text) ==> (bytes_of(text@) matches Some(signature) && text@ == upper_text(
            signature,
        ) && pkcs1v15_accepts(key@.0, key@.1, data@, signature)),
        res matches Ok(text) ==> are_primes(key@.3, key@.4) ==> text@ == upper_text(
            pkcs1v15_signature(key@.0, key@.1, data@),
        ),
        are_primes(key@.3, key@.4) && key@.0.len() >= MIN_SIGNING_BYTES ==> res is Ok,
        key@.0.len() < MIN_SIGNING_BYTES ==> res is Err,
{
    let n = BigUint::from_bytes_be(&key.public.n);
    let e = BigUint::from_bytes_be(&key.public.e);
    let d = BigUint::from_bytes_be(&key.d);
    let primes = vec![BigUint::from_bytes_be(&key.p), BigUint::from_bytes_be(&key.q)];
    let key = RsaPrivateKey::from_components(n, e, d, primes).unwrap();
    let mut rng = rand::thread_rng();
    let signature = SigningKey::<Sha256>::new(key).try_sign_with_rng(&mut rng, data.as_bytes())?;
    Ok(signature.to_string())
}

/// Calls `VerifyingKey::<Sha256>::verify` on the signature that
/// `Signature::try_from` makes of `signature`, which it does for all bytes. It
/// accepts exactly the PKCS#1 v1.5 signatures of the digest of `data`.
#[verifier::external_body]
fn verify_bytes(
    key: &PublicKey,
    data: &str,
    signature: &[u8],
) -> (res: Result<bool, rsa::signature::Error>)
    requires
        is_public(key@.0, key@.1),
    ensures
        res is Ok,
        res->Ok_0 == pkcs1v15_accepts(key@.0, key@.1, data@, signature@),
{
    let n = BigUint::from_bytes_be(&key.n);
    let key = RsaPublicKey::new_unchecked(n, BigUint::from_bytes_be(&key.e));
    let signature = Signature::try_from(signature)?;
    Ok(VerifyingKey::<Sha256>::new(key).verify(data.as_bytes(), &signature).is_ok())
}

/// Bytes of one length that write the same number are the same bytes.
proof fn lemma_number_injective(a: Seq<u8>, b: Seq<u8>)
    requires
        a.len() == b.len(),
        number(a) == number(b),
    ensures
        a == b,
    decreases a.len(),
{
    reveal(number);
    if a.len() > 0 {
        lemma_number_injective(a.drop_last(), b.drop_last());
        assert(a =~= a.drop_last().push(a.last()));
        assert(b =~= b.drop_last().push(b.last()));
    }
}

/// A signature that is one of two texts shows that they have the same digest, and
/// a signature of one text is one of every text with the same digest.
pub proof fn accepted_signature_binds(
    key: (Seq<u8>, Seq<u8>),
    data: Seq<char>,
    signature: Seq<char>,
)
    requires
        accepts(key, data, signature),
    ensures
        binds(key, data, signature),
{
    assert forall|other: Seq<char>| #[trigger]
        accepts(key, other, signature) == (sha256_digest(other)@ == sha256_digest(data)@) by {
        let first = padded_digest(key.0.len(), data);
        let second = padded_digest(key.0.len(), other);
        let at = key.0.len() - 32;
        if accepts(key, other, signature) {
            lemma_number_injective(first, second);
            assert(first.skip(at) =~= sha256_digest(data)@);
            assert(second.skip(at) =~= sha256_digest(other)@);
        }
    }
}

/// Whether two texts have the same SHA-256 digest.
pub fn same_digest(first: &str, second: &str) -> (res: bool)
    ensures
        res == (sha256_digest(first@)@ == sha256_digest(second@)@),
{
    let a = digest(first);
    let b = digest(second);
    let mut i: usize = 0;
    while i < 32
        invariant
            i <= 32,
            a == sha256_digest(first@),
            b == sha256_digest(second@),
            forall|j: int| 0 <= j < i ==> a@[j] == b@[j],
        decreases 32 - i,
    {
        if a[i] != b[i] {
            return false;
        }
        i += 1;
    }
    assert(a@ =~= b@);
    true
}

impl PublicKey {
    #[verifier::type_invariant]
    spec fn inv(self) -> bool {
        is_public(self.n@, self.e@)
    }

    /// Reads a key from PKCS#1 text.
    pub fn from_pkcs1_pem(pem: &str) -> (res: Result<PublicKey, KeyError>)
        ensures
            res matches Ok(key) ==> pkcs1_public_key(pem@) == Some(key@),
            res matches Ok(key) ==> is_public(key@.0, key@.1) && key@.0.len() <= MAX_MODULUS_BYTES,
            res matches Err(e) ==> pkcs1_public_key(pem@) is None && e == KeyError::ReadPublic,
    {
        match read_public_pem(pem) {
            Ok(key) => Ok(key),
            Err(_) => Err(KeyError::ReadPublic),
        }
    }

    /// Reads a key from subject public key text.
    pub fn from_public_key_pem(pem: &str) -> (res: Result<PublicKey, KeyError>)
        ensures
            res matches Ok(key) ==> spki_public_key(pem@) == Some(key@),
            res matches Ok(key) ==> is_public(key@.0, key@.1) && key@.0.len() <= MAX_MODULUS_BYTES,
            res matches Err(e) ==> spki_public_key(pem@) is None && e == KeyError::ReadPublic,
    {
        match read_spki_pem(pem) {
            Ok(key) => Ok(key),
            Err(_) => Err(KeyError::ReadPublic),
        }
    }

    /// Writes the key as PKCS#1 text, which `from_pkcs1_pem` reads back as the
    /// same key and `from_public_key_pem` refuses.
    pub fn to_pkcs1_pem(&self) -> (res: Result<String, KeyError>)
        ensures
            res matches Ok(pem) ==> pkcs1_public_pem(self@.0, self@.1) == Some(pem@),
            res matches Err(e) ==> pkcs1_public_pem(self@.0, self@.1) is None && e
                == KeyError::WritePublic,
            res matches Ok(pem) ==> self@.0.len() <= MAX_MODULUS_BYTES ==> pkcs1_public_key(pem@)
                == Some(self@),
            res matches Ok(pem) ==> spki_public_key(pem@) is None,
            self@.0.len() <= MAX_MODULUS_BYTES ==> res is Ok,
    {
        proof {
            use_type_invariant(self);
        }
        match write_public_pem(self) {
            Ok(pem) => Ok(pem),
            Err(_) => Err(KeyError::WritePublic),
        }
    }

    /// Whether `signature`, in hexadecimal, is one of `data` under this key.
    pub fn verify(&self, data: &str, signature: &str) -> (res: bool)
        ensures
            res == accepts(self@, data@, signature@),
            res ==> binds(self@, data@, signature@),
            res ==> signature@.len() == 2 * self@.0.len(),
    {
        proof {
            use_type_invariant(self);
        }
        if let Ok(bytes) = decode_hex(signature) {
            match verify_bytes(self, data, bytes.as_slice()) {
                Ok(accepted) => {
                    proof {
                        if accepted {
                            accepted_signature_binds(self@, data@, signature@);
                        }
                    }
                    accepted
                },
                Err(_) => false,
            }
        } else {
            false
        }
    }
}

impl Clone for PublicKey {
    fn clone(&self) -> (res: PublicKey)
        ensures
            res@ == self@,
    {
        proof {
            use_type_invariant(self);
        }
        let n = self.n.clone();
        let e = self.e.clone();
        assert(n@ =~= self.n@ && e@ =~= self.e@);
        PublicKey { n, e }
    }
}

impl PrivateKey {
    #[verifier::type_invariant]
    spec fn inv(self) -> bool {
        is_private(self.public@.0, self.public@.1, self.d@, self.p@, self.q@)
    }

    /// Makes a random key whose modulus has `bits` bits.
    pub fn generate(bits: usize) -> (res: Result<PrivateKey, KeyError>)
        requires
            64 <= bits <= 4096,
        ensures
            res is Ok,
            res matches Ok(key) ==> is_private(key@.0, key@.1, key@.2, key@.3, key@.4),
            res matches Ok(key) ==> key@.0.len() == (bits + 7) / 8,
            res matches Ok(key) ==> pow2((bits - 1) as nat) <= number(key@.0) < pow2(bits as nat),
            res matches Ok(key) ==> number(key@.1) == PUBLIC_EXPONENT == 65537,
            res matches Ok(key) ==> number(key@.3) != number(key@.4),
            res matches Ok(key) ==> number(key@.3) * number(key@.4) == number(key@.0),
    {
        match generate_key(bits) {
            Ok(key) => Ok(key),
            Err(_) => Err(KeyError::Generate),
        }
    }

    /// Reads a key from PKCS#1 text.
    pub fn from_pkcs1_pem(pem: &str) -> (res: Result<PrivateKey, KeyError>)
        ensures
            res matches Ok(key) ==> pkcs1_private_key(pem@) == Some(key@),
            res matches Ok(key) ==> is_private(key@.0, key@.1, key@.2, key@.3, key@.4),
            res matches Err(e) ==> pkcs1_private_key(pem@) is None && e == KeyError::ReadPrivate,
    {
        match read_private_pem(pem) {
            Ok(key) => Ok(key),
            Err(_) => Err(KeyError::ReadPrivate),
        }
    }

    /// Writes the key as PKCS#1 text, which `from_pkcs1_pem` reads back as the
    /// same key.
    pub fn to_pkcs1_pem(&self) -> (res: Result<String, KeyError>)
        ensures
            res matches Ok(pem) ==> pkcs1_private_pem(self@.0, self@.1, self@.2, self@.3, self@.4)
                == Some(pem@),
            res matches Err(e) ==> pkcs1_private_pem(self@.0, self@.1, self@.2, self@.3, self@.4) is None
                && e == KeyError::WritePrivate,
            res matches Ok(pem) ==> pkcs1_private_key(pem@) == Some(self@),
            are_primes(self@.3, self@.4) && self@.0.len() <= MAX_MODULUS_BYTES && self@.2.len()
                <= MAX_MODULUS_BYTES ==> res is Ok,
    {
        proof {
            use_type_invariant(self);
        }
        match write_private_pem(self) {
            Ok(pem) => Ok(pem),
            Err(_) => Err(KeyError::WritePrivate),
        }
    }

    /// The public half of the key.
    pub fn to_public_key(&self) -> (res: PublicKey)
        ensures
            res@ == (self@.0, self@.1),
            is_public(res@.0, res@.1),
    {
        proof {
            use_type_invariant(self);
        }
        self.public.clone()
    }

    /// The same key with its factors in the other order.
    fn swapped(&self) -> (res: PrivateKey)
        ensures
            res@ == (self@.0, self@.1, self@.2, self@.4, self@.3),
    {
        proof {
            use_type_invariant(self);
            lemma_mul_is_commutative(number(self.p@) as int, number(self.q@) as int);
        }
        let public = self.public.clone();
        let d = self.d.clone();
        let p = self.q.clone();
        let q = self.p.clone();
        assert(d@ =~= self.d@ && p@ =~= self.q@ && q@ =~= self.p@);
        PrivateKey { public, d, p, q }
    }

    /// Signs `data`: the upper-case hexadecimal text of a signature that the
    /// public half accepts. A key with two unequal primes and a modulus with room
    /// always signs; one without room never does.
    pub fn sign(&self, data: &str) -> (res: Result<String, KeyError>)
        ensures
            res matches Ok(text) ==> signs(self@, data@, text@),
            res matches Ok(text) ==> accepts((self@.0, self@.1), data@, text@),
            res matches Err(e) ==> e == KeyError::Sign,
            are_primes(self@.3, self@.4) && self@.0.len() >= MIN_SIGNING_BYTES ==> res is Ok,
            self@.0.len() < MIN_SIGNING_BYTES ==> res is Err,
    {
        proof {
            use_type_invariant(self);
        }
        let signed = if self.q.len() <= self.p.len() {
            sign_text(self, data)
        } else {
            let longer_first = self.swapped();
            proof {
                use_type_invariant(&longer_first);
            }
            sign_text(&longer_first, data)
        };
        match signed {
            Ok(text) => {
                proof {
                    accepted_signature_binds((self@.0, self@.1), data@, text@);
                }
                Ok(text)
            },
            Err(_) => Err(KeyError::Sign),
        }
    }
}

/// No bytes write zero, and each further byte adds a digit to the base 256.
pub proof fn number_grows_byte_by_byte(bytes: Seq<u8>, next: u8)
    ensures
        number(Seq::empty()) == 0,
        number(bytes.push(next)) == 256 * number(bytes) + next,
{
    reveal(number);
    assert(bytes.push(next).drop_last() =~= bytes);
}

/// A divisor divides exactly its multiples, and zero divides nothing.
pub proof fn divisor_divides_its_multiples(d: nat, k: nat, rest: nat)
    requires
        rest < d,
    ensures
        divides(d, d * k + rest) <==> rest == 0,
        !divides(0, k),
{
    lemma_mul_is_commutative(d as int, k as int);
    lemma_fundamental_div_mod_converse((d * k + rest) as int, d as int, k as int, rest as int);
}

/// A prime is a number over one that only one and itself divide.
pub proof fn prime_has_two_divisors(n: nat)
    ensures
        is_prime(n) <==> n > 1 && forall|d: nat| #[trigger] divides(d, n) ==> d == 1 || d == n,
{
}

/// Two factors are two unequal primes exactly where each is one and their numbers
/// differ, in either order.
pub proof fn primes_come_in_either_order(p: Seq<u8>, q: Seq<u8>)
    ensures
        are_primes(p, q) <==> is_prime(number(p)) && is_prime(number(q)) && number(p) != number(q),
        are_primes(p, q) <==> are_primes(q, p),
{
}

/// A public key is an odd modulus and a smaller odd exponent of at least three
/// and at most 33 bits, both written without leading zeros.
pub proof fn public_key_has_an_odd_exponent_below_its_modulus(n: Seq<u8>, e: Seq<u8>)
    ensures
        is_public(n, e) <==> {
            &&& n.len() > 0 && (n.len() > 1 ==> n[0] != 0)
            &&& e.len() > 0 && (e.len() > 1 ==> e[0] != 0)
            &&& number(n) % 2 == 1
            &&& number(e) % 2 == 1
            &&& 3 <= number(e) < 0x2_0000_0000
            &&& number(e) < number(n)
        },
{
}

/// A private key is a public one whose modulus is the product of the two
/// factors, with an exponent that, times the public one, leaves one over from
/// every factor less one.
pub proof fn private_key_has_the_factors_of_its_modulus(
    n: Seq<u8>,
    e: Seq<u8>,
    d: Seq<u8>,
    p: Seq<u8>,
    q: Seq<u8>,
)
    ensures
        is_private(n, e, d, p, q) <==> {
            &&& is_public(n, e)
            &&& d.len() > 0 && (d.len() > 1 ==> d[0] != 0)
            &&& p.len() > 0 && (p.len() > 1 ==> p[0] != 0)
            &&& q.len() > 0 && (q.len() > 1 ==> q[0] != 0)
            &&& number(p) > 1 && number(q) > 1
            &&& number(n) == number(p) * number(q)
            &&& (number(e) * number(d)) % ((number(p) - 1) as nat) == 1
            &&& (number(e) * number(d)) % ((number(q) - 1) as nat) == 1
        },
{
}

/// Bytes are taken for a signature of a text exactly where they are as long as
/// the modulus, write a smaller number, and that number, to the power of the
/// exponent and modulo the modulus, is written by a block of the length of the
/// modulus that holds nothing but the padding, the identifier of SHA-256 and the
/// digest of the text.
pub proof fn signature_opens_to_the_digest(
    n: Seq<u8>,
    e: Seq<u8>,
    data: Seq<char>,
    signature: Seq<u8>,
    block: Seq<u8>,
)
    requires
        n.len() >= 62,
        block.len() == n.len(),
        block[0] == 0 && block[1] == 1 && block[n.len() - 52] == 0,
        forall|i: int| 2 <= i < n.len() - 52 ==> #[trigger] block[i] == 0xff,
        block.subrange(n.len() - 51, n.len() - 32) == seq![
            0x30u8, 0x31, 0x30, 0x0d, 0x06, 0x09, 0x60, 0x86, 0x48, 0x01, 0x65, 0x03, 0x04, 0x02,
            0x01, 0x05, 0x00, 0x04, 0x20,
        ],
        block.skip(n.len() - 32) == sha256_digest(data)@,
    ensures
        pkcs1v15_accepts(n, e, data, signature) <==> signature.len() == n.len() && number(signature)
            < number(n) && pow(number(signature) as int, number(e)) % (number(n) as int) == number(
            block,
        ),
{
    let padded = padded_digest(n.len(), data);
    assert forall|i: int| 0 <= i < n.len() implies padded[i] == block[i] by {
        if n.len() - 51 <= i < n.len() - 32 {
            assert(block[i] == block.subrange(n.len() - 51, n.len() - 32)[i - (n.len() - 51)]);
        } else if n.len() - 32 <= i {
            assert(block[i] == block.skip(n.len() - 32)[i - (n.len() - 32)]);
        }
    }
    assert(padded =~= block);
}

/// A modulus without room for the padded digest has no signatures.
pub proof fn short_modulus_accepts_nothing(
    n: Seq<u8>,
    e: Seq<u8>,
    data: Seq<char>,
    signature: Seq<u8>,
)
    requires
        n.len() < 62,
    ensures
        !pkcs1v15_accepts(n, e, data, signature),
{
}

/// The text of a signature counts only by the bytes that it writes, so that the
/// case of its letters makes no difference, and a text that writes none is
/// refused.
pub proof fn signature_text_counts_by_its_bytes(
    key: (Seq<u8>, Seq<u8>),
    data: Seq<char>,
    text: Seq<char>,
    bytes: Seq<u8>,
)
    ensures
        bytes_of(text) == Some(bytes) ==> (accepts(key, data, text) <==> pkcs1v15_accepts(
            key.0,
            key.1,
            data,
            bytes,
        )),
        bytes_of(text) == Some(bytes) ==> accepts(key, data, text) == accepts(
            key,
            data,
            upper_text(bytes),
        ),
        bytes_of(text) is None ==> !accepts(key, data, text),
{
    upper_text_reads_back(bytes);
}

/// A signature that a private key gives is one that its public half accepts, in
/// upper-case digits, two for each byte of the modulus, and accepts of no text
/// with another digest.
pub proof fn given_signature_is_accepted(
    key: (Seq<u8>, Seq<u8>, Seq<u8>, Seq<u8>, Seq<u8>),
    data: Seq<char>,
    text: Seq<char>,
    other: Seq<char>,
)
    requires
        signs(key, data, text),
    ensures
        accepts((key.0, key.1), data, text),
        text.len() == 2 * key.0.len(),
        forall|i: int| 0 <= i < text.len() ==> "0123456789ABCDEF"@.contains(#[trigger] text[i]),
        accepts((key.0, key.1), other, text) <==> sha256_digest(other)@ == sha256_digest(data)@,
{
    let bytes = bytes_of(text)->Some_0;
    assert forall|i: int| 0 <= i < text.len() implies "0123456789ABCDEF"@.contains(
        #[trigger] text[i],
    ) by {
        reveal_strlit("0123456789ABCDEF");
        upper_text_is_written_digit_by_digit(bytes, i / 2);
        assert(i == 2 * (i / 2) || i == 2 * (i / 2) + 1);
    }
}

/// A private key whose factors are two unequal primes gives of a text one
/// signature only, whatever the order of the factors.
pub proof fn primes_give_one_signature(
    key: (Seq<u8>, Seq<u8>, Seq<u8>, Seq<u8>, Seq<u8>),
    data: Seq<char>,
    first: Seq<char>,
    second: Seq<char>,
)
    requires
        is_prime(number(key.3)) && is_prime(number(key.4)) && number(key.3) != number(key.4),
        signs(key, data, first),
        signs((key.0, key.1, key.2, key.4, key.3), data, second),
    ensures
        first == second,
{
}

} // verus!
