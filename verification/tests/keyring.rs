use kad::keyring::{Keyring, MAX_KEYS};
use kad::keys::{PrivateKey, PublicKey};
use kad::util::HashId;

fn some_key() -> PublicKey {
    PrivateKey::generate(512).unwrap().to_public_key()
}

#[test]
fn inserted_keys_are_found() {
    let mut ring = Keyring::new();
    assert_eq!(ring.len(), 0);
    let (first, second) = (some_key(), some_key());
    ring.insert(HashId::from(7u128), first.clone(), 1);
    ring.insert(HashId { hi: 1, lo: 0 }, second.clone(), 2);
    assert_eq!(ring.len(), 2);
    let (key, seen) = ring.get(HashId { hi: 1, lo: 0 }).unwrap();
    assert_eq!(key.to_pkcs1_pem().unwrap(), second.to_pkcs1_pem().unwrap());
    assert_eq!(seen, 2);
    assert!(ring.contains(HashId::from(7u128)));
    assert!(!ring.contains(HashId::from(8u128)));
    assert!(ring.get(HashId::from(8u128)).is_none());
}

#[test]
fn later_key_replaces_the_earlier_one() {
    let mut ring = Keyring::new();
    let (first, second) = (some_key(), some_key());
    ring.insert(HashId::from(7u128), first, 1);
    ring.insert(HashId::from(7u128), second.clone(), 9);
    assert_eq!(ring.len(), 1);
    let (key, seen) = ring.get(HashId::from(7u128)).unwrap();
    assert_eq!(key.to_pkcs1_pem().unwrap(), second.to_pkcs1_pem().unwrap());
    assert_eq!(seen, 9);
}

#[test]
fn oldest_key_is_pruned() {
    let key = some_key();
    let mut ring = Keyring::new();
    for i in 0..64u128 {
        ring.insert(HashId::from(i), key.clone(), if i == 40 { 1 } else { 100 + i as u64 });
    }
    assert_eq!(ring.len(), MAX_KEYS);
    ring.insert(HashId::from(1000u128), key.clone(), 500);
    assert_eq!(ring.len(), 64);
    assert!(!ring.contains(HashId::from(40u128)));
    assert!(ring.contains(HashId::from(0u128)));
    assert!(ring.contains(HashId::from(1000u128)));
}

#[test]
fn smallest_identifier_is_pruned_among_equals() {
    let key = some_key();
    let mut ring = Keyring::new();
    for i in 10..74u128 {
        ring.insert(HashId::from(i), key.clone(), 5);
    }
    ring.insert(HashId::from(100u128), key.clone(), 5);
    assert!(!ring.contains(HashId::from(10u128)));
    assert!(ring.contains(HashId::from(11u128)));
    // a key that is itself the oldest does not stay
    ring.insert(HashId::from(2u128), key.clone(), 5);
    assert!(!ring.contains(HashId::from(2u128)));
    assert_eq!(ring.len(), 64);
}

#[test]
fn full_ring_takes_a_known_peer_without_pruning() {
    let key = some_key();
    let mut ring = Keyring::new();
    for i in 0..64u128 {
        ring.insert(HashId::from(i), key.clone(), 5);
    }
    ring.insert(HashId::from(3u128), key.clone(), 6);
    assert_eq!(ring.len(), 64);
    assert!(ring.contains(HashId::from(0u128)));
    assert_eq!(ring.get(HashId::from(3u128)).unwrap().1, 6);
}

#[test]
fn removed_key_is_gone() {
    let key = some_key();
    let mut ring = Keyring::new();
    ring.insert(HashId::from(1u128), key.clone(), 1);
    ring.insert(HashId::from(2u128), key.clone(), 1);
    ring.remove(HashId::from(1u128));
    ring.remove(HashId::from(9u128));
    assert!(!ring.contains(HashId::from(1u128)));
    assert!(ring.contains(HashId::from(2u128)));
    assert_eq!(ring.len(), 1);
}

#[test]
fn high_half_counts_more_than_the_low_one() {
    let key = some_key();
    let mut ring = Keyring::new();
    ring.insert(HashId { hi: 0, lo: u128::MAX }, key.clone(), 5);
    for i in 0..64u128 {
        ring.insert(HashId { hi: 1, lo: i }, key.clone(), 5);
    }
    assert_eq!(ring.len(), 64);
    assert!(!ring.contains(HashId { hi: 0, lo: u128::MAX }));
    assert!(ring.contains(HashId { hi: 1, lo: 0 }));
}
