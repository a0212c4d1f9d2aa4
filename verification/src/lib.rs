//! The message layer of a Kademlia node: who a peer is, how its requests are
//! signed and checked, and what each request is answered.
pub mod crypto;
pub mod hex;
pub mod keys;
pub mod keyring;
pub mod network;
pub mod rpc;
pub mod util;
