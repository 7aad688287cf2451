//! A minimal trust-gated key/value registry: clients register an Ed25519
//! public key under a username and then publish signed updates that rewrite
//! a shared named value. Only the holder of the matching private key may
//! modify entries attributed to that username.
use vstd::prelude::*;
use vstd::string::StringExecFns;

pub mod crypto;
pub mod message;
pub mod store;

verus! {

/// Greeting served by the front ends' landing route.
pub fn hello() -> (r: String)
    ensures
        r@ == "Hello world"@,
{
    String::from_str("Hello world")
}

} // verus!
