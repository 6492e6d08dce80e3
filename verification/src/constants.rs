//! Names that are fixed for the whole library.
use vstd::prelude::*;

verus! {

/// The name of this crate.
pub const CRATE_NAME: &'static str = "ramflux-sdk";

/// The protocol that a gateway session speaks.
pub const GATEWAY_SESSION_PROTOCOL_VERSION: &'static str = "ramflux.gateway_session.v1";

/// The domain of the hash of an opening frame.
pub const GATEWAY_OPEN_HASH_DOMAIN: &'static str = "ramflux.gateway.open.v1";

/// The domain of the hash of a device proof.
pub const GATEWAY_DEVICE_PROOF_HASH_DOMAIN: &'static str = "ramflux.gateway.device_proof.v1";

/// The domain of the hash of a nonce.
pub const GATEWAY_NONCE_DOMAIN: &'static str = "ramflux.sdk.gateway.nonce.v1";

/// How long a step of a gateway session may take, in seconds.
pub const GATEWAY_SESSION_NETWORK_TIMEOUT: u64 = 15;

/// The name of this crate.
pub fn crate_name() -> (name: &'static str)
    ensures
        name@ == "ramflux-sdk"@,
{
    CRATE_NAME
}

} // verus!
