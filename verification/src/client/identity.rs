//! The identity of the client, its device, and the prekeys that the device publishes.
use crate::client::state::{IdentityRoot, RamfluxClient};
use crate::digest::{hash_input, hashes, HashInput};
use crate::dm::{x3dh_private_checkpoint_name, SdkX3dhPrivateState};
use crate::error::{is_rejected, SdkError};
use crate::gateway::engine::check_session_bound;
use crate::gateway::protocol::{saturated_sum, saturating_sum};
use crate::object::DeviceBranch;
use crate::prekey::{BranchProofDocument, PrekeyBundle, SdkMvp1IdentityRegistrationResponse};
use crate::records::{AccountDbRequest, EventWrite};
use vstd::prelude::*;

verus! {

/// The wish that a device's prekeys be published.
#[derive(Clone, Debug, PartialEq, Eq)]
pub struct SdkMvp1PublishPrekeyRequest {
    pub device_id: String,
    pub bundle: PrekeyBundle,
}

/// The wish that an identity be registered.
#[derive(Clone, Debug, PartialEq, Eq)]
pub struct SdkMvp1RegisterIdentityRequest {
    pub root_public_key: String,
    pub principal_commitment: String,
    pub branch_public_key: String,
    pub proof: BranchProofDocument,
    pub target_delivery_id: String,
    pub gateway_id: String,
    pub session_id: String,
    pub push_alias_hash: Option<String>,
    pub now: i64,
    pub registration_pow: Option<String>,
    pub source_ip_hash: Option<String>,
}

/// What the root's proof for a device says.
#[derive(Clone, Debug, PartialEq, Eq)]
pub struct BranchProofTerms {
    pub audience: String,
    pub capability_scope: Vec<String>,
    pub issued_at: i64,
    pub expires_at: i64,
}

/// The terms under which a device is registered: for an hour, and for deliveries alone.
pub fn registration_proof_terms(now: i64) -> (r: BranchProofTerms)
    ensures
        r.audience@ == "ramflux-node"@,
        r.capability_scope@.len() == 1,
        r.capability_scope@[0]@ == "device.delivery.bind"@,
        r.issued_at == now,
        r.expires_at == saturated_sum(now as int, 3600),
{
    let mut capability_scope: Vec<String> = Vec::new();
    capability_scope.push("device.delivery.bind".to_owned());
    BranchProofTerms {
        audience: "ramflux-node".to_owned(),
        capability_scope,
        issued_at: now,
        expires_at: saturating_sum(now, 3600),
    }
}

/// The name of a device's signed prekey.
pub fn signed_prekey_id(device_id: &str) -> (r: String)
    ensures
        r@ == device_id@ + ":signed:1"@,
{
    device_id.to_owned().concat(":signed:1")
}

/// The private prekeys of a device.
pub fn x3dh_private_state(
    device_id: &str,
    identity_seed: [u8; 32],
    signed_prekey_seed: [u8; 32],
    bundle: PrekeyBundle,
) -> (r: SdkX3dhPrivateState)
    ensures
        r.device_id@ == device_id@,
        r.identity_seed == identity_seed,
        r.signed_prekey_id@ == device_id@ + ":signed:1"@,
        r.signed_prekey_seed == signed_prekey_seed,
        r.bundle == bundle,
{
    SdkX3dhPrivateState {
        device_id: device_id.to_owned(),
        identity_seed,
        signed_prekey_id: signed_prekey_id(device_id),
        signed_prekey_seed,
        bundle,
    }
}

/// Whether `w` keeps the private prekeys of a device.
pub open spec fn keeps_prekeys(w: EventWrite, device_id: Seq<char>, encoded: Seq<u8>) -> bool {
    &&& w.event matches AccountDbRequest::AppendEvent { event_id, event_type, body } && event_id@
        == "x3dh.prekey.private:"@ + device_id && event_type@ == "x3dh.prekey.private"@ && body@
        == encoded
    &&& w.checkpoint matches AccountDbRequest::SetProjectionCheckpoint {
        projection_name,
        last_event_id,
    } && projection_name@ == "x3dh_private:"@ + device_id && last_event_id@
        == "x3dh.prekey.private:"@ + device_id
}

/// Whether `q` asks that the identity of a client be registered.
pub open spec fn registers(
    q: SdkMvp1RegisterIdentityRequest,
    root: IdentityRoot,
    branch: DeviceBranch,
    device_id: Seq<char>,
    target_delivery_id: Seq<char>,
    session_id: Seq<char>,
    principal_commitment: Seq<char>,
    proof: BranchProofDocument,
    now: i64,
) -> bool {
    &&& q.root_public_key == root.public_key
    &&& q.principal_commitment@ == principal_commitment
    &&& q.branch_public_key == branch.public_key
    &&& q.proof == proof
    &&& q.target_delivery_id@ == target_delivery_id
    &&& q.gateway_id@ == "ramflux-gateway"@
    &&& q.session_id@ == session_id
    &&& q.push_alias_hash is Some
    &&& q.push_alias_hash->0@ == "push_alias_for_"@ + device_id
    &&& q.now == now
    &&& q.registration_pow is None
    &&& q.source_ip_hash is None
}

/// What is asked of a server to publish a device's prekeys: first the one, then the other.
#[derive(Clone, Debug, PartialEq, Eq)]
pub struct PrekeyPublication {
    pub url: String,
    pub register: SdkMvp1RegisterIdentityRequest,
    pub publish: SdkMvp1PublishPrekeyRequest,
}

/// What is done about a device's new prekeys: they are kept, and then published where that is asked
/// for, unless that fails.
#[derive(Debug, PartialEq, Eq)]
pub struct PrekeyPlan {
    pub keep: EventWrite,
    pub publication: Result<Option<PrekeyPublication>, SdkError>,
}

/// What is done about a device's new prekeys over a gateway: they are kept, and then the identity is
/// registered, unless that fails.
#[derive(Debug, PartialEq, Eq)]
pub struct GatewayPrekeyPlan {
    pub keep: EventWrite,
    pub register: Result<SdkMvp1RegisterIdentityRequest, SdkError>,
}

/// What is published once a gateway has answered a registration. Prekeys are published exactly when
/// the registration bound the session.
pub fn prekeys_to_publish(
    registered: Result<SdkMvp1IdentityRegistrationResponse, SdkError>,
    device_id: &str,
    bundle: PrekeyBundle,
) -> (r: Result<SdkMvp1PublishPrekeyRequest, SdkError>)
    ensures
        match registered {
            Err(error) => r == Err::<SdkMvp1PublishPrekeyRequest, SdkError>(error),
            Ok(response) => if response.session_bound {
                r matches Ok(publish) && publish.device_id@ == device_id@ && publish.bundle == bundle
            } else {
                is_rejected(r, "identity registration did not bind the gateway session"@)
            },
        },
{
    let response = match registered {
        Ok(response) => response,
        Err(error) => {
            return Err(error);
        },
    };
    match check_session_bound(&response) {
        Ok(_) => Ok(SdkMvp1PublishPrekeyRequest { device_id: device_id.to_owned(), bundle }),
        Err(error) => Err(error),
    }
}

/// Where an identity is registered.
pub const IDENTITY_REGISTRATION_PATH: &'static str = "/mvp1/identity/register";

/// Where prekeys are published.
pub const PREKEY_PUBLICATION_PATH: &'static str = "/mvp1/prekey/publish";

/// What the seed of a device's identity key is the hash of.
pub fn identity_seed_input(device_seed: &[u8; 32]) -> (r: HashInput)
    ensures
        hashes(r, "ramflux.sdk.x3dh.identity.v1"@, device_seed@),
{
    hash_input("ramflux.sdk.x3dh.identity.v1", device_seed.as_slice())
}

/// What the seed of a device's signed prekey is the hash of.
pub fn signed_prekey_seed_input(device_seed: &[u8; 32]) -> (r: HashInput)
    ensures
        hashes(r, "ramflux.sdk.x3dh.signed_prekey.v1"@, device_seed@),
{
    hash_input("ramflux.sdk.x3dh.signed_prekey.v1", device_seed.as_slice())
}

impl RamfluxClient {
    /// Takes on an identity.
    pub fn create_identity_root(&mut self, root: IdentityRoot)
        requires
            old(self).well_formed(),
        ensures
            final(self).well_formed(),
            *final(self) == (RamfluxClient { identity_root: Some(root), ..*old(self) }),
    {
        self.identity_root = Some(root);
    }

    /// Takes on a device.
    pub fn create_device_branch(&mut self, branch: DeviceBranch)
        requires
            old(self).well_formed(),
        ensures
            final(self).well_formed(),
            *final(self) == (RamfluxClient { device_branch: Some(branch), ..*old(self) }),
    {
        self.device_branch = Some(branch);
    }

    /// The identity and the device, of which the one is to vouch for the other.
    pub fn authorize_current_device(&self) -> (r: Result<(&IdentityRoot, &DeviceBranch), SdkError>)
        ensures
            match (self.identity_root, self.device_branch) {
                (Some(root), Some(branch)) => r matches Ok((a, b)) && *a == root && *b == branch,
                _ => r matches Err(SdkError::IdentityRootMissing),
            },
    {
        match (&self.identity_root, &self.device_branch) {
            (Some(root), Some(branch)) => Ok((root, branch)),
            _ => Err(SdkError::IdentityRootMissing),
        }
    }

    /// Keeps the private prekeys of a device. `encoded` is how they are stored.
    pub fn create_and_store_prekey_bundle(&self, device_id: &str, encoded: &[u8]) -> (r: Result<
        EventWrite,
        SdkError,
    >)
        ensures
            if self.device_branch is None {
                r matches Err(SdkError::IdentityRootMissing)
            } else if !self.unlocked() {
                r matches Err(SdkError::AccountDbNotUnlocked)
            } else {
                r matches Ok(w) && keeps_prekeys(w, device_id@, encoded@)
            },
    {
        match self.acting_device() {
            Ok(_) => {},
            Err(error) => {
                return Err(error);
            },
        }
        let event_id = "x3dh.prekey.private:".to_owned().concat(device_id);
        let event = match self.append_event(event_id.as_str(), "x3dh.prekey.private", encoded) {
            Ok(request) => request,
            Err(error) => {
                return Err(error);
            },
        };
        let name = x3dh_private_checkpoint_name(device_id);
        match self.set_projection_checkpoint(name.as_str(), event_id.as_str()) {
            Ok(checkpoint) => Ok(EventWrite { event, checkpoint }),
            Err(error) => Err(error),
        }
    }

    /// The wish that the identity of this client be registered. `proof` is the root's for the device.
    pub fn mvp1_identity_registration_request(
        &self,
        device_id: &str,
        target_delivery_id: &str,
        session_id: &str,
        principal_commitment: &str,
        proof: BranchProofDocument,
        now: i64,
    ) -> (r: Result<SdkMvp1RegisterIdentityRequest, SdkError>)
        ensures
            match (self.identity_root, self.device_branch) {
                (Some(root), Some(branch)) => r matches Ok(q) && registers(
                    q,
                    root,
                    branch,
                    device_id@,
                    target_delivery_id@,
                    session_id@,
                    principal_commitment@,
                    proof,
                    now,
                ),
                _ => r matches Err(SdkError::IdentityRootMissing),
            },
    {
        let (root, branch) = match self.authorize_current_device() {
            Ok(pair) => pair,
            Err(error) => {
                return Err(error);
            },
        };
        Ok(
            SdkMvp1RegisterIdentityRequest {
                root_public_key: root.public_key.clone(),
                principal_commitment: principal_commitment.to_owned(),
                branch_public_key: branch.public_key.clone(),
                proof,
                target_delivery_id: target_delivery_id.to_owned(),
                gateway_id: "ramflux-gateway".to_owned(),
                session_id: session_id.to_owned(),
                push_alias_hash: Some("push_alias_for_".to_owned().concat(device_id)),
                now,
                registration_pow: None,
                source_ip_hash: None,
            },
        )
    }

    /// What is done about a device's new prekeys over a gateway, up to the registration of the
    /// identity under a session.
    fn register_for_prekeys(
        &self,
        session_id: &str,
        principal_commitment: &str,
        device_id: &str,
        target_delivery_id: &str,
        encoded: &[u8],
        proof: BranchProofDocument,
        now: i64,
    ) -> (r: Result<GatewayPrekeyPlan, SdkError>)
        ensures
            self.registers_for_prekeys(
                r,
                session_id@,
                principal_commitment@,
                device_id@,
                target_delivery_id@,
                encoded@,
                proof,
                now,
            ),
    {
        match self.create_and_store_prekey_bundle(device_id, encoded) {
            Ok(keep) => Ok(
                GatewayPrekeyPlan {
                    keep,
                    register: self.mvp1_identity_registration_request(
                        device_id,
                        target_delivery_id,
                        session_id,
                        principal_commitment,
                        proof,
                        now,
                    ),
                },
            ),
            Err(error) => Err(error),
        }
    }

    /// Whether `r` keeps a device's new prekeys, and then has the identity registered under a session.
    pub open spec fn registers_for_prekeys(
        self,
        r: Result<GatewayPrekeyPlan, SdkError>,
        session_id: Seq<char>,
        principal_commitment: Seq<char>,
        device_id: Seq<char>,
        target_delivery_id: Seq<char>,
        encoded: Seq<u8>,
        proof: BranchProofDocument,
        now: i64,
    ) -> bool {
        if self.device_branch is None {
            r matches Err(SdkError::IdentityRootMissing)
        } else if !self.unlocked() {
            r matches Err(SdkError::AccountDbNotUnlocked)
        } else {
            r matches Ok(plan) && keeps_prekeys(plan.keep, device_id, encoded) && match self.identity_root {
                None => plan.register matches Err(SdkError::IdentityRootMissing),
                Some(root) => plan.register matches Ok(q) && registers(
                    q,
                    root,
                    self.device_branch->0,
                    device_id,
                    target_delivery_id,
                    session_id,
                    principal_commitment,
                    proof,
                    now,
                ),
            }
        }
    }

    /// What is done about a device's new prekeys over an open session: they are kept, and the
    /// identity is registered under that session.
    pub fn initialize_and_publish_prekey_bundle_via_gateway(
        &self,
        session_id: &str,
        principal_commitment: &str,
        device_id: &str,
        target_delivery_id: &str,
        encoded: &[u8],
        proof: BranchProofDocument,
        now: i64,
    ) -> (r: Result<GatewayPrekeyPlan, SdkError>)
        ensures
            self.registers_for_prekeys(
                r,
                session_id@,
                principal_commitment@,
                device_id@,
                target_delivery_id@,
                encoded@,
                proof,
                now,
            ),
    {
        self.register_for_prekeys(
            session_id,
            principal_commitment,
            device_id,
            target_delivery_id,
            encoded,
            proof,
            now,
        )
    }

    /// What is done about a device's new prekeys before a session is open: they are kept, and the
    /// identity is registered under a session that is named after the device.
    pub fn initialize_and_publish_prekey_bundle_via_gateway_request(
        &self,
        principal_commitment: &str,
        device_id: &str,
        target_delivery_id: &str,
        encoded: &[u8],
        proof: BranchProofDocument,
        now: i64,
    ) -> (r: Result<GatewayPrekeyPlan, SdkError>)
        ensures
            self.registers_for_prekeys(
                r,
                "pre_session_for_"@ + device_id@,
                principal_commitment@,
                device_id@,
                target_delivery_id@,
                encoded@,
                proof,
                now,
            ),
    {
        let session_id = "pre_session_for_".to_owned().concat(device_id);
        self.register_for_prekeys(
            session_id.as_str(),
            principal_commitment,
            device_id,
            target_delivery_id,
            encoded,
            proof,
            now,
        )
    }

    /// What is done about a device's new prekeys. Where a server is named they are published there,
    /// under a session that is named after the device.
    pub fn initialize_and_publish_prekey_bundle(
        &self,
        principal_commitment: &str,
        device_id: &str,
        target_delivery_id: &str,
        prekey_http_url: Option<&str>,
        encoded: &[u8],
        bundle: PrekeyBundle,
        proof: BranchProofDocument,
        now: i64,
    ) -> (r: Result<PrekeyPlan, SdkError>)
        ensures
            if self.device_branch is None {
                r matches Err(SdkError::IdentityRootMissing)
            } else if !self.unlocked() {
                r matches Err(SdkError::AccountDbNotUnlocked)
            } else {
                r matches Ok(plan) && keeps_prekeys(plan.keep, device_id@, encoded@) && match (
                    prekey_http_url,
                    self.identity_root,
                ) {
                    (None, _) => plan.publication == Ok::<Option<PrekeyPublication>, SdkError>(None),
                    (Some(_), None) => plan.publication == Err::<
                        Option<PrekeyPublication>,
                        SdkError,
                    >(SdkError::IdentityRootMissing),
                    (Some(url), Some(root)) => plan.publication matches Ok(Some(p)) && {
                        &&& p.url@ == url@
                        &&& registers(
                            p.register,
                            root,
                            self.device_branch->0,
                            device_id@,
                            target_delivery_id@,
                            "session_for_"@ + device_id@,
                            principal_commitment@,
                            proof,
                            now,
                        )
                        &&& p.publish.device_id@ == device_id@
                        &&& p.publish.bundle == bundle
                    },
                }
            },
    {
        let keep = match self.create_and_store_prekey_bundle(device_id, encoded) {
            Ok(keep) => keep,
            Err(error) => {
                return Err(error);
            },
        };
        let url = match prekey_http_url {
            Some(url) => url,
            None => {
                return Ok(PrekeyPlan { keep, publication: Ok(None) });
            },
        };
        let session_id = "session_for_".to_owned().concat(device_id);
        let publication = match self.mvp1_identity_registration_request(
            device_id,
            target_delivery_id,
            session_id.as_str(),
            principal_commitment,
            proof,
            now,
        ) {
            Ok(register) => Ok(
                Some(
                    PrekeyPublication {
                        url: url.to_owned(),
                        register,
                        publish: SdkMvp1PublishPrekeyRequest {
                            device_id: device_id.to_owned(),
                            bundle,
                        },
                    },
                ),
            ),
            Err(error) => Err(error),
        };
        Ok(PrekeyPlan { keep, publication })
    }
}

} // verus!
