//! Grants, proofs and token requests of the third version of the relay protocol.
use crate::dm::SdkDmAttachmentRef;
use crate::error::{denied, is_denied, SdkError};
use crate::gateway::protocol::SdkRelayTokenV3IssueBody;
use crate::object::{
    DeviceBranch, EncryptedObject, GatewayIssuerCertificate, ObjectAccessGrant,
    ObjectRelayCapability, OwnerAuthorizationProof, RelayAuthorizationKind, RelayV3Protocol,
    RequesterProofOfPossession, SignatureOutcome,
};
use crate::text::{is_blank, str_eq, str_is_blank};
use vstd::prelude::*;

verus! {

// ---- what a device signs ----

/// The grant that an owner is about to sign.
pub fn object_access_grant_to_sign(
    protocol: &RelayV3Protocol,
    branch: &DeviceBranch,
    object_id: String,
    manifest_hash: String,
    grantee_device_hash: String,
    capabilities: Vec<ObjectRelayCapability>,
    issued_at: u64,
    expires_at: u64,
) -> (r: ObjectAccessGrant)
    ensures
        r.schema == protocol.object_access_grant_schema,
        r.version == protocol.proof_version,
        r.object_id == object_id,
        r.manifest_hash == manifest_hash,
        r.grantee_device_hash == grantee_device_hash,
        r.capabilities == capabilities,
        r.issued_at == issued_at,
        r.expires_at == expires_at,
        r.owner_signing_key_id == branch.device_id,
        r.owner_public_key == branch.public_key,
        r.owner_signature@ == Seq::<char>::empty(),
{
    ObjectAccessGrant {
        schema: protocol.object_access_grant_schema.clone(),
        version: protocol.proof_version,
        object_id,
        manifest_hash,
        grantee_device_hash,
        capabilities,
        issued_at,
        expires_at,
        owner_signing_key_id: branch.device_id.clone(),
        owner_public_key: branch.public_key.clone(),
        owner_signature: String::new(),
    }
}

impl ObjectAccessGrant {
    /// The grant with its owner's signature.
    pub fn signed(self, owner_signature: String) -> (r: ObjectAccessGrant)
        ensures
            r == (ObjectAccessGrant { owner_signature, ..self }),
    {
        let mut grant = self;
        grant.owner_signature = owner_signature;
        grant
    }
}

/// The proof that an owner is about to sign.
pub fn owner_authorization_proof_to_sign(
    protocol: &RelayV3Protocol,
    branch: &DeviceBranch,
    capability: ObjectRelayCapability,
    object_id: String,
    manifest_hash: Option<String>,
    chunk_id: Option<String>,
    owner_home_node_id: String,
    owner_principal_id: String,
    owner_device_epoch: u64,
    request_nonce: String,
    body_hash: String,
    issued_at: u64,
    expires_at: u64,
) -> (r: OwnerAuthorizationProof)
    ensures
        r.schema == protocol.owner_authorization_proof_schema,
        r.version == protocol.proof_version,
        r.capability == capability,
        r.object_id == object_id,
        r.manifest_hash == manifest_hash,
        r.chunk_id == chunk_id,
        r.owner_home_node_id == owner_home_node_id,
        r.owner_principal_id == owner_principal_id,
        r.owner_device_epoch == owner_device_epoch,
        r.request_nonce == request_nonce,
        r.body_hash == body_hash,
        r.issued_at == issued_at,
        r.expires_at == expires_at,
        r.owner_signing_key_id == branch.device_id,
        r.owner_public_key == branch.public_key,
        r.owner_signature@ == Seq::<char>::empty(),
{
    OwnerAuthorizationProof {
        schema: protocol.owner_authorization_proof_schema.clone(),
        version: protocol.proof_version,
        capability,
        object_id,
        manifest_hash,
        chunk_id,
        owner_home_node_id,
        owner_principal_id,
        owner_device_epoch,
        request_nonce,
        body_hash,
        issued_at,
        expires_at,
        owner_signing_key_id: branch.device_id.clone(),
        owner_public_key: branch.public_key.clone(),
        owner_signature: String::new(),
    }
}

impl OwnerAuthorizationProof {
    /// The proof with its owner's signature.
    pub fn signed(self, owner_signature: String) -> (r: OwnerAuthorizationProof)
        ensures
            r == (OwnerAuthorizationProof { owner_signature, ..self }),
    {
        let mut proof_of_owner = self;
        proof_of_owner.owner_signature = owner_signature;
        proof_of_owner
    }
}

/// The proof of possession that a requester is about to sign.
pub fn requester_pop_to_sign(
    protocol: &RelayV3Protocol,
    branch: &DeviceBranch,
    token_id: String,
    capability: ObjectRelayCapability,
    object_id: String,
    manifest_hash: String,
    chunk_id: String,
    request_nonce: String,
    body_hash: String,
    issued_at: u64,
    expires_at: u64,
) -> (r: RequesterProofOfPossession)
    ensures
        r.schema == protocol.requester_pop_schema,
        r.version == protocol.proof_version,
        r.token_id == token_id,
        r.capability == capability,
        r.object_id == object_id,
        r.manifest_hash == manifest_hash,
        r.chunk_id == chunk_id,
        r.request_nonce == request_nonce,
        r.body_hash == body_hash,
        r.issued_at == issued_at,
        r.expires_at == expires_at,
        r.signer_device_id == branch.device_id,
        r.signer_public_key == branch.public_key,
        r.signature@ == Seq::<char>::empty(),
{
    RequesterProofOfPossession {
        schema: protocol.requester_pop_schema.clone(),
        version: protocol.proof_version,
        token_id,
        capability,
        object_id,
        manifest_hash,
        chunk_id,
        request_nonce,
        body_hash,
        issued_at,
        expires_at,
        signer_device_id: branch.device_id.clone(),
        signer_public_key: branch.public_key.clone(),
        signature: String::new(),
    }
}

impl RequesterProofOfPossession {
    /// The proof with its signer's signature.
    pub fn signed(self, signature: String) -> (r: RequesterProofOfPossession)
        ensures
            r == (RequesterProofOfPossession { signature, ..self }),
    {
        let mut pop = self;
        pop.signature = signature;
        pop
    }
}

// ---- what a recipient checks ----

/// Whether a set of capabilities names `capability`.
pub fn has_capability(
    capabilities: &Vec<ObjectRelayCapability>,
    capability: ObjectRelayCapability,
) -> (r: bool)
    ensures
        r == capabilities@.contains(capability),
{
    let mut i: usize = 0;
    while i < capabilities.len()
        invariant
            i <= capabilities.len(),
            forall|j: int| 0 <= j < i ==> capabilities@[j] != capability,
        decreases capabilities.len() - i,
    {
        if capabilities[i] == capability {
            assert(capabilities@[i as int] == capability);
            return true;
        }
        i = i + 1;
    }
    false
}

/// Whether there is a capability, and none but to get and to acknowledge.
pub open spec fn only_get_and_ack(capabilities: Seq<ObjectRelayCapability>) -> bool {
    capabilities.len() > 0 && forall|i: int|
        0 <= i < capabilities.len() ==> (#[trigger] capabilities[i] is Get || capabilities[i] is Ack)
}

fn names_only_get_and_ack(capabilities: &Vec<ObjectRelayCapability>) -> (r: bool)
    ensures
        r == only_get_and_ack(capabilities@),
{
    if capabilities.len() == 0 {
        return false;
    }
    let mut i: usize = 0;
    while i < capabilities.len()
        invariant
            i <= capabilities.len(),
            forall|j: int|
                0 <= j < i ==> (#[trigger] capabilities@[j] is Get || capabilities@[j] is Ack),
        decreases capabilities.len() - i,
    {
        match capabilities[i] {
            ObjectRelayCapability::Get => {},
            ObjectRelayCapability::Ack => {},
            _ => {
                assert(!(capabilities@[i as int] is Get || capabilities@[i as int] is Ack));
                return false;
            },
        }
        i = i + 1;
    }
    true
}

/// Why a recipient turns a grant down before it looks at the signature, if it does.
pub open spec fn grant_denial(
    grant: Option<&ObjectAccessGrant>,
    protocol: RelayV3Protocol,
    device_hash: Seq<char>,
    object_id: Seq<char>,
    manifest_hash: Seq<char>,
    now: u64,
) -> Option<Seq<char>> {
    match grant {
        None => Some("object access grant is required but was not provided"@),
        Some(grant) => if grant.schema@ != protocol.object_access_grant_schema@ || grant.version
            != protocol.proof_version {
            Some("object access grant schema/version rejected"@)
        } else if grant.grantee_device_hash@ != device_hash {
            Some("object access grant grantee does not match this device"@)
        } else if grant.object_id@ != object_id || grant.manifest_hash@ != manifest_hash {
            Some("object access grant object/manifest binding mismatch"@)
        } else if !only_get_and_ack(grant.capabilities@) {
            Some("object access grant carries a non get/ack capability"@)
        } else if now < grant.issued_at || now >= grant.expires_at {
            Some("object access grant is outside its validity window"@)
        } else {
            None
        },
    }
}

/// Whether `r` is what a failed signature check comes to.
pub open spec fn is_signature_failure<T>(r: Result<T, SdkError>, signature: SignatureOutcome) -> bool {
    match signature {
        SignatureOutcome::Valid => false,
        SignatureOutcome::Invalid(words) => r matches Err(SdkError::SignatureVerificationFailed(m))
            && m@ == "object access grant signature invalid: "@ + words@,
        SignatureOutcome::Unsignable(words) => r == Err::<T, SdkError>(SdkError::Protocol(words)),
    }
}

/// Whether a recipient accepts a grant.
pub open spec fn grant_accepted(
    grant: Option<&ObjectAccessGrant>,
    protocol: RelayV3Protocol,
    device_hash: Seq<char>,
    object_id: Seq<char>,
    manifest_hash: Seq<char>,
    now: u64,
    signature: SignatureOutcome,
) -> bool {
    grant_denial(grant, protocol, device_hash, object_id, manifest_hash, now) is None
        && signature is Valid
}

/// Whether `r` is the refusal of a grant that is not accepted.
pub open spec fn is_grant_refusal<T>(
    r: Result<T, SdkError>,
    grant: Option<&ObjectAccessGrant>,
    protocol: RelayV3Protocol,
    device_hash: Seq<char>,
    object_id: Seq<char>,
    manifest_hash: Seq<char>,
    now: u64,
    signature: SignatureOutcome,
) -> bool {
    match grant_denial(grant, protocol, device_hash, object_id, manifest_hash, now) {
        Some(words) => is_denied(r, words),
        None => is_signature_failure(r, signature),
    }
}

/// Checks a grant that an owner signed for this device. `signature` is what checking the owner's
/// signature over the grant's canonical bytes came to; a missing grant is never accepted.
pub fn verify_recipient_object_access_grant(
    protocol: &RelayV3Protocol,
    grant: Option<&ObjectAccessGrant>,
    branch: &DeviceBranch,
    object_id: &str,
    manifest_hash: &str,
    now: u64,
    signature: &SignatureOutcome,
) -> (r: Result<(), SdkError>)
    ensures
        if grant_accepted(
            grant,
            *protocol,
            branch.device_hash@,
            object_id@,
            manifest_hash@,
            now,
            *signature,
        ) {
            r is Ok
        } else {
            is_grant_refusal(
                r,
                grant,
                *protocol,
                branch.device_hash@,
                object_id@,
                manifest_hash@,
                now,
                *signature,
            )
        },
{
    let grant = match grant {
        Some(grant) => grant,
        None => {
            return Err(denied("object access grant is required but was not provided"));
        },
    };
    if grant.schema != protocol.object_access_grant_schema || grant.version
        != protocol.proof_version {
        return Err(denied("object access grant schema/version rejected"));
    }
    if grant.grantee_device_hash != branch.device_hash {
        return Err(denied("object access grant grantee does not match this device"));
    }
    if !str_eq(grant.object_id.as_str(), object_id) || !str_eq(
        grant.manifest_hash.as_str(),
        manifest_hash,
    ) {
        return Err(denied("object access grant object/manifest binding mismatch"));
    }
    if !names_only_get_and_ack(&grant.capabilities) {
        return Err(denied("object access grant carries a non get/ack capability"));
    }
    if now < grant.issued_at || now >= grant.expires_at {
        return Err(denied("object access grant is outside its validity window"));
    }
    match signature {
        SignatureOutcome::Valid => Ok(()),
        SignatureOutcome::Invalid(words) => Err(
            SdkError::SignatureVerificationFailed(
                "object access grant signature invalid: ".to_owned().concat(words.as_str()),
            ),
        ),
        SignatureOutcome::Unsignable(words) => Err(SdkError::Protocol(words.clone())),
    }
}

/// A grant for one device is of no use to another.
pub proof fn law_grant_is_not_transferable(
    grant: ObjectAccessGrant,
    protocol: RelayV3Protocol,
    first: Seq<char>,
    second: Seq<char>,
    object_id: Seq<char>,
    manifest_hash: Seq<char>,
    now: u64,
    signature: SignatureOutcome,
)
    requires
        first != second,
    ensures
        !(grant_accepted(
            Some(&grant),
            protocol,
            first,
            object_id,
            manifest_hash,
            now,
            signature,
        ) && grant_accepted(
            Some(&grant),
            protocol,
            second,
            object_id,
            manifest_hash,
            now,
            signature,
        )),
{
}

/// A grant is accepted for one object only.
pub proof fn law_grant_is_bound_to_one_object(
    grant: ObjectAccessGrant,
    protocol: RelayV3Protocol,
    device_hash: Seq<char>,
    object_a: Seq<char>,
    manifest_a: Seq<char>,
    object_b: Seq<char>,
    manifest_b: Seq<char>,
    now: u64,
    signature: SignatureOutcome,
)
    requires
        grant_accepted(Some(&grant), protocol, device_hash, object_a, manifest_a, now, signature),
        grant_accepted(Some(&grant), protocol, device_hash, object_b, manifest_b, now, signature),
    ensures
        object_a == object_b,
        manifest_a == manifest_b,
{
}

// ---- what a device asks tokens with ----

/// The certificate that a requester leaves for the gateway to fill in.
pub open spec fn is_empty_certificate(c: GatewayIssuerCertificate, protocol: RelayV3Protocol) -> bool {
    &&& c.schema == protocol.gateway_issuer_certificate_schema
    &&& c.version == protocol.proof_version
    &&& c.cert_id@ == Seq::<char>::empty()
    &&& c.node_id@ == Seq::<char>::empty()
    &&& c.gateway_instance_id@ == Seq::<char>::empty()
    &&& c.attestation_public_key@ == Seq::<char>::empty()
    &&& c.attestation_key_id@ == Seq::<char>::empty()
    &&& c.not_before == 0
    &&& c.not_after == 0
    &&& c.issued_at == 0
    &&& c.node_root_signing_key_id@ == Seq::<char>::empty()
    &&& c.node_root_signature@ == Seq::<char>::empty()
    &&& c.revoked_at is None
}

/// The certificate that a requester leaves for the gateway to fill in.
pub fn empty_v3_issuer_certificate(protocol: &RelayV3Protocol) -> (r: GatewayIssuerCertificate)
    ensures
        is_empty_certificate(r, *protocol),
{
    GatewayIssuerCertificate {
        schema: protocol.gateway_issuer_certificate_schema.clone(),
        version: protocol.proof_version,
        cert_id: String::new(),
        node_id: String::new(),
        gateway_instance_id: String::new(),
        attestation_public_key: String::new(),
        attestation_key_id: String::new(),
        not_before: 0,
        not_after: 0,
        issued_at: 0,
        node_root_signing_key_id: String::new(),
        node_root_signature: String::new(),
        revoked_at: None,
    }
}

/// Who owns an object, as far as a token names the owner.
pub struct OwnerNames {
    pub signing_key_id: Seq<char>,
    pub public_key: Seq<char>,
    pub home_node_id: Seq<char>,
    pub principal_id: Seq<char>,
    pub device_epoch: u64,
}

/// What a token is wanted for.
pub struct TokenScope {
    pub audience_node_id: Seq<char>,
    pub object_id: Seq<char>,
    pub manifest_hash: Seq<char>,
    pub chunk_id: Seq<char>,
    pub capability: ObjectRelayCapability,
    pub kind: RelayAuthorizationKind,
    pub binding_hash: Seq<char>,
    pub issued_at: u64,
    pub expires_at: u64,
    pub nonce: Seq<char>,
}

/// Whether `body` asks, for the device `branch`, for a token of exactly the given scope on an
/// object of the given owner.
pub open spec fn asks_for(
    body: SdkRelayTokenV3IssueBody,
    protocol: RelayV3Protocol,
    branch: DeviceBranch,
    owner: OwnerNames,
    scope: TokenScope,
) -> bool {
    &&& body.requester_device_id@ == branch.device_id@
    &&& body.requester_device_hash@ == branch.device_hash@
    &&& body.requester_public_key@ == branch.public_key@
    &&& body.requester_device_epoch == branch.device_epoch
    &&& body.owner_signing_key_id@ == owner.signing_key_id
    &&& body.owner_public_key@ == owner.public_key
    &&& body.owner_home_node_id@ == owner.home_node_id
    &&& body.owner_principal_id@ == owner.principal_id
    &&& body.owner_device_epoch == owner.device_epoch
    &&& body.issuer_node_id@ == Seq::<char>::empty()
    &&& body.gateway_instance_id@ == Seq::<char>::empty()
    &&& body.audience_node_id@ == scope.audience_node_id
    &&& body.relay_instance_id is None
    &&& body.object_id@ == scope.object_id
    &&& body.manifest_hash@ == scope.manifest_hash
    &&& body.chunk_id@ == scope.chunk_id
    &&& body.capabilities@ == seq![scope.capability]
    &&& body.authorization_kind == scope.kind
    &&& body.authorization_binding_hash@ == scope.binding_hash
    &&& !body.delete_after_ack
    &&& body.issued_at == scope.issued_at
    &&& body.expires_at == scope.expires_at
    &&& body.nonce@ == scope.nonce
    &&& is_empty_certificate(body.issuer_certificate, protocol)
}

fn token_request(
    protocol: &RelayV3Protocol,
    branch: &DeviceBranch,
    owner_signing_key_id: &str,
    owner_public_key: &str,
    owner_home_node_id: &str,
    owner_principal_id: &str,
    owner_device_epoch: u64,
    audience_node_id: &str,
    object_id: &str,
    manifest_hash: &str,
    chunk_id: &str,
    capability: ObjectRelayCapability,
    kind: RelayAuthorizationKind,
    binding_hash: &str,
    issued_at: u64,
    expires_at: u64,
    nonce: &str,
) -> (r: SdkRelayTokenV3IssueBody)
    ensures
        asks_for(
            r,
            *protocol,
            *branch,
            OwnerNames {
                signing_key_id: owner_signing_key_id@,
                public_key: owner_public_key@,
                home_node_id: owner_home_node_id@,
                principal_id: owner_principal_id@,
                device_epoch: owner_device_epoch,
            },
            TokenScope {
                audience_node_id: audience_node_id@,
                object_id: object_id@,
                manifest_hash: manifest_hash@,
                chunk_id: chunk_id@,
                capability,
                kind,
                binding_hash: binding_hash@,
                issued_at,
                expires_at,
                nonce: nonce@,
            },
        ),
{
    let mut capabilities: Vec<ObjectRelayCapability> = Vec::new();
    capabilities.push(capability);
    assert(capabilities@ =~= seq![capability]);
    SdkRelayTokenV3IssueBody {
        requester_device_id: branch.device_id.clone(),
        requester_device_hash: branch.device_hash.clone(),
        requester_public_key: branch.public_key.clone(),
        requester_device_epoch: branch.device_epoch,
        owner_signing_key_id: owner_signing_key_id.to_owned(),
        owner_public_key: owner_public_key.to_owned(),
        owner_home_node_id: owner_home_node_id.to_owned(),
        owner_principal_id: owner_principal_id.to_owned(),
        owner_device_epoch,
        issuer_node_id: String::new(),
        gateway_instance_id: String::new(),
        audience_node_id: audience_node_id.to_owned(),
        relay_instance_id: None,
        object_id: object_id.to_owned(),
        manifest_hash: manifest_hash.to_owned(),
        chunk_id: chunk_id.to_owned(),
        capabilities,
        authorization_kind: kind,
        authorization_binding_hash: binding_hash.to_owned(),
        delete_after_ack: false,
        issued_at,
        expires_at,
        nonce: nonce.to_owned(),
        issuer_certificate: empty_v3_issuer_certificate(protocol),
    }
}

/// Why an accepted grant does not lead to a token for an attachment, if it does not.
pub open spec fn attachment_denial(
    grant: ObjectAccessGrant,
    attachment: SdkDmAttachmentRef,
) -> Option<Seq<char>> {
    if !grant.capabilities@.contains(ObjectRelayCapability::Get) {
        Some("object access grant does not authorize get"@)
    } else if !(attachment.owner_home_node_id matches Some(id) && !is_blank(id@)) {
        Some("owner home node id is required"@)
    } else if !(attachment.relay_audience_node_id matches Some(id) && !is_blank(id@)) {
        Some("relay audience node id is required"@)
    } else if attachment.owner_principal_id@.len() == 0 || attachment.owner_device_epoch == 0 {
        Some("owner lineage is incomplete"@)
    } else {
        None
    }
}

/// Whether `body` asks for a token of the given capability on the chunk of an attachment, backed
/// by the grant that came with it.
pub open spec fn asks_for_attachment(
    body: SdkRelayTokenV3IssueBody,
    protocol: RelayV3Protocol,
    branch: DeviceBranch,
    grant: ObjectAccessGrant,
    attachment: SdkDmAttachmentRef,
    chunk_id: Seq<char>,
    capability: ObjectRelayCapability,
    binding_hash: Seq<char>,
    issued_at: u64,
    expires_at: u64,
    nonce: Seq<char>,
) -> bool {
    asks_for(
        body,
        protocol,
        branch,
        OwnerNames {
            signing_key_id: grant.owner_signing_key_id@,
            public_key: grant.owner_public_key@,
            home_node_id: attachment.owner_home_node_id->0@,
            principal_id: attachment.owner_principal_id@,
            device_epoch: attachment.owner_device_epoch,
        },
        TokenScope {
            audience_node_id: attachment.relay_audience_node_id->0@,
            object_id: attachment.object_id@,
            manifest_hash: attachment.manifest_hash@,
            chunk_id,
            capability,
            kind: RelayAuthorizationKind::OwnerGrant,
            binding_hash,
            issued_at,
            expires_at,
            nonce,
        },
    )
}

/// The request for a token to get a chunk of an attachment. `signature` is what checking the
/// owner's signature came to, and `binding_hash` the hash of the grant's canonical bytes.
pub fn build_v3_get_token_issue_body(
    protocol: &RelayV3Protocol,
    grant: Option<&ObjectAccessGrant>,
    attachment: &SdkDmAttachmentRef,
    branch: &DeviceBranch,
    chunk_id: &str,
    issued_at: u64,
    expires_at: u64,
    nonce: &str,
    signature: &SignatureOutcome,
    binding_hash: &str,
) -> (r: Result<SdkRelayTokenV3IssueBody, SdkError>)
    ensures
        if !grant_accepted(
            grant,
            *protocol,
            branch.device_hash@,
            attachment.object_id@,
            attachment.manifest_hash@,
            issued_at,
            *signature,
        ) {
            is_grant_refusal(
                r,
                grant,
                *protocol,
                branch.device_hash@,
                attachment.object_id@,
                attachment.manifest_hash@,
                issued_at,
                *signature,
            )
        } else {
            match attachment_denial(*grant->0, *attachment) {
                Some(words) => is_denied(r, words),
                None => r is Ok && asks_for_attachment(
                    r->Ok_0,
                    *protocol,
                    *branch,
                    *grant->0,
                    *attachment,
                    chunk_id@,
                    ObjectRelayCapability::Get,
                    binding_hash@,
                    issued_at,
                    expires_at,
                    nonce@,
                ),
            }
        },
{
    match verify_recipient_object_access_grant(
        protocol,
        grant,
        branch,
        attachment.object_id.as_str(),
        attachment.manifest_hash.as_str(),
        issued_at,
        signature,
    ) {
        Ok(()) => {},
        Err(error) => {
            return Err(error);
        },
    }
    let grant = match grant {
        Some(grant) => grant,
        None => {
            return Err(denied("object access grant is required"));
        },
    };
    if !has_capability(&grant.capabilities, ObjectRelayCapability::Get) {
        return Err(denied("object access grant does not authorize get"));
    }
    let owner_home_node_id = match &attachment.owner_home_node_id {
        Some(id) => {
            if str_is_blank(id.as_str()) {
                return Err(denied("owner home node id is required"));
            }
            id
        },
        None => {
            return Err(denied("owner home node id is required"));
        },
    };
    let audience_node_id = match &attachment.relay_audience_node_id {
        Some(id) => {
            if str_is_blank(id.as_str()) {
                return Err(denied("relay audience node id is required"));
            }
            id
        },
        None => {
            return Err(denied("relay audience node id is required"));
        },
    };
    if attachment.owner_principal_id.as_str().is_empty() || attachment.owner_device_epoch == 0 {
        return Err(denied("owner lineage is incomplete"));
    }
    Ok(
        token_request(
            protocol,
            branch,
            grant.owner_signing_key_id.as_str(),
            grant.owner_public_key.as_str(),
            owner_home_node_id.as_str(),
            attachment.owner_principal_id.as_str(),
            attachment.owner_device_epoch,
            audience_node_id.as_str(),
            attachment.object_id.as_str(),
            attachment.manifest_hash.as_str(),
            chunk_id,
            ObjectRelayCapability::Get,
            RelayAuthorizationKind::OwnerGrant,
            binding_hash,
            issued_at,
            expires_at,
            nonce,
        ),
    )
}

/// The request for a token to acknowledge a chunk of an attachment: all that a token to get it
/// needs, and a grant that also names the acknowledgement.
pub fn build_v3_ack_token_issue_body(
    protocol: &RelayV3Protocol,
    grant: Option<&ObjectAccessGrant>,
    attachment: &SdkDmAttachmentRef,
    branch: &DeviceBranch,
    chunk_id: &str,
    issued_at: u64,
    expires_at: u64,
    nonce: &str,
    signature: &SignatureOutcome,
    binding_hash: &str,
) -> (r: Result<SdkRelayTokenV3IssueBody, SdkError>)
    ensures
        if !grant_accepted(
            grant,
            *protocol,
            branch.device_hash@,
            attachment.object_id@,
            attachment.manifest_hash@,
            issued_at,
            *signature,
        ) {
            is_grant_refusal(
                r,
                grant,
                *protocol,
                branch.device_hash@,
                attachment.object_id@,
                attachment.manifest_hash@,
                issued_at,
                *signature,
            )
        } else {
            match attachment_denial(*grant->0, *attachment) {
                Some(words) => is_denied(r, words),
                None => if !grant->0.capabilities@.contains(ObjectRelayCapability::Ack) {
                    is_denied(r, "object access grant does not authorize ack"@)
                } else {
                    r is Ok && asks_for_attachment(
                        r->Ok_0,
                        *protocol,
                        *branch,
                        *grant->0,
                        *attachment,
                        chunk_id@,
                        ObjectRelayCapability::Ack,
                        binding_hash@,
                        issued_at,
                        expires_at,
                        nonce@,
                    )
                },
            }
        },
{
    let mut body = match build_v3_get_token_issue_body(
        protocol,
        grant,
        attachment,
        branch,
        chunk_id,
        issued_at,
        expires_at,
        nonce,
        signature,
        binding_hash,
    ) {
        Ok(body) => body,
        Err(error) => {
            return Err(error);
        },
    };
    let grant = match grant {
        Some(grant) => grant,
        None => {
            return Err(denied("object access grant is required"));
        },
    };
    if !has_capability(&grant.capabilities, ObjectRelayCapability::Ack) {
        return Err(denied("object access grant does not authorize ack"));
    }
    let mut capabilities: Vec<ObjectRelayCapability> = Vec::new();
    capabilities.push(ObjectRelayCapability::Ack);
    body.capabilities = capabilities;
    assert(body.capabilities@ =~= seq![ObjectRelayCapability::Ack]);
    Ok(body)
}

/// Why an owner's session does not lead to a token, if it does not.
pub open spec fn owner_session_denial(
    branch: DeviceBranch,
    chunk_id: Seq<char>,
    capability: ObjectRelayCapability,
    owner_home_node_id: Seq<char>,
    audience_node_id: Seq<char>,
    owner_principal_id: Seq<char>,
    issued_at: u64,
    expires_at: u64,
) -> Option<Seq<char>> {
    if !(capability is Put || capability is Tombstone) {
        Some("owner-session token requires put or tombstone capability"@)
    } else if is_blank(owner_home_node_id) || is_blank(audience_node_id) || is_blank(
        owner_principal_id,
    ) || is_blank(chunk_id) || expires_at <= issued_at || branch.device_epoch == 0 {
        Some("owner-session token lineage or validity window is incomplete"@)
    } else {
        None
    }
}

/// Whether `r` is the answer to the wish for a token backed by an owner's session.
pub open spec fn is_owner_session_answer(
    r: Result<SdkRelayTokenV3IssueBody, SdkError>,
    protocol: RelayV3Protocol,
    branch: DeviceBranch,
    object: EncryptedObject,
    chunk_id: Seq<char>,
    capability: ObjectRelayCapability,
    owner_home_node_id: Seq<char>,
    audience_node_id: Seq<char>,
    owner_principal_id: Seq<char>,
    authorization_binding_hash: Seq<char>,
    issued_at: u64,
    expires_at: u64,
    nonce: Seq<char>,
) -> bool {
    match owner_session_denial(
        branch,
        chunk_id,
        capability,
        owner_home_node_id,
        audience_node_id,
        owner_principal_id,
        issued_at,
        expires_at,
    ) {
        Some(words) => is_denied(r, words),
        None => r is Ok && asks_for(
            r->Ok_0,
            protocol,
            branch,
            OwnerNames {
                signing_key_id: branch.device_id@,
                public_key: branch.public_key@,
                home_node_id: owner_home_node_id,
                principal_id: owner_principal_id,
                device_epoch: branch.device_epoch,
            },
            TokenScope {
                audience_node_id: audience_node_id,
                object_id: object.object_id@,
                manifest_hash: object.manifest_hash@,
                chunk_id: chunk_id,
                capability,
                kind: RelayAuthorizationKind::OwnerSession,
                binding_hash: authorization_binding_hash,
                issued_at,
                expires_at,
                nonce: nonce,
            },
        ),
    }
}

/// The request for a token with which an owner stores a chunk or buries an object.
pub fn build_v3_owner_session_token_issue_body(
    protocol: &RelayV3Protocol,
    branch: &DeviceBranch,
    object: &EncryptedObject,
    chunk_id: &str,
    capability: ObjectRelayCapability,
    owner_home_node_id: &str,
    audience_node_id: &str,
    owner_principal_id: &str,
    authorization_binding_hash: &str,
    issued_at: u64,
    expires_at: u64,
    nonce: &str,
) -> (r: Result<SdkRelayTokenV3IssueBody, SdkError>)
    ensures
        is_owner_session_answer(
            r,
            *protocol,
            *branch,
            *object,
            chunk_id@,
            capability,
            owner_home_node_id@,
            audience_node_id@,
            owner_principal_id@,
            authorization_binding_hash@,
            issued_at,
            expires_at,
            nonce@,
        ),
{
    match capability {
        ObjectRelayCapability::Put => {},
        ObjectRelayCapability::Tombstone => {},
        _ => {
            return Err(denied("owner-session token requires put or tombstone capability"));
        },
    }
    if str_is_blank(owner_home_node_id) || str_is_blank(audience_node_id) || str_is_blank(
        owner_principal_id,
    ) || str_is_blank(chunk_id) || expires_at <= issued_at || branch.device_epoch == 0 {
        return Err(denied("owner-session token lineage or validity window is incomplete"));
    }
    Ok(
        token_request(
            protocol,
            branch,
            branch.device_id.as_str(),
            branch.public_key.as_str(),
            owner_home_node_id,
            owner_principal_id,
            branch.device_epoch,
            audience_node_id,
            object.object_id.as_str(),
            object.manifest_hash.as_str(),
            chunk_id,
            capability,
            RelayAuthorizationKind::OwnerSession,
            authorization_binding_hash,
            issued_at,
            expires_at,
            nonce,
        ),
    )
}

/// Whether `r` is the answer to the wish for a token backed by a grant.
pub open spec fn is_grant_token_answer(
    r: Result<SdkRelayTokenV3IssueBody, SdkError>,
    protocol: RelayV3Protocol,
    grant: ObjectAccessGrant,
    branch: DeviceBranch,
    object_id: Seq<char>,
    manifest_hash: Seq<char>,
    chunk_id: Seq<char>,
    capability: ObjectRelayCapability,
    owner_home_node_id: Seq<char>,
    owner_principal_id: Seq<char>,
    owner_device_epoch: u64,
    audience_node_id: Seq<char>,
    issued_at: u64,
    expires_at: u64,
    nonce: Seq<char>,
    signature: SignatureOutcome,
    binding_hash: Seq<char>,
) -> bool {
    if !(capability is Get || capability is Ack) {
        is_denied(r, "grant-backed token requires get or ack capability"@)
    } else if !grant_accepted(
        Some(&grant),
        protocol,
        branch.device_hash@,
        object_id,
        manifest_hash,
        issued_at,
        signature,
    ) {
        is_grant_refusal(
            r,
            Some(&grant),
            protocol,
            branch.device_hash@,
            object_id,
            manifest_hash,
            issued_at,
            signature,
        )
    } else if !grant.capabilities@.contains(capability) || is_blank(owner_home_node_id)
        || is_blank(owner_principal_id) || is_blank(audience_node_id) || owner_device_epoch
        == 0 {
        is_denied(r, "grant-backed token lineage or capability is incomplete"@)
    } else {
        r is Ok && asks_for(
            r->Ok_0,
            protocol,
            branch,
            OwnerNames {
                signing_key_id: grant.owner_signing_key_id@,
                public_key: grant.owner_public_key@,
                home_node_id: owner_home_node_id,
                principal_id: owner_principal_id,
                device_epoch: owner_device_epoch,
            },
            TokenScope {
                audience_node_id: audience_node_id,
                object_id: object_id,
                manifest_hash: manifest_hash,
                chunk_id: chunk_id,
                capability,
                kind: RelayAuthorizationKind::OwnerGrant,
                binding_hash: binding_hash,
                issued_at,
                expires_at,
                nonce: nonce,
            },
        )
    }
}

/// The request for a token with which the bearer of a grant gets or acknowledges a chunk.
pub fn build_v3_grant_token_issue_body(
    protocol: &RelayV3Protocol,
    grant: &ObjectAccessGrant,
    branch: &DeviceBranch,
    object_id: &str,
    manifest_hash: &str,
    chunk_id: &str,
    capability: ObjectRelayCapability,
    owner_home_node_id: &str,
    owner_principal_id: &str,
    owner_device_epoch: u64,
    audience_node_id: &str,
    issued_at: u64,
    expires_at: u64,
    nonce: &str,
    signature: &SignatureOutcome,
    binding_hash: &str,
) -> (r: Result<SdkRelayTokenV3IssueBody, SdkError>)
    ensures
        is_grant_token_answer(
            r,
            *protocol,
            *grant,
            *branch,
            object_id@,
            manifest_hash@,
            chunk_id@,
            capability,
            owner_home_node_id@,
            owner_principal_id@,
            owner_device_epoch,
            audience_node_id@,
            issued_at,
            expires_at,
            nonce@,
            *signature,
            binding_hash@,
        ),
{
    match capability {
        ObjectRelayCapability::Get => {},
        ObjectRelayCapability::Ack => {},
        _ => {
            return Err(denied("grant-backed token requires get or ack capability"));
        },
    }
    match verify_recipient_object_access_grant(
        protocol,
        Some(grant),
        branch,
        object_id,
        manifest_hash,
        issued_at,
        signature,
    ) {
        Ok(()) => {},
        Err(error) => {
            return Err(error);
        },
    }
    if !has_capability(&grant.capabilities, capability) || str_is_blank(owner_home_node_id)
        || str_is_blank(owner_principal_id) || str_is_blank(audience_node_id) || owner_device_epoch
        == 0 {
        return Err(denied("grant-backed token lineage or capability is incomplete"));
    }
    Ok(
        token_request(
            protocol,
            branch,
            grant.owner_signing_key_id.as_str(),
            grant.owner_public_key.as_str(),
            owner_home_node_id,
            owner_principal_id,
            owner_device_epoch,
            audience_node_id,
            object_id,
            manifest_hash,
            chunk_id,
            capability,
            RelayAuthorizationKind::OwnerGrant,
            binding_hash,
            issued_at,
            expires_at,
            nonce,
        ),
    )
}

} // verus!
