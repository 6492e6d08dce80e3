//! What is refused, and in which words: where several things are wrong, the first of them is told.
use crate::client::dm::ReceiptPlan;
use crate::client::dm_session::{
    check_bootstrap_transcript, check_signed_prekey, needed_header, send_session_source,
    send_session_source_with_prekey_url, SendSessionSource,
};
use crate::client::own_device_sync::{
    check_same_principal, own_device_sync_signer, own_sync_history_ref,
};
use crate::client::group::GroupInvite;
use crate::client::object::ChunkPlan;
use crate::client::state::RamfluxClient;
use crate::dm::{
    SdkDmAttachmentRef, SdkDmX3dhHeader, SdkReceiptEventBody, SdkReceiptEventEnvelope,
    SdkX3dhPrivateState,
};
use crate::error::SdkError;
use crate::gateway::engine::{FrameStep, GatewaySessionEngine};
use crate::gateway::protocol::{
    GatewayInboxEntry, GatewayOwnDeviceFanoutResponse, GatewayServerFrame,
    SdkRelayTokenV3IssueBody,
};
use crate::group::GroupState;
use crate::group_control::GroupEvent;
use crate::manifest::{
    federated_commitment, needed_manifest, prekey_commitment, target_commitment, CheckedDevice,
};
use crate::object::{
    DeviceBranch, EncryptedObject, ObjectAccessGrant, ObjectRelayCapability, RelayTransferOptions,
    RelayV3Protocol, SdkObjectKeySlot, SignatureOutcome,
};
use crate::object_grants::{
    build_v3_ack_token_issue_body, build_v3_get_token_issue_body,
    build_v3_owner_session_token_issue_body, verify_recipient_object_access_grant,
};
use crate::own_device_sync::SdkOwnDeviceSyncEnvelope;
use crate::prekey::{
    needed_bundle, PrekeyBundle, SdkMvp1PrekeyResponse,
};
use crate::recovery::{
    accept_guardian_invite, verify_guardian_invite, GuardianAcceptance, SdkGuardianInviteMessage,
};
use crate::relay_requests::{
    owner_chunk_lineage, owner_lineage, tombstone_request, ChunkOperation, OwnerLineage,
    TombstoneRequest,
};
use vstd::prelude::*;

verus! {

/// Whether a call failed with the given words, as something that is not allowed.
pub open spec fn not_allowed<T>(r: Result<T, SdkError>, words: Seq<char>) -> bool {
    r matches Err(SdkError::CapabilityDenied(m)) && m@ == words
}

/// Whether a call failed with the given words, as something that is not in order.
pub open spec fn not_in_order<T>(r: Result<T, SdkError>, words: Seq<char>) -> bool {
    r matches Err(SdkError::LocalBus(m)) && m@ == words
}

/// Of a grant, its form is judged first, then for whom it is, for what, what it allows, when, and its
/// signature last.
pub proof fn law_first_fault_of_a_grant_is_told(
    protocol: &RelayV3Protocol,
    grant: Option<&ObjectAccessGrant>,
    branch: &DeviceBranch,
    object_id: &str,
    manifest_hash: &str,
    now: u64,
    signature: &SignatureOutcome,
    r: Result<(), SdkError>,
)
    requires
        call_ensures(
            verify_recipient_object_access_grant,
            (protocol, grant, branch, object_id, manifest_hash, now, signature),
            r,
        ),
    ensures
        grant is None ==> not_allowed(r, "object access grant is required but was not provided"@),
        grant is Some ==> {
            let g = *grant->0;
            let formed = g.schema@ == protocol.object_access_grant_schema@ && g.version
                == protocol.proof_version;
            let ours = formed && g.grantee_device_hash@ == branch.device_hash@;
            let about = ours && g.object_id@ == object_id@ && g.manifest_hash@ == manifest_hash@;
            let narrow = about && g.capabilities@.len() > 0 && forall|i: int|
                0 <= i < g.capabilities@.len() ==> (#[trigger] g.capabilities@[i]) is Get
                    || g.capabilities@[i] is Ack;
            let holds = narrow && g.issued_at <= now < g.expires_at;
            &&& !formed ==> not_allowed(r, "object access grant schema/version rejected"@)
            &&& formed && !ours ==> not_allowed(
                r,
                "object access grant grantee does not match this device"@,
            )
            &&& ours && !about ==> not_allowed(
                r,
                "object access grant object/manifest binding mismatch"@,
            )
            &&& about && !narrow ==> not_allowed(
                r,
                "object access grant carries a non get/ack capability"@,
            )
            &&& narrow && !holds ==> not_allowed(
                r,
                "object access grant is outside its validity window"@,
            )
            &&& holds ==> match *signature {
                SignatureOutcome::Valid => r is Ok,
                SignatureOutcome::Invalid(words) => r matches Err(
                    SdkError::SignatureVerificationFailed(m),
                ) && m@ == "object access grant signature invalid: "@ + words@,
                SignatureOutcome::Unsignable(words) => r matches Err(SdkError::Protocol(m)) && m
                    == words,
            }
        },
{
}

/// Where a token for an attachment is not asked for though its grant is good, it is told what is
/// missing, the right first and then what is known of the owner.
pub proof fn law_first_lack_of_an_attachment_is_told(
    protocol: &RelayV3Protocol,
    grant: &ObjectAccessGrant,
    attachment: &SdkDmAttachmentRef,
    branch: &DeviceBranch,
    chunk_id: &str,
    issued_at: u64,
    expires_at: u64,
    nonce: &str,
    binding_hash: &str,
    get: Result<SdkRelayTokenV3IssueBody, SdkError>,
    ack: Result<SdkRelayTokenV3IssueBody, SdkError>,
)
    requires
        crate::laws::tokens::lets_fetch(
            *grant,
            *protocol,
            branch.device_hash@,
            attachment.object_id@,
            attachment.manifest_hash@,
            issued_at,
            SignatureOutcome::Valid,
        ),
        call_ensures(
            build_v3_get_token_issue_body,
            (
                protocol,
                Some(grant),
                attachment,
                branch,
                chunk_id,
                issued_at,
                expires_at,
                nonce,
                &SignatureOutcome::Valid,
                binding_hash,
            ),
            get,
        ),
        call_ensures(
            build_v3_ack_token_issue_body,
            (
                protocol,
                Some(grant),
                attachment,
                branch,
                chunk_id,
                issued_at,
                expires_at,
                nonce,
                &SignatureOutcome::Valid,
                binding_hash,
            ),
            ack,
        ),
    ensures
        ({
            let may = grant.capabilities@.contains(ObjectRelayCapability::Get);
            let home = may && attachment.owner_home_node_id is Some && !crate::text::is_blank(
                attachment.owner_home_node_id->0@,
            );
            let heard = home && attachment.relay_audience_node_id is Some && !crate::text::is_blank(
                attachment.relay_audience_node_id->0@,
            );
            let owned = heard && attachment.owner_principal_id@.len() > 0
                && attachment.owner_device_epoch > 0;
            &&& !may ==> not_allowed(get, "object access grant does not authorize get"@)
            &&& may && !home ==> not_allowed(get, "owner home node id is required"@)
            &&& home && !heard ==> not_allowed(get, "relay audience node id is required"@)
            &&& heard && !owned ==> not_allowed(get, "owner lineage is incomplete"@)
            &&& owned ==> get is Ok
            &&& owned && !grant.capabilities@.contains(ObjectRelayCapability::Ack) ==> not_allowed(
                ack,
                "object access grant does not authorize ack"@,
            )
        }),
{
}

/// Where an owner's session may not ask for a token, it is told why.
pub proof fn law_owner_is_told_why_not(
    protocol: &RelayV3Protocol,
    branch: &DeviceBranch,
    object: &EncryptedObject,
    chunk_id: &str,
    capability: ObjectRelayCapability,
    home: &str,
    audience: &str,
    principal: &str,
    binding_hash: &str,
    issued_at: u64,
    expires_at: u64,
    nonce: &str,
    r: Result<SdkRelayTokenV3IssueBody, SdkError>,
)
    requires
        call_ensures(
            build_v3_owner_session_token_issue_body,
            (
                protocol,
                branch,
                object,
                chunk_id,
                capability,
                home,
                audience,
                principal,
                binding_hash,
                issued_at,
                expires_at,
                nonce,
            ),
            r,
        ),
    ensures
        !(capability is Put || capability is Tombstone) ==> not_allowed(
            r,
            "owner-session token requires put or tombstone capability"@,
        ),
        (capability is Put || capability is Tombstone) && r is Err ==> not_allowed(
            r,
            "owner-session token lineage or validity window is incomplete"@,
        ),
{
}

/// An announcement is judged by its form first, then by whose it is, when, for whom, and by the slot of
/// its key last.
pub proof fn law_first_fault_of_an_announcement_is_told(
    client: &RamfluxClient,
    expected: &str,
    e: &SdkOwnDeviceSyncEnvelope,
    now: i64,
    r: Result<(), SdkError>,
)
    requires
        client.device_branch is Some,
        call_ensures(
            RamfluxClient::verify_own_device_sync_envelope,
            (client, expected, e, now),
            r,
        ),
    ensures
        ({
            let slot = e.history_ref.key_slot;
            let formed = e.schema@ == "ramflux.sdk.own_device_sync.v1"@;
            let ours = formed && e.principal_commitment@ == expected@;
            let fresh = ours && e.expires_at >= now;
            let here = fresh && e.target_device_id@ == client.device_branch->0.device_id@;
            let addressed = here && slot.recipient_device_id@ == e.target_device_id@;
            let bound = addressed && slot.object_id@ == e.history_ref.object_id@;
            let named = bound && slot.conversation_id@ == "own_device.sync.slot:"@ + e.snapshot_id@
                + ":"@ + e.history_ref.object_id@ + ":"@ + e.target_device_id@;
            &&& !formed ==> not_in_order(r, "unsupported own-device sync schema: "@ + e.schema@)
            &&& formed && !ours ==> not_in_order(r, "own-device sync local principal mismatch"@)
            &&& ours && !fresh ==> not_in_order(r, "own-device sync envelope expired"@)
            &&& fresh && !here ==> not_in_order(r, "own-device sync target device mismatch"@)
            &&& here && !addressed ==> not_in_order(r, "own-device sync key slot target mismatch"@)
            &&& addressed && !bound ==> not_in_order(
                r,
                "own-device sync key slot object mismatch"@,
            )
            &&& bound && !named ==> not_in_order(
                r,
                "own-device sync key slot conversation mismatch"@,
            )
            &&& named ==> r is Ok
        }),
{
}

/// Whether no device of a manifest has a name.
pub open spec fn none_named(devices: Seq<CheckedDevice>, device_id: Seq<char>) -> bool {
    forall|i: int| 0 <= i < devices.len() ==> (#[trigger] devices[i]).device.device_id@ != device_id
}

/// Of an announcement against a manifest, it is told first that its source is not there, then that its
/// target is not.
pub proof fn law_missing_device_is_told(
    e: &SdkOwnDeviceSyncEnvelope,
    devices: &Vec<CheckedDevice>,
    r: Result<String, SdkError>,
)
    requires
        call_ensures(own_device_sync_signer, (e, devices), r),
    ensures
        none_named(devices@, e.source_device_id@) ==> not_in_order(
            r,
            "own-device sync source "@ + e.source_device_id@ + " is not in verified manifest"@,
        ),
        !none_named(devices@, e.source_device_id@) && none_named(devices@, e.target_device_id@)
            ==> not_in_order(
            r,
            "own-device sync target "@ + e.target_device_id@ + " is not in verified manifest"@,
        ),
{
    crate::laws::contacts::lemma_device_at(devices@, e.source_device_id@);
    crate::laws::contacts::lemma_device_at(devices@, e.target_device_id@);
}

/// An invitation is judged by its form first, then by its check, by whom it is for, when, and by its
/// share last.
pub proof fn law_first_fault_of_an_invitation_is_told(
    client: &RamfluxClient,
    invite: &SdkGuardianInviteMessage,
    checked: Result<(), SdkError>,
    decoded: Result<Vec<u8>, String>,
    now: i64,
    formed: Result<(), SdkError>,
    r: Result<GuardianAcceptance, SdkError>,
)
    requires
        call_ensures(verify_guardian_invite, (invite, checked), formed),
        call_ensures(accept_guardian_invite, (client, invite, checked, decoded, now), r),
    ensures
        formed matches Err(e) ==> (r matches Err(f) && (e matches SdkError::LocalBus(m) ==> (
        f matches SdkError::LocalBus(n) && n@ == m@))),
        formed is Ok ==> {
            let device = client.device_branch;
            let ours = device is Some && device->0.principal_id@ == invite.guardian_principal_id@;
            let fresh = ours && invite.expires_at > now;
            let read = fresh && decoded is Ok;
            &&& device is None ==> r is Err && r->Err_0 is IdentityRootMissing
            &&& device is Some && !ours ==> not_in_order(
                r,
                "guardian invite target mismatch: expected "@ + invite.guardian_principal_id@
                    + ", local "@ + device->0.principal_id@,
            )
            &&& ours && !fresh ==> not_in_order(
                r,
                "guardian invite expired: "@ + invite.invite_id@,
            )
            &&& fresh && !read ==> not_in_order(
                r,
                "guardian share is not base64url: "@ + decoded->Err_0@,
            )
            &&& read && decoded->Ok_0@.len() != 32 ==> not_in_order(
                r,
                "guardian share has invalid length: "@ + crate::text::decimal(
                    decoded->Ok_0@.len(),
                ),
            )
            &&& read && decoded->Ok_0@.len() == 32 ==> r is Ok
        },
{
}

/// What is missing of an owner is told by the name of the setting that would give it, the home first,
/// then the identity, then the relay.
pub proof fn law_missing_owner_is_told(
    options: &RelayTransferOptions,
    words: &str,
    operation: ChunkOperation,
    r: Result<OwnerLineage, SdkError>,
    chunk: Result<OwnerLineage, SdkError>,
    name: Seq<char>,
)
    requires
        call_ensures(owner_lineage, (options, words), r),
        call_ensures(owner_chunk_lineage, (options, operation), chunk),
        name == match operation {
            ChunkOperation::Put => "owner PUT"@,
            ChunkOperation::Get => "owner GET"@,
            ChunkOperation::Ack => "owner ACK"@,
        },
    ensures
        options.relay_owner_home_node_id is None ==> not_allowed(
            r,
            "v3 "@ + words@ + " requires RAMFLUX_SDK_RELAY_OWNER_HOME_NODE_ID"@,
        ),
        options.relay_owner_home_node_id is Some && options.relay_owner_principal_id is None
            ==> not_allowed(
            r,
            "v3 "@ + words@ + " requires RAMFLUX_SDK_RELAY_OWNER_PRINCIPAL_ID"@,
        ),
        options.relay_owner_home_node_id is Some && options.relay_owner_principal_id is Some
            && options.relay_audience_node_id is None ==> not_allowed(
            r,
            "v3 "@ + words@ + " requires RAMFLUX_SDK_RELAY_AUDIENCE_NODE_ID"@,
        ),
        operation is Get && options.token_provider is LocalMint ==> not_allowed(
            chunk,
            "v3 relay GET requires gateway-issued token material"@,
        ),
        operation is Ack && options.token_provider is LocalMint ==> not_allowed(
            chunk,
            "v3 relay ACK requires gateway-issued token material"@,
        ),
        (operation is Put || options.token_provider is GatewayIssued)
            && options.relay_owner_home_node_id is None ==> not_allowed(
            chunk,
            "v3 "@ + name + " requires RAMFLUX_SDK_RELAY_OWNER_HOME_NODE_ID"@,
        ),
{
}

/// Why an object cannot be buried on a relay is told: first that the settings do not allow it, then that
/// the object is not there, then that there is no device.
pub proof fn law_first_fault_of_a_burial_is_told(
    options: &RelayTransferOptions,
    objects: &Vec<EncryptedObject>,
    object_id: &str,
    branch: Option<&DeviceBranch>,
    issued_at: u64,
    r: Result<TombstoneRequest, SdkError>,
)
    requires
        call_ensures(tombstone_request, (options, objects, object_id, branch, issued_at), r),
    ensures
        ({
            let some = options.relay_quic_peer_addr is Some || options.relay_quic_server_name is Some
                || options.relay_quic_ca_cert is Some;
            let all = options.relay_quic_peer_addr is Some && options.relay_quic_server_name is Some
                && options.relay_quic_ca_cert is Some;
            let may = options.token_provider is GatewayIssued && some;
            let there = crate::laws::objects::lists(objects@, object_id@);
            &&& !may ==> not_allowed(
                r,
                "v3 relay tombstone requires gateway-issued QUIC configuration"@,
            )
            &&& may && !all ==> not_in_order(r, "relay QUIC configuration is incomplete"@)
            &&& may && all && !there ==> (r matches Err(SdkError::Sync(e)) && e is ObjectNotFound)
            &&& may && all && there && branch is None ==> not_in_order(
                r,
                "object relay requires a device branch"@,
            )
        }),
{
    crate::laws::objects::lemma_first_of_a_name(objects@, object_id@);
}

/// Why a conversation cannot be begun or accepted is told.
pub proof fn law_fault_of_a_new_conversation_is_told(
    device: &Option<String>,
    url: &Option<String>,
    here: Result<SendSessionSource, SdkError>,
    there: Result<SendSessionSource, SdkError>,
    conversation_id: &str,
    missing: Result<&SdkDmX3dhHeader, SdkError>,
    own: &SdkX3dhPrivateState,
    header: &SdkDmX3dhHeader,
    known: Result<(), SdkError>,
    transcript: &[u8; 32],
    agrees: Result<(), SdkError>,
)
    requires
        call_ensures(send_session_source, (false, device), here),
        call_ensures(send_session_source_with_prekey_url, (false, device, url), there),
        call_ensures(needed_header, (conversation_id, None), missing),
        call_ensures(check_signed_prekey, (own, header), known),
        call_ensures(check_bootstrap_transcript, (transcript, header), agrees),
    ensures
        *device is None ==> not_in_order(
            here,
            "recipient_device_id is required to bootstrap a new X3DH DM session"@,
        ),
        *device is None ==> not_in_order(
            there,
            "recipient_device_id is required to bootstrap a new X3DH DM session"@,
        ),
        *device is Some && *url is None ==> not_in_order(
            there,
            "prekey_http_url is required to fetch recipient prekeys"@,
        ),
        not_in_order(
            missing,
            "missing X3DH header for new inbound DM session "@ + conversation_id@,
        ),
        known is Err ==> not_in_order(
            known,
            "signed prekey id mismatch for "@ + header.recipient_device_id@,
        ),
        agrees is Err ==> not_in_order(agrees, "X3DH bootstrap transcript hash mismatch"@),
{
}

/// Whether it is said why a client does not act for a device: it has none, or another one.
pub open spec fn says_who_acts(
    r: Result<GroupEvent, SdkError>,
    client: RamfluxClient,
    actor_device_id: Seq<char>,
) -> bool {
    if client.device_branch is None {
        r is Err && r->Err_0 is IdentityRootMissing
    } else {
        not_in_order(
            r,
            "actor device "@ + actor_device_id + " does not match local signer "@
                + client.device_branch->0.device_id@,
        )
    }
}

/// A client makes events of a group only for its own device.
pub proof fn law_client_acts_only_for_its_device(
    client: &RamfluxClient,
    group: &GroupState,
    group_id: &str,
    actor_device_id: &str,
    other: &str,
    words: &str,
    expires_at: i64,
    invite: &GroupInvite,
    domain: &str,
    now: i64,
    kick: Result<GroupEvent, SdkError>,
    ban: Result<GroupEvent, SdkError>,
    invitation: Result<GroupEvent, SdkError>,
    acceptance: Result<GroupEvent, SdkError>,
    deletion: Result<GroupEvent, SdkError>,
    change: Result<GroupEvent, SdkError>,
    join: Result<GroupEvent, SdkError>,
)
    requires
        client.active_account_db is Some,
        client.device_branch matches Some(device) ==> device.device_id@ != actor_device_id@,
        group.group_epoch < u64::MAX,
        call_ensures(
            RamfluxClient::create_signed_group_member_kick,
            (client, group, group_id, actor_device_id, other, words, domain, now),
            kick,
        ),
        call_ensures(
            RamfluxClient::create_signed_group_member_ban,
            (client, group, group_id, actor_device_id, other, words, domain, now),
            ban,
        ),
        call_ensures(
            RamfluxClient::create_signed_group_member_invite,
            (
                client,
                group,
                group_id,
                actor_device_id,
                other,
                words,
                words,
                expires_at,
                words,
                domain,
                now,
            ),
            invitation,
        ),
        call_ensures(
            RamfluxClient::create_signed_group_member_accept,
            (client, group, group_id, actor_device_id, other, invite, domain, now),
            acceptance,
        ),
        call_ensures(
            RamfluxClient::create_signed_group_message_delete,
            (client, group, group_id, actor_device_id, other, words, words, domain, now),
            deletion,
        ),
        call_ensures(
            RamfluxClient::create_signed_group_role_change,
            (client, group, group_id, actor_device_id, other, words, domain, now),
            change,
        ),
        call_ensures(
            RamfluxClient::create_signed_group_member_join_event,
            (client, group, group_id, actor_device_id, other, words, words, domain, now),
            join,
        ),
    ensures
        says_who_acts(kick, *client, actor_device_id@),
        says_who_acts(ban, *client, actor_device_id@),
        says_who_acts(invitation, *client, actor_device_id@),
        says_who_acts(acceptance, *client, actor_device_id@),
        says_who_acts(deletion, *client, actor_device_id@),
        says_who_acts(change, *client, actor_device_id@),
        join is Err,
{
}

/// What is no receipt is passed over; a receipt is refused that claims another device than the one that
/// sent it, or that is for everyone.
pub proof fn law_first_fault_of_a_receipt_is_told(
    client: &RamfluxClient,
    parsed: &Option<SdkReceiptEventEnvelope>,
    source: &str,
    r: Result<Option<ReceiptPlan>, SdkError>,
)
    requires
        call_ensures(RamfluxClient::apply_receipt_event_plaintext, (client, parsed, source), r),
    ensures
        ({
            let receipt = *parsed is Some && parsed->0.schema@ == "ramflux.sdk.receipt_event.v1"@;
            let own = receipt && parsed->0.reader_device_id@ == source@;
            &&& !receipt ==> r == Ok::<Option<ReceiptPlan>, SdkError>(None)
            &&& receipt && !own ==> not_in_order(
                r,
                "receipt reader_device_id mismatch: claimed "@ + parsed->0.reader_device_id@
                    + ", authenticated "@ + source@,
            )
            &&& own ==> match parsed->0.event {
                SdkReceiptEventBody::Delivered { receiver_device_id, .. } => if receiver_device_id@
                    != source@ {
                    not_in_order(
                        r,
                        "receipt receiver_device_id mismatch: claimed "@ + receiver_device_id@
                            + ", authenticated "@ + source@,
                    )
                } else {
                    r is Ok <==> client.active_account_db is Some
                },
                SdkReceiptEventBody::ReadPrivate { reader_identity, .. } => if reader_identity@
                    != source@ {
                    not_in_order(
                        r,
                        "receipt reader identity mismatch: claimed "@ + reader_identity@
                            + ", authenticated "@ + source@,
                    )
                } else {
                    r is Ok <==> client.active_account_db is Some
                },
                SdkReceiptEventBody::ReadPublic { .. } => not_in_order(
                    r,
                    "public read receipts are not accepted on the E2EE receipt path"@,
                ),
            }
        }),
{
    reveal_strlit("receipt reader_device_id");
    reveal_strlit("receipt receiver_device_id");
    reveal_strlit("receipt reader identity");
    reveal_strlit(" mismatch: claimed ");
    reveal_strlit("receipt reader_device_id mismatch: claimed ");
    reveal_strlit("receipt receiver_device_id mismatch: claimed ");
    reveal_strlit("receipt reader identity mismatch: claimed ");
    assert("receipt reader_device_id"@ + " mismatch: claimed "@
        =~= "receipt reader_device_id mismatch: claimed "@);
    assert("receipt receiver_device_id"@ + " mismatch: claimed "@
        =~= "receipt receiver_device_id mismatch: claimed "@);
    assert("receipt reader identity"@ + " mismatch: claimed "@
        =~= "receipt reader identity mismatch: claimed "@);
}

/// A frame that is not waited for ends the wait, and it is told what came instead.
pub proof fn law_unexpected_frame_is_told(
    a: &mut GatewaySessionEngine,
    b: &mut GatewaySessionEngine,
    delivered: &mut Vec<GatewayInboxEntry>,
    envelope_id: &str,
    frame: GatewayServerFrame,
    shown: &str,
    submitted: FrameStep<GatewayInboxEntry>,
    fanned: FrameStep<GatewayOwnDeviceFanoutResponse>,
    resumed: FrameStep<Vec<GatewayInboxEntry>>,
)
    requires
        frame is Heartbeat || frame is Close || frame is Drain,
        call_ensures(GatewaySessionEngine::submit_frame, (a, envelope_id, frame, shown), submitted),
        call_ensures(GatewaySessionEngine::fanout_frame, (b, frame, shown), fanned),
        call_ensures(GatewaySessionEngine::resume_frame, (delivered, frame, shown), resumed),
    ensures
        submitted matches FrameStep::Failed(SdkError::GatewaySessionRejected(m)) && m@
            == "expected deliver after submit, got "@ + shown@,
        fanned matches FrameStep::Failed(SdkError::GatewaySessionRejected(m)) && m@
            == "expected own-device fanout response, got "@ + shown@,
        resumed matches FrameStep::Failed(SdkError::GatewaySessionRejected(m)) && m@
            == "expected resume frame, got "@ + shown@,
{
}

/// Which identity or bundle could not be found is told.
pub proof fn law_unknown_identity_is_told<M>(
    told: String,
    device_id: &str,
    registry: Result<String, SdkError>,
    federated: Result<String, SdkError>,
    target: Result<String, SdkError>,
    identity: &str,
    manifest: Result<M, SdkError>,
    response: SdkMvp1PrekeyResponse,
    bundle: Result<PrekeyBundle, SdkError>,
    a: &str,
    b: &str,
    apart: Result<(), SdkError>,
)
    requires
        told@.len() == 0,
        response.bundle is None,
        a@ != b@,
        call_ensures(prekey_commitment, (told, device_id), registry),
        call_ensures(federated_commitment, (None,), federated),
        call_ensures(target_commitment, (None,), target),
        call_ensures(needed_manifest::<M>, (None, identity), manifest),
        call_ensures(needed_bundle, (response, device_id), bundle),
        call_ensures(check_same_principal, (a, b), apart),
    ensures
        not_in_order(
            registry,
            "cannot resolve principal commitment for target device "@ + device_id@
                + " from local trusted device directory or prekey registry"@,
        ),
        not_in_order(
            federated,
            "federated direct messages require an explicit recipient principal commitment to verify the remote device manifest"@,
        ),
        not_in_order(
            target,
            "cannot verify manifest membership for target device without principal commitment"@,
        ),
        not_in_order(manifest, "missing device manifest for "@ + identity@),
        not_in_order(bundle, "missing prekey bundle for "@ + device_id@),
        not_in_order(apart, "own-device sync principal mismatch"@),
{
}

/// A history's object is named with nothing of an owner: it goes only to a device of the same identity.
pub proof fn law_history_object_names_no_owner(
    object: &EncryptedObject,
    plan: ChunkPlan,
    relay: &str,
    slot: SdkObjectKeySlot,
    a: SdkDmAttachmentRef,
)
    requires
        call_ensures(own_sync_history_ref, (object, plan, relay, slot), a),
    ensures
        a.version == 1,
        a.owner_home_node_id is None && a.relay_audience_node_id is None,
        a.owner_principal_id@.len() == 0 && a.owner_device_epoch == 0,
        a.access_grant is None,
{
}

} // verus!
