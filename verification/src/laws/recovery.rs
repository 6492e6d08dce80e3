//! Recovery: what a quorum commits to, and how a share reaches its guardian.
use crate::client::state::RamfluxClient;
use crate::error::SdkError;
use crate::records::AccountDbRequest;
use crate::recovery::{
    accept_guardian_invite, approve_recovery, build_recovery_proof, configure_recovery_quorum,
    decode_guardian_share_value, invite_guardian, recovery_quorum_total, verify_guardian_invite,
    GuardianAcceptance, GuardianRecoveryShareWrite, IdentityEventBody, RecoveryApproval,
    RecoveryApprovalContext, RecoveryQuorumMemberKind, RecoveryQuorumProof, RecoveryShare,
    SdkGuardianAcceptMessage, SdkGuardianInviteMessage, SdkRecoveryQuorumConfiguration,
    SdkRecoveryQuorumMember,
};
use vstd::prelude::*;

verus! {

/// Whether a quorum commits to each member's key under the member's name and kind, and has one share
/// for each, with the value that the split gave it.
pub open spec fn commits_to_members(
    c: SdkRecoveryQuorumConfiguration,
    recovery_quorum_id: Seq<char>,
    threshold: u8,
    members: Seq<SdkRecoveryQuorumMember>,
    split: Seq<RecoveryShare>,
) -> bool {
    let quorum = c.recovery_quorum;
    &&& quorum.recovery_quorum_id@ == recovery_quorum_id
    &&& quorum.threshold == threshold
    &&& quorum.total == members.len()
    &&& quorum.members@.len() == members.len()
    &&& forall|i: int|
        0 <= i < members.len() ==> (#[trigger] quorum.members@[i]).public_key_base64url@
            == members[i].public_key_base64url@
    &&& forall|i: int|
        0 <= i < members.len() ==> (#[trigger] quorum.members@[i]).signing_key_id@
            == members[i].signing_key_id@
    &&& forall|i: int|
        0 <= i < members.len() ==> (#[trigger] quorum.members@[i]).member_kind
            == members[i].member_kind
    &&& c.shares@.len() == split.len()
    &&& forall|i: int|
        0 <= i < split.len() ==> {
            &&& (#[trigger] c.shares@[i]).value@ == split[i].value@
            &&& c.shares@[i].share_id == split[i].share_id
            &&& c.shares@[i].threshold == split[i].threshold
            &&& c.shares@[i].total == split[i].total
        }
    &&& forall|i: int|
        0 <= i < split.len() && i < members.len() ==> (#[trigger] c.shares@[i]).member_kind
            == Some(members[i].member_kind)
}

/// A quorum of as many members as can be counted is configured whenever the secret was split, and
/// commits to its members; a failed split is told, and so is a quorum that is too large.
pub proof fn law_quorum_commits_to_its_members(
    recovery_quorum_id: &str,
    threshold: u8,
    members: &Vec<SdkRecoveryQuorumMember>,
    shares: Result<Vec<RecoveryShare>, SdkError>,
    r: Result<SdkRecoveryQuorumConfiguration, SdkError>,
    via_client: Result<SdkRecoveryQuorumConfiguration, SdkError>,
    total: Result<u8, SdkError>,
)
    requires
        call_ensures(
            configure_recovery_quorum,
            (recovery_quorum_id, threshold, members, shares),
            r,
        ),
        call_ensures(
            RamfluxClient::configure_recovery_quorum,
            (recovery_quorum_id, threshold, members, shares),
            via_client,
        ),
        call_ensures(recovery_quorum_total, (members,), total),
    ensures
        r is Ok <==> members@.len() <= 255 && shares is Ok,
        via_client is Ok <==> members@.len() <= 255 && shares is Ok,
        total is Ok <==> members@.len() <= 255,
        total matches Ok(n) ==> n == members@.len(),
        r matches Ok(c) ==> commits_to_members(
            c,
            recovery_quorum_id@,
            threshold,
            members@,
            shares->Ok_0@,
        ),
        via_client matches Ok(c) ==> commits_to_members(
            c,
            recovery_quorum_id@,
            threshold,
            members@,
            shares->Ok_0@,
        ),
        members@.len() <= 255 && shares is Err ==> r == Err::<
            SdkRecoveryQuorumConfiguration,
            SdkError,
        >(shares->Err_0),
{
}

/// The event that a quorum leaves in the lineage of its identity names the quorum, its threshold, its
/// total and its members as they were configured, and none of the shares.
pub proof fn law_lineage_names_the_quorum(
    recovery_quorum_id: &str,
    threshold: u8,
    members: &Vec<SdkRecoveryQuorumMember>,
    shares: Result<Vec<RecoveryShare>, SdkError>,
    r: Result<SdkRecoveryQuorumConfiguration, SdkError>,
    event: IdentityEventBody,
)
    requires
        call_ensures(
            configure_recovery_quorum,
            (recovery_quorum_id, threshold, members, shares),
            r,
        ),
        r is Ok,
        call_ensures(
            SdkRecoveryQuorumConfiguration::lineage_event_body,
            (&r->Ok_0,),
            event,
        ),
    ensures
        event matches IdentityEventBody::RecoveryQuorumConfigured { recovery_quorum } && {
            &&& recovery_quorum.recovery_quorum_id@ == recovery_quorum_id@
            &&& recovery_quorum.threshold == threshold
            &&& recovery_quorum.total == members@.len()
            &&& recovery_quorum.members@.len() == members@.len()
            &&& forall|i: int|
                0 <= i < members@.len() ==> {
                    &&& (#[trigger] recovery_quorum.members@[i]).public_key_base64url@
                        == members@[i].public_key_base64url@
                    &&& recovery_quorum.members@[i].signing_key_id@ == members@[i].signing_key_id@
                    &&& recovery_quorum.members@[i].member_kind == members@[i].member_kind
                }
        },
{
}

/// An approval is by the member that signs it, and the proof of a recovery holds the approvals that it
/// was built of, for the recovery that they are about.
pub proof fn law_proof_holds_its_approvals(
    member_kind: RecoveryQuorumMemberKind,
    signing_key_id: &str,
    signature: String,
    approval: RecoveryApproval,
    again: RecoveryApproval,
    context: RecoveryApprovalContext,
    approvals: Vec<RecoveryApproval>,
    r: RecoveryQuorumProof,
    via_client: RecoveryQuorumProof,
)
    requires
        call_ensures(approve_recovery, (member_kind, signing_key_id, signature), approval),
        call_ensures(
            RamfluxClient::approve_recovery,
            (member_kind, signing_key_id, signature),
            again,
        ),
        call_ensures(build_recovery_proof, (context, approvals), r),
        call_ensures(RamfluxClient::build_recovery_proof, (context, approvals), via_client),
    ensures
        approval.member_kind == member_kind && again.member_kind == member_kind,
        approval.signing_key_id@ == signing_key_id@ && again.signing_key_id@ == signing_key_id@,
        approval.signature@ == signature@ && again.signature@ == signature@,
        approval.signature_alg is Ed25519 && again.signature_alg is Ed25519,
        r.context == context && via_client.context == context,
        r.approvals@ == approvals@ && via_client.approvals@ == approvals@,
{
}

/// An invitation is made for a guardian's share only, in the name of the device that makes it, for the
/// guardian and the quorum that it is asked for, and carries the share.
pub proof fn law_invitation_carries_the_share(
    client: &RamfluxClient,
    invite_id: &str,
    recovery_quorum_id: &str,
    guardian_principal_id: &str,
    share: &RecoveryShare,
    value_base64: String,
    expires_at: i64,
    now: i64,
    r: Result<SdkGuardianInviteMessage, SdkError>,
    via_client: Result<SdkGuardianInviteMessage, SdkError>,
)
    requires
        call_ensures(
            invite_guardian,
            (
                client,
                invite_id,
                recovery_quorum_id,
                guardian_principal_id,
                share,
                value_base64,
                expires_at,
                now,
            ),
            r,
        ),
        call_ensures(
            RamfluxClient::invite_guardian,
            (
                client,
                invite_id,
                recovery_quorum_id,
                guardian_principal_id,
                share,
                value_base64,
                expires_at,
                now,
            ),
            via_client,
        ),
    ensures
        r is Ok <==> client.device_branch is Some && share.member_kind
            == Some(RecoveryQuorumMemberKind::GuardianShare),
        via_client is Ok <==> r is Ok,
        r matches Ok(invite) ==> invites(
            invite,
            *client,
            invite_id@,
            recovery_quorum_id@,
            guardian_principal_id@,
            *share,
            value_base64@,
            expires_at,
            now,
        ),
        via_client matches Ok(invite) ==> invites(
            invite,
            *client,
            invite_id@,
            recovery_quorum_id@,
            guardian_principal_id@,
            *share,
            value_base64@,
            expires_at,
            now,
        ),
{
}

/// Whether an invitation says who invites whom into which quorum, with which share, from when until
/// when.
pub open spec fn invites(
    invite: SdkGuardianInviteMessage,
    client: RamfluxClient,
    invite_id: Seq<char>,
    recovery_quorum_id: Seq<char>,
    guardian_principal_id: Seq<char>,
    share: RecoveryShare,
    value_base64: Seq<char>,
    expires_at: i64,
    now: i64,
) -> bool {
    &&& invite.invite_id@ == invite_id
    &&& invite.recovery_quorum_id@ == recovery_quorum_id
    &&& invite.guardian_principal_id@ == guardian_principal_id
    &&& client.device_branch matches Some(branch) && {
        &&& invite.inviter_principal_id@ == branch.principal_id@
        &&& invite.inviter_device_id@ == branch.device_id@
        &&& invite.inviter_device_epoch == branch.device_epoch
        &&& invite.inviter_device_public_key_base64url@ == branch.public_key@
        &&& invite.signed.signing_key_id@ == "device:"@ + branch.device_id@
    }
    &&& invite.share.share_id == share.share_id
    &&& invite.share.threshold == share.threshold
    &&& invite.share.total == share.total
    &&& invite.share.member_kind is GuardianShare
    &&& invite.share.value_base64@ == value_base64
    &&& invite.issued_at == now
    &&& invite.expires_at == expires_at
    &&& invite.schema@ == "ramflux.sdk.recovery.guardian_invite.v1"@
    &&& invite.version == 1
}

/// A share that was invited with is what its guardian stores, for the owner and the quorum that it
/// belongs to, with the guardian's signed acceptance: the whole way from the owner to the guardian's
/// database.
pub proof fn law_share_reaches_its_guardian(
    owner: &RamfluxClient,
    guardian: &RamfluxClient,
    invite_id: &str,
    recovery_quorum_id: &str,
    guardian_principal_id: &str,
    share: &RecoveryShare,
    value_base64: String,
    expires_at: i64,
    issued_at: i64,
    made: Result<SdkGuardianInviteMessage, SdkError>,
    signature: String,
    invite: SdkGuardianInviteMessage,
    decoded: Vec<u8>,
    now: i64,
    accepted: Result<GuardianAcceptance, SdkError>,
    acceptance_signature: String,
    accept: SdkGuardianAcceptMessage,
    kept: Result<GuardianRecoveryShareWrite, SdkError>,
    encode: spec_fn(Seq<u8>) -> Seq<char>,
    decode: spec_fn(Seq<char>) -> Option<Seq<u8>>,
)
    requires
        forall|bytes: Seq<u8>| decode(#[trigger] encode(bytes)) == Some(bytes),
        owner.device_branch is Some,
        share.member_kind == Some(RecoveryQuorumMemberKind::GuardianShare),
        guardian.active_account_db is Some,
        guardian.device_branch matches Some(branch) && branch.principal_id@
            == guardian_principal_id@,
        value_base64@ == encode(share.value@),
        now < expires_at,
        call_ensures(
            RamfluxClient::invite_guardian,
            (
                owner,
                invite_id,
                recovery_quorum_id,
                guardian_principal_id,
                share,
                value_base64,
                expires_at,
                issued_at,
            ),
            made,
        ),
        made matches Ok(m) ==> call_ensures(
            SdkGuardianInviteMessage::with_signature,
            (m, signature),
            invite,
        ),
        decode(invite.share.value_base64@) == Some(decoded@),
        call_ensures(
            RamfluxClient::accept_guardian_invite,
            (guardian, &invite, Ok(()), Ok(decoded), now),
            accepted,
        ),
        accepted matches Ok(a) ==> call_ensures(
            SdkGuardianAcceptMessage::with_signature,
            (a.accept, acceptance_signature),
            accept,
        ),
        accepted matches Ok(a) ==> call_ensures(
            RamfluxClient::record_guardian_recovery_share,
            (guardian, &invite, &accept, a.share_value),
            kept,
        ),
    ensures
        made is Ok,
        accepted is Ok,
        kept matches Ok(w) && {
            &&& w.share_value@ == share.value@
            &&& w.share_id == share.share_id
            &&& w.threshold == share.threshold
            &&& w.total == share.total
            &&& w.owner_principal_id@ == owner.device_branch->0.principal_id@
            &&& w.guardian_principal_id@ == guardian_principal_id@
            &&& w.recovery_quorum_id@ == recovery_quorum_id@
            &&& w.invite_id@ == invite_id@
            &&& w.inviter_device_id@ == owner.device_branch->0.device_id@
            &&& w.inviter_device_public_key_base64url@ == owner.device_branch->0.public_key@
            &&& w.accepted_at == now
            &&& w.accepted_by_device_id@ == guardian.device_branch->0.device_id@
            &&& w.accept_signature@ == acceptance_signature@
            &&& w.member_kind@ == "guardian_share"@
            &&& w.state@ == "accepted"@
        },
{
    assert(share.value@.len() == 32);
}

/// An acceptance answers its invitation, in the name of the guardian's device.
pub proof fn law_acceptance_answers_its_invitation(
    client: &RamfluxClient,
    invite: &SdkGuardianInviteMessage,
    checked: Result<(), SdkError>,
    decoded: Result<Vec<u8>, String>,
    now: i64,
    r: Result<GuardianAcceptance, SdkError>,
    via_client: Result<GuardianAcceptance, SdkError>,
)
    requires
        call_ensures(accept_guardian_invite, (client, invite, checked, decoded, now), r),
        call_ensures(
            RamfluxClient::accept_guardian_invite,
            (client, invite, checked, decoded, now),
            via_client,
        ),
    ensures
        via_client is Ok <==> r is Ok,
        r is Ok <==> {
            &&& invite.schema@ == "ramflux.sdk.recovery.guardian_invite.v1"@
            &&& invite.version == 1
            &&& invite.share.member_kind is GuardianShare
            &&& checked is Ok
            &&& client.device_branch matches Some(branch) && branch.principal_id@
                == invite.guardian_principal_id@
            &&& now < invite.expires_at
            &&& decoded matches Ok(bytes) && bytes@.len() == 32
        },
        r matches Ok(a) ==> {
            let branch = client.device_branch->0;
            &&& a.share_value@ == decoded->Ok_0@
            &&& a.accept.invite_id@ == invite.invite_id@
            &&& a.accept.accept_id@ == "guardian_accept:"@ + invite.invite_id@
            &&& a.accept.owner_principal_id@ == invite.inviter_principal_id@
            &&& a.accept.recovery_quorum_id@ == invite.recovery_quorum_id@
            &&& a.accept.guardian_principal_id@ == branch.principal_id@
            &&& a.accept.guardian_device_id@ == branch.device_id@
            &&& a.accept.guardian_device_epoch == branch.device_epoch
            &&& a.accept.guardian_device_public_key_base64url@ == branch.public_key@
            &&& a.accept.accepted_at == now
            &&& a.accept.signed.signing_key_id@ == "device:"@ + branch.device_id@
            &&& a.accept.schema@ == "ramflux.sdk.recovery.guardian_accept.v1"@
            &&& a.accept.version == 1
        },
{
}

/// An invitation is verified exactly if it has the form of one, is for a guardian's share, and its
/// signature was checked; and a share's value is exactly thirty-two bytes.
pub proof fn law_invitation_is_verified_exactly_then(
    invite: &SdkGuardianInviteMessage,
    checked: Result<(), SdkError>,
    r: Result<(), SdkError>,
    decoded: Result<Vec<u8>, String>,
    value: Result<[u8; 32], SdkError>,
)
    requires
        call_ensures(verify_guardian_invite, (invite, checked), r),
        call_ensures(decode_guardian_share_value, (decoded,), value),
    ensures
        r is Ok <==> {
            &&& invite.schema@ == "ramflux.sdk.recovery.guardian_invite.v1"@
            &&& invite.version == 1
            &&& invite.share.member_kind is GuardianShare
            &&& checked is Ok
        },
        value is Ok <==> (decoded matches Ok(bytes) && bytes@.len() == 32),
        value matches Ok(v) ==> v@ == decoded->Ok_0@,
{
}

/// The shares that are kept for an owner are asked for under the owner's name.
pub proof fn law_shares_are_asked_for_by_owner(
    client: &RamfluxClient,
    owner_principal_id: &str,
    r: Result<AccountDbRequest, SdkError>,
)
    requires
        client.active_account_db is Some,
        call_ensures(
            RamfluxClient::guardian_recovery_shares_for_owner,
            (client, owner_principal_id),
            r,
        ),
    ensures
        r matches Ok(AccountDbRequest::GuardianRecoveryShares { owner_principal_id: o }) && o@
            == owner_principal_id@,
{
}

} // verus!
