//! Recovering an identity with a quorum: its members, their approvals, and the guardians' shares.
use crate::client::state::RamfluxClient;
use crate::error::{is_local_bus, local_bus, SdkError};
use crate::gateway::helpers::{is_device_signed, sdk_device_signed_fields};
use crate::gateway::protocol::{SignatureAlg, SignedFields};
use crate::object::DeviceBranch;
use crate::text::{decimal, decimal_u64, str_eq};
use vstd::prelude::*;

verus! {

/// What a member of a quorum stands for.
#[derive(Clone, Copy, Debug, PartialEq, Eq, Structural)]
pub enum RecoveryQuorumMemberKind {
    RootShare,
    DeviceShare,
    GuardianShare,
    HardwareTokenShare,
}

/// A member of a quorum.
#[derive(Clone, Debug, PartialEq, Eq)]
pub struct SdkRecoveryQuorumMember {
    pub member_kind: RecoveryQuorumMemberKind,
    pub signing_key_id: String,
    pub public_key_base64url: String,
}

/// A member of a quorum, as the lineage of the identity records it.
#[derive(Clone, Debug, PartialEq, Eq)]
pub struct RecoveryQuorumMemberCommitment {
    pub member_kind: RecoveryQuorumMemberKind,
    pub signing_key_id: String,
    pub public_key_base64url: String,
}

/// A quorum, as the lineage of the identity records it.
#[derive(Clone, Debug, PartialEq, Eq)]
pub struct RecoveryQuorumConfigured {
    pub recovery_quorum_id: String,
    pub threshold: u8,
    pub total: u8,
    pub members: Vec<RecoveryQuorumMemberCommitment>,
}

/// A share of the secret with which an identity is recovered.
#[derive(Clone, Debug, PartialEq, Eq)]
pub struct RecoveryShare {
    pub share_id: u8,
    pub threshold: u8,
    pub total: u8,
    pub value: [u8; 32],
    pub member_kind: Option<RecoveryQuorumMemberKind>,
}

/// A quorum together with the shares of its members.
#[derive(Clone, Debug, PartialEq, Eq)]
pub struct SdkRecoveryQuorumConfiguration {
    pub recovery_quorum: RecoveryQuorumConfigured,
    pub shares: Vec<RecoveryShare>,
}

/// An event in the lineage of an identity.
#[derive(Clone, Debug, PartialEq, Eq)]
pub enum IdentityEventBody {
    RecoveryQuorumConfigured { recovery_quorum: RecoveryQuorumConfigured },
}

/// A share as it travels to a guardian.
#[derive(Clone, Debug, PartialEq, Eq)]
pub struct SdkGuardianRecoveryShare {
    pub share_id: u8,
    pub threshold: u8,
    pub total: u8,
    pub member_kind: RecoveryQuorumMemberKind,
    pub value_base64: String,
}

/// The wish that somebody be a guardian.
#[derive(Clone, Debug, PartialEq, Eq)]
pub struct SdkGuardianInviteMessage {
    pub schema: String,
    pub version: u32,
    pub invite_id: String,
    pub inviter_principal_id: String,
    pub inviter_device_id: String,
    pub inviter_device_epoch: u64,
    pub inviter_device_public_key_base64url: String,
    pub guardian_principal_id: String,
    pub recovery_quorum_id: String,
    pub share: SdkGuardianRecoveryShare,
    pub issued_at: i64,
    pub expires_at: i64,
    pub signed: SignedFields,
}

/// A guardian's consent.
#[derive(Clone, Debug, PartialEq, Eq)]
pub struct SdkGuardianAcceptMessage {
    pub schema: String,
    pub version: u32,
    pub accept_id: String,
    pub invite_id: String,
    pub owner_principal_id: String,
    pub guardian_principal_id: String,
    pub guardian_device_id: String,
    pub guardian_device_epoch: u64,
    pub guardian_device_public_key_base64url: String,
    pub recovery_quorum_id: String,
    pub accepted_at: i64,
    pub signed: SignedFields,
}

/// What an approval is about.
#[derive(Clone, Debug, PartialEq, Eq)]
pub struct RecoveryApprovalContext {
    pub recovery_id: String,
    pub event_type: String,
    pub principal_id: String,
    pub lifecycle_epoch: u64,
    pub lineage_head: Option<String>,
    pub timelock_until: Option<i64>,
}

/// A member's approval of a recovery.
#[derive(Clone, Debug, PartialEq, Eq)]
pub struct RecoveryApproval {
    pub member_kind: RecoveryQuorumMemberKind,
    pub signing_key_id: String,
    pub signature_alg: SignatureAlg,
    pub signature: String,
}

/// The approvals of a recovery.
#[derive(Clone, Debug, PartialEq, Eq)]
pub struct RecoveryQuorumProof {
    pub context: RecoveryApprovalContext,
    pub approvals: Vec<RecoveryApproval>,
}

/// A guardian's share, as it is written to the account database.
#[derive(Clone, Debug, PartialEq, Eq)]
pub struct GuardianRecoveryShareWrite {
    pub owner_principal_id: String,
    pub guardian_principal_id: String,
    pub recovery_quorum_id: String,
    pub share_id: u8,
    pub threshold: u8,
    pub total: u8,
    pub member_kind: String,
    pub share_value: [u8; 32],
    pub inviter_device_id: String,
    pub inviter_device_public_key_base64url: String,
    pub invite_id: String,
    pub accepted_at: i64,
    pub accepted_by_device_id: String,
    pub accept_signature: String,
    pub state: String,
}

// ---- a quorum ----

/// How many members a quorum has, if a quorum can have so many.
pub fn recovery_quorum_total(members: &Vec<SdkRecoveryQuorumMember>) -> (r: Result<u8, SdkError>)
    ensures
        if members@.len() <= u8::MAX {
            r == Ok::<u8, SdkError>(members@.len() as u8)
        } else {
            is_local_bus(r, "recovery quorum member count exceeds u8 range"@)
        },
{
    if members.len() > 255 {
        return Err(local_bus("recovery quorum member count exceeds u8 range"));
    }
    Ok(members.len() as u8)
}

/// The shares, each marked with what its member stands for. A share without a member stays as it is.
pub open spec fn marked_shares(
    shares: Seq<RecoveryShare>,
    members: Seq<SdkRecoveryQuorumMember>,
) -> Seq<RecoveryShare> {
    Seq::new(
        shares.len(),
        |i: int|
            if i < members.len() {
                RecoveryShare { member_kind: Some(members[i].member_kind), ..shares[i] }
            } else {
                shares[i]
            },
    )
}

/// Whether a commitment is to a member.
pub open spec fn commits_to(c: RecoveryQuorumMemberCommitment, m: SdkRecoveryQuorumMember) -> bool {
    c.member_kind == m.member_kind && c.signing_key_id == m.signing_key_id && c.public_key_base64url
        == m.public_key_base64url
}

/// Whether `c` is a quorum of some members with the given shares.
pub open spec fn is_quorum(
    c: SdkRecoveryQuorumConfiguration,
    recovery_quorum_id: Seq<char>,
    threshold: u8,
    members: Seq<SdkRecoveryQuorumMember>,
    shares: Seq<RecoveryShare>,
) -> bool {
    &&& c.recovery_quorum.recovery_quorum_id@ == recovery_quorum_id
    &&& c.recovery_quorum.threshold == threshold
    &&& c.recovery_quorum.total == members.len()
    &&& c.recovery_quorum.members@.len() == members.len()
    &&& forall|i: int|
        0 <= i < members.len() ==> commits_to(
            #[trigger] c.recovery_quorum.members@[i],
            members[i],
        )
    &&& c.shares@ == marked_shares(shares, members)
}

/// A quorum of some members. `shares` are what the secret was split into, or why it was not.
pub fn configure_recovery_quorum(
    recovery_quorum_id: &str,
    threshold: u8,
    members: &Vec<SdkRecoveryQuorumMember>,
    shares: Result<Vec<RecoveryShare>, SdkError>,
) -> (r: Result<SdkRecoveryQuorumConfiguration, SdkError>)
    ensures
        if members@.len() > u8::MAX {
            is_local_bus(r, "recovery quorum member count exceeds u8 range"@)
        } else {
            match shares {
                Err(error) => r == Err::<SdkRecoveryQuorumConfiguration, SdkError>(error),
                Ok(split) => r matches Ok(c) && is_quorum(
                    c,
                    recovery_quorum_id@,
                    threshold,
                    members@,
                    split@,
                ),
            }
        },
{
    let total = match recovery_quorum_total(members) {
        Ok(total) => total,
        Err(error) => {
            return Err(error);
        },
    };
    let split = match shares {
        Ok(split) => split,
        Err(error) => {
            return Err(error);
        },
    };
    let ghost all = split@;
    let count: usize = split.len();
    let mut rest = split;
    let mut marked: Vec<RecoveryShare> = Vec::new();
    let mut n: usize = 0;
    while rest.len() > 0
        invariant
            n <= all.len(),
            rest@ == all.skip(n as int),
            n + rest@.len() == all.len(),
            all.len() == count,
            marked@ == marked_shares(all, members@).take(n as int),
        decreases rest.len(),
    {
        let mut share = rest.remove(0);
        assert(share == all[n as int]);
        if n < members.len() {
            share.member_kind = Some(members[n].member_kind);
        }
        marked.push(share);
        n = n + 1;
        assert(rest@ =~= all.skip(n as int));
        assert(marked@ =~= marked_shares(all, members@).take(n as int));
    }
    assert(marked@ =~= marked_shares(all, members@));
    let mut commitments: Vec<RecoveryQuorumMemberCommitment> = Vec::new();
    let mut i: usize = 0;
    while i < members.len()
        invariant
            i <= members.len(),
            commitments@.len() == i,
            forall|j: int| 0 <= j < i ==> commits_to(#[trigger] commitments@[j], members@[j]),
        decreases members.len() - i,
    {
        commitments.push(
            RecoveryQuorumMemberCommitment {
                member_kind: members[i].member_kind,
                signing_key_id: members[i].signing_key_id.clone(),
                public_key_base64url: members[i].public_key_base64url.clone(),
            },
        );
        i = i + 1;
    }
    Ok(
        SdkRecoveryQuorumConfiguration {
            recovery_quorum: RecoveryQuorumConfigured {
                recovery_quorum_id: recovery_quorum_id.to_owned(),
                threshold,
                total,
                members: commitments,
            },
            shares: marked,
        },
    )
}

impl SdkRecoveryQuorumConfiguration {
    /// The event that records the quorum. The shares are no part of it.
    pub fn lineage_event_body(&self) -> (r: IdentityEventBody)
        ensures
            r matches IdentityEventBody::RecoveryQuorumConfigured { recovery_quorum } && {
                &&& recovery_quorum.recovery_quorum_id == self.recovery_quorum.recovery_quorum_id
                &&& recovery_quorum.threshold == self.recovery_quorum.threshold
                &&& recovery_quorum.total == self.recovery_quorum.total
                &&& recovery_quorum.members@ == self.recovery_quorum.members@
            },
    {
        let mut members: Vec<RecoveryQuorumMemberCommitment> = Vec::new();
        let mut i: usize = 0;
        while i < self.recovery_quorum.members.len()
            invariant
                i <= self.recovery_quorum.members.len(),
                members@ == self.recovery_quorum.members@.take(i as int),
            decreases self.recovery_quorum.members.len() - i,
        {
            let member = &self.recovery_quorum.members[i];
            members.push(
                RecoveryQuorumMemberCommitment {
                    member_kind: member.member_kind,
                    signing_key_id: member.signing_key_id.clone(),
                    public_key_base64url: member.public_key_base64url.clone(),
                },
            );
            i = i + 1;
            assert(members@ =~= self.recovery_quorum.members@.take(i as int));
        }
        assert(members@ =~= self.recovery_quorum.members@);
        IdentityEventBody::RecoveryQuorumConfigured {
            recovery_quorum: RecoveryQuorumConfigured {
                recovery_quorum_id: self.recovery_quorum.recovery_quorum_id.clone(),
                threshold: self.recovery_quorum.threshold,
                total: self.recovery_quorum.total,
                members,
            },
        }
    }
}

/// Every member of a quorum with as many shares as members gets a share that is marked with what the
/// member stands for.
pub proof fn law_each_member_has_its_share(
    c: SdkRecoveryQuorumConfiguration,
    recovery_quorum_id: Seq<char>,
    threshold: u8,
    members: Seq<SdkRecoveryQuorumMember>,
    shares: Seq<RecoveryShare>,
    i: int,
)
    requires
        is_quorum(c, recovery_quorum_id, threshold, members, shares),
        shares.len() == members.len(),
        0 <= i < members.len(),
    ensures
        c.shares@.len() == c.recovery_quorum.total,
        c.shares@[i].member_kind == Some(members[i].member_kind),
        c.shares@[i].value == shares[i].value,
        c.recovery_quorum.members@[i].member_kind == members[i].member_kind,
{
    assert(commits_to(c.recovery_quorum.members@[i], members[i]));
}

/// A member's approval. `signature` is the member's, over the context.
pub fn approve_recovery(
    member_kind: RecoveryQuorumMemberKind,
    signing_key_id: &str,
    signature: String,
) -> (r: RecoveryApproval)
    ensures
        r.member_kind == member_kind,
        r.signing_key_id@ == signing_key_id@,
        r.signature_alg is Ed25519,
        r.signature == signature,
{
    RecoveryApproval {
        member_kind,
        signing_key_id: signing_key_id.to_owned(),
        signature_alg: SignatureAlg::Ed25519,
        signature,
    }
}

/// The approvals of a recovery, put together.
pub fn build_recovery_proof(
    context: RecoveryApprovalContext,
    approvals: Vec<RecoveryApproval>,
) -> (r: RecoveryQuorumProof)
    ensures
        r.context == context,
        r.approvals == approvals,
{
    RecoveryQuorumProof { context, approvals }
}

// ---- guardians ----

/// Whether `invite` asks somebody to be a guardian, unsigned.
pub open spec fn is_invite(
    invite: SdkGuardianInviteMessage,
    branch: DeviceBranch,
    invite_id: Seq<char>,
    recovery_quorum_id: Seq<char>,
    guardian_principal_id: Seq<char>,
    share: RecoveryShare,
    value_base64: Seq<char>,
    expires_at: i64,
    now: i64,
) -> bool {
    &&& invite.schema@ == "ramflux.sdk.recovery.guardian_invite.v1"@
    &&& invite.version == 1
    &&& invite.invite_id@ == invite_id
    &&& invite.inviter_principal_id == branch.principal_id
    &&& invite.inviter_device_id == branch.device_id
    &&& invite.inviter_device_epoch == branch.device_epoch
    &&& invite.inviter_device_public_key_base64url == branch.public_key
    &&& invite.guardian_principal_id@ == guardian_principal_id
    &&& invite.recovery_quorum_id@ == recovery_quorum_id
    &&& invite.share.share_id == share.share_id
    &&& invite.share.threshold == share.threshold
    &&& invite.share.total == share.total
    &&& invite.share.member_kind is GuardianShare
    &&& invite.share.value_base64@ == value_base64
    &&& invite.issued_at == now
    &&& invite.expires_at == expires_at
    &&& is_device_signed(invite.signed, branch.device_id@, ""@)
}

/// The wish that somebody be a guardian, yet to be signed. The share's value comes as base64url text.
pub fn invite_guardian(
    client: &RamfluxClient,
    invite_id: &str,
    recovery_quorum_id: &str,
    guardian_principal_id: &str,
    share: &RecoveryShare,
    value_base64: String,
    expires_at: i64,
    now: i64,
) -> (r: Result<SdkGuardianInviteMessage, SdkError>)
    ensures
        match (client.device_branch, share.member_kind) {
            (None, _) => r matches Err(SdkError::IdentityRootMissing),
            (Some(_), None) => is_local_bus(r, "guardian invite share is missing member kind"@),
            (Some(branch), Some(kind)) => if kind is GuardianShare {
                r matches Ok(invite) && is_invite(
                    invite,
                    branch,
                    invite_id@,
                    recovery_quorum_id@,
                    guardian_principal_id@,
                    *share,
                    value_base64@,
                    expires_at,
                    now,
                )
            } else {
                is_local_bus(r, "guardian invite requires a guardian recovery share"@)
            },
        },
{
    let branch = match client.acting_device() {
        Ok(branch) => branch,
        Err(error) => {
            return Err(error);
        },
    };
    match share.member_kind {
        Some(RecoveryQuorumMemberKind::GuardianShare) => {},
        Some(_) => {
            return Err(local_bus("guardian invite requires a guardian recovery share"));
        },
        None => {
            return Err(local_bus("guardian invite share is missing member kind"));
        },
    }
    Ok(
        SdkGuardianInviteMessage {
            schema: "ramflux.sdk.recovery.guardian_invite.v1".to_owned(),
            version: 1,
            invite_id: invite_id.to_owned(),
            inviter_principal_id: branch.principal_id.clone(),
            inviter_device_id: branch.device_id.clone(),
            inviter_device_epoch: branch.device_epoch,
            inviter_device_public_key_base64url: branch.public_key.clone(),
            guardian_principal_id: guardian_principal_id.to_owned(),
            recovery_quorum_id: recovery_quorum_id.to_owned(),
            share: SdkGuardianRecoveryShare {
                share_id: share.share_id,
                threshold: share.threshold,
                total: share.total,
                member_kind: RecoveryQuorumMemberKind::GuardianShare,
                value_base64,
            },
            issued_at: now,
            expires_at,
            signed: sdk_device_signed_fields(branch.device_id.as_str(), ""),
        },
    )
}

impl SdkGuardianInviteMessage {
    /// The wish with its signature.
    pub fn with_signature(self, signature: String) -> (r: SdkGuardianInviteMessage)
        ensures
            r == (SdkGuardianInviteMessage {
                signed: SignedFields { signature, ..self.signed },
                ..self
            }),
    {
        let mut invite = self;
        invite.signed.signature = signature;
        invite
    }
}

/// Whether a wish comes in the known form.
pub open spec fn invite_form(invite: SdkGuardianInviteMessage) -> bool {
    invite.schema@ == "ramflux.sdk.recovery.guardian_invite.v1"@ && invite.version == 1
}

/// Checks a wish. `checked` is what checking its signature against the inviter's key came to.
pub fn verify_guardian_invite(
    invite: &SdkGuardianInviteMessage,
    checked: Result<(), SdkError>,
) -> (r: Result<(), SdkError>)
    ensures
        if !invite_form(*invite) {
            is_local_bus(r, "unsupported guardian invite schema"@)
        } else if !(invite.share.member_kind is GuardianShare) {
            is_local_bus(r, "guardian invite member kind is not guardian_share"@)
        } else {
            r == checked
        },
{
    if !str_eq(invite.schema.as_str(), "ramflux.sdk.recovery.guardian_invite.v1") || invite.version
        != 1 {
        return Err(local_bus("unsupported guardian invite schema"));
    }
    match invite.share.member_kind {
        RecoveryQuorumMemberKind::GuardianShare => checked,
        _ => Err(local_bus("guardian invite member kind is not guardian_share")),
    }
}

/// The value of a share. `decoded` is what its base64url text stands for, or why it stands for
/// nothing.
pub fn decode_guardian_share_value(decoded: Result<Vec<u8>, String>) -> (r: Result<
    [u8; 32],
    SdkError,
>)
    ensures
        match decoded {
            Err(words) => is_local_bus(r, "guardian share is not base64url: "@ + words@),
            Ok(bytes) => if bytes@.len() == 32 {
                r matches Ok(value) && value@ == bytes@
            } else {
                is_local_bus(r, "guardian share has invalid length: "@ + decimal(bytes@.len()))
            },
        },
{
    let bytes = match decoded {
        Ok(bytes) => bytes,
        Err(words) => {
            let text = "guardian share is not base64url: ".to_owned().concat(words.as_str());
            return Err(local_bus(text.as_str()));
        },
    };
    match crate::client::object::object_key_of(&bytes) {
        Ok(value) => Ok(value),
        Err(_) => {
            let number = decimal_u64(bytes.len() as u64);
            let text = "guardian share has invalid length: ".to_owned().concat(number.as_str());
            Err(local_bus(text.as_str()))
        },
    }
}

/// A guardian's consent, yet to be signed, and the share that comes with it.
#[derive(Clone, Debug, PartialEq, Eq)]
pub struct GuardianAcceptance {
    pub accept: SdkGuardianAcceptMessage,
    pub share_value: [u8; 32],
}

/// Whether `a` consents to a wish, unsigned.
pub open spec fn is_acceptance(
    a: SdkGuardianAcceptMessage,
    invite: SdkGuardianInviteMessage,
    branch: DeviceBranch,
    now: i64,
) -> bool {
    &&& a.schema@ == "ramflux.sdk.recovery.guardian_accept.v1"@
    &&& a.version == 1
    &&& a.accept_id@ == "guardian_accept:"@ + invite.invite_id@
    &&& a.invite_id == invite.invite_id
    &&& a.owner_principal_id == invite.inviter_principal_id
    &&& a.guardian_principal_id == branch.principal_id
    &&& a.guardian_device_id == branch.device_id
    &&& a.guardian_device_epoch == branch.device_epoch
    &&& a.guardian_device_public_key_base64url == branch.public_key
    &&& a.recovery_quorum_id == invite.recovery_quorum_id
    &&& a.accepted_at == now
    &&& is_device_signed(a.signed, branch.device_id@, ""@)
}

/// Whether `r` is a client's answer to a wish.
pub open spec fn is_invite_answer(
    r: Result<GuardianAcceptance, SdkError>,
    device_branch: Option<DeviceBranch>,
    invite: SdkGuardianInviteMessage,
    checked: Result<(), SdkError>,
    decoded: Result<Vec<u8>, String>,
    now: i64,
) -> bool {
    if !invite_form(invite) {
        is_local_bus(r, "unsupported guardian invite schema"@)
    } else if !(invite.share.member_kind is GuardianShare) {
        is_local_bus(r, "guardian invite member kind is not guardian_share"@)
    } else {
        match (checked, device_branch) {
            (Err(error), _) => r == Err::<GuardianAcceptance, SdkError>(error),
            (Ok(_), None) => r matches Err(SdkError::IdentityRootMissing),
            (Ok(_), Some(branch)) => if branch.principal_id@ != invite.guardian_principal_id@ {
                is_local_bus(
                    r,
                    "guardian invite target mismatch: expected "@ + invite.guardian_principal_id@
                        + ", local "@ + branch.principal_id@,
                )
            } else if invite.expires_at <= now {
                is_local_bus(r, "guardian invite expired: "@ + invite.invite_id@)
            } else {
                match decoded {
                    Err(words) => is_local_bus(r, "guardian share is not base64url: "@ + words@),
                    Ok(bytes) => if bytes@.len() == 32 {
                        r matches Ok(acceptance) && is_acceptance(
                            acceptance.accept,
                            invite,
                            branch,
                            now,
                        ) && acceptance.share_value@ == bytes@
                    } else {
                        is_local_bus(
                            r,
                            "guardian share has invalid length: "@ + decimal(bytes@.len()),
                        )
                    },
                }
            },
        }
    }
}

/// A client's answer to the wish that it be a guardian. `checked` is what checking the wish's
/// signature came to, and `decoded` what the share's text stands for.
pub fn accept_guardian_invite(
    client: &RamfluxClient,
    invite: &SdkGuardianInviteMessage,
    checked: Result<(), SdkError>,
    decoded: Result<Vec<u8>, String>,
    now: i64,
) -> (r: Result<GuardianAcceptance, SdkError>)
    ensures
        is_invite_answer(r, client.device_branch, *invite, checked, decoded, now),
{
    match verify_guardian_invite(invite, checked) {
        Ok(_) => {},
        Err(error) => {
            return Err(error);
        },
    }
    let branch = match client.acting_device() {
        Ok(branch) => branch,
        Err(error) => {
            return Err(error);
        },
    };
    if branch.principal_id != invite.guardian_principal_id {
        let text = "guardian invite target mismatch: expected ".to_owned().concat(
            invite.guardian_principal_id.as_str(),
        ).concat(", local ").concat(branch.principal_id.as_str());
        return Err(local_bus(text.as_str()));
    }
    if invite.expires_at <= now {
        let text = "guardian invite expired: ".to_owned().concat(invite.invite_id.as_str());
        return Err(local_bus(text.as_str()));
    }
    let share_value = match decode_guardian_share_value(decoded) {
        Ok(value) => value,
        Err(error) => {
            return Err(error);
        },
    };
    Ok(
        GuardianAcceptance {
            accept: SdkGuardianAcceptMessage {
                schema: "ramflux.sdk.recovery.guardian_accept.v1".to_owned(),
                version: 1,
                accept_id: "guardian_accept:".to_owned().concat(invite.invite_id.as_str()),
                invite_id: invite.invite_id.clone(),
                owner_principal_id: invite.inviter_principal_id.clone(),
                guardian_principal_id: branch.principal_id.clone(),
                guardian_device_id: branch.device_id.clone(),
                guardian_device_epoch: branch.device_epoch,
                guardian_device_public_key_base64url: branch.public_key.clone(),
                recovery_quorum_id: invite.recovery_quorum_id.clone(),
                accepted_at: now,
                signed: sdk_device_signed_fields(branch.device_id.as_str(), ""),
            },
            share_value,
        },
    )
}

impl SdkGuardianAcceptMessage {
    /// The consent with its signature.
    pub fn with_signature(self, signature: String) -> (r: SdkGuardianAcceptMessage)
        ensures
            r == (SdkGuardianAcceptMessage {
                signed: SignedFields { signature, ..self.signed },
                ..self
            }),
    {
        let mut accept = self;
        accept.signed.signature = signature;
        accept
    }
}

/// A wish reaches its guardian: made by an owner, under a good signature and in time, it is consented
/// to by every device of the guardian, with the share that its text stands for.
pub proof fn law_invite_is_accepted_by_its_guardian(
    r: Result<GuardianAcceptance, SdkError>,
    invite: SdkGuardianInviteMessage,
    owner: DeviceBranch,
    invite_id: Seq<char>,
    recovery_quorum_id: Seq<char>,
    share: RecoveryShare,
    value_base64: Seq<char>,
    expires_at: i64,
    issued_at: i64,
    signature: String,
    guardian: DeviceBranch,
    decoded: Vec<u8>,
    now: i64,
)
    requires
        is_invite(
            invite,
            owner,
            invite_id,
            recovery_quorum_id,
            guardian.principal_id@,
            share,
            value_base64,
            expires_at,
            issued_at,
        ),
        now < expires_at,
        decoded@ == share.value@,
        is_invite_answer(
            r,
            Some(guardian),
            SdkGuardianInviteMessage {
                signed: SignedFields { signature, ..invite.signed },
                ..invite
            },
            Ok(()),
            Ok(decoded),
            now,
        ),
    ensures
        r is Ok,
        r->Ok_0.share_value@ == share.value@,
        r->Ok_0.accept.owner_principal_id == owner.principal_id,
        r->Ok_0.accept.recovery_quorum_id@ == recovery_quorum_id,
{
}

/// A share is taken only by the guardian that it is for, in time, and under a good signature.
pub proof fn law_share_is_taken_only_by_its_guardian(
    r: Result<GuardianAcceptance, SdkError>,
    device_branch: Option<DeviceBranch>,
    invite: SdkGuardianInviteMessage,
    checked: Result<(), SdkError>,
    decoded: Result<Vec<u8>, String>,
    now: i64,
)
    requires
        is_invite_answer(r, device_branch, invite, checked, decoded, now),
        r is Ok,
    ensures
        device_branch is Some && device_branch->0.principal_id@ == invite.guardian_principal_id@,
        now < invite.expires_at,
        checked is Ok,
        invite.share.member_kind is GuardianShare,
        decoded is Ok && r->Ok_0.share_value@ == decoded->Ok_0@,
{
}

impl RamfluxClient {
    /// A quorum of some members. `shares` are what the secret was split into, or why it was not.
    pub fn configure_recovery_quorum(
        recovery_quorum_id: &str,
        threshold: u8,
        members: &Vec<SdkRecoveryQuorumMember>,
        shares: Result<Vec<RecoveryShare>, SdkError>,
    ) -> (r: Result<SdkRecoveryQuorumConfiguration, SdkError>)
        ensures
            if members@.len() > u8::MAX {
                is_local_bus(r, "recovery quorum member count exceeds u8 range"@)
            } else {
                match shares {
                    Err(error) => r == Err::<SdkRecoveryQuorumConfiguration, SdkError>(error),
                    Ok(split) => r matches Ok(c) && is_quorum(
                        c,
                        recovery_quorum_id@,
                        threshold,
                        members@,
                        split@,
                    ),
                }
            },
    {
        configure_recovery_quorum(recovery_quorum_id, threshold, members, shares)
    }

    /// A member's approval. `signature` is the member's, over the context.
    pub fn approve_recovery(
        member_kind: RecoveryQuorumMemberKind,
        signing_key_id: &str,
        signature: String,
    ) -> (r: RecoveryApproval)
        ensures
            r.member_kind == member_kind,
            r.signing_key_id@ == signing_key_id@,
            r.signature_alg is Ed25519,
            r.signature == signature,
    {
        approve_recovery(member_kind, signing_key_id, signature)
    }

    /// The approvals of a recovery, put together.
    pub fn build_recovery_proof(
        context: RecoveryApprovalContext,
        approvals: Vec<RecoveryApproval>,
    ) -> (r: RecoveryQuorumProof)
        ensures
            r.context == context,
            r.approvals == approvals,
    {
        build_recovery_proof(context, approvals)
    }

    /// The wish that somebody be a guardian, yet to be signed.
    pub fn invite_guardian(
        &self,
        invite_id: &str,
        recovery_quorum_id: &str,
        guardian_principal_id: &str,
        share: &RecoveryShare,
        value_base64: String,
        expires_at: i64,
        now: i64,
    ) -> (r: Result<SdkGuardianInviteMessage, SdkError>)
        ensures
            match (self.device_branch, share.member_kind) {
                (None, _) => r matches Err(SdkError::IdentityRootMissing),
                (Some(_), None) => is_local_bus(
                    r,
                    "guardian invite share is missing member kind"@,
                ),
                (Some(branch), Some(kind)) => if kind is GuardianShare {
                    r matches Ok(invite) && is_invite(
                        invite,
                        branch,
                        invite_id@,
                        recovery_quorum_id@,
                        guardian_principal_id@,
                        *share,
                        value_base64@,
                        expires_at,
                        now,
                    )
                } else {
                    is_local_bus(r, "guardian invite requires a guardian recovery share"@)
                },
            },
    {
        invite_guardian(
            self,
            invite_id,
            recovery_quorum_id,
            guardian_principal_id,
            share,
            value_base64,
            expires_at,
            now,
        )
    }

    /// This client's answer to the wish that it be a guardian.
    pub fn accept_guardian_invite(
        &self,
        invite: &SdkGuardianInviteMessage,
        checked: Result<(), SdkError>,
        decoded: Result<Vec<u8>, String>,
        now: i64,
    ) -> (r: Result<GuardianAcceptance, SdkError>)
        ensures
            is_invite_answer(r, self.device_branch, *invite, checked, decoded, now),
    {
        accept_guardian_invite(self, invite, checked, decoded, now)
    }

    /// Keeps a share that was consented to, under the signed consent.
    pub fn record_guardian_recovery_share(
        &self,
        invite: &SdkGuardianInviteMessage,
        accept: &SdkGuardianAcceptMessage,
        share_value: [u8; 32],
    ) -> (r: Result<GuardianRecoveryShareWrite, SdkError>)
        ensures
            if !self.unlocked() {
                r matches Err(SdkError::AccountDbNotUnlocked)
            } else {
                r matches Ok(w) && {
                    &&& w.owner_principal_id == invite.inviter_principal_id
                    &&& w.guardian_principal_id == accept.guardian_principal_id
                    &&& w.recovery_quorum_id == invite.recovery_quorum_id
                    &&& w.share_id == invite.share.share_id
                    &&& w.threshold == invite.share.threshold
                    &&& w.total == invite.share.total
                    &&& w.member_kind@ == "guardian_share"@
                    &&& w.share_value == share_value
                    &&& w.inviter_device_id == invite.inviter_device_id
                    &&& w.inviter_device_public_key_base64url
                        == invite.inviter_device_public_key_base64url
                    &&& w.invite_id == invite.invite_id
                    &&& w.accepted_at == accept.accepted_at
                    &&& w.accepted_by_device_id == accept.guardian_device_id
                    &&& w.accept_signature == accept.signed.signature
                    &&& w.state@ == "accepted"@
                }
            },
    {
        match self.account_db() {
            Ok(_) => Ok(
                GuardianRecoveryShareWrite {
                    owner_principal_id: invite.inviter_principal_id.clone(),
                    guardian_principal_id: accept.guardian_principal_id.clone(),
                    recovery_quorum_id: invite.recovery_quorum_id.clone(),
                    share_id: invite.share.share_id,
                    threshold: invite.share.threshold,
                    total: invite.share.total,
                    member_kind: "guardian_share".to_owned(),
                    share_value,
                    inviter_device_id: invite.inviter_device_id.clone(),
                    inviter_device_public_key_base64url:
                        invite.inviter_device_public_key_base64url.clone(),
                    invite_id: invite.invite_id.clone(),
                    accepted_at: accept.accepted_at,
                    accepted_by_device_id: accept.guardian_device_id.clone(),
                    accept_signature: accept.signed.signature.clone(),
                    state: "accepted".to_owned(),
                },
            ),
            Err(error) => Err(error),
        }
    }
}

} // verus!
