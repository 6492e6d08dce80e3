//! Recovering an identity: quorums, approvals, and the guardians' shares.
use ramflux_sdk::client::state::RamfluxClient;
use ramflux_sdk::error::SdkError;
use ramflux_sdk::object::DeviceBranch;
use ramflux_sdk::records::AccountDbRequest;
use ramflux_sdk::recovery::{
    decode_guardian_share_value, recovery_quorum_total, verify_guardian_invite, IdentityEventBody,
    RecoveryApprovalContext, RecoveryQuorumMemberKind, RecoveryShare, SdkGuardianAcceptMessage,
    SdkGuardianInviteMessage, SdkRecoveryQuorumMember,
};

const NOW: i64 = 1_760_000_000;

/// Stands in for a member's public key.
fn public_key(seed: [u8; 32]) -> String {
    format!("public:{}", seed[0])
}

/// Stands in for splitting a secret.
fn split(secret: [u8; 32], threshold: u8, total: u8) -> Vec<RecoveryShare> {
    (1..=total)
        .map(|share_id| RecoveryShare {
            share_id,
            threshold,
            total,
            value: [secret[0] ^ share_id; 32],
            member_kind: None,
        })
        .collect()
}

/// Stands in for base64url: two letters for each byte.
fn encode(bytes: &[u8]) -> String {
    bytes.iter().map(|byte| format!("{byte:02x}")).collect()
}

fn decode(text: &str) -> Result<Vec<u8>, String> {
    (0..text.len() / 2)
        .map(|i| u8::from_str_radix(&text[2 * i..2 * i + 2], 16).map_err(|e| e.to_string()))
        .collect()
}

fn signature_of_invite(invite: &SdkGuardianInviteMessage) -> String {
    let unsigned = invite.clone().with_signature(String::new());
    format!("{} signs {unsigned:?}", invite.inviter_device_public_key_base64url)
}

fn checked_invite(invite: &SdkGuardianInviteMessage) -> Result<(), SdkError> {
    if invite.signed.signature == signature_of_invite(invite) {
        Ok(())
    } else {
        Err(SdkError::Protocol("signature mismatch".to_owned()))
    }
}

fn signature_of_accept(accept: &SdkGuardianAcceptMessage) -> String {
    let unsigned = accept.clone().with_signature(String::new());
    format!("{} signs {unsigned:?}", accept.guardian_device_public_key_base64url)
}

fn member(
    member_kind: RecoveryQuorumMemberKind,
    signing_key_id: &str,
    seed: [u8; 32],
) -> SdkRecoveryQuorumMember {
    SdkRecoveryQuorumMember {
        member_kind,
        signing_key_id: signing_key_id.to_owned(),
        public_key_base64url: public_key(seed),
    }
}

fn recovery_members() -> Vec<SdkRecoveryQuorumMember> {
    vec![
        member(RecoveryQuorumMemberKind::RootShare, "root-share", [0x11; 32]),
        member(RecoveryQuorumMemberKind::DeviceShare, "device-share", [0x22; 32]),
        member(RecoveryQuorumMemberKind::GuardianShare, "guardian-share", [0x33; 32]),
    ]
}

fn unlocked_client(principal_id: &str, device_id: &str, seed: [u8; 32]) -> RamfluxClient {
    let mut client = RamfluxClient::new();
    client.open_account_index("/accounts".to_owned());
    client.create_device_branch(DeviceBranch {
        principal_id: principal_id.to_owned(),
        device_id: device_id.to_owned(),
        device_epoch: 1,
        public_key: public_key(seed),
        device_hash: "hash".to_owned(),
    });
    client.account_unlocked("acct");
    client
}

fn signed_invite(
    client: &RamfluxClient,
    invite_id: &str,
    recovery_quorum_id: &str,
    share: &RecoveryShare,
) -> Result<SdkGuardianInviteMessage, SdkError> {
    let invite = client.invite_guardian(
        invite_id,
        recovery_quorum_id,
        "principal_bob",
        share,
        encode(&share.value),
        NOW + 300,
        NOW,
    )?;
    let signature = signature_of_invite(&invite);
    Ok(invite.with_signature(signature))
}

#[test]
fn sdk_recovery_quorum_builds_config_and_signed_proof() -> Result<(), SdkError> {
    let members = recovery_members();
    let total = recovery_quorum_total(&members)?;
    let configured = RamfluxClient::configure_recovery_quorum(
        "quorum_sdk",
        2,
        &members,
        Ok(split([0x7a; 32], 2, total)),
    )?;
    assert_eq!(configured.recovery_quorum.threshold, 2);
    assert_eq!(configured.recovery_quorum.total, 3);
    assert_eq!(configured.shares.len(), 3);
    assert_eq!(configured.shares[0].member_kind, Some(RecoveryQuorumMemberKind::RootShare));
    assert!(matches!(
        configured.lineage_event_body(),
        IdentityEventBody::RecoveryQuorumConfigured { .. }
    ));

    let context = RecoveryApprovalContext {
        recovery_id: "recovery_sdk".to_owned(),
        event_type: "identity.reactivated".to_owned(),
        principal_id: "principal_sdk".to_owned(),
        lifecycle_epoch: 2,
        lineage_head: Some("lineage_sdk".to_owned()),
        timelock_until: Some(1_760_000_100),
    };
    let sign = |seed: [u8; 32]| format!("{} signs {context:?}", public_key(seed));
    let root = RamfluxClient::approve_recovery(
        RecoveryQuorumMemberKind::RootShare,
        "root-share",
        sign([0x11; 32]),
    );
    let guardian = RamfluxClient::approve_recovery(
        RecoveryQuorumMemberKind::GuardianShare,
        "guardian-share",
        sign([0x33; 32]),
    );
    let proof = RamfluxClient::build_recovery_proof(context.clone(), vec![root, guardian]);
    assert_eq!(proof.context, context);
    assert_eq!(proof.approvals.len(), 2);
    Ok(())
}

#[test]
fn an_accepted_share_is_kept_for_its_owner() -> Result<(), SdkError> {
    let alice = unlocked_client("principal_alice", "alice_device", [0x31; 32]);
    let guardian = unlocked_client("principal_bob", "bob_device", [0x41; 32]);
    let members = vec![
        member(RecoveryQuorumMemberKind::RootShare, "root-share", [0x11; 32]),
        member(RecoveryQuorumMemberKind::GuardianShare, "guardian-share", [0x33; 32]),
    ];
    let configured = RamfluxClient::configure_recovery_quorum(
        "quorum_guardian",
        2,
        &members,
        Ok(split([0x7a; 32], 2, 2)),
    )?;
    let guardian_share = configured
        .shares
        .iter()
        .find(|share| share.member_kind == Some(RecoveryQuorumMemberKind::GuardianShare))
        .ok_or_else(|| SdkError::LocalBus("guardian share missing".to_owned()))?;
    let delivered = signed_invite(&alice, "invite_guardian_a", "quorum_guardian", guardian_share)?;
    let acceptance = guardian.accept_guardian_invite(
        &delivered,
        checked_invite(&delivered),
        decode(&delivered.share.value_base64),
        NOW,
    )?;
    let signature = signature_of_accept(&acceptance.accept);
    let accept = acceptance.accept.with_signature(signature.clone());
    assert_eq!(accept.signed.signature, signature_of_accept(&accept));
    assert_eq!(accept.accept_id, "guardian_accept:invite_guardian_a");

    let kept =
        guardian.record_guardian_recovery_share(&delivered, &accept, acceptance.share_value)?;
    assert_eq!(kept.owner_principal_id, "principal_alice");
    assert_eq!(kept.recovery_quorum_id, "quorum_guardian");
    assert_eq!(kept.guardian_principal_id, "principal_bob");
    assert_eq!(kept.share_value, guardian_share.value);
    assert_eq!(kept.state, "accepted");
    assert_eq!(kept.member_kind, "guardian_share");
    assert_eq!(kept.accept_signature, signature);
    assert_eq!(
        guardian.guardian_recovery_shares_for_owner("principal_alice")?,
        AccountDbRequest::GuardianRecoveryShares {
            owner_principal_id: "principal_alice".to_owned()
        }
    );
    Ok(())
}

#[test]
fn guardian_invite_rejects_tamper_and_wrong_guardian() -> Result<(), SdkError> {
    let alice = unlocked_client("principal_alice", "alice_device", [0x61; 32]);
    let guardian = unlocked_client("principal_bob", "bob_device", [0x62; 32]);
    let carol = unlocked_client("principal_carol", "carol_device", [0x63; 32]);
    let mut share = split([0x9a; 32], 1, 1)
        .into_iter()
        .next()
        .ok_or_else(|| SdkError::LocalBus("share missing".to_owned()))?;
    share.member_kind = Some(RecoveryQuorumMemberKind::GuardianShare);
    let invite = signed_invite(&alice, "invite_guardian_reject", "quorum_reject", &share)?;

    let accept = |client: &RamfluxClient, invite: &SdkGuardianInviteMessage| {
        client.accept_guardian_invite(
            invite,
            checked_invite(invite),
            decode(&invite.share.value_base64),
            NOW,
        )
    };
    let mut tampered = invite.clone();
    tampered.guardian_principal_id = "principal_carol".to_owned();
    assert!(accept(&guardian, &tampered).is_err());
    assert!(accept(&carol, &invite).is_err());
    assert!(accept(&guardian, &invite).is_ok());
    Ok(())
}

fn guardian_share() -> RecoveryShare {
    RecoveryShare {
        share_id: 1,
        threshold: 1,
        total: 1,
        value: [9; 32],
        member_kind: Some(RecoveryQuorumMemberKind::GuardianShare),
    }
}

#[test]
fn invites_are_refused_for_what_is_wrong_with_them() -> Result<(), SdkError> {
    let alice = unlocked_client("principal_alice", "alice_device", [1; 32]);
    let bob = unlocked_client("principal_bob", "bob_device", [2; 32]);
    let invite = signed_invite(&alice, "i", "q", &guardian_share())?;
    let good = || Ok(vec![9; 32]);
    let answer = |invite: &SdkGuardianInviteMessage, decoded: Result<Vec<u8>, String>, now: i64| {
        bob.accept_guardian_invite(invite, Ok(()), decoded, now).map(|_| ())
    };
    let refused = |words: &str| Err(SdkError::LocalBus(words.to_owned()));
    assert_eq!(answer(&invite, good(), NOW + 299), Ok(()));
    assert_eq!(answer(&invite, good(), NOW + 300), refused("guardian invite expired: i"));
    assert_eq!(
        answer(&invite, Ok(vec![9; 31]), NOW),
        refused("guardian share has invalid length: 31")
    );
    assert_eq!(
        answer(&invite, Err("bad".to_owned()), NOW),
        refused("guardian share is not base64url: bad")
    );
    let mut other = invite.clone();
    other.version = 2;
    assert_eq!(answer(&other, good(), NOW), refused("unsupported guardian invite schema"));
    let mut other = invite.clone();
    other.share.member_kind = RecoveryQuorumMemberKind::RootShare;
    assert_eq!(
        answer(&other, good(), NOW),
        refused("guardian invite member kind is not guardian_share")
    );
    let mut other = invite.clone();
    other.guardian_principal_id = "principal_carol".to_owned();
    assert_eq!(
        answer(&other, good(), NOW),
        refused("guardian invite target mismatch: expected principal_carol, local principal_bob")
    );
    assert_eq!(
        RamfluxClient::new().accept_guardian_invite(&invite, Ok(()), good(), NOW).map(|_| ()),
        Err(SdkError::IdentityRootMissing)
    );
    let forged = SdkError::Protocol("forged".to_owned());
    assert_eq!(verify_guardian_invite(&invite, Err(forged.clone())), Err(forged));
    assert_eq!(decode_guardian_share_value(Ok(vec![7; 32])), Ok([7; 32]));
    Ok(())
}

#[test]
fn shares_of_other_kinds_are_not_given_to_guardians() {
    let alice = unlocked_client("principal_alice", "alice_device", [1; 32]);
    let invite = |client: &RamfluxClient, kind: Option<RecoveryQuorumMemberKind>| {
        let share = RecoveryShare { member_kind: kind, ..guardian_share() };
        signed_invite(client, "i", "q", &share).map(|_| ())
    };
    assert_eq!(
        invite(&alice, Some(RecoveryQuorumMemberKind::DeviceShare)),
        Err(SdkError::LocalBus(
            "guardian invite requires a guardian recovery share".to_owned()
        ))
    );
    assert_eq!(
        invite(&alice, None),
        Err(SdkError::LocalBus("guardian invite share is missing member kind".to_owned()))
    );
    assert_eq!(
        invite(&RamfluxClient::new(), Some(RecoveryQuorumMemberKind::GuardianShare)),
        Err(SdkError::IdentityRootMissing)
    );
}

#[test]
fn quorums_have_at_most_as_many_members_as_a_byte_counts() {
    let many: Vec<SdkRecoveryQuorumMember> = (0..256)
        .map(|_| member(RecoveryQuorumMemberKind::DeviceShare, "d", [1; 32]))
        .collect();
    let refused =
        Err(SdkError::LocalBus("recovery quorum member count exceeds u8 range".to_owned()));
    assert_eq!(recovery_quorum_total(&many), refused);
    assert_eq!(recovery_quorum_total(&many[1..].to_vec()), Ok(255));
    let failed = SdkError::Crypto("threshold".to_owned());
    assert_eq!(
        RamfluxClient::configure_recovery_quorum(
            "q",
            0,
            &recovery_members(),
            Err(failed.clone())
        ),
        Err(failed)
    );
}
