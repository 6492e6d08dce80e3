//! Accounts: opening, unlocking and rekeying them, their cursors, and their conversations.
use ramflux_sdk::client::account::{
    account_db_key_encryption_key, db_key_step, new_wrapped_key, read_cursor_checkpoint,
    DbKeyStep,
};
use ramflux_sdk::client::conversation::{
    listed, ConversationSummary, ConversationSummaryRecord,
};
use ramflux_sdk::client::state::{RamfluxClient, VaultSecretSource};
use ramflux_sdk::error::{SdkError, StorageError, SyncError, TransportError};
use ramflux_sdk::gateway::protocol::{GatewayQuicEndpointConfig, GatewaySessionConfig};
use ramflux_sdk::object::DeviceBranch;
use ramflux_sdk::records::{AccountDbRequest, AccountIndexRequest};

#[test]
fn account_keys_are_wrapped_under_both_secrets() {
    let vault = [9_u8; 32];
    let key = account_db_key_encryption_key(&vault, b"shared-secret");
    let mut input = b"ramflux.account_db_kek.v2".to_vec();
    input.extend_from_slice(&vault);
    input.extend_from_slice(b"shared-secret");
    assert_eq!(key, *blake3::hash(&input).as_bytes());
    assert_ne!(key, account_db_key_encryption_key(&vault, b"wrong-secret"));
    assert_ne!(key, account_db_key_encryption_key(&[8; 32], b"shared-secret"));
}

#[test]
fn unlocking_needs_an_open_index() -> Result<(), SdkError> {
    let mut client = RamfluxClient::default();
    assert_eq!(
        client.unlock_account("acct_a", &[0; 32], b"s").err(),
        Some(SdkError::AccountIndexNotOpen)
    );
    assert_eq!(client.create_account("acct_a", "p"), Err(SdkError::AccountIndexNotOpen));
    assert_eq!(client.active_account(), Err(SdkError::AccountIndexNotOpen));
    client.open_account_index("/accounts".to_owned());
    assert_eq!(client.account_index(), Ok(&"/accounts".to_owned()));
    assert_eq!(
        client.vault_secret_source(),
        Ok(&VaultSecretSource::File { root: "/accounts".to_owned() })
    );
    assert_eq!(
        client.create_account("acct_a", "principal_a")?,
        AccountIndexRequest::CreateAccount {
            local_account_id: "acct_a".to_owned(),
            principal_commitment: "principal_a".to_owned()
        }
    );
    let plan = client.unlock_account("acct_a", &[1; 32], b"shared-secret")?;
    assert_eq!(plan.local_account_id, "acct_a");
    assert_eq!(plan.key_encryption_key, account_db_key_encryption_key(&[1; 32], b"shared-secret"));
    assert_eq!(
        client.rekey_active_account("acct_a", &[1; 32], b"new-secret").err(),
        Some(SdkError::AccountDbNotUnlocked)
    );
    assert_eq!(client.account_unlocked("acct_a"), None);
    assert_eq!(client.account_db(), Ok(&"acct_a".to_owned()));
    let rekeyed = client.rekey_active_account("acct_a", &[1; 32], b"new-secret")?;
    assert_eq!(rekeyed.key_encryption_key, account_db_key_encryption_key(&[1; 32], b"new-secret"));
    assert_ne!(rekeyed.key_encryption_key, plan.key_encryption_key);
    Ok(())
}

#[test]
fn a_source_of_the_caller_stays_in_force() {
    let mut client = RamfluxClient::new();
    client.set_vault_secret_source();
    client.open_account_index("/accounts".to_owned());
    assert_eq!(client.vault_secret_source(), Ok(&VaultSecretSource::Custom));
}

#[test]
fn stored_keys_are_unwrapped_and_never_replaced() {
    assert_eq!(db_key_step(None), DbKeyStep::Generate);
    let wrapped = new_wrapped_key("acct_a", vec![1], vec![2]);
    assert_eq!(wrapped.key_wrapping_provider, "platform-local-vault");
    assert_eq!(wrapped.key_wrapping_ref, "platform-local-vault:acct_a");
    assert_eq!(db_key_step(Some(wrapped.clone())), DbKeyStep::Unwrap(wrapped));
}

fn unlocked() -> RamfluxClient {
    let mut client = RamfluxClient::new();
    client.open_account_index("/accounts".to_owned());
    client.create_device_branch(DeviceBranch {
        principal_id: "p".to_owned(),
        device_id: "d".to_owned(),
        device_epoch: 1,
        public_key: "k".to_owned(),
        device_hash: "h".to_owned(),
    });
    client.account_unlocked("acct");
    client
}

#[test]
fn cursors_are_read_back() -> Result<(), SdkError> {
    let client = unlocked();
    let written = client.persist_gateway_receive_cursor("target_r", 42)?;
    let AccountDbRequest::SetProjectionCheckpoint { projection_name, last_event_id } = written
    else {
        return Err(SdkError::LocalBus("a checkpoint is written".to_owned()));
    };
    assert_eq!(
        client.gateway_receive_cursor("target_r")?,
        AccountDbRequest::ProjectionCheckpoint { projection_name: projection_name.clone() }
    );
    assert_eq!(read_cursor_checkpoint(Some(last_event_id)), Ok(42));
    assert_eq!(read_cursor_checkpoint(None), Ok(0));
    assert_eq!(
        read_cursor_checkpoint(Some("not a number".to_owned())),
        Err(SdkError::InvalidGatewayCursor("not a number".to_owned()))
    );
    // The acknowledged place and the received place are kept apart.
    let acknowledged = client.persist_gateway_cursor("target_r", 42)?;
    assert_ne!(
        acknowledged,
        AccountDbRequest::SetProjectionCheckpoint {
            projection_name,
            last_event_id: "42".to_owned()
        }
    );
    assert_eq!(
        RamfluxClient::new().gateway_cursor("target_r"),
        Err(SdkError::AccountDbNotUnlocked)
    );
    Ok(())
}

#[test]
fn sessions_start_at_the_stored_cursor() {
    let config = GatewaySessionConfig::quic(
        GatewayQuicEndpointConfig {
            bind_addr: "0.0.0.0:0".to_owned(),
            gateway_addr: "127.0.0.1:443".to_owned(),
            server_name: "localhost".to_owned(),
            ca_cert: "ca.pem".to_owned(),
            principal_id: "p".to_owned(),
            device_id: "d".to_owned(),
            target_delivery_id: "t".to_owned(),
            prekey_http_url: None,
        },
        0,
    );
    let config = unlocked().connect_gateway_session(config, 17);
    assert_eq!(config.last_seen_inbox_seq, 17);
}

#[test]
fn conversations_are_listed_as_the_database_has_them() -> Result<(), SdkError> {
    let record = |conversation_id: &str, message_count: u64, last: &str, at: i64| {
        ConversationSummaryRecord {
            conversation_id: conversation_id.to_owned(),
            message_count,
            last_message_id: Some(last.to_owned()),
            last_activity_at: Some(at),
            is_archived: false,
            pin_order: None,
        }
    };
    assert_eq!(unlocked().conversation_list()?, AccountDbRequest::ConversationSummaries);
    let summaries = listed(vec![
        record("conv_one", 2, "msg_one_b", 1_900_000_100),
        record("conv_two", 1, "msg_two_a", 1_900_000_050),
    ]);
    assert!(summaries.iter().any(|summary| summary.conversation_id == "conv_one"
        && summary.message_count == 2
        && summary.last_message_id.as_deref() == Some("msg_one_b")
        && summary.last_activity_at == Some(1_900_000_100)));
    assert_eq!(
        summaries.first().map(|summary| summary.conversation_id.as_str()),
        Some("conv_one")
    );
    assert_eq!(summaries[1], ConversationSummary::from(record("conv_two", 1, "msg_two_a", 1_900_000_050)));
    Ok(())
}

#[test]
fn requests_to_a_locked_account_are_refused() {
    let client = RamfluxClient::new();
    assert_eq!(client.append_event("e", "t", b""), Err(SdkError::AccountDbNotUnlocked));
    assert_eq!(client.direct_messages("c"), Err(SdkError::AccountDbNotUnlocked));
    assert_eq!(client.groups(), Err(SdkError::AccountDbNotUnlocked));
    assert_eq!(client.friend_links(), Err(SdkError::AccountDbNotUnlocked));
    assert_eq!(client.mark_read("c", "r", "m"), Err(SdkError::AccountDbNotUnlocked));
}

#[test]
fn requests_to_an_account_carry_their_arguments() -> Result<(), SdkError> {
    let client = unlocked();
    assert_eq!(
        client.append_event("evt_a_1", "test.event", b"persisted")?,
        AccountDbRequest::AppendEvent {
            event_id: "evt_a_1".to_owned(),
            event_type: "test.event".to_owned(),
            body: b"persisted".to_vec()
        }
    );
    assert_eq!(
        client.mark_delivered("c", "d", "m", 5, 60)?,
        AccountDbRequest::MarkDelivered {
            conversation_id: "c".to_owned(),
            receiver_device_id: "d".to_owned(),
            message_id: "m".to_owned(),
            delivered_at: 5,
            ttl_seconds: 60
        }
    );
    assert_eq!(
        client.delete_direct_message("c", "m", "both", "t")?,
        AccountDbRequest::DeleteDirectMessage {
            conversation_id: "c".to_owned(),
            message_id: "m".to_owned(),
            delete_scope: "both".to_owned(),
            tombstone_id: "t".to_owned()
        }
    );
    assert_eq!(
        client.typing_started("c", "a", 1, 2, "s")?,
        AccountDbRequest::TypingStarted {
            conversation_id: "c".to_owned(),
            actor_identity: "a".to_owned(),
            started_at: 1,
            ttl_seconds: 2,
            privacy_scope: "s".to_owned()
        }
    );
    Ok(())
}

/// The index of accounts, as it is kept beside the accounts.
#[derive(Default)]
struct Index {
    accounts: Vec<(String, String)>,
    active: Option<String>,
}

impl Index {
    fn answer(&mut self, request: AccountIndexRequest) -> Option<String> {
        match request {
            AccountIndexRequest::CreateAccount { local_account_id, principal_commitment } => {
                self.accounts.push((local_account_id, principal_commitment));
                None
            }
            AccountIndexRequest::SetActiveAccount { local_account_id } => {
                self.active = Some(local_account_id);
                None
            }
            AccountIndexRequest::ActiveAccount => self.active.clone(),
        }
    }
}

#[test]
fn the_active_account_is_read_back() -> Result<(), SdkError> {
    let mut index = Index::default();
    let mut client = RamfluxClient::new();
    client.open_account_index("/accounts".to_owned());
    assert_eq!(index.answer(client.active_account()?), None);
    for account in ["acct_a", "acct_b"] {
        index.answer(client.create_account(account, "principal")?);
        index.answer(client.set_active_account(account)?);
        assert_eq!(index.answer(client.active_account()?), Some(account.to_owned()));
        assert_eq!(index.answer(client.active_account()?), Some(account.to_owned()));
    }
    assert_eq!(index.accounts.len(), 2);
    Ok(())
}

#[test]
fn errors_have_their_words() {
    for (error, words) in [
        (SdkError::Crypto("c".to_owned()), "crypto error: c"),
        (
            SdkError::Storage(StorageError::MessageNotFound("m".to_owned())),
            "storage error: message not found: m",
        ),
        (SdkError::Storage(StorageError::Other("x".to_owned())), "storage error: x"),
        (
            SdkError::Storage(StorageError::EventIdConflict("e".to_owned())),
            "storage error: event id conflict: e",
        ),
        (SdkError::Sync(SyncError::ObjectNotFound), "sync error: object not found"),
        (
            SdkError::Transport(TransportError::BackpressureRejected {
                capacity: 8,
                in_flight: 9,
            }),
            "transport error: backpressure rejected: capacity 8, in flight 9",
        ),
        (SdkError::Protocol("p".to_owned()), "protocol error: p"),
        (SdkError::Io("i".to_owned()), "I/O error: i"),
        (SdkError::Json("j".to_owned()), "JSON error: j"),
        (SdkError::AccountIndexNotOpen, "account index is not open"),
        (SdkError::AccountDbNotUnlocked, "account database is not unlocked"),
        (SdkError::IdentityRootMissing, "identity root is not initialized"),
        (SdkError::GatewaySessionRejected("r".to_owned()), "gateway session rejected: r"),
        (SdkError::GatewaySessionNotEstablished, "gateway session is not established"),
        (SdkError::InvalidGatewayCursor("x".to_owned()), "invalid gateway cursor checkpoint: x"),
        (SdkError::LocalBus("l".to_owned()), "local bus error: l"),
        (SdkError::LocalBusPermissionDenied, "local bus peer credential check failed"),
        (SdkError::CapabilityDenied("d".to_owned()), "capability denied: d"),
        (SdkError::GrantInvalidated, "grant invalidated"),
        (
            SdkError::SignatureVerificationFailed("s".to_owned()),
            "signature verification failed for mcp.approval.granted: s",
        ),
        (
            SdkError::RemoteAppApprovalRequired,
            "remote_app approval requires an App-signed mcp.approval.granted",
        ),
    ] {
        assert_eq!(error.message(), words);
    }
}
