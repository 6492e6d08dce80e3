//! Accounts: opening, unlocking and rekeying them, their events, and their cursors.
use crate::client::state::{RamfluxClient, VaultSecretSource};
use crate::digest::{blake3_256, blake3_digest};
use crate::dm::{
    cursor_checkpoint_name, gateway_cursor_checkpoint_name, gateway_receive_cursor_checkpoint_name,
    receive_cursor_checkpoint_name,
};
use crate::error::SdkError;
use crate::gateway::protocol::GatewaySessionConfig;
use crate::object::DeviceBranch;
use crate::records::{appends, AccountDbRequest, AccountIndexRequest, WrappedAccountDbKey};
use crate::text::{decimal, decimal_u64, parse_u64, parsed_u64};
use vstd::prelude::*;

verus! {

/// What the key that wraps an account's key is the hash of.
pub open spec fn key_encryption_input(vault_secret: Seq<u8>, secret: Seq<u8>) -> Seq<u8> {
    vstd::utf8::encode_utf8("ramflux.account_db_kek.v2"@) + vault_secret + secret
}

/// The key that wraps an account's key: bound to the vault's secret and to the user's.
pub fn account_db_key_encryption_key(vault_secret: &[u8; 32], secret: &[u8]) -> (r: [u8; 32])
    ensures
        r@ == blake3_digest(key_encryption_input(vault_secret@, secret@)),
{
    let mut input: Vec<u8> = "ramflux.account_db_kek.v2".as_bytes_vec();
    let mut i: usize = 0;
    let ghost start = input@;
    while i < 32
        invariant
            i <= 32,
            input@ == start + vault_secret@.take(i as int),
        decreases 32 - i,
    {
        input.push(vault_secret[i]);
        i = i + 1;
        assert(vault_secret@.take(i as int) =~= vault_secret@.take(i - 1).push(vault_secret@[i - 1]));
    }
    assert(vault_secret@.take(32) =~= vault_secret@);
    let ghost middle = input@;
    let mut k: usize = 0;
    while k < secret.len()
        invariant
            k <= secret.len(),
            input@ == middle + secret@.take(k as int),
        decreases secret.len() - k,
    {
        input.push(secret[k]);
        k = k + 1;
        assert(secret@.take(k as int) =~= secret@.take(k - 1).push(secret@[k - 1]));
    }
    assert(secret@.take(k as int) =~= secret@);
    blake3_256(input.as_slice())
}

/// What unlocking, or rekeying, an account goes on with.
pub struct AccountKeyPlan {
    pub local_account_id: String,
    pub key_encryption_key: [u8; 32],
}

/// What is done about the key of an account that is unlocked.
#[derive(Clone, Debug, PartialEq, Eq)]
pub enum DbKeyStep {
    /// Unwrap the key that is stored.
    Unwrap(WrappedAccountDbKey),
    /// Make a key, wrap it and store it.
    Generate,
}

/// What is done about the key of an account: a stored one is unwrapped, and only where there is none
/// is one made.
pub fn db_key_step(stored: Option<WrappedAccountDbKey>) -> (r: DbKeyStep)
    ensures
        match stored {
            Some(wrapped) => r == DbKeyStep::Unwrap(wrapped),
            None => r is Generate,
        },
{
    match stored {
        Some(wrapped) => DbKeyStep::Unwrap(wrapped),
        None => DbKeyStep::Generate,
    }
}

/// The record of a new wrapped key.
pub fn new_wrapped_key(local_account_id: &str, nonce: Vec<u8>, wrapped_key: Vec<u8>) -> (r:
    WrappedAccountDbKey)
    ensures
        r.key_wrapping_provider@ == "platform-local-vault"@,
        r.key_wrapping_ref@ == "platform-local-vault:"@ + local_account_id@,
        r.nonce == nonce,
        r.wrapped_key == wrapped_key,
{
    WrappedAccountDbKey {
        key_wrapping_provider: "platform-local-vault".to_owned(),
        key_wrapping_ref: "platform-local-vault:".to_owned().concat(local_account_id),
        nonce,
        wrapped_key,
    }
}

/// The place in an inbox that a checkpoint stands for: the start, if there is none.
pub open spec fn checkpoint_cursor(checkpoint: Option<String>) -> Option<u64> {
    match checkpoint {
        Some(text) => parsed_u64(text@),
        None => Some(0),
    }
}

/// Reads the place in an inbox that a checkpoint stands for.
pub fn read_cursor_checkpoint(checkpoint: Option<String>) -> (r: Result<u64, SdkError>)
    ensures
        match checkpoint_cursor(checkpoint) {
            Some(seq) => r == Ok::<u64, SdkError>(seq),
            None => r == Err::<u64, SdkError>(SdkError::InvalidGatewayCursor(checkpoint->0)),
        },
{
    match checkpoint {
        Some(text) => match parse_u64(text.as_str()) {
            Some(seq) => Ok(seq),
            None => Err(SdkError::InvalidGatewayCursor(text)),
        },
        None => Ok(0),
    }
}

/// A place in an inbox is read back from the checkpoint that was written for it.
pub proof fn law_cursor_round_trip(inbox_seq: u64, checkpoint: String)
    requires
        checkpoint@ == decimal(inbox_seq as nat),
    ensures
        checkpoint_cursor(Some(checkpoint)) == Some(inbox_seq),
{
    crate::text::law_decimal_round_trip(inbox_seq);
}

impl RamfluxClient {
    /// Takes note that the index of accounts is open at a root. Its own file becomes the source of
    /// the vault's secrets, unless the caller has set another.
    pub fn open_account_index(&mut self, root: String)
        requires
            old(self).well_formed(),
        ensures
            final(self).well_formed(),
            *final(self) == (RamfluxClient {
                account_index: Some(root),
                vault_secret_source: if old(self).vault_secret_source_is_custom {
                    old(self).vault_secret_source
                } else {
                    Some(VaultSecretSource::File { root })
                },
                ..*old(self)
            }),
    {
        if !self.vault_secret_source_is_custom {
            self.vault_secret_source = Some(VaultSecretSource::File { root: root.clone() });
        }
        self.account_index = Some(root);
    }

    /// Takes note that the caller has set a source of the vault's secrets.
    pub fn set_vault_secret_source(&mut self)
        requires
            old(self).well_formed(),
        ensures
            final(self).well_formed(),
            *final(self) == (RamfluxClient {
                vault_secret_source: Some(VaultSecretSource::Custom),
                vault_secret_source_is_custom: true,
                ..*old(self)
            }),
    {
        self.vault_secret_source = Some(VaultSecretSource::Custom);
        self.vault_secret_source_is_custom = true;
    }

    /// Makes an account.
    pub fn create_account(&self, local_account_id: &str, principal_commitment: &str) -> (r: Result<
        AccountIndexRequest,
        SdkError,
    >)
        ensures
            if self.account_index is Some {
                r matches Ok(
                    AccountIndexRequest::CreateAccount {
                        local_account_id: got_id,
                        principal_commitment: got_commitment,
                    },
                ) && got_id@ == local_account_id@ && got_commitment@ == principal_commitment@
            } else {
                r == Err::<AccountIndexRequest, SdkError>(SdkError::AccountIndexNotOpen)
            },
    {
        match self.account_index() {
            Ok(_) => Ok(
                AccountIndexRequest::CreateAccount {
                    local_account_id: local_account_id.to_owned(),
                    principal_commitment: principal_commitment.to_owned(),
                },
            ),
            Err(error) => Err(error),
        }
    }

    /// Makes an account the active one.
    pub fn set_active_account(&self, local_account_id: &str) -> (r: Result<
        AccountIndexRequest,
        SdkError,
    >)
        ensures
            if self.account_index is Some {
                r matches Ok(AccountIndexRequest::SetActiveAccount { local_account_id: got_id })
                    && got_id@ == local_account_id@
            } else {
                r == Err::<AccountIndexRequest, SdkError>(SdkError::AccountIndexNotOpen)
            },
    {
        match self.account_index() {
            Ok(_) => Ok(
                AccountIndexRequest::SetActiveAccount {
                    local_account_id: local_account_id.to_owned(),
                },
            ),
            Err(error) => Err(error),
        }
    }

    /// Asks for the active account.
    pub fn active_account(&self) -> (r: Result<AccountIndexRequest, SdkError>)
        ensures
            if self.account_index is Some {
                r matches Ok(AccountIndexRequest::ActiveAccount)
            } else {
                r == Err::<AccountIndexRequest, SdkError>(SdkError::AccountIndexNotOpen)
            },
    {
        match self.account_index() {
            Ok(_) => Ok(AccountIndexRequest::ActiveAccount),
            Err(error) => Err(error),
        }
    }

    /// What unlocking an account goes on with, once the vault has given its secret. It needs a
    /// source of secrets and the index of accounts.
    pub fn unlock_account(&self, local_account_id: &str, vault_secret: &[u8; 32], secret: &[u8]) -> (r:
        Result<AccountKeyPlan, SdkError>)
        ensures
            if self.vault_secret_source is Some && self.account_index is Some {
                r matches Ok(plan) && plan.local_account_id@ == local_account_id@
                    && plan.key_encryption_key@ == blake3_digest(
                    key_encryption_input(vault_secret@, secret@),
                )
            } else {
                r matches Err(SdkError::AccountIndexNotOpen)
            },
    {
        match self.vault_secret_source() {
            Ok(_) => {},
            Err(error) => {
                return Err(error);
            },
        }
        let key_encryption_key = account_db_key_encryption_key(vault_secret, secret);
        match self.account_index() {
            Ok(_) => Ok(
                AccountKeyPlan { local_account_id: local_account_id.to_owned(), key_encryption_key },
            ),
            Err(error) => Err(error),
        }
    }

    /// Takes note that the database of an account has been opened with its key. The device that
    /// acts is then to sign for it.
    pub fn account_unlocked(&mut self, local_account_id: &str) -> (r: Option<DeviceBranch>)
        requires
            old(self).well_formed(),
        ensures
            final(self).well_formed(),
            final(self).unlocked(),
            final(self).active_account_db->0@ == local_account_id@,
            *final(self) == (RamfluxClient {
                active_account_db: final(self).active_account_db,
                ..*old(self)
            }),
            r == old(self).device_branch,
    {
        self.active_account_db = Some(local_account_id.to_owned());
        match &self.device_branch {
            Some(branch) => Some(branch.copy()),
            None => None,
        }
    }

    /// What rekeying the active account goes on with, once the vault has given its secret. It needs
    /// a source of secrets, an unlocked database and the index of accounts, in that order.
    pub fn rekey_active_account(
        &self,
        local_account_id: &str,
        vault_secret: &[u8; 32],
        new_secret: &[u8],
    ) -> (r: Result<AccountKeyPlan, SdkError>)
        ensures
            if self.vault_secret_source is None {
                r matches Err(SdkError::AccountIndexNotOpen)
            } else if !self.unlocked() {
                r matches Err(SdkError::AccountDbNotUnlocked)
            } else if self.account_index is None {
                r matches Err(SdkError::AccountIndexNotOpen)
            } else {
                r matches Ok(plan) && plan.local_account_id@ == local_account_id@
                    && plan.key_encryption_key@ == blake3_digest(
                    key_encryption_input(vault_secret@, new_secret@),
                )
            },
    {
        match self.vault_secret_source() {
            Ok(_) => {},
            Err(error) => {
                return Err(error);
            },
        }
        let key_encryption_key = account_db_key_encryption_key(vault_secret, new_secret);
        match self.account_db() {
            Ok(_) => {},
            Err(error) => {
                return Err(error);
            },
        }
        match self.account_index() {
            Ok(_) => Ok(
                AccountKeyPlan { local_account_id: local_account_id.to_owned(), key_encryption_key },
            ),
            Err(error) => Err(error),
        }
    }

    /// Records an event.
    pub fn append_event(
        &self,
        event_id: &str,
        event_type: &str,
        body: &[u8],
    ) -> (r: Result<AccountDbRequest, SdkError>)
        ensures
            if self.unlocked() {
                r matches Ok(request) && appends(request, event_id@, event_type@, body@)
            } else {
                r == Err::<AccountDbRequest, SdkError>(SdkError::AccountDbNotUnlocked)
            },
    {
        match self.account_db() {
            Ok(_) => Ok(
                AccountDbRequest::AppendEvent {
                    event_id: event_id.to_owned(),
                    event_type: event_type.to_owned(),
                    body: vstd::slice::slice_to_vec(body),
                },
            ),
            Err(error) => Err(error),
        }
    }

    /// Asks for the body of an event.
    pub fn event_body(
        &self,
        event_id: &str,
    ) -> (r: Result<AccountDbRequest, SdkError>)
        ensures
            if self.unlocked() {
                r matches Ok(AccountDbRequest::EventBody {
                    event_id: got_event_id,
                }) && {
                    &&& got_event_id@ == event_id@
                }
            } else {
                r == Err::<AccountDbRequest, SdkError>(SdkError::AccountDbNotUnlocked)
            },
    {
        match self.account_db() {
            Ok(_) => Ok(
                AccountDbRequest::EventBody {
                    event_id: event_id.to_owned(),
                },
            ),
            Err(error) => Err(error),
        }
    }

    /// Moves the checkpoint of a projection.
    pub fn set_projection_checkpoint(
        &self,
        projection_name: &str,
        last_event_id: &str,
    ) -> (r: Result<AccountDbRequest, SdkError>)
        ensures
            if self.unlocked() {
                r matches Ok(AccountDbRequest::SetProjectionCheckpoint {
                    projection_name: got_projection_name,
                    last_event_id: got_last_event_id,
                }) && {
                    &&& got_projection_name@ == projection_name@
                    &&& got_last_event_id@ == last_event_id@
                }
            } else {
                r == Err::<AccountDbRequest, SdkError>(SdkError::AccountDbNotUnlocked)
            },
    {
        match self.account_db() {
            Ok(_) => Ok(
                AccountDbRequest::SetProjectionCheckpoint {
                    projection_name: projection_name.to_owned(),
                    last_event_id: last_event_id.to_owned(),
                },
            ),
            Err(error) => Err(error),
        }
    }

    /// Asks for the checkpoint of a projection.
    pub fn projection_checkpoint(
        &self,
        projection_name: &str,
    ) -> (r: Result<AccountDbRequest, SdkError>)
        ensures
            if self.unlocked() {
                r matches Ok(AccountDbRequest::ProjectionCheckpoint {
                    projection_name: got_projection_name,
                }) && {
                    &&& got_projection_name@ == projection_name@
                }
            } else {
                r == Err::<AccountDbRequest, SdkError>(SdkError::AccountDbNotUnlocked)
            },
    {
        match self.account_db() {
            Ok(_) => Ok(
                AccountDbRequest::ProjectionCheckpoint {
                    projection_name: projection_name.to_owned(),
                },
            ),
            Err(error) => Err(error),
        }
    }

    /// Asks for the history of a device, bundled for another.
    pub fn export_history_bundle(
        &self,
        source_device_id: &str,
        target_device_id: &str,
    ) -> (r: Result<AccountDbRequest, SdkError>)
        ensures
            if self.unlocked() {
                r matches Ok(AccountDbRequest::ExportHistoryBundle {
                    source_device_id: got_source_device_id,
                    target_device_id: got_target_device_id,
                }) && {
                    &&& got_source_device_id@ == source_device_id@
                    &&& got_target_device_id@ == target_device_id@
                }
            } else {
                r == Err::<AccountDbRequest, SdkError>(SdkError::AccountDbNotUnlocked)
            },
    {
        match self.account_db() {
            Ok(_) => Ok(
                AccountDbRequest::ExportHistoryBundle {
                    source_device_id: source_device_id.to_owned(),
                    target_device_id: target_device_id.to_owned(),
                },
            ),
            Err(error) => Err(error),
        }
    }

    /// Takes in a history that another device has bundled.
    pub fn import_history_bundle<B>(&self, bundle: B) -> (r: Result<B, SdkError>)
        ensures
            r == (if self.unlocked() {
                Ok::<B, SdkError>(bundle)
            } else {
                Err(SdkError::AccountDbNotUnlocked)
            }),
    {
        match self.account_db() {
            Ok(_) => Ok(bundle),
            Err(error) => Err(error),
        }
    }

    /// Asks for the checkpoint that holds how far an inbox has been acknowledged.
    pub fn gateway_cursor(&self, target_delivery_id: &str) -> (r: Result<AccountDbRequest, SdkError>)
        ensures
            if self.unlocked() {
                r matches Ok(AccountDbRequest::ProjectionCheckpoint { projection_name })
                    && projection_name@ == cursor_checkpoint_name(target_delivery_id@)
            } else {
                r == Err::<AccountDbRequest, SdkError>(SdkError::AccountDbNotUnlocked)
            },
    {
        let name = gateway_cursor_checkpoint_name(target_delivery_id);
        self.projection_checkpoint(name.as_str())
    }

    /// Asks for the checkpoint that holds how far an inbox has been taken in.
    pub fn gateway_receive_cursor(&self, target_delivery_id: &str) -> (r: Result<
        AccountDbRequest,
        SdkError,
    >)
        ensures
            if self.unlocked() {
                r matches Ok(AccountDbRequest::ProjectionCheckpoint { projection_name })
                    && projection_name@ == receive_cursor_checkpoint_name(target_delivery_id@)
            } else {
                r == Err::<AccountDbRequest, SdkError>(SdkError::AccountDbNotUnlocked)
            },
    {
        let name = gateway_receive_cursor_checkpoint_name(target_delivery_id);
        self.projection_checkpoint(name.as_str())
    }

    /// Keeps how far an inbox has been acknowledged.
    pub fn persist_gateway_cursor(&self, target_delivery_id: &str, inbox_seq: u64) -> (r: Result<
        AccountDbRequest,
        SdkError,
    >)
        ensures
            if self.unlocked() {
                r matches Ok(
                    AccountDbRequest::SetProjectionCheckpoint { projection_name, last_event_id },
                ) && projection_name@ == cursor_checkpoint_name(target_delivery_id@)
                    && last_event_id@ == decimal(inbox_seq as nat)
            } else {
                r == Err::<AccountDbRequest, SdkError>(SdkError::AccountDbNotUnlocked)
            },
    {
        let name = gateway_cursor_checkpoint_name(target_delivery_id);
        let seq = decimal_u64(inbox_seq);
        self.set_projection_checkpoint(name.as_str(), seq.as_str())
    }

    /// Keeps how far an inbox has been taken in.
    pub fn persist_gateway_receive_cursor(&self, target_delivery_id: &str, inbox_seq: u64) -> (r:
        Result<AccountDbRequest, SdkError>)
        ensures
            if self.unlocked() {
                r matches Ok(
                    AccountDbRequest::SetProjectionCheckpoint { projection_name, last_event_id },
                ) && projection_name@ == receive_cursor_checkpoint_name(target_delivery_id@)
                    && last_event_id@ == decimal(inbox_seq as nat)
            } else {
                r == Err::<AccountDbRequest, SdkError>(SdkError::AccountDbNotUnlocked)
            },
    {
        let name = gateway_receive_cursor_checkpoint_name(target_delivery_id);
        let seq = decimal_u64(inbox_seq);
        self.set_projection_checkpoint(name.as_str(), seq.as_str())
    }

    /// Whether the device that acts is the one that a session is for.
    pub open spec fn acts_in(self, config: GatewaySessionConfig) -> bool {
        self.device_branch matches Some(branch) && branch.principal_id@ == config.principal_id@
            && branch.device_id@ == config.device_id@ && branch.device_epoch == config.device_epoch
    }

    /// The settings with which a session is opened from a place in the inbox. A session without a
    /// device takes the device that acts, if it is the one that the session is for.
    pub fn connect_gateway_session(&self, config: GatewaySessionConfig, cursor: u64) -> (r:
        GatewaySessionConfig)
        ensures
            r == (GatewaySessionConfig {
                last_seen_inbox_seq: cursor,
                device_branch: if config.device_branch is None && self.acts_in(config) {
                    self.device_branch
                } else {
                    config.device_branch
                },
                ..config
            }),
    {
        let mut config = config;
        config.last_seen_inbox_seq = cursor;
        if config.device_branch.is_none() {
            match &self.device_branch {
                Some(branch) => {
                    if branch.principal_id == config.principal_id && branch.device_id
                        == config.device_id && branch.device_epoch == config.device_epoch {
                        config.device_branch = Some(branch.copy());
                    }
                },
                None => {},
            }
        }
        config
    }
}

} // verus!
