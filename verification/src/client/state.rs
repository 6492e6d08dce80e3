//! What a client holds.
use crate::error::SdkError;
use crate::object::DeviceBranch;
use vstd::prelude::*;

verus! {

/// An identity: what is public of its root key.
#[derive(Clone, Debug, PartialEq, Eq)]
pub struct IdentityRoot {
    pub principal_id: String,
    pub public_key: String,
}

/// Where the vault's secrets come from.
#[derive(Clone, Debug, PartialEq, Eq)]
pub enum VaultSecretSource {
    /// A file beside the index of accounts.
    File { root: String },
    /// A source that the caller has set.
    Custom,
}

/// A client. The index of accounts, the account database and the keys themselves are held outside;
/// the client knows which of them are there.
pub struct RamfluxClient {
    pub identity_root: Option<IdentityRoot>,
    pub device_branch: Option<DeviceBranch>,
    pub account_index: Option<String>,
    pub vault_secret_source: Option<VaultSecretSource>,
    pub vault_secret_source_is_custom: bool,
    pub active_account_db: Option<String>,
}

impl RamfluxClient {
    /// Whether the database of an account is unlocked.
    pub open spec fn unlocked(self) -> bool {
        self.active_account_db is Some
    }

    /// Whether a source that the caller has set is in force, and an open index has a source.
    pub open spec fn well_formed(self) -> bool {
        &&& self.vault_secret_source_is_custom ==> self.vault_secret_source
            == Some(VaultSecretSource::Custom)
        &&& self.account_index is Some ==> self.vault_secret_source is Some
    }

    /// A client that holds nothing.
    pub fn new() -> (r: Self)
        ensures
            r.identity_root is None,
            r.device_branch is None,
            r.account_index is None,
            r.vault_secret_source is None,
            !r.vault_secret_source_is_custom,
            !r.unlocked(),
            r.well_formed(),
    {
        RamfluxClient {
            identity_root: None,
            device_branch: None,
            account_index: None,
            vault_secret_source: None,
            vault_secret_source_is_custom: false,
            active_account_db: None,
        }
    }

    /// The root of the index of accounts, if it is open.
    pub fn account_index(&self) -> (r: Result<&String, SdkError>)
        ensures
            match self.account_index {
                Some(root) => r is Ok && *r->Ok_0 == root,
                None => r == Err::<&String, SdkError>(SdkError::AccountIndexNotOpen),
            },
    {
        match &self.account_index {
            Some(root) => Ok(root),
            None => Err(SdkError::AccountIndexNotOpen),
        }
    }

    /// The account whose database is unlocked, if one is.
    pub fn account_db(&self) -> (r: Result<&String, SdkError>)
        ensures
            match self.active_account_db {
                Some(account) => r is Ok && *r->Ok_0 == account,
                None => r == Err::<&String, SdkError>(SdkError::AccountDbNotUnlocked),
            },
    {
        match &self.active_account_db {
            Some(account) => Ok(account),
            None => Err(SdkError::AccountDbNotUnlocked),
        }
    }

    /// Where the vault's secrets come from, if that is known.
    pub fn vault_secret_source(&self) -> (r: Result<&VaultSecretSource, SdkError>)
        ensures
            match self.vault_secret_source {
                Some(source) => r is Ok && *r->Ok_0 == source,
                None => r == Err::<&VaultSecretSource, SdkError>(SdkError::AccountIndexNotOpen),
            },
    {
        match &self.vault_secret_source {
            Some(source) => Ok(source),
            None => Err(SdkError::AccountIndexNotOpen),
        }
    }

    /// The device that acts, if there is one.
    pub fn acting_device(&self) -> (r: Result<&DeviceBranch, SdkError>)
        ensures
            match self.device_branch {
                Some(branch) => r is Ok && *r->Ok_0 == branch,
                None => r == Err::<&DeviceBranch, SdkError>(SdkError::IdentityRootMissing),
            },
    {
        match &self.device_branch {
            Some(branch) => Ok(branch),
            None => Err(SdkError::IdentityRootMissing),
        }
    }
}

impl Default for RamfluxClient {
    fn default() -> (r: Self)
        ensures
            r.identity_root is None,
            r.device_branch is None,
            r.account_index is None,
            r.vault_secret_source is None,
            !r.vault_secret_source_is_custom,
            !r.unlocked(),
    {
        RamfluxClient::new()
    }
}

} // verus!
