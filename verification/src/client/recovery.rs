//! What a client keeps for the recovery of others.
use crate::client::state::RamfluxClient;
use crate::error::SdkError;
use crate::records::AccountDbRequest;
use vstd::prelude::*;

verus! {

impl RamfluxClient {
    /// Asks for the recovery shares that are held for an owner.
    pub fn guardian_recovery_shares_for_owner(
        &self,
        owner_principal_id: &str,
    ) -> (r: Result<AccountDbRequest, SdkError>)
        ensures
            if self.unlocked() {
                r matches Ok(AccountDbRequest::GuardianRecoveryShares {
                    owner_principal_id: got_owner_principal_id,
                }) && {
                    &&& got_owner_principal_id@ == owner_principal_id@
                }
            } else {
                r == Err::<AccountDbRequest, SdkError>(SdkError::AccountDbNotUnlocked)
            },
    {
        match self.account_db() {
            Ok(_) => Ok(
                AccountDbRequest::GuardianRecoveryShares {
                    owner_principal_id: owner_principal_id.to_owned(),
                },
            ),
            Err(error) => Err(error),
        }
    }
}

} // verus!
