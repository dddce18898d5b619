//! Staging and deploying new code of the registry.

use vstd::prelude::*;

use crate::registry::{
    check, either, outcome, AppchainRegistry, CallContext, RegistryAction, RegistryError,
    RegistryView,
};
use crate::sudo::owner_error;

verus! {

/// Gas kept back for deploying the new code when the registry updates itself.
pub const GAS_FOR_UPGRADE_SELF_DEPLOY: u64 = 15_000_000_000_000;

/// The bytes of storage taken besides the code itself (its hash).
pub const WASM_HASH_LEN: u128 = 32;

/// The deposit that storing `blob_len` bytes of code takes.
pub open spec fn wasm_storage_cost(blob_len: usize, storage_byte_cost: u128) -> int {
    (blob_len + WASM_HASH_LEN) * storage_byte_cost
}

impl AppchainRegistry {
    /// The shortest time range between code staging and code deployment.
    pub fn get_staging_duration(&self) -> (r: u64)
        ensures
            r == self@.contract_code_staging_duration,
    {
        self.contract_code_staging_duration
    }

    /// The owner stages new code to be deployed no earlier than `timestamp`, which
    /// lies beyond the staging duration from now. The code itself is kept in
    /// storage by the host.
    pub fn stage_code(&mut self, ctx: &CallContext, timestamp: u64) -> (r: Result<(), RegistryError>)
        requires
            old(self).wf(),
        ensures
            final(self).wf(),
            r == outcome(
                either(
                    owner_error(old(self)@, ctx.predecessor_account_id@),
                    check(
                        ctx.block_timestamp + old(self)@.contract_code_staging_duration < timestamp,
                        RegistryError::StagingTimestampTooEarly,
                    ),
                ),
            ),
            r is Ok ==> final(self)@ == (RegistryView {
                contract_code_staging_timestamp: timestamp,
                ..old(self)@
            }),
            r is Err ==> final(self)@ == old(self)@,
    {
        self.assert_owner(ctx)?;
        if ctx.block_timestamp > timestamp || timestamp - ctx.block_timestamp
            <= self.contract_code_staging_duration {
            return Err(RegistryError::StagingTimestampTooEarly);
        }
        self.contract_code_staging_timestamp = timestamp;
        Ok(())
    }

    /// The owner deploys the staged code once its staging time has passed.
    pub fn deploy_code(&mut self, ctx: &CallContext) -> (r: Result<RegistryAction, RegistryError>)
        requires
            old(self).wf(),
        ensures
            final(self)@ == old(self)@,
            match r {
                Ok(a) => either(
                    owner_error(old(self)@, ctx.predecessor_account_id@),
                    check(
                        old(self)@.contract_code_staging_timestamp < ctx.block_timestamp,
                        RegistryError::DeployTooEarly,
                    ),
                ) is None && a is DeployStagedCode,
                Err(e) => either(
                    owner_error(old(self)@, ctx.predecessor_account_id@),
                    check(
                        old(self)@.contract_code_staging_timestamp < ctx.block_timestamp,
                        RegistryError::DeployTooEarly,
                    ),
                ) == Some(e),
            },
    {
        self.assert_owner(ctx)?;
        if self.contract_code_staging_timestamp >= ctx.block_timestamp {
            return Err(RegistryError::DeployTooEarly);
        }
        Ok(RegistryAction::DeployStagedCode)
    }

    /// The owner stores the code of the registry for an update of itself; the
    /// attached deposit must cover the storage. Returns the storage cost.
    pub fn check_wasm_storage(
        &self,
        ctx: &CallContext,
        blob_len: usize,
        storage_byte_cost: u128,
        attached_deposit: u128,
    ) -> (r: Result<u128, RegistryError>)
        ensures
            match r {
                Ok(cost) => owner_error(self@, ctx.predecessor_account_id@) is None && cost
                    == wasm_storage_cost(blob_len, storage_byte_cost) && attached_deposit >= cost,
                Err(e) => either(
                    owner_error(self@, ctx.predecessor_account_id@),
                    either(
                        check(
                            wasm_storage_cost(blob_len, storage_byte_cost) <= u128::MAX,
                            RegistryError::ArithmeticOverflow,
                        ),
                        check(
                            attached_deposit >= wasm_storage_cost(blob_len, storage_byte_cost),
                            RegistryError::NotEnoughStorageDeposit,
                        ),
                    ),
                ) == Some(e),
            },
    {
        self.assert_owner(ctx)?;
        let len = blob_len as u128;
        let cost = match (len + WASM_HASH_LEN).checked_mul(storage_byte_cost) {
            Some(c) => c,
            None => {
                return Err(RegistryError::ArithmeticOverflow);
            },
        };
        if attached_deposit < cost {
            return Err(RegistryError::NotEnoughStorageDeposit);
        }
        Ok(cost)
    }
}

/// The gas left to migrate the state after the new code is deployed: what was
/// prepaid, less what is used, less what the deployment keeps back.
pub fn gas_for_migration(prepaid_gas: u64, used_gas: u64) -> (r: Result<u64, RegistryError>)
    ensures
        match r {
            Ok(g) => g == prepaid_gas - used_gas - GAS_FOR_UPGRADE_SELF_DEPLOY,
            Err(e) => e == RegistryError::NotEnoughGas && prepaid_gas - used_gas
                - GAS_FOR_UPGRADE_SELF_DEPLOY < 0,
        },
{
    if prepaid_gas < used_gas || prepaid_gas - used_gas < GAS_FOR_UPGRADE_SELF_DEPLOY {
        return Err(RegistryError::NotEnoughGas);
    }
    Ok(prepaid_gas - used_gas - GAS_FOR_UPGRADE_SELF_DEPLOY)
}

} // verus!
