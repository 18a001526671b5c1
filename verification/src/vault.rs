//! Vault funding and vault status control.
//!
//! A deposit is only accepted while the vault holds less than the
//! outstanding (unreleased) milestone total, and may never push the
//! balance over that ceiling. The fund movement itself is an order to the
//! host's custodial ledger, committed atomically with the balance update.

use vstd::prelude::*;

use crate::errors::VaultDepositError;
use crate::state::Contract;
use crate::state::Milestone;
use crate::state::TransferOrder;
use crate::state::VaultAccount;
use crate::state::VaultStatus;
use crate::state::lemma_outstanding_take_step;
use crate::state::outstanding_total;

verus! {

/// What a deposit does to the vault balance: rejected outright once the
/// balance has reached the outstanding total, rejected as overfunding when
/// the sum would pass that total or the numeric range, and otherwise the
/// full amount is added.
pub open spec fn deposit_outcome(ms: Seq<Milestone>, balance: u64, amount: u64) -> Result<
    u64,
    VaultDepositError,
> {
    let required = outstanding_total(ms);
    if balance >= required {
        Err(VaultDepositError::InsufficientDemand)
    } else if balance + amount > required || balance + amount > u64::MAX {
        Err(VaultDepositError::Overflow)
    } else {
        Ok((balance + amount) as u64)
    }
}

/// The outstanding milestone total, computed wide enough that no list of
/// milestones can overflow it.
fn outstanding_required(ms: &Vec<Milestone>) -> (r: u128)
    ensures
        r as int == outstanding_total(ms@),
{
    let n = ms.len();
    let mut total: u128 = 0;
    let mut i: usize = 0;
    while i < n
        invariant
            i <= n,
            n == ms@.len(),
            total as int == outstanding_total(ms@.take(i as int)),
            total as int <= (i as int) * (u64::MAX as int),
        decreases n - i,
    {
        proof {
            lemma_outstanding_take_step(ms@, i as int);
        }
        if !ms[i].is_released {
            total = total + ms[i].amount as u128;
        }
        i = i + 1;
    }
    proof {
        assert(ms@.take(n as int) =~= ms@);
    }
    total
}

/// The records loaded for a deposit into the vault, together with the
/// verified identity of the depositor.
pub struct VaultDeposit {
    pub depositor: u64,
    pub contract: Contract,
    pub vault_account: VaultAccount,
}

impl VaultDeposit {
    /// Deposit `amount` into the vault. On success the returned order moves
    /// the amount from the depositor's account into the custodial account,
    /// and the balance records it; the host commits both or neither. On any
    /// error the records are left exactly as they were.
    pub fn deposit_funds(&mut self, amount: u64) -> (r: Result<TransferOrder, VaultDepositError>)
        ensures
            final(self).depositor == old(self).depositor,
            final(self).contract == old(self).contract,
            (match deposit_outcome(
                old(self).contract.milestones@,
                old(self).vault_account.balance,
                amount,
            ) {
                Ok(b) => {
                    &&& r == Ok::<TransferOrder, VaultDepositError>(
                        TransferOrder {
                            from: old(self).depositor,
                            to: old(self).contract.vault_account,
                            amount: amount,
                        },
                    )
                    &&& final(self).vault_account == (VaultAccount {
                        balance: b,
                        ..old(self).vault_account
                    })
                },
                Err(e) => r == Err::<TransferOrder, VaultDepositError>(e)
                    && final(self).vault_account == old(self).vault_account,
            }),
    {
        let required = outstanding_required(&self.contract.milestones);
        if self.vault_account.balance as u128 >= required {
            return Err(VaultDepositError::InsufficientDemand);
        }
        if amount > u64::MAX - self.vault_account.balance {
            return Err(VaultDepositError::Overflow);
        }
        let new_balance = self.vault_account.balance + amount;
        if new_balance as u128 > required {
            return Err(VaultDepositError::Overflow);
        }
        self.vault_account.balance = new_balance;
        Ok(TransferOrder { from: self.depositor, to: self.contract.vault_account, amount })
    }
}

/// The vault record loaded for a status change. The host verifies the
/// signatures of both parties before handing the record in.
pub struct VaultConfig {
    pub client: u64,
    pub freelancer: u64,
    pub vault_account: VaultAccount,
}

impl VaultConfig {
    /// Pause the vault, by the consent of both parties.
    pub fn pause_vault(&mut self)
        ensures
            final(self).client == old(self).client,
            final(self).freelancer == old(self).freelancer,
            final(self).vault_account == (VaultAccount {
                vault_status: VaultStatus::Paused,
                ..old(self).vault_account
            }),
    {
        self.vault_account.vault_status = VaultStatus::Paused;
    }

    /// Reactivate the vault, by the consent of both parties.
    pub fn restart_vault(&mut self)
        ensures
            final(self).client == old(self).client,
            final(self).freelancer == old(self).freelancer,
            final(self).vault_account == (VaultAccount {
                vault_status: VaultStatus::Active,
                ..old(self).vault_account
            }),
    {
        self.vault_account.vault_status = VaultStatus::Active;
    }
}

} // verus!
