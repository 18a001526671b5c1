//! Settlement: the single-milestone payout, mutual-consent termination
//! with the final fund sweep, and the explicit post-termination
//! withdrawal.
//!
//! Fund movements are orders to the host's custodial ledger. The host
//! commits an order and the record changes of the same call atomically:
//! if the ledger refuses the order (the custodial account cannot cover
//! it), every record change of the call is discarded with it.

use vstd::prelude::*;

use crate::errors::ContractError;
use crate::errors::VaultWithdrawError;
use crate::state::Contract;
use crate::state::ContractStatus;
use crate::state::EscrowView;
use crate::state::Milestone;
use crate::state::SweepOrder;
use crate::state::TransferOrder;
use crate::state::VaultAccount;
use crate::state::VaultStatus;
use crate::state::pair_view;

verus! {

/// What a milestone payout does: the milestone at `index` must exist, be
/// submitted and client-approved, and not be released yet. Its released
/// and confirmed flags go up, the balance comes down by the milestone's
/// amount (flooring at zero), and the amount is ordered out to the
/// freelancer. Any caller may trigger it once those conditions hold.
pub open spec fn release_outcome(ms: Seq<Milestone>, balance: u64, index: u64) -> Result<
    (Seq<Milestone>, u64, u64),
    ContractError,
> {
    if index >= ms.len() {
        Err(ContractError::IndexOutOfRange)
    } else {
        let m = ms[index as int];
        if !m.ready() {
            Err(ContractError::MilestoneNotReady)
        } else if m.is_released {
            Err(ContractError::AlreadyReleased)
        } else {
            let new_balance = if balance >= m.amount {
                (balance - m.amount) as u64
            } else {
                0u64
            };
            Ok(
                (
                    ms.update(
                        index as int,
                        Milestone { is_released: true, freelancer_confirmed: true, ..m },
                    ),
                    new_balance,
                    m.amount,
                ),
            )
        }
    }
}

/// What a termination request does: the caller must be a party to the
/// agreement; the caller's own approval flag goes up (the client's when
/// the caller is the client, else the freelancer's). Once both flags are
/// up, the agreement terminates and the vault empties.
pub open spec fn terminate_outcome(s: EscrowView, caller: u64) -> Result<
    EscrowView,
    ContractError,
> {
    if caller != s.client && caller != s.freelancer {
        Err(ContractError::Unauthorized)
    } else {
        let ca = if caller == s.client {
            true
        } else {
            s.client_approved
        };
        let fa = if caller != s.client && caller == s.freelancer {
            true
        } else {
            s.freelancer_approved
        };
        if ca && fa {
            Ok(
                EscrowView {
                    client_approved: ca,
                    freelancer_approved: fa,
                    status: ContractStatus::Terminated,
                    balance: 0,
                    vault_status: VaultStatus::Terminated,
                    ..s
                },
            )
        } else {
            Ok(EscrowView { client_approved: ca, freelancer_approved: fa, ..s })
        }
    }
}

/// The settlement a termination request orders, when it terminates the
/// agreement in this very call: the whole remaining balance goes to the
/// freelancer (when there is any), and the custodial account is closed
/// with its storage refunded to the caller.
pub open spec fn terminate_order(s: EscrowView, caller: u64, vault_id: u64) -> Option<SweepOrder> {
    match terminate_outcome(s, caller) {
        Ok(s2) => if s2.client_approved && s2.freelancer_approved {
            Some(
                SweepOrder {
                    transfer: if s.balance > 0 {
                        Some(TransferOrder { from: vault_id, to: s.freelancer, amount: s.balance })
                    } else {
                        None
                    },
                    close_refund_to: caller,
                },
            )
        } else {
            None
        },
        Err(_) => None,
    }
}

/// An agreement and its vault loaded for a settlement transition,
/// together with the verified identity of the caller.
pub struct ContractFunc {
    pub signer: u64,
    pub contract: Contract,
    pub vault_account: VaultAccount,
}

impl ContractFunc {
    /// Request termination of the agreement. The caller's approval flag
    /// goes up; when both parties have requested it, the agreement is
    /// terminated and the returned order sweeps the vault. On any error
    /// the records are left exactly as they were.
    pub fn complete_or_cancel_contract(&mut self) -> (r: Result<Option<SweepOrder>, ContractError>)
        ensures
            final(self).signer == old(self).signer,
            (match terminate_outcome(
                pair_view(old(self).contract, old(self).vault_account),
                old(self).signer,
            ) {
                Ok(v2) => {
                    &&& r == Ok::<Option<SweepOrder>, ContractError>(
                        terminate_order(
                            pair_view(old(self).contract, old(self).vault_account),
                            old(self).signer,
                            old(self).contract.vault_account,
                        ),
                    )
                    &&& pair_view(final(self).contract, final(self).vault_account) == v2
                    &&& final(self).contract == (Contract {
                        status: final(self).contract.status,
                        client_approved: final(self).contract.client_approved,
                        freelancer_approved: final(self).contract.freelancer_approved,
                        ..old(self).contract
                    })
                    &&& final(self).vault_account == (VaultAccount {
                        balance: final(self).vault_account.balance,
                        vault_status: final(self).vault_account.vault_status,
                        ..old(self).vault_account
                    })
                },
                Err(e) => {
                    &&& r == Err::<Option<SweepOrder>, ContractError>(e)
                    &&& final(self).contract == old(self).contract
                    &&& final(self).vault_account == old(self).vault_account
                },
            }),
    {
        let signer_key = self.signer;
        if signer_key == self.contract.client {
            self.contract.client_approved = true;
        } else if signer_key == self.contract.freelancer {
            self.contract.freelancer_approved = true;
        } else {
            return Err(ContractError::Unauthorized);
        }
        if self.contract.client_approved && self.contract.freelancer_approved {
            self.contract.status = ContractStatus::Terminated;
            let payout = self.vault_account.balance;
            let transfer = if payout > 0 {
                Some(
                    TransferOrder {
                        from: self.contract.vault_account,
                        to: self.contract.freelancer,
                        amount: payout,
                    },
                )
            } else {
                None
            };
            self.vault_account.balance = 0;
            self.vault_account.vault_status = VaultStatus::Terminated;
            Ok(Some(SweepOrder { transfer, close_refund_to: signer_key }))
        } else {
            Ok(None)
        }
    }

    /// Pay out the milestone at `milestone_index` to the freelancer. On
    /// any error the records are left exactly as they were.
    pub fn release_milestone_payment(&mut self, milestone_index: u64) -> (r: Result<
        TransferOrder,
        ContractError,
    >)
        ensures
            final(self).signer == old(self).signer,
            (match release_outcome(
                old(self).contract.milestones@,
                old(self).vault_account.balance,
                milestone_index,
            ) {
                Ok((ms, b, pay)) => {
                    &&& r == Ok::<TransferOrder, ContractError>(
                        TransferOrder {
                            from: old(self).contract.vault_account,
                            to: old(self).contract.freelancer,
                            amount: pay,
                        },
                    )
                    &&& final(self).contract.milestones@ == ms
                    &&& final(self).contract == (Contract {
                        milestones: final(self).contract.milestones,
                        ..old(self).contract
                    })
                    &&& final(self).vault_account == (VaultAccount {
                        balance: b,
                        ..old(self).vault_account
                    })
                },
                Err(e) => {
                    &&& r == Err::<TransferOrder, ContractError>(e)
                    &&& final(self).contract == old(self).contract
                    &&& final(self).vault_account == old(self).vault_account
                },
            }),
    {
        if milestone_index >= self.contract.milestones.len() as u64 {
            return Err(ContractError::IndexOutOfRange);
        }
        let i = milestone_index as usize;
        if !(self.contract.milestones[i].freelancer_submitted
            && self.contract.milestones[i].client_approved) {
            return Err(ContractError::MilestoneNotReady);
        }
        if self.contract.milestones[i].is_released {
            return Err(ContractError::AlreadyReleased);
        }
        let amount = self.contract.milestones[i].amount;
        {
            let m = &mut self.contract.milestones[i];
            m.is_released = true;
            m.freelancer_confirmed = true;
        }
        self.vault_account.balance = if self.vault_account.balance >= amount {
            self.vault_account.balance - amount
        } else {
            0
        };
        Ok(
            TransferOrder {
                from: self.contract.vault_account,
                to: self.contract.freelancer,
                amount,
            },
        )
    }
}

/// An agreement and its vault loaded for the explicit post-termination
/// withdrawal.
pub struct VaultWithdraw {
    pub contract: Contract,
    pub vault_account: VaultAccount,
}

impl VaultWithdraw {
    /// Sweep the vault's full remaining balance to the freelancer, once
    /// the agreement is terminated. Safe to call again: a repeated call
    /// orders a zero-amount transfer, which the ledger takes as a no-op
    /// success.
    pub fn withdraw_funds(&mut self) -> (r: Result<TransferOrder, VaultWithdrawError>)
        ensures
            final(self).contract == old(self).contract,
            old(self).contract.status != ContractStatus::Terminated ==> r == Err::<
                TransferOrder,
                VaultWithdrawError,
            >(VaultWithdrawError::Unauthorized) && final(self).vault_account == old(
                self,
            ).vault_account,
            old(self).contract.status == ContractStatus::Terminated ==> {
                &&& r == Ok::<TransferOrder, VaultWithdrawError>(
                    TransferOrder {
                        from: old(self).contract.vault_account,
                        to: old(self).contract.freelancer,
                        amount: old(self).vault_account.balance,
                    },
                )
                &&& final(self).vault_account == (VaultAccount {
                    balance: 0,
                    ..old(self).vault_account
                })
            },
    {
        if self.contract.status != ContractStatus::Terminated {
            return Err(VaultWithdrawError::Unauthorized);
        }
        let remaining = self.vault_account.balance;
        self.vault_account.balance = 0;
        Ok(
            TransferOrder {
                from: self.contract.vault_account,
                to: self.contract.freelancer,
                amount: remaining,
            },
        )
    }
}

} // verus!
