//! The per-milestone lifecycle: submit, client approval, and the
//! freelancer's advisory confirmation.
//!
//! Each transition flips exactly one flag of one milestone, from false to
//! true, after checking the caller and the flags that must come before it.

use vstd::prelude::*;

use crate::errors::MilestoneError;
use crate::state::Contract;
use crate::state::Milestone;

verus! {

/// What the submit transition does to the milestone list: the verified
/// caller must be the freelancer, the index in range, and the milestone
/// not yet submitted; then its submitted flag goes up.
pub open spec fn submit_outcome(freelancer: u64, ms: Seq<Milestone>, caller: u64, index: u64) -> Result<
    Seq<Milestone>,
    MilestoneError,
> {
    if caller != freelancer {
        Err(MilestoneError::InvalidSigner)
    } else if index >= ms.len() {
        Err(MilestoneError::IndexOutOfRange)
    } else if ms[index as int].freelancer_submitted {
        Err(MilestoneError::AlreadySubmitted)
    } else {
        Ok(
            ms.update(
                index as int,
                Milestone { freelancer_submitted: true, ..ms[index as int] },
            ),
        )
    }
}

/// What the client-approval transition does: the caller must be the
/// client, the milestone submitted and not yet approved.
pub open spec fn client_approve_outcome(
    client: u64,
    ms: Seq<Milestone>,
    caller: u64,
    index: u64,
) -> Result<Seq<Milestone>, MilestoneError> {
    if caller != client {
        Err(MilestoneError::InvalidSigner)
    } else if index >= ms.len() {
        Err(MilestoneError::IndexOutOfRange)
    } else if !ms[index as int].freelancer_submitted {
        Err(MilestoneError::NotSubmitted)
    } else if ms[index as int].client_approved {
        Err(MilestoneError::AlreadyApproved)
    } else {
        Ok(ms.update(index as int, Milestone { client_approved: true, ..ms[index as int] }))
    }
}

/// What the confirmation transition does: the caller must be the
/// freelancer, the milestone submitted and approved, and not yet
/// confirmed. Confirmation is an advisory acknowledgment; it does not
/// gate the release of the payment.
pub open spec fn confirm_outcome(
    freelancer: u64,
    ms: Seq<Milestone>,
    caller: u64,
    index: u64,
) -> Result<Seq<Milestone>, MilestoneError> {
    if caller != freelancer {
        Err(MilestoneError::InvalidSigner)
    } else if index >= ms.len() {
        Err(MilestoneError::IndexOutOfRange)
    } else if !ms[index as int].freelancer_submitted {
        Err(MilestoneError::NotSubmitted)
    } else if !ms[index as int].client_approved {
        Err(MilestoneError::NotApproved)
    } else if ms[index as int].freelancer_confirmed {
        Err(MilestoneError::AlreadyConfirmed)
    } else {
        Ok(ms.update(index as int, Milestone { freelancer_confirmed: true, ..ms[index as int] }))
    }
}

/// An agreement record loaded for one milestone-lifecycle transition,
/// together with the verified identity of the caller.
pub struct MilestoneLifecycle {
    pub signer: u64,
    pub contract: Contract,
}

impl MilestoneLifecycle {
    /// The freelancer marks the milestone at `milestone_index` as
    /// submitted. On any error the record is left exactly as it was.
    pub fn freelancer_submit(&mut self, milestone_index: u64) -> (r: Result<(), MilestoneError>)
        ensures
            final(self).signer == old(self).signer,
            (match submit_outcome(
                old(self).contract.freelancer,
                old(self).contract.milestones@,
                old(self).signer,
                milestone_index,
            ) {
                Ok(ms) => {
                    &&& r is Ok
                    &&& final(self).contract.milestones@ == ms
                    &&& final(self).contract == (Contract {
                        milestones: final(self).contract.milestones,
                        ..old(self).contract
                    })
                },
                Err(e) => r == Err::<(), MilestoneError>(e) && final(self).contract == old(
                    self,
                ).contract,
            }),
    {
        if self.signer != self.contract.freelancer {
            return Err(MilestoneError::InvalidSigner);
        }
        if milestone_index >= self.contract.milestones.len() as u64 {
            return Err(MilestoneError::IndexOutOfRange);
        }
        let i = milestone_index as usize;
        if self.contract.milestones[i].freelancer_submitted {
            return Err(MilestoneError::AlreadySubmitted);
        }
        let m = &mut self.contract.milestones[i];
        m.freelancer_submitted = true;
        Ok(())
    }

    /// The client approves the submitted milestone at `milestone_index`.
    /// On any error the record is left exactly as it was.
    pub fn client_approve(&mut self, milestone_index: u64) -> (r: Result<(), MilestoneError>)
        ensures
            final(self).signer == old(self).signer,
            (match client_approve_outcome(
                old(self).contract.client,
                old(self).contract.milestones@,
                old(self).signer,
                milestone_index,
            ) {
                Ok(ms) => {
                    &&& r is Ok
                    &&& final(self).contract.milestones@ == ms
                    &&& final(self).contract == (Contract {
                        milestones: final(self).contract.milestones,
                        ..old(self).contract
                    })
                },
                Err(e) => r == Err::<(), MilestoneError>(e) && final(self).contract == old(
                    self,
                ).contract,
            }),
    {
        if self.signer != self.contract.client {
            return Err(MilestoneError::InvalidSigner);
        }
        if milestone_index >= self.contract.milestones.len() as u64 {
            return Err(MilestoneError::IndexOutOfRange);
        }
        let i = milestone_index as usize;
        if !self.contract.milestones[i].freelancer_submitted {
            return Err(MilestoneError::NotSubmitted);
        }
        if self.contract.milestones[i].client_approved {
            return Err(MilestoneError::AlreadyApproved);
        }
        let m = &mut self.contract.milestones[i];
        m.client_approved = true;
        Ok(())
    }

    /// The freelancer acknowledges the client's approval of the milestone
    /// at `milestone_index`. On any error the record is left exactly as it
    /// was.
    pub fn freelancer_confirm(&mut self, milestone_index: u64) -> (r: Result<(), MilestoneError>)
        ensures
            final(self).signer == old(self).signer,
            (match confirm_outcome(
                old(self).contract.freelancer,
                old(self).contract.milestones@,
                old(self).signer,
                milestone_index,
            ) {
                Ok(ms) => {
                    &&& r is Ok
                    &&& final(self).contract.milestones@ == ms
                    &&& final(self).contract == (Contract {
                        milestones: final(self).contract.milestones,
                        ..old(self).contract
                    })
                },
                Err(e) => r == Err::<(), MilestoneError>(e) && final(self).contract == old(
                    self,
                ).contract,
            }),
    {
        if self.signer != self.contract.freelancer {
            return Err(MilestoneError::InvalidSigner);
        }
        if milestone_index >= self.contract.milestones.len() as u64 {
            return Err(MilestoneError::IndexOutOfRange);
        }
        let i = milestone_index as usize;
        if !self.contract.milestones[i].freelancer_submitted {
            return Err(MilestoneError::NotSubmitted);
        }
        if !self.contract.milestones[i].client_approved {
            return Err(MilestoneError::NotApproved);
        }
        if self.contract.milestones[i].freelancer_confirmed {
            return Err(MilestoneError::AlreadyConfirmed);
        }
        let m = &mut self.contract.milestones[i];
        m.freelancer_confirmed = true;
        Ok(())
    }
}

} // verus!
