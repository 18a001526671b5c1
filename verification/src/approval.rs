//! The pre-agreement approval record and its transitions: creation of the
//! record, co-signature accumulation, and the finalization that creates
//! the agreement and its vault the moment the threshold is reached.

use vstd::prelude::*;

use crate::errors::ErrorCode;
use crate::state::Contract;
use crate::state::ContractStatus;
use crate::state::Milestone;
use crate::state::MilestoneApproval;
use crate::state::VaultAccount;
use crate::state::VaultStatus;

verus! {

/// Whether `key` is one of the identities in `v`.
fn contains_key(v: &Vec<u64>, key: u64) -> (r: bool)
    ensures
        r == v@.contains(key),
{
    let mut i: usize = 0;
    while i < v.len()
        invariant
            i <= v@.len(),
            forall|j: int| 0 <= j < i ==> v@[j] != key,
        decreases v@.len() - i,
    {
        if v[i] == key {
            return true;
        }
        i = i + 1;
    }
    false
}

/// The parties of a fresh approval record, in the variant where the
/// client opens the record and is pre-approved in the same act. The host
/// has verified the client's signature, and its record store refuses the
/// creation when a record for this pair already exists.
pub struct Initialize {
    pub client: u64,
    pub freelancer: u64,
}

impl Initialize {
    /// Create the approval record for this pair, with the client already
    /// counted in the approved-by set.
    pub fn initialize(&self, initial_payment: u64, threshold: u16) -> (r: Result<
        MilestoneApproval,
        ErrorCode,
    >)
        ensures
            threshold == 0 ==> r == Err::<MilestoneApproval, ErrorCode>(
                ErrorCode::InvalidThreshold,
            ),
            threshold >= 1 ==> (r matches Ok(a) && {
                &&& a.client == self.client
                &&& a.freelancer == self.freelancer
                &&& a.initial_payment == initial_payment
                &&& a.threshold == threshold
                &&& a.approved_by@ == seq![self.client]
                &&& a.approvals == 1
                &&& !a.is_signed
                &&& a.wf()
            }),
    {
        if threshold == 0 {
            return Err(ErrorCode::InvalidThreshold);
        }
        let mut approved_by: Vec<u64> = Vec::new();
        approved_by.push(self.client);
        proof {
            assert(approved_by@ =~= seq![self.client]);
        }
        Ok(
            MilestoneApproval {
                client: self.client,
                freelancer: self.freelancer,
                initial_payment,
                threshold,
                approved_by,
                approvals: 1,
                is_signed: false,
            },
        )
    }
}

/// The parties of a fresh approval record, in the neutral variant where a
/// payer opens the record with no approval counted yet.
pub struct InitializeMilestoneApproval {
    pub payer: u64,
    pub client: u64,
    pub freelancer: u64,
}

impl InitializeMilestoneApproval {
    /// Create the approval record for this pair, with an empty approved-by
    /// set.
    pub fn initialize(&self, threshold: u16) -> (r: Result<MilestoneApproval, ErrorCode>)
        ensures
            threshold == 0 ==> r == Err::<MilestoneApproval, ErrorCode>(
                ErrorCode::InvalidThreshold,
            ),
            threshold >= 1 ==> (r matches Ok(a) && {
                &&& a.client == self.client
                &&& a.freelancer == self.freelancer
                &&& a.initial_payment == 0
                &&& a.threshold == threshold
                &&& a.approved_by@.len() == 0
                &&& a.approvals == 0
                &&& !a.is_signed
                &&& a.wf()
            }),
    {
        if threshold == 0 {
            return Err(ErrorCode::InvalidThreshold);
        }
        Ok(
            MilestoneApproval {
                client: self.client,
                freelancer: self.freelancer,
                initial_payment: 0,
                threshold,
                approved_by: Vec::new(),
                approvals: 0,
                is_signed: false,
            },
        )
    }
}

/// The approval record loaded for a co-signature by the freelancer,
/// together with the host-derived addresses under which the agreement and
/// vault records will be stored when the threshold is reached.
pub struct MilestoneSignature {
    pub client: u64,
    pub freelancer: u64,
    /// Address of the approval record itself.
    pub approval_key: u64,
    /// Address reserved for the vault record.
    pub vault_key: u64,
    pub milestone_approval: MilestoneApproval,
}

impl MilestoneSignature {
    /// The host addresses all three records by the same (client,
    /// freelancer) pair, so the loaded record names the same parties.
    pub open spec fn wf(self) -> bool {
        &&& self.milestone_approval.wf()
        &&& self.milestone_approval.client == self.client
        &&& self.milestone_approval.freelancer == self.freelancer
    }

    /// The agreement and vault records finalization creates: cross-linked
    /// to each other and to the approval record, the agreement active with
    /// both termination flags down, the vault empty and active, and the
    /// supplied milestones taken over with their descriptions and amounts,
    /// every lifecycle flag down.
    pub open spec fn creates(
        self,
        c: Contract,
        v: VaultAccount,
        client_share: u8,
        freelancer_share: u8,
        initial_payment: u64,
        project_start: i128,
        project_duration: u64,
        dispute_resolution: Seq<char>,
        milestones: Seq<Milestone>,
    ) -> bool {
        &&& c.client == self.client
        &&& c.freelancer == self.freelancer
        &&& c.vault_account == self.vault_key
        &&& c.multisig_account == self.approval_key
        &&& c.initial_payment == initial_payment
        &&& c.project_start == project_start
        &&& c.project_duration == project_duration
        &&& c.client_share == client_share
        &&& c.freelancer_share == freelancer_share
        &&& c.dispute_resolution@ == dispute_resolution
        &&& c.status == ContractStatus::Active
        &&& !c.client_approved
        &&& !c.freelancer_approved
        &&& c.milestones@.len() == milestones.len()
        &&& forall|i: int|
            0 <= i < milestones.len() ==> #[trigger] c.milestones@[i] == (Milestone {
                freelancer_submitted: false,
                client_approved: false,
                freelancer_confirmed: false,
                is_released: false,
                ..milestones[i]
            })
        &&& v.client == self.client
        &&& v.freelancer == self.freelancer
        &&& v.balance == 0
        &&& v.client_share == client_share
        &&& v.freelancer_share == freelancer_share
        &&& v.multisig_account == self.approval_key
        &&& v.vault_status == VaultStatus::Active
    }

    /// The freelancer co-signs the approval record, under the agreement
    /// terms both parties settled on. When the signature brings the count
    /// to the threshold, the agreement and vault records are created in
    /// the same atomic transition and returned for the host to persist.
    /// On any error the record is left exactly as it was.
    pub fn approve(
        &mut self,
        client_share: u8,
        freelancer_share: u8,
        initial_payment: u64,
        project_start: i128,
        project_duration: u64,
        dispute_resolution: String,
        milestones: Vec<Milestone>,
    ) -> (r: Result<Option<(Contract, VaultAccount)>, ErrorCode>)
        requires
            old(self).wf(),
        ensures
            final(self).wf(),
            final(self).client == old(self).client,
            final(self).freelancer == old(self).freelancer,
            final(self).approval_key == old(self).approval_key,
            final(self).vault_key == old(self).vault_key,
            old(self).milestone_approval.approved_by@.contains(old(self).freelancer) ==> r
                == Err::<Option<(Contract, VaultAccount)>, ErrorCode>(ErrorCode::AlreadyApproved)
                && final(self).milestone_approval == old(self).milestone_approval,
            !old(self).milestone_approval.approved_by@.contains(old(self).freelancer) && old(
                self,
            ).milestone_approval.is_signed ==> r == Err::<
                Option<(Contract, VaultAccount)>,
                ErrorCode,
            >(ErrorCode::AlreadySigned) && final(self).milestone_approval == old(
                self,
            ).milestone_approval,
            !old(self).milestone_approval.approved_by@.contains(old(self).freelancer) && !old(
                self,
            ).milestone_approval.is_signed ==> {
                &&& final(self).milestone_approval.approved_by@ == old(
                    self,
                ).milestone_approval.approved_by@.push(old(self).freelancer)
                &&& final(self).milestone_approval == (MilestoneApproval {
                    approved_by: final(self).milestone_approval.approved_by,
                    approvals: (old(self).milestone_approval.approvals + 1) as u16,
                    is_signed: old(self).milestone_approval.approvals + 1 == old(
                        self,
                    ).milestone_approval.threshold,
                    ..old(self).milestone_approval
                })
                &&& (r matches Ok(opt) && {
                    &&& (old(self).milestone_approval.approvals + 1 == old(
                        self,
                    ).milestone_approval.threshold ==> ({
                        &&& opt matches Some(pair)
                        &&& old(self).creates(
                            pair.0,
                            pair.1,
                            client_share,
                            freelancer_share,
                            initial_payment,
                            project_start,
                            project_duration,
                            dispute_resolution@,
                            milestones@,
                        )
                    }))
                    &&& (old(self).milestone_approval.approvals + 1 != old(
                        self,
                    ).milestone_approval.threshold ==> opt is None)
                })
            },
    {
        if contains_key(&self.milestone_approval.approved_by, self.freelancer) {
            return Err(ErrorCode::AlreadyApproved);
        }
        if self.milestone_approval.is_signed {
            return Err(ErrorCode::AlreadySigned);
        }
        self.milestone_approval.approved_by.push(self.freelancer);
        self.milestone_approval.approvals = self.milestone_approval.approvals + 1;
        proof {
            let s0 = old(self).milestone_approval.approved_by@;
            let f = old(self).freelancer;
            assert(self.milestone_approval.approved_by@ =~= s0.push(f));
            assert forall|i: int, j: int|
                0 <= i < j < s0.push(f).len() implies s0.push(f)[i] != s0.push(f)[j] by {
                if j < s0.len() {
                    assert(s0[i] != s0[j]);
                } else {
                    assert(s0[i] != f);
                }
            }
            assert(self.milestone_approval.approved_by@.no_duplicates());
            assert(s0.len() <= 1);
            assert(self.milestone_approval.approved_by@[s0.len() as int] == f);
            assert(self.milestone_approval.approved_by@.contains(f));
            assert(self.milestone_approval.wf());
        }
        if self.milestone_approval.approvals == self.milestone_approval.threshold {
            let (contract, vault_account) = self.finalize(
                client_share,
                freelancer_share,
                initial_payment,
                project_start,
                project_duration,
                dispute_resolution,
                milestones,
            );
            Ok(Some((contract, vault_account)))
        } else {
            Ok(None)
        }
    }

    /// Fires once, when the approval count has reached the threshold:
    /// signs the record and creates the agreement and vault pair. The
    /// `signed` flag, set in the same atomic transition, guards the step
    /// against ever firing again.
    pub fn finalize(
        &mut self,
        client_share: u8,
        freelancer_share: u8,
        initial_payment: u64,
        project_start: i128,
        project_duration: u64,
        dispute_resolution: String,
        mut milestones: Vec<Milestone>,
    ) -> (r: (Contract, VaultAccount))
        requires
            old(self).wf(),
            !old(self).milestone_approval.is_signed,
            old(self).milestone_approval.approvals >= old(self).milestone_approval.threshold,
        ensures
            final(self).wf(),
            final(self).client == old(self).client,
            final(self).freelancer == old(self).freelancer,
            final(self).approval_key == old(self).approval_key,
            final(self).vault_key == old(self).vault_key,
            final(self).milestone_approval == (MilestoneApproval {
                is_signed: true,
                ..old(self).milestone_approval
            }),
            old(self).creates(
                r.0,
                r.1,
                client_share,
                freelancer_share,
                initial_payment,
                project_start,
                project_duration,
                dispute_resolution@,
                milestones@,
            ),
    {
        self.milestone_approval.is_signed = true;
        let ghost supplied = milestones@;
        let n = milestones.len();
        let mut i: usize = 0;
        while i < n
            invariant
                i <= n,
                milestones@.len() == n,
                supplied.len() == n,
                forall|j: int|
                    0 <= j < i ==> #[trigger] milestones@[j] == (Milestone {
                        freelancer_submitted: false,
                        client_approved: false,
                        freelancer_confirmed: false,
                        is_released: false,
                        ..supplied[j]
                    }),
                forall|j: int| i <= j < n ==> #[trigger] milestones@[j] == supplied[j],
            decreases n - i,
        {
            let m = &mut milestones[i];
            m.freelancer_submitted = false;
            m.client_approved = false;
            m.freelancer_confirmed = false;
            m.is_released = false;
            i = i + 1;
        }
        let contract = Contract {
            client: self.client,
            freelancer: self.freelancer,
            vault_account: self.vault_key,
            multisig_account: self.approval_key,
            initial_payment,
            project_start,
            project_duration,
            client_share,
            freelancer_share,
            dispute_resolution,
            status: ContractStatus::Active,
            client_approved: false,
            freelancer_approved: false,
            milestones,
        };
        let vault_account = VaultAccount {
            client: self.client,
            freelancer: self.freelancer,
            balance: 0,
            client_share,
            freelancer_share,
            multisig_account: self.approval_key,
            vault_status: VaultStatus::Active,
        };
        (contract, vault_account)
    }
}

} // verus!
