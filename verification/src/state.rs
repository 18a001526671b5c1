//! The entity records of the escrow system and their mathematical model.
//!
//! Party identities are opaque, comparable tokens handed in by the host,
//! which has already verified them; the core only compares them for
//! equality. They are carried here as plain `u64` values, as are the
//! host-derived record addresses that link the records to one another.

use vstd::prelude::*;

verus! {

/// One payable unit of work inside an agreement.
///
/// The four flags are monotonic: each is set exactly once by its
/// transition and never reset.
#[verifier::ext_equal]
#[derive(Debug, Clone, PartialEq, Eq)]
pub struct Milestone {
    pub description: String,
    pub amount: u64,
    pub freelancer_submitted: bool,
    pub client_approved: bool,
    pub freelancer_confirmed: bool,
    pub is_released: bool,
}

impl Milestone {
    /// A milestone may be paid out once it is submitted and client-approved.
    pub open spec fn ready(self) -> bool {
        self.freelancer_submitted && self.client_approved
    }

    /// The flag order a milestone can reach its flags in: released implies
    /// client-approved, and approval or confirmation implies submission.
    pub open spec fn flags_ordered(self) -> bool {
        &&& self.is_released ==> self.client_approved
        &&& self.client_approved ==> self.freelancer_submitted
        &&& self.freelancer_confirmed ==> self.freelancer_submitted
    }
}

/// Status of an agreement: it only ever moves `Active` to `Terminated`.
#[derive(Clone, Copy, Debug, PartialEq, Eq, Structural)]
pub enum ContractStatus {
    Active,
    Terminated,
}

/// Status of a vault record.
#[derive(Clone, Copy, Debug, PartialEq, Eq, Structural)]
pub enum VaultStatus {
    Active,
    Paused,
    Terminated,
}

/// The authoritative agreement record between a client and a freelancer.
#[verifier::ext_equal]
#[derive(Debug, Clone, PartialEq, Eq)]
pub struct Contract {
    pub client: u64,
    pub freelancer: u64,
    /// Address of the paired vault record, for correlation only.
    pub vault_account: u64,
    /// Address of the approval record that gated this agreement.
    pub multisig_account: u64,
    pub initial_payment: u64,
    pub project_start: i128,
    pub project_duration: u64,
    pub client_share: u8,
    pub freelancer_share: u8,
    pub dispute_resolution: String,
    pub status: ContractStatus,
    pub client_approved: bool,
    pub freelancer_approved: bool,
    pub milestones: Vec<Milestone>,
}

/// The fund-custody record paired one-to-one with an agreement. Its
/// `balance` mirrors the sum actually held in the custodial account the
/// host keeps for it.
#[verifier::ext_equal]
#[derive(Debug, Clone, PartialEq, Eq)]
pub struct VaultAccount {
    pub client: u64,
    pub freelancer: u64,
    pub balance: u64,
    pub client_share: u8,
    pub freelancer_share: u8,
    /// Address of the approval record that gated this agreement.
    pub multisig_account: u64,
    pub vault_status: VaultStatus,
}

/// The pre-agreement multisig record for one (client, freelancer) pair:
/// it accumulates co-signatures until the threshold is reached, at which
/// point the agreement and its vault are created and the record signs.
#[verifier::ext_equal]
#[derive(Debug, Clone, PartialEq, Eq)]
pub struct MilestoneApproval {
    pub client: u64,
    pub freelancer: u64,
    pub initial_payment: u64,
    pub threshold: u16,
    pub approved_by: Vec<u64>,
    pub approvals: u16,
    pub is_signed: bool,
}

impl MilestoneApproval {
    /// Well-formedness: the count matches the deduplicated approved-by set,
    /// only the two parties can ever be in it, and the signed flag can only
    /// be up once the threshold was reached.
    pub open spec fn wf(self) -> bool {
        &&& self.threshold >= 1
        &&& self.approvals == self.approved_by@.len()
        &&& self.approved_by@.no_duplicates()
        &&& self.approved_by@.len() <= 2
        &&& self.approved_by@.len() == 2 ==> self.approved_by@.contains(self.freelancer)
        &&& self.is_signed ==> self.approvals >= self.threshold
    }
}

/// One fund movement the core orders its host to carry out on the
/// custodial ledger: `amount` moves from the account addressed by `from`
/// to the one addressed by `to`, atomically or not at all.
#[derive(Clone, Copy, Debug, PartialEq, Eq, Structural)]
pub struct TransferOrder {
    pub from: u64,
    pub to: u64,
    pub amount: u64,
}

/// The final settlement a termination orders: sweep the remaining custodial
/// balance to the freelancer (when there is any), then close the custodial
/// account, refunding its storage to the caller.
#[derive(Clone, Copy, Debug, PartialEq, Eq)]
pub struct SweepOrder {
    pub transfer: Option<TransferOrder>,
    pub close_refund_to: u64,
}

/// The part of an agreement-and-vault pair that the transition rules read
/// and write: the mathematical state the settlement laws are stated over.
#[verifier::ext_equal]
pub struct EscrowView {
    pub client: u64,
    pub freelancer: u64,
    pub milestones: Seq<Milestone>,
    pub status: ContractStatus,
    pub client_approved: bool,
    pub freelancer_approved: bool,
    pub balance: u64,
    pub vault_status: VaultStatus,
}

/// The view of a loaded (agreement, vault) record pair.
pub open spec fn pair_view(c: Contract, v: VaultAccount) -> EscrowView {
    EscrowView {
        client: c.client,
        freelancer: c.freelancer,
        milestones: c.milestones@,
        status: c.status,
        client_approved: c.client_approved,
        freelancer_approved: c.freelancer_approved,
        balance: v.balance,
        vault_status: v.vault_status,
    }
}

/// The amount a single milestone contributes to the released total.
pub open spec fn released_part(m: Milestone) -> int {
    if m.is_released {
        m.amount as int
    } else {
        0
    }
}

/// The amount a single milestone contributes to the outstanding total.
pub open spec fn outstanding_part(m: Milestone) -> int {
    if m.is_released {
        0
    } else {
        m.amount as int
    }
}

/// Sum of the amounts already released for the agreement.
pub open spec fn released_total(ms: Seq<Milestone>) -> int
    decreases ms.len(),
{
    if ms.len() == 0 {
        0
    } else {
        released_total(ms.drop_last()) + released_part(ms.last())
    }
}

/// Sum of the amounts of the milestones not yet released: the funding the
/// agreement still calls for, and the ceiling deposits are held to.
pub open spec fn outstanding_total(ms: Seq<Milestone>) -> int
    decreases ms.len(),
{
    if ms.len() == 0 {
        0
    } else {
        outstanding_total(ms.drop_last()) + outstanding_part(ms.last())
    }
}

/// How both totals move when one milestone of the list is replaced.
pub proof fn lemma_totals_update(ms: Seq<Milestone>, i: int, m: Milestone)
    requires
        0 <= i < ms.len(),
    ensures
        released_total(ms.update(i, m)) == released_total(ms) - released_part(ms[i])
            + released_part(m),
        outstanding_total(ms.update(i, m)) == outstanding_total(ms) - outstanding_part(ms[i])
            + outstanding_part(m),
    decreases ms.len(),
{
    let ms2 = ms.update(i, m);
    if i == ms.len() - 1 {
        assert(ms2.drop_last() =~= ms.drop_last());
        assert(ms2.last() == m);
    } else {
        assert(ms2.drop_last() =~= ms.drop_last().update(i, m));
        assert(ms2.last() == ms.last());
        lemma_totals_update(ms.drop_last(), i, m);
    }
}

/// The outstanding total of a prefix one longer picks up exactly the next
/// milestone's part.
pub proof fn lemma_outstanding_take_step(ms: Seq<Milestone>, i: int)
    requires
        0 <= i < ms.len(),
    ensures
        outstanding_total(ms.take(i + 1)) == outstanding_total(ms.take(i)) + outstanding_part(
            ms[i],
        ),
{
    assert(ms.take(i + 1).drop_last() =~= ms.take(i));
    assert(ms.take(i + 1).last() == ms[i]);
}

/// Both totals are non-negative, and bounded by the length of the list
/// times the largest amount a milestone can carry.
pub proof fn lemma_totals_bounds(ms: Seq<Milestone>)
    ensures
        0 <= released_total(ms) <= ms.len() * (u64::MAX as int),
        0 <= outstanding_total(ms) <= ms.len() * (u64::MAX as int),
    decreases ms.len(),
{
    if ms.len() > 0 {
        lemma_totals_bounds(ms.drop_last());
        assert((ms.len() - 1) * (u64::MAX as int) + (u64::MAX as int) == ms.len() * (
        u64::MAX as int)) by (nonlinear_arith);
    }
}

} // verus!
