//! The laws of the escrow state machine.
//!
//! A live agreement-and-vault pair moves only through the transitions
//! below, each the committed effect of one call on the records' view.
//! A call that errs commits nothing; a payout order that the custodial
//! account cannot cover is refused by the ledger, and the host then
//! discards the whole call with it. The `step` function is therefore the
//! exact shape of every state change the host can ever persist, and the
//! proof functions here are the guarantees that hold across any sequence
//! of such changes, whoever calls and in whatever order.

use vstd::prelude::*;

use crate::approval::MilestoneSignature;
use crate::errors::ContractError;
use crate::errors::VaultDepositError;
use crate::lifecycle::client_approve_outcome;
use crate::lifecycle::confirm_outcome;
use crate::lifecycle::submit_outcome;
use crate::settlement::release_outcome;
use crate::settlement::terminate_outcome;
use crate::state::Contract;
use crate::state::ContractStatus;
use crate::state::EscrowView;
use crate::state::Milestone;
use crate::state::VaultAccount;
use crate::state::VaultStatus;
use crate::state::lemma_totals_bounds;
use crate::state::lemma_totals_update;
use crate::state::outstanding_total;
use crate::state::pair_view;
use crate::state::released_total;
use crate::vault::deposit_outcome;

verus! {

/// One attempted transition on a live agreement-and-vault pair.
pub enum Step {
    Deposit { amount: u64 },
    Submit { caller: u64, index: u64 },
    ClientApprove { caller: u64, index: u64 },
    Confirm { caller: u64, index: u64 },
    Release { index: u64 },
    Terminate { caller: u64 },
    Withdraw,
    Pause,
    Restart,
}

/// The state the host persists after one attempted transition. A
/// transition that errs leaves the state exactly as it was; a release
/// whose payout exceeds the vault balance is discarded whole, because the
/// custodial account mirrors the balance and the ledger refuses the
/// order.
pub open spec fn step(s: EscrowView, t: Step) -> EscrowView {
    match t {
        Step::Deposit { amount } => match deposit_outcome(s.milestones, s.balance, amount) {
            Ok(b) => EscrowView { balance: b, ..s },
            Err(_) => s,
        },
        Step::Submit { caller, index } => match submit_outcome(
            s.freelancer,
            s.milestones,
            caller,
            index,
        ) {
            Ok(ms) => EscrowView { milestones: ms, ..s },
            Err(_) => s,
        },
        Step::ClientApprove { caller, index } => match client_approve_outcome(
            s.client,
            s.milestones,
            caller,
            index,
        ) {
            Ok(ms) => EscrowView { milestones: ms, ..s },
            Err(_) => s,
        },
        Step::Confirm { caller, index } => match confirm_outcome(
            s.freelancer,
            s.milestones,
            caller,
            index,
        ) {
            Ok(ms) => EscrowView { milestones: ms, ..s },
            Err(_) => s,
        },
        Step::Release { index } => match release_outcome(s.milestones, s.balance, index) {
            Ok((ms, b, pay)) => if pay <= s.balance {
                EscrowView { milestones: ms, balance: b, ..s }
            } else {
                s
            },
            Err(_) => s,
        },
        Step::Terminate { caller } => match terminate_outcome(s, caller) {
            Ok(s2) => s2,
            Err(_) => s,
        },
        Step::Withdraw => if s.status == ContractStatus::Terminated {
            EscrowView { balance: 0, ..s }
        } else {
            s
        },
        Step::Pause => EscrowView { vault_status: VaultStatus::Paused, ..s },
        Step::Restart => EscrowView { vault_status: VaultStatus::Active, ..s },
    }
}

/// The amount a transition deposits into the vault: the deposited amount
/// when the deposit is accepted, nothing otherwise.
pub open spec fn deposited(s: EscrowView, t: Step) -> int {
    match t {
        Step::Deposit { amount } => match deposit_outcome(s.milestones, s.balance, amount) {
            Ok(_) => amount as int,
            Err(_) => 0,
        },
        _ => 0,
    }
}

/// The state after a whole sequence of attempted transitions.
pub open spec fn run(s: EscrowView, ts: Seq<Step>) -> EscrowView
    decreases ts.len(),
{
    if ts.len() == 0 {
        s
    } else {
        run(step(s, ts[0]), ts.drop_first())
    }
}

/// The sum of the deposits accepted along a sequence of transitions.
pub open spec fn total_deposited(s: EscrowView, ts: Seq<Step>) -> int
    decreases ts.len(),
{
    if ts.len() == 0 {
        0
    } else {
        deposited(s, ts[0]) + total_deposited(step(s, ts[0]), ts.drop_first())
    }
}

/// One transition never grows the vault balance plus the released total
/// by more than what it deposits.
pub proof fn lemma_step_conserves(s: EscrowView, t: Step)
    ensures
        step(s, t).balance + released_total(step(s, t).milestones) <= s.balance + released_total(
            s.milestones,
        ) + deposited(s, t),
{
    match t {
        Step::Submit { caller, index } => {
            if submit_outcome(s.freelancer, s.milestones, caller, index) is Ok {
                lemma_totals_update(
                    s.milestones,
                    index as int,
                    Milestone { freelancer_submitted: true, ..s.milestones[index as int] },
                );
            }
        },
        Step::ClientApprove { caller, index } => {
            if client_approve_outcome(s.client, s.milestones, caller, index) is Ok {
                lemma_totals_update(
                    s.milestones,
                    index as int,
                    Milestone { client_approved: true, ..s.milestones[index as int] },
                );
            }
        },
        Step::Confirm { caller, index } => {
            if confirm_outcome(s.freelancer, s.milestones, caller, index) is Ok {
                lemma_totals_update(
                    s.milestones,
                    index as int,
                    Milestone { freelancer_confirmed: true, ..s.milestones[index as int] },
                );
            }
        },
        Step::Release { index } => {
            if release_outcome(s.milestones, s.balance, index) is Ok {
                lemma_totals_update(
                    s.milestones,
                    index as int,
                    Milestone {
                        is_released: true,
                        freelancer_confirmed: true,
                        ..s.milestones[index as int]
                    },
                );
            }
        },
        _ => {},
    }
}

/// A list none of whose milestones is released has released nothing.
pub proof fn lemma_released_total_zero(ms: Seq<Milestone>)
    requires
        forall|i: int| 0 <= i < ms.len() ==> !(#[trigger] ms[i]).is_released,
    ensures
        released_total(ms) == 0,
    decreases ms.len(),
{
    if ms.len() > 0 {
        lemma_released_total_zero(ms.drop_last());
    }
}

/// LAW: funds are never created. Over any sequence of transitions, the
/// vault balance plus the released total grows by at most the sum of the
/// accepted deposits.
pub proof fn lemma_run_conserves(s: EscrowView, ts: Seq<Step>)
    ensures
        run(s, ts).balance + released_total(run(s, ts).milestones) <= s.balance + released_total(
            s.milestones,
        ) + total_deposited(s, ts),
    decreases ts.len(),
{
    if ts.len() > 0 {
        lemma_step_conserves(s, ts[0]);
        lemma_run_conserves(step(s, ts[0]), ts.drop_first());
    }
}

/// LAW: from the state finalization creates — empty vault, no milestone
/// released — the vault balance plus every amount already released never
/// exceeds the sum of all deposits made into the vault, across any
/// sequence of transitions.
pub proof fn lemma_funds_conserved(s: EscrowView, ts: Seq<Step>)
    requires
        s.balance == 0,
        forall|i: int| 0 <= i < s.milestones.len() ==> !(#[trigger] s.milestones[i]).is_released,
    ensures
        run(s, ts).balance + released_total(run(s, ts).milestones) <= total_deposited(s, ts),
{
    lemma_released_total_zero(s.milestones);
    lemma_run_conserves(s, ts);
}

/// LAW: milestone flags are monotonic. No transition changes the number
/// of milestones, and none ever takes a flag that is up back down.
pub proof fn lemma_flags_monotonic(s: EscrowView, t: Step, i: int)
    requires
        0 <= i < s.milestones.len(),
    ensures
        step(s, t).milestones.len() == s.milestones.len(),
        s.milestones[i].freelancer_submitted ==> step(s, t).milestones[i].freelancer_submitted,
        s.milestones[i].client_approved ==> step(s, t).milestones[i].client_approved,
        s.milestones[i].freelancer_confirmed ==> step(s, t).milestones[i].freelancer_confirmed,
        s.milestones[i].is_released ==> step(s, t).milestones[i].is_released,
{
}

/// LAW: a released milestone stays released across any sequence of
/// transitions; in particular its flag moves from false to true at most
/// once.
pub proof fn lemma_released_monotonic_run(s: EscrowView, ts: Seq<Step>, i: int)
    requires
        0 <= i < s.milestones.len(),
        s.milestones[i].is_released,
    ensures
        run(s, ts).milestones.len() == s.milestones.len(),
        run(s, ts).milestones[i].is_released,
    decreases ts.len(),
{
    if ts.len() > 0 {
        lemma_flags_monotonic(s, ts[0], i);
        lemma_released_monotonic_run(step(s, ts[0]), ts.drop_first(), i);
    }
}

/// A freshly finalized agreement starts exactly in the state the laws
/// above assume: an empty vault and every milestone with all its flags
/// down, in order. Fund conservation and the invariants therefore hold of
/// every agreement from its creation on.
pub proof fn lemma_finalized_state_is_initial(
    sig: MilestoneSignature,
    c: Contract,
    v: VaultAccount,
    client_share: u8,
    freelancer_share: u8,
    initial_payment: u64,
    project_start: i128,
    project_duration: u64,
    dispute_resolution: Seq<char>,
    milestones: Seq<Milestone>,
)
    requires
        sig.creates(
            c,
            v,
            client_share,
            freelancer_share,
            initial_payment,
            project_start,
            project_duration,
            dispute_resolution,
            milestones,
        ),
    ensures
        pair_view(c, v).balance == 0,
        forall|i: int|
            0 <= i < pair_view(c, v).milestones.len() ==> !(#[trigger] pair_view(
                c,
                v,
            ).milestones[i]).is_released,
        forall|i: int|
            0 <= i < pair_view(c, v).milestones.len() ==> (#[trigger] pair_view(
                c,
                v,
            ).milestones[i]).flags_ordered(),
        pair_view(c, v).balance <= outstanding_total(
            pair_view(c, v).milestones,
        ),
{
    lemma_totals_bounds(c.milestones@);
}

/// LAW: the flag order of milestones is invariant. When every milestone
/// of a state has its flags in reachable order — released implies
/// approved implies submitted — the same holds after any transition.
pub proof fn lemma_flags_order_invariant(s: EscrowView, t: Step)
    requires
        forall|i: int| 0 <= i < s.milestones.len() ==> (#[trigger] s.milestones[i]).flags_ordered(),
    ensures
        forall|i: int|
            0 <= i < step(s, t).milestones.len() ==> (#[trigger] step(
                s,
                t,
            ).milestones[i]).flags_ordered(),
{
}

/// LAW: termination is one-way. A termination-approval flag that is up
/// stays up, and a terminated agreement never becomes active again.
pub proof fn lemma_termination_monotonic(s: EscrowView, t: Step)
    ensures
        s.client_approved ==> step(s, t).client_approved,
        s.freelancer_approved ==> step(s, t).freelancer_approved,
        s.status == ContractStatus::Terminated ==> step(s, t).status == ContractStatus::Terminated,
{
}

/// LAW: the vault balance never exceeds the outstanding milestone total.
/// The ceiling holds at creation (empty vault) and every transition
/// preserves it: a deposit is held below it, and a committed release
/// takes the same amount off both sides.
pub proof fn lemma_balance_ceiling(s: EscrowView, t: Step)
    requires
        s.balance <= outstanding_total(s.milestones),
    ensures
        step(s, t).balance <= outstanding_total(step(s, t).milestones),
{
    lemma_totals_bounds(s.milestones);
    match t {
        Step::Submit { caller, index } => {
            if submit_outcome(s.freelancer, s.milestones, caller, index) is Ok {
                lemma_totals_update(
                    s.milestones,
                    index as int,
                    Milestone { freelancer_submitted: true, ..s.milestones[index as int] },
                );
            }
        },
        Step::ClientApprove { caller, index } => {
            if client_approve_outcome(s.client, s.milestones, caller, index) is Ok {
                lemma_totals_update(
                    s.milestones,
                    index as int,
                    Milestone { client_approved: true, ..s.milestones[index as int] },
                );
            }
        },
        Step::Confirm { caller, index } => {
            if confirm_outcome(s.freelancer, s.milestones, caller, index) is Ok {
                lemma_totals_update(
                    s.milestones,
                    index as int,
                    Milestone { freelancer_confirmed: true, ..s.milestones[index as int] },
                );
            }
        },
        Step::Release { index } => {
            if release_outcome(s.milestones, s.balance, index) is Ok {
                lemma_totals_update(
                    s.milestones,
                    index as int,
                    Milestone {
                        is_released: true,
                        freelancer_confirmed: true,
                        ..s.milestones[index as int]
                    },
                );
            }
        },
        _ => {},
    }
}

/// LAW: a second release of the same milestone is refused as already
/// released and commits nothing — the balance and every record are left
/// exactly as they were.
pub proof fn lemma_second_release_rejected(s: EscrowView, index: u64)
    requires
        index < s.milestones.len(),
        s.milestones[index as int].is_released,
        s.milestones[index as int].flags_ordered(),
    ensures
        release_outcome(s.milestones, s.balance, index) == Err::<
            (Seq<Milestone>, u64, u64),
            ContractError,
        >(ContractError::AlreadyReleased),
        step(s, Step::Release { index }) == s,
{
}

/// LAW: once the vault balance has reached the outstanding milestone
/// total, a deposit is rejected outright, whatever amount it asks to add,
/// and commits nothing.
pub proof fn lemma_deposit_rejected_when_funded(s: EscrowView, amount: u64)
    requires
        s.balance >= outstanding_total(s.milestones),
    ensures
        deposit_outcome(s.milestones, s.balance, amount) == Err::<u64, VaultDepositError>(
            VaultDepositError::InsufficientDemand,
        ),
        step(s, Step::Deposit { amount }) == s,
{
}

/// LAW: termination is commutative in caller order. The client requesting
/// and then the freelancer reaches exactly the state the opposite order
/// reaches.
pub proof fn lemma_termination_commutes(s: EscrowView)
    ensures
        step(
            step(s, Step::Terminate { caller: s.client }),
            Step::Terminate { caller: s.freelancer },
        ) == step(
            step(s, Step::Terminate { caller: s.freelancer }),
            Step::Terminate { caller: s.client },
        ),
{
    let a = step(
        step(s, Step::Terminate { caller: s.client }),
        Step::Terminate { caller: s.freelancer },
    );
    let b = step(
        step(s, Step::Terminate { caller: s.freelancer }),
        Step::Terminate { caller: s.client },
    );
    assert(a =~= b);
}

/// LAW: withdrawal after termination is idempotent. The first call
/// empties the vault; a second call finds nothing and changes nothing,
/// and still succeeds.
pub proof fn lemma_withdraw_twice(s: EscrowView)
    requires
        s.status == ContractStatus::Terminated,
    ensures
        step(s, Step::Withdraw) == (EscrowView { balance: 0, ..s }),
        step(step(s, Step::Withdraw), Step::Withdraw) == step(s, Step::Withdraw),
{
    assert(step(s, Step::Withdraw) =~= (EscrowView { balance: 0, ..s }));
    assert(step(step(s, Step::Withdraw), Step::Withdraw) =~= step(s, Step::Withdraw));
}

} // verus!
