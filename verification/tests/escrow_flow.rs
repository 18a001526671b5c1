use pivox_contract::errors::ContractError;
use pivox_contract::errors::MilestoneError;
use pivox_contract::errors::VaultWithdrawError;
use pivox_contract::lifecycle::MilestoneLifecycle;
use pivox_contract::settlement::ContractFunc;
use pivox_contract::settlement::VaultWithdraw;
use pivox_contract::state::Contract;
use pivox_contract::state::ContractStatus;
use pivox_contract::state::Milestone;
use pivox_contract::state::TransferOrder;
use pivox_contract::state::VaultAccount;
use pivox_contract::state::VaultStatus;

const CLIENT: u64 = 11;
const FREELANCER: u64 = 22;
const STRANGER: u64 = 33;
const VAULT_KEY: u64 = 88;
const APPROVAL_KEY: u64 = 77;

fn milestone(amount: u64) -> Milestone {
    Milestone {
        description: "deliverable".to_string(),
        amount,
        freelancer_submitted: false,
        client_approved: false,
        freelancer_confirmed: false,
        is_released: false,
    }
}

fn contract(milestones: Vec<Milestone>) -> Contract {
    Contract {
        client: CLIENT,
        freelancer: FREELANCER,
        vault_account: VAULT_KEY,
        multisig_account: APPROVAL_KEY,
        initial_payment: 100,
        project_start: 0,
        project_duration: 90,
        client_share: 50,
        freelancer_share: 50,
        dispute_resolution: "mediation first".to_string(),
        status: ContractStatus::Active,
        client_approved: false,
        freelancer_approved: false,
        milestones,
    }
}

fn vault(balance: u64) -> VaultAccount {
    VaultAccount {
        client: CLIENT,
        freelancer: FREELANCER,
        balance,
        client_share: 50,
        freelancer_share: 50,
        multisig_account: APPROVAL_KEY,
        vault_status: VaultStatus::Active,
    }
}

#[test]
fn two_milestone_release_scenario() {
    // Two milestones of 100 and 200, vault funded to 300.
    let mut lc = MilestoneLifecycle {
        signer: FREELANCER,
        contract: contract(vec![milestone(100), milestone(200)]),
    };
    assert!(lc.freelancer_submit(0).is_ok());
    let mut lc = MilestoneLifecycle { signer: CLIENT, contract: lc.contract };
    assert!(lc.client_approve(0).is_ok());

    let mut cf = ContractFunc { signer: CLIENT, contract: lc.contract, vault_account: vault(300) };
    let order = cf.release_milestone_payment(0).unwrap();
    assert_eq!(order, TransferOrder { from: VAULT_KEY, to: FREELANCER, amount: 100 });
    assert_eq!(cf.vault_account.balance, 200);
    assert!(cf.contract.milestones[0].is_released);
    assert!(cf.contract.milestones[0].freelancer_confirmed);

    // A retried release of the same milestone fails and changes nothing.
    assert_eq!(cf.release_milestone_payment(0), Err(ContractError::AlreadyReleased));
    assert_eq!(cf.vault_account.balance, 200);

    // Releasing the second milestone before it was submitted fails.
    assert_eq!(cf.release_milestone_payment(1), Err(ContractError::MilestoneNotReady));
    assert_eq!(cf.vault_account.balance, 200);
}

#[test]
fn release_index_out_of_range() {
    let mut cf = ContractFunc {
        signer: CLIENT,
        contract: contract(vec![milestone(100)]),
        vault_account: vault(100),
    };
    assert_eq!(cf.release_milestone_payment(1), Err(ContractError::IndexOutOfRange));
}

#[test]
fn release_needs_no_particular_caller() {
    let mut c = contract(vec![milestone(40)]);
    c.milestones[0].freelancer_submitted = true;
    c.milestones[0].client_approved = true;
    let mut cf = ContractFunc { signer: STRANGER, contract: c, vault_account: vault(40) };
    let order = cf.release_milestone_payment(0).unwrap();
    assert_eq!(order.amount, 40);
    assert_eq!(cf.vault_account.balance, 0);
}

#[test]
fn release_floors_balance_at_zero() {
    let mut c = contract(vec![milestone(100)]);
    c.milestones[0].freelancer_submitted = true;
    c.milestones[0].client_approved = true;
    let mut cf = ContractFunc { signer: CLIENT, contract: c, vault_account: vault(50) };
    let order = cf.release_milestone_payment(0).unwrap();
    assert_eq!(order.amount, 100);
    assert_eq!(cf.vault_account.balance, 0);
}

#[test]
fn submit_requires_freelancer() {
    let mut lc = MilestoneLifecycle { signer: CLIENT, contract: contract(vec![milestone(10)]) };
    assert_eq!(lc.freelancer_submit(0), Err(MilestoneError::InvalidSigner));
    assert!(!lc.contract.milestones[0].freelancer_submitted);
}

#[test]
fn submit_index_out_of_range() {
    let mut lc = MilestoneLifecycle { signer: FREELANCER, contract: contract(vec![milestone(10)]) };
    assert_eq!(lc.freelancer_submit(1), Err(MilestoneError::IndexOutOfRange));
}

#[test]
fn submit_twice_rejected() {
    let mut lc = MilestoneLifecycle { signer: FREELANCER, contract: contract(vec![milestone(10)]) };
    assert!(lc.freelancer_submit(0).is_ok());
    assert_eq!(lc.freelancer_submit(0), Err(MilestoneError::AlreadySubmitted));
}

#[test]
fn approve_requires_client_and_submission() {
    let mut lc = MilestoneLifecycle { signer: FREELANCER, contract: contract(vec![milestone(10)]) };
    assert_eq!(lc.client_approve(0), Err(MilestoneError::InvalidSigner));

    let mut lc = MilestoneLifecycle { signer: CLIENT, contract: lc.contract };
    assert_eq!(lc.client_approve(0), Err(MilestoneError::NotSubmitted));

    let mut fl = MilestoneLifecycle { signer: FREELANCER, contract: lc.contract };
    assert!(fl.freelancer_submit(0).is_ok());
    let mut lc = MilestoneLifecycle { signer: CLIENT, contract: fl.contract };
    assert!(lc.client_approve(0).is_ok());
    assert_eq!(lc.client_approve(0), Err(MilestoneError::AlreadyApproved));
}

#[test]
fn confirm_needs_submission_approval_and_once() {
    let mut lc = MilestoneLifecycle { signer: FREELANCER, contract: contract(vec![milestone(10)]) };
    assert_eq!(lc.freelancer_confirm(0), Err(MilestoneError::NotSubmitted));
    assert!(lc.freelancer_submit(0).is_ok());
    assert_eq!(lc.freelancer_confirm(0), Err(MilestoneError::NotApproved));

    let mut cl = MilestoneLifecycle { signer: CLIENT, contract: lc.contract };
    assert!(cl.client_approve(0).is_ok());
    let mut lc = MilestoneLifecycle { signer: FREELANCER, contract: cl.contract };
    assert!(lc.freelancer_confirm(0).is_ok());
    assert!(lc.contract.milestones[0].freelancer_confirmed);
    assert_eq!(lc.freelancer_confirm(0), Err(MilestoneError::AlreadyConfirmed));

    let mut cl = MilestoneLifecycle { signer: CLIENT, contract: lc.contract };
    assert_eq!(cl.freelancer_confirm(0), Err(MilestoneError::InvalidSigner));
}

#[test]
fn termination_needs_both_parties() {
    let mut cf = ContractFunc {
        signer: CLIENT,
        contract: contract(vec![milestone(10)]),
        vault_account: vault(10),
    };
    assert_eq!(cf.complete_or_cancel_contract(), Ok(None));
    assert!(cf.contract.client_approved);
    assert!(!cf.contract.freelancer_approved);
    assert_eq!(cf.contract.status, ContractStatus::Active);
    assert_eq!(cf.vault_account.balance, 10);

    let mut cf = ContractFunc {
        signer: FREELANCER,
        contract: cf.contract,
        vault_account: cf.vault_account,
    };
    let sweep = cf.complete_or_cancel_contract().unwrap().unwrap();
    assert_eq!(
        sweep.transfer,
        Some(TransferOrder { from: VAULT_KEY, to: FREELANCER, amount: 10 })
    );
    assert_eq!(sweep.close_refund_to, FREELANCER);
    assert_eq!(cf.contract.status, ContractStatus::Terminated);
    assert_eq!(cf.vault_account.balance, 0);
    assert_eq!(cf.vault_account.vault_status, VaultStatus::Terminated);
}

#[test]
fn termination_rejects_stranger() {
    let mut cf = ContractFunc {
        signer: STRANGER,
        contract: contract(vec![milestone(10)]),
        vault_account: vault(10),
    };
    assert_eq!(cf.complete_or_cancel_contract(), Err(ContractError::Unauthorized));
    assert!(!cf.contract.client_approved);
    assert!(!cf.contract.freelancer_approved);
    assert_eq!(cf.contract.status, ContractStatus::Active);
}

#[test]
fn termination_with_empty_vault_orders_no_transfer() {
    let mut cf = ContractFunc {
        signer: CLIENT,
        contract: contract(vec![]),
        vault_account: vault(0),
    };
    assert_eq!(cf.complete_or_cancel_contract(), Ok(None));
    let mut cf = ContractFunc {
        signer: FREELANCER,
        contract: cf.contract,
        vault_account: cf.vault_account,
    };
    let sweep = cf.complete_or_cancel_contract().unwrap().unwrap();
    assert_eq!(sweep.transfer, None);
    assert_eq!(sweep.close_refund_to, FREELANCER);
}

#[test]
fn termination_commutes_in_caller_order() {
    let mut first = ContractFunc {
        signer: CLIENT,
        contract: contract(vec![milestone(60)]),
        vault_account: vault(25),
    };
    first.complete_or_cancel_contract().unwrap();
    let mut first = ContractFunc {
        signer: FREELANCER,
        contract: first.contract,
        vault_account: first.vault_account,
    };
    first.complete_or_cancel_contract().unwrap();

    let mut second = ContractFunc {
        signer: FREELANCER,
        contract: contract(vec![milestone(60)]),
        vault_account: vault(25),
    };
    second.complete_or_cancel_contract().unwrap();
    let mut second = ContractFunc {
        signer: CLIENT,
        contract: second.contract,
        vault_account: second.vault_account,
    };
    second.complete_or_cancel_contract().unwrap();

    assert_eq!(first.contract, second.contract);
    assert_eq!(first.vault_account, second.vault_account);
}

#[test]
fn withdraw_before_termination_rejected() {
    let mut vw = VaultWithdraw { contract: contract(vec![milestone(10)]), vault_account: vault(10) };
    assert_eq!(vw.withdraw_funds(), Err(VaultWithdrawError::Unauthorized));
    assert_eq!(vw.vault_account.balance, 10);
}

#[test]
fn withdraw_twice_after_termination() {
    let mut c = contract(vec![milestone(10)]);
    c.status = ContractStatus::Terminated;
    let mut vw = VaultWithdraw { contract: c, vault_account: vault(70) };

    let first = vw.withdraw_funds().unwrap();
    assert_eq!(first, TransferOrder { from: VAULT_KEY, to: FREELANCER, amount: 70 });
    assert_eq!(vw.vault_account.balance, 0);

    let second = vw.withdraw_funds().unwrap();
    assert_eq!(second, TransferOrder { from: VAULT_KEY, to: FREELANCER, amount: 0 });
    assert_eq!(vw.vault_account.balance, 0);
}

#[test]
fn ledger_never_exceeds_deposits_in_a_full_run() {
    // Deposits 100 and 200; releases of 100 and 200; then termination.
    // At every stop, balance plus released total stays within deposits.
    let mut lc = MilestoneLifecycle {
        signer: FREELANCER,
        contract: contract(vec![milestone(100), milestone(200)]),
    };
    assert!(lc.freelancer_submit(0).is_ok());
    assert!(lc.freelancer_submit(1).is_ok());
    let mut lc = MilestoneLifecycle { signer: CLIENT, contract: lc.contract };
    assert!(lc.client_approve(0).is_ok());
    assert!(lc.client_approve(1).is_ok());

    let mut cf = ContractFunc { signer: CLIENT, contract: lc.contract, vault_account: vault(300) };
    let deposits: u64 = 300;
    let mut released: u64 = 0;

    let o0 = cf.release_milestone_payment(0).unwrap();
    released += o0.amount;
    assert!(cf.vault_account.balance + released <= deposits);

    let o1 = cf.release_milestone_payment(1).unwrap();
    released += o1.amount;
    assert!(cf.vault_account.balance + released <= deposits);
    assert_eq!(cf.vault_account.balance, 0);

    cf.complete_or_cancel_contract().unwrap();
    assert!(cf.vault_account.balance + released <= deposits);
}
