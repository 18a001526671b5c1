//! A milestone-based escrow core between a client and a freelancer.
//!
//! The library is the state machine of the escrow system: multisig-gated
//! agreement activation, custodial vault accounting, the per-milestone
//! submit / approve / confirm / release lifecycle, and mutual-consent
//! termination with a final fund sweep. The host that persists records,
//! verifies caller identities and moves custodial funds is outside the
//! library: every transition here is a pure, terminating computation that
//! either returns the new record state, together with the fund-transfer
//! orders the host must carry out in the same atomic commit, or an error
//! with the records untouched.

pub mod approval;
pub mod errors;
pub mod laws;
pub mod lifecycle;
pub mod settlement;
pub mod state;
pub mod vault;
