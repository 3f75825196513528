//! An escrow that pays a freelancer milestone by milestone.
//!
//! A client deposits the amounts of all milestones at once. Each milestone is
//! then paid when the client approves it, when nobody objects in time, or as an
//! arbiter or the admin decides. Along the way the escrow can be paused, frozen
//! and cancelled, and it computes how refunds, fees, yield and taxes are shared.
//!
//! The contract is [`MilestoneEscrow`]. Its endpoints work on a [`host::Host`]:
//! the stored entries, the clock and the balance that the call sees, and the
//! signatures, transfers and events that it asks for. What an endpoint does is
//! an [`outcome::Outcome`], a function of what it saw; the endpoint is proved to
//! come to just that. [`laws`] says what holds of every ledger and of every
//! call, and names the one exception: settling a tax withholding pays by what is
//! on record. [`promises`] says what holds of several calls together. [`rules`]
//! says what each endpoint is for, of the stored fields themselves.

pub mod types;
pub mod events;
pub mod amounts;
pub mod table;
pub mod host;
pub mod outcome;
pub mod shares;
pub mod arith;
pub mod guards;

pub mod lifecycle;
pub mod delivery;
pub mod disputes;
pub mod cancel;
pub mod overrides;
pub mod pause;
pub mod admin;
pub mod multisig;
pub mod allocation;
pub mod fees;
pub mod streaming;
pub mod yields;
pub mod tax;

pub mod laws;
pub mod promises;
pub mod rules;

pub use crate::arith::MilestoneEscrow;
