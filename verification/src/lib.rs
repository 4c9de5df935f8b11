//! A custodial token ledger.
//!
//! The ledger tracks per-user balances of a single configured token held in
//! custody by a contract. A host runtime drives it: the host verifies caller
//! authorization, performs the actual token transfers through the configured
//! token service, persists state, and publishes events. Everything the ledger
//! *decides* — which requests are admissible, in which order the guards apply,
//! which error each rejected request raises, and how a balance changes when a
//! transfer went through — lives here and is verified.
//!
//! - [`errors`] is the error taxonomy shared by every operation.
//! - [`policy`] holds the per-call decision rules over plain values; a host
//!   shell calls these around its storage reads and transfer calls.
//! - [`ledger`] is the ledger state machine itself: the durable state
//!   (token configuration and balance table) with the five operations.
//! - [`laws`] states and proves the laws that the operations obey together.

pub mod errors;
pub mod laws;
pub mod ledger;
pub mod policy;
