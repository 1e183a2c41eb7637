//! The state management of an escrow service: the status state machine, the
//! guarded transition and the operations built on it.
//!
//! * [`status`] holds the lifecycle states and the table of legal moves.
//! * [`types`] holds the escrow record.
//! * [`address`] declares the address of a party, which comes from the
//!   Soroban SDK.
//! * [`model`] says what each operation decides and what that does to a
//!   store, and proves the laws of the service.
//! * [`contract`] holds the operations themselves, each proved against the
//!   model.
//!
//! The library decides; its caller acts. For a transition or a release the
//! caller reads the record under the identifier, asks
//! [`Contract::authorization_needed`] whose authorization the request needs,
//! obtains it, and hands record and answer to the operation. The operation
//! says what to answer and which record, if any, to write back. A request
//! that needs the buyer and is told that the buyer has not authorized it
//! names nothing to write.

pub mod address;
pub mod contract;
pub mod errors;
pub mod model;
pub mod status;
pub mod types;

pub use contract::Contract;
pub use errors::ContractError;
pub use status::EscrowStatus;
pub use types::Escrow;
