//! Registry of content-addressed stream records.
//!
//! The registry anchors stream records on behalf of their controllers, keeps
//! an append-only commit history for every record, indexes records by their
//! content hash, and tracks links declared between records. External
//! collaborators — the identity subsystem that resolves a caller to a
//! controller, the schema and locator validators, the ledger clock and the
//! notification sink — are consumed at their interface boundary: their
//! verdicts enter the operations as plain values, and the emitted
//! notification is handed back to the host.

pub mod laws;
pub mod pallet;
pub mod streams;
pub mod weights;

pub use pallet::DispatchError;
pub use pallet::Error;
pub use pallet::Event;
pub use pallet::Pallet;
pub use pallet::RegistryV;
pub use pallet::SchemaError;
pub use streams::BlockNumberOf;
pub use streams::CordAccountOf;
pub use streams::HashOf;
pub use streams::IdOf;
pub use streams::IdentifierOf;
pub use streams::StatusOf;
pub use streams::StreamCommit;
pub use streams::StreamCommitOf;
pub use streams::StreamDetails;
pub use streams::StreamLink;
