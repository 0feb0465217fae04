//! A small credential-keyed record service: each caller, identified by the
//! credential string it presents, keeps one string value (typically its
//! public IP address). The library holds the record store, the identity
//! rules that turn a credential into a storage key and gate writes, and the
//! request operations with their error taxonomy.

mod error;
mod identity;
mod laws;
mod service;
mod store;

pub use error::{error_message, error_status, ServiceError};
pub use identity::{
    base64_standard, basic_auth_header, basic_header, derive_key, derived_key, permits_write,
    AccessPolicy,
};
pub use laws::{
    deletes_key, lemma_concurrent_writes_serialize, lemma_delete, lemma_deleted_not_found,
    lemma_key_derivation_injective, lemma_last_write_wins, lemma_never_written_not_found,
    lemma_single_user_writes, lemma_write_then_read, replay, writes_key, Request,
};
pub use service::{
    delete_outcome, delete_record, deleted_text, outcome_view, read_outcome, read_record,
    response_for, write_outcome, write_record, Records,
};
pub use store::RecordStore;
