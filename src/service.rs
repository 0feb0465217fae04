use vstd::prelude::*;

use crate::error::{error_message, error_status, ServiceError};
use crate::identity::{derive_key, derived_key, permits_write, AccessPolicy};
use crate::store::RecordStore;

verus! {

/// A store's contents: storage key to value.
pub type Records = Map<Seq<char>, Seq<char>>;

/// What a request's outcome says, with the text it carries viewed as characters.
pub open spec fn outcome_view(r: Result<String, ServiceError>) -> Result<Seq<char>, ServiceError> {
    match r {
        Ok(s) => Ok(s@),
        Err(e) => Err(e),
    }
}

/// A read under `credential`: the value kept for its key, else `NotFound`.
pub open spec fn read_outcome(m: Records, credential: Seq<char>) -> Result<Seq<char>, ServiceError> {
    let k = derived_key(credential);
    if m.contains_key(k) {
        Ok(m[k])
    } else {
        Err(ServiceError::NotFound)
    }
}

/// A write of `value` under `credential` with admin key `admin`: the new
/// contents and the outcome, which echoes the value.
pub open spec fn write_outcome(
    admin: Option<Seq<char>>,
    m: Records,
    credential: Seq<char>,
    value: Seq<char>,
) -> (Records, Result<Seq<char>, ServiceError>) {
    let k = derived_key(credential);
    if permits_write(admin, k) {
        (m.insert(k, value), Ok(value))
    } else {
        (m, Err(ServiceError::Unauthorized))
    }
}

/// The confirmation a successful delete answers with.
pub open spec fn deleted_text() -> Seq<char> {
    "IP deleted"@
}

/// A delete under `credential`: the new contents and the outcome.
pub open spec fn delete_outcome(m: Records, credential: Seq<char>) -> (
    Records,
    Result<Seq<char>, ServiceError>,
) {
    let k = derived_key(credential);
    if m.contains_key(k) {
        (m.remove(k), Ok(deleted_text()))
    } else {
        (m, Err(ServiceError::NotFound))
    }
}

/// Reads the record of the caller that presents `credential`.
pub fn read_record(store: &RecordStore, credential: &str) -> (r: Result<String, ServiceError>)
    requires
        store.wf(),
    ensures
        outcome_view(r) == read_outcome(store@, credential@),
{
    let key = derive_key(credential);
    match store.get(&key) {
        Some(value) => Ok(value),
        None => Err(ServiceError::NotFound),
    }
}

/// Stores `value` as the record of the caller that presents `credential`,
/// where `policy` lets that caller write; echoes the value.
pub fn write_record(
    store: &mut RecordStore,
    policy: &AccessPolicy,
    credential: &str,
    value: &str,
) -> (r: Result<String, ServiceError>)
    requires
        old(store).wf(),
    ensures
        final(store).wf(),
        (final(store)@, outcome_view(r)) == write_outcome(policy@, old(store)@, credential@, value@),
{
    let key = derive_key(credential);
    if !policy.permits(&key) {
        return Err(ServiceError::Unauthorized);
    }
    store.put(key, value.to_owned());
    Ok(value.to_owned())
}

/// Deletes the record of the caller that presents `credential`.
pub fn delete_record(store: &mut RecordStore, credential: &str) -> (r: Result<String, ServiceError>)
    requires
        old(store).wf(),
    ensures
        final(store).wf(),
        (final(store)@, outcome_view(r)) == delete_outcome(old(store)@, credential@),
{
    let key = derive_key(credential);
    match store.remove(&key) {
        Some(_) => Ok("IP deleted".to_owned()),
        None => Err(ServiceError::NotFound),
    }
}

/// The status code and body of the response for an outcome: 200 with the
/// text on success, else the error's own status and message.
pub fn response_for(r: &Result<String, ServiceError>) -> (resp: (u16, String))
    ensures
        match r {
            Ok(body) => resp.0 == 200 && resp.1@ == body@,
            Err(e) => resp.0 == error_status(*e) && resp.1@ == error_message(*e),
        },
{
    match r {
        Ok(body) => (200, body.clone()),
        Err(e) => (e.status(), e.message()),
    }
}

} // verus!
