use vstd::prelude::*;

use crate::error::ServiceError;
use crate::identity::{derived_key, permits_write};
use crate::service::{delete_outcome, deleted_text, read_outcome, write_outcome, Records};

verus! {

/// A request that changes the store: a write of a value, or a delete, under a
/// credential.
pub enum Request {
    Write(Seq<char>, Seq<char>),
    Delete(Seq<char>),
}

/// The contents after serving `reqs` in order, from `m`, with admin key `admin`.
pub open spec fn replay(admin: Option<Seq<char>>, m: Records, reqs: Seq<Request>) -> Records
    decreases reqs.len(),
{
    if reqs.len() == 0 {
        m
    } else {
        let before = replay(admin, m, reqs.drop_last());
        match reqs.last() {
            Request::Write(c, v) => write_outcome(admin, before, c, v).0,
            Request::Delete(c) => delete_outcome(before, c).0,
        }
    }
}

/// Whether request `r` is a write under the storage key `k`.
pub open spec fn writes_key(r: Request, k: Seq<char>) -> bool {
    match r {
        Request::Write(c, _) => derived_key(c) == k,
        Request::Delete(_) => false,
    }
}

/// Whether request `r` is a delete under the storage key `k`.
pub open spec fn deletes_key(r: Request, k: Seq<char>) -> bool {
    match r {
        Request::Write(_, _) => false,
        Request::Delete(c) => derived_key(c) == k,
    }
}

/// A read under a key that no request since the store was created has
/// written yields `NotFound`.
pub proof fn lemma_never_written_not_found(
    admin: Option<Seq<char>>,
    reqs: Seq<Request>,
    credential: Seq<char>,
)
    requires
        forall|i: int| 0 <= i < reqs.len() ==> !writes_key(#[trigger] reqs[i], derived_key(credential)),
    ensures
        read_outcome(replay(admin, Map::empty(), reqs), credential) == Err::<Seq<char>, ServiceError>(
            ServiceError::NotFound,
        ),
{
    lemma_absent_stays_absent(admin, Map::empty(), reqs, derived_key(credential));
}

/// Where no request of `reqs` writes under `k`, a key absent from `m` stays absent.
proof fn lemma_absent_stays_absent(
    admin: Option<Seq<char>>,
    m: Records,
    reqs: Seq<Request>,
    k: Seq<char>,
)
    requires
        !m.contains_key(k),
        forall|i: int| 0 <= i < reqs.len() ==> !writes_key(#[trigger] reqs[i], k),
    ensures
        !replay(admin, m, reqs).contains_key(k),
    decreases reqs.len(),
{
    if reqs.len() > 0 {
        let init = reqs.drop_last();
        assert forall|i: int| 0 <= i < init.len() implies !writes_key(#[trigger] init[i], k) by {
            assert(init[i] == reqs[i]);
        }
        lemma_absent_stays_absent(admin, m, init, k);
        assert(!writes_key(reqs[reqs.len() - 1], k));
    }
}

/// A read under a key whose most recent request was a delete, with no write
/// under it since, yields `NotFound`.
pub proof fn lemma_deleted_not_found(
    admin: Option<Seq<char>>,
    m: Records,
    reqs: Seq<Request>,
    deleted_at: int,
    credential: Seq<char>,
)
    requires
        0 <= deleted_at < reqs.len(),
        deletes_key(reqs[deleted_at], derived_key(credential)),
        forall|i: int| deleted_at < i < reqs.len() ==> !writes_key(#[trigger] reqs[i], derived_key(credential)),
    ensures
        read_outcome(replay(admin, m, reqs), credential) == Err::<Seq<char>, ServiceError>(
            ServiceError::NotFound,
        ),
{
    let k = derived_key(credential);
    let upto = reqs.subrange(0, deleted_at + 1);
    let rest = reqs.subrange(deleted_at + 1, reqs.len() as int);
    assert(upto.drop_last() =~= reqs.subrange(0, deleted_at));
    assert(!replay(admin, m, upto).contains_key(k));
    assert forall|i: int| 0 <= i < rest.len() implies !writes_key(#[trigger] rest[i], k) by {
        assert(rest[i] == reqs[deleted_at + 1 + i]);
    }
    lemma_absent_stays_absent(admin, replay(admin, m, upto), rest, k);
    lemma_replay_concat(admin, m, upto, rest);
    assert(upto + rest =~= reqs);
}

/// Serving `a` and then `b` is serving `a + b`.
proof fn lemma_replay_concat(admin: Option<Seq<char>>, m: Records, a: Seq<Request>, b: Seq<Request>)
    ensures
        replay(admin, replay(admin, m, a), b) == replay(admin, m, a + b),
    decreases b.len(),
{
    if b.len() > 0 {
        lemma_replay_concat(admin, m, a, b.drop_last());
        assert((a + b).drop_last() =~= a + b.drop_last());
        assert((a + b).last() == b.last());
    }
}

/// A permitted write followed by a read under the same credential yields
/// the value written.
pub proof fn lemma_write_then_read(
    admin: Option<Seq<char>>,
    m: Records,
    credential: Seq<char>,
    value: Seq<char>,
)
    requires
        permits_write(admin, derived_key(credential)),
    ensures
        write_outcome(admin, m, credential, value).1 == Ok::<Seq<char>, ServiceError>(value),
        read_outcome(write_outcome(admin, m, credential, value).0, credential) == Ok::<
            Seq<char>,
            ServiceError,
        >(value),
{
}

/// Of two permitted writes under one credential, a later read yields the
/// second value: it replaces the first, with nothing merged.
pub proof fn lemma_last_write_wins(
    admin: Option<Seq<char>>,
    m: Records,
    credential: Seq<char>,
    first: Seq<char>,
    second: Seq<char>,
)
    requires
        permits_write(admin, derived_key(credential)),
    ensures
        read_outcome(
            write_outcome(admin, write_outcome(admin, m, credential, first).0, credential, second).0,
            credential,
        ) == Ok::<Seq<char>, ServiceError>(second),
{
}

/// A delete of an existing record succeeds and a later read yields
/// `NotFound`; a delete where there is no record yields `NotFound` and
/// leaves the store as it was.
pub proof fn lemma_delete(m: Records, credential: Seq<char>)
    ensures
        m.contains_key(derived_key(credential)) ==> {
            &&& delete_outcome(m, credential).1 == Ok::<Seq<char>, ServiceError>(deleted_text())
            &&& read_outcome(delete_outcome(m, credential).0, credential) == Err::<
                Seq<char>,
                ServiceError,
            >(ServiceError::NotFound)
        },
        !m.contains_key(derived_key(credential)) ==> delete_outcome(m, credential) == (
            m,
            Err::<Seq<char>, ServiceError>(ServiceError::NotFound),
        ),
{
}

/// With an admin key configured, a write under any other key yields
/// `Unauthorized` and leaves the store as it was; a write under the admin
/// key succeeds.
pub proof fn lemma_single_user_writes(
    admin_key: Seq<char>,
    m: Records,
    credential: Seq<char>,
    value: Seq<char>,
)
    ensures
        derived_key(credential) != admin_key ==> write_outcome(Some(admin_key), m, credential, value)
            == (m, Err::<Seq<char>, ServiceError>(ServiceError::Unauthorized)),
        derived_key(credential) == admin_key ==> write_outcome(Some(admin_key), m, credential, value)
            == (m.insert(admin_key, value), Ok::<Seq<char>, ServiceError>(value)),
{
}

/// Two writes under one key from two callers: the store's lock serves them
/// one after the other, in either order. Either way the key ends up holding
/// exactly the whole value of the write served last, and no other record
/// changes.
pub proof fn lemma_concurrent_writes_serialize(
    admin: Option<Seq<char>>,
    m: Records,
    credential: Seq<char>,
    a: Seq<char>,
    b: Seq<char>,
)
    requires
        permits_write(admin, derived_key(credential)),
    ensures
        write_outcome(admin, write_outcome(admin, m, credential, a).0, credential, b).0 == m.insert(
            derived_key(credential),
            b,
        ),
        write_outcome(admin, write_outcome(admin, m, credential, b).0, credential, a).0 == m.insert(
            derived_key(credential),
            a,
        ),
{
    let k = derived_key(credential);
    assert(m.insert(k, a).insert(k, b) =~= m.insert(k, b));
    assert(m.insert(k, b).insert(k, a) =~= m.insert(k, a));
}

/// Key derivation is a function of the credential alone, and two different
/// credentials never share a key.
pub proof fn lemma_key_derivation_injective(c1: Seq<char>, c2: Seq<char>)
    ensures
        derived_key(c1) == derived_key(c2) <==> c1 == c2,
{
}

} // verus!
