//! Loading users and blobs by id in batches: the query for a batch, and the answer for
//! each requested id.

use std::collections::HashMap;
use vstd::prelude::*;

verus! {

/// `n` query placeholders joined by `", "`.
pub open spec fn placeholders(n: nat) -> Seq<char>
    decreases n,
{
    if n == 0 {
        Seq::empty()
    } else if n == 1 {
        "?"@
    } else {
        placeholders((n - 1) as nat) + ", ?"@
    }
}

/// The `n` placeholders of a batch query.
pub fn batch_placeholders(n: usize) -> (text: String)
    ensures
        text@ == placeholders(n as nat),
{
    proof {
        reveal_strlit("?");
        reveal_strlit(", ?");
    }
    if n == 0 {
        return String::new();
    }
    let mut text = String::from_str("?");
    let mut k: usize = 1;
    while k < n
        invariant
            1 <= k <= n,
            text@ == placeholders(k as nat),
        decreases n - k,
    {
        text.append(", ?");
        k = k + 1;
    }
    text
}

/// The query that loads the users with `n` given ids.
pub fn user_batch_query(n: usize) -> (query: String)
    ensures
        query@ == "SELECT * FROM users WHERE id IN ("@ + placeholders(n as nat) + ")"@,
{
    let mut query = String::from_str("SELECT * FROM users WHERE id IN (");
    query.append(batch_placeholders(n).as_str());
    query.append(")");
    query
}

/// The query that loads the blobs with `n` given ids that are not deleted.
pub fn blob_batch_query(n: usize) -> (query: String)
    ensures
        query@ == "SELECT * FROM blobs WHERE id IN ("@ + placeholders(n as nat)
            + ") AND deleted_at IS NULL"@,
{
    let mut query = String::from_str("SELECT * FROM blobs WHERE id IN (");
    query.append(batch_placeholders(n).as_str());
    query.append(") AND deleted_at IS NULL");
    query
}

/// Why an id of a batch has no record.
#[derive(Debug, Clone, Copy, PartialEq, Eq, Structural)]
pub enum LoadError {
    /// No record has this id.
    NotFound(u128),
}

/// The records found, by id; where two share an id, the later one counts.
pub open spec fn found_by_id<T>(found: Seq<(u128, T)>) -> Map<u128, T>
    decreases found.len(),
{
    if found.len() == 0 {
        Map::empty()
    } else {
        found_by_id(found.drop_last()).insert(found.last().0, found.last().1)
    }
}

/// The answer of a batch: each record found under its id, and a not-found error for each
/// requested id without a record.
pub open spec fn batch_answer<T>(ids: Seq<u128>, found: Seq<(u128, T)>) -> Map<u128, Result<T, LoadError>> {
    let by_id = found_by_id(found);
    Map::new(
        |k: u128| by_id.contains_key(k) || ids.contains(k),
        |k: u128|
            if by_id.contains_key(k) {
                Ok(by_id[k])
            } else {
                Err(LoadError::NotFound(k))
            },
    )
}

/// Answers a batch request for `ids` from the records the database returned.
pub fn assemble_batch<T>(ids: &[u128], found: Vec<(u128, T)>) -> (answer: HashMap<u128, Result<T, LoadError>>)
    ensures
        answer@ == batch_answer(ids@, found@),
{
    let ghost all = found@;
    proof {
        lemma_found_keys(all);
    }
    let mut rest = found;
    let mut answer: HashMap<u128, Result<T, LoadError>> = HashMap::new();
    while rest.len() > 0
        invariant
            rest@ == all.take(rest@.len() as int),
            rest@.len() <= all.len(),
            forall|k: u128| #[trigger]
                answer@.contains_key(k) <==> exists|j: int|
                    rest@.len() <= j < all.len() && (#[trigger] all[j]).0 == k,
            forall|k: u128| #[trigger]
                answer@.contains_key(k) ==> answer@[k] == Ok::<T, LoadError>(found_by_id(all)[k]),
        decreases rest@.len(),
    {
        let ghost before = rest@;
        let ghost old_answer = answer@;
        let (id, record) = rest.pop().unwrap();
        let ghost n = rest@.len() as int;
        assert(all[n] == (id, record));
        if !answer.contains_key(&id) {
            proof {
                assert forall|j: int| n < j < all.len() implies (#[trigger] all[j]).0 != id by {
                    if all[j].0 == id {
                        assert(old_answer.contains_key(id));
                    }
                }
                lemma_found_last(all, n);
            }
            answer.insert(id, Ok(record));
        }
        assert forall|k: u128| #[trigger] answer@.contains_key(k) <==> exists|j: int|
            n <= j < all.len() && (#[trigger] all[j]).0 == k by {
            if answer@.contains_key(k) && k == id {
                assert(all[n].0 == k);
            }
            if exists|j: int| n <= j < all.len() && (#[trigger] all[j]).0 == k {
                let j = choose|j: int| n <= j < all.len() && (#[trigger] all[j]).0 == k;
                if j > n {
                    assert(old_answer.contains_key(k));
                }
            }
        }
    }
    assert forall|k: u128| #[trigger] answer@.contains_key(k) <==> found_by_id(all).contains_key(k) by {
        if found_by_id(all).contains_key(k) {
            let j = choose|j: int| 0 <= j < all.len() && (#[trigger] all[j]).0 == k;
            assert(0 <= j < all.len() && all[j].0 == k);
        }
    }
    let mut i: usize = 0;
    while i < ids.len()
        invariant
            i <= ids@.len(),
            forall|k: u128| #[trigger]
                answer@.contains_key(k) <==> (found_by_id(all).contains_key(k) || ids@.take(
                    i as int,
                ).contains(k)),
            forall|k: u128| #[trigger]
                answer@.contains_key(k) ==> answer@[k] == (if found_by_id(all).contains_key(k) {
                    Ok::<T, LoadError>(found_by_id(all)[k])
                } else {
                    Err(LoadError::NotFound(k))
                }),
        decreases ids@.len() - i,
    {
        let id = ids[i];
        let ghost old_answer = answer@;
        if !answer.contains_key(&id) {
            answer.insert(id, Err(LoadError::NotFound(id)));
        }
        proof {
            let next = ids@.take(i + 1);
            let prev = ids@.take(i as int);
            assert(next =~= prev.push(id));
            assert forall|k: u128| next.contains(k) <==> (prev.contains(k) || k == id) by {
                if next.contains(k) {
                    let j = choose|j: int| 0 <= j < next.len() && next[j] == k;
                    if j < prev.len() {
                        assert(prev[j] == k);
                    }
                }
                if prev.contains(k) {
                    let j = choose|j: int| 0 <= j < prev.len() && prev[j] == k;
                    assert(next[j] == k);
                }
                if k == id {
                    assert(next[i as int] == k);
                }
            }
        }
        i = i + 1;
    }
    assert(ids@.take(i as int) =~= ids@);
    assert(answer@ =~= batch_answer(ids@, all));
    answer
}

/// The ids in the table of records are exactly the ids of the records.
proof fn lemma_found_keys<T>(found: Seq<(u128, T)>)
    ensures
        forall|k: u128|
            #[trigger] found_by_id(found).contains_key(k) <==> exists|j: int|
                0 <= j < found.len() && (#[trigger] found[j]).0 == k,
    decreases found.len(),
{
    if found.len() > 0 {
        let rest = found.drop_last();
        lemma_found_keys(rest);
        assert forall|k: u128|
            #[trigger] found_by_id(found).contains_key(k) <==> exists|j: int|
                0 <= j < found.len() && (#[trigger] found[j]).0 == k by {
            let last = found.len() - 1;
            if found_by_id(found).contains_key(k) {
                if k == found[last].0 {
                    assert(0 <= last < found.len() && found[last].0 == k);
                } else {
                    assert(found_by_id(rest).contains_key(k));
                    let j = choose|j: int| 0 <= j < rest.len() && (#[trigger] rest[j]).0 == k;
                    assert(found[j] == rest[j]);
                }
            }
            if exists|j: int| 0 <= j < found.len() && (#[trigger] found[j]).0 == k {
                let j = choose|j: int| 0 <= j < found.len() && (#[trigger] found[j]).0 == k;
                if j < last {
                    assert(rest[j] == found[j]);
                    assert(found_by_id(rest).contains_key(k));
                }
            }
        }
    }
}

/// A record whose id no later record has is the one its id maps to.
proof fn lemma_found_last<T>(found: Seq<(u128, T)>, j: int)
    requires
        0 <= j < found.len(),
        forall|i: int| j < i < found.len() ==> (#[trigger] found[i]).0 != found[j].0,
    ensures
        found_by_id(found).contains_key(found[j].0),
        found_by_id(found)[found[j].0] == found[j].1,
    decreases found.len(),
{
    let last = found.len() - 1;
    if j < last {
        let rest = found.drop_last();
        assert forall|i: int| j < i < rest.len() implies (#[trigger] rest[i]).0 != rest[j].0 by {
            assert(rest[i] == found[i]);
        }
        lemma_found_last(rest, j);
        assert(found[last].0 != found[j].0);
    }
}

/// Every requested id gets an answer: its record if one was found, a not-found error
/// otherwise.
pub proof fn lemma_every_id_is_answered<T>(ids: Seq<u128>, found: Seq<(u128, T)>, i: int)
    requires
        0 <= i < ids.len(),
    ensures
        batch_answer(ids, found).contains_key(ids[i]),
        found_by_id(found).contains_key(ids[i]) ==> batch_answer(ids, found)[ids[i]] == Ok::<
            T,
            LoadError,
        >(found_by_id(found)[ids[i]]),
        !found_by_id(found).contains_key(ids[i]) ==> batch_answer(ids, found)[ids[i]] == Err::<
            T,
            LoadError,
        >(LoadError::NotFound(ids[i])),
{
    assert(ids.contains(ids[i]));
}

} // verus!
