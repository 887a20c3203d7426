//! The matching circuit: for each query value, a flag that says whether the value
//! occurs anywhere in the registry. Every (query, registry) pair is compared and
//! the flag is updated by a select, never by an early exit.

use vstd::prelude::*;

verus! {

/// Number of query values in one batch.
pub const QUERY_BATCH: usize = 4;

/// 1 when `value` occurs in `registry`, 0 otherwise.
pub open spec fn match_flag(value: u64, registry: Seq<u64>) -> u64 {
    if registry.contains(value) {
        1
    } else {
        0
    }
}

/// The mask of a query sequence against a registry: one flag per query value, in
/// query order.
pub open spec fn match_mask(queries: Seq<u64>, registry: Seq<u64>) -> Seq<u64> {
    queries.map_values(|q: u64| match_flag(q, registry))
}

/// A batch of query values of one requesting party.
pub struct UserContacts {
    pub queries: [u64; 4],
}

/// The registry values that a batch is compared against.
pub struct GlobalRegistry {
    pub registered_users: [u64; 4],
}

/// One flag per query value, in the order of `UserContacts::queries`:
/// 1 when the value is registered, 0 when it is not.
pub struct IntersectionResult {
    pub matches: [u64; 4],
}

/// The flag of one value: a select over every registry entry, with no exit
/// before the last comparison.
fn flag_of(value: u64, registry: &[u64]) -> (found: u64)
    ensures
        found == match_flag(value, registry@),
{
    let mut found: u64 = 0;
    let mut j: usize = 0;
    while j < registry.len()
        invariant
            0 <= j <= registry@.len(),
            found == match_flag(value, registry@.subrange(0, j as int)),
        decreases registry@.len() - j,
    {
        let is_match = registry[j] == value;
        found = if is_match { 1 } else { found };
        proof {
            let before = registry@.subrange(0, j as int);
            let after = registry@.subrange(0, j + 1);
            assert(after == before.push(registry@[j as int]));
            if before.contains(value) {
                let k = choose|k: int| 0 <= k < before.len() && before[k] == value;
                assert(after[k] == value);
            }
            if after.contains(value) && !is_match {
                let k = choose|k: int| 0 <= k < after.len() && after[k] == value;
                assert(before[k] == value);
            }
            if is_match {
                assert(after[j as int] == value);
            }
        }
        j = j + 1;
    }
    assert(registry@.subrange(0, registry@.len() as int) == registry@);
    found
}

/// The match mask of any number of query values against any number of registry
/// values. An empty registry gives a mask of zeros.
pub fn compute_match_mask(queries: &[u64], registry: &[u64]) -> (mask: Vec<u64>)
    ensures
        mask@ == match_mask(queries@, registry@),
        mask@.len() == queries@.len(),
        forall|i: int|
            0 <= i < queries@.len() ==> (#[trigger] mask@[i] == 1 <==> exists|j: int|
                0 <= j < registry@.len() && registry@[j] == queries@[i]),
        forall|i: int| 0 <= i < queries@.len() ==> #[trigger] mask@[i] == 0 || mask@[i] == 1,
{
    let mut mask: Vec<u64> = Vec::new();
    let mut i: usize = 0;
    while i < queries.len()
        invariant
            0 <= i <= queries@.len(),
            mask@ == match_mask(queries@.subrange(0, i as int), registry@),
        decreases queries@.len() - i,
    {
        let found = flag_of(queries[i], registry);
        mask.push(found);
        proof {
            assert(queries@.subrange(0, i + 1) == queries@.subrange(0, i as int).push(
                queries@[i as int],
            ));
        }
        i = i + 1;
        assert(mask@ =~= match_mask(queries@.subrange(0, i as int), registry@));
    }
    assert(queries@.subrange(0, queries@.len() as int) == queries@);
    mask
}

/// Compares every query value of `user` with every registry value and returns
/// the match flags in query order.
pub fn perform_psi(user: &UserContacts, registry: &GlobalRegistry) -> (result:
    IntersectionResult)
    ensures
        result.matches@ == match_mask(user.queries@, registry.registered_users@),
{
    let mut results: [u64; 4] = [0u64; 4];
    let mut i: usize = 0;
    while i < QUERY_BATCH
        invariant
            0 <= i <= 4,
            results@.len() == 4,
            forall|k: int|
                0 <= k < i ==> results@[k] == match_flag(
                    #[trigger] user.queries@[k],
                    registry.registered_users@,
                ),
        decreases 4 - i,
    {
        let found = flag_of(user.queries[i], registry.registered_users.as_slice());
        results[i] = found;
        i = i + 1;
    }
    let result = IntersectionResult { matches: results };
    assert(result.matches@ =~= match_mask(user.queries@, registry.registered_users@));
    result
}

/// The mask depends only on which values the registry holds: any permutation of
/// the registry gives the same mask.
pub proof fn lemma_mask_ignores_registry_order(
    queries: Seq<u64>,
    registry: Seq<u64>,
    permuted: Seq<u64>,
)
    requires
        registry.to_multiset() == permuted.to_multiset(),
    ensures
        match_mask(queries, registry) == match_mask(queries, permuted),
{
    broadcast use vstd::seq_lib::group_to_multiset_ensures;

    assert forall|v: u64| registry.contains(v) <==> permuted.contains(v) by {
        assert(registry.contains(v) <==> registry.to_multiset().count(v) > 0);
        assert(permuted.contains(v) <==> permuted.to_multiset().count(v) > 0);
    }
    assert(match_mask(queries, registry) =~= match_mask(queries, permuted));
}

/// Equal query values get equal flags, wherever they stand in the batch.
pub proof fn lemma_equal_queries_equal_flags(
    queries: Seq<u64>,
    registry: Seq<u64>,
    i: int,
    k: int,
)
    requires
        0 <= i < queries.len(),
        0 <= k < queries.len(),
        queries[i] == queries[k],
    ensures
        match_mask(queries, registry)[i] == match_mask(queries, registry)[k],
{
}

} // verus!
