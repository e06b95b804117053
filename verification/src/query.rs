//! Exact-revision logical queries over a world snapshot.
//!
//! A query names the revision it reads, optionally selects entities by
//! identity and components by kind (an empty selection selects everything),
//! and bounds the number of entities returned: a larger match fails instead
//! of being truncated.

use crate::executor::{count, spec_count};
use crate::gateway::GatewayError;
use vstd::prelude::*;

verus! {

/// Whether `id` is selected by `requested`: everything is selected by an
/// empty selection.
pub open spec fn is_selected(id: u128, requested: Seq<u128>) -> bool {
    requested.len() == 0 || requested.contains(id)
}

/// The positions in `ids` of the selected identities, in order.
pub open spec fn selection(ids: Seq<u128>, requested: Seq<u128>) -> Seq<int>
    decreases ids.len(),
{
    if ids.len() == 0 {
        Seq::empty()
    } else {
        let rest = selection(ids.drop_last(), requested);
        if is_selected(ids.last(), requested) {
            rest.push(ids.len() - 1)
        } else {
            rest
        }
    }
}

/// A query keeps exactly the selected entities, in snapshot order: every
/// position it returns is in range and selected, positions strictly
/// increase, and every selected entity is returned.
pub proof fn lemma_selection_is_ordered_and_complete(ids: Seq<u128>, requested: Seq<u128>)
    ensures
        forall|k: int|
            0 <= k < selection(ids, requested).len() ==> {
                let p = #[trigger] selection(ids, requested)[k];
                0 <= p < ids.len() && is_selected(ids[p], requested)
            },
        forall|a: int, b: int|
            0 <= a < b < selection(ids, requested).len() ==> #[trigger] selection(ids, requested)[a]
                < #[trigger] selection(ids, requested)[b],
        forall|i: int|
            0 <= i < ids.len() && is_selected(#[trigger] ids[i], requested) ==> selection(
                ids,
                requested,
            ).contains(i),
    decreases ids.len(),
{
    if ids.len() > 0 {
        let prefix = ids.drop_last();
        lemma_selection_is_ordered_and_complete(prefix, requested);
        let rest = selection(prefix, requested);
        let all = selection(ids, requested);
        assert forall|k: int| 0 <= k < rest.len() implies all[k] == rest[k] by {}
        assert forall|k: int| 0 <= k < all.len() implies {
            let p = #[trigger] all[k];
            0 <= p < ids.len() && is_selected(ids[p], requested)
        } by {
            if k < rest.len() {
                assert(prefix[rest[k]] == ids[rest[k]]);
            }
        }
        assert forall|i: int| 0 <= i < ids.len() && is_selected(#[trigger] ids[i], requested) implies all.contains(
            i,
        ) by {
            if i < ids.len() - 1 {
                assert(prefix[i] == ids[i]);
                assert(rest.contains(i));
                let k = choose|k: int| 0 <= k < rest.len() && rest[k] == i;
                assert(all[k] == i);
            } else {
                assert(all[all.len() - 1] == i);
            }
        }
    }
}

fn contains_id(requested: &[u128], id: u128) -> (found: bool)
    ensures
        found == requested@.contains(id),
{
    let mut i: usize = 0;
    while i < requested.len()
        invariant
            i <= requested@.len(),
            forall|j: int| 0 <= j < i ==> requested@[j] != id,
        decreases requested@.len() - i,
    {
        if requested[i] == id {
            assert(requested@[i as int] == id);
            return true;
        }
        i = i + 1;
    }
    false
}

/// Returns the positions in `ids` of the identities `requested` selects, in order.
pub fn select_positions(ids: &[u128], requested: &[u128]) -> (positions: Vec<usize>)
    ensures
        positions@.len() == selection(ids@, requested@).len(),
        forall|k: int|
            0 <= k < positions@.len() ==> positions@[k] as int == selection(ids@, requested@)[k],
{
    let mut positions: Vec<usize> = Vec::new();
    let mut i: usize = 0;
    while i < ids.len()
        invariant
            i <= ids@.len(),
            positions@.len() == selection(ids@.subrange(0, i as int), requested@).len(),
            forall|k: int|
                0 <= k < positions@.len() ==> positions@[k] as int == selection(
                    ids@.subrange(0, i as int),
                    requested@,
                )[k],
        decreases ids@.len() - i,
    {
        let ghost next = ids@.subrange(0, i + 1);
        assert(next.drop_last() =~= ids@.subrange(0, i as int));
        assert(next.last() == ids@[i as int]);
        let selected = requested.len() == 0 || contains_id(requested, ids[i]);
        if selected {
            positions.push(i);
        }
        i = i + 1;
    }
    assert(ids@.subrange(0, ids@.len() as int) =~= ids@);
    positions
}

/// What planning a query over a snapshot gives, checked in order: the exact
/// revision, then the result limit against the number of selected entities.
/// On success, the positions of the selected entities.
pub open spec fn spec_query_plan(
    snapshot_revision: u64,
    entity_ids: Seq<u128>,
    query_revision: u64,
    requested: Seq<u128>,
    limit: u32,
) -> Result<Seq<int>, GatewayError> {
    let matched = selection(entity_ids, requested);
    if query_revision != snapshot_revision {
        Err(GatewayError::QueryRevisionMismatch { requested: query_revision, actual: snapshot_revision })
    } else if spec_count(matched.len()) > limit {
        Err(GatewayError::QueryResultCapacityExceeded { actual: spec_count(matched.len()), limit })
    } else {
        Ok(matched)
    }
}

/// Plans a query over a snapshot whose entities have identities
/// `entity_ids`, in snapshot order; returns the positions of the entities
/// the result holds.
pub fn plan_query(
    snapshot_revision: u64,
    entity_ids: &[u128],
    query_revision: u64,
    requested: &[u128],
    limit: u32,
) -> (plan: Result<Vec<usize>, GatewayError>)
    ensures
        match spec_query_plan(snapshot_revision, entity_ids@, query_revision, requested@, limit) {
            Err(e) => plan == Err::<Vec<usize>, GatewayError>(e),
            Ok(positions) => plan is Ok && plan->Ok_0@.len() == positions.len() && forall|k: int|
                0 <= k < positions.len() ==> plan->Ok_0@[k] as int == positions[k],
        },
{
    if query_revision != snapshot_revision {
        return Err(
            GatewayError::QueryRevisionMismatch { requested: query_revision, actual: snapshot_revision },
        );
    }
    let positions = select_positions(entity_ids, requested);
    let matched = count(positions.len());
    if matched > limit {
        return Err(GatewayError::QueryResultCapacityExceeded { actual: matched, limit });
    }
    Ok(positions)
}


/// Returns the positions of one returned entity's components that the query
/// keeps: those whose kind identity is among `requested_kinds`, in component
/// order; an empty request keeps every component.
pub fn select_components(component_kinds: &[u128], requested_kinds: &[u128]) -> (positions: Vec<
    usize,
>)
    ensures
        positions@.len() == selection(component_kinds@, requested_kinds@).len(),
        forall|k: int|
            0 <= k < positions@.len() ==> positions@[k] as int == selection(
                component_kinds@,
                requested_kinds@,
            )[k],
{
    select_positions(component_kinds, requested_kinds)
}

} // verus!
