//! Frame extraction: from the polylines of the simulation world to the
//! per-entity render data of one frame.
//!
//! The host reads its world into a slice of sources and inserts what comes
//! back into the render world. Extraction itself keeps no state between
//! frames but a capacity hint, so nothing of an earlier frame can survive.

use crate::host::transform_matrix;
use crate::polyline::PolylineUniform;
use bevy::asset::HandleId;
use bevy::ecs::entity::Entity;
use bevy::transform::components::GlobalTransform;
use vstd::prelude::*;

verus! {

/// What the host reads of one polyline entity of the simulation world.
#[derive(Clone, Copy, Debug)]
pub struct PolylineSource {
    pub entity: Entity,
    /// The computed visibility, after culling.
    pub visible: bool,
    pub transform: GlobalTransform,
    /// The identity of the entity's polyline asset.
    pub handle: HandleId,
}

/// The render data of one visible polyline entity.
#[derive(Clone, Copy)]
pub struct ExtractedPolyline {
    /// The same identity as in the simulation world.
    pub entity: Entity,
    /// A non-owning reference to the polyline asset.
    pub handle: HandleId,
    pub uniform: PolylineUniform,
}

/// The render data of `source`: its entity and asset, and its transform as a matrix.
pub open spec fn extract_one(source: PolylineSource) -> ExtractedPolyline {
    ExtractedPolyline {
        entity: source.entity,
        handle: source.handle,
        uniform: PolylineUniform { transform: transform_matrix(source.transform) },
    }
}

pub open spec fn is_visible() -> spec_fn(PolylineSource) -> bool {
    |source: PolylineSource| source.visible
}

/// The frame's render data: that of the visible sources, in the order of the query.
pub open spec fn extracted(query: Seq<PolylineSource>) -> Seq<ExtractedPolyline> {
    query.filter(is_visible()).map_values(|source: PolylineSource| extract_one(source))
}

/// `value` is the render data of a visible source of `query`.
pub open spec fn from_visible_source(query: Seq<PolylineSource>, value: ExtractedPolyline) -> bool {
    exists|j: int| 0 <= j < query.len() && query[j].visible && extract_one(query[j]) == value
}

/// No two sources of `query` have the same entity.
pub open spec fn entities_distinct(query: Seq<PolylineSource>) -> bool {
    forall|i: int, j: int|
        0 <= i < query.len() && 0 <= j < query.len() && i != j ==> query[i].entity
            != query[j].entity
}

/// Scans the query and returns the render data of the visible polylines, in
/// order. `previous_len` sizes the result on entry, as a hint that changes
/// nothing of it, and holds the result's length on return.
pub fn extract_polylines(query: &[PolylineSource], previous_len: &mut usize) -> (values: Vec<
    ExtractedPolyline,
>)
    ensures
        values@ == extracted(query@),
        *final(previous_len) == values@.len(),
{
    let capacity: usize = if *previous_len < query.len() {
        *previous_len
    } else {
        query.len()
    };
    let mut values: Vec<ExtractedPolyline> = Vec::with_capacity(capacity);
    let mut i: usize = 0;
    proof {
        assert(query@.take(0) =~= Seq::empty());
        lemma_extracted_empty();
    }
    while i < query.len()
        invariant
            i <= query.len(),
            values@ == extracted(query@.take(i as int)),
        decreases query.len() - i,
    {
        let source = &query[i];
        if source.visible {
            let transform = source.transform.compute_matrix();
            values.push(
                ExtractedPolyline {
                    entity: source.entity,
                    handle: source.handle,
                    uniform: PolylineUniform { transform },
                },
            );
        }
        proof {
            assert(query@.take(i + 1) =~= query@.take(i as int).push(query@[i as int]));
            lemma_extracted_push(query@.take(i as int), query@[i as int]);
        }
        i = i + 1;
    }
    assert(query@.take(query.len() as int) =~= query@);
    *previous_len = values.len();
    values
}

/// An empty query extracts nothing.
pub proof fn lemma_extracted_empty()
    ensures
        extracted(Seq::empty()) == Seq::<ExtractedPolyline>::empty(),
{
    Seq::<PolylineSource>::empty().lemma_filter_len(is_visible());
    assert(extracted(Seq::empty()) =~= Seq::<ExtractedPolyline>::empty());
}

/// A source at the end of the query adds its render data at the end of the
/// result if it is visible, and nothing if it is not.
pub proof fn lemma_extracted_push(query: Seq<PolylineSource>, source: PolylineSource)
    ensures
        extracted(query.push(source)) == if source.visible {
            extracted(query).push(extract_one(source))
        } else {
            extracted(query)
        },
{
    query.lemma_filter_push(source, is_visible());
    if source.visible {
        assert(extracted(query.push(source)) =~= extracted(query).push(extract_one(source)));
    }
}

/// Extraction is a function of the query alone: two runs on the same sources
/// give the same render data, whatever the capacity hints were.
pub proof fn lemma_extraction_deterministic(
    query_a: Seq<PolylineSource>,
    query_b: Seq<PolylineSource>,
    values_a: Seq<ExtractedPolyline>,
    values_b: Seq<ExtractedPolyline>,
)
    requires
        query_a == query_b,
        values_a == extracted(query_a),
        values_b == extracted(query_b),
    ensures
        values_a == values_b,
{
}

/// The result holds the render data of every visible source and of nothing
/// else, and is no longer than the query.
pub proof fn lemma_extracted_exactly_visible(query: Seq<PolylineSource>)
    ensures
        extracted(query).len() <= query.len(),
        forall|i: int|
            0 <= i < extracted(query).len() ==> from_visible_source(
                query,
                #[trigger] extracted(query)[i],
            ),
        forall|j: int|
            0 <= j < query.len() && (#[trigger] query[j]).visible ==> extracted(query).contains(
                extract_one(query[j]),
            ),
    decreases query.len(),
{
    if query.len() == 0 {
        assert(query =~= Seq::empty());
        lemma_extracted_empty();
    } else {
        let rest = query.drop_last();
        let last = query.last();
        assert(query =~= rest.push(last));
        lemma_extracted_exactly_visible(rest);
        lemma_extracted_push(rest, last);
        let before = extracted(rest);
        let after = extracted(query);
        assert forall|i: int| 0 <= i < after.len() implies from_visible_source(
            query,
            #[trigger] after[i],
        ) by {
            if i < before.len() {
                assert(after[i] == before[i]);
                assert(from_visible_source(rest, before[i]));
                let j = choose|j: int|
                    0 <= j < rest.len() && rest[j].visible && extract_one(rest[j]) == before[i];
                assert(query[j] == rest[j]);
            } else {
                assert(last.visible && after[i] == extract_one(last));
                assert(query[query.len() - 1] == last);
            }
        }
        assert forall|j: int| 0 <= j < query.len() && (#[trigger] query[j]).visible implies after.contains(
            extract_one(query[j]),
        ) by {
            if j < rest.len() {
                assert(query[j] == rest[j]);
                assert(before.contains(extract_one(rest[j])));
                let i = choose|i: int| 0 <= i < before.len() && before[i] == extract_one(rest[j]);
                assert(after[i] == before[i]);
            } else {
                assert(after[after.len() - 1] == extract_one(last));
            }
        }
    }
}

/// An entity that is hidden in this frame, in every source that names it, has
/// no render data in this frame's result. What an earlier frame extracted
/// plays no part: the result is made of this frame's query alone.
pub proof fn lemma_hidden_entity_is_not_extracted(query: Seq<PolylineSource>, entity: Entity)
    requires
        forall|j: int|
            0 <= j < query.len() && (#[trigger] query[j]).entity == entity ==> !query[j].visible,
    ensures
        forall|i: int|
            0 <= i < extracted(query).len() ==> (#[trigger] extracted(query)[i]).entity != entity,
{
    lemma_extracted_exactly_visible(query);
    assert forall|i: int| 0 <= i < extracted(query).len() implies (#[trigger] extracted(
        query,
    )[i]).entity != entity by {
        let value = extracted(query)[i];
        assert(from_visible_source(query, value));
        let j = choose|j: int|
            0 <= j < query.len() && query[j].visible && extract_one(query[j]) == value;
        assert(query[j].entity == value.entity);
    }
}

/// Where no entity occurs twice in the query, none occurs twice in the result:
/// a visible entity has exactly one uniform in the frame.
pub proof fn lemma_extracted_entities_distinct(query: Seq<PolylineSource>)
    requires
        entities_distinct(query),
    ensures
        forall|i: int, j: int|
            0 <= i < extracted(query).len() && 0 <= j < extracted(query).len() && i != j ==> (
            #[trigger] extracted(query)[i]).entity != (#[trigger] extracted(query)[j]).entity,
    decreases query.len(),
{
    if query.len() == 0 {
        assert(query =~= Seq::empty());
        lemma_extracted_empty();
    } else {
        let rest = query.drop_last();
        let last = query.last();
        assert(query =~= rest.push(last));
        assert(entities_distinct(rest)) by {
            assert forall|i: int, j: int|
                0 <= i < rest.len() && 0 <= j < rest.len() && i != j implies rest[i].entity
                != rest[j].entity by {
                assert(rest[i] == query[i] && rest[j] == query[j]);
            }
        }
        lemma_extracted_entities_distinct(rest);
        lemma_extracted_push(rest, last);
        if last.visible {
            assert forall|j: int| 0 <= j < rest.len() && (#[trigger] rest[j]).entity
                == last.entity implies !rest[j].visible by {
                assert(rest[j] == query[j]);
                assert(query[query.len() - 1] == last);
            }
            lemma_hidden_entity_is_not_extracted(rest, last.entity);
        }
    }
}

/// An entity has as many uniforms in the result as it has visible sources in
/// the query: one where the query names it once and it is visible, none where
/// it is hidden.
pub proof fn lemma_one_uniform_for_each_visible_source(query: Seq<PolylineSource>, entity: Entity)
    ensures
        extracted(query).filter(|value: ExtractedPolyline| value.entity == entity).len()
            == query.filter(|source: PolylineSource| source.visible && source.entity == entity).len(),
    decreases query.len(),
{
    let of_entity = |value: ExtractedPolyline| value.entity == entity;
    let visible_of_entity = |source: PolylineSource| source.visible && source.entity == entity;
    if query.len() == 0 {
        assert(query =~= Seq::empty());
        lemma_extracted_empty();
        Seq::<ExtractedPolyline>::empty().lemma_filter_len(of_entity);
        Seq::<PolylineSource>::empty().lemma_filter_len(visible_of_entity);
    } else {
        let rest = query.drop_last();
        let last = query.last();
        assert(query =~= rest.push(last));
        lemma_one_uniform_for_each_visible_source(rest, entity);
        lemma_extracted_push(rest, last);
        rest.lemma_filter_push(last, visible_of_entity);
        if last.visible {
            extracted(rest).lemma_filter_push(extract_one(last), of_entity);
        }
    }
}

} // verus!
