//! Bounded settings and the step checks of the canonical room, table, light,
//! and camera scenario.
//!
//! The scenario drives a local service; what it decides about each service
//! result (receipts, observation pixels, visibility summaries) is held here as
//! plain-value checks.

use vstd::prelude::*;

verus! {

/// Upper bound on the per-observation polling timeout: one minute.
pub const MAX_OBSERVATION_TIMEOUT_NANOS: u128 = 60_000_000_000;

/// Expected center pixel of the moved and restyled table under the canonical
/// point light.
pub const EXPECTED_TABLE_COLOR: [u8; 4] = [55, 30, 11, 255];

/// Stable identity of the canonical room.
pub const ROOM_ID: u128 = 0x100;

/// Stable identity of the canonical table.
pub const TABLE_ID: u128 = 0x200;

/// Stable identity of the canonical point light.
pub const LIGHT_ID: u128 = 0x300;

/// Stable identity of the canonical camera.
pub const CAMERA_ID: u128 = 0x400;

/// Largest per-channel difference tolerated in the table's center pixel.
pub const COLOR_TOLERANCE: u8 = 2;

/// Bounded execution settings for the canonical unattended scenario.
#[derive(Debug, Clone, Copy, PartialEq, Eq, Structural)]
pub struct CanonicalScenarioConfig {
    /// Maximum time, in nanoseconds, to poll for each admitted observation.
    pub observation_timeout_nanos: u128,
}

impl Default for CanonicalScenarioConfig {
    fn default() -> (config: Self)
        ensures
            config.observation_timeout_nanos == 10_000_000_000,
    {
        CanonicalScenarioConfig { observation_timeout_nanos: 10_000_000_000 }
    }
}

/// Failure to complete or prove one step of the canonical scenario.
#[derive(Debug, Clone, Copy, PartialEq, Eq)]
pub enum CanonicalScenarioError {
    /// The supplied service was not an empty initial world.
    NonEmptyService {
        /// Revision found before the scenario began.
        revision: u64,
    },
    /// The observation timeout was zero or exceeded the scenario bound.
    InvalidObservationTimeout,
    /// A service result or observation violated the canonical scenario contract.
    Contract {
        /// Stable, non-sensitive description of the failed invariant.
        reason: &'static str,
    },
}

/// A contract failure with the given reason.
pub open spec fn contract_failure<T>(reason: &'static str) -> Result<T, CanonicalScenarioError> {
    Err(CanonicalScenarioError::Contract { reason })
}

fn contract<T>(reason: &'static str) -> (result: Result<T, CanonicalScenarioError>)
    ensures
        result == contract_failure::<T>(reason),
{
    Err(CanonicalScenarioError::Contract { reason })
}

/// Accepts exactly the timeouts between one nanosecond and one minute.
pub fn validate_scenario_config(config: CanonicalScenarioConfig) -> (result: Result<
    (),
    CanonicalScenarioError,
>)
    ensures
        result is Ok <==> 0 < config.observation_timeout_nanos <= MAX_OBSERVATION_TIMEOUT_NANOS,
        result is Err ==> result == Err::<(), CanonicalScenarioError>(
            CanonicalScenarioError::InvalidObservationTimeout,
        ),
{
    if config.observation_timeout_nanos == 0 || config.observation_timeout_nanos
        > MAX_OBSERVATION_TIMEOUT_NANOS {
        Err(CanonicalScenarioError::InvalidObservationTimeout)
    } else {
        Ok(())
    }
}

/// Requires the service to start at the initial revision.
pub fn check_starting_revision(revision: u64) -> (result: Result<(), CanonicalScenarioError>)
    ensures
        revision == 0 ==> result == Ok::<(), CanonicalScenarioError>(()),
        revision != 0 ==> result == Err::<(), CanonicalScenarioError>(
            CanonicalScenarioError::NonEmptyService { revision },
        ),
{
    if revision != 0 {
        Err(CanonicalScenarioError::NonEmptyService { revision })
    } else {
        Ok(())
    }
}

/// Requires the four-entity creation to commit revision one from revision zero.
pub fn check_initial_receipt(previous_revision: u64, new_revision: u64) -> (result: Result<
    (),
    CanonicalScenarioError,
>)
    ensures
        result is Ok <==> previous_revision == 0 && new_revision == 1,
        result is Err ==> result == contract_failure::<()>(
            "initial patch did not commit revision 1",
        ),
{
    if previous_revision != 0 || new_revision != 1 {
        contract("initial patch did not commit revision 1")
    } else {
        Ok(())
    }
}

/// Requires the table move and restyle to commit atomically at revision two,
/// directly after the initial revision, with both operations.
pub fn check_update_receipt(
    initial_revision: u64,
    previous_revision: u64,
    new_revision: u64,
    operation_count: u32,
) -> (result: Result<(), CanonicalScenarioError>)
    ensures
        result is Ok <==> previous_revision == initial_revision && new_revision == 2
            && operation_count == 2,
        result is Err ==> result == contract_failure::<()>(
            "table move and restyle did not commit atomically at revision 2",
        ),
{
    if previous_revision != initial_revision || new_revision != 2 || operation_count != 2 {
        contract("table move and restyle did not commit atomically at revision 2")
    } else {
        Ok(())
    }
}

/// Requires observation metadata to echo its request at the exact revision with
/// no staleness.
pub fn check_observation_metadata(
    requested: (u128, u128, u128),
    delivered: (u128, u128, u128),
    expected_revision: u64,
    delivered_revision: u64,
    revisions_behind: u64,
) -> (result: Result<(), CanonicalScenarioError>)
    ensures
        result is Ok <==> requested == delivered && expected_revision == delivered_revision
            && revisions_behind == 0,
        result is Err ==> result == contract_failure::<()>(
            "observation metadata does not match its request and revision",
        ),
{
    if requested.0 != delivered.0 || requested.1 != delivered.1 || requested.2 != delivered.2
        || expected_revision != delivered_revision || revisions_behind != 0 {
        contract("observation metadata does not match its request and revision")
    } else {
        Ok(())
    }
}

/// `a * b`, saturated at `usize::MAX`.
pub open spec fn saturating_mul_usize(a: nat, b: nat) -> nat {
    if a * b > usize::MAX {
        usize::MAX as nat
    } else {
        a * b
    }
}

/// `a + b`, saturated at `usize::MAX`.
pub open spec fn saturating_add_usize(a: nat, b: nat) -> nat {
    if a + b > usize::MAX {
        usize::MAX as nat
    } else {
        a + b
    }
}

/// The row-major index of the center pixel: row `height / 2`, column
/// `width / 2`, with saturating arithmetic.
pub open spec fn spec_center_index(width: u32, height: u32) -> nat {
    saturating_add_usize(saturating_mul_usize((height / 2) as nat, width as nat), (width / 2) as nat)
}

/// Returns the center pixel index of a `width` by `height` image whose payload
/// holds `payload_len` pixels, or a contract failure when the payload length
/// differs from the (saturated) pixel count.
pub fn center_index(width: u32, height: u32, payload_len: usize) -> (result: Result<
    usize,
    CanonicalScenarioError,
>)
    ensures
        payload_len == saturating_mul_usize(width as nat, height as nat) ==> result == Ok::<
            usize,
            CanonicalScenarioError,
        >(spec_center_index(width, height) as usize),
        payload_len != saturating_mul_usize(width as nat, height as nat) ==> result
            == contract_failure::<usize>(
            "observation payload length does not match its dimensions",
        ),
{
    let w: usize = width as usize;
    let h: usize = height as usize;
    let expected: usize = match w.checked_mul(h) {
        Some(product) => product,
        None => usize::MAX,
    };
    if payload_len != expected {
        return contract("observation payload length does not match its dimensions");
    }
    let row: usize = match (h / 2).checked_mul(w) {
        Some(product) => product,
        None => usize::MAX,
    };
    match row.checked_add(w / 2) {
        Some(index) => Ok(index),
        None => Ok(usize::MAX),
    }
}

/// The absolute difference of two bytes.
pub open spec fn byte_distance(a: u8, b: u8) -> int {
    if a >= b {
        a - b
    } else {
        b - a
    }
}

/// Whether every channel of `actual` lies within the tolerance of the
/// expected table color.
pub open spec fn color_matches_table(actual: [u8; 4]) -> bool {
    forall|i: int|
        0 <= i < 4 ==> #[trigger] byte_distance(actual@[i], EXPECTED_TABLE_COLOR@[i])
            <= COLOR_TOLERANCE
}

fn abs_diff(a: u8, b: u8) -> (d: u8)
    ensures
        d == byte_distance(a, b),
{
    if a >= b {
        a - b
    } else {
        b - a
    }
}

/// Requires the table's center color to match the canonical lighting.
pub fn check_center_color(actual: [u8; 4]) -> (result: Result<(), CanonicalScenarioError>)
    ensures
        result is Ok <==> color_matches_table(actual),
        result is Err ==> result == contract_failure::<()>(
            "color observation center pixel violates canonical point lighting",
        ),
{
    let expected: [u8; 4] = EXPECTED_TABLE_COLOR;
    let mut i: usize = 0;
    while i < 4
        invariant
            i <= 4,
            expected == EXPECTED_TABLE_COLOR,
            forall|j: int|
                0 <= j < i ==> #[trigger] byte_distance(actual@[j], EXPECTED_TABLE_COLOR@[j])
                    <= COLOR_TOLERANCE,
        decreases 4 - i,
    {
        if abs_diff(actual[i], expected[i]) > COLOR_TOLERANCE {
            assert(!color_matches_table(actual)) by {
                assert(byte_distance(actual@[i as int], EXPECTED_TABLE_COLOR@[i as int])
                    > COLOR_TOLERANCE);
            }
            return contract("color observation center pixel violates canonical point lighting");
        }
        i = i + 1;
    }
    Ok(())
}

/// Returns the center pixel of a color image, or the contract failure for a
/// missing dimension, a mismatched payload length, or a short payload.
pub fn center_color(dimensions: Option<(u32, u32)>, pixels: &[[u8; 4]]) -> (result: Result<
    [u8; 4],
    CanonicalScenarioError,
>)
    ensures
        dimensions is None ==> result == contract_failure::<[u8; 4]>(
            "color observation has no image dimensions",
        ),
        dimensions matches Some((w, h)) ==> {
            if pixels@.len() != saturating_mul_usize(w as nat, h as nat) {
                result == contract_failure::<[u8; 4]>(
                    "observation payload length does not match its dimensions",
                )
            } else if spec_center_index(w, h) >= pixels@.len() {
                result == contract_failure::<[u8; 4]>(
                    "color observation payload is shorter than its dimensions",
                )
            } else {
                result == Ok::<[u8; 4], CanonicalScenarioError>(
                    pixels@[spec_center_index(w, h) as int],
                )
            }
        },
{
    let (width, height) = match dimensions {
        Some(d) => d,
        None => return contract("color observation has no image dimensions"),
    };
    let index = match center_index(width, height, pixels.len()) {
        Ok(index) => index,
        Err(error) => return Err(error),
    };
    if index < pixels.len() {
        Ok(pixels[index])
    } else {
        contract("color observation payload is shorter than its dimensions")
    }
}

/// Returns the stable entity at the center of an entity-ID image, or the
/// contract failure for a missing dimension, a mismatched payload length, or
/// a background (or absent) center pixel.
pub fn center_entity(dimensions: Option<(u32, u32)>, pixels: &[Option<u128>]) -> (result: Result<
    u128,
    CanonicalScenarioError,
>)
    ensures
        dimensions is None ==> result == contract_failure::<u128>(
            "entity-ID observation has no image dimensions",
        ),
        dimensions matches Some((w, h)) ==> {
            if pixels@.len() != saturating_mul_usize(w as nat, h as nat) {
                result == contract_failure::<u128>(
                    "observation payload length does not match its dimensions",
                )
            } else if spec_center_index(w, h) < pixels@.len() && pixels@[spec_center_index(
                w,
                h,
            ) as int] is Some {
                result == Ok::<u128, CanonicalScenarioError>(
                    pixels@[spec_center_index(w, h) as int]->0,
                )
            } else {
                result == contract_failure::<u128>(
                    "entity-ID observation center pixel is background",
                )
            }
        },
{
    let (width, height) = match dimensions {
        Some(d) => d,
        None => return contract("entity-ID observation has no image dimensions"),
    };
    let index = match center_index(width, height, pixels.len()) {
        Ok(index) => index,
        Err(error) => return Err(error),
    };
    if index < pixels.len() {
        if let Some(entity) = pixels[index] {
            return Ok(entity);
        }
    }
    contract("entity-ID observation center pixel is background")
}

/// Requires the entity at the center of the image to be the table.
pub fn check_center_entity(center: u128, table_id: u128) -> (result: Result<
    (),
    CanonicalScenarioError,
>)
    ensures
        result is Ok <==> center == table_id,
        result is Err ==> result == contract_failure::<()>(
            "entity-ID observation center pixel is not the table",
        ),
{
    if center != table_id {
        contract("entity-ID observation center pixel is not the table")
    } else {
        Ok(())
    }
}

/// The position of the first summary entry for `entity`, if any.
pub open spec fn first_entry_of(entities: Seq<(u128, u64)>, entity: u128) -> Option<int> {
    if exists|i: int| 0 <= i < entities.len() && entities[i].0 == entity {
        Some(
            choose|i: int|
                0 <= i < entities.len() && entities[i].0 == entity && forall|j: int|
                    0 <= j < i ==> entities[j].0 != entity,
        )
    } else {
        None
    }
}

proof fn lemma_first_entry_is_unique(entities: Seq<(u128, u64)>, entity: u128, i: int)
    requires
        0 <= i < entities.len(),
        entities[i].0 == entity,
        forall|j: int| 0 <= j < i ==> entities[j].0 != entity,
    ensures
        first_entry_of(entities, entity) == Some(i),
{
    let k = choose|k: int|
        0 <= k < entities.len() && entities[k].0 == entity && forall|j: int|
            0 <= j < k ==> entities[j].0 != entity;
    assert(0 <= k < entities.len() && entities[k].0 == entity && forall|j: int|
        0 <= j < k ==> entities[j].0 != entity);
    if k < i {
        assert(entities[k].0 != entity);
    }
    if i < k {
        assert(entities[i].0 != entity);
    }
}

/// Returns the table's visible pixel count from a visibility summary of
/// `(entity, visible pixels)` pairs: the first entry for the table, which must
/// exist and be non-zero.
pub fn table_visibility(entities: &[(u128, u64)], table_id: u128) -> (result: Result<
    u64,
    CanonicalScenarioError,
>)
    ensures
        first_entry_of(entities@, table_id) is None ==> result == contract_failure::<u64>(
            "visibility summary does not contain the table",
        ),
        first_entry_of(entities@, table_id) matches Some(i) ==> {
            if entities@[i].1 == 0 {
                result == contract_failure::<u64>("visibility summary reports zero table pixels")
            } else {
                result == Ok::<u64, CanonicalScenarioError>(entities@[i].1)
            }
        },
{
    let mut i: usize = 0;
    while i < entities.len()
        invariant
            i <= entities@.len(),
            forall|j: int| 0 <= j < i ==> entities@[j].0 != table_id,
        decreases entities@.len() - i,
    {
        if entities[i].0 == table_id {
            proof {
                lemma_first_entry_is_unique(entities@, table_id, i as int);
            }
            let visible = entities[i].1;
            if visible == 0 {
                return contract("visibility summary reports zero table pixels");
            }
            return Ok(visible);
        }
        i = i + 1;
    }
    contract("visibility summary does not contain the table")
}


/// The canonical entity identities in the order an exact-revision query
/// returns them.
pub open spec fn canonical_entity_ids() -> Seq<u128> {
    seq![ROOM_ID, TABLE_ID, LIGHT_ID, CAMERA_ID]
}

/// The position of the first identity equal to `id`, if any.
pub open spec fn first_index_of(ids: Seq<u128>, id: u128) -> Option<int> {
    if exists|i: int| 0 <= i < ids.len() && ids[i] == id {
        Some(
            choose|i: int|
                0 <= i < ids.len() && ids[i] == id && forall|j: int| 0 <= j < i ==> ids[j] != id,
        )
    } else {
        None
    }
}

proof fn lemma_first_index_is_unique(ids: Seq<u128>, id: u128, i: int)
    requires
        0 <= i < ids.len(),
        ids[i] == id,
        forall|j: int| 0 <= j < i ==> ids[j] != id,
    ensures
        first_index_of(ids, id) == Some(i),
{
    let k = choose|k: int|
        0 <= k < ids.len() && ids[k] == id && forall|j: int| 0 <= j < k ==> ids[j] != id;
    assert(0 <= k < ids.len() && ids[k] == id && forall|j: int| 0 <= j < k ==> ids[j] != id);
    if k < i {
        assert(ids[k] != id);
    }
    if i < k {
        assert(ids[i] != id);
    }
}

/// What checking an exact-revision query result gives.
pub open spec fn spec_query_check(ids: Seq<u128>, restyled: Seq<bool>, table_id: u128) -> Result<
    u32,
    CanonicalScenarioError,
> {
    if ids.len() != 4 {
        contract_failure("exact-revision query did not return all four canonical entities")
    } else if ids != canonical_entity_ids() {
        contract_failure("exact-revision query returned unexpected canonical identities")
    } else {
        match first_index_of(ids, table_id) {
            None => contract_failure("exact-revision query did not return the table"),
            Some(i) => if restyled[i] {
                Ok(4)
            } else {
                contract_failure("exact-revision query did not return the moved and restyled table")
            },
        }
    }
}

/// Checks an exact-revision query of the whole scene: the entity identities
/// it returned, in order, and for each whether it carries the moved
/// transform and the restyled material. All four canonical entities must
/// come back in their canonical order, and the first one that is the table
/// must be restyled; the result is the entity count.
pub fn check_query_result(ids: &[u128], restyled: &[bool], table_id: u128) -> (result: Result<
    u32,
    CanonicalScenarioError,
>)
    requires
        restyled@.len() == ids@.len(),
    ensures
        result == spec_query_check(ids@, restyled@, table_id),
{
    if ids.len() != 4 {
        return contract("exact-revision query did not return all four canonical entities");
    }
    if !(ids[0] == ROOM_ID && ids[1] == TABLE_ID && ids[2] == LIGHT_ID && ids[3] == CAMERA_ID) {
        proof {
            if ids@ == canonical_entity_ids() {
                assert(ids@[0] == ROOM_ID);
                assert(ids@[1] == TABLE_ID);
                assert(ids@[2] == LIGHT_ID);
                assert(ids@[3] == CAMERA_ID);
            }
        }
        return contract("exact-revision query returned unexpected canonical identities");
    }
    assert(ids@ =~= canonical_entity_ids());
    let mut i: usize = 0;
    while i < ids.len()
        invariant
            i <= ids@.len(),
            ids@ == canonical_entity_ids(),
            restyled@.len() == ids@.len(),
            forall|j: int| 0 <= j < i ==> ids@[j] != table_id,
        decreases ids@.len() - i,
    {
        if ids[i] == table_id {
            proof {
                lemma_first_index_is_unique(ids@, table_id, i as int);
            }
            if !restyled[i] {
                return contract(
                    "exact-revision query did not return the moved and restyled table",
                );
            }
            return Ok(4);
        }
        i = i + 1;
    }
    contract("exact-revision query did not return the table")
}


/// How far the canonical scenario has come; each stage names the result it
/// checks next.
#[derive(Debug, Clone, Copy, PartialEq, Eq, Structural)]
pub enum ScenarioStage {
    /// The service's starting revision.
    Start,
    /// The receipt of the four-entity creation.
    InitialPatch,
    /// The receipt of the table move and restyle.
    UpdatePatch,
    /// The exact-revision query of the whole scene.
    Query,
    /// The center pixel of the color observation.
    Color,
    /// The center pixel of the entity-identity observation.
    Entity,
    /// The visibility summary.
    Visibility,
    /// Every observed result passed; replay evidence remains.
    Replay,
}

/// One service result of the canonical scenario, reduced to what its check
/// reads.
pub enum ScenarioEvent {
    /// The service's revision before the scenario.
    Started { revision: u64 },
    /// The receipt of the four-entity creation.
    InitialApplied { previous_revision: u64, new_revision: u64 },
    /// The receipt of the table move and restyle.
    UpdateApplied { previous_revision: u64, new_revision: u64, operation_count: u32 },
    /// The returned identities, in order, and whether each carries the moved
    /// transform and restyled material.
    Queried { ids: Vec<u128>, restyled: Vec<bool> },
    /// The color observation's center pixel.
    ColorCenter([u8; 4]),
    /// The entity-identity observation's center pixel.
    EntityCenter(u128),
    /// The visibility summary as (entity, visible pixels) pairs.
    VisibilityCounts(Vec<(u128, u64)>),
}

/// The stage whose check reads `event`.
pub open spec fn event_stage(event: &ScenarioEvent) -> ScenarioStage {
    match event {
        ScenarioEvent::Started { .. } => ScenarioStage::Start,
        ScenarioEvent::InitialApplied { .. } => ScenarioStage::InitialPatch,
        ScenarioEvent::UpdateApplied { .. } => ScenarioStage::UpdatePatch,
        ScenarioEvent::Queried { .. } => ScenarioStage::Query,
        ScenarioEvent::ColorCenter(_) => ScenarioStage::Color,
        ScenarioEvent::EntityCenter(_) => ScenarioStage::Entity,
        ScenarioEvent::VisibilityCounts(_) => ScenarioStage::Visibility,
    }
}

/// What checking one scenario result gives: the next stage, or the failure
/// that ends the scenario.
pub open spec fn spec_scenario_step(event: &ScenarioEvent) -> Result<ScenarioStage, CanonicalScenarioError> {
    match event {
        ScenarioEvent::Started { revision } => if *revision == 0 {
            Ok(ScenarioStage::InitialPatch)
        } else {
            Err(CanonicalScenarioError::NonEmptyService { revision: *revision })
        },
        ScenarioEvent::InitialApplied { previous_revision, new_revision } => if *previous_revision
            == 0 && *new_revision == 1 {
            Ok(ScenarioStage::UpdatePatch)
        } else {
            contract_failure("initial patch did not commit revision 1")
        },
        ScenarioEvent::UpdateApplied { previous_revision, new_revision, operation_count } =>
            if *previous_revision == 1 && *new_revision == 2 && *operation_count == 2 {
            Ok(ScenarioStage::Query)
        } else {
            contract_failure("table move and restyle did not commit atomically at revision 2")
        },
        ScenarioEvent::Queried { ids, restyled } => match spec_query_check(
            ids@,
            restyled@,
            TABLE_ID,
        ) {
            Ok(_) => Ok(ScenarioStage::Color),
            Err(e) => Err(e),
        },
        ScenarioEvent::ColorCenter(actual) => if color_matches_table(*actual) {
            Ok(ScenarioStage::Entity)
        } else {
            contract_failure("color observation center pixel violates canonical point lighting")
        },
        ScenarioEvent::EntityCenter(center) => if *center == TABLE_ID {
            Ok(ScenarioStage::Visibility)
        } else {
            contract_failure("entity-ID observation center pixel is not the table")
        },
        ScenarioEvent::VisibilityCounts(entities) => match first_entry_of(entities@, TABLE_ID) {
            None => contract_failure("visibility summary does not contain the table"),
            Some(i) => if entities@[i].1 == 0 {
                contract_failure("visibility summary reports zero table pixels")
            } else {
                Ok(ScenarioStage::Replay)
            },
        },
    }
}

/// Checks the result the scenario's current stage expects and returns the
/// next stage: the start, the two receipts, the query, and the three
/// observations, in that order.
pub fn scenario_step(stage: ScenarioStage, event: &ScenarioEvent) -> (result: Result<
    ScenarioStage,
    CanonicalScenarioError,
>)
    requires
        event_stage(event) == stage,
        event matches ScenarioEvent::Queried { ids, restyled } ==> restyled@.len() == ids@.len(),
    ensures
        result == spec_scenario_step(event),
{
    match event {
        ScenarioEvent::Started { revision } => match check_starting_revision(*revision) {
            Ok(()) => Ok(ScenarioStage::InitialPatch),
            Err(e) => Err(e),
        },
        ScenarioEvent::InitialApplied { previous_revision, new_revision } => match check_initial_receipt(
            *previous_revision,
            *new_revision,
        ) {
            Ok(()) => Ok(ScenarioStage::UpdatePatch),
            Err(e) => Err(e),
        },
        ScenarioEvent::UpdateApplied { previous_revision, new_revision, operation_count } =>
            match check_update_receipt(1, *previous_revision, *new_revision, *operation_count) {
            Ok(()) => Ok(ScenarioStage::Query),
            Err(e) => Err(e),
        },
        ScenarioEvent::Queried { ids, restyled } => match check_query_result(
            ids.as_slice(),
            restyled.as_slice(),
            TABLE_ID,
        ) {
            Ok(_) => Ok(ScenarioStage::Color),
            Err(e) => Err(e),
        },
        ScenarioEvent::ColorCenter(actual) => match check_center_color(*actual) {
            Ok(()) => Ok(ScenarioStage::Entity),
            Err(e) => Err(e),
        },
        ScenarioEvent::EntityCenter(center) => match check_center_entity(*center, TABLE_ID) {
            Ok(()) => Ok(ScenarioStage::Visibility),
            Err(e) => Err(e),
        },
        ScenarioEvent::VisibilityCounts(entities) => match table_visibility(
            entities.as_slice(),
            TABLE_ID,
        ) {
            Ok(_) => Ok(ScenarioStage::Replay),
            Err(e) => Err(e),
        },
    }
}

} // verus!
