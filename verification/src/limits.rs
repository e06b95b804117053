//! Core admission limits carried by frame and session configurations.

use vstd::prelude::*;

verus! {

/// The smaller of two unsigned values.
pub open spec fn min_nat(a: nat, b: nat) -> nat {
    if a <= b {
        a
    } else {
        b
    }
}

pub fn min_u64(a: u64, b: u64) -> (m: u64)
    ensures
        m as nat == min_nat(a as nat, b as nat),
{
    if a <= b {
        a
    } else {
        b
    }
}

pub fn min_u32(a: u32, b: u32) -> (m: u32)
    ensures
        m as nat == min_nat(a as nat, b as nat),
{
    if a <= b {
        a
    } else {
        b
    }
}

pub fn min_u16(a: u16, b: u16) -> (m: u16)
    ensures
        m as nat == min_nat(a as nat, b as nat),
{
    if a <= b {
        a
    } else {
        b
    }
}

/// Core protocol admission limits used for nested protocol values.
///
/// Every field is a non-zero bound; `RuntimeLimits::nonzero` states it.
#[derive(Debug, Clone, Copy, PartialEq, Eq, Structural)]
pub struct RuntimeLimits {
    /// Maximum canonical encoded bytes of one protocol value.
    pub max_encoded_bytes: u64,
    /// Maximum decoded bytes of one protocol value.
    pub max_decoded_bytes: u64,
    /// Maximum JSON nesting depth.
    pub max_json_nesting_depth: u16,
    /// Maximum operations in one patch.
    pub max_operations: u32,
    /// Maximum components in one patch.
    pub max_components: u32,
    /// Maximum components attached to one entity.
    pub max_components_per_entity: u32,
    /// Maximum bytes of one text value.
    pub max_text_bytes: u32,
    /// Maximum diagnostics in one result.
    pub max_diagnostics: u32,
    /// Maximum capacity of one bounded queue.
    pub max_queue_capacity: u32,
    /// Maximum entities in one imagination.
    pub max_imagination_entities: u32,
    /// Maximum relations in one imagination.
    pub max_imagination_relations: u32,
    /// Maximum constraints in one imagination.
    pub max_imagination_constraints: u32,
    /// Maximum entities returned by one query.
    pub max_query_entities: u32,
    /// Maximum observation image width.
    pub max_observation_width: u32,
    /// Maximum observation image height.
    pub max_observation_height: u32,
    /// Maximum observation image pixels.
    pub max_observation_pixels: u64,
}

impl RuntimeLimits {
    /// Every bound is non-zero.
    pub open spec fn nonzero(self) -> bool {
        &&& self.max_encoded_bytes > 0
        &&& self.max_decoded_bytes > 0
        &&& self.max_json_nesting_depth > 0
        &&& self.max_operations > 0
        &&& self.max_components > 0
        &&& self.max_components_per_entity > 0
        &&& self.max_text_bytes > 0
        &&& self.max_diagnostics > 0
        &&& self.max_queue_capacity > 0
        &&& self.max_imagination_entities > 0
        &&& self.max_imagination_relations > 0
        &&& self.max_imagination_constraints > 0
        &&& self.max_query_entities > 0
        &&& self.max_observation_width > 0
        &&& self.max_observation_height > 0
        &&& self.max_observation_pixels > 0
    }

    /// Returns whether every bound is non-zero.
    pub fn is_nonzero(&self) -> (nonzero: bool)
        ensures
            nonzero == self.nonzero(),
    {
        self.max_encoded_bytes > 0 && self.max_decoded_bytes > 0 && self.max_json_nesting_depth > 0
            && self.max_operations > 0 && self.max_components > 0
            && self.max_components_per_entity > 0 && self.max_text_bytes > 0
            && self.max_diagnostics > 0 && self.max_queue_capacity > 0
            && self.max_imagination_entities > 0 && self.max_imagination_relations > 0
            && self.max_imagination_constraints > 0 && self.max_query_entities > 0
            && self.max_observation_width > 0 && self.max_observation_height > 0
            && self.max_observation_pixels > 0
    }
}

/// The default runtime limits.
pub open spec fn default_runtime_limits() -> RuntimeLimits {
    RuntimeLimits {
        max_encoded_bytes: 1_048_576,
        max_decoded_bytes: 4_194_304,
        max_json_nesting_depth: 32,
        max_operations: 1_024,
        max_components: 8_192,
        max_components_per_entity: 16,
        max_text_bytes: 4_096,
        max_diagnostics: 64,
        max_queue_capacity: 1_024,
        max_imagination_entities: 256,
        max_imagination_relations: 512,
        max_imagination_constraints: 512,
        max_query_entities: 1_024,
        max_observation_width: 4_096,
        max_observation_height: 4_096,
        max_observation_pixels: 16_777_216,
    }
}

impl Default for RuntimeLimits {
    fn default() -> (limits: Self)
        ensures
            limits == default_runtime_limits(),
            limits.nonzero(),
    {
        RuntimeLimits {
            max_encoded_bytes: 1_048_576,
            max_decoded_bytes: 4_194_304,
            max_json_nesting_depth: 32,
            max_operations: 1_024,
            max_components: 8_192,
            max_components_per_entity: 16,
            max_text_bytes: 4_096,
            max_diagnostics: 64,
            max_queue_capacity: 1_024,
            max_imagination_entities: 256,
            max_imagination_relations: 512,
            max_imagination_constraints: 512,
            max_query_entities: 1_024,
            max_observation_width: 4_096,
            max_observation_height: 4_096,
            max_observation_pixels: 16_777_216,
        }
    }
}

/// Field-wise `<=` of every runtime bound.
pub open spec fn runtime_limits_fit_spec(proposed: RuntimeLimits, available: RuntimeLimits) -> bool {
    &&& proposed.max_encoded_bytes <= available.max_encoded_bytes
    &&& proposed.max_decoded_bytes <= available.max_decoded_bytes
    &&& proposed.max_json_nesting_depth <= available.max_json_nesting_depth
    &&& proposed.max_operations <= available.max_operations
    &&& proposed.max_components <= available.max_components
    &&& proposed.max_components_per_entity <= available.max_components_per_entity
    &&& proposed.max_text_bytes <= available.max_text_bytes
    &&& proposed.max_diagnostics <= available.max_diagnostics
    &&& proposed.max_queue_capacity <= available.max_queue_capacity
    &&& proposed.max_imagination_entities <= available.max_imagination_entities
    &&& proposed.max_imagination_relations <= available.max_imagination_relations
    &&& proposed.max_imagination_constraints <= available.max_imagination_constraints
    &&& proposed.max_query_entities <= available.max_query_entities
    &&& proposed.max_observation_width <= available.max_observation_width
    &&& proposed.max_observation_height <= available.max_observation_height
    &&& proposed.max_observation_pixels <= available.max_observation_pixels
}

/// Field-wise minimum, with the per-entity component bound capped by the
/// intersected total component bound.
pub open spec fn intersect_runtime_spec(left: RuntimeLimits, right: RuntimeLimits) -> RuntimeLimits {
    let max_components = min_nat(left.max_components as nat, right.max_components as nat);
    RuntimeLimits {
        max_encoded_bytes: min_nat(left.max_encoded_bytes as nat, right.max_encoded_bytes as nat) as u64,
        max_decoded_bytes: min_nat(left.max_decoded_bytes as nat, right.max_decoded_bytes as nat) as u64,
        max_json_nesting_depth: min_nat(
            left.max_json_nesting_depth as nat,
            right.max_json_nesting_depth as nat,
        ) as u16,
        max_operations: min_nat(left.max_operations as nat, right.max_operations as nat) as u32,
        max_components: max_components as u32,
        max_components_per_entity: min_nat(
            min_nat(left.max_components_per_entity as nat, right.max_components_per_entity as nat),
            max_components,
        ) as u32,
        max_text_bytes: min_nat(left.max_text_bytes as nat, right.max_text_bytes as nat) as u32,
        max_diagnostics: min_nat(left.max_diagnostics as nat, right.max_diagnostics as nat) as u32,
        max_queue_capacity: min_nat(left.max_queue_capacity as nat, right.max_queue_capacity as nat) as u32,
        max_imagination_entities: min_nat(
            left.max_imagination_entities as nat,
            right.max_imagination_entities as nat,
        ) as u32,
        max_imagination_relations: min_nat(
            left.max_imagination_relations as nat,
            right.max_imagination_relations as nat,
        ) as u32,
        max_imagination_constraints: min_nat(
            left.max_imagination_constraints as nat,
            right.max_imagination_constraints as nat,
        ) as u32,
        max_query_entities: min_nat(left.max_query_entities as nat, right.max_query_entities as nat) as u32,
        max_observation_width: min_nat(
            left.max_observation_width as nat,
            right.max_observation_width as nat,
        ) as u32,
        max_observation_height: min_nat(
            left.max_observation_height as nat,
            right.max_observation_height as nat,
        ) as u32,
        max_observation_pixels: min_nat(
            left.max_observation_pixels as nat,
            right.max_observation_pixels as nat,
        ) as u64,
    }
}

/// Reports whether every proposed runtime bound fits the available one.
pub fn runtime_limits_fit(proposed: &RuntimeLimits, available: &RuntimeLimits) -> (fit: bool)
    ensures
        fit == runtime_limits_fit_spec(*proposed, *available),
{
    proposed.max_encoded_bytes <= available.max_encoded_bytes && proposed.max_decoded_bytes
        <= available.max_decoded_bytes && proposed.max_json_nesting_depth
        <= available.max_json_nesting_depth && proposed.max_operations <= available.max_operations
        && proposed.max_components <= available.max_components
        && proposed.max_components_per_entity <= available.max_components_per_entity
        && proposed.max_text_bytes <= available.max_text_bytes && proposed.max_diagnostics
        <= available.max_diagnostics && proposed.max_queue_capacity
        <= available.max_queue_capacity && proposed.max_imagination_entities
        <= available.max_imagination_entities && proposed.max_imagination_relations
        <= available.max_imagination_relations && proposed.max_imagination_constraints
        <= available.max_imagination_constraints && proposed.max_query_entities
        <= available.max_query_entities && proposed.max_observation_width
        <= available.max_observation_width && proposed.max_observation_height
        <= available.max_observation_height && proposed.max_observation_pixels
        <= available.max_observation_pixels
}

/// Selects the field-wise intersection of two runtime-limit values.
pub fn intersect_runtime_limits(left: RuntimeLimits, right: RuntimeLimits) -> (limits: RuntimeLimits)
    ensures
        limits == intersect_runtime_spec(left, right),
{
    let max_components = min_u32(left.max_components, right.max_components);
    RuntimeLimits {
        max_encoded_bytes: min_u64(left.max_encoded_bytes, right.max_encoded_bytes),
        max_decoded_bytes: min_u64(left.max_decoded_bytes, right.max_decoded_bytes),
        max_json_nesting_depth: min_u16(left.max_json_nesting_depth, right.max_json_nesting_depth),
        max_operations: min_u32(left.max_operations, right.max_operations),
        max_components,
        max_components_per_entity: min_u32(
            min_u32(left.max_components_per_entity, right.max_components_per_entity),
            max_components,
        ),
        max_text_bytes: min_u32(left.max_text_bytes, right.max_text_bytes),
        max_diagnostics: min_u32(left.max_diagnostics, right.max_diagnostics),
        max_queue_capacity: min_u32(left.max_queue_capacity, right.max_queue_capacity),
        max_imagination_entities: min_u32(
            left.max_imagination_entities,
            right.max_imagination_entities,
        ),
        max_imagination_relations: min_u32(
            left.max_imagination_relations,
            right.max_imagination_relations,
        ),
        max_imagination_constraints: min_u32(
            left.max_imagination_constraints,
            right.max_imagination_constraints,
        ),
        max_query_entities: min_u32(left.max_query_entities, right.max_query_entities),
        max_observation_width: min_u32(left.max_observation_width, right.max_observation_width),
        max_observation_height: min_u32(left.max_observation_height, right.max_observation_height),
        max_observation_pixels: min_u64(left.max_observation_pixels, right.max_observation_pixels),
    }
}

/// Inner observation payload-envelope limits.
#[derive(Debug, Clone, Copy, PartialEq, Eq, Structural)]
pub struct ObservationPayloadLimits {
    /// Maximum complete payload-envelope bytes.
    pub max_envelope_bytes: u64,
    /// Maximum entries in one structured visibility observation.
    pub max_visibility_entries: u32,
}

impl ObservationPayloadLimits {
    /// Constructs explicit payload limits.
    pub fn new(max_envelope_bytes: u64, max_visibility_entries: u32) -> (limits: Self)
        ensures
            limits.max_envelope_bytes == max_envelope_bytes,
            limits.max_visibility_entries == max_visibility_entries,
    {
        ObservationPayloadLimits { max_envelope_bytes, max_visibility_entries }
    }
}

impl Default for ObservationPayloadLimits {
    fn default() -> (limits: Self)
        ensures
            limits.max_envelope_bytes == 4_194_304,
            limits.max_visibility_entries == 65_536,
    {
        ObservationPayloadLimits { max_envelope_bytes: 4_194_304, max_visibility_entries: 65_536 }
    }
}

} // verus!
