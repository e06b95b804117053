//! Bounded receive limits exchanged during the local-session hello handshake.

use crate::frame::{LocalFrameConfig, LocalFrameLimits};
use crate::limits::{
    intersect_runtime_limits, intersect_runtime_spec, min_nat, min_u32, min_u64,
    runtime_limits_fit, runtime_limits_fit_spec, RuntimeLimits,
};
use vstd::prelude::*;

verus! {

/// First local-session schema.
pub const LOCAL_SESSION_SCHEMA_VERSION: u16 = 1;

/// Local-session schema version that adds bounded semantic imagination.
pub const LOCAL_SESSION_SCHEMA_VERSION_V2: u16 = 2;

/// Stable classifications for invalid local-session values.
#[derive(Debug, Clone, Copy, PartialEq, Eq, Structural)]
pub enum LocalSessionValidationKind {
    /// The local-session schema version is not supported.
    UnsupportedVersion,
    /// Advertised receive limits are internally inconsistent.
    InvalidLimits,
    /// A nested core protocol value is invalid.
    InvalidProtocolValue,
    /// Patch admission metadata is internally inconsistent.
    InvalidPatchAdmission,
    /// Patch completion metadata is internally inconsistent.
    InvalidPatchCompletion,
    /// Compilation limits are inconsistent or do not fit.
    InvalidCompilationLimits,
    /// A message or field is not allowed under the declared schema version.
    InvalidVersionVariant,
    /// Imagination admission metadata is internally inconsistent.
    InvalidImaginationAdmission,
    /// Imagination completion metadata is internally inconsistent.
    InvalidImaginationCompletion,
    /// A compilation result is invalid.
    InvalidCompilationResult,
}

/// A bounded local-session validation failure.
#[derive(Debug, Clone, Copy, PartialEq, Eq)]
pub struct LocalSessionValidationError {
    /// Stable classification.
    pub kind: LocalSessionValidationKind,
    /// Stable session-schema field path.
    pub field: &'static str,
}

impl LocalSessionValidationError {
    /// Constructs one failure.
    pub fn new(kind: LocalSessionValidationKind, field: &'static str) -> (error: Self)
        ensures
            error.kind == kind,
            error.field == field,
    {
        LocalSessionValidationError { kind, field }
    }

    /// Returns the stable validation classification.
    pub fn kind(&self) -> (kind: LocalSessionValidationKind)
        ensures
            kind == self.kind,
    {
        self.kind
    }

    /// Returns the stable session-schema field path.
    pub fn field(&self) -> (field: &'static str)
        ensures
            field == self.field,
    {
        self.field
    }
}

/// An `InvalidLimits` failure at `field`.
pub open spec fn limits_error(field: &'static str) -> LocalSessionValidationError {
    LocalSessionValidationError { kind: LocalSessionValidationKind::InvalidLimits, field }
}

fn invalid_limits(field: &'static str) -> (error: LocalSessionValidationError)
    ensures
        error == limits_error(field),
{
    LocalSessionValidationError { kind: LocalSessionValidationKind::InvalidLimits, field }
}

/// Bounded receive limits exchanged during the explicit hello handshake.
#[derive(Debug, Clone, Copy, PartialEq, Eq, Structural)]
pub struct LocalSessionLimits {
    /// Maximum complete frame bytes accepted by the receiver.
    pub max_frame_bytes: u64,
    /// Effective maximum canonical session control-message bytes, including LF.
    pub max_control_message_bytes: u64,
    /// Maximum observation bulk-section bytes accepted by the receiver.
    pub max_bulk_bytes: u64,
    /// Maximum complete observation-payload envelope bytes.
    pub max_observation_envelope_bytes: u64,
    /// Maximum entries in one structured visibility observation.
    pub max_visibility_entries: u32,
    /// Core protocol admission limits used for nested values.
    pub runtime_limits: RuntimeLimits,
}

impl LocalSessionLimits {
    /// Every bound is non-zero.
    pub open spec fn nonzero(self) -> bool {
        &&& self.max_frame_bytes > 0
        &&& self.max_control_message_bytes > 0
        &&& self.max_bulk_bytes > 0
        &&& self.max_observation_envelope_bytes > 0
        &&& self.max_visibility_entries > 0
        &&& self.runtime_limits.nonzero()
    }

    /// What internal-consistency validation gives, checked in order.
    pub open spec fn spec_check(self) -> Result<(), LocalSessionValidationError> {
        if self.max_frame_bytes < 68 {
            Err(limits_error("limits.max_frame_bytes"))
        } else if self.max_control_message_bytes == 0 || self.max_control_message_bytes
            > self.max_frame_bytes - 68 || self.max_control_message_bytes
            > self.runtime_limits.max_encoded_bytes {
            Err(limits_error("limits.max_control_message_bytes"))
        } else if self.max_bulk_bytes == 0 || self.max_bulk_bytes > self.max_frame_bytes - 68 {
            Err(limits_error("limits.max_bulk_bytes"))
        } else if self.max_observation_envelope_bytes == 0 || self.max_observation_envelope_bytes
            > self.max_bulk_bytes {
            Err(limits_error("limits.max_observation_envelope_bytes"))
        } else if self.max_visibility_entries == 0 {
            Err(limits_error("limits.max_visibility_entries"))
        } else if !self.runtime_limits.nonzero() {
            Err(limits_error("limits.runtime_limits"))
        } else if self.runtime_limits.max_components_per_entity
            > self.runtime_limits.max_components {
            Err(limits_error("limits.runtime_limits.max_components_per_entity"))
        } else {
            Ok(())
        }
    }

    /// The limits are internally consistent.
    pub open spec fn consistent(self) -> bool {
        self.spec_check() is Ok
    }

    /// Field-wise `<=` of every bound.
    pub open spec fn fits(self, available: Self) -> bool {
        &&& self.max_frame_bytes <= available.max_frame_bytes
        &&& self.max_control_message_bytes <= available.max_control_message_bytes
        &&& self.max_bulk_bytes <= available.max_bulk_bytes
        &&& self.max_observation_envelope_bytes <= available.max_observation_envelope_bytes
        &&& self.max_visibility_entries <= available.max_visibility_entries
        &&& runtime_limits_fit_spec(self.runtime_limits, available.runtime_limits)
    }

    /// What deriving receive limits from a frame configuration gives.
    pub open spec fn spec_from_config(config: LocalFrameConfig) -> Result<
        Self,
        LocalSessionValidationError,
    > {
        let frame_limits = config.frame_limits;
        let body = frame_limits.max_frame_bytes - 68;
        let control = min_nat(
            min_nat(body as nat, frame_limits.max_control_bytes as nat),
            config.runtime_limits.max_encoded_bytes as nat,
        );
        let bulk = min_nat(body as nat, frame_limits.max_bulk_bytes as nat);
        let envelope = min_nat(bulk, config.payload_limits.max_envelope_bytes as nat);
        let limits = LocalSessionLimits {
            max_frame_bytes: frame_limits.max_frame_bytes,
            max_control_message_bytes: control as u64,
            max_bulk_bytes: bulk as u64,
            max_observation_envelope_bytes: envelope as u64,
            max_visibility_entries: config.payload_limits.max_visibility_entries,
            runtime_limits: config.runtime_limits,
        };
        if frame_limits.max_frame_bytes < 68 {
            Err(limits_error("limits.max_frame_bytes"))
        } else if control == 0 {
            Err(limits_error("limits.max_control_message_bytes"))
        } else if bulk == 0 {
            Err(limits_error("limits.max_bulk_bytes"))
        } else if envelope == 0 {
            Err(limits_error("limits.max_observation_envelope_bytes"))
        } else {
            match limits.spec_check() {
                Err(e) => Err(e),
                Ok(()) => Ok(limits),
            }
        }
    }

    /// The field-wise intersection of two limit values, before validation.
    pub open spec fn spec_meet(self, other: Self) -> Self {
        let runtime_limits = intersect_runtime_spec(self.runtime_limits, other.runtime_limits);
        let max_frame_bytes = min_nat(self.max_frame_bytes as nat, other.max_frame_bytes as nat);
        let max_bulk_bytes = min_nat(self.max_bulk_bytes as nat, other.max_bulk_bytes as nat);
        LocalSessionLimits {
            max_frame_bytes: max_frame_bytes as u64,
            max_control_message_bytes: min_nat(
                min_nat(
                    min_nat(
                        self.max_control_message_bytes as nat,
                        other.max_control_message_bytes as nat,
                    ),
                    runtime_limits.max_encoded_bytes as nat,
                ),
                (max_frame_bytes - 68) as nat,
            ) as u64,
            max_bulk_bytes: max_bulk_bytes as u64,
            max_observation_envelope_bytes: min_nat(
                min_nat(
                    self.max_observation_envelope_bytes as nat,
                    other.max_observation_envelope_bytes as nat,
                ),
                max_bulk_bytes,
            ) as u64,
            max_visibility_entries: min_nat(
                self.max_visibility_entries as nat,
                other.max_visibility_entries as nat,
            ) as u32,
            runtime_limits,
        }
    }

    /// What intersecting two advertised limit values gives.
    pub open spec fn spec_intersect(self, other: Self) -> Result<Self, LocalSessionValidationError> {
        let met = self.spec_meet(other);
        match self.spec_check() {
            Err(e) => Err(e),
            Ok(()) => match other.spec_check() {
                Err(e) => Err(e),
                Ok(()) => if met.max_frame_bytes == 68 {
                    Err(limits_error("limits.max_control_message_bytes"))
                } else {
                    match met.spec_check() {
                        Err(e) => Err(e),
                        Ok(()) => Ok(met),
                    }
                },
            },
        }
    }

    /// What negotiating against a local frame configuration gives.
    pub open spec fn spec_negotiate(self, config: LocalFrameConfig) -> Result<
        Self,
        LocalSessionValidationError,
    > {
        match self.spec_check() {
            Err(e) => Err(e),
            Ok(()) => match Self::spec_from_config(config) {
                Err(e) => Err(e),
                Ok(local) => self.spec_intersect(local),
            },
        }
    }

    /// The frame configuration these limits describe.
    pub open spec fn spec_frame_config(self) -> LocalFrameConfig {
        LocalFrameConfig {
            frame_limits: LocalFrameLimits {
                max_frame_bytes: self.max_frame_bytes,
                max_control_bytes: self.max_control_message_bytes,
                max_bulk_bytes: self.max_bulk_bytes,
            },
            runtime_limits: self.runtime_limits,
            payload_limits: crate::limits::ObservationPayloadLimits {
                max_envelope_bytes: self.max_observation_envelope_bytes,
                max_visibility_entries: self.max_visibility_entries,
            },
        }
    }

    /// Validates internal consistency without comparing against local policy.
    pub fn validate(&self) -> (result: Result<(), LocalSessionValidationError>)
        ensures
            result == self.spec_check(),
    {
        if self.max_frame_bytes < 68 {
            return Err(invalid_limits("limits.max_frame_bytes"));
        }
        let frame_body = self.max_frame_bytes - 68;
        if self.max_control_message_bytes == 0 || self.max_control_message_bytes > frame_body
            || self.max_control_message_bytes > self.runtime_limits.max_encoded_bytes {
            return Err(invalid_limits("limits.max_control_message_bytes"));
        }
        if self.max_bulk_bytes == 0 || self.max_bulk_bytes > frame_body {
            return Err(invalid_limits("limits.max_bulk_bytes"));
        }
        if self.max_observation_envelope_bytes == 0 || self.max_observation_envelope_bytes
            > self.max_bulk_bytes {
            return Err(invalid_limits("limits.max_observation_envelope_bytes"));
        }
        if self.max_visibility_entries == 0 {
            return Err(invalid_limits("limits.max_visibility_entries"));
        }
        if !self.runtime_limits.is_nonzero() {
            return Err(invalid_limits("limits.runtime_limits"));
        }
        if self.runtime_limits.max_components_per_entity > self.runtime_limits.max_components {
            return Err(invalid_limits("limits.runtime_limits.max_components_per_entity"));
        }
        Ok(())
    }

    /// Derives the exact receive limits enforced by a local frame configuration.
    pub fn from_config(config: &LocalFrameConfig) -> (limits: Result<
        Self,
        LocalSessionValidationError,
    >)
        ensures
            limits == Self::spec_from_config(*config),
    {
        if config.frame_limits.max_frame_bytes < 68 {
            return Err(invalid_limits("limits.max_frame_bytes"));
        }
        let frame_body = config.frame_limits.max_frame_bytes - 68;
        let effective_control = min_u64(
            min_u64(frame_body, config.frame_limits.max_control_bytes),
            config.runtime_limits.max_encoded_bytes,
        );
        if effective_control == 0 {
            return Err(invalid_limits("limits.max_control_message_bytes"));
        }
        let effective_bulk = min_u64(frame_body, config.frame_limits.max_bulk_bytes);
        if effective_bulk == 0 {
            return Err(invalid_limits("limits.max_bulk_bytes"));
        }
        let envelope = min_u64(effective_bulk, config.payload_limits.max_envelope_bytes);
        if envelope == 0 {
            return Err(invalid_limits("limits.max_observation_envelope_bytes"));
        }
        let limits = LocalSessionLimits {
            max_frame_bytes: config.frame_limits.max_frame_bytes,
            max_control_message_bytes: effective_control,
            max_bulk_bytes: effective_bulk,
            max_observation_envelope_bytes: envelope,
            max_visibility_entries: config.payload_limits.max_visibility_entries,
            runtime_limits: config.runtime_limits,
        };
        match limits.validate() {
            Err(e) => Err(e),
            Ok(()) => Ok(limits),
        }
    }

    /// Selects the internally consistent field-wise intersection of two peers.
    pub fn intersect(&self, other: &Self) -> (limits: Result<Self, LocalSessionValidationError>)
        ensures
            limits == self.spec_intersect(*other),
    {
        match self.validate() {
            Err(e) => {
                return Err(e);
            },
            Ok(()) => {},
        }
        match other.validate() {
            Err(e) => {
                return Err(e);
            },
            Ok(()) => {},
        }
        let runtime_limits = intersect_runtime_limits(self.runtime_limits, other.runtime_limits);
        let max_frame_bytes = min_u64(self.max_frame_bytes, other.max_frame_bytes);
        let frame_body = max_frame_bytes - 68;
        if frame_body == 0 {
            return Err(invalid_limits("limits.max_control_message_bytes"));
        }
        let max_bulk_bytes = min_u64(self.max_bulk_bytes, other.max_bulk_bytes);
        let limits = LocalSessionLimits {
            max_frame_bytes,
            max_control_message_bytes: min_u64(
                min_u64(
                    min_u64(self.max_control_message_bytes, other.max_control_message_bytes),
                    runtime_limits.max_encoded_bytes,
                ),
                frame_body,
            ),
            max_bulk_bytes,
            max_observation_envelope_bytes: min_u64(
                min_u64(self.max_observation_envelope_bytes, other.max_observation_envelope_bytes),
                max_bulk_bytes,
            ),
            max_visibility_entries: min_u32(self.max_visibility_entries, other.max_visibility_entries),
            runtime_limits,
        };
        match limits.validate() {
            Err(e) => Err(e),
            Ok(()) => Ok(limits),
        }
    }

    /// Selects the field-wise intersection of advertised and local receive limits.
    pub fn negotiate(&self, local_config: &LocalFrameConfig) -> (limits: Result<
        Self,
        LocalSessionValidationError,
    >)
        ensures
            limits == self.spec_negotiate(*local_config),
    {
        match self.validate() {
            Err(e) => {
                return Err(e);
            },
            Ok(()) => {},
        }
        let local = match Self::from_config(local_config) {
            Err(e) => {
                return Err(e);
            },
            Ok(local) => local,
        };
        self.intersect(&local)
    }

    /// Converts negotiated limits into the exact frame configuration they describe.
    pub fn to_frame_config(&self) -> (config: Result<LocalFrameConfig, LocalSessionValidationError>)
        ensures
            match self.spec_check() {
                Err(e) => config == Err::<LocalFrameConfig, LocalSessionValidationError>(e),
                Ok(()) => config == Ok::<LocalFrameConfig, LocalSessionValidationError>(
                    self.spec_frame_config(),
                ),
            },
    {
        match self.validate() {
            Err(e) => {
                return Err(e);
            },
            Ok(()) => {},
        }
        Ok(
            LocalFrameConfig::with_payload_bounds(
                LocalFrameLimits::new(
                    self.max_frame_bytes,
                    self.max_control_message_bytes,
                    self.max_bulk_bytes,
                ),
                self.runtime_limits,
                self.max_observation_envelope_bytes,
                self.max_visibility_entries,
            ),
        )
    }

    /// Checks that these limits fit within what `config` can receive.
    pub fn fits_within_config(&self, config: &LocalFrameConfig) -> (result: Result<
        (),
        LocalSessionValidationError,
    >)
        ensures
            match Self::spec_from_config(*config) {
                Err(e) => result == Err::<(), LocalSessionValidationError>(e),
                Ok(available) => if self.fits(available) {
                    result == Ok::<(), LocalSessionValidationError>(())
                } else {
                    result == Err::<(), LocalSessionValidationError>(
                        limits_error("message.hello.effective_limits"),
                    )
                },
            },
    {
        let available = match Self::from_config(config) {
            Err(e) => {
                return Err(e);
            },
            Ok(available) => available,
        };
        if self.max_frame_bytes > available.max_frame_bytes || self.max_control_message_bytes
            > available.max_control_message_bytes || self.max_bulk_bytes > available.max_bulk_bytes
            || self.max_observation_envelope_bytes > available.max_observation_envelope_bytes
            || self.max_visibility_entries > available.max_visibility_entries
            || !runtime_limits_fit(&self.runtime_limits, &available.runtime_limits) {
            return Err(invalid_limits("message.hello.effective_limits"));
        }
        Ok(())
    }
}

/// Deriving receive limits from the frame configuration that consistent
/// limits describe gives the same limits back.
pub proof fn lemma_frame_config_round_trip(limits: LocalSessionLimits)
    requires
        limits.consistent(),
    ensures
        LocalSessionLimits::spec_from_config(limits.spec_frame_config()) == Ok::<
            LocalSessionLimits,
            LocalSessionValidationError,
        >(limits),
{
}

/// A successful intersection is consistent (so non-zero) and fits within
/// both peers.
pub proof fn lemma_intersect_fits_both(left: LocalSessionLimits, right: LocalSessionLimits)
    requires
        left.spec_intersect(right) is Ok,
    ensures
        ({
            let met = left.spec_intersect(right)->Ok_0;
            &&& met.consistent()
            &&& met.fits(left)
            &&& met.fits(right)
            &&& met.nonzero()
        }),
{
}

/// Intersection of consistent peers does not depend on their order.
pub proof fn lemma_intersect_commutes(left: LocalSessionLimits, right: LocalSessionLimits)
    requires
        left.consistent(),
        right.consistent(),
    ensures
        left.spec_intersect(right) == right.spec_intersect(left),
{
    assert(left.spec_meet(right) == right.spec_meet(left));
}

/// Intersecting consistent limits with themselves changes nothing.
pub proof fn lemma_intersect_idempotent(limits: LocalSessionLimits)
    requires
        limits.consistent(),
    ensures
        limits.spec_intersect(limits) == Ok::<LocalSessionLimits, LocalSessionValidationError>(
            limits,
        ),
{
    assert(limits.spec_meet(limits) == limits);
}

/// A negotiated result fits within the peer's advertisement and within what
/// the local configuration can receive, so the server's effective limits
/// always pass the receiving check.
pub proof fn lemma_negotiated_fits_local(peer: LocalSessionLimits, config: LocalFrameConfig)
    requires
        peer.spec_negotiate(config) is Ok,
    ensures
        LocalSessionLimits::spec_from_config(config) is Ok,
        peer.spec_negotiate(config)->Ok_0.fits(peer),
        peer.spec_negotiate(config)->Ok_0.fits(LocalSessionLimits::spec_from_config(config)->Ok_0),
        peer.spec_negotiate(config)->Ok_0.consistent(),
{
    let local = LocalSessionLimits::spec_from_config(config)->Ok_0;
    lemma_intersect_fits_both(peer, local);
}

} // verus!
