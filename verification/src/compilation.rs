//! Compilation-result limits and their negotiation in version-two hellos.

use crate::limits::{
    intersect_runtime_limits, intersect_runtime_spec, min_nat, min_u16, min_u32, min_u64,
    runtime_limits_fit, runtime_limits_fit_spec, RuntimeLimits,
};
use crate::session::{
    LocalSessionLimits, LocalSessionValidationError, LocalSessionValidationKind,
    LOCAL_SESSION_SCHEMA_VERSION, LOCAL_SESSION_SCHEMA_VERSION_V2,
};
use vstd::prelude::*;

verus! {

/// Bounds on one deterministic compilation result.
#[derive(Debug, Clone, Copy, PartialEq, Eq, Structural)]
pub struct CompilationLimits {
    /// Maximum canonical encoded bytes of one result.
    pub max_encoded_bytes: u64,
    /// Maximum decoded bytes of one result.
    pub max_decoded_bytes: u64,
    /// Maximum JSON nesting depth.
    pub max_json_nesting_depth: u16,
    /// Maximum bytes of one text value.
    pub max_text_bytes: u32,
    /// Maximum explained decisions.
    pub max_decisions: u32,
    /// Maximum unresolved constraints.
    pub max_unresolved_constraints: u32,
    /// Limits of the emitted patch.
    pub patch_limits: RuntimeLimits,
}

/// A failure of the given kind at `field`.
pub open spec fn validation_error(
    kind: LocalSessionValidationKind,
    field: &'static str,
) -> LocalSessionValidationError {
    LocalSessionValidationError { kind, field }
}

/// What validating one compilation-limit value gives.
pub open spec fn spec_compilation_check(limits: CompilationLimits) -> Result<
    (),
    LocalSessionValidationError,
> {
    if limits.patch_limits.max_components_per_entity > limits.patch_limits.max_components {
        Err(
            validation_error(
                LocalSessionValidationKind::InvalidCompilationLimits,
                "compilation_limits.patch_limits.max_components_per_entity",
            ),
        )
    } else {
        Ok(())
    }
}

/// Field-wise `<=` of every compilation bound.
pub open spec fn compilation_fit_spec(proposed: CompilationLimits, available: CompilationLimits) -> bool {
    &&& proposed.max_encoded_bytes <= available.max_encoded_bytes
    &&& proposed.max_decoded_bytes <= available.max_decoded_bytes
    &&& proposed.max_json_nesting_depth <= available.max_json_nesting_depth
    &&& proposed.max_text_bytes <= available.max_text_bytes
    &&& proposed.max_decisions <= available.max_decisions
    &&& proposed.max_unresolved_constraints <= available.max_unresolved_constraints
    &&& runtime_limits_fit_spec(proposed.patch_limits, available.patch_limits)
}

/// Field-wise minimum of two compilation-limit values.
pub open spec fn compilation_meet(left: CompilationLimits, right: CompilationLimits) -> CompilationLimits {
    CompilationLimits {
        max_encoded_bytes: min_nat(left.max_encoded_bytes as nat, right.max_encoded_bytes as nat) as u64,
        max_decoded_bytes: min_nat(left.max_decoded_bytes as nat, right.max_decoded_bytes as nat) as u64,
        max_json_nesting_depth: min_nat(
            left.max_json_nesting_depth as nat,
            right.max_json_nesting_depth as nat,
        ) as u16,
        max_text_bytes: min_nat(left.max_text_bytes as nat, right.max_text_bytes as nat) as u32,
        max_decisions: min_nat(left.max_decisions as nat, right.max_decisions as nat) as u32,
        max_unresolved_constraints: min_nat(
            left.max_unresolved_constraints as nat,
            right.max_unresolved_constraints as nat,
        ) as u32,
        patch_limits: intersect_runtime_spec(left.patch_limits, right.patch_limits),
    }
}

/// What intersecting two compilation-limit values gives.
pub open spec fn spec_intersect_compilation(left: CompilationLimits, right: CompilationLimits) -> Result<
    CompilationLimits,
    LocalSessionValidationError,
> {
    match spec_compilation_check(left) {
        Err(e) => Err(e),
        Ok(()) => match spec_compilation_check(right) {
            Err(e) => Err(e),
            Ok(()) => match spec_compilation_check(compilation_meet(left, right)) {
                Err(e) => Err(e),
                Ok(()) => Ok(compilation_meet(left, right)),
            },
        },
    }
}

/// Validates one advertised compilation-limit value.
pub fn validate_compilation_limits(limits: &CompilationLimits) -> (result: Result<
    (),
    LocalSessionValidationError,
>)
    ensures
        result == spec_compilation_check(*limits),
{
    if limits.patch_limits.max_components_per_entity > limits.patch_limits.max_components {
        return Err(
            LocalSessionValidationError::new(
                LocalSessionValidationKind::InvalidCompilationLimits,
                "compilation_limits.patch_limits.max_components_per_entity",
            ),
        );
    }
    Ok(())
}

/// Reports whether proposed compilation limits fit within available policy.
pub fn compilation_limits_fit(proposed: &CompilationLimits, available: &CompilationLimits) -> (fit:
    bool)
    ensures
        fit == compilation_fit_spec(*proposed, *available),
{
    proposed.max_encoded_bytes <= available.max_encoded_bytes && proposed.max_decoded_bytes
        <= available.max_decoded_bytes && proposed.max_json_nesting_depth
        <= available.max_json_nesting_depth && proposed.max_text_bytes <= available.max_text_bytes
        && proposed.max_decisions <= available.max_decisions && proposed.max_unresolved_constraints
        <= available.max_unresolved_constraints && runtime_limits_fit(
        &proposed.patch_limits,
        &available.patch_limits,
    )
}

/// Selects the internally consistent field-wise intersection of compilation limits.
pub fn intersect_compilation_limits(left: CompilationLimits, right: CompilationLimits) -> (limits:
    Result<CompilationLimits, LocalSessionValidationError>)
    ensures
        limits == spec_intersect_compilation(left, right),
{
    match validate_compilation_limits(&left) {
        Err(e) => {
            return Err(e);
        },
        Ok(()) => {},
    }
    match validate_compilation_limits(&right) {
        Err(e) => {
            return Err(e);
        },
        Ok(()) => {},
    }
    let limits = CompilationLimits {
        max_encoded_bytes: min_u64(left.max_encoded_bytes, right.max_encoded_bytes),
        max_decoded_bytes: min_u64(left.max_decoded_bytes, right.max_decoded_bytes),
        max_json_nesting_depth: min_u16(left.max_json_nesting_depth, right.max_json_nesting_depth),
        max_text_bytes: min_u32(left.max_text_bytes, right.max_text_bytes),
        max_decisions: min_u32(left.max_decisions, right.max_decisions),
        max_unresolved_constraints: min_u32(
            left.max_unresolved_constraints,
            right.max_unresolved_constraints,
        ),
        patch_limits: intersect_runtime_limits(left.patch_limits, right.patch_limits),
    };
    match validate_compilation_limits(&limits) {
        Err(e) => Err(e),
        Ok(()) => Ok(limits),
    }
}

/// A successful compilation-limit intersection fits within both inputs.
pub proof fn lemma_compilation_intersection_fits(left: CompilationLimits, right: CompilationLimits)
    requires
        spec_intersect_compilation(left, right) is Ok,
    ensures
        compilation_fit_spec(spec_intersect_compilation(left, right)->Ok_0, left),
        compilation_fit_spec(spec_intersect_compilation(left, right)->Ok_0, right),
        spec_compilation_check(spec_intersect_compilation(left, right)->Ok_0) is Ok,
{
}

/// Initial client receive-limit advertisement.
#[derive(Debug, Clone, Copy, PartialEq, Eq, Structural)]
pub struct ClientHello {
    /// Bounds the client promises to enforce for server output.
    pub receive_limits: LocalSessionLimits,
    /// Bounds compilation results the client accepts; required only in version two.
    pub compilation_receive_limits: Option<CompilationLimits>,
}

/// Server-selected receive and output limits.
#[derive(Debug, Clone, Copy, PartialEq, Eq, Structural)]
pub struct ServerHello {
    /// Effective limits for this local session.
    pub effective_limits: LocalSessionLimits,
    /// Effective compilation-result limits; present only in version two.
    pub effective_compilation_limits: Option<CompilationLimits>,
}

/// What checking a schema version gives.
pub open spec fn spec_version_check(version: u16) -> Result<(), LocalSessionValidationError> {
    if version == 1 || version == 2 {
        Ok(())
    } else {
        Err(validation_error(LocalSessionValidationKind::UnsupportedVersion, "schema_version"))
    }
}

/// Accepts exactly the supported schema versions.
pub fn validate_version(version: u16) -> (result: Result<(), LocalSessionValidationError>)
    ensures
        result == spec_version_check(version),
{
    if version == LOCAL_SESSION_SCHEMA_VERSION || version == LOCAL_SESSION_SCHEMA_VERSION_V2 {
        Ok(())
    } else {
        Err(
            LocalSessionValidationError::new(
                LocalSessionValidationKind::UnsupportedVersion,
                "schema_version",
            ),
        )
    }
}

/// Requires schema version two for a version-two-only message at `field`.
pub fn require_v2(version: u16, field: &'static str) -> (result: Result<
    (),
    LocalSessionValidationError,
>)
    ensures
        version == 2 ==> result == Ok::<(), LocalSessionValidationError>(()),
        version != 2 ==> result == Err::<(), LocalSessionValidationError>(
            validation_error(LocalSessionValidationKind::InvalidVersionVariant, field),
        ),
{
    if version == LOCAL_SESSION_SCHEMA_VERSION_V2 {
        Ok(())
    } else {
        Err(LocalSessionValidationError::new(LocalSessionValidationKind::InvalidVersionVariant, field))
    }
}

/// What validating a client hello gives.
pub open spec fn spec_client_hello_check(version: u16, hello: ClientHello) -> Result<
    (),
    LocalSessionValidationError,
> {
    match spec_version_check(version) {
        Err(e) => Err(e),
        Ok(()) => match hello.receive_limits.spec_check() {
            Err(e) => Err(e),
            Ok(()) => match hello.compilation_receive_limits {
                None => if version == 1 {
                    Ok(())
                } else {
                    Err(
                        validation_error(
                            LocalSessionValidationKind::InvalidVersionVariant,
                            "message.hello.compilation_receive_limits",
                        ),
                    )
                },
                Some(limits) => if version != 2 {
                    Err(
                        validation_error(
                            LocalSessionValidationKind::InvalidVersionVariant,
                            "message.hello.compilation_receive_limits",
                        ),
                    )
                } else {
                    match spec_compilation_check(limits) {
                        Err(e) => Err(e),
                        Ok(()) => if runtime_limits_fit_spec(
                            limits.patch_limits,
                            hello.receive_limits.runtime_limits,
                        ) {
                            Ok(())
                        } else {
                            Err(
                                validation_error(
                                    LocalSessionValidationKind::InvalidCompilationLimits,
                                    "message.hello.compilation_receive_limits.patch_limits",
                                ),
                            )
                        },
                    }
                },
            },
        },
    }
}

/// Validates one client hello under its declared schema version: limits are
/// consistent, and compilation limits appear exactly in version two and fit
/// the advertised runtime limits.
pub fn validate_client_hello(version: u16, hello: &ClientHello) -> (result: Result<
    (),
    LocalSessionValidationError,
>)
    ensures
        result == spec_client_hello_check(version, *hello),
{
    match validate_version(version) {
        Err(e) => {
            return Err(e);
        },
        Ok(()) => {},
    }
    match hello.receive_limits.validate() {
        Err(e) => {
            return Err(e);
        },
        Ok(()) => {},
    }
    match &hello.compilation_receive_limits {
        None => {
            if version == LOCAL_SESSION_SCHEMA_VERSION {
                Ok(())
            } else {
                Err(
                    LocalSessionValidationError::new(
                        LocalSessionValidationKind::InvalidVersionVariant,
                        "message.hello.compilation_receive_limits",
                    ),
                )
            }
        },
        Some(limits) => {
            if version != LOCAL_SESSION_SCHEMA_VERSION_V2 {
                return Err(
                    LocalSessionValidationError::new(
                        LocalSessionValidationKind::InvalidVersionVariant,
                        "message.hello.compilation_receive_limits",
                    ),
                );
            }
            match validate_compilation_limits(limits) {
                Err(e) => {
                    return Err(e);
                },
                Ok(()) => {},
            }
            if runtime_limits_fit(&limits.patch_limits, &hello.receive_limits.runtime_limits) {
                Ok(())
            } else {
                Err(
                    LocalSessionValidationError::new(
                        LocalSessionValidationKind::InvalidCompilationLimits,
                        "message.hello.compilation_receive_limits.patch_limits",
                    ),
                )
            }
        },
    }
}

/// What validating the compilation part of a server hello gives.
pub open spec fn spec_server_hello_compilation_check(
    version: u16,
    hello: ServerHello,
    available: CompilationLimits,
) -> Result<(), LocalSessionValidationError> {
    match hello.effective_compilation_limits {
        None => if version == 1 {
            Ok(())
        } else {
            Err(
                validation_error(
                    LocalSessionValidationKind::InvalidVersionVariant,
                    "message.hello.effective_compilation_limits",
                ),
            )
        },
        Some(limits) => if version != 2 {
            Err(
                validation_error(
                    LocalSessionValidationKind::InvalidVersionVariant,
                    "message.hello.effective_compilation_limits",
                ),
            )
        } else {
            match spec_compilation_check(limits) {
                Err(e) => Err(e),
                Ok(()) => if compilation_fit_spec(limits, available) && runtime_limits_fit_spec(
                    limits.patch_limits,
                    hello.effective_limits.runtime_limits,
                ) {
                    Ok(())
                } else {
                    Err(
                        validation_error(
                            LocalSessionValidationKind::InvalidCompilationLimits,
                            "message.hello.effective_compilation_limits",
                        ),
                    )
                },
            }
        },
    }
}

/// Validates the compilation limits of a server hello: present exactly in
/// version two, consistent, within the available policy, and within the
/// effective runtime limits.
pub fn validate_server_hello(version: u16, hello: &ServerHello, available: &CompilationLimits) -> (result:
    Result<(), LocalSessionValidationError>)
    ensures
        result == spec_server_hello_compilation_check(version, *hello, *available),
{
    match &hello.effective_compilation_limits {
        None => {
            if version == LOCAL_SESSION_SCHEMA_VERSION {
                Ok(())
            } else {
                Err(
                    LocalSessionValidationError::new(
                        LocalSessionValidationKind::InvalidVersionVariant,
                        "message.hello.effective_compilation_limits",
                    ),
                )
            }
        },
        Some(limits) => {
            if version != LOCAL_SESSION_SCHEMA_VERSION_V2 {
                return Err(
                    LocalSessionValidationError::new(
                        LocalSessionValidationKind::InvalidVersionVariant,
                        "message.hello.effective_compilation_limits",
                    ),
                );
            }
            match validate_compilation_limits(limits) {
                Err(e) => {
                    return Err(e);
                },
                Ok(()) => {},
            }
            if compilation_limits_fit(limits, available) && runtime_limits_fit(
                &limits.patch_limits,
                &hello.effective_limits.runtime_limits,
            ) {
                Ok(())
            } else {
                Err(
                    LocalSessionValidationError::new(
                        LocalSessionValidationKind::InvalidCompilationLimits,
                        "message.hello.effective_compilation_limits",
                    ),
                )
            }
        },
    }
}


/// Negotiated compilation limits are the greatest that fit both sides: any
/// consistent limits that fit within both inputs also fit within their
/// intersection, which itself fits both; and consistent limits intersected
/// with themselves come back unchanged.
pub proof fn lemma_compilation_intersection_is_greatest(
    left: CompilationLimits,
    right: CompilationLimits,
    candidate: CompilationLimits,
)
    requires
        spec_intersect_compilation(left, right) is Ok,
        candidate.patch_limits.max_components_per_entity <= candidate.patch_limits.max_components,
        compilation_fit_spec(candidate, left),
        compilation_fit_spec(candidate, right),
    ensures
        compilation_fit_spec(candidate, spec_intersect_compilation(left, right)->Ok_0),
        compilation_fit_spec(spec_intersect_compilation(left, right)->Ok_0, left),
        compilation_fit_spec(spec_intersect_compilation(left, right)->Ok_0, right),
        spec_compilation_check(left) is Ok ==> spec_intersect_compilation(left, left) == Ok::<
            CompilationLimits,
            LocalSessionValidationError,
        >(left),
{
    let l = left.patch_limits;
    assert(compilation_meet(left, left) == left) by {
        assert(intersect_runtime_spec(l, l) == l);
    }
}

} // verus!
