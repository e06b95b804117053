//! Payload-free local-session messages: close, closed, and failure codes.

use crate::compilation::{
    require_v2, spec_compilation_check, spec_client_hello_check,
    spec_server_hello_compilation_check, spec_version_check, validate_client_hello,
    validate_compilation_limits, validate_server_hello, validate_version, validation_error,
    ClientHello, CompilationLimits, ServerHello,
};
use crate::control::LocalSessionError;
use crate::frame::LocalFrameConfig;
use crate::session::{
    limits_error, LocalSessionLimits, LocalSessionValidationError, LocalSessionValidationKind,
    LOCAL_SESSION_SCHEMA_VERSION_V2,
};
use vstd::prelude::*;

verus! {

/// Empty close request.
#[derive(Debug, Clone, Copy, PartialEq, Eq, Structural)]
pub struct SessionClose {}

/// Empty orderly-close acknowledgement.
#[derive(Debug, Clone, Copy, PartialEq, Eq, Structural)]
pub struct SessionClosed {}

/// Stable failure codes that expose no input, parser text, or internals.
#[derive(Debug, Clone, Copy, PartialEq, Eq, Structural)]
pub enum SessionFailureCode {
    /// Control bytes did not match the session schema.
    InvalidMessage,
    /// The declared session schema version is unsupported.
    UnsupportedVersion,
    /// The message is invalid in the current session state.
    ProtocolState,
    /// A configured or negotiated resource limit was exceeded.
    LimitExceeded,
    /// An exact scene revision did not match current state.
    RevisionMismatch,
    /// A bounded queue or result capacity was exhausted.
    CapacityExceeded,
    /// A submitted command was rejected.
    CommandRejected,
    /// A logical query was rejected.
    QueryRejected,
    /// An observation request was rejected.
    ObservationRejected,
    /// The local service is temporarily unavailable.
    ServiceUnavailable,
    /// A non-sensitive internal failure occurred.
    Internal,
}

/// Outcome recorded by an apply receipt.
#[derive(Debug, Clone, Copy, PartialEq, Eq, Structural)]
pub enum ApplyStatus {
    /// The patch was applied now.
    Applied,
    /// The patch was answered from a retained result.
    IdempotentReplay,
}

/// The fields of an apply receipt that session messages relate to their
/// command.
#[derive(Debug, Clone, Copy, PartialEq, Eq, Structural)]
pub struct ReceiptSummary {
    /// Key of the applied command.
    pub idempotency_key: u128,
    /// Transaction the applied patch carried.
    pub transaction_id: u128,
    /// How the patch was applied.
    pub status: ApplyStatus,
    /// Revision the patch was applied on.
    pub previous_revision: u64,
    /// Operations the patch held.
    pub operation_count: u32,
}

/// The identity of a compiled patch.
#[derive(Debug, Clone, Copy, PartialEq, Eq, Structural)]
pub struct CompiledPatch {
    /// Key the patch was compiled under.
    pub idempotency_key: u128,
    /// Transaction the patch carries.
    pub transaction_id: u128,
    /// Revision the patch is based on.
    pub base_revision: u64,
    /// Operations the patch holds (saturating at `u32::MAX`).
    pub operation_count: u32,
}

/// The fields of a compilation result that session messages check.
#[derive(Debug, Clone, Copy, PartialEq, Eq, Structural)]
pub struct CompilationSummary {
    /// Imagination the result answers.
    pub imagination_id: u128,
    /// Revision the result was compiled against.
    pub scene_revision: u64,
    /// The compiled patch, if one was produced.
    pub patch: Option<CompiledPatch>,
    /// Whether the result encodes canonically within the applicable
    /// compilation bounds.
    pub canonical: bool,
}

/// Payload-redacted local-session failure.
#[derive(Debug, Clone, Copy, PartialEq, Eq, Structural)]
pub struct SessionFailure {
    /// Stable machine-readable failure classification.
    pub code: SessionFailureCode,
}

/// The failure code reported for a control message that could not be
/// decoded: bound violations are limit failures, an unsupported schema is a
/// version failure, everything else is an invalid message.
pub open spec fn spec_decode_failure_code(error: LocalSessionError) -> SessionFailureCode {
    match error {
        LocalSessionError::InvalidConfig => SessionFailureCode::LimitExceeded,
        LocalSessionError::MessageLimitExceeded { .. } => SessionFailureCode::LimitExceeded,
        LocalSessionError::NestingLimitExceeded { .. } => SessionFailureCode::LimitExceeded,
        LocalSessionError::AllocationFailed => SessionFailureCode::LimitExceeded,
        LocalSessionError::InvalidMessage(e) => if e.kind
            == LocalSessionValidationKind::UnsupportedVersion {
            SessionFailureCode::UnsupportedVersion
        } else {
            SessionFailureCode::InvalidMessage
        },
        _ => SessionFailureCode::InvalidMessage,
    }
}

/// Classifies a control-message decoding failure.
pub fn decode_failure_code(error: &LocalSessionError) -> (code: SessionFailureCode)
    ensures
        code == spec_decode_failure_code(*error),
{
    match error {
        LocalSessionError::InvalidConfig
        | LocalSessionError::MessageLimitExceeded { .. }
        | LocalSessionError::NestingLimitExceeded { .. }
        | LocalSessionError::AllocationFailed => SessionFailureCode::LimitExceeded,
        LocalSessionError::InvalidMessage(e) => {
            if e.kind == LocalSessionValidationKind::UnsupportedVersion {
                SessionFailureCode::UnsupportedVersion
            } else {
                SessionFailureCode::InvalidMessage
            }
        },
        LocalSessionError::MalformedJson { .. }
        | LocalSessionError::NonCanonicalMessage
        | LocalSessionError::WrongDirection
        | LocalSessionError::WrongFrameKind
        | LocalSessionError::SerializationFailed => SessionFailureCode::InvalidMessage,
    }
}


/// Stable patch-admission outcomes.
#[derive(Debug, Clone, Copy, PartialEq, Eq, Structural)]
pub enum PatchAdmissionStatus {
    /// New patch work was queued.
    Queued,
    /// Identical patch work was already queued.
    AlreadyQueued,
    /// New latest-value work replaced older uncommitted work.
    Superseded { superseded_idempotency_key: u128 },
    /// Best-effort work was dropped without admission.
    Dropped,
    /// A prior committed result was returned without re-execution.
    Replayed { receipt: ReceiptSummary },
}

/// Immediate patch admission answer.
#[derive(Debug, Clone, Copy, PartialEq, Eq, Structural)]
pub struct PatchAdmission {
    /// Key of the submitted patch.
    pub idempotency_key: u128,
    /// Admission outcome.
    pub status: PatchAdmissionStatus,
}

/// Completed semantic compilation and its optional patch-application result.
#[derive(Debug, Clone, Copy, PartialEq, Eq, Structural)]
pub struct ImaginationCompletion {
    /// Identity of the source semantic request.
    pub imagination_id: u128,
    /// Idempotency key of the source semantic request.
    pub idempotency_key: u128,
    /// The compilation result.
    pub compilation: CompilationSummary,
    /// Apply receipt when and only when compilation produced a patch.
    pub receipt: Option<ReceiptSummary>,
}

/// Stable imagination-admission outcomes.
#[derive(Debug, Clone, Copy, PartialEq, Eq, Structural)]
pub enum ImaginationAdmissionStatus {
    /// New semantic work was queued.
    Queued,
    /// Identical semantic work was already queued.
    AlreadyQueued,
    /// New latest-value work replaced older uncommitted work.
    Superseded { superseded_idempotency_key: u128 },
    /// Best-effort work was dropped without admission.
    Dropped,
    /// A retained exact result was returned without recompilation or mutation.
    Replayed { completion: ImaginationCompletion },
}

/// Immediate imagination admission answer.
#[derive(Debug, Clone, Copy, PartialEq, Eq, Structural)]
pub struct ImaginationAdmission {
    /// Identity of the semantic request.
    pub imagination_id: u128,
    /// Key of the semantic request.
    pub idempotency_key: u128,
    /// Admission outcome.
    pub status: ImaginationAdmissionStatus,
}

/// A server message, reduced to the values its validation relates.
#[derive(Debug, Clone, Copy, PartialEq, Eq, Structural)]
pub enum ServerMessage {
    /// Negotiated limits.
    Hello(ServerHello),
    /// Patch admission.
    PatchAdmission(PatchAdmission),
    /// Patch completion with its receipt.
    PatchCompleted { receipt: ReceiptSummary },
    /// Imagination admission.
    ImaginationAdmission(ImaginationAdmission),
    /// Imagination completion.
    ImaginationCompleted(ImaginationCompletion),
    /// Exact-revision query result.
    QueryResult,
    /// Observation accepted.
    ObservationAccepted,
    /// Observation still pending.
    ObservationPending,
    /// Payload-free failure.
    Failure(SessionFailure),
    /// Orderly close acknowledgement.
    Closed(SessionClosed),
}

/// A client message, reduced to the values its validation relates.
#[derive(Debug, Clone, Copy, PartialEq, Eq, Structural)]
pub enum ClientMessage {
    /// Limits advertisement.
    Hello(ClientHello),
    /// Explicit scene patch.
    SubmitPatch,
    /// Semantic imagination request.
    SubmitImagination,
    /// Exact-revision query.
    Query,
    /// Exact-revision observation request.
    RequestObservation,
    /// Orderly close.
    Close(SessionClose),
}

/// A failure of `kind` at `field`.
fn invalid(kind: LocalSessionValidationKind, field: &'static str) -> (error: LocalSessionValidationError)
    ensures
        error == validation_error(kind, field),
{
    LocalSessionValidationError::new(kind, field)
}

/// The roles of a patch admission: a supersession names another key, and a
/// replay carries a valid replay-marked receipt for the same key.
/// `receipt_valid` says whether a replayed receipt satisfies its own schema.
pub open spec fn spec_patch_admission_check(admission: PatchAdmission, receipt_valid: bool) -> Result<
    (),
    LocalSessionValidationError,
> {
    match admission.status {
        PatchAdmissionStatus::Superseded { superseded_idempotency_key } => if superseded_idempotency_key
            == admission.idempotency_key {
            Err(
                validation_error(
                    LocalSessionValidationKind::InvalidPatchAdmission,
                    "message.patch_admission.status.superseded.superseded_idempotency_key",
                ),
            )
        } else {
            Ok(())
        },
        PatchAdmissionStatus::Replayed { receipt } => if !receipt_valid {
            Err(
                validation_error(
                    LocalSessionValidationKind::InvalidProtocolValue,
                    "message.patch_admission.status.replayed.receipt",
                ),
            )
        } else if receipt.status != ApplyStatus::IdempotentReplay || receipt.idempotency_key
            != admission.idempotency_key {
            Err(
                validation_error(
                    LocalSessionValidationKind::InvalidPatchAdmission,
                    "message.patch_admission.status.replayed.receipt",
                ),
            )
        } else {
            Ok(())
        },
        _ => Ok(()),
    }
}

/// Validates the roles of a patch admission.
pub fn validate_patch_admission(admission: &PatchAdmission, receipt_valid: bool) -> (result: Result<
    (),
    LocalSessionValidationError,
>)
    ensures
        result == spec_patch_admission_check(*admission, receipt_valid),
{
    match admission.status {
        PatchAdmissionStatus::Superseded { superseded_idempotency_key } => {
            if superseded_idempotency_key == admission.idempotency_key {
                return Err(
                    invalid(
                        LocalSessionValidationKind::InvalidPatchAdmission,
                        "message.patch_admission.status.superseded.superseded_idempotency_key",
                    ),
                );
            }
            Ok(())
        },
        PatchAdmissionStatus::Replayed { receipt } => {
            if !receipt_valid {
                return Err(
                    invalid(
                        LocalSessionValidationKind::InvalidProtocolValue,
                        "message.patch_admission.status.replayed.receipt",
                    ),
                );
            }
            if receipt.status != ApplyStatus::IdempotentReplay || receipt.idempotency_key
                != admission.idempotency_key {
                return Err(
                    invalid(
                        LocalSessionValidationKind::InvalidPatchAdmission,
                        "message.patch_admission.status.replayed.receipt",
                    ),
                );
            }
            Ok(())
        },
        _ => Ok(()),
    }
}

/// The roles of a patch completion: a valid receipt of a patch applied now.
pub open spec fn spec_patch_completion_check(receipt: ReceiptSummary, receipt_valid: bool) -> Result<
    (),
    LocalSessionValidationError,
> {
    if !receipt_valid {
        Err(
            validation_error(
                LocalSessionValidationKind::InvalidProtocolValue,
                "message.patch_completed.receipt",
            ),
        )
    } else if receipt.status != ApplyStatus::Applied {
        Err(
            validation_error(
                LocalSessionValidationKind::InvalidPatchCompletion,
                "message.patch_completed.receipt.status",
            ),
        )
    } else {
        Ok(())
    }
}

/// Validates the roles of a patch completion.
pub fn validate_patch_completion(receipt: &ReceiptSummary, receipt_valid: bool) -> (result: Result<
    (),
    LocalSessionValidationError,
>)
    ensures
        result == spec_patch_completion_check(*receipt, receipt_valid),
{
    if !receipt_valid {
        return Err(
            invalid(LocalSessionValidationKind::InvalidProtocolValue, "message.patch_completed.receipt"),
        );
    }
    if receipt.status != ApplyStatus::Applied {
        return Err(
            invalid(
                LocalSessionValidationKind::InvalidPatchCompletion,
                "message.patch_completed.receipt.status",
            ),
        );
    }
    Ok(())
}

/// The roles of an imagination completion, checked in order: the result
/// encodes canonically, answers the same imagination, and carries a patch
/// exactly when it carries a valid receipt with `expected_status` whose key,
/// transaction, base revision, and operation count all match the patch.
pub open spec fn spec_imagination_completion_check(
    completion: ImaginationCompletion,
    receipt_valid: bool,
    expected_status: ApplyStatus,
) -> Result<(), LocalSessionValidationError> {
    let compilation = completion.compilation;
    let mismatch = Err(
        validation_error(
            LocalSessionValidationKind::InvalidImaginationCompletion,
            "message.imagination_completed.receipt",
        ),
    );
    if !compilation.canonical {
        Err(
            validation_error(
                LocalSessionValidationKind::InvalidCompilationResult,
                "message.imagination_completed.compilation",
            ),
        )
    } else if compilation.imagination_id != completion.imagination_id {
        Err(
            validation_error(
                LocalSessionValidationKind::InvalidImaginationCompletion,
                "message.imagination_completed.imagination_id",
            ),
        )
    } else {
        match (compilation.patch, completion.receipt) {
            (Some(patch), Some(receipt)) => if !receipt_valid {
                Err(
                    validation_error(
                        LocalSessionValidationKind::InvalidProtocolValue,
                        "message.imagination_completed.receipt",
                    ),
                )
            } else if receipt.status != expected_status || completion.idempotency_key
                != patch.idempotency_key || receipt.idempotency_key != completion.idempotency_key
                || receipt.transaction_id != patch.transaction_id || receipt.previous_revision
                != compilation.scene_revision || patch.base_revision != compilation.scene_revision
                || receipt.operation_count != patch.operation_count {
                mismatch
            } else {
                Ok(())
            },
            (None, None) => Ok(()),
            _ => mismatch,
        }
    }
}

/// Validates the roles of an imagination completion.
pub fn validate_imagination_completion(
    completion: &ImaginationCompletion,
    receipt_valid: bool,
    expected_status: ApplyStatus,
) -> (result: Result<(), LocalSessionValidationError>)
    ensures
        result == spec_imagination_completion_check(*completion, receipt_valid, expected_status),
{
    let compilation = completion.compilation;
    if !compilation.canonical {
        return Err(
            invalid(
                LocalSessionValidationKind::InvalidCompilationResult,
                "message.imagination_completed.compilation",
            ),
        );
    }
    if compilation.imagination_id != completion.imagination_id {
        return Err(
            invalid(
                LocalSessionValidationKind::InvalidImaginationCompletion,
                "message.imagination_completed.imagination_id",
            ),
        );
    }
    match (compilation.patch, completion.receipt) {
        (Some(patch), Some(receipt)) => {
            if !receipt_valid {
                return Err(
                    invalid(
                        LocalSessionValidationKind::InvalidProtocolValue,
                        "message.imagination_completed.receipt",
                    ),
                );
            }
            if receipt.status != expected_status || completion.idempotency_key
                != patch.idempotency_key || receipt.idempotency_key != completion.idempotency_key
                || receipt.transaction_id != patch.transaction_id || receipt.previous_revision
                != compilation.scene_revision || patch.base_revision != compilation.scene_revision
                || receipt.operation_count != patch.operation_count {
                return Err(
                    invalid(
                        LocalSessionValidationKind::InvalidImaginationCompletion,
                        "message.imagination_completed.receipt",
                    ),
                );
            }
            Ok(())
        },
        (None, None) => Ok(()),
        _ => Err(
            invalid(
                LocalSessionValidationKind::InvalidImaginationCompletion,
                "message.imagination_completed.receipt",
            ),
        ),
    }
}

/// The roles of an imagination admission: a supersession names another key,
/// and a replay carries a replay-marked completion of the same imagination
/// and key.
pub open spec fn spec_imagination_admission_check(
    admission: ImaginationAdmission,
    receipt_valid: bool,
) -> Result<(), LocalSessionValidationError> {
    match admission.status {
        ImaginationAdmissionStatus::Superseded { superseded_idempotency_key } => if superseded_idempotency_key
            == admission.idempotency_key {
            Err(
                validation_error(
                    LocalSessionValidationKind::InvalidImaginationAdmission,
                    "message.imagination_admission.status.superseded.superseded_idempotency_key",
                ),
            )
        } else {
            Ok(())
        },
        ImaginationAdmissionStatus::Replayed { completion } => if completion.imagination_id
            != admission.imagination_id || completion.idempotency_key != admission.idempotency_key {
            Err(
                validation_error(
                    LocalSessionValidationKind::InvalidImaginationAdmission,
                    "message.imagination_admission.status.replayed.completion",
                ),
            )
        } else {
            spec_imagination_completion_check(
                completion,
                receipt_valid,
                ApplyStatus::IdempotentReplay,
            )
        },
        _ => Ok(()),
    }
}

/// Validates the roles of an imagination admission.
pub fn validate_imagination_admission(admission: &ImaginationAdmission, receipt_valid: bool) -> (result:
    Result<(), LocalSessionValidationError>)
    ensures
        result == spec_imagination_admission_check(*admission, receipt_valid),
{
    match admission.status {
        ImaginationAdmissionStatus::Superseded { superseded_idempotency_key } => {
            if superseded_idempotency_key == admission.idempotency_key {
                return Err(
                    invalid(
                        LocalSessionValidationKind::InvalidImaginationAdmission,
                        "message.imagination_admission.status.superseded.superseded_idempotency_key",
                    ),
                );
            }
            Ok(())
        },
        ImaginationAdmissionStatus::Replayed { completion } => {
            if completion.imagination_id != admission.imagination_id || completion.idempotency_key
                != admission.idempotency_key {
                return Err(
                    invalid(
                        LocalSessionValidationKind::InvalidImaginationAdmission,
                        "message.imagination_admission.status.replayed.completion",
                    ),
                );
            }
            validate_imagination_completion(&completion, receipt_valid, ApplyStatus::IdempotentReplay)
        },
        _ => Ok(()),
    }
}

/// Whether a server message carries compilation results (or their bounds)
/// and so, in schema version two, needs explicit compilation limits.
pub open spec fn needs_explicit_compilation_limits(message: ServerMessage) -> bool {
    ||| message is Hello
    ||| message is ImaginationCompleted
    ||| (message matches ServerMessage::ImaginationAdmission(a) && a.status is Replayed)
}

/// What validating a server message gives, checked in order: the schema
/// version; explicit compilation limits where version two needs them; the
/// applicable compilation limits (explicit, else `runtime_default`); then the
/// message's own roles. `nested_valid` says whether the message's nested
/// protocol value (receipt or query result), if any, satisfies its own schema.
pub open spec fn spec_server_message_check(
    version: u16,
    message: ServerMessage,
    config: LocalFrameConfig,
    explicit: Option<CompilationLimits>,
    runtime_default: CompilationLimits,
    nested_valid: bool,
) -> Result<(), LocalSessionValidationError> {
    let compilation = match explicit {
        Some(limits) => limits,
        None => runtime_default,
    };
    if spec_version_check(version) is Err {
        spec_version_check(version)
    } else if version == 2 && explicit is None && needs_explicit_compilation_limits(message) {
        Err(
            validation_error(
                LocalSessionValidationKind::InvalidCompilationLimits,
                "message.version_two.explicit_compilation_limits",
            ),
        )
    } else if spec_compilation_check(compilation) is Err {
        spec_compilation_check(compilation)
    } else {
        match message {
            ServerMessage::Hello(hello) => match hello.effective_limits.spec_check() {
                Err(e) => Err(e),
                Ok(()) => match LocalSessionLimits::spec_from_config(config) {
                    Err(e) => Err(e),
                    Ok(available) => if !hello.effective_limits.fits(available) {
                        Err(limits_error("message.hello.effective_limits"))
                    } else {
                        spec_server_hello_compilation_check(version, hello, compilation)
                    },
                },
            },
            ServerMessage::PatchAdmission(admission) => spec_patch_admission_check(
                admission,
                nested_valid,
            ),
            ServerMessage::PatchCompleted { receipt } => spec_patch_completion_check(
                receipt,
                nested_valid,
            ),
            ServerMessage::ImaginationAdmission(admission) => if version != 2 {
                Err(
                    validation_error(
                        LocalSessionValidationKind::InvalidVersionVariant,
                        "message.imagination_admission",
                    ),
                )
            } else {
                spec_imagination_admission_check(admission, nested_valid)
            },
            ServerMessage::ImaginationCompleted(completion) => if version != 2 {
                Err(
                    validation_error(
                        LocalSessionValidationKind::InvalidVersionVariant,
                        "message.imagination_completed",
                    ),
                )
            } else {
                spec_imagination_completion_check(completion, nested_valid, ApplyStatus::Applied)
            },
            ServerMessage::QueryResult => if nested_valid {
                Ok(())
            } else {
                Err(
                    validation_error(
                        LocalSessionValidationKind::InvalidProtocolValue,
                        "message.query_result.result",
                    ),
                )
            },
            _ => Ok(()),
        }
    }
}


/// Validates a server message against the session's frame policy and
/// compilation limits.
pub fn validate_server_message(
    version: u16,
    message: &ServerMessage,
    config: &LocalFrameConfig,
    explicit: Option<CompilationLimits>,
    runtime_default: CompilationLimits,
    nested_valid: bool,
) -> (result: Result<(), LocalSessionValidationError>)
    ensures
        result == spec_server_message_check(
            version,
            *message,
            *config,
            explicit,
            runtime_default,
            nested_valid,
        ),
{
    match validate_version(version) {
        Err(e) => {
            return Err(e);
        },
        Ok(()) => {},
    }
    let needs_explicit = match message {
        ServerMessage::Hello(_) => true,
        ServerMessage::ImaginationCompleted(_) => true,
        ServerMessage::ImaginationAdmission(admission) => match admission.status {
            ImaginationAdmissionStatus::Replayed { .. } => true,
            _ => false,
        },
        _ => false,
    };
    if version == 2 && explicit.is_none() && needs_explicit {
        return Err(
            invalid(
                LocalSessionValidationKind::InvalidCompilationLimits,
                "message.version_two.explicit_compilation_limits",
            ),
        );
    }
    let compilation = match explicit {
        Some(limits) => limits,
        None => runtime_default,
    };
    match validate_compilation_limits(&compilation) {
        Err(e) => {
            return Err(e);
        },
        Ok(()) => {},
    }
    match message {
        ServerMessage::Hello(hello) => {
            match hello.effective_limits.validate() {
                Err(e) => {
                    return Err(e);
                },
                Ok(()) => {},
            }
            match hello.effective_limits.fits_within_config(config) {
                Err(e) => {
                    return Err(e);
                },
                Ok(()) => {},
            }
            validate_server_hello(version, hello, &compilation)
        },
        ServerMessage::PatchAdmission(admission) => validate_patch_admission(admission, nested_valid),
        ServerMessage::PatchCompleted { receipt } => validate_patch_completion(receipt, nested_valid),
        ServerMessage::ImaginationAdmission(admission) => {
            match require_v2(version, "message.imagination_admission") {
                Err(e) => {
                    return Err(e);
                },
                Ok(()) => {},
            }
            validate_imagination_admission(admission, nested_valid)
        },
        ServerMessage::ImaginationCompleted(completion) => {
            match require_v2(version, "message.imagination_completed") {
                Err(e) => {
                    return Err(e);
                },
                Ok(()) => {},
            }
            validate_imagination_completion(completion, nested_valid, ApplyStatus::Applied)
        },
        ServerMessage::QueryResult => {
            if nested_valid {
                Ok(())
            } else {
                Err(
                    invalid(
                        LocalSessionValidationKind::InvalidProtocolValue,
                        "message.query_result.result",
                    ),
                )
            }
        },
        _ => Ok(()),
    }
}

/// Whether a client message may carry schema version two outside a session
/// that negotiated version-two compilation limits: only the hello that
/// proposes them and the version-two-only imagination request.
pub open spec fn opens_version_two(message: ClientMessage) -> bool {
    message is Hello || message is SubmitImagination
}

/// What validating a client message gives: the schema version, then the
/// message's own roles. `explicit` holds the negotiated compilation limits
/// when the message is decoded inside a version-two session; without them,
/// version two is unsupported for every message but those that open it.
/// `nested_valid` says whether the message's nested protocol value (patch,
/// imagination, query, or request), if any, satisfies its own schema within
/// the runtime limits.
pub open spec fn spec_client_message_check(
    version: u16,
    message: ClientMessage,
    explicit: Option<CompilationLimits>,
    nested_valid: bool,
) -> Result<(), LocalSessionValidationError> {
    let nested = |field: &'static str|
        if nested_valid {
            Ok::<(), LocalSessionValidationError>(())
        } else {
            Err::<(), LocalSessionValidationError>(
                validation_error(LocalSessionValidationKind::InvalidProtocolValue, field),
            )
        };
    if spec_version_check(version) is Err {
        spec_version_check(version)
    } else if version == 2 && explicit is None && !opens_version_two(message) {
        Err(validation_error(LocalSessionValidationKind::UnsupportedVersion, "schema_version"))
    } else {
        match message {
            ClientMessage::Hello(hello) => spec_client_hello_check(version, hello),
            ClientMessage::SubmitPatch => nested("message.submit_patch.patch"),
            ClientMessage::SubmitImagination => if version != 2 {
                Err(
                    validation_error(
                        LocalSessionValidationKind::InvalidVersionVariant,
                        "message.submit_imagination",
                    ),
                )
            } else {
                nested("message.submit_imagination.imagination")
            },
            ClientMessage::Query => nested("message.query.query"),
            ClientMessage::RequestObservation => nested("message.request_observation.request"),
            ClientMessage::Close(_) => Ok(()),
        }
    }
}

fn nested_check(nested_valid: bool, field: &'static str) -> (result: Result<
    (),
    LocalSessionValidationError,
>)
    ensures
        nested_valid ==> result == Ok::<(), LocalSessionValidationError>(()),
        !nested_valid ==> result == Err::<(), LocalSessionValidationError>(
            validation_error(LocalSessionValidationKind::InvalidProtocolValue, field),
        ),
{
    if nested_valid {
        Ok(())
    } else {
        Err(invalid(LocalSessionValidationKind::InvalidProtocolValue, field))
    }
}

/// Validates a client message.
pub fn validate_client_message(
    version: u16,
    message: &ClientMessage,
    explicit: Option<CompilationLimits>,
    nested_valid: bool,
) -> (result: Result<(), LocalSessionValidationError>)
    ensures
        result == spec_client_message_check(version, *message, explicit, nested_valid),
{
    match validate_version(version) {
        Err(e) => {
            return Err(e);
        },
        Ok(()) => {},
    }
    let opens = match message {
        ClientMessage::Hello(_) => true,
        ClientMessage::SubmitImagination => true,
        _ => false,
    };
    if version == LOCAL_SESSION_SCHEMA_VERSION_V2 && explicit.is_none() && !opens {
        return Err(invalid(LocalSessionValidationKind::UnsupportedVersion, "schema_version"));
    }
    match message {
        ClientMessage::Hello(hello) => validate_client_hello(version, hello),
        ClientMessage::SubmitPatch => nested_check(nested_valid, "message.submit_patch.patch"),
        ClientMessage::SubmitImagination => {
            match require_v2(version, "message.submit_imagination") {
                Err(e) => {
                    return Err(e);
                },
                Ok(()) => {},
            }
            nested_check(nested_valid, "message.submit_imagination.imagination")
        },
        ClientMessage::Query => nested_check(nested_valid, "message.query.query"),
        ClientMessage::RequestObservation => nested_check(
            nested_valid,
            "message.request_observation.request",
        ),
        ClientMessage::Close(_) => Ok(()),
    }
}

} // verus!
