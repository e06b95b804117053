//! Session message roles, version gates, and payload-free failure codes.

use cogniform::compilation::{ClientHello, CompilationLimits, ServerHello};
use cogniform::control::{check_canonical, check_direction, control_frame_bytes, LocalSessionError};
use cogniform::frame::{LocalFrame, LocalFrameConfig};
use cogniform::limits::RuntimeLimits;
use cogniform::message::{
    validate_client_message, validate_imagination_admission, validate_imagination_completion,
    validate_patch_admission, validate_patch_completion, validate_server_message, ApplyStatus,
    ClientMessage, CompilationSummary, CompiledPatch, ImaginationAdmission,
    ImaginationAdmissionStatus, ImaginationCompletion, PatchAdmission, PatchAdmissionStatus,
    ReceiptSummary, ServerMessage, SessionClose, SessionClosed, SessionFailure,
    SessionFailureCode,
};
use cogniform::session::{LocalSessionLimits, LocalSessionValidationKind};

fn config() -> LocalFrameConfig {
    LocalFrameConfig::default()
}

fn session_limits() -> LocalSessionLimits {
    LocalSessionLimits::from_config(&config()).unwrap()
}

fn compilation_limits() -> CompilationLimits {
    CompilationLimits {
        max_encoded_bytes: 1_048_576,
        max_decoded_bytes: 4_194_304,
        max_json_nesting_depth: 32,
        max_text_bytes: 4_096,
        max_decisions: 256,
        max_unresolved_constraints: 64,
        patch_limits: RuntimeLimits::default(),
    }
}

fn receipt(status: ApplyStatus) -> ReceiptSummary {
    ReceiptSummary {
        idempotency_key: 2,
        transaction_id: 1,
        status,
        previous_revision: 7,
        operation_count: 1,
    }
}

fn server_kind(message: &ServerMessage) -> Option<LocalSessionValidationKind> {
    validate_server_message(1, message, &config(), None, compilation_limits(), true)
        .err()
        .map(|error| error.kind())
}

fn completion(with_patch: bool, status: ApplyStatus) -> ImaginationCompletion {
    ImaginationCompletion {
        imagination_id: 9,
        idempotency_key: 2,
        compilation: CompilationSummary {
            imagination_id: 9,
            scene_revision: 7,
            patch: if with_patch {
                Some(CompiledPatch {
                    idempotency_key: 2,
                    transaction_id: 1,
                    base_revision: 7,
                    operation_count: 1,
                })
            } else {
                None
            },
            canonical: true,
        },
        receipt: if with_patch { Some(receipt(status)) } else { None },
    }
}

#[test]
fn nested_core_values_and_receipt_roles_are_validated() {
    let invalid_request = validate_client_message(1, &ClientMessage::RequestObservation, None, false);
    assert_eq!(invalid_request.unwrap_err().kind(), LocalSessionValidationKind::InvalidProtocolValue);
    assert_eq!(validate_client_message(1, &ClientMessage::RequestObservation, None, true), Ok(()));

    let wrong_completion = ServerMessage::PatchCompleted { receipt: receipt(ApplyStatus::IdempotentReplay) };
    assert_eq!(server_kind(&wrong_completion), Some(LocalSessionValidationKind::InvalidPatchCompletion));

    let mismatched_replay = ServerMessage::PatchAdmission(PatchAdmission {
        idempotency_key: 10,
        status: PatchAdmissionStatus::Replayed { receipt: receipt(ApplyStatus::IdempotentReplay) },
    });
    assert_eq!(server_kind(&mismatched_replay), Some(LocalSessionValidationKind::InvalidPatchAdmission));

    let self_supersession = ServerMessage::PatchAdmission(PatchAdmission {
        idempotency_key: 2,
        status: PatchAdmissionStatus::Superseded { superseded_idempotency_key: 2 },
    });
    assert_eq!(server_kind(&self_supersession), Some(LocalSessionValidationKind::InvalidPatchAdmission));
}

#[test]
fn advertised_limits_must_be_self_consistent() {
    let mut limits = session_limits();
    limits.max_control_message_bytes = limits.max_frame_bytes;
    let hello = ClientMessage::Hello(ClientHello { receive_limits: limits, compilation_receive_limits: None });
    let error = validate_client_message(1, &hello, None, true).unwrap_err();
    assert_eq!(error.kind(), LocalSessionValidationKind::InvalidLimits);
}

#[test]
fn server_effective_limits_cannot_exceed_the_active_receive_configuration() {
    let mut limits = session_limits();
    limits.max_visibility_entries = limits.max_visibility_entries.checked_add(1).unwrap();
    let hello = ServerMessage::Hello(ServerHello { effective_limits: limits, effective_compilation_limits: None });
    assert_eq!(server_kind(&hello), Some(LocalSessionValidationKind::InvalidLimits));
    let fitting = ServerMessage::Hello(ServerHello {
        effective_limits: session_limits(),
        effective_compilation_limits: None,
    });
    assert_eq!(server_kind(&fitting), None);
}

#[test]
fn version_two_messages_need_explicit_compilation_limits() {
    let hello = ServerMessage::Hello(ServerHello {
        effective_limits: session_limits(),
        effective_compilation_limits: Some(compilation_limits()),
    });
    let error = validate_server_message(2, &hello, &config(), None, compilation_limits(), true).unwrap_err();
    assert_eq!(error.kind(), LocalSessionValidationKind::InvalidCompilationLimits);
    assert_eq!(error.field(), "message.version_two.explicit_compilation_limits");
    assert_eq!(
        validate_server_message(2, &hello, &config(), Some(compilation_limits()), compilation_limits(), true),
        Ok(())
    );
    let failure = ServerMessage::Failure(SessionFailure { code: SessionFailureCode::Internal });
    assert_eq!(validate_server_message(2, &failure, &config(), None, compilation_limits(), true), Ok(()));
}

#[test]
fn imagination_messages_are_version_two_only() {
    let completed = ServerMessage::ImaginationCompleted(completion(true, ApplyStatus::Applied));
    assert_eq!(server_kind(&completed), Some(LocalSessionValidationKind::InvalidVersionVariant));
    assert_eq!(
        validate_server_message(2, &completed, &config(), Some(compilation_limits()), compilation_limits(), true),
        Ok(())
    );
    let submit = validate_client_message(1, &ClientMessage::SubmitImagination, None, true).unwrap_err();
    assert_eq!(submit.kind(), LocalSessionValidationKind::InvalidVersionVariant);
    assert_eq!(submit.field(), "message.submit_imagination");
    assert_eq!(validate_client_message(2, &ClientMessage::SubmitImagination, None, true), Ok(()));
}

#[test]
fn unsupported_versions_are_rejected_first() {
    let close = validate_client_message(3, &ClientMessage::Close(SessionClose {}), None, true).unwrap_err();
    assert_eq!(close.kind(), LocalSessionValidationKind::UnsupportedVersion);
    assert_eq!(close.field(), "schema_version");
    let version_two_close =
        validate_client_message(2, &ClientMessage::Close(SessionClose {}), None, true).unwrap_err();
    assert_eq!(version_two_close.kind(), LocalSessionValidationKind::UnsupportedVersion);
    assert_eq!(version_two_close.field(), "schema_version");
    assert_eq!(
        validate_client_message(2, &ClientMessage::Close(SessionClose {}), Some(compilation_limits()), true),
        Ok(())
    );
    let closed = ServerMessage::Closed(SessionClosed {});
    let error = validate_server_message(0, &closed, &config(), None, compilation_limits(), true).unwrap_err();
    assert_eq!(error.kind(), LocalSessionValidationKind::UnsupportedVersion);
}

#[test]
fn imagination_completion_roles_bind_patch_and_receipt() {
    assert_eq!(validate_imagination_completion(&completion(true, ApplyStatus::Applied), true, ApplyStatus::Applied), Ok(()));
    assert_eq!(validate_imagination_completion(&completion(false, ApplyStatus::Applied), true, ApplyStatus::Applied), Ok(()));

    let wrong_status =
        validate_imagination_completion(&completion(true, ApplyStatus::IdempotentReplay), true, ApplyStatus::Applied);
    assert_eq!(wrong_status.unwrap_err().field(), "message.imagination_completed.receipt");

    let mut missing_receipt = completion(true, ApplyStatus::Applied);
    missing_receipt.receipt = None;
    assert_eq!(
        validate_imagination_completion(&missing_receipt, true, ApplyStatus::Applied).unwrap_err().kind(),
        LocalSessionValidationKind::InvalidImaginationCompletion
    );

    let mut other_imagination = completion(true, ApplyStatus::Applied);
    other_imagination.compilation.imagination_id = 10;
    assert_eq!(
        validate_imagination_completion(&other_imagination, true, ApplyStatus::Applied).unwrap_err().field(),
        "message.imagination_completed.imagination_id"
    );

    let mut noncanonical = completion(true, ApplyStatus::Applied);
    noncanonical.compilation.canonical = false;
    assert_eq!(
        validate_imagination_completion(&noncanonical, true, ApplyStatus::Applied).unwrap_err().kind(),
        LocalSessionValidationKind::InvalidCompilationResult
    );

    let mut moved_base = completion(true, ApplyStatus::Applied);
    if let Some(patch) = moved_base.compilation.patch.as_mut() {
        patch.base_revision = 8;
    }
    assert!(validate_imagination_completion(&moved_base, true, ApplyStatus::Applied).is_err());

    assert_eq!(
        validate_imagination_completion(&completion(true, ApplyStatus::Applied), false, ApplyStatus::Applied)
            .unwrap_err()
            .kind(),
        LocalSessionValidationKind::InvalidProtocolValue
    );
}

#[test]
fn imagination_admission_replays_must_match_their_request() {
    let replayed = ImaginationAdmission {
        imagination_id: 9,
        idempotency_key: 2,
        status: ImaginationAdmissionStatus::Replayed {
            completion: completion(true, ApplyStatus::IdempotentReplay),
        },
    };
    assert_eq!(validate_imagination_admission(&replayed, true), Ok(()));
    let foreign = ImaginationAdmission { imagination_id: 8, ..replayed };
    assert_eq!(
        validate_imagination_admission(&foreign, true).unwrap_err().field(),
        "message.imagination_admission.status.replayed.completion"
    );
    let self_superseded = ImaginationAdmission {
        imagination_id: 9,
        idempotency_key: 2,
        status: ImaginationAdmissionStatus::Superseded { superseded_idempotency_key: 2 },
    };
    assert_eq!(
        validate_imagination_admission(&self_superseded, true).unwrap_err().kind(),
        LocalSessionValidationKind::InvalidImaginationAdmission
    );
}

#[test]
fn patch_roles_accept_consistent_answers() {
    let queued = PatchAdmission { idempotency_key: 2, status: PatchAdmissionStatus::Queued };
    assert_eq!(validate_patch_admission(&queued, true), Ok(()));
    let replayed = PatchAdmission {
        idempotency_key: 2,
        status: PatchAdmissionStatus::Replayed { receipt: receipt(ApplyStatus::IdempotentReplay) },
    };
    assert_eq!(validate_patch_admission(&replayed, true), Ok(()));
    assert_eq!(
        validate_patch_admission(&replayed, false).unwrap_err().kind(),
        LocalSessionValidationKind::InvalidProtocolValue
    );
    assert_eq!(validate_patch_completion(&receipt(ApplyStatus::Applied), true), Ok(()));
}

#[test]
fn completed_observation_frames_cannot_be_substituted_for_control() {
    let frame = LocalFrame::Observation { correlation_id: 1, metadata: vec![1], payload: vec![2] };
    assert!(matches!(control_frame_bytes(&frame), Err(LocalSessionError::WrongFrameKind)));
    let control = LocalFrame::Control { correlation_id: 77, bytes: b"{}\n".to_vec() };
    let (correlation_id, bytes) = control_frame_bytes(&control).unwrap();
    assert_eq!(correlation_id, 77);
    assert_eq!(bytes, b"{}\n");
}

#[test]
fn direction_version_unknown_and_canonical_substitutions_are_rejected() {
    // Bytes of the other direction's shape are refused after the bounds.
    let server_failure: &[u8] = b"{\"schema_version\":1,\"message\":{\"failure\":{\"code\":\"internal\"}}}\n";
    assert_eq!(check_direction(server_failure, &config(), true), Err(LocalSessionError::WrongDirection));
    assert!(check_direction(server_failure, &config(), false).is_ok());

    // A version-two close outside a version-two session is unsupported.
    let unsupported = validate_client_message(2, &ClientMessage::Close(SessionClose {}), None, true);
    assert!(matches!(
        unsupported,
        Err(error) if error.kind() == LocalSessionValidationKind::UnsupportedVersion
    ));

    let canonical: &[u8] = b"{\"schema_version\":1,\"message\":{\"close\":{}}}\n";
    assert_eq!(check_canonical(canonical, canonical), Ok(()));
    let no_lf = &canonical[..canonical.len() - 1];
    assert_eq!(check_canonical(no_lf, canonical), Err(LocalSessionError::NonCanonicalMessage));
    let spaced: &[u8] = b"{ \"schema_version\":1,\"message\":{\"close\":{}}}\n";
    assert_eq!(check_canonical(spaced, canonical), Err(LocalSessionError::NonCanonicalMessage));
}
