//! Session lifecycle and live-correlation bookkeeping coverage.

use cogniform::compilation::CompilationLimits;
use cogniform::control::{JsonErrorCategory, LocalSessionError};
use cogniform::executor::{
    classify_gateway_error, classify_observation_error, completion_reply, count, default_failure, effective_receive_limits, supersession_notice, ActiveStep, AdmissionDecision, FrameRoute, ObservationStep, PollOutcome,
    ClientMessageKind, CompletionReply, HelloDecision, LocalExecutorConfig, LocalExecutorError,
    LocalExecutorPhase, PendingCommand, PendingKind, ServiceAdmission, ServiceCompletion,
    ServiceOperation, ServiceResponse, ServiceSnapshot, ServiceState, SessionLedger, SubmittedImagination,
    MAX_OUTPUT_FRAMES_PER_CALL,
};
use cogniform::frame::LocalFrameConfig;
use cogniform::gateway::{CompilerFailure, GatewayError};
use cogniform::observation::ObservationError;
use cogniform::limits::RuntimeLimits;
use cogniform::message::{
    decode_failure_code, ApplyStatus, CompilationSummary, CompiledPatch, ReceiptSummary,
    SessionFailureCode,
};
use cogniform::session::{
    LocalSessionLimits, LocalSessionValidationError, LocalSessionValidationKind,
};

const COMMAND_CAPACITY: u32 = 64;
const OBSERVATION_CAPACITY: u32 = 8;

fn compilation_limits() -> CompilationLimits {
    CompilationLimits {
        max_encoded_bytes: 1_048_576,
        max_decoded_bytes: 4_194_304,
        max_json_nesting_depth: 32,
        max_text_bytes: 4_096,
        max_decisions: 256,
        max_unresolved_constraints: 64,
        patch_limits: RuntimeLimits::default(),
    }
}

fn config(max_live_correlations: u32) -> LocalExecutorConfig {
    LocalExecutorConfig {
        receive_config: LocalFrameConfig::default(),
        compilation_limits: compilation_limits(),
        max_live_correlations,
        max_output_frames_per_call: 2,
    }
}

fn quiet() -> ServiceSnapshot {
    ServiceSnapshot { command_depth: 0, outstanding_observations: 0 }
}

fn ledger_with(
    config: &LocalExecutorConfig,
    service_limits: RuntimeLimits,
    command_capacity: u32,
    snapshot: ServiceSnapshot,
) -> Result<SessionLedger, LocalExecutorError> {
    let (_, effective) = effective_receive_limits(&config.receive_config, service_limits)?;
    SessionLedger::new(
        config,
        effective,
        compilation_limits(),
        compilation_limits(),
        service_limits.max_queue_capacity,
        command_capacity,
        OBSERVATION_CAPACITY,
        snapshot,
    )
}

fn ledger(max_live_correlations: u32) -> SessionLedger {
    ledger_with(&config(max_live_correlations), RuntimeLimits::default(), COMMAND_CAPACITY, quiet())
        .unwrap()
}

fn open(ledger: &mut SessionLedger, schema_version: u16) {
    let limits = LocalSessionLimits::from_config(&LocalFrameConfig::default()).unwrap();
    let advertised = if schema_version == 2 { Some(compilation_limits()) } else { None };
    match ledger.decide_hello(schema_version, Some((limits, advertised))).unwrap() {
        HelloDecision::Accept { limits, compilation_limits, frame_config } => {
            ledger.complete_hello(schema_version, limits, compilation_limits, frame_config)
        }
        HelloDecision::Reject { code, .. } => panic!("hello rejected with {code:?}"),
    }
}

/// Submits a patch as the executor does; returns the reply's admission status
/// or failure and commits what the decision asks for.
fn submit(
    ledger: &mut SessionLedger,
    correlation_id: u64,
    key: u128,
    kind: PendingKind,
    admission: ServiceAdmission,
    service: (u32, u32),
) -> Result<AdmissionDecision, SessionFailureCode> {
    let (service_depth, service_capacity) = service;
    ledger.check_active_message(correlation_id, 1, ClientMessageKind::SubmitPatch)?;
    if ledger.command_capacity_reached(service_depth, service_capacity) {
        return Err(SessionFailureCode::CapacityExceeded);
    }
    let decision = ledger.decide_admission(kind, key, admission, service_capacity).unwrap();
    match decision {
        AdmissionDecision::Queue { idempotency_key } => {
            ledger.commit_queued(correlation_id, idempotency_key, kind).unwrap()
        }
        AdmissionDecision::Supersede { idempotency_key, superseded_idempotency_key, .. } => ledger
            .commit_supersession(correlation_id, idempotency_key, superseded_idempotency_key, kind)
            .unwrap(),
        _ => {}
    }
    Ok(decision)
}

fn receipt(idempotency_key: u128, status: ApplyStatus) -> ReceiptSummary {
    ReceiptSummary {
        idempotency_key,
        transaction_id: idempotency_key - 100,
        status,
        previous_revision: 7,
        operation_count: 1,
    }
}

fn applied(key: u128) -> ServiceCompletion {
    ServiceCompletion::Processed(ServiceResponse::PatchApplied {
        receipt: receipt(key, ApplyStatus::Applied),
    })
}

fn submitted(nonce: u128) -> SubmittedImagination {
    SubmittedImagination {
        imagination_id: nonce,
        transaction_id: nonce,
        idempotency_key: nonce + 100,
        base_revision: 7,
    }
}

fn compiled(request: SubmittedImagination, with_patch: bool) -> CompilationSummary {
    CompilationSummary {
        imagination_id: request.imagination_id,
        scene_revision: request.base_revision,
        patch: if with_patch {
            Some(CompiledPatch {
                idempotency_key: request.idempotency_key,
                transaction_id: request.transaction_id,
                base_revision: request.base_revision,
                operation_count: 1,
            })
        } else {
            None
        },
        canonical: true,
    }
}

#[test]
fn constructor_requires_quiescent_service_and_bounded_config() {
    let busy = ServiceSnapshot { command_depth: 1, outstanding_observations: 0 };
    assert!(matches!(
        ledger_with(&config(1_024), RuntimeLimits::default(), COMMAND_CAPACITY, busy),
        Err(LocalExecutorError::ServiceNotQuiescent { commands: 1, .. })
    ));

    let output_config = LocalExecutorConfig { max_output_frames_per_call: 1, ..config(1_024) };
    assert!(matches!(
        ledger_with(&output_config, RuntimeLimits::default(), COMMAND_CAPACITY, quiet()),
        Err(LocalExecutorError::InvalidConfig { .. })
    ));

    let bounded = ledger(1_024);
    assert_eq!(bounded.status().live_correlation_capacity, 72);
    assert_eq!(bounded.status().max_output_frames_per_call as usize, MAX_OUTPUT_FRAMES_PER_CALL);
    assert_eq!(bounded.status().phase, LocalExecutorPhase::AwaitingHello);
}

#[test]
fn configured_live_capacity_rejects_before_service_work_and_releases_for_reuse() {
    let mut ledger = ledger(1);
    open(&mut ledger, 1);
    submit(&mut ledger, 70, 101, PendingKind::Patch, ServiceAdmission::Queued { idempotency_key: 101 }, (0, COMMAND_CAPACITY))
        .unwrap();
    assert_eq!(ledger.status().live_correlations, 1);
    assert_eq!(ledger.status().live_correlation_capacity, 1);

    assert_eq!(ledger.check_active_message(71, 1, ClientMessageKind::RequestObservation), Ok(()));
    assert_eq!(
        ledger.check_observation_request(171, OBSERVATION_CAPACITY, 1, 1),
        Err(SessionFailureCode::CapacityExceeded)
    );

    let pending = ledger.take_next_command().unwrap();
    assert_eq!(pending.correlation_id, 70);
    assert_eq!(
        completion_reply(pending, applied(101), false),
        CompletionReply::PatchCompleted {
            receipt: receipt(101, ApplyStatus::Applied),
        }
    );
    assert_eq!(ledger.status().live_correlations, 0);

    assert_eq!(ledger.check_observation_request(171, OBSERVATION_CAPACITY, 1, 1), Ok(()));
    ledger.commit_observation(71, 171, 3).unwrap();
    assert_eq!(ledger.status().live_correlations, 1);
    assert_eq!(ledger.status().pending_observations, 1);
}

#[test]
fn service_runtime_limits_participate_in_hello_negotiation() {
    let runtime_limits = RuntimeLimits { max_query_entities: 1, ..RuntimeLimits::default() };
    let mut ledger =
        ledger_with(&config(1_024), runtime_limits, COMMAND_CAPACITY, quiet()).unwrap();
    open(&mut ledger, 1);
    assert_eq!(ledger.negotiated_limits().unwrap().runtime_limits.max_query_entities, 1);
}

#[test]
fn version_two_compilation_limits_negotiate_fieldwise() {
    let local = CompilationLimits { max_decisions: 100, ..compilation_limits() };
    let executor_config = LocalExecutorConfig { compilation_limits: local, ..config(1_024) };
    let mut ledger =
        ledger_with(&executor_config, RuntimeLimits::default(), COMMAND_CAPACITY, quiet()).unwrap();
    let advertised = CompilationLimits { max_encoded_bytes: 2_000_000, ..compilation_limits() };
    let hello_limits = LocalSessionLimits::from_config(&LocalFrameConfig::default()).unwrap();
    let decision = ledger.decide_hello(2, Some((hello_limits, Some(advertised)))).unwrap();
    let expected = CompilationLimits { max_decisions: 100, ..compilation_limits() };
    match decision {
        HelloDecision::Accept { limits, compilation_limits, frame_config } => {
            assert_eq!(compilation_limits, Some(expected));
            ledger.complete_hello(2, limits, compilation_limits, frame_config);
        }
        HelloDecision::Reject { .. } => panic!("version-two hello must be accepted"),
    }
    assert_eq!(ledger.negotiated_compilation_limits(), Some(expected));
    assert_eq!(ledger.output_context().schema_version, 2);
}

#[test]
fn exactly_one_hello_precedes_service_work_and_close_is_terminal() {
    let mut ledger = ledger(1_024);
    match ledger.decide_hello(1, None).unwrap() {
        HelloDecision::Reject { code, context } => {
            assert_eq!(code, SessionFailureCode::ProtocolState);
            assert_eq!(context.schema_version, 1);
        }
        HelloDecision::Accept { .. } => panic!("a query cannot open the session"),
    }
    match ledger.decide_hello(2, None).unwrap() {
        HelloDecision::Reject { code, context } => {
            assert_eq!(code, SessionFailureCode::ProtocolState);
            assert_eq!(context.schema_version, 2);
            assert_eq!(context.compilation_limits, None);
        }
        HelloDecision::Accept { .. } => panic!("a query cannot open the session"),
    }
    assert_eq!(ledger.current_phase(), LocalExecutorPhase::AwaitingHello);

    open(&mut ledger, 1);
    assert_eq!(
        ledger.check_active_message(3, 1, ClientMessageKind::Hello),
        Err(SessionFailureCode::ProtocolState)
    );

    assert_eq!(ledger.check_active_message(4, 1, ClientMessageKind::Close), Ok(()));
    assert_eq!(ledger.check_close(quiet()), Ok(()));
    ledger.commit_close().unwrap();
    assert_eq!(ledger.status().phase, LocalExecutorPhase::Closed);
    assert_eq!(ledger.current_phase(), LocalExecutorPhase::Closed);
    assert!(ledger.can_release_service());
}

#[test]
fn close_requires_nothing_outstanding() {
    let mut ledger = ledger(4);
    open(&mut ledger, 1);
    assert_eq!(
        ledger.check_close(ServiceSnapshot { command_depth: 1, outstanding_observations: 0 }),
        Err(SessionFailureCode::ProtocolState)
    );
    ledger.commit_observation(9, 90, 1).unwrap();
    assert_eq!(ledger.check_close(quiet()), Err(SessionFailureCode::ProtocolState));
    assert!(!ledger.can_release_service());
}

#[test]
fn patch_completion_releases_exact_correlation_and_allows_reuse() {
    let mut ledger = ledger_with(&config(1), RuntimeLimits::default(), 1, quiet()).unwrap();
    open(&mut ledger, 1);
    let queued = submit(
        &mut ledger,
        7,
        101,
        PendingKind::Patch,
        ServiceAdmission::Queued { idempotency_key: 101 },
        (0, 1),
    );
    assert_eq!(queued, Ok(AdmissionDecision::Queue { idempotency_key: 101 }));
    assert_eq!(ledger.status().live_correlations, 1);
    assert_eq!(
        ledger.check_active_message(7, 1, ClientMessageKind::Query),
        Err(SessionFailureCode::ProtocolState)
    );
    let pending = ledger.take_next_command().unwrap();
    assert_eq!(pending.correlation_id, 7);
    assert!(matches!(
        completion_reply(pending, applied(101), false),
        CompletionReply::PatchCompleted { .. }
    ));
    assert_eq!(ledger.status().live_correlations, 0);
    assert_eq!(ledger.check_active_message(7, 1, ClientMessageKind::Query), Ok(()));
}

#[test]
fn supersession_terminates_old_correlation_and_retains_new_queue_position() {
    let mut ledger = ledger_with(&config(1), RuntimeLimits::default(), 1, quiet()).unwrap();
    open(&mut ledger, 1);
    submit(
        &mut ledger,
        10,
        110,
        PendingKind::Patch,
        ServiceAdmission::Queued { idempotency_key: 110 },
        (0, 1),
    )
    .unwrap();
    let superseded = submit(
        &mut ledger,
        11,
        111,
        PendingKind::Patch,
        ServiceAdmission::Superseded { idempotency_key: 111, superseded_idempotency_key: 110 },
        (1, 1),
    );
    assert_eq!(
        superseded,
        Ok(AdmissionDecision::Supersede {
            idempotency_key: 111,
            superseded_idempotency_key: 110,
            superseded_correlation_id: 10,
        })
    );
    assert_eq!(ledger.status().live_correlations, 1);
    assert_eq!(ledger.check_active_message(10, 1, ClientMessageKind::Query), Ok(()));
    let next = ledger.take_next_command().unwrap();
    assert_eq!((next.correlation_id, next.idempotency_key), (11, 111));
    assert_eq!(ledger.status().live_correlations, 0);
}

#[test]
fn a_full_session_refuses_commands_while_the_service_has_room() {
    let mut ledger = ledger_with(&config(1), RuntimeLimits::default(), 2, quiet()).unwrap();
    open(&mut ledger, 1);
    ledger.commit_queued(10, 110, PendingKind::Patch).unwrap();
    assert!(ledger.command_capacity_reached(1, 2));
    assert!(!ledger.command_capacity_reached(2, 2));
    ledger.take_next_command().unwrap();
    assert!(!ledger.command_capacity_reached(0, 2));
}

#[test]
fn already_queued_dropped_and_replayed_admissions_are_terminal() {
    let mut ledger = ledger_with(&config(1), RuntimeLimits::default(), 1, quiet()).unwrap();
    open(&mut ledger, 1);
    let receipt = receipt(152, ApplyStatus::IdempotentReplay);
    let cases = [
        (50, 150, ServiceAdmission::Queued { idempotency_key: 150 }, (0, 1), AdmissionDecision::Queue { idempotency_key: 150 }),
        (51, 150, ServiceAdmission::AlreadyQueued { idempotency_key: 150 }, (1, 1), AdmissionDecision::AlreadyQueued { idempotency_key: 150 }),
        (52, 151, ServiceAdmission::Dropped { idempotency_key: 151 }, (1, 1), AdmissionDecision::Dropped { idempotency_key: 151 }),
        (
            53,
            152,
            ServiceAdmission::Replayed { response: ServiceResponse::PatchApplied { receipt } },
            (1, 1),
            AdmissionDecision::ReplayPatch { receipt },
        ),
    ];
    for (correlation_id, key, admission, service, expected) in cases {
        assert_eq!(
            submit(&mut ledger, correlation_id, key, PendingKind::Patch, admission, service),
            Ok(expected)
        );
    }
    assert_eq!(ledger.status().live_correlations, 1);
    assert_eq!(ledger.status().pending_patches, 1);
}

#[test]
fn observation_pending_is_once_and_completion_releases_exact_identity() {
    let mut ledger = ledger(1_024);
    open(&mut ledger, 1);
    ledger.commit_observation(20, 120, 3).unwrap();
    let reported = ledger.report_next_pending().unwrap();
    assert_eq!((reported.correlation_id, reported.observation_id, reported.scene_revision), (20, 120, 3));
    assert!(ledger.report_next_pending().is_none());
    assert_eq!(ledger.observation_correlation(120), Ok(20));
    ledger.release_observation(120).unwrap();
    assert_eq!(ledger.status().live_correlations, 0);
    assert_eq!(
        ledger.release_observation(120),
        Err(LocalExecutorError::StateInvariant {
            reason: "completed observation was absent from local order",
        })
    );
    assert_eq!(
        ledger.observation_correlation(120),
        Err(LocalExecutorError::StateInvariant {
            reason: "observation completion had no live correlation",
        })
    );
}

#[test]
fn failed_command_and_observation_paths_release_their_live_correlations() {
    let mut ledger = ledger(1_024);
    open(&mut ledger, 1);
    submit(
        &mut ledger,
        30,
        130,
        PendingKind::Patch,
        ServiceAdmission::Queued { idempotency_key: 130 },
        (0, COMMAND_CAPACITY),
    )
    .unwrap();
    ledger.commit_observation(31, 131, 1).unwrap();
    assert_eq!(ledger.status().live_correlations, 2);
    let pending = ledger.take_next_command().unwrap();
    assert_eq!(
        completion_reply(pending, ServiceCompletion::Failed(SessionFailureCode::CommandRejected), false),
        CompletionReply::Failure { code: SessionFailureCode::CommandRejected }
    );
    let first = ledger.first_observation().unwrap();
    assert_eq!(first.correlation_id, 31);
    ledger.release_observation(first.observation_id).unwrap();
    assert_eq!(ledger.status().live_correlations, 0);
}

#[test]
fn observation_identity_and_dimensions_reject_before_duplicate_service_work() {
    let mut ledger = ledger(1_024);
    open(&mut ledger, 1);
    assert_eq!(ledger.check_observation_request(162, OBSERVATION_CAPACITY, 1, 1), Ok(()));
    ledger.commit_observation(62, 162, 1).unwrap();
    assert_eq!(
        ledger.check_observation_request(162, OBSERVATION_CAPACITY, 1, 1),
        Err(SessionFailureCode::ObservationRejected)
    );

    let mut narrow = LocalFrameConfig::default();
    narrow.runtime_limits.max_observation_width = 1;
    narrow.runtime_limits.max_observation_pixels = 1;
    let narrow_config = LocalExecutorConfig { receive_config: narrow, ..config(1_024) };
    let service_limits = narrow.runtime_limits;
    let mut oversized =
        ledger_with(&narrow_config, service_limits, COMMAND_CAPACITY, quiet()).unwrap();
    let hello_limits = LocalSessionLimits::from_config(&narrow).unwrap();
    match oversized.decide_hello(1, Some((hello_limits, None))).unwrap() {
        HelloDecision::Accept { limits, compilation_limits, frame_config } => {
            oversized.complete_hello(1, limits, compilation_limits, frame_config)
        }
        HelloDecision::Reject { .. } => panic!("narrow hello must be accepted"),
    }
    assert_eq!(
        oversized.check_observation_request(164, OBSERVATION_CAPACITY, 2, 1),
        Err(SessionFailureCode::LimitExceeded)
    );
    assert_eq!(oversized.status().live_correlations, 0);
}

#[test]
fn imagination_already_queued_and_dropped_admissions_are_terminal() {
    let mut ledger = ledger(1_024);
    open(&mut ledger, 2);
    let request = submitted(25);
    let kind = PendingKind::Imagination { submitted: request };
    assert_eq!(ledger.check_imagination_version(), Ok(()));
    let key = request.idempotency_key;
    assert_eq!(
        ledger.decide_admission(kind, key, ServiceAdmission::Queued { idempotency_key: key }, COMMAND_CAPACITY),
        Ok(AdmissionDecision::Queue { idempotency_key: key })
    );
    ledger.commit_queued(2, key, kind).unwrap();
    assert_eq!(
        ledger.decide_admission(kind, key, ServiceAdmission::AlreadyQueued { idempotency_key: key }, COMMAND_CAPACITY),
        Ok(AdmissionDecision::AlreadyQueued { idempotency_key: key })
    );
    assert_eq!(ledger.status().live_correlations, 1);
    let dropped = submitted(26);
    assert_eq!(
        ledger.decide_admission(
            PendingKind::Imagination { submitted: dropped },
            dropped.idempotency_key,
            ServiceAdmission::Dropped { idempotency_key: dropped.idempotency_key },
            COMMAND_CAPACITY
        ),
        Ok(AdmissionDecision::Dropped { idempotency_key: dropped.idempotency_key })
    );
    assert_eq!(ledger.status().live_correlations, 1);
    assert_eq!(ledger.status().pending_imaginations, 1);
    assert_eq!(ledger.status().pending_patches, 0);
}

#[test]
fn imagination_requires_version_two() {
    let mut ledger = ledger(1_024);
    open(&mut ledger, 1);
    assert_eq!(ledger.check_imagination_version(), Err(SessionFailureCode::UnsupportedVersion));
}

#[test]
fn imagination_completion_binds_submitted_transaction_and_revision() {
    let request = submitted(80);
    let pending =
        PendingCommand { idempotency_key: request.idempotency_key, correlation_id: 2, kind: PendingKind::Imagination { submitted: request } };
    let applied_receipt = Some(receipt(request.idempotency_key, ApplyStatus::Applied));
    let consistent = ServiceCompletion::Processed(ServiceResponse::ImaginationProcessed {
        compilation: compiled(request, true),
        receipt: applied_receipt,
    });
    assert_eq!(completion_reply(pending, consistent, true), CompletionReply::ImaginationCompleted);

    let mut wrong_revision = compiled(request, true);
    wrong_revision.scene_revision = 8;
    assert_eq!(
        completion_reply(
            pending,
            ServiceCompletion::Processed(ServiceResponse::ImaginationProcessed { compilation: wrong_revision, receipt: applied_receipt }),
            true
        ),
        CompletionReply::Failure { code: SessionFailureCode::Internal }
    );

    let mut wrong_transaction = compiled(request, true);
    wrong_transaction.patch = Some(CompiledPatch {
        idempotency_key: request.idempotency_key,
        transaction_id: 999,
        base_revision: request.base_revision,
        operation_count: 1,
    });
    let mut ledger = ledger(1_024);
    open(&mut ledger, 2);
    let replay_receipt = Some(receipt(request.idempotency_key, ApplyStatus::IdempotentReplay));
    assert_eq!(
        ledger.decide_admission(
            PendingKind::Imagination { submitted: request },
            request.idempotency_key,
            ServiceAdmission::Replayed {
                response: ServiceResponse::ImaginationProcessed { compilation: wrong_transaction, receipt: replay_receipt },
            },
            COMMAND_CAPACITY
        ),
        Ok(AdmissionDecision::ReplayImagination { consistent: false })
    );
    assert_eq!(
        ledger.decide_admission(
            PendingKind::Imagination { submitted: request },
            request.idempotency_key,
            ServiceAdmission::Replayed {
                response: ServiceResponse::ImaginationProcessed { compilation: compiled(request, true), receipt: replay_receipt },
            },
            COMMAND_CAPACITY
        ),
        Ok(AdmissionDecision::ReplayImagination { consistent: true })
    );
    let mut unresolved = compiled(request, false);
    unresolved.scene_revision = 8;
    assert_eq!(
        ledger.decide_admission(
            PendingKind::Imagination { submitted: request },
            request.idempotency_key,
            ServiceAdmission::Replayed {
                response: ServiceResponse::ImaginationProcessed { compilation: unresolved, receipt: None },
            },
            COMMAND_CAPACITY
        ),
        Ok(AdmissionDecision::ReplayImagination { consistent: false })
    );
    assert_eq!(ledger.status().live_correlations, 0);
}

#[test]
fn unresolved_imagination_and_service_error_are_terminal_without_receipts() {
    let request = submitted(90);
    let pending =
        PendingCommand { idempotency_key: request.idempotency_key, correlation_id: 3, kind: PendingKind::Imagination { submitted: request } };
    let unresolved = ServiceCompletion::Processed(ServiceResponse::ImaginationProcessed {
        compilation: compiled(request, false),
        receipt: None,
    });
    assert_eq!(completion_reply(pending, unresolved, true), CompletionReply::ImaginationCompleted);
    assert_eq!(
        completion_reply(pending, ServiceCompletion::Failed(SessionFailureCode::ServiceUnavailable), true),
        CompletionReply::Failure { code: SessionFailureCode::ServiceUnavailable }
    );
    assert_eq!(
        completion_reply(pending, ServiceCompletion::Missing, true),
        CompletionReply::Failure { code: SessionFailureCode::Internal }
    );
}

#[test]
fn imagination_supersession_releases_old_correlation_and_retains_new_kind() {
    let mut ledger = ledger(1_024);
    open(&mut ledger, 2);
    let first = submitted(40);
    let second = submitted(41);
    let first_kind = PendingKind::Imagination { submitted: first };
    let second_kind = PendingKind::Imagination { submitted: second };
    ledger.commit_queued(4, first.idempotency_key, first_kind).unwrap();
    let decision = ledger
        .decide_admission(
            second_kind,
            second.idempotency_key,
            ServiceAdmission::Superseded {
                idempotency_key: second.idempotency_key,
                superseded_idempotency_key: first.idempotency_key,
            },
            COMMAND_CAPACITY,
        )
        .unwrap();
    assert_eq!(
        decision,
        AdmissionDecision::Supersede {
            idempotency_key: second.idempotency_key,
            superseded_idempotency_key: first.idempotency_key,
            superseded_correlation_id: 4,
        }
    );
    ledger.commit_supersession(5, second.idempotency_key, first.idempotency_key, second_kind).unwrap();
    assert_eq!(ledger.status().live_correlations, 1);
    assert_eq!(ledger.status().pending_imaginations, 1);
    let next = ledger.take_next_command().unwrap();
    assert_eq!(next.correlation_id, 5);
    assert_eq!(next.kind, second_kind);
}

#[test]
fn patch_to_imagination_supersession_replaces_pending_kind() {
    let mut ledger = ledger(1_024);
    open(&mut ledger, 2);
    let request = submitted(60);
    ledger.commit_queued(6, 160, PendingKind::Patch).unwrap();
    let kind = PendingKind::Imagination { submitted: request };
    ledger.commit_supersession(7, request.idempotency_key, 160, kind).unwrap();
    assert_eq!(ledger.status().pending_patches, 0);
    assert_eq!(ledger.status().pending_imaginations, 1);
    assert_eq!(ledger.take_next_command().unwrap().kind, kind);
}

#[test]
fn imagination_to_patch_supersession_replaces_pending_kind() {
    let mut ledger = ledger(1_024);
    open(&mut ledger, 2);
    let request = submitted(61);
    ledger.commit_queued(6, request.idempotency_key, PendingKind::Imagination { submitted: request }).unwrap();
    ledger.commit_supersession(8, 170, request.idempotency_key, PendingKind::Patch).unwrap();
    assert_eq!(ledger.status().pending_patches, 1);
    assert_eq!(ledger.status().pending_imaginations, 0);
    let next = ledger.take_next_command().unwrap();
    assert_eq!((next.correlation_id, next.kind), (8, PendingKind::Patch));
}

#[test]
fn wrong_direction_and_frame_kind_fail_without_service_work() {
    assert_eq!(decode_failure_code(&LocalSessionError::WrongDirection), SessionFailureCode::InvalidMessage);
    assert_eq!(decode_failure_code(&LocalSessionError::WrongFrameKind), SessionFailureCode::InvalidMessage);
    assert_eq!(
        decode_failure_code(&LocalSessionError::MalformedJson {
            category: JsonErrorCategory::Syntax,
            line: 1,
            column: 2,
        }),
        SessionFailureCode::InvalidMessage
    );
    assert_eq!(
        decode_failure_code(&LocalSessionError::MessageLimitExceeded { actual: 9, limit: 8 }),
        SessionFailureCode::LimitExceeded
    );
    assert_eq!(
        decode_failure_code(&LocalSessionError::InvalidMessage(LocalSessionValidationError::new(
            LocalSessionValidationKind::UnsupportedVersion,
            "schema_version",
        ))),
        SessionFailureCode::UnsupportedVersion
    );
    let ledger = ledger(1_024);
    assert_eq!(ledger.status().live_correlations, 0);
}

#[test]
fn active_v2_decode_failure_preserves_the_negotiated_version() {
    let mut ledger = ledger(1_024);
    assert_eq!(ledger.output_context().schema_version, 1);
    open(&mut ledger, 2);
    let context = ledger.output_context();
    assert_eq!(context.schema_version, 2);
    assert!(context.compilation_limits.is_some());
    assert_eq!(decode_failure_code(&LocalSessionError::NonCanonicalMessage), SessionFailureCode::InvalidMessage);
}

#[test]
fn mismatched_admission_identity_is_an_invariant_failure() {
    let mut ledger = ledger(1_024);
    open(&mut ledger, 1);
    assert_eq!(
        ledger.decide_admission(PendingKind::Patch, 1, ServiceAdmission::Queued { idempotency_key: 2 }, 64),
        Err(LocalExecutorError::StateInvariant {
            reason: "gateway admission identity did not match submitted command",
        })
    );
    assert_eq!(
        ledger.decide_admission(PendingKind::Patch, 1, ServiceAdmission::Queued { idempotency_key: 1 }, 0),
        Err(LocalExecutorError::StateInvariant {
            reason: "service queued a patch beyond its declared capacity",
        })
    );
    assert_eq!(
        ledger.decide_admission(PendingKind::Patch, 1, ServiceAdmission::AlreadyQueued { idempotency_key: 1 }, 64),
        Err(LocalExecutorError::StateInvariant {
            reason: "already-queued patch had no live correlation",
        })
    );
}

#[test]
fn reserving_a_live_correlation_fails() {
    let mut ledger = ledger(1_024);
    open(&mut ledger, 1);
    ledger.commit_queued(1, 10, PendingKind::Patch).unwrap();
    assert_eq!(
        ledger.commit_queued(1, 11, PendingKind::Patch),
        Err(LocalExecutorError::StateInvariant { reason: "live correlation reservation failed" })
    );
    assert_eq!(
        ledger.commit_observation(1, 12, 0),
        Err(LocalExecutorError::StateInvariant { reason: "live correlation reservation failed" })
    );
    assert_eq!(ledger.status().live_correlations, 1);
}

#[test]
fn counts_and_default_failures_are_exact() {
    assert_eq!(count(7), 7);
    assert_eq!(count(usize::MAX), u32::MAX);
    assert_eq!(default_failure(ServiceOperation::Command), SessionFailureCode::CommandRejected);
    assert_eq!(default_failure(ServiceOperation::Query), SessionFailureCode::QueryRejected);
    assert_eq!(default_failure(ServiceOperation::Observation), SessionFailureCode::ObservationRejected);
}

#[test]
fn hello_limits_must_negotiate() {
    let ledger = ledger(1_024);
    let mut limits = LocalSessionLimits::from_config(&LocalFrameConfig::default()).unwrap();
    limits.max_control_message_bytes = limits.max_frame_bytes;
    match ledger.decide_hello(1, Some((limits, None))).unwrap() {
        HelloDecision::Reject { code, .. } => assert_eq!(code, SessionFailureCode::LimitExceeded),
        HelloDecision::Accept { .. } => panic!("inconsistent limits cannot negotiate"),
    }
    let valid = LocalSessionLimits::from_config(&LocalFrameConfig::default()).unwrap();
    match ledger.decide_hello(2, Some((valid, None))).unwrap() {
        HelloDecision::Reject { code, .. } => assert_eq!(code, SessionFailureCode::InvalidMessage),
        HelloDecision::Accept { .. } => panic!("version two needs compilation limits"),
    }
}

#[test]
fn service_errors_map_to_stable_failure_codes() {
    let command = ServiceOperation::Command;
    assert_eq!(
        classify_gateway_error(&GatewayError::CommandCapacityExceeded { capacity: 2 }, command),
        SessionFailureCode::CapacityExceeded
    );
    assert_eq!(
        classify_gateway_error(&GatewayError::IdempotencyCapacityExceeded, command),
        SessionFailureCode::CapacityExceeded
    );
    assert_eq!(
        classify_gateway_error(&GatewayError::QueryRevisionMismatch { requested: 1, actual: 2 }, ServiceOperation::Query),
        SessionFailureCode::RevisionMismatch
    );
    assert_eq!(
        classify_gateway_error(&GatewayError::IdempotencyConflict { idempotency_key: 3 }, ServiceOperation::Query),
        SessionFailureCode::QueryRejected
    );
    assert_eq!(
        classify_gateway_error(&GatewayError::InvalidConfig { reason: "r" }, command),
        SessionFailureCode::Internal
    );
    assert_eq!(
        classify_gateway_error(&GatewayError::Compiler(CompilerFailure::EncodingLimitExceeded), command),
        SessionFailureCode::LimitExceeded
    );
    assert_eq!(
        classify_gateway_error(&GatewayError::Compiler(CompilerFailure::EncodingFailed), command),
        SessionFailureCode::Internal
    );
    assert_eq!(classify_observation_error(&ObservationError::WorkerUnavailable), SessionFailureCode::ServiceUnavailable);
    assert_eq!(
        classify_observation_error(&ObservationError::CameraMismatch { requested: 1, rendered: 2 }),
        SessionFailureCode::ObservationRejected
    );
    assert_eq!(
        classify_observation_error(&ObservationError::RequestRevisionMismatch { requested: 1, current: 2 }),
        SessionFailureCode::RevisionMismatch
    );
    assert_eq!(
        classify_observation_error(&ObservationError::CapacityExceeded { capacity: 4 }),
        SessionFailureCode::CapacityExceeded
    );
}

fn service_state(snapshot: ServiceSnapshot) -> ServiceState {
    ServiceState {
        snapshot,
        command_capacity: COMMAND_CAPACITY,
        observation_capacity: OBSERVATION_CAPACITY,
        width: 2,
        height: 1,
    }
}

#[test]
fn active_steps_check_version_correlation_and_kind_in_order() {
    let mut session = ledger(4);
    open(&mut session, 1);
    let idle = service_state(quiet());
    assert_eq!(
        session.plan_active_step(2, 2, ClientMessageKind::SubmitPatch, 0, idle),
        ActiveStep::Refuse(SessionFailureCode::UnsupportedVersion)
    );
    assert_eq!(
        session.plan_active_step(2, 1, ClientMessageKind::Hello, 0, idle),
        ActiveStep::Refuse(SessionFailureCode::ProtocolState)
    );
    assert_eq!(session.plan_active_step(2, 1, ClientMessageKind::SubmitPatch, 0, idle), ActiveStep::SubmitCommand);
    assert_eq!(
        session.plan_active_step(2, 1, ClientMessageKind::SubmitImagination, 0, idle),
        ActiveStep::Refuse(SessionFailureCode::UnsupportedVersion)
    );
    assert_eq!(session.plan_active_step(2, 1, ClientMessageKind::Query, 0, idle), ActiveStep::RunQuery);
    assert_eq!(
        session.plan_active_step(2, 1, ClientMessageKind::RequestObservation, 9, idle),
        ActiveStep::RequestObservation
    );
    assert_eq!(session.plan_active_step(2, 1, ClientMessageKind::Close, 0, idle), ActiveStep::Close);
    let busy = service_state(ServiceSnapshot { command_depth: 1, outstanding_observations: 0 });
    assert_eq!(
        session.plan_active_step(2, 1, ClientMessageKind::Close, 0, busy),
        ActiveStep::Refuse(SessionFailureCode::ProtocolState)
    );
}

#[test]
fn frames_route_by_phase_and_observation_outcomes_go_to_their_correlations() {
    let mut session = ledger(4);
    assert_eq!(session.route_frame(), FrameRoute::Hello);
    assert!(!session.can_advance());
    open(&mut session, 1);
    assert_eq!(session.route_frame(), FrameRoute::Active);
    assert!(session.can_advance());

    session.commit_observation(7, 70, 3).unwrap();
    session.commit_observation(8, 80, 3).unwrap();
    assert_eq!(
        session.plan_observation_step(PollOutcome::Delivered { observation_id: 80 }),
        Ok(ObservationStep::Deliver {
            correlation_id: 8,
            observation_id: 80,
            oversize_code: SessionFailureCode::LimitExceeded
        })
    );
    assert_eq!(
        session.plan_observation_step(PollOutcome::Failed {
            observation_id: 70,
            code: SessionFailureCode::ObservationRejected
        }),
        Ok(ObservationStep::Fail {
            correlation_id: 7,
            observation_id: 70,
            code: SessionFailureCode::ObservationRejected
        })
    );
    assert_eq!(
        session.plan_observation_step(PollOutcome::PollFailed(SessionFailureCode::ServiceUnavailable)),
        Ok(ObservationStep::Fail {
            correlation_id: 7,
            observation_id: 70,
            code: SessionFailureCode::ServiceUnavailable
        })
    );
    assert_eq!(session.plan_observation_step(PollOutcome::NotReady), Ok(ObservationStep::ReportPending));
    assert!(session.plan_observation_step(PollOutcome::Delivered { observation_id: 99 }).is_err());

    session.release_observation(70).unwrap();
    session.release_observation(80).unwrap();
    session.commit_close().unwrap();
    assert_eq!(session.route_frame(), FrameRoute::Refuse(SessionFailureCode::ProtocolState));
    assert!(!session.can_advance());
}

#[test]
fn only_a_supersession_rejects_the_superseded_correlation_first() {
    let supersede = AdmissionDecision::Supersede {
        idempotency_key: 2,
        superseded_idempotency_key: 1,
        superseded_correlation_id: 5,
    };
    assert_eq!(supersession_notice(supersede), Some((5, SessionFailureCode::CommandRejected)));
    assert_eq!(supersession_notice(AdmissionDecision::Queue { idempotency_key: 2 }), None);
}
