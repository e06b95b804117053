//! Command queue pressure, idempotency, supersession, and replay coverage.

use std::time::Duration;

use cogniform::gateway::{
    command_fingerprint, validate_config, CommandGateway, CommandKind, CommandQueue,
    CommandRecord, DeliverySemantic, GatewayAdmission, GatewayConfig, GatewayError,
    GatewayResponse, CompilationFailureKind, CompilerFailure,
};
use cogniform::message::{ApplyStatus, ReceiptSummary};
use cogniform::limits::RuntimeLimits;
use cogniform::query::{plan_query, select_components, select_positions};
use cogniform::slots::duration_micros;

/// A stand-in scene patch: its canonical encoding names its transaction.
#[derive(Debug, Clone, PartialEq)]
struct Patch {
    transaction_id: u128,
    idempotency_key: u128,
    delivery: DeliverySemantic,
}

fn patch(nonce: u128, delivery: DeliverySemantic) -> Patch {
    Patch { transaction_id: nonce, idempotency_key: nonce + 100, delivery }
}

fn encoded(patch: &Patch) -> Vec<u8> {
    format!(
        "{{\"transaction_id\":{},\"idempotency_key\":{}}}",
        patch.transaction_id, patch.idempotency_key
    )
    .into_bytes()
}

fn record_at(patch: Patch, queued_at_micros: u64) -> CommandRecord<Patch> {
    CommandRecord {
        idempotency_key: patch.idempotency_key,
        fingerprint: command_fingerprint(CommandKind::Patch, &encoded(&patch)),
        delivery: patch.delivery.clone(),
        queued_at_micros,
        command: patch,
    }
}

fn record(patch: Patch) -> CommandRecord<Patch> {
    record_at(patch, 0)
}

fn latest(key: &str) -> DeliverySemantic {
    DeliverySemantic::LatestWins { supersession_key: key.as_bytes().to_vec() }
}

#[test]
fn queue_delivery_semantics_remain_bounded_under_pressure() {
    let mut queue = CommandQueue::new(2);
    let durable = patch(1, DeliverySemantic::MustApply);
    assert!(matches!(
        queue.admit_command(record(durable.clone()), true).unwrap(),
        GatewayAdmission::Queued { .. }
    ));
    assert!(matches!(
        queue.admit_command(record(durable), true).unwrap(),
        GatewayAdmission::AlreadyQueued { .. }
    ));

    let replaceable = patch(2, latest("camera/main"));
    queue.admit_command(record(replaceable), true).unwrap();
    let replacement = patch(3, latest("camera/main"));
    assert!(matches!(
        queue.admit_command(record(replacement), false).unwrap(),
        GatewayAdmission::Superseded { .. }
    ));
    assert_eq!(queue.depth(), 2);

    let dropped = patch(4, DeliverySemantic::BestEffort);
    assert!(matches!(
        queue.admit_command(record(dropped), false).unwrap(),
        GatewayAdmission::Dropped { .. }
    ));
    let rejected = patch(5, DeliverySemantic::MustApply);
    assert!(matches!(
        queue.admit_command(record(rejected), true),
        Err(GatewayError::CommandCapacityExceeded { capacity: 2 })
    ));
    let stats = queue.stats_at(1_000);
    assert_eq!(stats.depth, 2);
    assert!(stats.oldest_pending_age_micros.is_some());
    assert_eq!(stats.admitted, 2);
    assert_eq!(stats.superseded, 1);
    assert_eq!(stats.dropped, 1);
    assert_eq!(stats.rejected, 1);
}

#[test]
fn queue_age_tracks_oldest_retained_admission_without_payload_identity() {
    let started_at = 1_000_u64;
    let mut queue = CommandQueue::new(2);
    assert_eq!(queue.stats_at(started_at).oldest_pending_age_micros, None);

    let durable = patch(30, DeliverySemantic::MustApply);
    queue.admit_command(record_at(durable.clone(), started_at), true).unwrap();
    assert!(matches!(
        queue.admit_command(record_at(durable, started_at + 3), true).unwrap(),
        GatewayAdmission::AlreadyQueued { .. }
    ));

    let replaceable = |nonce| patch(nonce, latest("camera/age"));
    queue.admit_command(record_at(replaceable(31), started_at + 2), true).unwrap();
    assert!(matches!(
        queue.admit_command(record_at(replaceable(32), started_at + 7), false).unwrap(),
        GatewayAdmission::Superseded { .. }
    ));
    let sampled_at = started_at + 11;
    assert_eq!(queue.stats_at(sampled_at).oldest_pending_age_micros, Some(11));

    let dropped = patch(33, DeliverySemantic::BestEffort);
    assert!(matches!(
        queue.admit_command(record_at(dropped, started_at + 9), false).unwrap(),
        GatewayAdmission::Dropped { .. }
    ));
    assert_eq!(queue.stats_at(sampled_at).oldest_pending_age_micros, Some(11));

    let rejected = patch(34, DeliverySemantic::MustApply);
    assert!(matches!(
        queue.admit_command(record_at(rejected, started_at + 10), true),
        Err(GatewayError::CommandCapacityExceeded { capacity: 2 })
    ));
    assert_eq!(queue.stats_at(sampled_at).oldest_pending_age_micros, Some(11));

    queue.pop_front().unwrap();
    assert_eq!(queue.stats_at(sampled_at).oldest_pending_age_micros, Some(4));
    queue.pop_front().unwrap();
    assert_eq!(queue.stats_at(sampled_at).oldest_pending_age_micros, None);
    assert_eq!(duration_micros(Duration::MAX.as_secs(), Duration::MAX.subsec_micros()), u64::MAX);
}

#[test]
fn idempotency_conflicts_and_capacity_are_explicit() {
    let mut queue = CommandQueue::new(2);
    let first = patch(10, DeliverySemantic::MustApply);
    let mut conflicting = first.clone();
    conflicting.transaction_id = 999;
    queue.admit_command(record(first), true).unwrap();
    assert!(matches!(
        queue.admit_command(record(conflicting), true),
        Err(GatewayError::IdempotencyConflict { .. })
    ));
    assert!(matches!(
        queue.admit_command(record(patch(11, DeliverySemantic::MustApply)), false),
        Err(GatewayError::IdempotencyCapacityExceeded)
    ));
}

#[test]
fn fingerprints_bind_kind_and_exact_encoding() {
    let encoding = encoded(&patch(1, DeliverySemantic::MustApply));
    let as_patch = command_fingerprint(CommandKind::Patch, &encoding);
    let as_imagination = command_fingerprint(CommandKind::Imagination, &encoding);
    assert_eq!(as_patch.len(), 32);
    assert_ne!(as_patch, as_imagination);
    assert_ne!(as_patch, encoding);
    assert_eq!(as_patch, command_fingerprint(CommandKind::Patch, &encoding));
    let mut other = encoding.clone();
    other[0] ^= 1;
    assert_ne!(as_patch, command_fingerprint(CommandKind::Patch, &other));
}

#[test]
fn queued_retry_leaves_the_queue_unchanged() {
    let mut queue = CommandQueue::new(4);
    let durable = patch(40, DeliverySemantic::MustApply);
    queue.admit_command(record(durable.clone()), true).unwrap();
    let before = queue.stats_at(0);
    assert_eq!(
        queue.admit_command(record(durable), true).unwrap(),
        GatewayAdmission::AlreadyQueued { idempotency_key: 140 }
    );
    assert_eq!(queue.stats_at(0), before);
}

#[test]
fn supersession_keeps_the_queue_position() {
    let mut queue = CommandQueue::new(3);
    queue.admit_command(record(patch(50, DeliverySemantic::MustApply)), true).unwrap();
    queue.admit_command(record(patch(51, latest("light"))), true).unwrap();
    queue.admit_command(record(patch(52, DeliverySemantic::MustApply)), true).unwrap();
    assert_eq!(
        queue.admit_command(record(patch(53, latest("light"))), true).unwrap(),
        GatewayAdmission::Superseded { idempotency_key: 153, superseded_idempotency_key: 151 }
    );
    assert_eq!(queue.depth(), 3);
    assert_eq!(queue.pop_front().unwrap().idempotency_key, 150);
    assert_eq!(queue.pop_front().unwrap().idempotency_key, 153);
    assert_eq!(queue.pop_front().unwrap().idempotency_key, 152);
    assert!(queue.pop_front().is_none());
}

#[test]
fn must_apply_work_is_rejected_not_dropped_when_full() {
    let mut queue = CommandQueue::new(1);
    queue.admit_command(record(patch(60, DeliverySemantic::MustApply)), true).unwrap();
    assert_eq!(
        queue.admit_command(record(patch(61, DeliverySemantic::MustApply)), true),
        Err(GatewayError::CommandCapacityExceeded { capacity: 1 })
    );
    assert_eq!(
        queue.admit_command(record(patch(62, DeliverySemantic::BestEffort)), true),
        Ok(GatewayAdmission::Dropped { idempotency_key: 162 })
    );
    assert_eq!(queue.depth(), 1);
}

#[test]
fn completed_commands_are_replayed_without_running_again() {
    let mut gateway: CommandGateway<Patch, u64> =
        CommandGateway::new(GatewayConfig { command_capacity: 2, idempotency_capacity: 4 }, &RuntimeLimits::default(), 8)
            .unwrap();
    let first = patch(70, DeliverySemantic::MustApply);
    assert_eq!(
        gateway.admit_command(record(first.clone())),
        Ok(GatewayAdmission::Queued { idempotency_key: 170 })
    );
    let processed = gateway
        .process_next(|command: &Patch| -> Result<u64, ()> { Ok(command.transaction_id as u64 * 2) })
        .unwrap();
    assert_eq!(processed, Some(170));
    assert_eq!(gateway.completed_result_count(), 1);
    assert_eq!(gateway.completed_response(170), Some(&140));
    assert_eq!(
        gateway.admit_command(record(first.clone())),
        Ok(GatewayAdmission::Replayed { idempotency_key: 170 })
    );
    let mut conflicting = first;
    conflicting.transaction_id = 71;
    assert_eq!(
        gateway.admit_command(record(conflicting)),
        Err(GatewayError::IdempotencyConflict { idempotency_key: 170 })
    );
    assert_eq!(gateway.queue_stats_at(0).depth, 0);
    assert_eq!(gateway.completed_result_count(), 1);
}

#[test]
fn failed_processing_discards_the_command() {
    let mut gateway: CommandGateway<Patch, u64> =
        CommandGateway::new(GatewayConfig::default(), &RuntimeLimits::default(), 1_024).unwrap();
    gateway.admit_command(record(patch(80, DeliverySemantic::MustApply))).unwrap();
    let failed = gateway.process_next(|_command: &Patch| -> Result<u64, &'static str> { Err("rejected") });
    assert_eq!(failed, Err("rejected"));
    assert_eq!(gateway.completed_result_count(), 0);
    assert_eq!(gateway.queue_stats_at(0).depth, 0);
    assert_eq!(gateway.process_next(|_command: &Patch| -> Result<u64, ()> { Ok(1) }), Ok(None));
}

#[test]
fn idempotency_capacity_counts_queued_and_completed_records() {
    let mut gateway: CommandGateway<Patch, u64> =
        CommandGateway::new(GatewayConfig { command_capacity: 2, idempotency_capacity: 2 }, &RuntimeLimits::default(), 2)
            .unwrap();
    gateway.admit_command(record(patch(90, DeliverySemantic::MustApply))).unwrap();
    gateway.process_next(|_command: &Patch| -> Result<u64, ()> { Ok(0) }).unwrap();
    gateway.admit_command(record(patch(91, DeliverySemantic::MustApply))).unwrap();
    assert_eq!(
        gateway.admit_command(record(patch(92, DeliverySemantic::MustApply))),
        Err(GatewayError::IdempotencyCapacityExceeded)
    );
    assert_eq!(
        gateway.admit_command(record(patch(93, DeliverySemantic::BestEffort))),
        Ok(GatewayAdmission::Dropped { idempotency_key: 193 })
    );
}

#[test]
fn configuration_errors_are_checked_in_order() {
    let limits = RuntimeLimits::default();
    assert_eq!(
        validate_config(GatewayConfig { command_capacity: limits.max_queue_capacity + 1, idempotency_capacity: u32::MAX }, &limits, u32::MAX),
        Err(GatewayError::InvalidConfig {
            reason: "gateway command capacity exceeds the active protocol queue limit",
        })
    );
    assert_eq!(
        validate_config(GatewayConfig { command_capacity: 8, idempotency_capacity: 4 }, &limits, 100),
        Err(GatewayError::InvalidConfig {
            reason: "gateway idempotency capacity must cover command capacity",
        })
    );
    assert_eq!(
        validate_config(GatewayConfig { command_capacity: 4, idempotency_capacity: 8 }, &limits, 7),
        Err(GatewayError::InvalidConfig {
            reason: "gateway idempotency capacity exceeds available world result retention",
        })
    );
    assert_eq!(validate_config(GatewayConfig::default(), &limits, 1_024), Ok(()));
    assert!(CommandGateway::<Patch, u64>::new(GatewayConfig::default(), &limits, 1).is_err());
}

#[test]
fn exact_queries_are_sorted_filtered_and_fail_instead_of_truncating() {
    const NAME: u128 = 1;
    // Revision 1 holds entity 5 with one name component.
    let entities = [5_u128];
    let positions = plan_query(1, &entities, 1, &[], 1).unwrap();
    assert_eq!(positions, vec![0]);
    let components = select_components(&[NAME], &[NAME]);
    assert_eq!(components.len(), 1);

    // Revision 2 adds entity 6; a limit of one no longer fits.
    let entities = [5_u128, 6];
    assert_eq!(
        plan_query(2, &entities, 2, &[], 1),
        Err(GatewayError::QueryResultCapacityExceeded { actual: 2, limit: 1 })
    );
}

#[test]
fn queries_name_their_exact_revision_and_select_in_snapshot_order() {
    assert_eq!(
        plan_query(3, &[1, 2], 2, &[], 10),
        Err(GatewayError::QueryRevisionMismatch { requested: 2, actual: 3 })
    );
    assert_eq!(plan_query(3, &[1, 2, 3, 4], 3, &[4, 2], 10), Ok(vec![1, 3]));
    assert_eq!(plan_query(3, &[1, 2, 3, 4], 3, &[9], 0), Ok(vec![]));
    assert_eq!(select_positions(&[7, 8, 9], &[]), vec![0, 1, 2]);
    // Components are kept by kind, in component order.
    assert_eq!(select_components(&[3, 1, 2, 1], &[1]), vec![1, 3]);
    assert_eq!(select_components(&[3, 1], &[]), vec![0, 1]);
}

#[test]
fn replayed_responses_mark_their_receipts_as_replays() {
    let mut gateway: CommandGateway<Patch, GatewayResponse> =
        CommandGateway::new(GatewayConfig { command_capacity: 2, idempotency_capacity: 4 }, &RuntimeLimits::default(), 8)
            .unwrap();
    let first = patch(75, DeliverySemantic::MustApply);
    assert_eq!(
        gateway.admit_with_replay(record(first.clone())),
        Ok((GatewayAdmission::Queued { idempotency_key: 175 }, None))
    );
    let applied = ReceiptSummary {
        idempotency_key: 175,
        transaction_id: 75,
        status: ApplyStatus::Applied,
        previous_revision: 2,
        operation_count: 1,
    };
    gateway
        .process_next(|_command: &Patch| -> Result<GatewayResponse, ()> {
            Ok(GatewayResponse::PatchApplied { receipt: applied })
        })
        .unwrap();
    let replay = gateway.admit_with_replay(record(first)).unwrap();
    assert_eq!(replay.0, GatewayAdmission::Replayed { idempotency_key: 175 });
    assert_eq!(
        replay.1,
        Some(GatewayResponse::PatchApplied {
            receipt: ReceiptSummary { status: ApplyStatus::IdempotentReplay, ..applied }
        })
    );
    // The retained response itself is unchanged.
    assert_eq!(
        gateway.completed_response(175),
        Some(&GatewayResponse::PatchApplied { receipt: applied })
    );
}

#[test]
fn gateway_compilation_limit_classification_is_exact() {
    for failure in [
        CompilerFailure::EncodingLimitExceeded,
        CompilerFailure::InvalidResult(CompilationFailureKind::DecisionLimitExceeded),
        CompilerFailure::InvalidResult(CompilationFailureKind::UnresolvedLimitExceeded),
        CompilerFailure::InvalidResult(CompilationFailureKind::TextLimitExceeded),
        CompilerFailure::InvalidResult(CompilationFailureKind::DecodedSizeLimitExceeded),
        CompilerFailure::InvalidResult(CompilationFailureKind::InvalidPatch),
    ] {
        assert!(GatewayError::Compiler(failure).is_compilation_limit_exceeded());
    }
    assert!(!GatewayError::Compiler(CompilerFailure::EncodingFailed).is_compilation_limit_exceeded());
    assert!(!GatewayError::Compiler(CompilerFailure::InvalidResult(CompilationFailureKind::Other))
        .is_compilation_limit_exceeded());
    assert!(!GatewayError::IdempotencyCapacityExceeded.is_compilation_limit_exceeded());
}
