//! Recovery-point envelope layout, integrity, and bound coverage.

use cogniform::recovery::{
    EngineRecoveryPoint, RecoveryPointCodecError, ReplayConfig, ReplayConfigError,
    ENVELOPE_OVERHEAD_BYTES,
};

const RECOVERY_MAGIC: &[u8] = b"CNFRCP";
const VERSION_OFFSET: usize = 6;
const FRAME_OFFSET: usize = 8;
const REPLAY_LENGTH_OFFSET: usize = 16;
const REPLAY_OFFSET: usize = 20;
const DIGEST_BYTES: usize = 32;

fn recovery() -> EngineRecoveryPoint {
    EngineRecoveryPoint::from_parts(b"CNFRPL1\nreplay-fixture".to_vec(), 17)
}

#[test]
fn envelope_is_repeatable_and_round_trips_exact_parts() {
    let recovery = recovery();
    let config = ReplayConfig::default();
    let first = recovery.to_envelope_bytes(config).unwrap();
    let second = recovery.to_envelope_bytes(config).unwrap();
    assert_eq!(first, second);
    assert_eq!(&first[..RECOVERY_MAGIC.len()], RECOVERY_MAGIC);
    assert_eq!(&first[VERSION_OFFSET..FRAME_OFFSET], &[0, 1]);
    assert_eq!(
        &first[first.len() - DIGEST_BYTES..],
        &[
            0xa8, 0x48, 0x6e, 0x8c, 0x9f, 0xf3, 0x27, 0x8e, 0x5c, 0xe0, 0x6e, 0x86, 0xc2, 0x5f,
            0x5a, 0x46, 0xd9, 0x08, 0x69, 0xab, 0x77, 0x96, 0x87, 0xf3, 0xa8, 0x75, 0xc3, 0xd1,
            0x4e, 0xfe, 0x50, 0xb2,
        ]
    );

    let decoded = EngineRecoveryPoint::from_envelope_bytes(&first, config).ok().unwrap();
    assert!(decoded == recovery);
}

#[test]
fn every_single_byte_corruption_is_rejected() {
    let config = ReplayConfig::default();
    let encoded = recovery().to_envelope_bytes(config).unwrap();
    for index in 0..encoded.len() {
        let mut corrupted = encoded.clone();
        corrupted[index] ^= 1;
        assert!(
            EngineRecoveryPoint::from_envelope_bytes(&corrupted, config).is_err(),
            "corruption at byte {index} was accepted"
        );
    }
}

fn decode_error(encoded: &[u8], config: ReplayConfig) -> RecoveryPointCodecError {
    EngineRecoveryPoint::from_envelope_bytes(encoded, config).err().unwrap()
}

#[test]
fn malformed_envelopes_return_typed_errors() {
    let config = ReplayConfig::default();
    let encoded = recovery().to_envelope_bytes(config).unwrap();

    assert!(matches!(
        decode_error(&encoded[..ENVELOPE_OVERHEAD_BYTES - 1], config),
        RecoveryPointCodecError::Truncated { .. }
    ));
    assert!(matches!(
        decode_error(&encoded[..encoded.len() - 1], config),
        RecoveryPointCodecError::LengthMismatch { .. }
    ));

    let mut invalid_header = encoded.clone();
    invalid_header[0] ^= 1;
    assert_eq!(decode_error(&invalid_header, config), RecoveryPointCodecError::InvalidHeader);

    let mut unsupported = encoded.clone();
    unsupported[VERSION_OFFSET..FRAME_OFFSET].copy_from_slice(&2_u16.to_be_bytes());
    assert_eq!(
        decode_error(&unsupported, config),
        RecoveryPointCodecError::UnsupportedVersion { found: 2 }
    );

    let mut zero_frame = encoded.clone();
    zero_frame[FRAME_OFFSET..REPLAY_LENGTH_OFFSET].fill(0);
    assert_eq!(decode_error(&zero_frame, config), RecoveryPointCodecError::InvalidFrameId);

    let mut trailing = encoded.clone();
    trailing.push(0);
    assert!(matches!(
        decode_error(&trailing, config),
        RecoveryPointCodecError::LengthMismatch { .. }
    ));

    let mut mismatched_length = encoded.clone();
    let declared = u32::try_from(recovery().replay_bytes().len()).unwrap() + 1;
    mismatched_length[REPLAY_LENGTH_OFFSET..REPLAY_OFFSET].copy_from_slice(&declared.to_be_bytes());
    assert!(matches!(
        decode_error(&mismatched_length, config),
        RecoveryPointCodecError::LengthMismatch { .. }
    ));

    let replay_index = REPLAY_OFFSET;
    let mut invalid_digest = encoded.clone();
    invalid_digest[replay_index] ^= 1;
    assert_eq!(decode_error(&invalid_digest, config), RecoveryPointCodecError::IntegrityMismatch);
}

#[test]
fn replay_and_envelope_bounds_are_enforced_before_copying() {
    let recovery = recovery();
    let default_config = ReplayConfig::default();
    let encoded = recovery.to_envelope_bytes(default_config).unwrap();

    let mut invalid_config = default_config;
    invalid_config.max_log_bytes = 1;
    assert!(matches!(
        recovery.to_envelope_bytes(invalid_config),
        Err(RecoveryPointCodecError::InvalidReplayConfig(_))
    ));

    let mut tight_config = default_config;
    tight_config.max_log_bytes = 8;
    assert!(matches!(
        recovery.to_envelope_bytes(tight_config),
        Err(RecoveryPointCodecError::ReplaySizeExceeded { .. })
    ));
    assert!(matches!(
        decode_error(&encoded, tight_config),
        RecoveryPointCodecError::EnvelopeSizeExceeded { .. }
    ));
    assert_eq!(
        EngineRecoveryPoint::envelope_byte_limit(tight_config).unwrap(),
        u64::from(tight_config.max_log_bytes) + ENVELOPE_OVERHEAD_BYTES as u64
    );

    let mut declared_over_limit = EngineRecoveryPoint::from_parts(b"12345678".to_vec(), 1)
        .to_envelope_bytes(tight_config)
        .unwrap();
    declared_over_limit[REPLAY_LENGTH_OFFSET..REPLAY_OFFSET].copy_from_slice(&9_u32.to_be_bytes());
    assert_eq!(
        decode_error(&declared_over_limit, tight_config),
        RecoveryPointCodecError::ReplaySizeExceeded { actual: 9, limit: 8 }
    );
}

#[test]
fn parts_are_returned_exactly() {
    let point = recovery();
    assert_eq!(point.replay_bytes(), b"CNFRPL1\nreplay-fixture");
    assert_eq!(point.next_frame_id(), 17);
    let (replay, frame) = point.into_parts();
    assert_eq!(replay, b"CNFRPL1\nreplay-fixture".to_vec());
    assert_eq!(frame, 17);
}

#[test]
fn envelope_layout_places_every_field() {
    let encoded = recovery().to_envelope_bytes(ReplayConfig::default()).unwrap();
    let replay = b"CNFRPL1\nreplay-fixture";
    assert_eq!(encoded.len(), ENVELOPE_OVERHEAD_BYTES + replay.len());
    assert_eq!(&encoded[FRAME_OFFSET..REPLAY_LENGTH_OFFSET], &17_u64.to_be_bytes());
    assert_eq!(
        &encoded[REPLAY_LENGTH_OFFSET..REPLAY_OFFSET],
        &u32::try_from(replay.len()).unwrap().to_be_bytes()
    );
    assert_eq!(&encoded[REPLAY_OFFSET..REPLAY_OFFSET + replay.len()], replay);
}

#[test]
fn zero_next_frame_is_an_invalid_frame_identity() {
    let mut encoded = recovery().to_envelope_bytes(ReplayConfig::default()).unwrap();
    encoded[FRAME_OFFSET..REPLAY_LENGTH_OFFSET].fill(0);
    assert_eq!(
        decode_error(&encoded, ReplayConfig::default()),
        RecoveryPointCodecError::InvalidFrameId
    );
}

#[test]
fn replay_bound_below_header_is_a_config_error() {
    let config = ReplayConfig { max_log_bytes: 7 };
    assert_eq!(
        config.validate(),
        Err(ReplayConfigError::LogBoundBelowHeader { max_log_bytes: 7, minimum: 8 })
    );
    assert_eq!(
        EngineRecoveryPoint::envelope_byte_limit(config),
        Err(RecoveryPointCodecError::InvalidReplayConfig(ReplayConfigError::LogBoundBelowHeader {
            max_log_bytes: 7,
            minimum: 8,
        }))
    );
    assert!(ReplayConfig { max_log_bytes: 8 }.validate().is_ok());
}

#[test]
fn recovery_point_debug_redacts_replay_contents() {
    let recovery = EngineRecoveryPoint::from_parts(b"private-scene-marker".to_vec(), 7);
    let description = recovery.describe();
    assert!(!description.contains("private-scene-marker"));
    assert!(description.contains("replay_byte_count: 20"));
    assert!(description.contains("next_frame_id"));
    assert_eq!(description, "EngineRecoveryPoint { replay_byte_count: 20, next_frame_id: 7 }");
}
