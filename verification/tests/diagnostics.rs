use cogniform::control::{JsonErrorCategory, LocalSessionError};
use cogniform::executor::LocalExecutorError;
use cogniform::frame::{LocalFrameError, LocalFrameIoOperation, LocalFrameSection};
use cogniform::gateway::GatewayError;
use cogniform::measurement::{MeasurementError, MeasurementProfile};
use cogniform::observation::ObservationError;
use cogniform::recovery::{RecoveryPointCodecError, ReplayConfigError};
use cogniform::scenario::CanonicalScenarioError;
use cogniform::session::{LocalSessionValidationError, LocalSessionValidationKind};
use cogniform::text::decimal_string;

#[test]
fn decimal_rendering_is_shortest_and_exact() {
    assert_eq!(decimal_string(0), "0");
    assert_eq!(decimal_string(7), "7");
    assert_eq!(decimal_string(10), "10");
    assert_eq!(decimal_string(1_234_567_890), "1234567890");
    assert_eq!(decimal_string(u128::MAX), u128::MAX.to_string());
}

#[test]
fn frame_errors_render_their_limits_and_sections() {
    assert_eq!(
        LocalFrameError::FrameLimitExceeded {
            actual: 70,
            limit: 69
        }
        .message(),
        "local frame size 70 exceeds limit 69"
    );
    assert_eq!(
        LocalFrameError::ControlLimitExceeded {
            actual: 2,
            limit: 1
        }
        .message(),
        "local frame control size 2 exceeds limit 1"
    );
    assert_eq!(
        LocalFrameError::Truncated {
            section: LocalFrameSection::Bulk,
            expected: 4,
            actual: 3
        }
        .message(),
        "local frame Bulk is truncated: expected 4 bytes, found 3"
    );
    assert_eq!(
        LocalFrameError::TrailingBytes {
            expected: 69,
            actual: 70
        }
        .message(),
        "local frame has trailing bytes: expected 69, found 70"
    );
    assert_eq!(
        LocalFrameError::UnsupportedVersion { found: 2 }.message(),
        "unsupported local frame version 2"
    );
    assert_eq!(
        LocalFrameError::UnsupportedKind { found: 9 }.message(),
        "unsupported local frame kind 9"
    );
    assert_eq!(
        LocalFrameError::EmptyControl.message(),
        "local control frame is empty"
    );
    assert_eq!(
        LocalFrameError::IntegrityMismatch.message(),
        "local frame integrity mismatch"
    );
    assert_eq!(
        LocalFrameError::Io {
            operation: LocalFrameIoOperation::ReadHeader,
            kind: std::io::ErrorKind::UnexpectedEof
        }
        .message(),
        "local frame ReadHeader failed with UnexpectedEof"
    );
}

#[test]
fn session_errors_render_their_bounds_and_fields() {
    assert_eq!(
        LocalSessionError::MessageLimitExceeded {
            actual: 11,
            limit: 10
        }
        .message(),
        "control message has 11 bytes; limit is 10"
    );
    assert_eq!(
        LocalSessionError::NestingLimitExceeded {
            actual: 65,
            limit: 64
        }
        .message(),
        "JSON nesting depth is 65; limit is 64"
    );
    assert_eq!(
        LocalSessionError::MalformedJson {
            category: JsonErrorCategory::Syntax,
            line: 1,
            column: 7
        }
        .message(),
        "Syntax JSON error at 1:7"
    );
    let invalid = LocalSessionValidationError::new(
        LocalSessionValidationKind::InvalidLimits,
        "hello.limits.max_frame_bytes",
    );
    assert_eq!(
        invalid.message(),
        "InvalidLimits at hello.limits.max_frame_bytes"
    );
    assert_eq!(
        LocalSessionError::InvalidMessage(invalid).message(),
        "InvalidLimits at hello.limits.max_frame_bytes"
    );
    assert_eq!(
        LocalSessionError::NonCanonicalMessage.message(),
        "control message is not canonical JSON followed by LF"
    );
}

#[test]
fn engine_errors_render_their_revisions_and_capacities() {
    assert_eq!(
        GatewayError::QueryRevisionMismatch {
            requested: 2,
            actual: 3
        }
        .message(),
        "query revision 2 does not match current revision 3"
    );
    assert_eq!(
        GatewayError::QueryResultCapacityExceeded {
            actual: 5,
            limit: 4
        }
        .message(),
        "query matches 5 entities; result limit is 4"
    );
    assert_eq!(
        GatewayError::CommandCapacityExceeded { capacity: 64 }.message(),
        "gateway command capacity 64 is full"
    );
    assert_eq!(
        GatewayError::InvalidConfig { reason: "test" }.message(),
        "invalid gateway config: test"
    );
    assert_eq!(
        ObservationError::CapacityExceeded { capacity: 2 }.message(),
        "observation capacity 2 is full"
    );
    assert_eq!(
        ObservationError::SourceRevisionAhead {
            source: 4,
            latest: 3
        }
        .message(),
        "frame source revision 4 is newer than latest world revision 3"
    );
    assert_eq!(
        ObservationError::RequestRevisionMismatch {
            requested: 1,
            current: 2
        }
        .message(),
        "observation requested revision 1, current revision is 2"
    );
}

#[test]
fn recovery_scenario_executor_and_measurement_errors_render_exactly() {
    assert_eq!(
        RecoveryPointCodecError::Truncated {
            actual: 3,
            minimum: 66
        }
        .message(),
        "recovery envelope has 3 bytes; at least 66 are required"
    );
    assert_eq!(
        RecoveryPointCodecError::LengthMismatch {
            actual: 70,
            expected: 71
        }
        .message(),
        "recovery envelope has 70 bytes; declared length requires 71"
    );
    assert_eq!(
        RecoveryPointCodecError::InvalidReplayConfig(ReplayConfigError::LogBoundBelowHeader {
            max_log_bytes: 3,
            minimum: 20
        })
        .message(),
        "invalid replay config: replay log bound 3 is below the replay header size 20"
    );
    assert_eq!(
        CanonicalScenarioError::NonEmptyService { revision: 3 }.message(),
        "canonical scenario requires revision 0, found revision 3"
    );
    assert_eq!(
        CanonicalScenarioError::Contract { reason: "table color" }.message(),
        "canonical scenario contract failed: table color"
    );
    assert_eq!(
        LocalExecutorError::ServiceNotQuiescent {
            commands: 1,
            observations: 2
        }
        .message(),
        "local executor requires quiescence; commands=1, observations=2"
    );
    assert_eq!(
        MeasurementError::Contract.message(),
        "measurement fixture output count mismatch"
    );
    assert_eq!(MeasurementProfile::Release.name(), "release");
}
