//! Human-readable diagnostics: decimal rendering of integers and the stable
//! message of each error of the library.

use crate::control::{JsonErrorCategory, LocalSessionError};
use crate::executor::LocalExecutorError;
use crate::frame::{LocalFrameError, LocalFrameIoOperation, LocalFrameSection};
use crate::session::{LocalSessionValidationError, LocalSessionValidationKind};
use crate::gateway::{CompilationFailureKind, CompilerFailure, GatewayError};
use crate::measurement::MeasurementError;
use crate::observation::ObservationError;
use crate::recovery::{EngineRecoveryPoint, RecoveryPointCodecError, ReplayConfigError};
use crate::scenario::CanonicalScenarioError;
use vstd::prelude::*;

verus! {

/// The ASCII digit for `d`, which is below ten.
pub open spec fn digit_char(d: nat) -> char {
    if d == 0 {
        '0'
    } else if d == 1 {
        '1'
    } else if d == 2 {
        '2'
    } else if d == 3 {
        '3'
    } else if d == 4 {
        '4'
    } else if d == 5 {
        '5'
    } else if d == 6 {
        '6'
    } else if d == 7 {
        '7'
    } else if d == 8 {
        '8'
    } else {
        '9'
    }
}

/// The shortest decimal rendering of `n`, most significant digit first.
pub open spec fn decimal(n: nat) -> Seq<char>
    decreases n,
{
    if n < 10 {
        seq![digit_char(n)]
    } else {
        decimal(n / 10).push(digit_char(n % 10))
    }
}

fn push_digit(text: &mut String, d: u8)
    requires
        d < 10,
    ensures
        final(text)@ == old(text)@.push(digit_char(d as nat)),
{
    let piece: &str = if d == 0 {
        proof {
            reveal_strlit("0");
        }
        "0"
    } else if d == 1 {
        proof {
            reveal_strlit("1");
        }
        "1"
    } else if d == 2 {
        proof {
            reveal_strlit("2");
        }
        "2"
    } else if d == 3 {
        proof {
            reveal_strlit("3");
        }
        "3"
    } else if d == 4 {
        proof {
            reveal_strlit("4");
        }
        "4"
    } else if d == 5 {
        proof {
            reveal_strlit("5");
        }
        "5"
    } else if d == 6 {
        proof {
            reveal_strlit("6");
        }
        "6"
    } else if d == 7 {
        proof {
            reveal_strlit("7");
        }
        "7"
    } else if d == 8 {
        proof {
            reveal_strlit("8");
        }
        "8"
    } else {
        proof {
            reveal_strlit("9");
        }
        "9"
    };
    assert(piece@ =~= seq![digit_char(d as nat)]);
    text.append(piece);
    assert(final(text)@ =~= old(text)@.push(digit_char(d as nat)));
}

/// Appends the decimal rendering of `n` to `text`.
pub fn push_decimal(text: &mut String, n: u128)
    ensures
        final(text)@ == old(text)@ + decimal(n as nat),
    decreases n,
{
    if n < 10 {
        push_digit(text, n as u8);
        assert(final(text)@ =~= old(text)@ + decimal(n as nat));
    } else {
        push_decimal(text, n / 10);
        push_digit(text, (n % 10) as u8);
        assert(final(text)@ =~= old(text)@ + decimal(n as nat));
    }
}

/// The decimal rendering of `n`.
pub fn decimal_string(n: u128) -> (text: String)
    ensures
        text@ == decimal(n as nat),
{
    let mut text = String::new();
    push_decimal(&mut text, n);
    assert(text@ =~= decimal(n as nat));
    text
}


/// Renders an I/O error kind by its `Debug` implementation (std's
/// `format!` over `std::io::ErrorKind`). Nothing is stated of the text.
#[verifier::external_body]
fn io_kind_name(kind: std::io::ErrorKind) -> String {
    format!("{kind:?}")
}

/// The variant name of a frame section.
pub open spec fn section_name(section: LocalFrameSection) -> Seq<char> {
    match section {
        LocalFrameSection::Header => "Header"@,
        LocalFrameSection::Control => "Control"@,
        LocalFrameSection::Bulk => "Bulk"@,
    }
}

/// The variant name of a frame I/O operation.
pub open spec fn io_operation_name(operation: LocalFrameIoOperation) -> Seq<char> {
    match operation {
        LocalFrameIoOperation::ReadHeader => "ReadHeader"@,
        LocalFrameIoOperation::ReadControl => "ReadControl"@,
        LocalFrameIoOperation::ReadBulk => "ReadBulk"@,
        LocalFrameIoOperation::WriteFrame => "WriteFrame"@,
    }
}

impl LocalFrameSection {
    /// Returns the section's variant name.
    pub fn name(&self) -> (name: &'static str)
        ensures
            name@ == section_name(*self),
    {
        match self {
            LocalFrameSection::Header => "Header",
            LocalFrameSection::Control => "Control",
            LocalFrameSection::Bulk => "Bulk",
        }
    }
}

impl LocalFrameIoOperation {
    /// Returns the operation's variant name.
    pub fn name(&self) -> (name: &'static str)
        ensures
            name@ == io_operation_name(*self),
    {
        match self {
            LocalFrameIoOperation::ReadHeader => "ReadHeader",
            LocalFrameIoOperation::ReadControl => "ReadControl",
            LocalFrameIoOperation::ReadBulk => "ReadBulk",
            LocalFrameIoOperation::WriteFrame => "WriteFrame",
        }
    }
}

/// The start of the message of an I/O failure, up to the error kind's name.
pub open spec fn frame_io_head(operation: LocalFrameIoOperation) -> Seq<char> {
    "local frame "@ + io_operation_name(operation) + " failed with "@
}

/// The message of every frame error but an I/O failure.
pub open spec fn frame_error_text(error: LocalFrameError) -> Seq<char> {
    match error {
        LocalFrameError::EmptyControl => "local control frame is empty"@,
        LocalFrameError::FrameLimitExceeded { actual, limit } => "local frame size "@ + decimal(
            actual as nat,
        ) + " exceeds limit "@ + decimal(limit as nat),
        LocalFrameError::ControlLimitExceeded { actual, limit } => "local frame control size "@
            + decimal(actual as nat) + " exceeds limit "@ + decimal(limit as nat),
        LocalFrameError::BulkLimitExceeded { actual, limit } => "local frame bulk size "@ + decimal(
            actual as nat,
        ) + " exceeds limit "@ + decimal(limit as nat),
        LocalFrameError::SizeOverflow => "local frame size overflow"@,
        LocalFrameError::AllocationFailed => "local frame allocation failed"@,
        LocalFrameError::Truncated { section, expected, actual } => "local frame "@ + section_name(
            section,
        ) + " is truncated: expected "@ + decimal(expected as nat) + " bytes, found "@ + decimal(
            actual as nat,
        ),
        LocalFrameError::TrailingBytes { expected, actual } =>
            "local frame has trailing bytes: expected "@ + decimal(expected as nat) + ", found "@
            + decimal(actual as nat),
        LocalFrameError::InvalidMagic => "invalid local frame magic"@,
        LocalFrameError::UnsupportedVersion { found } => "unsupported local frame version "@
            + decimal(found as nat),
        LocalFrameError::UnsupportedKind { found } => "unsupported local frame kind "@ + decimal(
            found as nat,
        ),
        LocalFrameError::NonCanonicalHeader => "non-canonical local frame header"@,
        LocalFrameError::InvalidCorrelationId => "local frame correlation ID is zero"@,
        LocalFrameError::InvalidSectionLayout =>
            "local frame kind and section lengths are inconsistent"@,
        LocalFrameError::IntegrityMismatch => "local frame integrity mismatch"@,
        LocalFrameError::InvalidObservationMetadata =>
            "local frame observation metadata is invalid or non-canonical"@,
        LocalFrameError::InvalidObservationEnvelope => "local frame observation envelope is invalid"@,
        LocalFrameError::Io { operation, .. } => frame_io_head(operation),
    }
}

impl LocalFrameError {
    /// Returns the human-readable message of this error.
    pub fn message(&self) -> (text: String)
        ensures
            !(*self is Io) ==> text@ == frame_error_text(*self),
            *self is Io ==> frame_io_head(self->operation).is_prefix_of(text@),
    {
        match *self {
            LocalFrameError::EmptyControl => String::from_str("local control frame is empty"),
            LocalFrameError::FrameLimitExceeded { actual, limit } => {
                let mut text = String::from_str("local frame size ");
                push_decimal(&mut text, actual as u128);
                text.append(" exceeds limit ");
                push_decimal(&mut text, limit as u128);
                text
            },
            LocalFrameError::ControlLimitExceeded { actual, limit } => {
                let mut text = String::from_str("local frame control size ");
                push_decimal(&mut text, actual as u128);
                text.append(" exceeds limit ");
                push_decimal(&mut text, limit as u128);
                text
            },
            LocalFrameError::BulkLimitExceeded { actual, limit } => {
                let mut text = String::from_str("local frame bulk size ");
                push_decimal(&mut text, actual as u128);
                text.append(" exceeds limit ");
                push_decimal(&mut text, limit as u128);
                text
            },
            LocalFrameError::SizeOverflow => String::from_str("local frame size overflow"),
            LocalFrameError::AllocationFailed => String::from_str("local frame allocation failed"),
            LocalFrameError::Truncated { section, expected, actual } => {
                let mut text = String::from_str("local frame ");
                text.append(section.name());
                text.append(" is truncated: expected ");
                push_decimal(&mut text, expected as u128);
                text.append(" bytes, found ");
                push_decimal(&mut text, actual as u128);
                text
            },
            LocalFrameError::TrailingBytes { expected, actual } => {
                let mut text = String::from_str("local frame has trailing bytes: expected ");
                push_decimal(&mut text, expected as u128);
                text.append(", found ");
                push_decimal(&mut text, actual as u128);
                text
            },
            LocalFrameError::InvalidMagic => String::from_str("invalid local frame magic"),
            LocalFrameError::UnsupportedVersion { found } => {
                let mut text = String::from_str("unsupported local frame version ");
                push_decimal(&mut text, found as u128);
                text
            },
            LocalFrameError::UnsupportedKind { found } => {
                let mut text = String::from_str("unsupported local frame kind ");
                push_decimal(&mut text, found as u128);
                text
            },
            LocalFrameError::NonCanonicalHeader => String::from_str(
                "non-canonical local frame header",
            ),
            LocalFrameError::InvalidCorrelationId => String::from_str(
                "local frame correlation ID is zero",
            ),
            LocalFrameError::InvalidSectionLayout => String::from_str(
                "local frame kind and section lengths are inconsistent",
            ),
            LocalFrameError::IntegrityMismatch => String::from_str("local frame integrity mismatch"),
            LocalFrameError::InvalidObservationMetadata => String::from_str(
                "local frame observation metadata is invalid or non-canonical",
            ),
            LocalFrameError::InvalidObservationEnvelope => String::from_str(
                "local frame observation envelope is invalid",
            ),
            LocalFrameError::Io { operation, kind } => {
                let mut text = String::from_str("local frame ");
                text.append(operation.name());
                text.append(" failed with ");
                let ghost head = text@;
                let name = io_kind_name(kind);
                text.append(name.as_str());
                assert(head.is_prefix_of(text@)) by {
                    assert(text@.subrange(0, head.len() as int) =~= head);
                }
                text
            },
        }
    }
}


/// The variant name of a validation classification.
pub open spec fn validation_kind_name(kind: LocalSessionValidationKind) -> Seq<char> {
    match kind {
        LocalSessionValidationKind::UnsupportedVersion => "UnsupportedVersion"@,
        LocalSessionValidationKind::InvalidLimits => "InvalidLimits"@,
        LocalSessionValidationKind::InvalidProtocolValue => "InvalidProtocolValue"@,
        LocalSessionValidationKind::InvalidPatchAdmission => "InvalidPatchAdmission"@,
        LocalSessionValidationKind::InvalidPatchCompletion => "InvalidPatchCompletion"@,
        LocalSessionValidationKind::InvalidCompilationLimits => "InvalidCompilationLimits"@,
        LocalSessionValidationKind::InvalidVersionVariant => "InvalidVersionVariant"@,
        LocalSessionValidationKind::InvalidImaginationAdmission => "InvalidImaginationAdmission"@,
        LocalSessionValidationKind::InvalidImaginationCompletion => "InvalidImaginationCompletion"@,
        LocalSessionValidationKind::InvalidCompilationResult => "InvalidCompilationResult"@,
    }
}

impl LocalSessionValidationKind {
    /// Returns the classification's variant name.
    pub fn name(&self) -> (name: &'static str)
        ensures
            name@ == validation_kind_name(*self),
    {
        match self {
            LocalSessionValidationKind::UnsupportedVersion => "UnsupportedVersion",
            LocalSessionValidationKind::InvalidLimits => "InvalidLimits",
            LocalSessionValidationKind::InvalidProtocolValue => "InvalidProtocolValue",
            LocalSessionValidationKind::InvalidPatchAdmission => "InvalidPatchAdmission",
            LocalSessionValidationKind::InvalidPatchCompletion => "InvalidPatchCompletion",
            LocalSessionValidationKind::InvalidCompilationLimits => "InvalidCompilationLimits",
            LocalSessionValidationKind::InvalidVersionVariant => "InvalidVersionVariant",
            LocalSessionValidationKind::InvalidImaginationAdmission => "InvalidImaginationAdmission",
            LocalSessionValidationKind::InvalidImaginationCompletion => "InvalidImaginationCompletion",
            LocalSessionValidationKind::InvalidCompilationResult => "InvalidCompilationResult",
        }
    }
}

/// The message of a validation failure: its classification and field path.
pub open spec fn validation_error_text(error: LocalSessionValidationError) -> Seq<char> {
    validation_kind_name(error.kind) + " at "@ + error.field@
}

impl LocalSessionValidationError {
    /// Returns the human-readable message of this failure.
    pub fn message(&self) -> (text: String)
        ensures
            text@ == validation_error_text(*self),
    {
        let mut text = String::from_str(self.kind.name());
        text.append(" at ");
        text.append(self.field);
        text
    }
}

/// The variant name of a JSON failure category.
pub open spec fn json_category_name(category: JsonErrorCategory) -> Seq<char> {
    match category {
        JsonErrorCategory::Io => "Io"@,
        JsonErrorCategory::Syntax => "Syntax"@,
        JsonErrorCategory::Data => "Data"@,
        JsonErrorCategory::EndOfFile => "EndOfFile"@,
    }
}

impl JsonErrorCategory {
    /// Returns the category's variant name.
    pub fn name(&self) -> (name: &'static str)
        ensures
            name@ == json_category_name(*self),
    {
        match self {
            JsonErrorCategory::Io => "Io",
            JsonErrorCategory::Syntax => "Syntax",
            JsonErrorCategory::Data => "Data",
            JsonErrorCategory::EndOfFile => "EndOfFile",
        }
    }
}

/// The message of a control-message codec failure.
pub open spec fn session_error_text(error: LocalSessionError) -> Seq<char> {
    match error {
        LocalSessionError::InvalidConfig =>
            "local frame configuration cannot admit a non-empty control message"@,
        LocalSessionError::MessageLimitExceeded { actual, limit } => "control message has "@
            + decimal(actual as nat) + " bytes; limit is "@ + decimal(limit as nat),
        LocalSessionError::NestingLimitExceeded { actual, limit } => "JSON nesting depth is "@
            + decimal(actual as nat) + "; limit is "@ + decimal(limit as nat),
        LocalSessionError::MalformedJson { category, line, column } => json_category_name(category)
            + " JSON error at "@ + decimal(line as nat) + ":"@ + decimal(column as nat),
        LocalSessionError::InvalidMessage(error) => validation_error_text(error),
        LocalSessionError::NonCanonicalMessage =>
            "control message is not canonical JSON followed by LF"@,
        LocalSessionError::WrongDirection => "control message has the wrong direction"@,
        LocalSessionError::WrongFrameKind => "expected a local control frame"@,
        LocalSessionError::SerializationFailed => "canonical control-message serialization failed"@,
        LocalSessionError::AllocationFailed => "bounded control-message allocation failed"@,
    }
}

impl LocalSessionError {
    /// Returns the human-readable message of this error.
    pub fn message(&self) -> (text: String)
        ensures
            text@ == session_error_text(*self),
    {
        match *self {
            LocalSessionError::InvalidConfig => String::from_str(
                "local frame configuration cannot admit a non-empty control message",
            ),
            LocalSessionError::MessageLimitExceeded { actual, limit } => {
                let mut text = String::from_str("control message has ");
                push_decimal(&mut text, actual as u128);
                text.append(" bytes; limit is ");
                push_decimal(&mut text, limit as u128);
                text
            },
            LocalSessionError::NestingLimitExceeded { actual, limit } => {
                let mut text = String::from_str("JSON nesting depth is ");
                push_decimal(&mut text, actual as u128);
                text.append("; limit is ");
                push_decimal(&mut text, limit as u128);
                text
            },
            LocalSessionError::MalformedJson { category, line, column } => {
                let mut text = String::from_str(category.name());
                text.append(" JSON error at ");
                push_decimal(&mut text, line as u128);
                text.append(":");
                push_decimal(&mut text, column as u128);
                text
            },
            LocalSessionError::InvalidMessage(error) => error.message(),
            LocalSessionError::NonCanonicalMessage => String::from_str(
                "control message is not canonical JSON followed by LF",
            ),
            LocalSessionError::WrongDirection => String::from_str(
                "control message has the wrong direction",
            ),
            LocalSessionError::WrongFrameKind => String::from_str("expected a local control frame"),
            LocalSessionError::SerializationFailed => String::from_str(
                "canonical control-message serialization failed",
            ),
            LocalSessionError::AllocationFailed => String::from_str(
                "bounded control-message allocation failed",
            ),
        }
    }
}


/// `head`, the decimal of `a`, `middle`, and the decimal of `b`.
pub open spec fn two_numbers(head: Seq<char>, a: nat, middle: Seq<char>, b: nat) -> Seq<char> {
    head + decimal(a) + middle + decimal(b)
}

fn render_two_numbers(head: &str, a: u128, middle: &str, b: u128) -> (text: String)
    ensures
        text@ == two_numbers(head@, a as nat, middle@, b as nat),
{
    let mut text = String::from_str(head);
    push_decimal(&mut text, a);
    text.append(middle);
    push_decimal(&mut text, b);
    text
}

fn render_number(head: &str, a: u128) -> (text: String)
    ensures
        text@ == head@ + decimal(a as nat),
{
    let mut text = String::from_str(head);
    push_decimal(&mut text, a);
    text
}

fn render_reason(head: &str, reason: &str) -> (text: String)
    ensures
        text@ == head@ + reason@,
{
    let mut text = String::from_str(head);
    text.append(reason);
    text
}

/// The message of a gateway failure.
pub open spec fn gateway_error_text(error: GatewayError) -> Seq<char> {
    match error {
        GatewayError::InvalidConfig { reason } => "invalid gateway config: "@ + reason@,
        GatewayError::IdempotencyConflict { .. } =>
            "idempotency key is already bound to another command"@,
        GatewayError::CommandCapacityExceeded { capacity } => "gateway command capacity "@
            + decimal(capacity as nat) + " is full"@,
        GatewayError::IdempotencyCapacityExceeded => "gateway idempotency capacity is full"@,
        GatewayError::QueryRevisionMismatch { requested, actual } => two_numbers(
            "query revision "@,
            requested as nat,
            " does not match current revision "@,
            actual as nat,
        ),
        GatewayError::QueryResultCapacityExceeded { actual, limit } => two_numbers(
            "query matches "@,
            actual as nat,
            " entities; result limit is "@,
            limit as nat,
        ),
        GatewayError::Compiler(failure) => "imagination compiler failed: "@ + compiler_failure_text(
            failure,
        ),
    }
}

/// The description of a compiler failure.
pub open spec fn compiler_failure_text(failure: CompilerFailure) -> Seq<char> {
    match failure {
        CompilerFailure::InvalidResult(kind) => "invalid compilation result: "@ + match kind {
            CompilationFailureKind::DecisionLimitExceeded => "DecisionLimitExceeded"@,
            CompilationFailureKind::UnresolvedLimitExceeded => "UnresolvedLimitExceeded"@,
            CompilationFailureKind::TextLimitExceeded => "TextLimitExceeded"@,
            CompilationFailureKind::DecodedSizeLimitExceeded => "DecodedSizeLimitExceeded"@,
            CompilationFailureKind::InvalidPatch => "InvalidPatch"@,
            CompilationFailureKind::Other => "Other"@,
        },
        CompilerFailure::EncodingLimitExceeded => "compilation encoding exceeded its bounds"@,
        CompilerFailure::EncodingFailed => "compilation encoding failed"@,
        CompilerFailure::Other => "compilation failed"@,
    }
}

fn compiler_failure_message(failure: CompilerFailure) -> (text: String)
    ensures
        text@ == compiler_failure_text(failure),
{
    match failure {
        CompilerFailure::InvalidResult(kind) => {
            let name = match kind {
                CompilationFailureKind::DecisionLimitExceeded => "DecisionLimitExceeded",
                CompilationFailureKind::UnresolvedLimitExceeded => "UnresolvedLimitExceeded",
                CompilationFailureKind::TextLimitExceeded => "TextLimitExceeded",
                CompilationFailureKind::DecodedSizeLimitExceeded => "DecodedSizeLimitExceeded",
                CompilationFailureKind::InvalidPatch => "InvalidPatch",
                CompilationFailureKind::Other => "Other",
            };
            render_reason("invalid compilation result: ", name)
        },
        CompilerFailure::EncodingLimitExceeded => String::from_str(
            "compilation encoding exceeded its bounds",
        ),
        CompilerFailure::EncodingFailed => String::from_str("compilation encoding failed"),
        CompilerFailure::Other => String::from_str("compilation failed"),
    }
}

impl GatewayError {
    /// Returns the human-readable message of this failure.
    pub fn message(&self) -> (text: String)
        ensures
            text@ == gateway_error_text(*self),
    {
        match *self {
            GatewayError::InvalidConfig { reason } => render_reason(
                "invalid gateway config: ",
                reason,
            ),
            GatewayError::IdempotencyConflict { .. } => String::from_str(
                "idempotency key is already bound to another command",
            ),
            GatewayError::CommandCapacityExceeded { capacity } => {
                let mut text = render_number("gateway command capacity ", capacity as u128);
                text.append(" is full");
                text
            },
            GatewayError::IdempotencyCapacityExceeded => String::from_str(
                "gateway idempotency capacity is full",
            ),
            GatewayError::QueryRevisionMismatch { requested, actual } => render_two_numbers(
                "query revision ",
                requested as u128,
                " does not match current revision ",
                actual as u128,
            ),
            GatewayError::QueryResultCapacityExceeded { actual, limit } => render_two_numbers(
                "query matches ",
                actual as u128,
                " entities; result limit is ",
                limit as u128,
            ),
            GatewayError::Compiler(failure) => {
                let mut text = String::from_str("imagination compiler failed: ");
                let detail = compiler_failure_message(failure);
                text.append(detail.as_str());
                text
            },
        }
    }
}

/// The message of an observation failure; camera identities are rendered
/// in decimal.
pub open spec fn observation_error_text(error: ObservationError) -> Seq<char> {
    match error {
        ObservationError::RequestRevisionMismatch { requested, current } => two_numbers(
            "observation requested revision "@,
            requested as nat,
            ", current revision is "@,
            current as nat,
        ),
        ObservationError::CapacityExceeded { capacity } => "observation capacity "@ + decimal(
            capacity as nat,
        ) + " is full"@,
        ObservationError::WorkerUnavailable => "observation worker is unavailable"@,
        ObservationError::SourceRevisionAhead { source, latest } => two_numbers(
            "frame source revision "@,
            source as nat,
            " is newer than latest world revision "@,
            latest as nat,
        ),
        ObservationError::SourceRevisionMismatch { requested, rendered } => two_numbers(
            "observation requested revision "@,
            requested as nat,
            ", frame used revision "@,
            rendered as nat,
        ),
        ObservationError::CameraMismatch { requested, rendered } => two_numbers(
            "observation requested camera "@,
            requested as nat,
            ", frame used "@,
            rendered as nat,
        ),
    }
}

impl ObservationError {
    /// Returns the human-readable message of this failure.
    pub fn message(&self) -> (text: String)
        ensures
            text@ == observation_error_text(*self),
    {
        match *self {
            ObservationError::RequestRevisionMismatch { requested, current } => render_two_numbers(
                "observation requested revision ",
                requested as u128,
                ", current revision is ",
                current as u128,
            ),
            ObservationError::CapacityExceeded { capacity } => {
                let mut text = render_number("observation capacity ", capacity as u128);
                text.append(" is full");
                text
            },
            ObservationError::WorkerUnavailable => String::from_str(
                "observation worker is unavailable",
            ),
            ObservationError::SourceRevisionAhead { source, latest } => render_two_numbers(
                "frame source revision ",
                source as u128,
                " is newer than latest world revision ",
                latest as u128,
            ),
            ObservationError::SourceRevisionMismatch { requested, rendered } => render_two_numbers(
                "observation requested revision ",
                requested as u128,
                ", frame used revision ",
                rendered as u128,
            ),
            ObservationError::CameraMismatch { requested, rendered } => render_two_numbers(
                "observation requested camera ",
                requested,
                ", frame used ",
                rendered,
            ),
        }
    }
}

/// The message of an unusable replay bound.
pub open spec fn replay_config_error_text(error: ReplayConfigError) -> Seq<char> {
    match error {
        ReplayConfigError::LogBoundBelowHeader { max_log_bytes, minimum } => two_numbers(
            "replay log bound "@,
            max_log_bytes as nat,
            " is below the replay header size "@,
            minimum as nat,
        ),
    }
}

impl ReplayConfigError {
    /// Returns the human-readable message of this failure.
    pub fn message(&self) -> (text: String)
        ensures
            text@ == replay_config_error_text(*self),
    {
        match *self {
            ReplayConfigError::LogBoundBelowHeader { max_log_bytes, minimum } => render_two_numbers(
                "replay log bound ",
                max_log_bytes as u128,
                " is below the replay header size ",
                minimum as u128,
            ),
        }
    }
}

/// The message of a recovery-envelope failure.
pub open spec fn recovery_error_text(error: RecoveryPointCodecError) -> Seq<char> {
    match error {
        RecoveryPointCodecError::InvalidReplayConfig(inner) => "invalid replay config: "@
            + replay_config_error_text(inner),
        RecoveryPointCodecError::Truncated { actual, minimum } => two_numbers(
            "recovery envelope has "@,
            actual as nat,
            " bytes; at least "@,
            minimum as nat,
        ) + " are required"@,
        RecoveryPointCodecError::InvalidHeader => "invalid recovery envelope header"@,
        RecoveryPointCodecError::UnsupportedVersion { found } =>
            "unsupported recovery envelope version "@ + decimal(found as nat),
        RecoveryPointCodecError::EnvelopeSizeExceeded { actual, limit } => two_numbers(
            "recovery envelope has "@,
            actual as nat,
            " bytes; configured limit is "@,
            limit as nat,
        ),
        RecoveryPointCodecError::ReplaySizeExceeded { actual, limit } => two_numbers(
            "recovery replay has "@,
            actual as nat,
            " bytes; configured limit is "@,
            limit as nat,
        ),
        RecoveryPointCodecError::LengthMismatch { actual, expected } => two_numbers(
            "recovery envelope has "@,
            actual as nat,
            " bytes; declared length requires "@,
            expected as nat,
        ),
        RecoveryPointCodecError::InvalidFrameId => "invalid recovery envelope frame identity"@,
        RecoveryPointCodecError::IntegrityMismatch => "recovery envelope integrity check failed"@,
    }
}

impl RecoveryPointCodecError {
    /// Returns the human-readable message of this failure.
    pub fn message(&self) -> (text: String)
        ensures
            text@ == recovery_error_text(*self),
    {
        match *self {
            RecoveryPointCodecError::InvalidReplayConfig(inner) => {
                let mut text = String::from_str("invalid replay config: ");
                let detail = inner.message();
                text.append(detail.as_str());
                text
            },
            RecoveryPointCodecError::Truncated { actual, minimum } => {
                let mut text = render_two_numbers(
                    "recovery envelope has ",
                    actual as u128,
                    " bytes; at least ",
                    minimum as u128,
                );
                text.append(" are required");
                text
            },
            RecoveryPointCodecError::InvalidHeader => String::from_str(
                "invalid recovery envelope header",
            ),
            RecoveryPointCodecError::UnsupportedVersion { found } => render_number(
                "unsupported recovery envelope version ",
                found as u128,
            ),
            RecoveryPointCodecError::EnvelopeSizeExceeded { actual, limit } => render_two_numbers(
                "recovery envelope has ",
                actual as u128,
                " bytes; configured limit is ",
                limit as u128,
            ),
            RecoveryPointCodecError::ReplaySizeExceeded { actual, limit } => render_two_numbers(
                "recovery replay has ",
                actual as u128,
                " bytes; configured limit is ",
                limit as u128,
            ),
            RecoveryPointCodecError::LengthMismatch { actual, expected } => render_two_numbers(
                "recovery envelope has ",
                actual as u128,
                " bytes; declared length requires ",
                expected as u128,
            ),
            RecoveryPointCodecError::InvalidFrameId => String::from_str(
                "invalid recovery envelope frame identity",
            ),
            RecoveryPointCodecError::IntegrityMismatch => String::from_str(
                "recovery envelope integrity check failed",
            ),
        }
    }
}

/// The message of a canonical-scenario failure.
pub open spec fn scenario_error_text(error: CanonicalScenarioError) -> Seq<char> {
    match error {
        CanonicalScenarioError::NonEmptyService { revision } =>
            "canonical scenario requires revision 0, found revision "@ + decimal(revision as nat),
        CanonicalScenarioError::InvalidObservationTimeout =>
            "canonical scenario observation timeout must be between 1 nanosecond and 60 seconds"@,
        CanonicalScenarioError::Contract { reason } => "canonical scenario contract failed: "@
            + reason@,
    }
}

impl CanonicalScenarioError {
    /// Returns the human-readable message of this failure.
    pub fn message(&self) -> (text: String)
        ensures
            text@ == scenario_error_text(*self),
    {
        match *self {
            CanonicalScenarioError::NonEmptyService { revision } => render_number(
                "canonical scenario requires revision 0, found revision ",
                revision as u128,
            ),
            CanonicalScenarioError::InvalidObservationTimeout => String::from_str(
                "canonical scenario observation timeout must be between 1 nanosecond and 60 seconds",
            ),
            CanonicalScenarioError::Contract { reason } => render_reason(
                "canonical scenario contract failed: ",
                reason,
            ),
        }
    }
}

/// The message of an executor failure.
pub open spec fn executor_error_text(error: LocalExecutorError) -> Seq<char> {
    match error {
        LocalExecutorError::InvalidConfig { reason } => "invalid local executor config: "@
            + reason@,
        LocalExecutorError::ServiceNotQuiescent { commands, observations } => two_numbers(
            "local executor requires quiescence; commands="@,
            commands as nat,
            ", observations="@,
            observations as nat,
        ),
        LocalExecutorError::OutputRejected => "local executor output exceeded negotiated bounds"@,
        LocalExecutorError::StateInvariant { reason } => "local executor state invariant failed: "@
            + reason@,
    }
}

impl LocalExecutorError {
    /// Returns the human-readable message of this failure.
    pub fn message(&self) -> (text: String)
        ensures
            text@ == executor_error_text(*self),
    {
        match *self {
            LocalExecutorError::InvalidConfig { reason } => render_reason(
                "invalid local executor config: ",
                reason,
            ),
            LocalExecutorError::ServiceNotQuiescent { commands, observations } => render_two_numbers(
                "local executor requires quiescence; commands=",
                commands as u128,
                ", observations=",
                observations as u128,
            ),
            LocalExecutorError::OutputRejected => String::from_str(
                "local executor output exceeded negotiated bounds",
            ),
            LocalExecutorError::StateInvariant { reason } => render_reason(
                "local executor state invariant failed: ",
                reason,
            ),
        }
    }
}

/// The message of a measurement failure.
pub open spec fn measurement_error_text(error: MeasurementError) -> Seq<char> {
    match error {
        MeasurementError::Contract => "measurement fixture output count mismatch"@,
    }
}

impl MeasurementError {
    /// Returns the human-readable message of this failure.
    pub fn message(&self) -> (text: String)
        ensures
            text@ == measurement_error_text(*self),
    {
        match *self {
            MeasurementError::Contract => String::from_str(
                "measurement fixture output count mismatch",
            ),
        }
    }
}


/// The redacted description of a recovery point: its replay byte count and
/// next frame identity, never the replay bytes.
pub open spec fn recovery_point_text(point: (Seq<u8>, u64)) -> Seq<char> {
    two_numbers(
        "EngineRecoveryPoint { replay_byte_count: "@,
        point.0.len(),
        ", next_frame_id: "@,
        point.1 as nat,
    ) + " }"@
}

impl EngineRecoveryPoint {
    /// Describes this point without its replay contents.
    pub fn describe(&self) -> (text: String)
        ensures
            text@ == recovery_point_text(self@),
    {
        let count = self.replay_bytes().len();
        let mut text = render_two_numbers(
            "EngineRecoveryPoint { replay_byte_count: ",
            count as u128,
            ", next_frame_id: ",
            self.next_frame_id() as u128,
        );
        text.append(" }");
        text
    }
}

} // verus!
