//! Version-one local stream frames: types, limits, and their exact byte layout.
//!
//! A frame is a fixed 68-byte header (magic, version, kind, reserved byte,
//! correlation identity, section lengths, and a SHA-256 digest), followed by
//! the control section and the bulk section. The digest covers the 36 header
//! bytes before it and both sections.

use crate::bytes::{
    be_bytes, bytes_equal, be_value, lemma_be_bytes_len, lemma_be_bytes_of_value, lemma_be_value_bound,
    lemma_be_value_of_bytes, lemma_pow256_values,
};
use crate::digest::digest32;
use crate::limits::{ObservationPayloadLimits, RuntimeLimits};
use vstd::prelude::*;

verus! {

/// Declares std's `std::io::ErrorKind` so that I/O failures can carry it;
/// nothing inside a value of it is visible to proofs.
#[verifier::external_type_specification]
#[verifier::external_body]
pub struct ExIoErrorKind(std::io::ErrorKind);

/// Current local stream frame version.
pub const LOCAL_FRAME_VERSION: u16 = 1;

/// Fixed bytes read before any version-one body allocation.
pub const LOCAL_FRAME_HEADER_BYTES: usize = 68;

/// Header bytes before the digest.
pub const LOCAL_FRAME_PREFIX_BYTES: usize = 36;

/// Supported version-one local frame kinds.
#[derive(Debug, Clone, Copy, PartialEq, Eq, Structural)]
pub enum LocalFrameKind {
    /// Schema-owned control bytes with no bulk section.
    Control,
    /// Canonical observation metadata plus its payload envelope.
    Observation,
}

/// One bounded frame.
///
/// An observation frame carries the canonical metadata bytes in its control
/// section and the payload-envelope bytes in its bulk section.
#[derive(Clone, PartialEq, Eq)]
pub enum LocalFrame {
    /// Exact schema-owned bytes.
    Control {
        /// Non-zero value used by the session to correlate work.
        correlation_id: u64,
        /// Exact non-empty schema-owned control bytes.
        bytes: Vec<u8>,
    },
    /// One complete causal observation value.
    Observation {
        /// Non-zero value used by the session to correlate work.
        correlation_id: u64,
        /// Canonical observation metadata bytes.
        metadata: Vec<u8>,
        /// Observation payload-envelope bytes bound to `metadata`.
        payload: Vec<u8>,
    },
}

impl View for LocalFrame {
    /// Kind, correlation identity, control section, bulk section.
    type V = (LocalFrameKind, u64, Seq<u8>, Seq<u8>);

    open spec fn view(&self) -> Self::V {
        match self {
            LocalFrame::Control { correlation_id, bytes } => (
                LocalFrameKind::Control,
                *correlation_id,
                bytes@,
                Seq::empty(),
            ),
            LocalFrame::Observation { correlation_id, metadata, payload } => (
                LocalFrameKind::Observation,
                *correlation_id,
                metadata@,
                payload@,
            ),
        }
    }
}

/// One frame as its outer layer decoded it: the header, the section
/// lengths, and the digest over both sections hold.
///
/// An observation frame's metadata must still be its own canonical form and
/// its payload envelope must still accept that metadata; `into_frame` takes
/// the outcome of those checks and only then yields a `LocalFrame`.
#[derive(Clone, PartialEq, Eq)]
pub enum DecodedFrame {
    /// A complete control frame.
    Control {
        /// Non-zero correlation value.
        correlation_id: u64,
        /// Exact non-empty schema-owned control bytes.
        bytes: Vec<u8>,
    },
    /// An observation frame whose sections are not yet checked.
    UnvalidatedObservation {
        /// Non-zero correlation value.
        correlation_id: u64,
        /// Metadata bytes as received.
        metadata: Vec<u8>,
        /// Payload-envelope bytes as received.
        payload: Vec<u8>,
    },
}

impl View for DecodedFrame {
    /// Kind, correlation identity, control section, bulk section.
    type V = (LocalFrameKind, u64, Seq<u8>, Seq<u8>);

    open spec fn view(&self) -> Self::V {
        match self {
            DecodedFrame::Control { correlation_id, bytes } => (
                LocalFrameKind::Control,
                *correlation_id,
                bytes@,
                Seq::empty(),
            ),
            DecodedFrame::UnvalidatedObservation { correlation_id, metadata, payload } => (
                LocalFrameKind::Observation,
                *correlation_id,
                metadata@,
                payload@,
            ),
        }
    }
}

/// What checking an observation's sections gives: the metadata must parse
/// (`canonical` is its canonical re-encoding, `None` when it does not parse)
/// and equal that re-encoding byte for byte, and then the payload envelope
/// must accept it.
pub open spec fn spec_observation_check(
    metadata: Seq<u8>,
    canonical: Option<Seq<u8>>,
    envelope_valid: bool,
) -> Result<(), LocalFrameError> {
    match canonical {
        None => Err(LocalFrameError::InvalidObservationMetadata),
        Some(c) => if c != metadata {
            Err(LocalFrameError::InvalidObservationMetadata)
        } else if !envelope_valid {
            Err(LocalFrameError::InvalidObservationEnvelope)
        } else {
            Ok(())
        },
    }
}

impl DecodedFrame {
    /// Completes decoding. A control frame needs nothing more. For an
    /// observation, `canonical_metadata` is the canonical encoding of the
    /// parsed metadata (`None` when the metadata does not parse) and
    /// `envelope_valid` says whether the payload envelope accepted that
    /// metadata; the frame is yielded only when both checks pass.
    pub fn into_frame(self, canonical_metadata: Option<&[u8]>, envelope_valid: bool) -> (frame:
        Result<LocalFrame, LocalFrameError>)
        ensures
            self is Control ==> frame is Ok && frame->Ok_0@ == self@,
            self is UnvalidatedObservation ==> match spec_observation_check(
                self@.2,
                match canonical_metadata {
                    Some(c) => Some(c@),
                    None => None,
                },
                envelope_valid,
            ) {
                Ok(()) => frame is Ok && frame->Ok_0@ == self@,
                Err(e) => frame == Err::<LocalFrame, LocalFrameError>(e),
            },
    {
        match self {
            DecodedFrame::Control { correlation_id, bytes } => Ok(
                LocalFrame::Control { correlation_id, bytes },
            ),
            DecodedFrame::UnvalidatedObservation { correlation_id, metadata, payload } => {
                let canonical = match canonical_metadata {
                    None => {
                        return Err(LocalFrameError::InvalidObservationMetadata);
                    },
                    Some(c) => c,
                };
                if !bytes_equal(canonical, metadata.as_slice()) {
                    return Err(LocalFrameError::InvalidObservationMetadata);
                }
                if !envelope_valid {
                    return Err(LocalFrameError::InvalidObservationEnvelope);
                }
                Ok(LocalFrame::Observation { correlation_id, metadata, payload })
            },
        }
    }
}

impl LocalFrame {
    /// Returns the fixed frame kind.
    pub fn kind(&self) -> (kind: LocalFrameKind)
        ensures
            kind == self@.0,
    {
        match self {
            LocalFrame::Control { .. } => LocalFrameKind::Control,
            LocalFrame::Observation { .. } => LocalFrameKind::Observation,
        }
    }

    /// Returns the session-owned correlation value.
    pub fn correlation_id(&self) -> (id: u64)
        ensures
            id == self@.1,
    {
        match self {
            LocalFrame::Control { correlation_id, .. } => *correlation_id,
            LocalFrame::Observation { correlation_id, .. } => *correlation_id,
        }
    }
}

/// Stable local-frame region used in truncated-input diagnostics.
#[derive(Debug, Clone, Copy, PartialEq, Eq, Structural)]
pub enum LocalFrameSection {
    /// Fixed version-one header.
    Header,
    /// Schema-owned control or canonical metadata bytes.
    Control,
    /// Observation payload-envelope bytes.
    Bulk,
}

/// Stable I/O operation category without reader, writer, or payload details.
#[derive(Debug, Clone, Copy, PartialEq, Eq, Structural)]
pub enum LocalFrameIoOperation {
    /// Reading the fixed header.
    ReadHeader,
    /// Reading the control section.
    ReadControl,
    /// Reading the bulk section.
    ReadBulk,
    /// Writing a completely encoded frame.
    WriteFrame,
}

/// Fail-closed local stream framing, validation, or I/O error.
#[derive(Debug, Clone, Copy, PartialEq, Eq)]
pub enum LocalFrameError {
    /// A control frame contained no schema-owned bytes.
    EmptyControl,
    /// The complete frame exceeds its configured byte bound.
    FrameLimitExceeded { actual: u64, limit: u64 },
    /// The control section exceeds its configured byte bound.
    ControlLimitExceeded { actual: u64, limit: u64 },
    /// The bulk section exceeds its configured byte bound.
    BulkLimitExceeded { actual: u64, limit: u64 },
    /// Checked length arithmetic overflowed.
    SizeOverflow,
    /// A bounded body or output reservation failed.
    AllocationFailed,
    /// Input ended after a frame had started.
    Truncated { section: LocalFrameSection, expected: u64, actual: u64 },
    /// A borrowed complete frame contains bytes after its declared body.
    TrailingBytes { expected: u64, actual: u64 },
    /// The fixed local-frame magic does not match.
    InvalidMagic,
    /// The local-frame version is not supported.
    UnsupportedVersion { found: u16 },
    /// The frame kind tag is unknown.
    UnsupportedKind { found: u8 },
    /// A reserved header field is non-zero.
    NonCanonicalHeader,
    /// Correlation identity zero is reserved.
    InvalidCorrelationId,
    /// The frame kind and section lengths are inconsistent.
    InvalidSectionLayout,
    /// The frame digest does not match the exact header and body.
    IntegrityMismatch,
    /// Observation metadata was invalid or not in its exact canonical form.
    InvalidObservationMetadata,
    /// The nested observation payload envelope rejected the bulk section.
    InvalidObservationEnvelope,
    /// A caller-owned reader or writer failed; no implementation detail is retained.
    Io { operation: LocalFrameIoOperation, kind: std::io::ErrorKind },
}

/// Independent limits for one complete local stream frame.
#[derive(Debug, Clone, Copy, PartialEq, Eq, Structural)]
pub struct LocalFrameLimits {
    /// Maximum fixed-header plus control plus bulk bytes.
    pub max_frame_bytes: u64,
    /// Maximum schema-owned control or canonical metadata bytes.
    pub max_control_bytes: u64,
    /// Maximum observation payload-envelope bytes.
    pub max_bulk_bytes: u64,
}

impl LocalFrameLimits {
    /// Constructs explicit frame limits.
    pub fn new(max_frame_bytes: u64, max_control_bytes: u64, max_bulk_bytes: u64) -> (limits: Self)
        ensures
            limits.max_frame_bytes == max_frame_bytes,
            limits.max_control_bytes == max_control_bytes,
            limits.max_bulk_bytes == max_bulk_bytes,
    {
        LocalFrameLimits { max_frame_bytes, max_control_bytes, max_bulk_bytes }
    }
}

impl Default for LocalFrameLimits {
    fn default() -> (limits: Self)
        ensures
            limits.max_frame_bytes == 5_242_948,
            limits.max_control_bytes == 1_048_576,
            limits.max_bulk_bytes == 4_194_304,
    {
        LocalFrameLimits {
            max_frame_bytes: 5_242_948,
            max_control_bytes: 1_048_576,
            max_bulk_bytes: 4_194_304,
        }
    }
}

/// Complete validation configuration for the local framing boundary.
#[derive(Debug, Clone, Copy, PartialEq, Eq, Structural)]
pub struct LocalFrameConfig {
    /// Outer stream-frame limits.
    pub frame_limits: LocalFrameLimits,
    /// Canonical metadata and image-dimension limits.
    pub runtime_limits: RuntimeLimits,
    /// Inner observation payload-envelope limits.
    pub payload_limits: ObservationPayloadLimits,
}

impl LocalFrameConfig {
    /// Constructs an explicit complete configuration.
    pub fn new(
        frame_limits: LocalFrameLimits,
        runtime_limits: RuntimeLimits,
        payload_limits: ObservationPayloadLimits,
    ) -> (config: Self)
        ensures
            config.frame_limits == frame_limits,
            config.runtime_limits == runtime_limits,
            config.payload_limits == payload_limits,
    {
        LocalFrameConfig { frame_limits, runtime_limits, payload_limits }
    }

    /// Constructs a complete configuration from independent payload bounds.
    pub fn with_payload_bounds(
        frame_limits: LocalFrameLimits,
        runtime_limits: RuntimeLimits,
        max_observation_envelope_bytes: u64,
        max_visibility_entries: u32,
    ) -> (config: Self)
        ensures
            config.frame_limits == frame_limits,
            config.runtime_limits == runtime_limits,
            config.payload_limits.max_envelope_bytes == max_observation_envelope_bytes,
            config.payload_limits.max_visibility_entries == max_visibility_entries,
    {
        LocalFrameConfig::new(
            frame_limits,
            runtime_limits,
            ObservationPayloadLimits::new(max_observation_envelope_bytes, max_visibility_entries),
        )
    }
}

impl Default for LocalFrameConfig {
    fn default() -> (config: Self)
        ensures
            config.frame_limits.max_frame_bytes == 5_242_948,
            config.frame_limits.max_control_bytes == 1_048_576,
            config.frame_limits.max_bulk_bytes == 4_194_304,
            config.runtime_limits == crate::limits::default_runtime_limits(),
            config.runtime_limits.nonzero(),
            config.payload_limits.max_envelope_bytes == 4_194_304,
            config.payload_limits.max_visibility_entries == 65_536,
    {
        LocalFrameConfig {
            frame_limits: LocalFrameLimits::default(),
            runtime_limits: RuntimeLimits::default(),
            payload_limits: ObservationPayloadLimits::default(),
        }
    }
}

/// A validated fixed header.
#[derive(Debug, Clone, Copy, PartialEq, Eq, Structural)]
pub struct FrameHeader {
    /// Frame kind.
    pub kind: LocalFrameKind,
    /// Non-zero correlation identity.
    pub correlation_id: u64,
    /// Declared control-section bytes.
    pub control_bytes: u64,
    /// Declared bulk-section bytes.
    pub bulk_bytes: u64,
    /// Declared complete frame bytes, header included.
    pub frame_bytes: u64,
}

/// The eight magic bytes `COGLOC01`.
pub open spec fn frame_magic() -> Seq<u8> {
    seq![67u8, 79u8, 71u8, 76u8, 79u8, 67u8, 48u8, 49u8]
}

/// The header tag of a frame kind.
pub open spec fn kind_tag(kind: LocalFrameKind) -> u8 {
    match kind {
        LocalFrameKind::Control => 1,
        LocalFrameKind::Observation => 2,
    }
}

/// The 36 header bytes that precede the digest.
pub open spec fn header_prefix(
    kind: LocalFrameKind,
    correlation_id: u64,
    control_len: nat,
    bulk_len: nat,
) -> Seq<u8> {
    frame_magic() + be_bytes(1, 2) + seq![kind_tag(kind), 0u8] + be_bytes(correlation_id as nat, 8)
        + be_bytes(control_len, 8) + be_bytes(bulk_len, 8)
}

/// The complete encoding of one frame's sections.
pub open spec fn frame_encoding(
    kind: LocalFrameKind,
    correlation_id: u64,
    control: Seq<u8>,
    bulk: Seq<u8>,
) -> Seq<u8> {
    let prefix = header_prefix(kind, correlation_id, control.len(), bulk.len());
    prefix + digest32(prefix + control + bulk) + control + bulk
}

/// The layout rule: control frames have a non-empty control section and no
/// bulk; observation frames have both sections non-empty.
pub open spec fn layout_error(kind: LocalFrameKind, control_len: nat, bulk_len: nat) -> Option<
    LocalFrameError,
> {
    match kind {
        LocalFrameKind::Control => if control_len == 0 {
            Some(LocalFrameError::EmptyControl)
        } else if bulk_len != 0 {
            Some(LocalFrameError::InvalidSectionLayout)
        } else {
            None
        },
        LocalFrameKind::Observation => if control_len == 0 || bulk_len == 0 {
            Some(LocalFrameError::InvalidSectionLayout)
        } else {
            None
        },
    }
}

/// The bound rule, checked in order: control, bulk, overflow, complete frame.
/// On success, the complete frame length.
pub open spec fn length_check(control_len: u64, bulk_len: u64, limits: LocalFrameLimits) -> Result<
    u64,
    LocalFrameError,
> {
    let total = LOCAL_FRAME_HEADER_BYTES + control_len + bulk_len;
    if control_len > limits.max_control_bytes {
        Err(
            LocalFrameError::ControlLimitExceeded {
                actual: control_len,
                limit: limits.max_control_bytes,
            },
        )
    } else if bulk_len > limits.max_bulk_bytes {
        Err(LocalFrameError::BulkLimitExceeded { actual: bulk_len, limit: limits.max_bulk_bytes })
    } else if total > u64::MAX {
        Err(LocalFrameError::SizeOverflow)
    } else if total > limits.max_frame_bytes {
        Err(
            LocalFrameError::FrameLimitExceeded {
                actual: total as u64,
                limit: limits.max_frame_bytes,
            },
        )
    } else {
        Ok(total as u64)
    }
}

/// What encoding a frame view gives.
pub open spec fn spec_encode(
    frame: (LocalFrameKind, u64, Seq<u8>, Seq<u8>),
    config: LocalFrameConfig,
) -> Result<Seq<u8>, LocalFrameError> {
    let (kind, correlation_id, control, bulk) = frame;
    if correlation_id == 0 {
        Err(LocalFrameError::InvalidCorrelationId)
    } else if layout_error(kind, control.len(), bulk.len()) is Some {
        Err(layout_error(kind, control.len(), bulk.len())->0)
    } else if control.len() > u64::MAX || bulk.len() > u64::MAX {
        Err(LocalFrameError::SizeOverflow)
    } else {
        match length_check(control.len() as u64, bulk.len() as u64, config.frame_limits) {
            Err(e) => Err(e),
            Ok(total) => if total > usize::MAX {
                Err(LocalFrameError::SizeOverflow)
            } else {
                Ok(frame_encoding(kind, correlation_id, control, bulk))
            },
        }
    }
}

/// What parsing the 68 header bytes gives.
pub open spec fn spec_parse_header(header: Seq<u8>, limits: LocalFrameLimits) -> Result<
    FrameHeader,
    LocalFrameError,
> {
    let version = be_value(header.subrange(8, 10));
    let tag = header[10];
    let correlation_id = be_value(header.subrange(12, 20));
    let control_len = be_value(header.subrange(20, 28));
    let bulk_len = be_value(header.subrange(28, 36));
    let kind = if tag == 1 {
        LocalFrameKind::Control
    } else {
        LocalFrameKind::Observation
    };
    if header.subrange(0, 8) != frame_magic() {
        Err(LocalFrameError::InvalidMagic)
    } else if version != 1 {
        Err(LocalFrameError::UnsupportedVersion { found: version as u16 })
    } else if tag != 1 && tag != 2 {
        Err(LocalFrameError::UnsupportedKind { found: tag })
    } else if header[11] != 0 {
        Err(LocalFrameError::NonCanonicalHeader)
    } else if correlation_id == 0 {
        Err(LocalFrameError::InvalidCorrelationId)
    } else if layout_error(kind, control_len, bulk_len) is Some {
        Err(layout_error(kind, control_len, bulk_len)->0)
    } else {
        match length_check(control_len as u64, bulk_len as u64, limits) {
            Err(e) => Err(e),
            Ok(total) => Ok(
                FrameHeader {
                    kind,
                    correlation_id: correlation_id as u64,
                    control_bytes: control_len as u64,
                    bulk_bytes: bulk_len as u64,
                    frame_bytes: total,
                },
            ),
        }
    }
}

/// A byte count clamped to `u64`.
pub open spec fn clamp_u64(n: nat) -> u64 {
    if n > u64::MAX {
        u64::MAX
    } else {
        n as u64
    }
}

/// What decoding one exact borrowed frame gives.
pub open spec fn spec_decode(encoded: Seq<u8>, config: LocalFrameConfig) -> Result<
    (LocalFrameKind, u64, Seq<u8>, Seq<u8>),
    LocalFrameError,
> {
    let len = encoded.len();
    if len < LOCAL_FRAME_HEADER_BYTES {
        Err(
            LocalFrameError::Truncated {
                section: LocalFrameSection::Header,
                expected: LOCAL_FRAME_HEADER_BYTES as u64,
                actual: len as u64,
            },
        )
    } else {
        match spec_parse_header(encoded.subrange(0, 68), config.frame_limits) {
            Err(e) => Err(e),
            Ok(h) => {
                let control_end = 68 + h.control_bytes;
                if len < h.frame_bytes {
                    let available = (len - 68) as nat;
                    if available < h.control_bytes {
                        Err(
                            LocalFrameError::Truncated {
                                section: LocalFrameSection::Control,
                                expected: h.control_bytes,
                                actual: available as u64,
                            },
                        )
                    } else {
                        Err(
                            LocalFrameError::Truncated {
                                section: LocalFrameSection::Bulk,
                                expected: h.bulk_bytes,
                                actual: (available - h.control_bytes) as u64,
                            },
                        )
                    }
                } else if len > h.frame_bytes {
                    Err(
                        LocalFrameError::TrailingBytes {
                            expected: h.frame_bytes,
                            actual: clamp_u64(len),
                        },
                    )
                } else {
                    let control = encoded.subrange(68, control_end);
                    let bulk = encoded.subrange(control_end, len as int);
                    if encoded.subrange(36, 68) != digest32(encoded.subrange(0, 36) + control + bulk) {
                        Err(LocalFrameError::IntegrityMismatch)
                    } else {
                        Ok((h.kind, h.correlation_id, control, bulk))
                    }
                }
            },
        }
    }
}

/// What every successfully parsed header satisfies.
pub proof fn lemma_parsed_header(header: Seq<u8>, limits: LocalFrameLimits)
    requires
        header.len() == 68,
        spec_parse_header(header, limits) is Ok,
    ensures
        ({
            let h = spec_parse_header(header, limits)->Ok_0;
            &&& h.correlation_id != 0
            &&& h.control_bytes > 0
            &&& h.frame_bytes == 68 + h.control_bytes + h.bulk_bytes
            &&& h.kind == LocalFrameKind::Control ==> h.bulk_bytes == 0
            &&& h.kind == LocalFrameKind::Observation ==> h.bulk_bytes > 0
        }),
{
    lemma_be_value_bound(header.subrange(12, 20));
    lemma_be_value_bound(header.subrange(20, 28));
    lemma_be_value_bound(header.subrange(28, 36));
    lemma_pow256_values();
}

/// Length of the 36-byte header prefix.
pub proof fn lemma_header_prefix_len(
    kind: LocalFrameKind,
    correlation_id: u64,
    control_len: nat,
    bulk_len: nat,
)
    ensures
        header_prefix(kind, correlation_id, control_len, bulk_len).len() == 36,
{
    lemma_be_bytes_len(1, 2);
    lemma_be_bytes_len(correlation_id as nat, 8);
    lemma_be_bytes_len(control_len, 8);
    lemma_be_bytes_len(bulk_len, 8);
}

/// Decoding what `encode_frame` produced gives back the same frame.
pub proof fn lemma_decode_encode(
    frame: (LocalFrameKind, u64, Seq<u8>, Seq<u8>),
    config: LocalFrameConfig,
)
    requires
        spec_encode(frame, config) is Ok,
    ensures
        spec_decode(spec_encode(frame, config)->Ok_0, config) == Ok::<
            (LocalFrameKind, u64, Seq<u8>, Seq<u8>),
            LocalFrameError,
        >(frame),
{
    let (kind, correlation_id, control, bulk) = frame;
    let c = control.len();
    let b = bulk.len();
    let prefix = header_prefix(kind, correlation_id, c, b);
    let digest = digest32(prefix + control + bulk);
    let encoded = frame_encoding(kind, correlation_id, control, bulk);
    lemma_header_prefix_len(kind, correlation_id, c, b);
    lemma_be_bytes_len(1, 2);
    lemma_be_bytes_len(correlation_id as nat, 8);
    lemma_be_bytes_len(c, 8);
    lemma_be_bytes_len(b, 8);
    lemma_pow256_values();
    lemma_be_value_of_bytes(1, 2);
    lemma_be_value_of_bytes(correlation_id as nat, 8);
    lemma_be_value_of_bytes(c, 8);
    lemma_be_value_of_bytes(b, 8);
    assert(encoded == prefix + digest + control + bulk);
    assert(encoded.len() == 68 + c + b);
    let header = encoded.subrange(0, 68);
    assert(header.subrange(0, 8) =~= frame_magic());
    assert(header.subrange(8, 10) =~= be_bytes(1, 2));
    assert(header[10] == kind_tag(kind));
    assert(header[11] == 0);
    assert(header.subrange(12, 20) =~= be_bytes(correlation_id as nat, 8));
    assert(header.subrange(20, 28) =~= be_bytes(c, 8));
    assert(header.subrange(28, 36) =~= be_bytes(b, 8));
    assert(encoded.subrange(0, 36) =~= prefix);
    assert(encoded.subrange(36, 68) =~= digest);
    assert(encoded.subrange(68, 68 + c as int) =~= control);
    assert(encoded.subrange(68 + c as int, encoded.len() as int) =~= bulk);
}

/// A frame accepted by `decode_frame` is exactly the encoding of what it
/// decoded to: accepted encodings are canonical.
pub proof fn lemma_encode_decode(encoded: Seq<u8>, config: LocalFrameConfig)
    requires
        encoded.len() <= usize::MAX,
        spec_decode(encoded, config) is Ok,
    ensures
        spec_encode(spec_decode(encoded, config)->Ok_0, config) == Ok::<Seq<u8>, LocalFrameError>(
            encoded,
        ),
{
    let header = encoded.subrange(0, 68);
    let h = spec_parse_header(header, config.frame_limits)->Ok_0;
    let (kind, correlation_id, control, bulk) = spec_decode(encoded, config)->Ok_0;
    let c = h.control_bytes as nat;
    let b = h.bulk_bytes as nat;
    lemma_be_value_bound(header.subrange(20, 28));
    lemma_be_value_bound(header.subrange(28, 36));
    lemma_be_value_bound(header.subrange(12, 20));
    lemma_pow256_values();
    assert(control.len() == c);
    assert(bulk.len() == b);
    lemma_be_bytes_of_value(header.subrange(8, 10));
    lemma_be_bytes_of_value(header.subrange(12, 20));
    lemma_be_bytes_of_value(header.subrange(20, 28));
    lemma_be_bytes_of_value(header.subrange(28, 36));
    let prefix = header_prefix(kind, correlation_id, c, b);
    assert(prefix =~= encoded.subrange(0, 36));
    assert(encoded =~= frame_encoding(kind, correlation_id, control, bulk));
}

} // verus!
