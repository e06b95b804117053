//! In-memory frame encoding and exact borrowed-frame decoding.

use crate::bytes::{append_bytes, be_bytes, be_value, bytes_equal, push_be, read_be};
use crate::digest::{digest32, sha256_digest};
use crate::frame::{
    frame_encoding, frame_magic, header_prefix, kind_tag, layout_error, length_check,
    spec_decode, spec_encode, spec_parse_header, DecodedFrame, FrameHeader, LocalFrame, LocalFrameConfig,
    LocalFrameError, LocalFrameKind, LocalFrameLimits, LocalFrameSection,
};
use vstd::prelude::*;

verus! {

/// `result` is the executable counterpart of `expected`.
pub open spec fn bytes_result_matches(
    result: Result<Vec<u8>, LocalFrameError>,
    expected: Result<Seq<u8>, LocalFrameError>,
) -> bool {
    match result {
        Ok(bytes) => expected == Ok::<Seq<u8>, LocalFrameError>(bytes@),
        Err(e) => expected == Err::<Seq<u8>, LocalFrameError>(e),
    }
}

/// `result` is the executable counterpart of `expected`.
pub open spec fn frame_result_matches(
    result: Result<DecodedFrame, LocalFrameError>,
    expected: Result<(LocalFrameKind, u64, Seq<u8>, Seq<u8>), LocalFrameError>,
) -> bool {
    match result {
        Ok(frame) => expected == Ok::<(LocalFrameKind, u64, Seq<u8>, Seq<u8>), LocalFrameError>(
            frame@,
        ),
        Err(e) => expected == Err::<(LocalFrameKind, u64, Seq<u8>, Seq<u8>), LocalFrameError>(e),
    }
}

/// Checks the kind-specific section layout.
pub fn validate_layout(kind: LocalFrameKind, control_bytes: u64, bulk_bytes: u64) -> (result: Result<
    (),
    LocalFrameError,
>)
    ensures
        match layout_error(kind, control_bytes as nat, bulk_bytes as nat) {
            Some(e) => result == Err::<(), LocalFrameError>(e),
            None => result == Ok::<(), LocalFrameError>(()),
        },
{
    match kind {
        LocalFrameKind::Control => {
            if control_bytes == 0 {
                Err(LocalFrameError::EmptyControl)
            } else if bulk_bytes != 0 {
                Err(LocalFrameError::InvalidSectionLayout)
            } else {
                Ok(())
            }
        },
        LocalFrameKind::Observation => {
            if control_bytes == 0 || bulk_bytes == 0 {
                Err(LocalFrameError::InvalidSectionLayout)
            } else {
                Ok(())
            }
        },
    }
}

/// Checks the section and complete-frame bounds and returns the frame length.
pub fn validate_lengths(control_bytes: u64, bulk_bytes: u64, limits: &LocalFrameLimits) -> (result:
    Result<u64, LocalFrameError>)
    ensures
        result == length_check(control_bytes, bulk_bytes, *limits),
{
    if control_bytes > limits.max_control_bytes {
        return Err(
            LocalFrameError::ControlLimitExceeded {
                actual: control_bytes,
                limit: limits.max_control_bytes,
            },
        );
    }
    if bulk_bytes > limits.max_bulk_bytes {
        return Err(
            LocalFrameError::BulkLimitExceeded { actual: bulk_bytes, limit: limits.max_bulk_bytes },
        );
    }
    if bulk_bytes > u64::MAX - 68 || control_bytes > u64::MAX - 68 - bulk_bytes {
        return Err(LocalFrameError::SizeOverflow);
    }
    let frame_bytes = 68 + control_bytes + bulk_bytes;
    if frame_bytes > limits.max_frame_bytes {
        return Err(
            LocalFrameError::FrameLimitExceeded {
                actual: frame_bytes,
                limit: limits.max_frame_bytes,
            },
        );
    }
    Ok(frame_bytes)
}

fn encode_kind(kind: LocalFrameKind) -> (tag: u8)
    ensures
        tag == kind_tag(kind),
{
    match kind {
        LocalFrameKind::Control => 1,
        LocalFrameKind::Observation => 2,
    }
}

/// Appends the 36 header bytes that precede the digest.
fn push_header_prefix(
    out: &mut Vec<u8>,
    kind: LocalFrameKind,
    correlation_id: u64,
    control_bytes: u64,
    bulk_bytes: u64,
)
    ensures
        final(out)@ == old(out)@ + header_prefix(
            kind,
            correlation_id,
            control_bytes as nat,
            bulk_bytes as nat,
        ),
{
    let ghost start = out@;
    out.push(67);
    out.push(79);
    out.push(71);
    out.push(76);
    out.push(79);
    out.push(67);
    out.push(48);
    out.push(49);
    assert(out@ =~= start + frame_magic());
    push_be(out, 1, 2);
    out.push(encode_kind(kind));
    out.push(0);
    push_be(out, correlation_id, 8);
    push_be(out, control_bytes, 8);
    push_be(out, bulk_bytes, 8);
    assert(out@ =~= start + header_prefix(
        kind,
        correlation_id,
        control_bytes as nat,
        bulk_bytes as nat,
    ));
}

/// Encodes one frame's sections completely in memory.
fn encode_sections(
    kind: LocalFrameKind,
    correlation_id: u64,
    control: &[u8],
    bulk: &[u8],
    config: &LocalFrameConfig,
) -> (encoded: Result<Vec<u8>, LocalFrameError>)
    ensures
        bytes_result_matches(encoded, spec_encode((kind, correlation_id, control@, bulk@), *config)),
{
    if correlation_id == 0 {
        return Err(LocalFrameError::InvalidCorrelationId);
    }
    let control_bytes = control.len() as u64;
    let bulk_bytes = bulk.len() as u64;
    match validate_layout(kind, control_bytes, bulk_bytes) {
        Ok(()) => {},
        Err(e) => {
            return Err(e);
        },
    }
    let frame_bytes = match validate_lengths(control_bytes, bulk_bytes, &config.frame_limits) {
        Ok(frame_bytes) => frame_bytes,
        Err(e) => {
            return Err(e);
        },
    };
    if frame_bytes > usize::MAX as u64 {
        return Err(LocalFrameError::SizeOverflow);
    }
    let mut prefix: Vec<u8> = Vec::new();
    push_header_prefix(&mut prefix, kind, correlation_id, control_bytes, bulk_bytes);
    let mut message: Vec<u8> = Vec::new();
    append_bytes(&mut message, prefix.as_slice());
    append_bytes(&mut message, control);
    append_bytes(&mut message, bulk);
    let digest = sha256_digest(message.as_slice());
    let mut encoded = prefix;
    append_bytes(&mut encoded, digest.as_slice());
    append_bytes(&mut encoded, control);
    append_bytes(&mut encoded, bulk);
    proof {
        assert(message@ =~= header_prefix(kind, correlation_id, control@.len(), bulk@.len())
            + control@ + bulk@);
        assert(encoded@ =~= frame_encoding(kind, correlation_id, control@, bulk@));
    }
    Ok(encoded)
}

/// Encodes one frame completely in memory without performing I/O.
pub fn encode_frame(frame: &LocalFrame, config: &LocalFrameConfig) -> (encoded: Result<
    Vec<u8>,
    LocalFrameError,
>)
    ensures
        bytes_result_matches(encoded, spec_encode(frame@, *config)),
{
    match frame {
        LocalFrame::Control { correlation_id, bytes } => {
            let empty: Vec<u8> = Vec::new();
            assert(empty@ =~= Seq::<u8>::empty());
            encode_sections(
                LocalFrameKind::Control,
                *correlation_id,
                bytes.as_slice(),
                empty.as_slice(),
                config,
            )
        },
        LocalFrame::Observation { correlation_id, metadata, payload } => encode_sections(
            LocalFrameKind::Observation,
            *correlation_id,
            metadata.as_slice(),
            payload.as_slice(),
            config,
        ),
    }
}

/// Parses and validates the fixed header at the start of `encoded`.
pub fn parse_header(encoded: &[u8], limits: &LocalFrameLimits) -> (header: Result<
    FrameHeader,
    LocalFrameError,
>)
    requires
        encoded@.len() >= 68,
    ensures
        header == spec_parse_header(encoded@.subrange(0, 68), *limits),
{
    let ghost h = encoded@.subrange(0, 68);
    proof {
        assert(h.subrange(8, 10) =~= encoded@.subrange(8, 10));
        assert(h.subrange(12, 20) =~= encoded@.subrange(12, 20));
        assert(h.subrange(20, 28) =~= encoded@.subrange(20, 28));
        assert(h.subrange(28, 36) =~= encoded@.subrange(28, 36));
    }
    let magic_ok = encoded[0] == 67 && encoded[1] == 79 && encoded[2] == 71 && encoded[3] == 76
        && encoded[4] == 79 && encoded[5] == 67 && encoded[6] == 48 && encoded[7] == 49;
    if !magic_ok {
        proof {
            if h.subrange(0, 8) == frame_magic() {
                assert(h.subrange(0, 8)[0] == 67);
                assert(h.subrange(0, 8)[1] == 79);
                assert(h.subrange(0, 8)[2] == 71);
                assert(h.subrange(0, 8)[3] == 76);
                assert(h.subrange(0, 8)[4] == 79);
                assert(h.subrange(0, 8)[5] == 67);
                assert(h.subrange(0, 8)[6] == 48);
                assert(h.subrange(0, 8)[7] == 49);
            }
        }
        return Err(LocalFrameError::InvalidMagic);
    }
    assert(h.subrange(0, 8) =~= frame_magic());
    let version = read_be(encoded, 8, 2);
    if version != 1 {
        proof {
            crate::bytes::lemma_be_value_bound(encoded@.subrange(8, 10));
            crate::bytes::lemma_pow256_values();
        }
        return Err(LocalFrameError::UnsupportedVersion { found: version as u16 });
    }
    let tag = encoded[10];
    if tag != 1 && tag != 2 {
        return Err(LocalFrameError::UnsupportedKind { found: tag });
    }
    if encoded[11] != 0 {
        return Err(LocalFrameError::NonCanonicalHeader);
    }
    let correlation_id = read_be(encoded, 12, 8);
    if correlation_id == 0 {
        return Err(LocalFrameError::InvalidCorrelationId);
    }
    let kind = if tag == 1 {
        LocalFrameKind::Control
    } else {
        LocalFrameKind::Observation
    };
    let control_bytes = read_be(encoded, 20, 8);
    let bulk_bytes = read_be(encoded, 28, 8);
    match validate_layout(kind, control_bytes, bulk_bytes) {
        Ok(()) => {},
        Err(e) => {
            return Err(e);
        },
    }
    match validate_lengths(control_bytes, bulk_bytes, limits) {
        Ok(frame_bytes) => Ok(
            FrameHeader { kind, correlation_id, control_bytes, bulk_bytes, frame_bytes },
        ),
        Err(e) => Err(e),
    }
}

/// Copies a byte slice into an owned vector.
pub fn copy_owned(value: &[u8]) -> (owned: Vec<u8>)
    ensures
        owned@ == value@,
{
    let mut owned: Vec<u8> = Vec::new();
    append_bytes(&mut owned, value);
    assert(owned@ =~= value@);
    owned
}

/// Checks the header digest against the prefix and the two sections.
pub(crate) fn verify_digest_of(header: &[u8], control: &[u8], bulk: &[u8]) -> (result: Result<
    (),
    LocalFrameError,
>)
    requires
        header@.len() == 68,
    ensures
        result is Ok <==> header@.subrange(36, 68) == digest32(
            header@.subrange(0, 36) + control@ + bulk@,
        ),
        result is Err ==> result == Err::<(), LocalFrameError>(LocalFrameError::IntegrityMismatch),
{
    let mut message: Vec<u8> = Vec::new();
    append_bytes(&mut message, &header[0..36]);
    append_bytes(&mut message, control);
    append_bytes(&mut message, bulk);
    let digest = sha256_digest(message.as_slice());
    if bytes_equal(&header[36..68], digest.as_slice()) {
        Ok(())
    } else {
        Err(LocalFrameError::IntegrityMismatch)
    }
}

/// Builds a frame from validated sections.
pub(crate) fn frame_from_sections(header: FrameHeader, control: &[u8], bulk: &[u8]) -> (frame: DecodedFrame)
    requires
        header.kind == LocalFrameKind::Control ==> bulk@.len() == 0,
    ensures
        frame@ == (header.kind, header.correlation_id, control@, bulk@),
{
    match header.kind {
        LocalFrameKind::Control => {
            assert(bulk@ =~= Seq::<u8>::empty());
            DecodedFrame::Control { correlation_id: header.correlation_id, bytes: copy_owned(control) }
        },
        LocalFrameKind::Observation => DecodedFrame::UnvalidatedObservation {
            correlation_id: header.correlation_id,
            metadata: copy_owned(control),
            payload: copy_owned(bulk),
        },
    }
}

/// Decodes the outer layer of one exact borrowed frame and rejects trailing
/// bytes; an observation frame still needs `DecodedFrame::into_frame`.
pub fn decode_frame(encoded: &[u8], config: &LocalFrameConfig) -> (decoded: Result<
    DecodedFrame,
    LocalFrameError,
>)
    ensures
        frame_result_matches(decoded, spec_decode(encoded@, *config)),
{
    let len = encoded.len();
    if len < 68 {
        return Err(
            LocalFrameError::Truncated {
                section: LocalFrameSection::Header,
                expected: 68,
                actual: len as u64,
            },
        );
    }
    let header = match parse_header(encoded, &config.frame_limits) {
        Ok(header) => header,
        Err(e) => {
            return Err(e);
        },
    };
    let actual = len as u64;
    if actual < header.frame_bytes {
        let available = actual - 68;
        if available < header.control_bytes {
            return Err(
                LocalFrameError::Truncated {
                    section: LocalFrameSection::Control,
                    expected: header.control_bytes,
                    actual: available,
                },
            );
        }
        return Err(
            LocalFrameError::Truncated {
                section: LocalFrameSection::Bulk,
                expected: header.bulk_bytes,
                actual: available - header.control_bytes,
            },
        );
    }
    if actual > header.frame_bytes {
        return Err(LocalFrameError::TrailingBytes { expected: header.frame_bytes, actual });
    }
    let control_end = 68 + header.control_bytes as usize;
    let head = &encoded[0..68];
    let control = &encoded[68..control_end];
    let bulk = &encoded[control_end..len];
    proof {
        assert(head@.subrange(0, 36) =~= encoded@.subrange(0, 36));
        assert(head@.subrange(36, 68) =~= encoded@.subrange(36, 68));
    }
    match verify_digest_of(head, control, bulk) {
        Ok(()) => {},
        Err(e) => {
            return Err(e);
        },
    }
    Ok(frame_from_sections(header, control, bulk))
}

} // verus!
