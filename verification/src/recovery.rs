//! Deterministic, integrity-protected recovery-point envelopes.
//!
//! Layout: the magic `CNFRCP`, a big-endian `u16` version, the big-endian
//! `u64` next frame identity, the big-endian `u32` replay length, the replay
//! bytes, and the SHA-256 digest of a fixed domain label followed by every
//! preceding envelope byte. The digest detects accidental corruption; it does
//! not authenticate or encrypt the replay bytes.

use crate::bytes::{
    append_bytes, be_bytes, be_value, bytes_equal, lemma_be_bytes_len, lemma_be_bytes_of_value,
    lemma_be_value_bound, lemma_be_value_of_bytes, lemma_pow256_values, push_be, read_be,
};
use crate::codec::copy_owned;
use crate::digest::{digest32, sha256_digest};
use vstd::prelude::*;

verus! {

/// Bytes of the replay stream's own fixed header; a replay bound below it
/// cannot represent any replay stream.
pub const REPLAY_HEADER_BYTES: u32 = 8;

/// Fixed envelope bytes around the replay stream.
pub const ENVELOPE_OVERHEAD_BYTES: usize = 52;

/// Bounds of the accepted-event replay log.
#[derive(Debug, Clone, Copy, PartialEq, Eq, Structural)]
pub struct ReplayConfig {
    /// Maximum encoded replay-log bytes.
    pub max_log_bytes: u32,
}

/// Why a replay bound is unusable.
#[derive(Debug, Clone, Copy, PartialEq, Eq, Structural)]
pub enum ReplayConfigError {
    /// The bound cannot hold the replay stream header.
    LogBoundBelowHeader {
        /// Configured bound.
        max_log_bytes: u32,
        /// Smallest usable bound.
        minimum: u32,
    },
}

/// What validating a replay bound gives.
pub open spec fn spec_replay_config_check(config: ReplayConfig) -> Result<(), ReplayConfigError> {
    if config.max_log_bytes < REPLAY_HEADER_BYTES {
        Err(
            ReplayConfigError::LogBoundBelowHeader {
                max_log_bytes: config.max_log_bytes,
                minimum: REPLAY_HEADER_BYTES,
            },
        )
    } else {
        Ok(())
    }
}

impl ReplayConfig {
    /// Validates that the bound can represent a replay header.
    pub fn validate(&self) -> (result: Result<(), ReplayConfigError>)
        ensures
            result == spec_replay_config_check(*self),
    {
        if self.max_log_bytes < REPLAY_HEADER_BYTES {
            Err(
                ReplayConfigError::LogBoundBelowHeader {
                    max_log_bytes: self.max_log_bytes,
                    minimum: REPLAY_HEADER_BYTES,
                },
            )
        } else {
            Ok(())
        }
    }
}

impl Default for ReplayConfig {
    fn default() -> (config: Self)
        ensures
            config.max_log_bytes == 16_777_216,
    {
        ReplayConfig { max_log_bytes: 16_777_216 }
    }
}

/// Failure to encode or decode a bounded recovery-point envelope.
#[derive(Debug, Clone, Copy, PartialEq, Eq, Structural)]
pub enum RecoveryPointCodecError {
    /// The caller-supplied replay bound cannot represent a replay header.
    InvalidReplayConfig(ReplayConfigError),
    /// The byte stream is shorter than the fixed envelope overhead.
    Truncated { actual: u64, minimum: u64 },
    /// The envelope magic is not the recovery-point magic.
    InvalidHeader,
    /// The envelope version is not supported.
    UnsupportedVersion { found: u16 },
    /// The complete envelope exceeds the configured replay bound plus overhead.
    EnvelopeSizeExceeded { actual: u64, limit: u64 },
    /// The replay payload exceeds the caller-supplied replay bound.
    ReplaySizeExceeded { actual: u64, limit: u32 },
    /// The supplied byte count does not exactly match the declared replay length.
    LengthMismatch { actual: u64, expected: u64 },
    /// The envelope contains the reserved zero frame identity.
    InvalidFrameId,
    /// The envelope digest does not match its encoded fields and replay bytes.
    IntegrityMismatch,
}

/// Complete in-memory state required to restore engine causality: the
/// encoded replay stream and the next frame identity (non-zero).
#[derive(Clone, PartialEq, Eq)]
pub struct EngineRecoveryPoint {
    replay_bytes: Vec<u8>,
    next_frame_id: u64,
}

impl View for EngineRecoveryPoint {
    /// Replay bytes and next frame identity.
    type V = (Seq<u8>, u64);

    closed spec fn view(&self) -> Self::V {
        (self.replay_bytes@, self.next_frame_id)
    }
}

/// The six magic bytes `CNFRCP`.
pub open spec fn recovery_magic() -> Seq<u8> {
    seq![67u8, 78u8, 70u8, 82u8, 67u8, 80u8]
}

/// The digest domain label `cogniform.engine-recovery-point.v1` and a NUL.
pub open spec fn recovery_domain() -> Seq<u8> {
    seq![
        99u8, 111u8, 103u8, 110u8, 105u8, 102u8, 111u8, 114u8, 109u8, 46u8,
        101u8, 110u8, 103u8, 105u8, 110u8, 101u8, 45u8, 114u8, 101u8, 99u8,
        111u8, 118u8, 101u8, 114u8, 121u8, 45u8, 112u8, 111u8, 105u8, 110u8,
        116u8, 46u8, 118u8, 49u8, 0u8,
    ]
}

/// The 20 envelope bytes before the replay stream.
pub open spec fn recovery_prefix(next_frame_id: u64, replay_len: nat) -> Seq<u8> {
    recovery_magic() + be_bytes(1, 2) + be_bytes(next_frame_id as nat, 8) + be_bytes(replay_len, 4)
}

/// The complete envelope of a recovery point.
pub open spec fn recovery_envelope(replay: Seq<u8>, next_frame_id: u64) -> Seq<u8> {
    let body = recovery_prefix(next_frame_id, replay.len()) + replay;
    body + digest32(recovery_domain() + body)
}

/// What encoding a recovery point gives.
pub open spec fn spec_to_envelope(point: (Seq<u8>, u64), config: ReplayConfig) -> Result<
    Seq<u8>,
    RecoveryPointCodecError,
> {
    let (replay, next_frame_id) = point;
    match spec_replay_config_check(config) {
        Err(e) => Err(RecoveryPointCodecError::InvalidReplayConfig(e)),
        Ok(()) => if replay.len() > config.max_log_bytes {
            Err(
                RecoveryPointCodecError::ReplaySizeExceeded {
                    actual: replay.len() as u64,
                    limit: config.max_log_bytes,
                },
            )
        } else {
            Ok(recovery_envelope(replay, next_frame_id))
        },
    }
}

/// What decoding an envelope gives, checked in order: configuration, size,
/// truncation, magic, version, declared replay bound, exact length, frame
/// identity, digest.
pub open spec fn spec_from_envelope(encoded: Seq<u8>, config: ReplayConfig) -> Result<
    (Seq<u8>, u64),
    RecoveryPointCodecError,
> {
    let len = encoded.len();
    let limit = config.max_log_bytes as nat + 52;
    let version = be_value(encoded.subrange(6, 8));
    let next_frame_id = be_value(encoded.subrange(8, 16));
    let replay_len = be_value(encoded.subrange(16, 20));
    match spec_replay_config_check(config) {
        Err(e) => Err(RecoveryPointCodecError::InvalidReplayConfig(e)),
        Ok(()) => if len > limit {
            Err(
                RecoveryPointCodecError::EnvelopeSizeExceeded {
                    actual: len as u64,
                    limit: limit as u64,
                },
            )
        } else if len < 52 {
            Err(RecoveryPointCodecError::Truncated { actual: len as u64, minimum: 52 })
        } else if encoded.subrange(0, 6) != recovery_magic() {
            Err(RecoveryPointCodecError::InvalidHeader)
        } else if version != 1 {
            Err(RecoveryPointCodecError::UnsupportedVersion { found: version as u16 })
        } else if replay_len > config.max_log_bytes {
            Err(
                RecoveryPointCodecError::ReplaySizeExceeded {
                    actual: replay_len as u64,
                    limit: config.max_log_bytes,
                },
            )
        } else if len != 52 + replay_len {
            Err(
                RecoveryPointCodecError::LengthMismatch {
                    actual: len as u64,
                    expected: (52 + replay_len) as u64,
                },
            )
        } else if next_frame_id == 0 {
            Err(RecoveryPointCodecError::InvalidFrameId)
        } else if encoded.subrange(20 + replay_len as int, len as int) != digest32(
            recovery_domain() + encoded.subrange(0, 20 + replay_len as int),
        ) {
            Err(RecoveryPointCodecError::IntegrityMismatch)
        } else {
            Ok((encoded.subrange(20, 20 + replay_len as int), next_frame_id as u64))
        },
    }
}

fn push_domain(out: &mut Vec<u8>)
    ensures
        final(out)@ == old(out)@ + recovery_domain(),
{
    let ghost start = out@;
    let label: [u8; 35] = [
        99, 111, 103, 110, 105, 102, 111, 114, 109, 46, 101, 110, 103, 105, 110, 101, 45, 114, 101,
        99, 111, 118, 101, 114, 121, 45, 112, 111, 105, 110, 116, 46, 118, 49, 0,
    ];
    let mut i: usize = 0;
    while i < 35
        invariant
            i <= 35,
            label@ == recovery_domain(),
            out@ == start + recovery_domain().subrange(0, i as int),
        decreases 35 - i,
    {
        out.push(label[i]);
        i = i + 1;
        assert(out@ =~= start + recovery_domain().subrange(0, i as int));
    }
    assert(recovery_domain().subrange(0, 35) =~= recovery_domain());
}

/// The envelope digest of `body`.
fn recovery_digest(body: &[u8]) -> (digest: Vec<u8>)
    ensures
        digest@ == digest32(recovery_domain() + body@),
        digest@.len() == 32,
{
    let mut message: Vec<u8> = Vec::new();
    push_domain(&mut message);
    append_bytes(&mut message, body);
    sha256_digest(message.as_slice())
}

impl EngineRecoveryPoint {
    /// Returns the maximum encoded envelope bytes for one replay configuration.
    pub fn envelope_byte_limit(replay_config: ReplayConfig) -> (limit: Result<
        u64,
        RecoveryPointCodecError,
    >)
        ensures
            match spec_replay_config_check(replay_config) {
                Err(e) => limit == Err::<u64, RecoveryPointCodecError>(
                    RecoveryPointCodecError::InvalidReplayConfig(e),
                ),
                Ok(()) => limit == Ok::<u64, RecoveryPointCodecError>(
                    (replay_config.max_log_bytes + 52) as u64,
                ),
            },
    {
        match replay_config.validate() {
            Err(e) => Err(RecoveryPointCodecError::InvalidReplayConfig(e)),
            Ok(()) => Ok(replay_config.max_log_bytes as u64 + 52),
        }
    }

    /// Creates a caller-owned recovery point for later bounded validation;
    /// frame identities are non-zero.
    pub fn from_parts(replay_bytes: Vec<u8>, next_frame_id: u64) -> (point: Self)
        requires
            next_frame_id != 0,
        ensures
            point@ == (replay_bytes@, next_frame_id),
    {
        EngineRecoveryPoint { replay_bytes, next_frame_id }
    }

    /// Returns the complete encoded replay stream.
    pub fn replay_bytes(&self) -> (bytes: &[u8])
        ensures
            bytes@ == self@.0,
    {
        self.replay_bytes.as_slice()
    }

    /// Returns the first frame identity available to the restored renderer.
    pub fn next_frame_id(&self) -> (id: u64)
        ensures
            id == self@.1,
    {
        self.next_frame_id
    }

    /// Splits this point into its complete replay stream and next frame identity.
    pub fn into_parts(self) -> (parts: (Vec<u8>, u64))
        ensures
            parts.0@ == self@.0,
            parts.1 == self@.1,
    {
        (self.replay_bytes, self.next_frame_id)
    }

    /// Encodes this point as one deterministic, integrity-protected envelope.
    pub fn to_envelope_bytes(&self, replay_config: ReplayConfig) -> (encoded: Result<
        Vec<u8>,
        RecoveryPointCodecError,
    >)
        ensures
            match encoded {
                Ok(bytes) => spec_to_envelope(self@, replay_config) == Ok::<
                    Seq<u8>,
                    RecoveryPointCodecError,
                >(bytes@),
                Err(e) => spec_to_envelope(self@, replay_config) == Err::<
                    Seq<u8>,
                    RecoveryPointCodecError,
                >(e),
            },
    {
        match replay_config.validate() {
            Err(e) => {
                return Err(RecoveryPointCodecError::InvalidReplayConfig(e));
            },
            Ok(()) => {},
        }
        let replay_byte_count = self.replay_bytes.len() as u64;
        if replay_byte_count > replay_config.max_log_bytes as u64 {
            return Err(
                RecoveryPointCodecError::ReplaySizeExceeded {
                    actual: replay_byte_count,
                    limit: replay_config.max_log_bytes,
                },
            );
        }
        let mut encoded: Vec<u8> = Vec::new();
        encoded.push(67);
        encoded.push(78);
        encoded.push(70);
        encoded.push(82);
        encoded.push(67);
        encoded.push(80);
        assert(encoded@ =~= recovery_magic());
        push_be(&mut encoded, 1, 2);
        push_be(&mut encoded, self.next_frame_id, 8);
        push_be(&mut encoded, replay_byte_count, 4);
        append_bytes(&mut encoded, self.replay_bytes.as_slice());
        assert(encoded@ =~= recovery_prefix(self.next_frame_id, self.replay_bytes@.len())
            + self.replay_bytes@);
        let digest = recovery_digest(encoded.as_slice());
        append_bytes(&mut encoded, digest.as_slice());
        Ok(encoded)
    }

    /// Decodes one complete, bounded, integrity-protected envelope.
    ///
    /// All fields and the digest are validated before replay bytes are copied.
    pub fn from_envelope_bytes(encoded: &[u8], replay_config: ReplayConfig) -> (point: Result<
        Self,
        RecoveryPointCodecError,
    >)
        ensures
            match point {
                Ok(p) => spec_from_envelope(encoded@, replay_config) == Ok::<
                    (Seq<u8>, u64),
                    RecoveryPointCodecError,
                >(p@),
                Err(e) => spec_from_envelope(encoded@, replay_config) == Err::<
                    (Seq<u8>, u64),
                    RecoveryPointCodecError,
                >(e),
            },
    {
        match replay_config.validate() {
            Err(e) => {
                return Err(RecoveryPointCodecError::InvalidReplayConfig(e));
            },
            Ok(()) => {},
        }
        let replay_limit = replay_config.max_log_bytes;
        let envelope_limit = replay_limit as u64 + 52;
        let encoded_length = encoded.len() as u64;
        if encoded_length > envelope_limit {
            return Err(
                RecoveryPointCodecError::EnvelopeSizeExceeded {
                    actual: encoded_length,
                    limit: envelope_limit,
                },
            );
        }
        if encoded.len() < 52 {
            return Err(RecoveryPointCodecError::Truncated { actual: encoded_length, minimum: 52 });
        }
        let magic_ok = encoded[0] == 67 && encoded[1] == 78 && encoded[2] == 70 && encoded[3]
            == 82 && encoded[4] == 67 && encoded[5] == 80;
        if !magic_ok {
            proof {
                if encoded@.subrange(0, 6) == recovery_magic() {
                    assert(encoded@.subrange(0, 6)[0] == 67);
                    assert(encoded@.subrange(0, 6)[1] == 78);
                    assert(encoded@.subrange(0, 6)[2] == 70);
                    assert(encoded@.subrange(0, 6)[3] == 82);
                    assert(encoded@.subrange(0, 6)[4] == 67);
                    assert(encoded@.subrange(0, 6)[5] == 80);
                }
            }
            return Err(RecoveryPointCodecError::InvalidHeader);
        }
        assert(encoded@.subrange(0, 6) =~= recovery_magic());
        let version = read_be(encoded, 6, 2);
        if version != 1 {
            proof {
                lemma_be_value_bound(encoded@.subrange(6, 8));
                lemma_pow256_values();
            }
            return Err(RecoveryPointCodecError::UnsupportedVersion { found: version as u16 });
        }
        let next_frame_value = read_be(encoded, 8, 8);
        let replay_length = read_be(encoded, 16, 4);
        if replay_length > replay_limit as u64 {
            return Err(
                RecoveryPointCodecError::ReplaySizeExceeded {
                    actual: replay_length,
                    limit: replay_limit,
                },
            );
        }
        let expected_length = 52 + replay_length;
        if encoded_length != expected_length {
            return Err(
                RecoveryPointCodecError::LengthMismatch {
                    actual: encoded_length,
                    expected: expected_length,
                },
            );
        }
        if next_frame_value == 0 {
            return Err(RecoveryPointCodecError::InvalidFrameId);
        }
        let digest_offset = 20 + replay_length as usize;
        let expected_digest = recovery_digest(&encoded[0..digest_offset]);
        if !bytes_equal(&encoded[digest_offset..encoded.len()], expected_digest.as_slice()) {
            return Err(RecoveryPointCodecError::IntegrityMismatch);
        }
        Ok(EngineRecoveryPoint::from_parts(copy_owned(&encoded[20..digest_offset]), next_frame_value))
    }
}

/// Decoding what `to_envelope_bytes` produced gives back the same recovery
/// point, whenever its frame identity is non-zero.
pub proof fn lemma_envelope_round_trip(point: (Seq<u8>, u64), config: ReplayConfig)
    requires
        point.1 != 0,
        spec_to_envelope(point, config) is Ok,
    ensures
        spec_from_envelope(spec_to_envelope(point, config)->Ok_0, config) == Ok::<
            (Seq<u8>, u64),
            RecoveryPointCodecError,
        >(point),
{
    let (replay, next_frame_id) = point;
    let n = replay.len();
    let prefix = recovery_prefix(next_frame_id, n);
    let body = prefix + replay;
    let digest = digest32(recovery_domain() + body);
    let encoded = recovery_envelope(replay, next_frame_id);
    lemma_pow256_values();
    lemma_be_bytes_len(1, 2);
    lemma_be_bytes_len(next_frame_id as nat, 8);
    lemma_be_bytes_len(n, 4);
    lemma_be_value_of_bytes(1, 2);
    lemma_be_value_of_bytes(next_frame_id as nat, 8);
    lemma_be_value_of_bytes(n, 4);
    assert(prefix.len() == 20);
    assert(encoded.len() == 52 + n);
    assert(encoded.subrange(0, 6) =~= recovery_magic());
    assert(encoded.subrange(6, 8) =~= be_bytes(1, 2));
    assert(encoded.subrange(8, 16) =~= be_bytes(next_frame_id as nat, 8));
    assert(encoded.subrange(16, 20) =~= be_bytes(n, 4));
    assert(encoded.subrange(0, 20 + n as int) =~= body);
    assert(encoded.subrange(20 + n as int, encoded.len() as int) =~= digest);
    assert(encoded.subrange(20, 20 + n as int) =~= replay);
}

/// An envelope accepted by `from_envelope_bytes` is exactly the encoding of
/// the recovery point it decoded to.
pub proof fn lemma_envelope_canonical(encoded: Seq<u8>, config: ReplayConfig)
    requires
        spec_from_envelope(encoded, config) is Ok,
    ensures
        spec_to_envelope(spec_from_envelope(encoded, config)->Ok_0, config) == Ok::<
            Seq<u8>,
            RecoveryPointCodecError,
        >(encoded),
{
    let (replay, next_frame_id) = spec_from_envelope(encoded, config)->Ok_0;
    lemma_pow256_values();
    lemma_be_value_bound(encoded.subrange(8, 16));
    lemma_be_value_bound(encoded.subrange(16, 20));
    lemma_be_bytes_of_value(encoded.subrange(6, 8));
    lemma_be_bytes_of_value(encoded.subrange(8, 16));
    lemma_be_bytes_of_value(encoded.subrange(16, 20));
    let n = replay.len();
    assert(n == be_value(encoded.subrange(16, 20)));
    assert(encoded.subrange(0, 6) =~= recovery_magic());
    assert(recovery_prefix(next_frame_id, n) =~= encoded.subrange(0, 20));
    let body = recovery_prefix(next_frame_id, n) + replay;
    assert(body =~= encoded.subrange(0, 20 + n as int));
    assert(encoded.subrange(20 + n as int, encoded.len() as int) == digest32(recovery_domain() + body));
    assert(encoded =~= body + digest32(recovery_domain() + body));
}

} // verus!
