//! Pre-decoding bounds on canonical local-session control messages.
//!
//! A control message is canonical compact JSON followed by one LF. Before any
//! JSON decoding or allocation, its size is held to the effective message
//! limit and its bracket nesting to the configured depth.

use crate::bytes::{append_bytes, bytes_equal};
use crate::frame::{LocalFrame, LocalFrameConfig};
use crate::limits::{min_nat, min_u64};
use crate::session::LocalSessionValidationError;
use vstd::prelude::*;

verus! {

/// Coarse JSON parser failure classification.
#[derive(Debug, Clone, Copy, PartialEq, Eq, Structural)]
pub enum JsonErrorCategory {
    /// The parser's reader failed.
    Io,
    /// The input is not syntactically valid JSON.
    Syntax,
    /// The JSON does not match the expected shape.
    Data,
    /// The input ended early.
    EndOfFile,
}

/// Bounded canonical codec and frame-adaptation failures.
#[derive(Debug, Clone, Copy, PartialEq, Eq)]
pub enum LocalSessionError {
    /// The local frame configuration cannot admit a non-empty control message.
    InvalidConfig,
    /// A complete control message exceeded the effective frame or protocol limit.
    MessageLimitExceeded { actual: u64, limit: u64 },
    /// JSON nesting exceeded the configured pre-decode limit.
    NestingLimitExceeded { actual: u16, limit: u16 },
    /// JSON parsing failed without retaining input or parser text.
    MalformedJson { category: JsonErrorCategory, line: usize, column: usize },
    /// The typed message violates a local-session invariant.
    InvalidMessage(LocalSessionValidationError),
    /// The input is valid JSON but not the exact canonical representation.
    NonCanonicalMessage,
    /// A client decoder received a server shape or the reverse.
    WrongDirection,
    /// A session decoder received an observation frame instead of control bytes.
    WrongFrameKind,
    /// Canonical serialization failed for a validated value.
    SerializationFailed,
    /// A bounded output allocation could not be satisfied.
    AllocationFailed,
}

/// The effective control-message limit of a configuration: the frame body,
/// the control-section bound, and the runtime encoded-size bound, whichever
/// is smallest.
pub open spec fn spec_message_limit(config: LocalFrameConfig) -> Result<u64, LocalSessionError> {
    let frame = config.frame_limits.max_frame_bytes;
    let limit = min_nat(
        min_nat((frame - 68) as nat, config.frame_limits.max_control_bytes as nat),
        config.runtime_limits.max_encoded_bytes as nat,
    );
    if frame < 68 || limit == 0 {
        Err(LocalSessionError::InvalidConfig)
    } else {
        Ok(limit as u64)
    }
}

/// Returns the effective control-message limit of `config`.
pub fn effective_message_limit(config: &LocalFrameConfig) -> (limit: Result<u64, LocalSessionError>)
    ensures
        limit == spec_message_limit(*config),
{
    if config.frame_limits.max_frame_bytes < 68 {
        return Err(LocalSessionError::InvalidConfig);
    }
    let body = config.frame_limits.max_frame_bytes - 68;
    let limit = min_u64(
        min_u64(body, config.frame_limits.max_control_bytes),
        config.runtime_limits.max_encoded_bytes,
    );
    if limit == 0 {
        Err(LocalSessionError::InvalidConfig)
    } else {
        Ok(limit)
    }
}

/// Rejects a message longer than `limit`.
pub fn enforce_size(actual: usize, limit: u64) -> (result: Result<(), LocalSessionError>)
    ensures
        actual > limit ==> result == Err::<(), LocalSessionError>(
            LocalSessionError::MessageLimitExceeded { actual: actual as u64, limit },
        ),
        actual <= limit ==> result == Ok::<(), LocalSessionError>(()),
{
    if actual as u64 > limit {
        Err(LocalSessionError::MessageLimitExceeded { actual: actual as u64, limit })
    } else {
        Ok(())
    }
}

/// Bracket depth, inside-string flag, and pending-escape flag after scanning
/// `s` (depth saturating at `u16::MAX` and at zero).
pub open spec fn scan_state(s: Seq<u8>) -> (u16, bool, bool)
    decreases s.len(),
{
    if s.len() == 0 {
        (0, false, false)
    } else {
        let (depth, in_string, escaped) = scan_state(s.drop_last());
        let byte = s.last();
        if in_string {
            if escaped {
                (depth, true, false)
            } else if byte == 92 {
                (depth, true, true)
            } else if byte == 34 {
                (depth, false, false)
            } else {
                (depth, true, false)
            }
        } else if byte == 34 {
            (depth, true, false)
        } else if byte == 123 || byte == 91 {
            (if depth == u16::MAX { depth } else { (depth + 1) as u16 }, false, false)
        } else if byte == 125 || byte == 93 {
            (if depth == 0 { depth } else { (depth - 1) as u16 }, false, false)
        } else {
            (depth, false, false)
        }
    }
}

/// The depth reached at the first opening bracket outside a string that
/// exceeds `limit`, if any.
pub open spec fn first_excess_depth(s: Seq<u8>, limit: u16) -> Option<u16>
    decreases s.len(),
{
    if s.len() == 0 {
        None
    } else if first_excess_depth(s.drop_last(), limit) is Some {
        first_excess_depth(s.drop_last(), limit)
    } else {
        let (depth, in_string, _) = scan_state(s.drop_last());
        let byte = s.last();
        let next = if depth == u16::MAX { depth } else { (depth + 1) as u16 };
        if !in_string && (byte == 123 || byte == 91) && next > limit {
            Some(next)
        } else {
            None
        }
    }
}

/// Rejects bracket nesting deeper than `limit` before any decoding.
pub fn enforce_nesting(encoded: &[u8], limit: u16) -> (result: Result<(), LocalSessionError>)
    ensures
        match first_excess_depth(encoded@, limit) {
            Some(depth) => result == Err::<(), LocalSessionError>(
                LocalSessionError::NestingLimitExceeded { actual: depth, limit },
            ),
            None => result == Ok::<(), LocalSessionError>(()),
        },
{
    let mut depth: u16 = 0;
    let mut in_string = false;
    let mut escaped = false;
    let mut i: usize = 0;
    while i < encoded.len()
        invariant
            i <= encoded@.len(),
            scan_state(encoded@.subrange(0, i as int)) == (depth, in_string, escaped),
            first_excess_depth(encoded@.subrange(0, i as int), limit) is None,
        decreases encoded@.len() - i,
    {
        let byte = encoded[i];
        let ghost prefix = encoded@.subrange(0, i as int);
        let ghost next = encoded@.subrange(0, i + 1);
        assert(next.drop_last() =~= prefix);
        assert(next.last() == byte);
        if in_string {
            if escaped {
                escaped = false;
            } else if byte == 92 {
                escaped = true;
            } else if byte == 34 {
                in_string = false;
            }
        } else if byte == 34 {
            in_string = true;
        } else if byte == 123 || byte == 91 {
            depth = if depth == u16::MAX { depth } else { depth + 1 };
            if depth > limit {
                assert(first_excess_depth(next, limit) == Some(depth));
                proof {
                    lemma_excess_extends(encoded@, (i + 1) as nat, limit);
                }
                return Err(LocalSessionError::NestingLimitExceeded { actual: depth, limit });
            }
        } else if byte == 125 || byte == 93 {
            depth = if depth == 0 { depth } else { depth - 1 };
        }
        i = i + 1;
    }
    assert(encoded@.subrange(0, encoded@.len() as int) =~= encoded@);
    Ok(())
}

/// Once a prefix has an excess depth, every longer prefix reports the same one.
proof fn lemma_excess_extends(s: Seq<u8>, n: nat, limit: u16)
    requires
        n <= s.len(),
        first_excess_depth(s.subrange(0, n as int), limit) is Some,
    ensures
        first_excess_depth(s, limit) == first_excess_depth(s.subrange(0, n as int), limit),
    decreases s.len() - n,
{
    if n < s.len() {
        let longer = s.subrange(0, n + 1 as int);
        assert(longer.drop_last() =~= s.subrange(0, n as int));
        lemma_excess_extends(s, n + 1, limit);
    } else {
        assert(s.subrange(0, n as int) =~= s);
    }
}

/// How many bytes of `s` equal `b`.
pub open spec fn count_byte(s: Seq<u8>, b: u8) -> nat
    decreases s.len(),
{
    if s.len() == 0 {
        0
    } else {
        count_byte(s.drop_last(), b) + if s.last() == b {
            1nat
        } else {
            0nat
        }
    }
}

/// Opening brackets minus closing brackets in `s`: the JSON nesting depth
/// after `s` when `s` holds no string.
pub open spec fn bracket_balance(s: Seq<u8>) -> int {
    count_byte(s, 123) + count_byte(s, 91) - count_byte(s, 125) - count_byte(s, 93)
}

/// `s` holds no string, and its nesting depth stays within `0..=u16::MAX`
/// after every prefix.
pub open spec fn plain_nesting(s: Seq<u8>) -> bool {
    &&& forall|i: int| 0 <= i < s.len() ==> s[i] != 34
    &&& forall|k: int|
        0 <= k <= s.len() ==> 0 <= #[trigger] bracket_balance(s.take(k)) <= u16::MAX
}

proof fn lemma_plain_nesting_prefix(s: Seq<u8>)
    requires
        s.len() > 0,
        plain_nesting(s),
    ensures
        plain_nesting(s.drop_last()),
{
    let p = s.drop_last();
    assert forall|k: int| 0 <= k <= p.len() implies 0 <= #[trigger] bracket_balance(p.take(k))
        <= u16::MAX by {
        assert(p.take(k) =~= s.take(k));
        assert(0 <= bracket_balance(s.take(k)) <= u16::MAX);
    }
    assert forall|i: int| 0 <= i < p.len() implies p[i] != 34 by {
        assert(p[i] == s[i]);
    }
}

/// The scanned depth of a message without strings is its true nesting depth:
/// every opening bracket raises it by one and every closing bracket lowers it
/// by one.
pub proof fn lemma_scan_depth_is_bracket_balance(s: Seq<u8>)
    requires
        plain_nesting(s),
    ensures
        scan_state(s) == (bracket_balance(s) as u16, false, false),
    decreases s.len(),
{
    if s.len() > 0 {
        let p = s.drop_last();
        lemma_plain_nesting_prefix(s);
        lemma_scan_depth_is_bracket_balance(p);
        assert(s.take(s.len() as int) =~= s);
        assert(p.take(p.len() as int) =~= p);
        assert(0 <= bracket_balance(s.take(s.len() as int)) <= u16::MAX);
        assert(0 <= bracket_balance(p.take(p.len() as int)) <= u16::MAX);
        assert(s.last() == s[s.len() - 1]);
    }
}

/// For a message without strings, the nesting check fails exactly when some
/// opening bracket lies deeper than `limit`, and it reports such a depth.
pub proof fn lemma_nesting_check_is_true_depth(s: Seq<u8>, limit: u16)
    requires
        plain_nesting(s),
    ensures
        first_excess_depth(s, limit) is None <==> forall|k: int|
            1 <= k <= s.len() && (s[k - 1] == 123 || s[k - 1] == 91) ==> #[trigger] bracket_balance(
                s.take(k),
            ) <= limit,
        first_excess_depth(s, limit) matches Some(d) ==> d > limit && exists|k: int|
            1 <= k <= s.len() && (s[k - 1] == 123 || s[k - 1] == 91) && d == #[trigger] bracket_balance(
                s.take(k),
            ),
    decreases s.len(),
{
    if s.len() > 0 {
        let p = s.drop_last();
        let n = s.len() as int;
        lemma_plain_nesting_prefix(s);
        lemma_nesting_check_is_true_depth(p, limit);
        lemma_scan_depth_is_bracket_balance(p);
        assert(s.take(n) =~= s);
        assert(p.take(n - 1) =~= p);
        assert(s.take(n - 1) =~= p);
        assert(0 <= bracket_balance(s.take(n)) <= u16::MAX);
        assert(0 <= bracket_balance(s.take(n - 1)) <= u16::MAX);
        assert(s.last() == s[n - 1]);
        assert forall|k: int| 1 <= k <= n - 1 implies #[trigger] p.take(k) == s.take(k) by {
            assert(p.take(k) =~= s.take(k));
        }
        assert forall|j: int| 0 <= j < n - 1 implies #[trigger] p[j] == s[j] by {}
        if first_excess_depth(p, limit) is Some {
            let d = first_excess_depth(p, limit)->Some_0;
            let k = choose|k: int|
                1 <= k <= p.len() && (p[k - 1] == 123 || p[k - 1] == 91) && d == #[trigger] bracket_balance(
                    p.take(k),
                );
            assert(p.take(k) == s.take(k));
        } else {
            if first_excess_depth(s, limit) is None {
                assert forall|k: int|
                    1 <= k <= s.len() && (s[k - 1] == 123 || s[k - 1] == 91) implies #[trigger] bracket_balance(
                    s.take(k),
                ) <= limit by {
                    if k < n {
                        assert(p.take(k) == s.take(k));
                        assert(p[k - 1] == s[k - 1]);
                    }
                }
            } else {
                assert(bracket_balance(s.take(n)) > limit);
            }
        }
    }
}

/// What the pre-decoding checks give: the effective limit, the size bound,
/// then the nesting bound.
pub open spec fn spec_preflight(encoded: Seq<u8>, config: LocalFrameConfig) -> Result<
    u64,
    LocalSessionError,
> {
    match spec_message_limit(config) {
        Err(e) => Err(e),
        Ok(limit) => if encoded.len() > limit {
            Err(LocalSessionError::MessageLimitExceeded { actual: encoded.len() as u64, limit })
        } else {
            match first_excess_depth(encoded, config.runtime_limits.max_json_nesting_depth) {
                Some(depth) => Err(
                    LocalSessionError::NestingLimitExceeded {
                        actual: depth,
                        limit: config.runtime_limits.max_json_nesting_depth,
                    },
                ),
                None => Ok(limit),
            }
        },
    }
}

/// Applies every pre-decoding bound and returns the effective message limit.
pub fn preflight(encoded: &[u8], config: &LocalFrameConfig) -> (limit: Result<
    u64,
    LocalSessionError,
>)
    ensures
        limit == spec_preflight(encoded@, *config),
{
    let limit = match effective_message_limit(config) {
        Err(e) => {
            return Err(e);
        },
        Ok(limit) => limit,
    };
    match enforce_size(encoded.len(), limit) {
        Err(e) => {
            return Err(e);
        },
        Ok(()) => {},
    }
    match enforce_nesting(encoded, config.runtime_limits.max_json_nesting_depth) {
        Err(e) => Err(e),
        Ok(()) => Ok(limit),
    }
}

/// The control bytes and correlation identity of a control frame.
pub fn control_frame_bytes(frame: &LocalFrame) -> (bytes: Result<(u64, &[u8]), LocalSessionError>)
    ensures
        frame@.0 == crate::frame::LocalFrameKind::Observation ==> bytes == Err::<
            (u64, &[u8]),
            LocalSessionError,
        >(LocalSessionError::WrongFrameKind),
        frame@.0 == crate::frame::LocalFrameKind::Control ==> bytes is Ok && bytes->Ok_0.0
            == frame@.1 && bytes->Ok_0.1@ == frame@.2,
{
    match frame {
        LocalFrame::Control { correlation_id, bytes } => Ok((*correlation_id, bytes.as_slice())),
        LocalFrame::Observation { .. } => Err(LocalSessionError::WrongFrameKind),
    }
}

/// Appends the terminating LF of a canonical message whose JSON body is
/// `body`, holding the complete message to `limit`.
pub fn terminate_message(body: Vec<u8>, limit: u64) -> (message: Result<
    Vec<u8>,
    LocalSessionError,
>)
    ensures
        body@.len() + 1 > limit ==> message == Err::<Vec<u8>, LocalSessionError>(
            LocalSessionError::MessageLimitExceeded {
                actual: crate::frame::clamp_u64(body@.len() + 1),
                limit,
            },
        ),
        body@.len() + 1 <= limit ==> message is Ok && message->Ok_0@ == body@.push(10u8),
{
    let mut body = body;
    let length = body.len() as u64;
    if length >= limit {
        let actual = if length == u64::MAX {
            u64::MAX
        } else {
            length + 1
        };
        return Err(LocalSessionError::MessageLimitExceeded { actual, limit });
    }
    body.push(10);
    Ok(body)
}


/// `a + b`, saturating at `u64::MAX`.
pub open spec fn saturating_add_u64(a: nat, b: nat) -> u64 {
    if a + b > u64::MAX {
        u64::MAX
    } else {
        (a + b) as u64
    }
}

/// A canonical message body being written in chunks, held to a body limit
/// (the complete message limit less its terminating LF).
pub struct BoundedMessage {
    bytes: Vec<u8>,
    limit: u64,
}

impl BoundedMessage {
    /// Bytes written so far.
    pub closed spec fn written(&self) -> Seq<u8> {
        self.bytes@
    }

    /// The body limit.
    pub closed spec fn body_limit(&self) -> u64 {
        self.limit
    }

    /// Starts an empty body for a complete message limit of `complete_limit`.
    pub fn new(complete_limit: u64) -> (message: Self)
        ensures
            message.written().len() == 0,
            message.body_limit() == if complete_limit == 0 {
                0
            } else {
                complete_limit - 1
            },
    {
        let limit = if complete_limit == 0 {
            0
        } else {
            complete_limit - 1
        };
        BoundedMessage { bytes: Vec::new(), limit }
    }

    /// Appends one chunk unless the body would pass its limit; a refused
    /// chunk reports the complete sizes (LF included) and changes nothing.
    pub fn append(&mut self, chunk: &[u8]) -> (result: Result<(), LocalSessionError>)
        ensures
            final(self).body_limit() == old(self).body_limit(),
            ({
                let actual = saturating_add_u64(
                    old(self).written().len(),
                    chunk@.len(),
                );
                if actual > old(self).body_limit() {
                    &&& result == Err::<(), LocalSessionError>(
                        LocalSessionError::MessageLimitExceeded {
                            actual: saturating_add_u64(actual as nat, 1),
                            limit: saturating_add_u64(old(self).body_limit() as nat, 1),
                        },
                    )
                    &&& final(self).written() == old(self).written()
                } else {
                    ||| (result == Ok::<(), LocalSessionError>(()) && final(self).written() == old(
                        self,
                    ).written() + chunk@)
                    ||| (result == Err::<(), LocalSessionError>(LocalSessionError::AllocationFailed)
                        && final(self).written() == old(self).written())
                }
            }),
    {
        let length = self.bytes.len() as u64;
        let extra = chunk.len() as u64;
        let actual = if length > u64::MAX - extra {
            u64::MAX
        } else {
            length + extra
        };
        if actual > self.limit {
            let reported = if actual == u64::MAX {
                u64::MAX
            } else {
                actual + 1
            };
            let limit = if self.limit == u64::MAX {
                u64::MAX
            } else {
                self.limit + 1
            };
            return Err(LocalSessionError::MessageLimitExceeded { actual: reported, limit });
        }
        if self.bytes.try_reserve(chunk.len()).is_err() {
            return Err(LocalSessionError::AllocationFailed);
        }
        append_bytes(&mut self.bytes, chunk);
        Ok(())
    }

    /// Finishes the message with its LF, held to `complete_limit`.
    pub fn finish(self, complete_limit: u64) -> (message: Result<Vec<u8>, LocalSessionError>)
        ensures
            self.written().len() + 1 > complete_limit ==> message == Err::<
                Vec<u8>,
                LocalSessionError,
            >(
                LocalSessionError::MessageLimitExceeded {
                    actual: crate::frame::clamp_u64(self.written().len() + 1),
                    limit: complete_limit,
                },
            ),
            self.written().len() + 1 <= complete_limit ==> message is Ok && message->Ok_0@
                == self.written().push(10u8),
    {
        terminate_message(self.bytes, complete_limit)
    }
}

/// A decoded message is accepted only when re-encoding it reproduces the
/// received bytes exactly.
pub fn check_canonical(received: &[u8], canonical: &[u8]) -> (result: Result<(), LocalSessionError>)
    ensures
        received@ == canonical@ ==> result == Ok::<(), LocalSessionError>(()),
        received@ != canonical@ ==> result == Err::<(), LocalSessionError>(
            LocalSessionError::NonCanonicalMessage,
        ),
{
    if bytes_equal(received, canonical) {
        Ok(())
    } else {
        Err(LocalSessionError::NonCanonicalMessage)
    }
}


/// What the bounds and direction checks before decoding give: the bounds
/// first, then a message that parses as the other direction's shape is
/// refused. `parses_as_opposite` says whether the bytes parse as a message
/// of the other direction.
pub open spec fn spec_direction_check(
    encoded: Seq<u8>,
    config: LocalFrameConfig,
    parses_as_opposite: bool,
) -> Result<u64, LocalSessionError> {
    match spec_preflight(encoded, config) {
        Err(e) => Err(e),
        Ok(limit) => if parses_as_opposite {
            Err(LocalSessionError::WrongDirection)
        } else {
            Ok(limit)
        },
    }
}

/// Checks a received message's bounds and direction before it is decoded;
/// returns the effective message limit.
pub fn check_direction(encoded: &[u8], config: &LocalFrameConfig, parses_as_opposite: bool) -> (result:
    Result<u64, LocalSessionError>)
    ensures
        result == spec_direction_check(encoded@, *config, parses_as_opposite),
{
    let limit = match preflight(encoded, config) {
        Err(e) => {
            return Err(e);
        },
        Ok(limit) => limit,
    };
    if parses_as_opposite {
        Err(LocalSessionError::WrongDirection)
    } else {
        Ok(limit)
    }
}

} // verus!
