//! Bounded command admission with idempotency and latest-value supersession.
//!
//! Commands wait in one FIFO queue of fixed capacity. An idempotency key
//! identifies a command across its queued and completed life; its
//! fingerprint (a digest of the exact command) tells an identical retry from
//! a conflicting reuse of the key. Completed results are retained so a retry
//! is answered without running the command again.

use crate::bytes::{append_bytes, bytes_equal};
use crate::digest::{sha256, sha256_digest};
use crate::limits::RuntimeLimits;
use crate::message::{ApplyStatus, CompilationSummary, ReceiptSummary};
use vstd::prelude::*;

verus! {

/// Fixed capacities for one command gateway.
#[derive(Debug, Clone, Copy, PartialEq, Eq, Structural)]
pub struct GatewayConfig {
    /// Maximum uncommitted commands.
    pub command_capacity: u32,
    /// Maximum queued plus completed unique idempotency records.
    pub idempotency_capacity: u32,
}

impl Default for GatewayConfig {
    fn default() -> (config: Self)
        ensures
            config.command_capacity == 64,
            config.idempotency_capacity == 1_024,
    {
        GatewayConfig { command_capacity: 64, idempotency_capacity: 1_024 }
    }
}

/// Gateway admission and configuration failures.
#[derive(Debug, Clone, Copy, PartialEq, Eq)]
pub enum GatewayError {
    /// Gateway capacities are inconsistent with the runtime or world bounds.
    InvalidConfig { reason: &'static str },
    /// The key names a different queued or completed command.
    IdempotencyConflict { idempotency_key: u128 },
    /// The command queue is full.
    CommandCapacityExceeded { capacity: u32 },
    /// Queued plus completed records would exceed the idempotency capacity.
    IdempotencyCapacityExceeded,
    /// A query named a revision other than the current one.
    QueryRevisionMismatch { requested: u64, actual: u64 },
    /// More entities matched a query than its result limit admits.
    QueryResultCapacityExceeded { actual: u32, limit: u32 },
    /// Semantic compilation failed before any world mutation.
    Compiler(CompilerFailure),
}

/// Which bound or role an invalid compilation result broke.
#[derive(Debug, Clone, Copy, PartialEq, Eq, Structural)]
pub enum CompilationFailureKind {
    /// More decisions than the compilation limits admit.
    DecisionLimitExceeded,
    /// More unresolved constraints than the compilation limits admit.
    UnresolvedLimitExceeded,
    /// Explanation text beyond the compilation limits.
    TextLimitExceeded,
    /// Decoded size beyond the compilation limits.
    DecodedSizeLimitExceeded,
    /// The compiled patch does not fit the patch limits.
    InvalidPatch,
    /// Any other inconsistency of the result.
    Other,
}

/// A compiler failure, reduced to what classifying it reads.
#[derive(Debug, Clone, Copy, PartialEq, Eq, Structural)]
pub enum CompilerFailure {
    /// The compilation result is invalid.
    InvalidResult(CompilationFailureKind),
    /// The result's canonical encoding exceeded its size or nesting bound.
    EncodingLimitExceeded,
    /// The result's canonical encoding failed otherwise.
    EncodingFailed,
    /// Compilation failed before producing a result.
    Other,
}

/// Whether a gateway failure is a compilation result that broke a
/// configured output bound.
pub open spec fn spec_compilation_limit_exceeded(error: GatewayError) -> bool {
    match error {
        GatewayError::Compiler(CompilerFailure::InvalidResult(kind)) => !(kind is Other),
        GatewayError::Compiler(CompilerFailure::EncodingLimitExceeded) => true,
        _ => false,
    }
}

impl GatewayError {
    /// Reports a compiler result failure caused by configured output bounds.
    pub fn is_compilation_limit_exceeded(&self) -> (exceeded: bool)
        ensures
            exceeded == spec_compilation_limit_exceeded(*self),
    {
        match self {
            GatewayError::Compiler(CompilerFailure::InvalidResult(kind)) => match kind {
                CompilationFailureKind::Other => false,
                _ => true,
            },
            GatewayError::Compiler(CompilerFailure::EncodingLimitExceeded) => true,
            _ => false,
        }
    }
}

/// What validating a gateway configuration gives, checked in order.
pub open spec fn spec_config_check(
    config: GatewayConfig,
    limits: RuntimeLimits,
    available_world_records: u32,
) -> Result<(), GatewayError> {
    if config.command_capacity > limits.max_queue_capacity {
        Err(
            GatewayError::InvalidConfig {
                reason: "gateway command capacity exceeds the active protocol queue limit",
            },
        )
    } else if config.command_capacity > config.idempotency_capacity {
        Err(
            GatewayError::InvalidConfig {
                reason: "gateway idempotency capacity must cover command capacity",
            },
        )
    } else if config.idempotency_capacity > available_world_records {
        Err(
            GatewayError::InvalidConfig {
                reason: "gateway idempotency capacity exceeds available world result retention",
            },
        )
    } else {
        Ok(())
    }
}

/// Checks gateway capacities against the runtime queue bound and the world's
/// remaining result retention.
pub fn validate_config(
    config: GatewayConfig,
    limits: &RuntimeLimits,
    available_world_records: u32,
) -> (result: Result<(), GatewayError>)
    ensures
        result == spec_config_check(config, *limits, available_world_records),
{
    if config.command_capacity > limits.max_queue_capacity {
        return Err(
            GatewayError::InvalidConfig {
                reason: "gateway command capacity exceeds the active protocol queue limit",
            },
        );
    }
    if config.command_capacity > config.idempotency_capacity {
        return Err(
            GatewayError::InvalidConfig {
                reason: "gateway idempotency capacity must cover command capacity",
            },
        );
    }
    if config.idempotency_capacity > available_world_records {
        return Err(
            GatewayError::InvalidConfig {
                reason: "gateway idempotency capacity exceeds available world result retention",
            },
        );
    }
    Ok(())
}

/// How a command is delivered under pressure.
#[derive(Debug, Clone, PartialEq, Eq)]
pub enum DeliverySemantic {
    /// The command must be applied; it is rejected rather than dropped.
    MustApply,
    /// The command may be dropped under pressure.
    BestEffort,
    /// A newer command with the same key replaces an older uncommitted one.
    LatestWins {
        /// Key shared by commands that supersede one another.
        supersession_key: Vec<u8>,
    },
}

/// The supersession key of a delivery semantic, if any.
pub open spec fn supersession_of(delivery: DeliverySemantic) -> Option<Seq<u8>> {
    match delivery {
        DeliverySemantic::LatestWins { supersession_key } => Some(supersession_key@),
        _ => None,
    }
}

/// Domain separator hashed before every command fingerprint.
pub const COMMAND_FINGERPRINT_DOMAIN: [u8; 29] = [
    0x63, 0x6f, 0x67, 0x6e, 0x69, 0x66, 0x6f, 0x72, 0x6d, 0x2e, 0x67, 0x61, 0x74, 0x65, 0x77,
    0x61, 0x79, 0x2e, 0x63, 0x6f, 0x6d, 0x6d, 0x61, 0x6e, 0x64, 0x2e, 0x76, 0x31, 0x00,
];

/// The two kinds of gateway command.
#[derive(Debug, Clone, Copy, PartialEq, Eq, Structural)]
pub enum CommandKind {
    /// An explicit scene patch.
    Patch,
    /// A semantic imagination request.
    Imagination,
}

/// The byte that tags a command kind inside its fingerprint.
pub open spec fn command_kind_tag(kind: CommandKind) -> u8 {
    match kind {
        CommandKind::Patch => 0,
        CommandKind::Imagination => 1,
    }
}

/// The bytes a command fingerprint digests: the domain separator, the kind
/// tag, and the command's canonical encoding.
pub open spec fn fingerprint_input(kind: CommandKind, encoded: Seq<u8>) -> Seq<u8> {
    COMMAND_FINGERPRINT_DOMAIN@ + seq![command_kind_tag(kind)] + encoded
}

/// The 32-byte fingerprint of a command of `kind` whose canonical encoding is
/// `encoded`.
pub fn command_fingerprint(kind: CommandKind, encoded: &[u8]) -> (fingerprint: Vec<u8>)
    ensures
        fingerprint@ == sha256(fingerprint_input(kind, encoded@)),
        fingerprint@.len() == 32,
{
    let domain: [u8; 29] = COMMAND_FINGERPRINT_DOMAIN;
    let mut input: Vec<u8> = Vec::new();
    append_bytes(&mut input, domain.as_slice());
    let tag: u8 = match kind {
        CommandKind::Patch => 0,
        CommandKind::Imagination => 1,
    };
    input.push(tag);
    append_bytes(&mut input, encoded);
    proof {
        assert(input@ =~= fingerprint_input(kind, encoded@));
    }
    sha256_digest(input.as_slice())
}

/// One admitted command with the values admission reads.
pub struct CommandRecord<C> {
    /// Key identifying the command.
    pub idempotency_key: u128,
    /// Digest of the exact command.
    pub fingerprint: Vec<u8>,
    /// Delivery semantic of the command.
    pub delivery: DeliverySemantic,
    /// Monotonic admission time in microseconds.
    pub queued_at_micros: u64,
    /// The command itself.
    pub command: C,
}

/// Immediate result of command admission.
#[derive(Debug, Clone, Copy, PartialEq, Eq, Structural)]
pub enum GatewayAdmission {
    /// A new command was appended.
    Queued { idempotency_key: u128 },
    /// An identical command is already queued and was not duplicated.
    AlreadyQueued { idempotency_key: u128 },
    /// A latest-value command replaced an older uncommitted command in place.
    Superseded { idempotency_key: u128, superseded_idempotency_key: u128 },
    /// Best-effort work was dropped under pressure.
    Dropped { idempotency_key: u128 },
    /// An identical command already completed; its retained result answers it.
    Replayed { idempotency_key: u128 },
}

/// Bounded queue counters for overload inspection.
#[derive(Debug, Clone, Copy, PartialEq, Eq, Structural)]
pub struct GatewayQueueStats {
    /// Current uncommitted command depth.
    pub depth: u32,
    /// Elapsed microseconds since the oldest uncommitted admission.
    pub oldest_pending_age_micros: Option<u64>,
    /// Commands appended without supersession.
    pub admitted: u64,
    /// Uncommitted latest-value commands replaced in place.
    pub superseded: u64,
    /// Best-effort commands dropped under pressure.
    pub dropped: u64,
    /// Durable or new-key latest-value commands rejected under pressure.
    pub rejected: u64,
}

/// `value + 1`, saturating at `u64::MAX`.
pub open spec fn saturating_inc(value: u64) -> u64 {
    if value == u64::MAX {
        value
    } else {
        (value + 1) as u64
    }
}

fn increment(value: u64) -> (next: u64)
    ensures
        next == saturating_inc(value),
{
    if value == u64::MAX {
        value
    } else {
        value + 1
    }
}

/// Microseconds from `queued_at` to `sampled_at`, zero when the sample is
/// earlier.
pub open spec fn elapsed_since(sampled_at: u64, queued_at: u64) -> u64 {
    if sampled_at >= queued_at {
        (sampled_at - queued_at) as u64
    } else {
        0
    }
}

/// The smallest admission time among `entries`.
pub open spec fn min_queued_at<C>(entries: Seq<CommandRecord<C>>) -> u64
    decreases entries.len(),
{
    if entries.len() <= 1 {
        entries[0].queued_at_micros
    } else {
        let rest = min_queued_at(entries.drop_last());
        if entries.last().queued_at_micros < rest {
            entries.last().queued_at_micros
        } else {
            rest
        }
    }
}

/// The oldest admission is the smallest admission time of any queued entry:
/// no entry was admitted earlier, and some entry was admitted then.
pub proof fn lemma_min_queued_at_is_oldest<C>(entries: Seq<CommandRecord<C>>)
    requires
        entries.len() > 0,
    ensures
        forall|i: int| 0 <= i < entries.len() ==> min_queued_at(entries) <= #[trigger] entries[i].queued_at_micros,
        exists|i: int| 0 <= i < entries.len() && entries[i].queued_at_micros == min_queued_at(entries),
    decreases entries.len(),
{
    if entries.len() > 1 {
        let rest = entries.drop_last();
        lemma_min_queued_at_is_oldest(rest);
        assert forall|i: int| 0 <= i < entries.len() implies min_queued_at(entries)
            <= #[trigger] entries[i].queued_at_micros by {
            if i < entries.len() - 1 {
                assert(entries[i] == rest[i]);
            }
        }
        if entries.last().queued_at_micros < min_queued_at(rest) {
            assert(entries[entries.len() - 1].queued_at_micros == min_queued_at(entries));
        } else {
            let k = choose|k: int| 0 <= k < rest.len() && rest[k].queued_at_micros == min_queued_at(rest);
            assert(entries[k] == rest[k]);
        }
    } else {
        assert(entries[0].queued_at_micros == min_queued_at(entries));
    }
}

/// What admitting `record` into `before` does: the resulting queue `after`
/// and the returned `result`.
pub open spec fn queue_admission<C>(
    before: CommandQueue<C>,
    record: CommandRecord<C>,
    has_idempotency_capacity: bool,
    after: CommandQueue<C>,
    result: Result<GatewayAdmission, GatewayError>,
) -> bool {
    let key = record.idempotency_key;
    let (admitted, superseded, dropped, rejected) = before.counters();
    let entries = before.entries();
    let depth = entries.len();
    if before.has_key(key) {
        &&& after == before
        &&& exists|i: int|
            0 <= i < depth && entries[i].idempotency_key == key && result == if entries[i].fingerprint@
                == record.fingerprint@ {
                Ok::<GatewayAdmission, GatewayError>(
                    GatewayAdmission::AlreadyQueued { idempotency_key: key },
                )
            } else {
                Err::<GatewayAdmission, GatewayError>(
                    GatewayError::IdempotencyConflict { idempotency_key: key },
                )
            }
    } else if supersession_of(record.delivery) is Some && exists|i: int|
        0 <= i < depth && supersession_of(entries[i].delivery) == supersession_of(
            record.delivery,
        ) {
        exists|i: int|
            0 <= i < depth && supersession_of(entries[i].delivery) == supersession_of(
                record.delivery,
            ) && after.entries() == entries.update(i, record)
                && after.counters() == (
                admitted,
                saturating_inc(superseded),
                dropped,
                rejected,
            ) && result == Ok::<GatewayAdmission, GatewayError>(
                GatewayAdmission::Superseded {
                    idempotency_key: key,
                    superseded_idempotency_key: entries[i].idempotency_key,
                },
            )
    } else if (depth >= before.capacity_spec() || !has_idempotency_capacity)
        && record.delivery == DeliverySemantic::BestEffort {
        &&& after.entries() == entries
        &&& after.counters() == (
            admitted,
            superseded,
            saturating_inc(dropped),
            rejected,
        )
        &&& result == Ok::<GatewayAdmission, GatewayError>(
            GatewayAdmission::Dropped { idempotency_key: key },
        )
    } else if depth >= before.capacity_spec() {
        &&& after.entries() == entries
        &&& after.counters() == (
            admitted,
            superseded,
            dropped,
            saturating_inc(rejected),
        )
        &&& result == Err::<GatewayAdmission, GatewayError>(
            GatewayError::CommandCapacityExceeded {
                capacity: before.capacity_spec(),
            },
        )
    } else if !has_idempotency_capacity {
        &&& after.entries() == entries
        &&& after.counters() == (
            admitted,
            superseded,
            dropped,
            saturating_inc(rejected),
        )
        &&& result == Err::<GatewayAdmission, GatewayError>(
            GatewayError::IdempotencyCapacityExceeded,
        )
    } else {
        &&& after.entries() == entries.push(record)
        &&& after.counters() == (
            saturating_inc(admitted),
            superseded,
            dropped,
            rejected,
        )
        &&& result == Ok::<GatewayAdmission, GatewayError>(
            GatewayAdmission::Queued { idempotency_key: key },
        )
    }
}

/// Fixed-capacity FIFO of uncommitted commands.
pub struct CommandQueue<C> {
    capacity: u32,
    entries: Vec<CommandRecord<C>>,
    admitted: u64,
    superseded: u64,
    dropped: u64,
    rejected: u64,
}

impl<C> CommandQueue<C> {
    /// Fixed capacity.
    pub closed spec fn capacity_spec(&self) -> u32 {
        self.capacity
    }

    /// Queued commands, oldest first.
    pub closed spec fn entries(&self) -> Seq<CommandRecord<C>> {
        self.entries@
    }

    /// Counters: admitted, superseded, dropped, rejected.
    pub closed spec fn counters(&self) -> (u64, u64, u64, u64) {
        (self.admitted, self.superseded, self.dropped, self.rejected)
    }

    /// Depth within capacity, unique keys, unique supersession keys.
    pub open spec fn wf(&self) -> bool {
        &&& self.entries().len() <= self.capacity_spec()
        &&& forall|i: int, j: int|
            0 <= i < j < self.entries().len() ==> #[trigger] self.entries()[i].idempotency_key
                != #[trigger] self.entries()[j].idempotency_key
        &&& forall|i: int, j: int|
            0 <= i < j < self.entries().len() && (#[trigger] supersession_of(
                self.entries()[i].delivery,
            )) is Some ==> supersession_of(self.entries()[i].delivery) != #[trigger] supersession_of(
                self.entries()[j].delivery,
            )
    }

    /// Whether `key` is queued.
    pub open spec fn has_key(&self, key: u128) -> bool {
        exists|i: int| 0 <= i < self.entries().len() && self.entries()[i].idempotency_key == key
    }

    /// Creates an empty queue.
    pub fn new(capacity: u32) -> (queue: Self)
        ensures
            queue.wf(),
            queue.capacity_spec() == capacity,
            queue.entries().len() == 0,
            queue.counters() == (0u64, 0u64, 0u64, 0u64),
    {
        CommandQueue {
            capacity,
            entries: Vec::new(),
            admitted: 0,
            superseded: 0,
            dropped: 0,
            rejected: 0,
        }
    }

    /// Current depth.
    pub fn depth(&self) -> (depth: u32)
        requires
            self.wf(),
        ensures
            depth == self.entries().len(),
    {
        self.entries.len() as u32
    }

    fn find_key(&self, key: u128) -> (index: Option<usize>)
        ensures
            match index {
                Some(i) => i < self.entries().len() && self.entries()[i as int].idempotency_key
                    == key,
                None => !self.has_key(key),
            },
    {
        let mut i: usize = 0;
        while i < self.entries.len()
            invariant
                i <= self.entries@.len(),
                forall|j: int| 0 <= j < i ==> self.entries@[j].idempotency_key != key,
            decreases self.entries@.len() - i,
        {
            if self.entries[i].idempotency_key == key {
                return Some(i);
            }
            i = i + 1;
        }
        None
    }

    fn find_supersession(&self, supersession_key: &Vec<u8>) -> (index: Option<usize>)
        ensures
            match index {
                Some(i) => i < self.entries().len() && supersession_of(
                    self.entries()[i as int].delivery,
                ) == Some(supersession_key@),
                None => forall|j: int|
                    0 <= j < self.entries().len() ==> supersession_of(self.entries()[j].delivery)
                        != Some(supersession_key@),
            },
    {
        let mut i: usize = 0;
        while i < self.entries.len()
            invariant
                i <= self.entries@.len(),
                forall|j: int|
                    0 <= j < i ==> supersession_of(self.entries@[j].delivery) != Some(
                        supersession_key@,
                    ),
            decreases self.entries@.len() - i,
        {
            match &self.entries[i].delivery {
                DeliverySemantic::LatestWins { supersession_key: existing } => {
                    if bytes_equal(existing.as_slice(), supersession_key.as_slice()) {
                        return Some(i);
                    }
                },
                _ => {},
            }
            i = i + 1;
        }
        None
    }

    /// Admits one command according to its delivery semantic.
    ///
    /// In order: a queued command with the same key is answered as a retry
    /// (same fingerprint) or a conflict; a latest-value command replaces the
    /// queued command with the same supersession key in place; under pressure
    /// (full queue or no idempotency capacity) best-effort work is dropped and
    /// other work rejected; otherwise the command is appended.
    pub fn admit_command(&mut self, record: CommandRecord<C>, has_idempotency_capacity: bool) -> (result:
        Result<GatewayAdmission, GatewayError>)
        requires
            old(self).wf(),
        ensures
            final(self).wf(),
            final(self).capacity_spec() == old(self).capacity_spec(),
            queue_admission(*old(self), record, has_idempotency_capacity, *final(self), result),
    {
        let key = record.idempotency_key;
        match self.find_key(key) {
            Some(i) => {
                if bytes_equal(self.entries[i].fingerprint.as_slice(), record.fingerprint.as_slice()) {
                    return Ok(GatewayAdmission::AlreadyQueued { idempotency_key: key });
                }
                return Err(GatewayError::IdempotencyConflict { idempotency_key: key });
            },
            None => {},
        }
        let position = match &record.delivery {
            DeliverySemantic::LatestWins { supersession_key } => self.find_supersession(
                supersession_key,
            ),
            _ => None,
        };
        match position {
            Some(i) => {
                let superseded_idempotency_key = self.entries[i].idempotency_key;
                let ghost before = self.entries@;
                self.entries.set(i, record);
                self.superseded = increment(self.superseded);
                proof {
                    assert(self.entries@ == before.update(i as int, record));
                    assert forall|a: int, b: int|
                        0 <= a < b < self.entries@.len() implies #[trigger] self.entries@[a].idempotency_key
                        != #[trigger] self.entries@[b].idempotency_key by {
                        if a == i as int {
                            assert(before[b].idempotency_key != key);
                        } else if b == i as int {
                            assert(before[a].idempotency_key != key);
                        }
                    }
                    assert forall|a: int, b: int|
                        0 <= a < b < self.entries@.len() && (#[trigger] supersession_of(
                            self.entries@[a].delivery,
                        )) is Some implies supersession_of(self.entries@[a].delivery)
                        != #[trigger] supersession_of(self.entries@[b].delivery) by {
                        if a == i as int {
                            assert(supersession_of(before[b].delivery) != supersession_of(
                                before[i as int].delivery,
                            ));
                        } else if b == i as int {
                            assert(supersession_of(before[a].delivery) != supersession_of(
                                before[i as int].delivery,
                            ));
                        }
                    }
                }
                return Ok(
                    GatewayAdmission::Superseded { idempotency_key: key, superseded_idempotency_key },
                );
            },
            None => {},
        }
        let depth = self.entries.len() as u32;
        let best_effort = match &record.delivery {
            DeliverySemantic::BestEffort => true,
            _ => false,
        };
        let under_pressure = depth >= self.capacity || !has_idempotency_capacity;
        if under_pressure && best_effort {
            self.dropped = increment(self.dropped);
            return Ok(GatewayAdmission::Dropped { idempotency_key: key });
        }
        if depth >= self.capacity {
            self.rejected = increment(self.rejected);
            return Err(GatewayError::CommandCapacityExceeded { capacity: self.capacity });
        }
        if !has_idempotency_capacity {
            self.rejected = increment(self.rejected);
            return Err(GatewayError::IdempotencyCapacityExceeded);
        }
        let ghost before = self.entries@;
        self.entries.push(record);
        self.admitted = increment(self.admitted);
        proof {
            assert forall|a: int, b: int|
                0 <= a < b < self.entries@.len() && (#[trigger] supersession_of(
                    self.entries@[a].delivery,
                )) is Some implies supersession_of(self.entries@[a].delivery)
                != #[trigger] supersession_of(self.entries@[b].delivery) by {
                if b == before.len() {
                    assert(supersession_of(before[a].delivery) != supersession_of(
                        record.delivery,
                    ));
                }
            }
        }
        Ok(GatewayAdmission::Queued { idempotency_key: key })
    }

    /// Removes and returns the oldest queued command.
    pub fn pop_front(&mut self) -> (record: Option<CommandRecord<C>>)
        requires
            old(self).wf(),
        ensures
            final(self).wf(),
            final(self).capacity_spec() == old(self).capacity_spec(),
            final(self).counters() == old(self).counters(),
            old(self).entries().len() == 0 ==> record is None && final(self).entries()
                == old(self).entries(),
            old(self).entries().len() > 0 ==> record == Some(old(self).entries()[0])
                && final(self).entries() == old(self).entries().drop_first(),
    {
        if self.entries.len() == 0 {
            return None;
        }
        let record = self.entries.remove(0);
        proof {
            assert forall|a: int, b: int|
                0 <= a < b < self.entries@.len() implies #[trigger] self.entries@[a].idempotency_key
                != #[trigger] self.entries@[b].idempotency_key by {
                assert(old(self).entries@[a + 1].idempotency_key != old(
                    self,
                ).entries@[b + 1].idempotency_key);
            }
            assert forall|a: int, b: int|
                0 <= a < b < self.entries@.len() && (#[trigger] supersession_of(
                    self.entries@[a].delivery,
                )) is Some implies supersession_of(self.entries@[a].delivery)
                != #[trigger] supersession_of(self.entries@[b].delivery) by {
                assert(supersession_of(old(self).entries@[a + 1].delivery) != supersession_of(
                    old(self).entries@[b + 1].delivery,
                ));
            }
            assert(self.entries@ =~= old(self).entries@.drop_first());
        }
        Some(record)
    }

    /// Returns depth, oldest pending age at `sampled_at_micros`, and counters.
    pub fn stats_at(&self, sampled_at_micros: u64) -> (stats: GatewayQueueStats)
        requires
            self.wf(),
        ensures
            stats.depth == self.entries().len(),
            self.entries().len() == 0 ==> stats.oldest_pending_age_micros is None,
            self.entries().len() > 0 ==> stats.oldest_pending_age_micros == Some(
                if sampled_at_micros >= min_queued_at(self.entries()) {
                    (sampled_at_micros - min_queued_at(self.entries())) as u64
                } else {
                    0u64
                },
            ),
            (stats.admitted, stats.superseded, stats.dropped, stats.rejected) == self.counters(),
            self.entries().len() > 0 ==> (stats.oldest_pending_age_micros matches Some(age) && (
            forall|i: int|
                0 <= i < self.entries().len() ==> age >= elapsed_since(
                    sampled_at_micros,
                    #[trigger] self.entries()[i].queued_at_micros,
                )) && exists|i: int|
                0 <= i < self.entries().len() && age == elapsed_since(
                    sampled_at_micros,
                    self.entries()[i].queued_at_micros,
                )),
    {
        proof {
            if self.entries@.len() > 0 {
                lemma_min_queued_at_is_oldest(self.entries@);
            }
        }
        let oldest_pending_age_micros = if self.entries.len() == 0 {
            None
        } else {
            let mut oldest = self.entries[0].queued_at_micros;
            let mut i: usize = 1;
            while i < self.entries.len()
                invariant
                    1 <= i <= self.entries@.len(),
                    oldest == min_queued_at(self.entries@.subrange(0, i as int)),
                decreases self.entries@.len() - i,
            {
                let ghost prefix = self.entries@.subrange(0, i + 1);
                assert(prefix.drop_last() =~= self.entries@.subrange(0, i as int));
                if self.entries[i].queued_at_micros < oldest {
                    oldest = self.entries[i].queued_at_micros;
                }
                i = i + 1;
            }
            assert(self.entries@.subrange(0, self.entries@.len() as int) =~= self.entries@);
            Some(
                if sampled_at_micros >= oldest {
                    sampled_at_micros - oldest
                } else {
                    0
                },
            )
        };
        GatewayQueueStats {
            depth: self.entries.len() as u32,
            oldest_pending_age_micros,
            admitted: self.admitted,
            superseded: self.superseded,
            dropped: self.dropped,
            rejected: self.rejected,
        }
    }
}

/// One retained completed result.
pub struct CompletedRecord<R> {
    /// Key of the completed command.
    pub idempotency_key: u128,
    /// Fingerprint of the completed command.
    pub fingerprint: Vec<u8>,
    /// Recorded response.
    pub response: R,
}

/// What admitting `record` into gateway `before` does: the resulting gateway
/// `after` and the returned `result`. A completed key is answered by replay
/// (same fingerprint) or a conflict and changes nothing; any other key goes
/// to the queue, with idempotency capacity available while queued plus
/// completed records stay below the capacity.
pub open spec fn gateway_admission<C, R>(
    before: CommandGateway<C, R>,
    record: CommandRecord<C>,
    after: CommandGateway<C, R>,
    result: Result<GatewayAdmission, GatewayError>,
) -> bool {
    let key = record.idempotency_key;
    &&& after.idempotency_capacity() == before.idempotency_capacity()
    &&& after.completed() == before.completed()
    &&& if before.has_completed(key) {
        &&& after.queue() == before.queue()
        &&& exists|i: int|
            0 <= i < before.completed().len() && before.completed()[i].idempotency_key == key
                && result == if before.completed()[i].fingerprint@ == record.fingerprint@ {
                Ok::<GatewayAdmission, GatewayError>(
                    GatewayAdmission::Replayed { idempotency_key: key },
                )
            } else {
                Err::<GatewayAdmission, GatewayError>(
                    GatewayError::IdempotencyConflict { idempotency_key: key },
                )
            }
    } else {
        queue_admission(
            before.queue(),
            record,
            before.completed().len() + before.queue().entries().len()
                < before.idempotency_capacity(),
            after.queue(),
            result,
        )
    }
}

/// Command admission with idempotent replay of completed results.
pub struct CommandGateway<C, R> {
    queue: CommandQueue<C>,
    completed: Vec<CompletedRecord<R>>,
    idempotency_capacity: u32,
}

impl<C, R> CommandGateway<C, R> {
    /// The uncommitted command queue.
    pub closed spec fn queue(&self) -> CommandQueue<C> {
        self.queue
    }

    /// Retained completed results, oldest first.
    pub closed spec fn completed(&self) -> Seq<CompletedRecord<R>> {
        self.completed@
    }

    /// Maximum queued plus completed records.
    pub closed spec fn idempotency_capacity(&self) -> u32 {
        self.idempotency_capacity
    }

    /// Whether a completed result is retained for `key`.
    pub open spec fn has_completed(&self, key: u128) -> bool {
        exists|i: int| 0 <= i < self.completed().len() && self.completed()[i].idempotency_key == key
    }

    /// The queue is well formed, completed keys are unique and never queued,
    /// and queued plus completed records stay within the idempotency capacity.
    pub open spec fn wf(&self) -> bool {
        &&& self.queue().wf()
        &&& forall|i: int, j: int|
            0 <= i < j < self.completed().len() ==> #[trigger] self.completed()[i].idempotency_key
                != #[trigger] self.completed()[j].idempotency_key
        &&& forall|i: int|
            0 <= i < self.completed().len() ==> !self.queue().has_key(
                #[trigger] self.completed()[i].idempotency_key,
            )
        &&& self.completed().len() + self.queue().entries().len() <= self.idempotency_capacity()
    }

    /// Creates an empty gateway after validating its capacities.
    pub fn new(config: GatewayConfig, limits: &RuntimeLimits, available_world_records: u32) -> (gateway:
        Result<Self, GatewayError>)
        ensures
            match spec_config_check(config, *limits, available_world_records) {
                Err(e) => gateway == Err::<Self, GatewayError>(e),
                Ok(()) => gateway is Ok && {
                    let g = gateway->Ok_0;
                    &&& g.wf()
                    &&& g.queue().entries().len() == 0
                    &&& g.queue().capacity_spec() == config.command_capacity
                    &&& g.queue().counters() == (0u64, 0u64, 0u64, 0u64)
                    &&& g.completed().len() == 0
                    &&& g.idempotency_capacity() == config.idempotency_capacity
                },
            },
    {
        match validate_config(config, limits, available_world_records) {
            Err(e) => {
                return Err(e);
            },
            Ok(()) => {},
        }
        Ok(
            CommandGateway {
                queue: CommandQueue::new(config.command_capacity),
                completed: Vec::new(),
                idempotency_capacity: config.idempotency_capacity,
            },
        )
    }

    fn find_completed(&self, key: u128) -> (index: Option<usize>)
        ensures
            match index {
                Some(i) => i < self.completed().len() && self.completed()[i as int].idempotency_key
                    == key,
                None => !self.has_completed(key),
            },
    {
        let mut i: usize = 0;
        while i < self.completed.len()
            invariant
                i <= self.completed@.len(),
                forall|j: int| 0 <= j < i ==> self.completed@[j].idempotency_key != key,
            decreases self.completed@.len() - i,
        {
            if self.completed[i].idempotency_key == key {
                return Some(i);
            }
            i = i + 1;
        }
        None
    }

    /// Admits one command: a completed key is answered by replay (same
    /// fingerprint) or a conflict; otherwise the queue admits it, with
    /// idempotency capacity available while queued plus completed records
    /// stay below the capacity.
    pub fn admit_command(&mut self, record: CommandRecord<C>) -> (result: Result<
        GatewayAdmission,
        GatewayError,
    >)
        requires
            old(self).wf(),
        ensures
            final(self).wf(),
            gateway_admission(*old(self), record, *final(self), result),
    {
        match self.find_completed(record.idempotency_key) {
            Some(i) => {
                if bytes_equal(self.completed[i].fingerprint.as_slice(), record.fingerprint.as_slice()) {
                    return Ok(GatewayAdmission::Replayed { idempotency_key: record.idempotency_key });
                }
                return Err(
                    GatewayError::IdempotencyConflict { idempotency_key: record.idempotency_key },
                );
            },
            None => {},
        }
        let has_idempotency_capacity = (self.completed.len() as u64) + (self.queue.depth() as u64)
            < self.idempotency_capacity as u64;
        let ghost key = record.idempotency_key;
        let result = self.queue.admit_command(record, has_idempotency_capacity);
        proof {
            assert forall|i: int|
                0 <= i < self.completed@.len() implies !self.queue.has_key(
                #[trigger] self.completed@[i].idempotency_key,
            ) by {
                let k = self.completed@[i].idempotency_key;
                assert(k != key);
                if self.queue.has_key(k) {
                    let j = choose|j: int|
                        0 <= j < self.queue.entries().len() && self.queue.entries()[j].idempotency_key
                            == k;
                    assert(old(self).queue.has_key(k)) by {
                        if old(self).queue.has_key(key) {
                        } else if supersession_of(record.delivery) is Some && exists|a: int|
                            0 <= a < old(self).queue.entries().len() && supersession_of(
                                old(self).queue.entries()[a].delivery,
                            ) == supersession_of(record.delivery) {
                            let a = choose|a: int|
                                0 <= a < old(self).queue.entries().len() && supersession_of(
                                    old(self).queue.entries()[a].delivery,
                                ) == supersession_of(record.delivery)
                                    && self.queue.entries() == old(self).queue.entries().update(
                                    a,
                                    record,
                                );
                            assert(j != a);
                            assert(old(self).queue.entries()[j].idempotency_key == k);
                        } else {
                            if j < old(self).queue.entries().len() {
                                assert(old(self).queue.entries()[j].idempotency_key == k);
                            }
                        }
                    }
                }
            }
        }
        result
    }

    /// Processes the oldest queued command with `process` and retains its
    /// response under the command's key; a failed command is discarded.
    pub fn process_next<E, F: FnOnce(&C) -> Result<R, E>>(&mut self, process: F) -> (result: Result<
        Option<u128>,
        E,
    >)
        requires
            old(self).wf(),
            forall|command: &C| process.requires((command,)),
        ensures
            final(self).wf(),
            final(self).idempotency_capacity() == old(self).idempotency_capacity(),
            final(self).queue().capacity_spec() == old(self).queue().capacity_spec(),
            final(self).queue().counters() == old(self).queue().counters(),
            old(self).queue().entries().len() == 0 ==> {
                &&& result matches Ok(None)
                &&& final(self).queue() == old(self).queue()
                &&& final(self).completed() == old(self).completed()
            },
            old(self).queue().entries().len() > 0 ==> {
                let next = old(self).queue().entries()[0];
                &&& final(self).queue().entries() == old(self).queue().entries().drop_first()
                &&& match result {
                    Ok(Some(key)) => {
                        &&& key == next.idempotency_key
                        &&& final(self).completed().len() == old(self).completed().len() + 1
                        &&& final(self).completed().drop_last() == old(self).completed()
                        &&& final(self).completed().last().idempotency_key == next.idempotency_key
                        &&& final(self).completed().last().fingerprint == next.fingerprint
                        &&& process.ensures(
                            (&next.command,),
                            Ok::<R, E>(final(self).completed().last().response),
                        )
                    },
                    Ok(None) => false,
                    Err(e) => {
                        &&& final(self).completed() == old(self).completed()
                        &&& process.ensures((&next.command,), Err::<R, E>(e))
                    },
                }
            },
    {
        if self.queue.depth() == 0 {
            return Ok(None);
        }
        let record = match self.queue.pop_front() {
            None => {
                return Ok(None);
            },
            Some(record) => record,
        };
        proof {
            assert forall|i: int|
                0 <= i < self.completed@.len() implies !self.queue.has_key(
                #[trigger] self.completed@[i].idempotency_key,
            ) by {
                let k = self.completed@[i].idempotency_key;
                if self.queue.has_key(k) {
                    let j = choose|j: int|
                        0 <= j < self.queue.entries().len() && self.queue.entries()[j].idempotency_key
                            == k;
                    assert(old(self).queue.entries()[j + 1].idempotency_key == k);
                }
            }
        }
        let response = match process(&record.command) {
            Ok(response) => response,
            Err(e) => {
                return Err(e);
            },
        };
        let key = record.idempotency_key;
        let ghost before = self.completed@;
        proof {
            assert(old(self).queue.entries()[0] == record);
            assert forall|i: int| 0 <= i < before.len() implies before[i].idempotency_key != key by {
                assert(old(self).queue.has_key(key));
            }
            assert forall|j: int|
                0 <= j < self.queue.entries().len() implies self.queue.entries()[j].idempotency_key
                != key by {
                assert(old(self).queue.entries()[j + 1].idempotency_key != old(
                    self,
                ).queue.entries()[0].idempotency_key);
            }
        }
        self.completed.push(
            CompletedRecord { idempotency_key: key, fingerprint: record.fingerprint, response },
        );
        proof {
            assert(self.completed@.drop_last() =~= before);
        }
        Ok(Some(key))
    }

    /// Returns the retained response for `key`, if any.
    pub fn completed_response(&self, key: u128) -> (response: Option<&R>)
        requires
            self.wf(),
        ensures
            !self.has_completed(key) ==> response is None,
            self.has_completed(key) ==> exists|i: int|
                0 <= i < self.completed().len() && self.completed()[i].idempotency_key == key
                    && response == Some(&self.completed()[i].response),
    {
        match self.find_completed(key) {
            Some(i) => Some(&self.completed[i].response),
            None => None,
        }
    }

    /// Returns the number of retained completed results.
    pub fn completed_result_count(&self) -> (count: u32)
        requires
            self.wf(),
        ensures
            count == self.completed().len(),
    {
        self.completed.len() as u32
    }

    /// Returns the queue counters and the oldest pending age.
    pub fn queue_stats_at(&self, sampled_at_micros: u64) -> (stats: GatewayQueueStats)
        requires
            self.wf(),
        ensures
            stats.depth == self.queue().entries().len(),
            self.queue().entries().len() == 0 ==> stats.oldest_pending_age_micros is None,
            self.queue().entries().len() > 0 ==> stats.oldest_pending_age_micros == Some(
                if sampled_at_micros >= min_queued_at(self.queue().entries()) {
                    (sampled_at_micros - min_queued_at(self.queue().entries())) as u64
                } else {
                    0u64
                },
            ),
            (stats.admitted, stats.superseded, stats.dropped, stats.rejected)
                == self.queue().counters(),
    {
        self.queue.stats_at(sampled_at_micros)
    }
}

/// A retry of a queued command (same key, same fingerprint) is answered as
/// already queued and leaves the queue exactly as it was.
pub proof fn lemma_queued_retry_is_idempotent<C>(
    before: CommandQueue<C>,
    record: CommandRecord<C>,
    has_idempotency_capacity: bool,
    after: CommandQueue<C>,
    result: Result<GatewayAdmission, GatewayError>,
)
    requires
        before.wf(),
        queue_admission(before, record, has_idempotency_capacity, after, result),
        exists|i: int|
            0 <= i < before.entries().len() && before.entries()[i].idempotency_key
                == record.idempotency_key && before.entries()[i].fingerprint@
                == record.fingerprint@,
    ensures
        after == before,
        result == Ok::<GatewayAdmission, GatewayError>(
            GatewayAdmission::AlreadyQueued { idempotency_key: record.idempotency_key },
        ),
{
    let key = record.idempotency_key;
    let entries = before.entries();
    let i = choose|i: int|
        0 <= i < entries.len() && entries[i].idempotency_key == key && entries[i].fingerprint@
            == record.fingerprint@;
    assert(before.has_key(key));
    let j = choose|j: int|
        0 <= j < entries.len() && entries[j].idempotency_key == key && result == if entries[j].fingerprint@
            == record.fingerprint@ {
            Ok::<GatewayAdmission, GatewayError>(
                GatewayAdmission::AlreadyQueued { idempotency_key: key },
            )
        } else {
            Err::<GatewayAdmission, GatewayError>(
                GatewayError::IdempotencyConflict { idempotency_key: key },
            )
        };
    if i < j {
        assert(entries[i].idempotency_key != entries[j].idempotency_key);
    } else if j < i {
        assert(entries[j].idempotency_key != entries[i].idempotency_key);
    }
}

/// A must-apply command is never dropped and never supersedes another: it is
/// queued, answered from the queue, or rejected.
pub proof fn lemma_must_apply_is_never_dropped<C>(
    before: CommandQueue<C>,
    record: CommandRecord<C>,
    has_idempotency_capacity: bool,
    after: CommandQueue<C>,
    result: Result<GatewayAdmission, GatewayError>,
)
    requires
        queue_admission(before, record, has_idempotency_capacity, after, result),
        record.delivery == DeliverySemantic::MustApply,
    ensures
        !(result matches Ok(GatewayAdmission::Dropped { .. })),
        !(result matches Ok(GatewayAdmission::Superseded { .. })),
{
}

/// Admission appends at most one command, only when it answers `Queued`, and
/// never takes the queue past its capacity.
pub proof fn lemma_admission_grows_queue_only_when_queued<C>(
    before: CommandQueue<C>,
    record: CommandRecord<C>,
    has_idempotency_capacity: bool,
    after: CommandQueue<C>,
    result: Result<GatewayAdmission, GatewayError>,
)
    requires
        before.wf(),
        queue_admission(before, record, has_idempotency_capacity, after, result),
    ensures
        after.entries().len() == before.entries().len() + if result matches Ok(
            GatewayAdmission::Queued { .. },
        ) {
            1int
        } else {
            0int
        },
        after.entries().len() <= before.capacity_spec(),
{
}

/// A latest-value command that supersedes another takes its place in the
/// queue: the depth is unchanged, the new command sits at the old command's
/// position, and the old key is no longer queued.
pub proof fn lemma_supersession_replaces_in_place<C>(
    before: CommandQueue<C>,
    record: CommandRecord<C>,
    has_idempotency_capacity: bool,
    after: CommandQueue<C>,
    result: Result<GatewayAdmission, GatewayError>,
    superseded_key: u128,
)
    requires
        before.wf(),
        queue_admission(before, record, has_idempotency_capacity, after, result),
        result == Ok::<GatewayAdmission, GatewayError>(
            GatewayAdmission::Superseded {
                idempotency_key: record.idempotency_key,
                superseded_idempotency_key: superseded_key,
            },
        ),
    ensures
        after.entries().len() == before.entries().len(),
        exists|i: int|
            0 <= i < before.entries().len() && before.entries()[i].idempotency_key
                == superseded_key && after.entries()[i] == record,
        !after.has_key(superseded_key),
{
    let entries = before.entries();
    let i = choose|i: int|
        0 <= i < entries.len() && supersession_of(entries[i].delivery) == supersession_of(
            record.delivery,
        ) && after.entries() == entries.update(i, record) && after.counters() == (
            before.counters().0,
            saturating_inc(before.counters().1),
            before.counters().2,
            before.counters().3,
        ) && result == Ok::<GatewayAdmission, GatewayError>(
            GatewayAdmission::Superseded {
                idempotency_key: record.idempotency_key,
                superseded_idempotency_key: entries[i].idempotency_key,
            },
        );
    assert(entries[i].idempotency_key == superseded_key);
    assert(after.entries()[i] == record);
    assert(!before.has_key(record.idempotency_key));
    if after.has_key(superseded_key) {
        let j = choose|j: int|
            0 <= j < after.entries().len() && after.entries()[j].idempotency_key == superseded_key;
        if j != i {
            assert(after.entries()[j] == entries[j]);
            if j < i {
                assert(entries[j].idempotency_key != entries[i].idempotency_key);
            } else {
                assert(entries[i].idempotency_key != entries[j].idempotency_key);
            }
        }
    }
}

/// A retry of a completed command (same key, same fingerprint) is answered
/// from the retained result and changes neither the queue nor the retained
/// results.
pub proof fn lemma_completed_retry_replays<C, R>(
    before: CommandGateway<C, R>,
    record: CommandRecord<C>,
    after: CommandGateway<C, R>,
    result: Result<GatewayAdmission, GatewayError>,
)
    requires
        before.wf(),
        gateway_admission(before, record, after, result),
        exists|i: int|
            0 <= i < before.completed().len() && before.completed()[i].idempotency_key
                == record.idempotency_key && before.completed()[i].fingerprint@
                == record.fingerprint@,
    ensures
        result == Ok::<GatewayAdmission, GatewayError>(
            GatewayAdmission::Replayed { idempotency_key: record.idempotency_key },
        ),
        after.queue() == before.queue(),
        after.completed() == before.completed(),
{
    let key = record.idempotency_key;
    let done = before.completed();
    let i = choose|i: int|
        0 <= i < done.len() && done[i].idempotency_key == key && done[i].fingerprint@
            == record.fingerprint@;
    assert(before.has_completed(key));
    let j = choose|j: int|
        0 <= j < done.len() && done[j].idempotency_key == key && result == if done[j].fingerprint@
            == record.fingerprint@ {
            Ok::<GatewayAdmission, GatewayError>(GatewayAdmission::Replayed { idempotency_key: key })
        } else {
            Err::<GatewayAdmission, GatewayError>(
                GatewayError::IdempotencyConflict { idempotency_key: key },
            )
        };
    if i < j {
        assert(done[i].idempotency_key != done[j].idempotency_key);
    } else if j < i {
        assert(done[j].idempotency_key != done[i].idempotency_key);
    }
}


/// Result of processing one admitted command.
#[derive(Debug, Clone, Copy, PartialEq, Eq, Structural)]
pub enum GatewayResponse {
    /// Receipt for one explicit patch.
    PatchApplied {
        /// Atomic world receipt.
        receipt: ReceiptSummary,
    },
    /// Compiler result and optional apply receipt for one imagination.
    ImaginationProcessed {
        /// Deterministic compiler result.
        compilation: CompilationSummary,
        /// Atomic receipt, absent when constraints were unresolved.
        receipt: Option<ReceiptSummary>,
    },
}

/// `receipt` marked as an idempotent replay.
pub open spec fn replay_receipt(receipt: ReceiptSummary) -> ReceiptSummary {
    ReceiptSummary { status: ApplyStatus::IdempotentReplay, ..receipt }
}

/// `response` with every receipt it carries marked as an idempotent replay,
/// and all else unchanged.
pub open spec fn replayed(response: GatewayResponse) -> GatewayResponse {
    match response {
        GatewayResponse::PatchApplied { receipt } => GatewayResponse::PatchApplied {
            receipt: replay_receipt(receipt),
        },
        GatewayResponse::ImaginationProcessed { compilation, receipt } =>
            GatewayResponse::ImaginationProcessed {
            compilation,
            receipt: match receipt {
                Some(r) => Some(replay_receipt(r)),
                None => None,
            },
        },
    }
}

impl GatewayResponse {
    /// Returns this response as answered to a retry: every receipt is marked
    /// as an idempotent replay.
    pub fn as_replayed(&self) -> (response: GatewayResponse)
        ensures
            response == replayed(*self),
    {
        match *self {
            GatewayResponse::PatchApplied { receipt } => GatewayResponse::PatchApplied {
                receipt: ReceiptSummary { status: ApplyStatus::IdempotentReplay, ..receipt },
            },
            GatewayResponse::ImaginationProcessed { compilation, receipt } => {
                let receipt = match receipt {
                    Some(r) => Some(ReceiptSummary { status: ApplyStatus::IdempotentReplay, ..r }),
                    None => None,
                };
                GatewayResponse::ImaginationProcessed { compilation, receipt }
            },
        }
    }
}

impl<C> CommandGateway<C, GatewayResponse> {
    /// Admits one command as `admit_command` does; a replay also returns the
    /// retained response of the completed command, marked as a replay.
    pub fn admit_with_replay(&mut self, record: CommandRecord<C>) -> (result: Result<
        (GatewayAdmission, Option<GatewayResponse>),
        GatewayError,
    >)
        requires
            old(self).wf(),
        ensures
            final(self).wf(),
            gateway_admission(
                *old(self),
                record,
                *final(self),
                match result {
                    Ok((admission, _)) => Ok::<GatewayAdmission, GatewayError>(admission),
                    Err(e) => Err::<GatewayAdmission, GatewayError>(e),
                },
            ),
            result matches Ok((admission, response)) ==> if admission is Replayed {
                exists|i: int|
                    0 <= i < old(self).completed().len() && old(self).completed()[i].idempotency_key
                        == record.idempotency_key && response == Some(
                        replayed(old(self).completed()[i].response),
                    )
            } else {
                response is None
            },
    {
        let key = record.idempotency_key;
        let index = self.find_completed(key);
        let admission = match self.admit_command(record) {
            Ok(admission) => admission,
            Err(e) => {
                return Err(e);
            },
        };
        match admission {
            GatewayAdmission::Replayed { .. } => {
                match index {
                    Some(i) => {
                        let response = self.completed[i].response.as_replayed();
                        Ok((admission, Some(response)))
                    },
                    None => Ok((admission, None)),
                }
            },
            _ => Ok((admission, None)),
        }
    }
}

} // verus!
