//! The bookkeeping of one caller-driven local session over a typed service.
//!
//! A session starts awaiting exactly one hello, becomes active once limits
//! are negotiated, and closes only when nothing is outstanding. Every
//! admitted command and accepted observation holds one live correlation
//! until its terminal output; live correlations never exceed the session's
//! capacity, and no correlation, command key, or observation identity is
//! pending twice.
//!
//! The ledger decides; the caller performs the service call or the frame
//! encoding a decision asks for and reports back.

use crate::compilation::{
    intersect_compilation_limits, spec_intersect_compilation, CompilationLimits,
};
use crate::frame::LocalFrameConfig;
use crate::gateway::{spec_compilation_limit_exceeded, GatewayError};
use crate::limits::{min_nat, min_u32, min_u64, RuntimeLimits};
use crate::observation::ObservationError;
use crate::message::{
    ApplyStatus, CompilationSummary, ReceiptSummary, SessionFailureCode,
};
use crate::session::{
    LocalSessionLimits, LOCAL_SESSION_SCHEMA_VERSION,
    LOCAL_SESSION_SCHEMA_VERSION_V2,
};
use vstd::prelude::*;

verus! {

/// Maximum frames returned by one caller-driven executor operation.
pub const MAX_OUTPUT_FRAMES_PER_CALL: usize = 2;

/// Stable executor failure that never retains control or observation payloads.
#[derive(Debug, Clone, Copy, PartialEq, Eq)]
pub enum LocalExecutorError {
    /// Executor and service bounds are internally inconsistent.
    InvalidConfig {
        /// Stable non-sensitive configuration reason.
        reason: &'static str,
    },
    /// The supplied service already owns transient work the executor cannot correlate.
    ServiceNotQuiescent {
        /// Uncommitted mutating commands.
        commands: u32,
        /// Queued, active, or undelivered observations.
        observations: u32,
    },
    /// A validated response could not fit the negotiated output boundary.
    OutputRejected,
    /// Service and executor bookkeeping disagreed after a typed operation.
    StateInvariant {
        /// Stable non-sensitive invariant category.
        reason: &'static str,
    },
}

/// Public local-session lifecycle phase.
#[derive(Debug, Clone, Copy, PartialEq, Eq, Structural)]
pub enum LocalExecutorPhase {
    /// Exactly one client hello is required before service work.
    AwaitingHello,
    /// Negotiation completed and ordinary client messages are admitted.
    Active,
    /// An orderly close completed; later messages are rejected.
    Closed,
}

/// Bounded executor occupancy without request or payload contents.
#[derive(Debug, Clone, Copy, PartialEq, Eq, Structural)]
pub struct LocalExecutorStatus {
    /// Current protocol lifecycle phase.
    pub phase: LocalExecutorPhase,
    /// Command and observation correlations awaiting terminal output.
    pub live_correlations: u32,
    /// Fixed live-correlation capacity checked against service capacities.
    pub live_correlation_capacity: u32,
    /// Exact maximum frames returned by one operation.
    pub max_output_frames_per_call: u32,
    /// Admitted patches awaiting one-command advancement.
    pub pending_patches: u32,
    /// Admitted semantic requests awaiting one-command advancement.
    pub pending_imaginations: u32,
    /// Accepted observations awaiting completion delivery.
    pub pending_observations: u32,
}

/// Explicit local receive and correlation bounds for one executor.
#[derive(Debug, Clone, Copy, PartialEq, Eq, Structural)]
pub struct LocalExecutorConfig {
    /// Local receive policy used before and during negotiation.
    pub receive_config: LocalFrameConfig,
    /// Local policy for compilation results sent through schema version two.
    pub compilation_limits: CompilationLimits,
    /// Maximum command and observation correlations live at once.
    pub max_live_correlations: u32,
    /// Exact maximum frames returned by one handle or advance call.
    pub max_output_frames_per_call: u32,
}

/// Transient work a service owns: uncommitted commands and outstanding
/// observations.
#[derive(Debug, Clone, Copy, PartialEq, Eq, Structural)]
pub struct ServiceSnapshot {
    /// Uncommitted mutating commands.
    pub command_depth: u32,
    /// Queued, active, or undelivered observations.
    pub outstanding_observations: u32,
}

/// The schema, frame policy, and compilation bounds that outgoing frames use.
#[derive(Debug, Clone, Copy, PartialEq, Eq, Structural)]
pub struct SessionOutputContext {
    /// Session schema version of outgoing messages.
    pub schema_version: u16,
    /// Frame policy outgoing frames must fit.
    pub frame_config: LocalFrameConfig,
    /// Compilation-result bounds, present only in schema version two.
    pub compilation_limits: Option<CompilationLimits>,
}

/// The identity of a submitted imagination that its completion must match.
#[derive(Debug, Clone, Copy, PartialEq, Eq, Structural)]
pub struct SubmittedImagination {
    /// Imagination request identity.
    pub imagination_id: u128,
    /// Transaction the compiled patch must carry.
    pub transaction_id: u128,
    /// Idempotency key of the submitted command.
    pub idempotency_key: u128,
    /// Revision the imagination was compiled against.
    pub base_revision: u64,
}

/// What kind of command a live correlation waits on.
#[derive(Debug, Clone, Copy, PartialEq, Eq, Structural)]
pub enum PendingKind {
    /// An explicit patch.
    Patch,
    /// A semantic imagination with its submitted identity.
    Imagination { submitted: SubmittedImagination },
}

/// One admitted command awaiting its terminal output.
#[derive(Debug, Clone, Copy, PartialEq, Eq, Structural)]
pub struct PendingCommand {
    /// Idempotency key of the admitted command.
    pub idempotency_key: u128,
    /// Correlation that receives the terminal output.
    pub correlation_id: u64,
    /// Command kind.
    pub kind: PendingKind,
}

/// One accepted observation awaiting completion.
#[derive(Debug, Clone, Copy, PartialEq, Eq, Structural)]
pub struct PendingObservation {
    /// Observation request identity.
    pub observation_id: u128,
    /// Correlation that receives the completion.
    pub correlation_id: u64,
    /// Exact revision requested.
    pub scene_revision: u64,
    /// Whether the pending notice was already sent.
    pub pending_reported: bool,
}

/// `value` as a `u32`, saturating at `u32::MAX`.
pub open spec fn spec_count(value: nat) -> u32 {
    if value > u32::MAX {
        u32::MAX
    } else {
        value as u32
    }
}

/// Returns `value` as a `u32`, saturating at `u32::MAX`.
pub fn count(value: usize) -> (counted: u32)
    ensures
        counted == spec_count(value as nat),
{
    if value > u32::MAX as usize {
        u32::MAX
    } else {
        value as u32
    }
}

/// Which kind of service operation failed.
#[derive(Debug, Clone, Copy, PartialEq, Eq, Structural)]
pub enum ServiceOperation {
    /// A mutating command.
    Command,
    /// A logical query.
    Query,
    /// An observation request or delivery.
    Observation,
}

/// The failure code of a rejected operation of each kind.
pub open spec fn spec_default_failure(operation: ServiceOperation) -> SessionFailureCode {
    match operation {
        ServiceOperation::Command => SessionFailureCode::CommandRejected,
        ServiceOperation::Query => SessionFailureCode::QueryRejected,
        ServiceOperation::Observation => SessionFailureCode::ObservationRejected,
    }
}

/// Returns the failure code of a rejected operation of `operation`'s kind.
pub fn default_failure(operation: ServiceOperation) -> (code: SessionFailureCode)
    ensures
        code == spec_default_failure(operation),
{
    match operation {
        ServiceOperation::Command => SessionFailureCode::CommandRejected,
        ServiceOperation::Query => SessionFailureCode::QueryRejected,
        ServiceOperation::Observation => SessionFailureCode::ObservationRejected,
    }
}

/// The failure code a gateway error is reported as: capacity failures as
/// capacity, a stale query revision as a revision mismatch, an inconsistent
/// configuration as internal, and a key conflict as a rejection of the
/// operation.
pub open spec fn spec_gateway_failure(error: GatewayError, operation: ServiceOperation) -> SessionFailureCode {
    if spec_compilation_limit_exceeded(error) {
        SessionFailureCode::LimitExceeded
    } else {
        match error {
        GatewayError::CommandCapacityExceeded { .. } => SessionFailureCode::CapacityExceeded,
        GatewayError::IdempotencyCapacityExceeded => SessionFailureCode::CapacityExceeded,
        GatewayError::QueryResultCapacityExceeded { .. } => SessionFailureCode::CapacityExceeded,
        GatewayError::QueryRevisionMismatch { .. } => SessionFailureCode::RevisionMismatch,
        GatewayError::InvalidConfig { .. } => SessionFailureCode::Internal,
        GatewayError::IdempotencyConflict { .. } => spec_default_failure(operation),
        GatewayError::Compiler(_) => SessionFailureCode::Internal,
        }
    }
}

/// Classifies a gateway error.
pub fn classify_gateway_error(error: &GatewayError, operation: ServiceOperation) -> (code:
    SessionFailureCode)
    ensures
        code == spec_gateway_failure(*error, operation),
{
    if error.is_compilation_limit_exceeded() {
        return SessionFailureCode::LimitExceeded;
    }
    match error {
        GatewayError::CommandCapacityExceeded { .. }
        | GatewayError::IdempotencyCapacityExceeded
        | GatewayError::QueryResultCapacityExceeded { .. } => SessionFailureCode::CapacityExceeded,
        GatewayError::QueryRevisionMismatch { .. } => SessionFailureCode::RevisionMismatch,
        GatewayError::InvalidConfig { .. } => SessionFailureCode::Internal,
        GatewayError::IdempotencyConflict { .. } => default_failure(operation),
        GatewayError::Compiler(_) => SessionFailureCode::Internal,
    }
}

/// The failure code an observation error is reported as.
pub open spec fn spec_observation_failure(error: ObservationError) -> SessionFailureCode {
    match error {
        ObservationError::RequestRevisionMismatch { .. } => SessionFailureCode::RevisionMismatch,
        ObservationError::CapacityExceeded { .. } => SessionFailureCode::CapacityExceeded,
        ObservationError::WorkerUnavailable => SessionFailureCode::ServiceUnavailable,
        _ => SessionFailureCode::ObservationRejected,
    }
}

/// Classifies an observation error.
pub fn classify_observation_error(error: &ObservationError) -> (code: SessionFailureCode)
    ensures
        code == spec_observation_failure(*error),
{
    match error {
        ObservationError::RequestRevisionMismatch { .. } => SessionFailureCode::RevisionMismatch,
        ObservationError::CapacityExceeded { .. } => SessionFailureCode::CapacityExceeded,
        ObservationError::WorkerUnavailable => SessionFailureCode::ServiceUnavailable,
        ObservationError::SourceRevisionAhead { .. }
        | ObservationError::SourceRevisionMismatch { .. }
        | ObservationError::CameraMismatch { .. } => SessionFailureCode::ObservationRejected,
    }
}

/// The session limits a receive policy and a service's runtime limits admit
/// together: the receive policy's own limits, met with the same limits
/// narrowed to the service's runtime limits and encoded-size bound.
pub open spec fn spec_effective_receive_limits(
    receive_config: LocalFrameConfig,
    service_runtime_limits: RuntimeLimits,
) -> Result<(LocalSessionLimits, LocalFrameConfig), LocalExecutorError> {
    match LocalSessionLimits::spec_from_config(receive_config) {
        Err(_) => Err(LocalExecutorError::InvalidConfig { reason: "receive limits are inconsistent" }),
        Ok(configured) => {
            let service_limits = LocalSessionLimits {
                max_control_message_bytes: min_nat(
                    configured.max_control_message_bytes as nat,
                    service_runtime_limits.max_encoded_bytes as nat,
                ) as u64,
                runtime_limits: service_runtime_limits,
                ..configured
            };
            match configured.spec_intersect(service_limits) {
                Err(_) => Err(
                    LocalExecutorError::InvalidConfig {
                        reason: "service and receive limits are inconsistent",
                    },
                ),
                Ok(effective) => match effective.spec_check() {
                    Err(_) => Err(
                        LocalExecutorError::InvalidConfig {
                            reason: "effective local receive limits are inconsistent",
                        },
                    ),
                    Ok(()) => Ok((effective, effective.spec_frame_config())),
                },
            }
        },
    }
}

/// Returns the effective local receive limits and frame policy for a
/// receive policy and a service's runtime limits.
pub fn effective_receive_limits(
    receive_config: &LocalFrameConfig,
    service_runtime_limits: RuntimeLimits,
) -> (result: Result<(LocalSessionLimits, LocalFrameConfig), LocalExecutorError>)
    ensures
        result == spec_effective_receive_limits(*receive_config, service_runtime_limits),
{
    let configured = match LocalSessionLimits::from_config(receive_config) {
        Ok(limits) => limits,
        Err(_) => {
            return Err(LocalExecutorError::InvalidConfig { reason: "receive limits are inconsistent" });
        },
    };
    let service_limits = LocalSessionLimits {
        max_control_message_bytes: min_u64(
            configured.max_control_message_bytes,
            service_runtime_limits.max_encoded_bytes,
        ),
        runtime_limits: service_runtime_limits,
        ..configured
    };
    let effective = match configured.intersect(&service_limits) {
        Ok(limits) => limits,
        Err(_) => {
            return Err(
                LocalExecutorError::InvalidConfig {
                    reason: "service and receive limits are inconsistent",
                },
            );
        },
    };
    match effective.to_frame_config() {
        Ok(frame_config) => Ok((effective, frame_config)),
        Err(_) => Err(
            LocalExecutorError::InvalidConfig {
                reason: "effective local receive limits are inconsistent",
            },
        ),
    }
}

/// What constructing a ledger gives, checked in order: the compilation
/// bounds, the output-frame capacity, service quiescence, the service
/// capacities against its queue bound, and their sum. On success: the live
/// correlation capacity and the local compilation bounds.
pub open spec fn spec_ledger_bounds(
    config: LocalExecutorConfig,
    effective_config: LocalFrameConfig,
    service_compilation_limits: CompilationLimits,
    receive_compilation_limits: CompilationLimits,
    service_queue_capacity: u32,
    service_command_capacity: u32,
    service_observation_capacity: u32,
    snapshot: ServiceSnapshot,
) -> Result<(u32, CompilationLimits), LocalExecutorError> {
    let compilation = match spec_intersect_compilation(
        config.compilation_limits,
        service_compilation_limits,
    ) {
        Err(e) => Err(e),
        Ok(limits) => spec_intersect_compilation(limits, receive_compilation_limits),
    };
    let sum = (service_command_capacity + service_observation_capacity) as nat;
    let live = min_nat(
        min_nat(
            config.max_live_correlations as nat,
            effective_config.runtime_limits.max_queue_capacity as nat,
        ),
        sum,
    );
    if compilation is Err {
        Err(LocalExecutorError::InvalidConfig { reason: "compilation limits are inconsistent" })
    } else if config.max_output_frames_per_call != MAX_OUTPUT_FRAMES_PER_CALL {
        Err(
            LocalExecutorError::InvalidConfig {
                reason: "output frame capacity must match the protocol maximum",
            },
        )
    } else if snapshot.command_depth != 0 || snapshot.outstanding_observations != 0 {
        Err(
            LocalExecutorError::ServiceNotQuiescent {
                commands: snapshot.command_depth,
                observations: snapshot.outstanding_observations,
            },
        )
    } else if service_command_capacity > service_queue_capacity || service_observation_capacity
        > service_queue_capacity {
        Err(
            LocalExecutorError::InvalidConfig {
                reason: "service capacity exceeds its runtime queue bound",
            },
        )
    } else if sum > u32::MAX {
        Err(LocalExecutorError::InvalidConfig { reason: "combined service capacity overflowed" })
    } else if live == 0 {
        Err(LocalExecutorError::InvalidConfig { reason: "combined service capacity is zero" })
    } else {
        Ok((live as u32, compilation->Ok_0))
    }
}

/// The caller-driven session ledger.
pub struct SessionLedger {
    phase: LocalExecutorPhase,
    schema_version: u16,
    receive_config: LocalFrameConfig,
    local_compilation_limits: CompilationLimits,
    negotiated_limits: Option<LocalSessionLimits>,
    negotiated_compilation_limits: Option<CompilationLimits>,
    session_frame_config: LocalFrameConfig,
    max_live_correlations: u32,
    max_output_frames_per_call: u32,
    commands: Vec<PendingCommand>,
    observations: Vec<PendingObservation>,
}

impl SessionLedger {
    /// Lifecycle phase.
    pub closed spec fn phase(&self) -> LocalExecutorPhase {
        self.phase
    }

    /// Admitted commands awaiting output, oldest first.
    pub closed spec fn commands(&self) -> Seq<PendingCommand> {
        self.commands@
    }

    /// Accepted observations awaiting completion, oldest first.
    pub closed spec fn observations(&self) -> Seq<PendingObservation> {
        self.observations@
    }

    /// Live-correlation capacity.
    pub closed spec fn live_capacity(&self) -> u32 {
        self.max_live_correlations
    }

    /// Frames returned by one operation at most.
    pub closed spec fn output_capacity(&self) -> u32 {
        self.max_output_frames_per_call
    }

    /// Negotiated session schema version (meaningful once active).
    pub closed spec fn schema_version(&self) -> u16 {
        self.schema_version
    }

    /// Local receive policy used before negotiation.
    pub closed spec fn receive_config(&self) -> LocalFrameConfig {
        self.receive_config
    }

    /// Local compilation-result policy.
    pub closed spec fn local_compilation_limits(&self) -> CompilationLimits {
        self.local_compilation_limits
    }

    /// Negotiated limits, once a hello succeeded.
    pub closed spec fn negotiated(&self) -> Option<LocalSessionLimits> {
        self.negotiated_limits
    }

    /// Negotiated compilation bounds, in schema version two.
    pub closed spec fn negotiated_compilation(&self) -> Option<CompilationLimits> {
        self.negotiated_compilation_limits
    }

    /// Negotiated frame policy (meaningful once active).
    pub closed spec fn session_frame_config(&self) -> LocalFrameConfig {
        self.session_frame_config
    }

    /// Number of live correlations.
    pub open spec fn live_count(&self) -> nat {
        self.commands().len() + self.observations().len()
    }

    /// Whether `correlation_id` is live.
    pub open spec fn is_live(&self, correlation_id: u64) -> bool {
        ||| exists|i: int|
            0 <= i < self.commands().len() && self.commands()[i].correlation_id == correlation_id
        ||| exists|j: int|
            0 <= j < self.observations().len() && self.observations()[j].correlation_id
                == correlation_id
    }

    /// Whether a command with `key` is pending.
    pub open spec fn has_command(&self, key: u128) -> bool {
        exists|i: int| 0 <= i < self.commands().len() && self.commands()[i].idempotency_key == key
    }

    /// Whether an observation with `observation_id` is pending.
    pub open spec fn has_observation(&self, observation_id: u128) -> bool {
        exists|j: int|
            0 <= j < self.observations().len() && self.observations()[j].observation_id
                == observation_id
    }

    /// Live correlations within capacity, each owned by exactly one pending
    /// command or observation; no key or observation identity pending twice;
    /// nothing pending before the hello or after close.
    pub open spec fn wf(&self) -> bool {
        &&& self.live_count() <= self.live_capacity()
        &&& forall|i: int, j: int|
            0 <= i < j < self.commands().len() ==> #[trigger] self.commands()[i].idempotency_key
                != #[trigger] self.commands()[j].idempotency_key
        &&& forall|i: int, j: int|
            0 <= i < j < self.commands().len() ==> #[trigger] self.commands()[i].correlation_id
                != #[trigger] self.commands()[j].correlation_id
        &&& forall|i: int, j: int|
            0 <= i < j < self.observations().len() ==> #[trigger] self.observations()[i].observation_id
                != #[trigger] self.observations()[j].observation_id
        &&& forall|i: int, j: int|
            0 <= i < j < self.observations().len() ==> #[trigger] self.observations()[i].correlation_id
                != #[trigger] self.observations()[j].correlation_id
        &&& forall|i: int, j: int|
            0 <= i < self.commands().len() && 0 <= j < self.observations().len() ==> #[trigger] self.commands()[i].correlation_id
                != #[trigger] self.observations()[j].correlation_id
        &&& self.phase() == LocalExecutorPhase::AwaitingHello ==> {
            &&& self.negotiated() is None
            &&& self.negotiated_compilation() is None
            &&& self.live_count() == 0
        }
        &&& self.phase() != LocalExecutorPhase::AwaitingHello ==> self.negotiated() is Some
        &&& self.phase() == LocalExecutorPhase::Closed ==> self.live_count() == 0
    }

    /// Constructs the ledger of a new session over a quiescent service, given
    /// the effective receive policy and the compilation bounds the service
    /// and that policy admit.
    pub fn new(
        config: &LocalExecutorConfig,
        effective_config: LocalFrameConfig,
        service_compilation_limits: CompilationLimits,
        receive_compilation_limits: CompilationLimits,
        service_queue_capacity: u32,
        service_command_capacity: u32,
        service_observation_capacity: u32,
        snapshot: ServiceSnapshot,
    ) -> (ledger: Result<Self, LocalExecutorError>)
        ensures
            match spec_ledger_bounds(
                *config,
                effective_config,
                service_compilation_limits,
                receive_compilation_limits,
                service_queue_capacity,
                service_command_capacity,
                service_observation_capacity,
                snapshot,
            ) {
                Err(e) => ledger == Err::<Self, LocalExecutorError>(e),
                Ok((live, compilation)) => ledger is Ok && {
                    let l = ledger->Ok_0;
                    &&& l.wf()
                    &&& l.phase() == LocalExecutorPhase::AwaitingHello
                    &&& l.live_capacity() == live
                    &&& l.output_capacity() == config.max_output_frames_per_call
                    &&& l.receive_config() == effective_config
                    &&& l.local_compilation_limits() == compilation
                    &&& l.live_count() == 0
                },
            },
    {
        let compilation = match intersect_compilation_limits(
            config.compilation_limits,
            service_compilation_limits,
        ) {
            Ok(limits) => intersect_compilation_limits(limits, receive_compilation_limits),
            Err(e) => Err(e),
        };
        let compilation = match compilation {
            Ok(limits) => limits,
            Err(_) => {
                return Err(
                    LocalExecutorError::InvalidConfig { reason: "compilation limits are inconsistent" },
                );
            },
        };
        let mut max_live = min_u32(
            config.max_live_correlations,
            effective_config.runtime_limits.max_queue_capacity,
        );
        if config.max_output_frames_per_call as usize != MAX_OUTPUT_FRAMES_PER_CALL {
            return Err(
                LocalExecutorError::InvalidConfig {
                    reason: "output frame capacity must match the protocol maximum",
                },
            );
        }
        if snapshot.command_depth != 0 || snapshot.outstanding_observations != 0 {
            return Err(
                LocalExecutorError::ServiceNotQuiescent {
                    commands: snapshot.command_depth,
                    observations: snapshot.outstanding_observations,
                },
            );
        }
        if service_command_capacity > service_queue_capacity || service_observation_capacity
            > service_queue_capacity {
            return Err(
                LocalExecutorError::InvalidConfig {
                    reason: "service capacity exceeds its runtime queue bound",
                },
            );
        }
        let sum = match service_command_capacity.checked_add(service_observation_capacity) {
            Some(sum) => sum,
            None => {
                return Err(
                    LocalExecutorError::InvalidConfig {
                        reason: "combined service capacity overflowed",
                    },
                );
            },
        };
        max_live = min_u32(max_live, sum);
        if max_live == 0 {
            return Err(
                LocalExecutorError::InvalidConfig { reason: "combined service capacity is zero" },
            );
        }
        Ok(
            SessionLedger {
                phase: LocalExecutorPhase::AwaitingHello,
                schema_version: LOCAL_SESSION_SCHEMA_VERSION,
                receive_config: effective_config,
                local_compilation_limits: compilation,
                negotiated_limits: None,
                negotiated_compilation_limits: None,
                session_frame_config: effective_config,
                max_live_correlations: max_live,
                max_output_frames_per_call: config.max_output_frames_per_call,
                commands: Vec::new(),
                observations: Vec::new(),
            },
        )
    }

    /// Returns the lifecycle phase.
    pub fn current_phase(&self) -> (phase: LocalExecutorPhase)
        ensures
            phase == self.phase(),
    {
        self.phase
    }

    /// Returns the effective limits after a successful hello.
    pub fn negotiated_limits(&self) -> (limits: Option<LocalSessionLimits>)
        ensures
            limits == self.negotiated(),
    {
        self.negotiated_limits
    }

    /// Returns the effective compilation-result limits after a version-two hello.
    pub fn negotiated_compilation_limits(&self) -> (limits: Option<CompilationLimits>)
        ensures
            limits == self.negotiated_compilation(),
    {
        self.negotiated_compilation_limits
    }

    /// The frame policy incoming frames are decoded with: the local receive
    /// policy before the hello, the negotiated policy after.
    pub open spec fn spec_current_frame_config(&self) -> LocalFrameConfig {
        if self.phase() == LocalExecutorPhase::AwaitingHello {
            self.receive_config()
        } else {
            self.session_frame_config()
        }
    }

    /// Returns the frame policy incoming frames are decoded with.
    pub fn current_frame_config(&self) -> (config: LocalFrameConfig)
        ensures
            config == self.spec_current_frame_config(),
    {
        match self.phase {
            LocalExecutorPhase::AwaitingHello => self.receive_config,
            _ => self.session_frame_config,
        }
    }

    /// The context outgoing frames use: schema version one and the local
    /// receive policy before the hello, the negotiated values after.
    pub open spec fn spec_output_context(&self) -> SessionOutputContext {
        if self.phase() == LocalExecutorPhase::AwaitingHello {
            SessionOutputContext {
                schema_version: LOCAL_SESSION_SCHEMA_VERSION,
                frame_config: self.receive_config(),
                compilation_limits: None,
            }
        } else {
            SessionOutputContext {
                schema_version: self.schema_version(),
                frame_config: self.session_frame_config(),
                compilation_limits: self.negotiated_compilation(),
            }
        }
    }

    /// Returns the context outgoing frames use.
    pub fn output_context(&self) -> (context: SessionOutputContext)
        ensures
            context == self.spec_output_context(),
    {
        match self.phase {
            LocalExecutorPhase::AwaitingHello => SessionOutputContext {
                schema_version: LOCAL_SESSION_SCHEMA_VERSION,
                frame_config: self.receive_config,
                compilation_limits: None,
            },
            _ => SessionOutputContext {
                schema_version: self.schema_version,
                frame_config: self.session_frame_config,
                compilation_limits: self.negotiated_compilation_limits,
            },
        }
    }

    /// The number of pending commands of each kind: patches, imaginations.
    pub open spec fn pending_kind_count(commands: Seq<PendingCommand>, patches: bool) -> nat
        decreases commands.len(),
    {
        if commands.len() == 0 {
            0
        } else {
            Self::pending_kind_count(commands.drop_last(), patches) + if (commands.last().kind
                is Patch) == patches {
                1nat
            } else {
                0nat
            }
        }
    }

    proof fn lemma_kind_count_bound(commands: Seq<PendingCommand>, patches: bool)
        ensures
            Self::pending_kind_count(commands, patches) <= commands.len(),
        decreases commands.len(),
    {
        if commands.len() > 0 {
            Self::lemma_kind_count_bound(commands.drop_last(), patches);
        }
    }

    /// Returns the bounded occupancy of this session.
    pub fn status(&self) -> (status: LocalExecutorStatus)
        requires
            self.wf(),
        ensures
            status.phase == self.phase(),
            status.live_correlations == self.live_count(),
            status.live_correlation_capacity == self.live_capacity(),
            status.max_output_frames_per_call == self.output_capacity(),
            status.pending_patches == Self::pending_kind_count(self.commands(), true),
            status.pending_imaginations == Self::pending_kind_count(self.commands(), false),
            status.pending_observations == self.observations().len(),
    {
        let mut patches: u32 = 0;
        let mut imaginations: u32 = 0;
        let mut i: usize = 0;
        while i < self.commands.len()
            invariant
                i <= self.commands@.len(),
                self.commands@.len() <= u32::MAX,
                patches == Self::pending_kind_count(self.commands@.subrange(0, i as int), true),
                imaginations == Self::pending_kind_count(self.commands@.subrange(0, i as int), false),
            decreases self.commands@.len() - i,
        {
            let ghost prefix = self.commands@.subrange(0, i as int);
            let ghost next = self.commands@.subrange(0, i + 1);
            assert(next.drop_last() =~= prefix);
            proof {
                Self::lemma_kind_count_bound(prefix, true);
                Self::lemma_kind_count_bound(prefix, false);
            }
            match self.commands[i].kind {
                PendingKind::Patch => {
                    patches = patches + 1;
                },
                PendingKind::Imagination { .. } => {
                    imaginations = imaginations + 1;
                },
            }
            i = i + 1;
        }
        assert(self.commands@.subrange(0, self.commands@.len() as int) =~= self.commands@);
        LocalExecutorStatus {
            phase: self.phase,
            live_correlations: (self.commands.len() + self.observations.len()) as u32,
            live_correlation_capacity: self.max_live_correlations,
            max_output_frames_per_call: self.max_output_frames_per_call,
            pending_patches: patches,
            pending_imaginations: imaginations,
            pending_observations: self.observations.len() as u32,
        }
    }

    /// Whether the owned service may be released: the session closed and no
    /// correlation is live.
    pub fn can_release_service(&self) -> (allowed: bool)
        requires
            self.wf(),
        ensures
            allowed == (self.phase() == LocalExecutorPhase::Closed && self.live_count() == 0),
    {
        self.phase == LocalExecutorPhase::Closed && self.commands.len() + self.observations.len()
            == 0
    }
}


/// The kinds of client message.
#[derive(Debug, Clone, Copy, PartialEq, Eq, Structural)]
pub enum ClientMessageKind {
    /// Limits advertisement that opens the session.
    Hello,
    /// Explicit scene patch.
    SubmitPatch,
    /// Semantic imagination request.
    SubmitImagination,
    /// Exact-revision logical query.
    Query,
    /// Exact-revision observation request.
    RequestObservation,
    /// Orderly close.
    Close,
}

/// A processed command's response from the service.
#[derive(Debug, Clone, Copy, PartialEq, Eq, Structural)]
pub enum ServiceResponse {
    /// An explicit patch was applied.
    PatchApplied { receipt: ReceiptSummary },
    /// An imagination was compiled, and its patch applied when one resulted.
    ImaginationProcessed { compilation: CompilationSummary, receipt: Option<ReceiptSummary> },
}

/// The service's immediate answer to a submitted command.
#[derive(Debug, Clone, Copy, PartialEq, Eq, Structural)]
pub enum ServiceAdmission {
    /// Appended to the service queue.
    Queued { idempotency_key: u128 },
    /// An identical command is already queued.
    AlreadyQueued { idempotency_key: u128 },
    /// Best-effort work dropped under pressure.
    Dropped { idempotency_key: u128 },
    /// Answered from a retained response.
    Replayed { response: ServiceResponse },
    /// Replaced an older uncommitted command in place.
    Superseded { idempotency_key: u128, superseded_idempotency_key: u128 },
}

/// What the session does with an admission.
#[derive(Debug, Clone, Copy, PartialEq, Eq, Structural)]
pub enum AdmissionDecision {
    /// Reply queued, then record the command with `commit_queued`.
    Queue { idempotency_key: u128 },
    /// Reply already queued; nothing changes.
    AlreadyQueued { idempotency_key: u128 },
    /// Reply dropped; nothing changes.
    Dropped { idempotency_key: u128 },
    /// Reply with the replayed patch receipt; nothing changes.
    ReplayPatch { receipt: ReceiptSummary },
    /// Reply with the replayed imagination completion when it is consistent,
    /// else with an internal failure; nothing changes.
    ReplayImagination { consistent: bool },
    /// Reply a rejection to the superseded correlation and superseded to the
    /// new one, then replace the command with `commit_supersession`.
    Supersede {
        idempotency_key: u128,
        superseded_idempotency_key: u128,
        superseded_correlation_id: u64,
    },
}

/// The outcome of a hello.
#[derive(Debug, Clone, Copy, PartialEq, Eq, Structural)]
pub enum HelloDecision {
    /// Reply with failure `code` in `context`; the session stays unopened.
    Reject { code: SessionFailureCode, context: SessionOutputContext },
    /// Negotiated: configure the service with the compilation limits (if
    /// any), reply, then open the session with `complete_hello`.
    Accept {
        limits: LocalSessionLimits,
        compilation_limits: Option<CompilationLimits>,
        frame_config: LocalFrameConfig,
    },
}

/// What the service reported for the oldest queued command.
#[derive(Debug, Clone, Copy, PartialEq, Eq, Structural)]
pub enum ServiceCompletion {
    /// The command was processed with this response.
    Processed(ServiceResponse),
    /// The service had no queued command.
    Missing,
    /// Processing failed with this code.
    Failed(SessionFailureCode),
}

/// The terminal reply to an advanced command.
#[derive(Debug, Clone, Copy, PartialEq, Eq, Structural)]
pub enum CompletionReply {
    /// The patch completed with this receipt.
    PatchCompleted { receipt: ReceiptSummary },
    /// The imagination completed consistently with its submission.
    ImaginationCompleted,
    /// The command failed with this code.
    Failure { code: SessionFailureCode },
}

/// The check of a processed imagination against its submission, in order:
/// negotiated compilation bounds, canonical result, identity, revision, and
/// matching patch and receipt roles. `Err` holds the invariant reason.
pub open spec fn spec_completion_check(
    submitted: SubmittedImagination,
    compilation: CompilationSummary,
    receipt: Option<ReceiptSummary>,
    expected_status: ApplyStatus,
    has_compilation_limits: bool,
) -> Result<(), &'static str> {
    if !has_compilation_limits {
        Err("imagination completion had no negotiated compilation limits")
    } else if !compilation.canonical {
        Err("service produced an invalid compilation result")
    } else if compilation.imagination_id != submitted.imagination_id {
        Err("processed imagination identity did not match local order")
    } else if compilation.scene_revision != submitted.base_revision {
        Err("processed imagination revision did not match submitted work")
    } else {
        match (compilation.patch, receipt) {
            (Some(patch), Some(r)) => if patch.idempotency_key == submitted.idempotency_key
                && patch.transaction_id == submitted.transaction_id && r.idempotency_key
                == submitted.idempotency_key && r.status == expected_status {
                Ok(())
            } else {
                Err("processed imagination result and receipt roles were inconsistent")
            },
            (None, None) => Ok(()),
            _ => Err("processed imagination result and receipt roles were inconsistent"),
        }
    }
}

/// Checks a processed imagination against its submission.
pub fn check_completion(
    submitted: SubmittedImagination,
    compilation: CompilationSummary,
    receipt: Option<ReceiptSummary>,
    expected_status: ApplyStatus,
    has_compilation_limits: bool,
) -> (result: Result<(), LocalExecutorError>)
    ensures
        match spec_completion_check(
            submitted,
            compilation,
            receipt,
            expected_status,
            has_compilation_limits,
        ) {
            Ok(()) => result == Ok::<(), LocalExecutorError>(()),
            Err(reason) => result == Err::<(), LocalExecutorError>(
                LocalExecutorError::StateInvariant { reason },
            ),
        },
{
    if !has_compilation_limits {
        return Err(
            LocalExecutorError::StateInvariant {
                reason: "imagination completion had no negotiated compilation limits",
            },
        );
    }
    if !compilation.canonical {
        return Err(
            LocalExecutorError::StateInvariant {
                reason: "service produced an invalid compilation result",
            },
        );
    }
    if compilation.imagination_id != submitted.imagination_id {
        return Err(
            LocalExecutorError::StateInvariant {
                reason: "processed imagination identity did not match local order",
            },
        );
    }
    if compilation.scene_revision != submitted.base_revision {
        return Err(
            LocalExecutorError::StateInvariant {
                reason: "processed imagination revision did not match submitted work",
            },
        );
    }
    let consistent = match (compilation.patch, receipt) {
        (Some(patch), Some(r)) => patch.idempotency_key == submitted.idempotency_key
            && patch.transaction_id == submitted.transaction_id && r.idempotency_key
            == submitted.idempotency_key
            && r.status == expected_status,
        (None, None) => true,
        _ => false,
    };
    if consistent {
        Ok(())
    } else {
        Err(
            LocalExecutorError::StateInvariant {
                reason: "processed imagination result and receipt roles were inconsistent",
            },
        )
    }
}

/// The terminal reply to the oldest command, given what the service
/// reported: a matching applied receipt completes a patch, a consistent
/// result completes an imagination, a service failure keeps its code, and
/// any disagreement is an internal failure.
pub open spec fn spec_completion_reply(
    pending: PendingCommand,
    completion: ServiceCompletion,
    has_compilation_limits: bool,
) -> CompletionReply {
    let internal = CompletionReply::Failure { code: SessionFailureCode::Internal };
    match completion {
        ServiceCompletion::Failed(code) => CompletionReply::Failure { code },
        ServiceCompletion::Missing => internal,
        ServiceCompletion::Processed(response) => match (pending.kind, response) {
            (PendingKind::Patch, ServiceResponse::PatchApplied { receipt }) => if receipt.idempotency_key
                == pending.idempotency_key && receipt.status == ApplyStatus::Applied {
                CompletionReply::PatchCompleted { receipt }
            } else {
                internal
            },
            (
                PendingKind::Imagination { submitted },
                ServiceResponse::ImaginationProcessed { compilation, receipt },
            ) => if spec_completion_check(
                submitted,
                compilation,
                receipt,
                ApplyStatus::Applied,
                has_compilation_limits,
            ) is Ok {
                CompletionReply::ImaginationCompleted
            } else {
                internal
            },
            _ => internal,
        },
    }
}

/// Returns the terminal reply to the oldest command.
pub fn completion_reply(
    pending: PendingCommand,
    completion: ServiceCompletion,
    has_compilation_limits: bool,
) -> (reply: CompletionReply)
    ensures
        reply == spec_completion_reply(pending, completion, has_compilation_limits),
{
    let internal = CompletionReply::Failure { code: SessionFailureCode::Internal };
    match completion {
        ServiceCompletion::Failed(code) => CompletionReply::Failure { code },
        ServiceCompletion::Missing => internal,
        ServiceCompletion::Processed(response) => match (pending.kind, response) {
            (PendingKind::Patch, ServiceResponse::PatchApplied { receipt }) => {
                if receipt.idempotency_key == pending.idempotency_key && receipt.status
                    == ApplyStatus::Applied {
                    CompletionReply::PatchCompleted { receipt }
                } else {
                    internal
                }
            },
            (
                PendingKind::Imagination { submitted },
                ServiceResponse::ImaginationProcessed { compilation, receipt },
            ) => {
                match check_completion(
                    submitted,
                    compilation,
                    receipt,
                    ApplyStatus::Applied,
                    has_compilation_limits,
                ) {
                    Ok(()) => CompletionReply::ImaginationCompleted,
                    Err(_) => internal,
                }
            },
            _ => internal,
        },
    }
}

fn identity_mismatch<T>() -> (result: Result<T, LocalExecutorError>)
    ensures
        result == Err::<T, LocalExecutorError>(
            LocalExecutorError::StateInvariant {
                reason: "gateway admission identity did not match submitted command",
            },
        ),
{
    Err(
        LocalExecutorError::StateInvariant {
            reason: "gateway admission identity did not match submitted command",
        },
    )
}

impl SessionLedger {
    /// What a hello gives in an unopened session, checked in order: the
    /// message must be a hello, its limits must negotiate against the local
    /// receive policy, and in schema version two its compilation bounds must
    /// be present and intersect the local compilation policy.
    pub open spec fn spec_hello_decision(
        &self,
        schema_version: u16,
        hello_limits: Option<(LocalSessionLimits, Option<CompilationLimits>)>,
    ) -> Result<HelloDecision, LocalExecutorError> {
        let pre = SessionOutputContext {
            schema_version,
            frame_config: self.receive_config(),
            compilation_limits: None,
        };
        match hello_limits {
            None => Ok(HelloDecision::Reject { code: SessionFailureCode::ProtocolState, context: pre }),
            Some((receive_limits, advertised)) => match receive_limits.spec_negotiate(
                self.receive_config(),
            ) {
                Err(_) => Ok(
                    HelloDecision::Reject { code: SessionFailureCode::LimitExceeded, context: pre },
                ),
                Ok(limits) => if limits.spec_check() is Err {
                    Err(
                        LocalExecutorError::InvalidConfig {
                            reason: "negotiated limits are inconsistent",
                        },
                    )
                } else if schema_version == LOCAL_SESSION_SCHEMA_VERSION_V2 {
                    match advertised {
                        None => Ok(
                            HelloDecision::Reject {
                                code: SessionFailureCode::InvalidMessage,
                                context: pre,
                            },
                        ),
                        Some(advertised) => match spec_intersect_compilation(
                            advertised,
                            self.local_compilation_limits(),
                        ) {
                            Err(_) => Ok(
                                HelloDecision::Reject {
                                    code: SessionFailureCode::LimitExceeded,
                                    context: pre,
                                },
                            ),
                            Ok(compilation) => Ok(
                                HelloDecision::Accept {
                                    limits,
                                    compilation_limits: Some(compilation),
                                    frame_config: limits.spec_frame_config(),
                                },
                            ),
                        },
                    }
                } else {
                    Ok(
                        HelloDecision::Accept {
                            limits,
                            compilation_limits: None,
                            frame_config: limits.spec_frame_config(),
                        },
                    )
                },
            },
        }
    }

    /// Decides the first message of an unopened session. `hello_limits`
    /// holds the hello's receive limits and advertised compilation bounds, or
    /// is `None` when the message is not a hello.
    pub fn decide_hello(
        &self,
        schema_version: u16,
        hello_limits: Option<(LocalSessionLimits, Option<CompilationLimits>)>,
    ) -> (decision: Result<HelloDecision, LocalExecutorError>)
        ensures
            decision == self.spec_hello_decision(schema_version, hello_limits),
    {
        let pre = SessionOutputContext {
            schema_version,
            frame_config: self.receive_config,
            compilation_limits: None,
        };
        let (receive_limits, advertised) = match hello_limits {
            None => {
                return Ok(
                    HelloDecision::Reject { code: SessionFailureCode::ProtocolState, context: pre },
                );
            },
            Some(hello) => hello,
        };
        let limits = match receive_limits.negotiate(&self.receive_config) {
            Ok(limits) => limits,
            Err(_) => {
                return Ok(
                    HelloDecision::Reject { code: SessionFailureCode::LimitExceeded, context: pre },
                );
            },
        };
        let frame_config = match limits.to_frame_config() {
            Ok(config) => config,
            Err(_) => {
                return Err(
                    LocalExecutorError::InvalidConfig { reason: "negotiated limits are inconsistent" },
                );
            },
        };
        if schema_version == LOCAL_SESSION_SCHEMA_VERSION_V2 {
            let advertised = match advertised {
                None => {
                    return Ok(
                        HelloDecision::Reject {
                            code: SessionFailureCode::InvalidMessage,
                            context: pre,
                        },
                    );
                },
                Some(advertised) => advertised,
            };
            match intersect_compilation_limits(advertised, self.local_compilation_limits) {
                Ok(compilation) => Ok(
                    HelloDecision::Accept {
                        limits,
                        compilation_limits: Some(compilation),
                        frame_config,
                    },
                ),
                Err(_) => Ok(
                    HelloDecision::Reject { code: SessionFailureCode::LimitExceeded, context: pre },
                ),
            }
        } else {
            Ok(HelloDecision::Accept { limits, compilation_limits: None, frame_config })
        }
    }

    /// Opens the session after an accepted hello was answered, with the
    /// limits, compilation limits, and frame configuration of an `Accept`
    /// that `decide_hello` gives in this state.
    pub fn complete_hello(
        &mut self,
        schema_version: u16,
        limits: LocalSessionLimits,
        compilation_limits: Option<CompilationLimits>,
        frame_config: LocalFrameConfig,
    )
        requires
            old(self).wf(),
            old(self).phase() == LocalExecutorPhase::AwaitingHello,
            exists|hello: Option<(LocalSessionLimits, Option<CompilationLimits>)>|
                #[trigger] old(self).spec_hello_decision(schema_version, hello) == Ok::<
                    HelloDecision,
                    LocalExecutorError,
                >(HelloDecision::Accept { limits, compilation_limits, frame_config }),
        ensures
            final(self).wf(),
            final(self).phase() == LocalExecutorPhase::Active,
            final(self).schema_version() == schema_version,
            final(self).negotiated() == Some(limits),
            final(self).negotiated_compilation() == compilation_limits,
            final(self).session_frame_config() == frame_config,
            final(self).commands() == old(self).commands(),
            final(self).observations() == old(self).observations(),
            final(self).live_capacity() == old(self).live_capacity(),
            final(self).output_capacity() == old(self).output_capacity(),
            final(self).receive_config() == old(self).receive_config(),
            final(self).local_compilation_limits() == old(self).local_compilation_limits(),
    {
        self.phase = LocalExecutorPhase::Active;
        self.schema_version = schema_version;
        self.negotiated_limits = Some(limits);
        self.negotiated_compilation_limits = compilation_limits;
        self.session_frame_config = frame_config;
    }

    fn find_command(&self, key: u128) -> (index: Option<usize>)
        ensures
            match index {
                Some(i) => i < self.commands().len() && self.commands()[i as int].idempotency_key
                    == key,
                None => !self.has_command(key),
            },
    {
        let mut i: usize = 0;
        while i < self.commands.len()
            invariant
                i <= self.commands@.len(),
                forall|j: int| 0 <= j < i ==> self.commands@[j].idempotency_key != key,
            decreases self.commands@.len() - i,
        {
            if self.commands[i].idempotency_key == key {
                return Some(i);
            }
            i = i + 1;
        }
        None
    }

    fn find_observation(&self, observation_id: u128) -> (index: Option<usize>)
        ensures
            match index {
                Some(i) => i < self.observations().len()
                    && self.observations()[i as int].observation_id == observation_id,
                None => !self.has_observation(observation_id),
            },
    {
        let mut i: usize = 0;
        while i < self.observations.len()
            invariant
                i <= self.observations@.len(),
                forall|j: int| 0 <= j < i ==> self.observations@[j].observation_id != observation_id,
            decreases self.observations@.len() - i,
        {
            if self.observations[i].observation_id == observation_id {
                return Some(i);
            }
            i = i + 1;
        }
        None
    }

    fn correlation_is_live(&self, correlation_id: u64) -> (live: bool)
        ensures
            live == self.is_live(correlation_id),
    {
        let mut i: usize = 0;
        while i < self.commands.len()
            invariant
                i <= self.commands@.len(),
                forall|j: int| 0 <= j < i ==> self.commands@[j].correlation_id != correlation_id,
            decreases self.commands@.len() - i,
        {
            if self.commands[i].correlation_id == correlation_id {
                return true;
            }
            i = i + 1;
        }
        let mut k: usize = 0;
        while k < self.observations.len()
            invariant
                k <= self.observations@.len(),
                forall|j: int| 0 <= j < self.commands@.len() ==> self.commands@[j].correlation_id
                    != correlation_id,
                forall|j: int| 0 <= j < k ==> self.observations@[j].correlation_id != correlation_id,
            decreases self.observations@.len() - k,
        {
            if self.observations[k].correlation_id == correlation_id {
                assert(self.observations()[k as int].correlation_id == correlation_id);
                return true;
            }
            k = k + 1;
        }
        false
    }

    /// What an active session answers before any service work, checked in
    /// order: the negotiated schema version, a correlation already live, and
    /// a second hello.
    pub open spec fn spec_active_check(
        &self,
        correlation_id: u64,
        schema_version: u16,
        kind: ClientMessageKind,
    ) -> Result<(), SessionFailureCode> {
        if schema_version != self.schema_version() {
            Err(SessionFailureCode::UnsupportedVersion)
        } else if self.is_live(correlation_id) {
            Err(SessionFailureCode::ProtocolState)
        } else if kind == ClientMessageKind::Hello {
            Err(SessionFailureCode::ProtocolState)
        } else {
            Ok(())
        }
    }

    /// Checks a decoded message of an active session before service work.
    pub fn check_active_message(
        &self,
        correlation_id: u64,
        schema_version: u16,
        kind: ClientMessageKind,
    ) -> (result: Result<(), SessionFailureCode>)
        ensures
            result == self.spec_active_check(correlation_id, schema_version, kind),
    {
        if schema_version != self.schema_version {
            return Err(SessionFailureCode::UnsupportedVersion);
        }
        if self.correlation_is_live(correlation_id) {
            return Err(SessionFailureCode::ProtocolState);
        }
        if kind == ClientMessageKind::Hello {
            return Err(SessionFailureCode::ProtocolState);
        }
        Ok(())
    }

    /// Whether a new command is refused for capacity before reaching the
    /// service: every live correlation is taken while the service queue
    /// itself still has room.
    pub fn command_capacity_reached(&self, service_depth: u32, service_capacity: u32) -> (reached:
        bool)
        requires
            self.wf(),
        ensures
            reached == (self.live_count() >= self.live_capacity() && service_depth
                < service_capacity),
    {
        (self.commands.len() + self.observations.len()) as u64 >= self.max_live_correlations as u64
            && service_depth < service_capacity
    }

    /// Imagination needs schema version two with negotiated compilation bounds.
    pub fn check_imagination_version(&self) -> (result: Result<(), SessionFailureCode>)
        ensures
            result is Ok <==> (self.schema_version() == LOCAL_SESSION_SCHEMA_VERSION_V2
                && self.negotiated_compilation() is Some),
            result is Err ==> result == Err::<(), SessionFailureCode>(
                SessionFailureCode::UnsupportedVersion,
            ),
    {
        if self.schema_version != LOCAL_SESSION_SCHEMA_VERSION_V2
            || self.negotiated_compilation_limits.is_none() {
            Err(SessionFailureCode::UnsupportedVersion)
        } else {
            Ok(())
        }
    }
}


impl SessionLedger {
    /// The pending command with `key`, if any.
    pub open spec fn command_with_key(&self, key: u128) -> Option<PendingCommand> {
        if self.has_command(key) {
            Some(
                self.commands()[choose|i: int|
                    0 <= i < self.commands().len() && self.commands()[i].idempotency_key == key],
            )
        } else {
            None
        }
    }

    /// The position of the pending command with `key` (meaningful when one is pending).
    pub open spec fn command_index(&self, key: u128) -> int {
        choose|i: int| 0 <= i < self.commands().len() && self.commands()[i].idempotency_key == key
    }

    /// The pending observation with `observation_id`, if any.
    pub open spec fn observation_with_id(&self, observation_id: u128) -> Option<PendingObservation> {
        if self.has_observation(observation_id) {
            Some(self.observations()[self.observation_index(observation_id)])
        } else {
            None
        }
    }

    /// The position of the pending observation with `observation_id`
    /// (meaningful when one is pending).
    pub open spec fn observation_index(&self, observation_id: u128) -> int {
        choose|j: int|
            0 <= j < self.observations().len() && self.observations()[j].observation_id
                == observation_id
    }

    proof fn lemma_command_index(&self, i: int)
        requires
            self.wf(),
            0 <= i < self.commands().len(),
        ensures
            self.has_command(self.commands()[i].idempotency_key),
            self.command_index(self.commands()[i].idempotency_key) == i,
            self.command_with_key(self.commands()[i].idempotency_key) == Some(self.commands()[i]),
    {
        let key = self.commands()[i].idempotency_key;
        assert(self.has_command(key));
        let k = self.command_index(key);
        if k < i {
            assert(self.commands()[k].idempotency_key != self.commands()[i].idempotency_key);
        } else if i < k {
            assert(self.commands()[i].idempotency_key != self.commands()[k].idempotency_key);
        }
    }

    proof fn lemma_observation_index(&self, j: int)
        requires
            self.wf(),
            0 <= j < self.observations().len(),
        ensures
            self.has_observation(self.observations()[j].observation_id),
            self.observation_index(self.observations()[j].observation_id) == j,
            self.observation_with_id(self.observations()[j].observation_id) == Some(
                self.observations()[j],
            ),
    {
        let id = self.observations()[j].observation_id;
        assert(self.has_observation(id));
        let k = self.observation_index(id);
        if k < j {
            assert(self.observations()[k].observation_id != self.observations()[j].observation_id);
        } else if j < k {
            assert(self.observations()[j].observation_id != self.observations()[k].observation_id);
        }
    }

    /// What the session does with the service's answer to a command of
    /// `kind` submitted under `submitted_key`. Every answer must carry the
    /// submitted key; a queued command must fit the service's declared
    /// capacity; an already-queued one must be pending as the same command;
    /// a replay must be of the same kind; a superseded command must be
    /// pending.
    pub open spec fn spec_admission_decision(
        &self,
        kind: PendingKind,
        submitted_key: u128,
        admission: ServiceAdmission,
        service_capacity: u32,
    ) -> Result<AdmissionDecision, LocalExecutorError> {
        let mismatch = Err(
            LocalExecutorError::StateInvariant {
                reason: "gateway admission identity did not match submitted command",
            },
        );
        let is_patch = kind is Patch;
        match admission {
            ServiceAdmission::Queued { idempotency_key } => if idempotency_key != submitted_key {
                mismatch
            } else if spec_count(self.commands().len()) >= service_capacity {
                Err(
                    LocalExecutorError::StateInvariant {
                        reason: if is_patch {
                            "service queued a patch beyond its declared capacity"
                        } else {
                            "service queued an imagination beyond its declared capacity"
                        },
                    },
                )
            } else {
                Ok(AdmissionDecision::Queue { idempotency_key })
            },
            ServiceAdmission::AlreadyQueued { idempotency_key } => if idempotency_key
                != submitted_key {
                mismatch
            } else if self.command_with_key(idempotency_key) matches Some(p) && p.kind == kind {
                Ok(AdmissionDecision::AlreadyQueued { idempotency_key })
            } else {
                Err(
                    LocalExecutorError::StateInvariant {
                        reason: if is_patch {
                            "already-queued patch had no live correlation"
                        } else {
                            "already-queued imagination had no matching live correlation"
                        },
                    },
                )
            },
            ServiceAdmission::Dropped { idempotency_key } => if idempotency_key != submitted_key {
                mismatch
            } else {
                Ok(AdmissionDecision::Dropped { idempotency_key })
            },
            ServiceAdmission::Replayed { response } => match (kind, response) {
                (PendingKind::Patch, ServiceResponse::PatchApplied { receipt }) => if receipt.idempotency_key
                    != submitted_key {
                    mismatch
                } else {
                    Ok(AdmissionDecision::ReplayPatch { receipt })
                },
                (PendingKind::Patch, _) => Err(
                    LocalExecutorError::StateInvariant {
                        reason: "patch admission replayed a non-patch response",
                    },
                ),
                (
                    PendingKind::Imagination { submitted },
                    ServiceResponse::ImaginationProcessed { compilation, receipt },
                ) => Ok(
                    AdmissionDecision::ReplayImagination {
                        consistent: spec_completion_check(
                            submitted,
                            compilation,
                            receipt,
                            ApplyStatus::IdempotentReplay,
                            self.negotiated_compilation() is Some,
                        ) is Ok,
                    },
                ),
                (PendingKind::Imagination { .. }, _) => Err(
                    LocalExecutorError::StateInvariant {
                        reason: "imagination admission replayed a non-imagination response",
                    },
                ),
            },
            ServiceAdmission::Superseded { idempotency_key, superseded_idempotency_key } => if idempotency_key
                != submitted_key {
                mismatch
            } else {
                match self.command_with_key(superseded_idempotency_key) {
                    None => Err(
                        LocalExecutorError::StateInvariant {
                            reason: if is_patch {
                                "superseded patch had no live correlation"
                            } else {
                                "superseded command had no live correlation"
                            },
                        },
                    ),
                    Some(p) => Ok(
                        AdmissionDecision::Supersede {
                            idempotency_key,
                            superseded_idempotency_key,
                            superseded_correlation_id: p.correlation_id,
                        },
                    ),
                }
            },
        }
    }

    /// Decides what the service's answer to a submitted command means for
    /// the session.
    pub fn decide_admission(
        &self,
        kind: PendingKind,
        submitted_key: u128,
        admission: ServiceAdmission,
        service_capacity: u32,
    ) -> (decision: Result<AdmissionDecision, LocalExecutorError>)
        requires
            self.wf(),
        ensures
            decision == self.spec_admission_decision(kind, submitted_key, admission, service_capacity),
    {
        let is_patch = match kind {
            PendingKind::Patch => true,
            PendingKind::Imagination { .. } => false,
        };
        match admission {
            ServiceAdmission::Queued { idempotency_key } => {
                if idempotency_key != submitted_key {
                    return identity_mismatch();
                }
                if count(self.commands.len()) >= service_capacity {
                    return Err(
                        LocalExecutorError::StateInvariant {
                            reason: if is_patch {
                                "service queued a patch beyond its declared capacity"
                            } else {
                                "service queued an imagination beyond its declared capacity"
                            },
                        },
                    );
                }
                Ok(AdmissionDecision::Queue { idempotency_key })
            },
            ServiceAdmission::AlreadyQueued { idempotency_key } => {
                if idempotency_key != submitted_key {
                    return identity_mismatch();
                }
                let matches_pending = match self.find_command(idempotency_key) {
                    Some(i) => {
                        proof {
                            self.lemma_command_index(i as int);
                        }
                        self.commands[i].kind == kind
                    },
                    None => false,
                };
                if matches_pending {
                    Ok(AdmissionDecision::AlreadyQueued { idempotency_key })
                } else {
                    Err(
                        LocalExecutorError::StateInvariant {
                            reason: if is_patch {
                                "already-queued patch had no live correlation"
                            } else {
                                "already-queued imagination had no matching live correlation"
                            },
                        },
                    )
                }
            },
            ServiceAdmission::Dropped { idempotency_key } => {
                if idempotency_key != submitted_key {
                    return identity_mismatch();
                }
                Ok(AdmissionDecision::Dropped { idempotency_key })
            },
            ServiceAdmission::Replayed { response } => match (kind, response) {
                (PendingKind::Patch, ServiceResponse::PatchApplied { receipt }) => {
                    if receipt.idempotency_key != submitted_key {
                        return identity_mismatch();
                    }
                    Ok(AdmissionDecision::ReplayPatch { receipt })
                },
                (PendingKind::Patch, _) => Err(
                    LocalExecutorError::StateInvariant {
                        reason: "patch admission replayed a non-patch response",
                    },
                ),
                (
                    PendingKind::Imagination { submitted },
                    ServiceResponse::ImaginationProcessed { compilation, receipt },
                ) => {
                    let consistent = check_completion(
                        submitted,
                        compilation,
                        receipt,
                        ApplyStatus::IdempotentReplay,
                        self.negotiated_compilation_limits.is_some(),
                    ).is_ok();
                    Ok(AdmissionDecision::ReplayImagination { consistent })
                },
                (PendingKind::Imagination { .. }, _) => Err(
                    LocalExecutorError::StateInvariant {
                        reason: "imagination admission replayed a non-imagination response",
                    },
                ),
            },
            ServiceAdmission::Superseded { idempotency_key, superseded_idempotency_key } => {
                if idempotency_key != submitted_key {
                    return identity_mismatch();
                }
                match self.find_command(superseded_idempotency_key) {
                    None => Err(
                        LocalExecutorError::StateInvariant {
                            reason: if is_patch {
                                "superseded patch had no live correlation"
                            } else {
                                "superseded command had no live correlation"
                            },
                        },
                    ),
                    Some(i) => {
                        proof {
                            self.lemma_command_index(i as int);
                        }
                        Ok(
                            AdmissionDecision::Supersede {
                                idempotency_key,
                                superseded_idempotency_key,
                                superseded_correlation_id: self.commands[i].correlation_id,
                            },
                        )
                    },
                }
            },
        }
    }
}


/// The reason reported when a correlation cannot be reserved.
pub open spec fn reservation_failure() -> LocalExecutorError {
    LocalExecutorError::StateInvariant { reason: "live correlation reservation failed" }
}

impl SessionLedger {
    /// Whether `correlation_id` is live in some command other than the one at
    /// position `skip`, or in some observation.
    pub open spec fn is_live_except_command(&self, correlation_id: u64, skip: int) -> bool {
        ||| exists|i: int|
            0 <= i < self.commands().len() && i != skip && self.commands()[i].correlation_id
                == correlation_id
        ||| exists|j: int|
            0 <= j < self.observations().len() && self.observations()[j].correlation_id
                == correlation_id
    }

    fn correlation_is_live_except(&self, correlation_id: u64, skip: usize) -> (live: bool)
        ensures
            live == self.is_live_except_command(correlation_id, skip as int),
    {
        let mut i: usize = 0;
        while i < self.commands.len()
            invariant
                i <= self.commands@.len(),
                forall|j: int|
                    0 <= j < i && j != skip ==> self.commands@[j].correlation_id != correlation_id,
            decreases self.commands@.len() - i,
        {
            if i != skip && self.commands[i].correlation_id == correlation_id {
                assert(self.commands()[i as int].correlation_id == correlation_id);
                return true;
            }
            i = i + 1;
        }
        let mut k: usize = 0;
        while k < self.observations.len()
            invariant
                k <= self.observations@.len(),
                forall|j: int|
                    0 <= j < self.commands@.len() && j != skip ==> self.commands@[j].correlation_id
                        != correlation_id,
                forall|j: int| 0 <= j < k ==> self.observations@[j].correlation_id != correlation_id,
            decreases self.observations@.len() - k,
        {
            if self.observations[k].correlation_id == correlation_id {
                assert(self.observations()[k as int].correlation_id == correlation_id);
                return true;
            }
            k = k + 1;
        }
        false
    }

    /// Records a queued command under a new live correlation. The
    /// correlation must be free and within capacity, and the key not pending.
    pub fn commit_queued(&mut self, correlation_id: u64, idempotency_key: u128, kind: PendingKind) -> (result:
        Result<(), LocalExecutorError>)
        requires
            old(self).wf(),
            old(self).phase() == LocalExecutorPhase::Active,
        ensures
            final(self).wf(),
            final(self).phase() == old(self).phase(),
            final(self).observations() == old(self).observations(),
            final(self).live_capacity() == old(self).live_capacity(),
            final(self).spec_output_context() == old(self).spec_output_context(),
            if old(self).live_count() >= old(self).live_capacity() || old(self).is_live(
                correlation_id,
            ) {
                &&& result == Err::<(), LocalExecutorError>(reservation_failure())
                &&& final(self).commands() == old(self).commands()
            } else if old(self).has_command(idempotency_key) {
                &&& result == Err::<(), LocalExecutorError>(
                    LocalExecutorError::StateInvariant {
                        reason: "service queued a command that is already pending",
                    },
                )
                &&& final(self).commands() == old(self).commands()
            } else {
                &&& result == Ok::<(), LocalExecutorError>(())
                &&& final(self).commands() == old(self).commands().push(
                    PendingCommand { idempotency_key, correlation_id, kind },
                )
            },
    {
        if (self.commands.len() + self.observations.len()) as u64 >= self.max_live_correlations as u64
            || self.correlation_is_live(correlation_id) {
            return Err(
                LocalExecutorError::StateInvariant { reason: "live correlation reservation failed" },
            );
        }
        if self.find_command(idempotency_key).is_some() {
            return Err(
                LocalExecutorError::StateInvariant {
                    reason: "service queued a command that is already pending",
                },
            );
        }
        let ghost before = self.commands@;
        self.commands.push(PendingCommand { idempotency_key, correlation_id, kind });
        proof {
            assert forall|i: int| 0 <= i < before.len() implies #[trigger] before[i].correlation_id
                != correlation_id by {
                assert(self.commands@[i] == before[i]);
            }
            assert forall|i: int| 0 <= i < before.len() implies #[trigger] before[i].idempotency_key
                != idempotency_key by {
                assert(self.commands@[i] == before[i]);
            }
        }
        Ok(())
    }

    /// Replaces a superseded command, in place, by its successor under a new
    /// live correlation; the superseded correlation is released.
    pub fn commit_supersession(
        &mut self,
        correlation_id: u64,
        idempotency_key: u128,
        superseded_idempotency_key: u128,
        kind: PendingKind,
    ) -> (result: Result<(), LocalExecutorError>)
        requires
            old(self).wf(),
            old(self).phase() == LocalExecutorPhase::Active,
        ensures
            final(self).wf(),
            final(self).phase() == old(self).phase(),
            final(self).observations() == old(self).observations(),
            final(self).live_capacity() == old(self).live_capacity(),
            final(self).spec_output_context() == old(self).spec_output_context(),
            !old(self).has_command(superseded_idempotency_key) ==> {
                &&& result == Err::<(), LocalExecutorError>(
                    LocalExecutorError::StateInvariant {
                        reason: if kind is Patch {
                            "superseded patch was absent from local order"
                        } else {
                            "superseded command was absent from local order"
                        },
                    },
                )
                &&& final(self).commands() == old(self).commands()
            },
            old(self).has_command(superseded_idempotency_key) ==> {
                let i = old(self).command_index(superseded_idempotency_key);
                if old(self).is_live_except_command(correlation_id, i) || (idempotency_key
                    != superseded_idempotency_key && old(self).has_command(idempotency_key)) {
                    &&& result == Err::<(), LocalExecutorError>(reservation_failure())
                    &&& final(self).commands() == old(self).commands()
                } else {
                    &&& result == Ok::<(), LocalExecutorError>(())
                    &&& final(self).commands() == old(self).commands().update(
                        i,
                        PendingCommand { idempotency_key, correlation_id, kind },
                    )
                }
            },
    {
        let i = match self.find_command(superseded_idempotency_key) {
            Some(i) => i,
            None => {
                return Err(
                    LocalExecutorError::StateInvariant {
                        reason: match kind {
                            PendingKind::Patch => "superseded patch was absent from local order",
                            PendingKind::Imagination { .. } => "superseded command was absent from local order",
                        },
                    },
                );
            },
        };
        proof {
            self.lemma_command_index(i as int);
        }
        if self.correlation_is_live_except(correlation_id, i) {
            return Err(
                LocalExecutorError::StateInvariant { reason: "live correlation reservation failed" },
            );
        }
        if idempotency_key != superseded_idempotency_key && self.find_command(
            idempotency_key,
        ).is_some() {
            return Err(
                LocalExecutorError::StateInvariant { reason: "live correlation reservation failed" },
            );
        }
        let ghost before = self.commands@;
        self.commands.set(i, PendingCommand { idempotency_key, correlation_id, kind });
        proof {
            assert forall|a: int, b: int|
                0 <= a < b < self.commands@.len() implies #[trigger] self.commands@[a].idempotency_key
                != #[trigger] self.commands@[b].idempotency_key by {
                if a != i && b != i {
                    assert(before[a].idempotency_key != before[b].idempotency_key);
                } else if a == i {
                    if idempotency_key == superseded_idempotency_key {
                        assert(before[a].idempotency_key != before[b].idempotency_key);
                    } else {
                        assert(self.commands@[b] == before[b]);
                    }
                } else {
                    if idempotency_key == superseded_idempotency_key {
                        assert(before[a].idempotency_key != before[b].idempotency_key);
                    } else {
                        assert(self.commands@[a] == before[a]);
                    }
                }
            }
            assert forall|a: int, b: int|
                0 <= a < b < self.commands@.len() implies #[trigger] self.commands@[a].correlation_id
                != #[trigger] self.commands@[b].correlation_id by {
                if a != i && b != i {
                    assert(before[a].correlation_id != before[b].correlation_id);
                } else if a == i {
                    assert(self.commands@[b] == before[b]);
                } else {
                    assert(self.commands@[a] == before[a]);
                }
            }
            assert forall|a: int, b: int|
                0 <= a < self.commands@.len() && 0 <= b < self.observations@.len() implies #[trigger] self.commands@[a].correlation_id
                != #[trigger] self.observations@[b].correlation_id by {
                if a != i {
                    assert(before[a].correlation_id != self.observations@[b].correlation_id);
                }
            }
        }
        Ok(())
    }

    /// Removes and returns the oldest pending command, releasing its correlation.
    pub fn take_next_command(&mut self) -> (pending: Option<PendingCommand>)
        requires
            old(self).wf(),
        ensures
            final(self).wf(),
            final(self).phase() == old(self).phase(),
            final(self).observations() == old(self).observations(),
            final(self).live_capacity() == old(self).live_capacity(),
            final(self).spec_output_context() == old(self).spec_output_context(),
            old(self).commands().len() == 0 ==> pending is None && final(self).commands() == old(
                self,
            ).commands(),
            old(self).commands().len() > 0 ==> {
                &&& pending == Some(old(self).commands()[0])
                &&& final(self).commands() == old(self).commands().drop_first()
                &&& !final(self).is_live(old(self).commands()[0].correlation_id)
            },
    {
        if self.commands.len() == 0 {
            return None;
        }
        let ghost before = self.commands@;
        let first = self.commands.remove(0);
        proof {
            assert(self.commands@ =~= before.drop_first());
            let c = first.correlation_id;
            assert forall|i: int| 0 <= i < self.commands@.len() implies self.commands@[i].correlation_id
                != c by {
                assert(self.commands@[i] == before[i + 1]);
                assert(before[0].correlation_id != before[i + 1].correlation_id);
            }
            assert forall|j: int| 0 <= j < self.observations@.len() implies self.observations@[j].correlation_id
                != c by {
                assert(before[0].correlation_id != self.observations@[j].correlation_id);
            }
            assert forall|a: int, b: int|
                0 <= a < b < self.commands@.len() implies #[trigger] self.commands@[a].idempotency_key
                != #[trigger] self.commands@[b].idempotency_key by {
                assert(before[a + 1].idempotency_key != before[b + 1].idempotency_key);
            }
            assert forall|a: int, b: int|
                0 <= a < b < self.commands@.len() implies #[trigger] self.commands@[a].correlation_id
                != #[trigger] self.commands@[b].correlation_id by {
                assert(before[a + 1].correlation_id != before[b + 1].correlation_id);
            }
            assert forall|a: int, b: int|
                0 <= a < self.commands@.len() && 0 <= b < self.observations@.len() implies #[trigger] self.commands@[a].correlation_id
                != #[trigger] self.observations@[b].correlation_id by {
                assert(before[a + 1].correlation_id != self.observations@[b].correlation_id);
            }
        }
        Some(first)
    }
}


/// The index of the first observation whose pending notice was not sent.
pub open spec fn first_unreported(observations: Seq<PendingObservation>) -> Option<int> {
    if exists|j: int| 0 <= j < observations.len() && !observations[j].pending_reported {
        Some(
            choose|j: int|
                0 <= j < observations.len() && !observations[j].pending_reported && forall|k: int|
                    0 <= k < j ==> observations[k].pending_reported,
        )
    } else {
        None
    }
}

proof fn lemma_first_unreported(observations: Seq<PendingObservation>, j: int)
    requires
        0 <= j < observations.len(),
        !observations[j].pending_reported,
        forall|k: int| 0 <= k < j ==> observations[k].pending_reported,
    ensures
        first_unreported(observations) == Some(j),
{
    let f = choose|f: int|
        0 <= f < observations.len() && !observations[f].pending_reported && forall|k: int|
            0 <= k < f ==> observations[k].pending_reported;
    assert(0 <= f < observations.len() && !observations[f].pending_reported && forall|k: int|
        0 <= k < f ==> observations[k].pending_reported);
    if f < j {
        assert(observations[f].pending_reported);
    }
    if j < f {
        assert(observations[j].pending_reported);
    }
}

impl SessionLedger {
    /// What an active session answers to an observation request before
    /// service work, checked in order: capacity (live correlations or the
    /// service's observation capacity), an identity already pending, and the
    /// service's observation dimensions against the negotiated limits.
    pub open spec fn spec_observation_check(
        &self,
        observation_id: u128,
        service_capacity: u32,
        width: u32,
        height: u32,
    ) -> Result<(), SessionFailureCode> {
        let limits = self.spec_output_context().frame_config.runtime_limits;
        if self.live_count() >= self.live_capacity() || spec_count(self.observations().len())
            >= service_capacity {
            Err(SessionFailureCode::CapacityExceeded)
        } else if self.has_observation(observation_id) {
            Err(SessionFailureCode::ObservationRejected)
        } else if width > limits.max_observation_width || height > limits.max_observation_height
            || width * height > limits.max_observation_pixels {
            Err(SessionFailureCode::LimitExceeded)
        } else {
            Ok(())
        }
    }

    /// Checks an observation request before service work.
    pub fn check_observation_request(
        &self,
        observation_id: u128,
        service_capacity: u32,
        width: u32,
        height: u32,
    ) -> (result: Result<(), SessionFailureCode>)
        requires
            self.wf(),
        ensures
            result == self.spec_observation_check(observation_id, service_capacity, width, height),
    {
        if (self.commands.len() + self.observations.len()) as u64 >= self.max_live_correlations as u64
            || count(self.observations.len()) >= service_capacity {
            return Err(SessionFailureCode::CapacityExceeded);
        }
        if self.find_observation(observation_id).is_some() {
            return Err(SessionFailureCode::ObservationRejected);
        }
        let context = self.output_context();
        let limits = context.frame_config.runtime_limits;
        assert(width * height <= u32::MAX * u32::MAX) by (nonlinear_arith)
            requires
                width <= u32::MAX,
                height <= u32::MAX,
        ;
        let pixels: u64 = (width as u64) * (height as u64);
        if width > limits.max_observation_width || height > limits.max_observation_height || pixels
            > limits.max_observation_pixels {
            return Err(SessionFailureCode::LimitExceeded);
        }
        Ok(())
    }

    /// Records an accepted observation under a new live correlation. The
    /// correlation must be free and within capacity, and the identity not
    /// pending.
    pub fn commit_observation(&mut self, correlation_id: u64, observation_id: u128, scene_revision: u64) -> (result:
        Result<(), LocalExecutorError>)
        requires
            old(self).wf(),
            old(self).phase() == LocalExecutorPhase::Active,
        ensures
            final(self).wf(),
            final(self).phase() == old(self).phase(),
            final(self).commands() == old(self).commands(),
            final(self).live_capacity() == old(self).live_capacity(),
            final(self).spec_output_context() == old(self).spec_output_context(),
            if old(self).live_count() >= old(self).live_capacity() || old(self).is_live(
                correlation_id,
            ) {
                &&& result == Err::<(), LocalExecutorError>(reservation_failure())
                &&& final(self).observations() == old(self).observations()
            } else if old(self).has_observation(observation_id) {
                &&& result == Err::<(), LocalExecutorError>(
                    LocalExecutorError::StateInvariant {
                        reason: "service accepted an observation that is already pending",
                    },
                )
                &&& final(self).observations() == old(self).observations()
            } else {
                &&& result == Ok::<(), LocalExecutorError>(())
                &&& final(self).observations() == old(self).observations().push(
                    PendingObservation {
                        observation_id,
                        correlation_id,
                        scene_revision,
                        pending_reported: false,
                    },
                )
            },
    {
        if (self.commands.len() + self.observations.len()) as u64 >= self.max_live_correlations as u64
            || self.correlation_is_live(correlation_id) {
            return Err(
                LocalExecutorError::StateInvariant { reason: "live correlation reservation failed" },
            );
        }
        if self.find_observation(observation_id).is_some() {
            return Err(
                LocalExecutorError::StateInvariant {
                    reason: "service accepted an observation that is already pending",
                },
            );
        }
        let ghost before = self.observations@;
        self.observations.push(
            PendingObservation { observation_id, correlation_id, scene_revision, pending_reported: false },
        );
        proof {
            assert forall|j: int| 0 <= j < before.len() implies #[trigger] before[j].correlation_id
                != correlation_id by {
                assert(self.observations@[j] == before[j]);
            }
            assert forall|j: int| 0 <= j < before.len() implies #[trigger] before[j].observation_id
                != observation_id by {
                assert(self.observations@[j] == before[j]);
            }
        }
        Ok(())
    }

    /// Returns the correlation of a pending observation.
    pub fn observation_correlation(&self, observation_id: u128) -> (result: Result<
        u64,
        LocalExecutorError,
    >)
        requires
            self.wf(),
        ensures
            match self.observation_with_id(observation_id) {
                Some(p) => result == Ok::<u64, LocalExecutorError>(p.correlation_id),
                None => result == Err::<u64, LocalExecutorError>(
                    LocalExecutorError::StateInvariant {
                        reason: "observation completion had no live correlation",
                    },
                ),
            },
    {
        match self.find_observation(observation_id) {
            Some(j) => {
                proof {
                    self.lemma_observation_index(j as int);
                }
                Ok(self.observations[j].correlation_id)
            },
            None => Err(
                LocalExecutorError::StateInvariant {
                    reason: "observation completion had no live correlation",
                },
            ),
        }
    }

    /// Ends a pending observation after its terminal output, releasing its
    /// correlation; the others keep their order.
    pub fn release_observation(&mut self, observation_id: u128) -> (result: Result<
        (),
        LocalExecutorError,
    >)
        requires
            old(self).wf(),
        ensures
            final(self).wf(),
            final(self).phase() == old(self).phase(),
            final(self).commands() == old(self).commands(),
            final(self).live_capacity() == old(self).live_capacity(),
            final(self).spec_output_context() == old(self).spec_output_context(),
            !old(self).has_observation(observation_id) ==> {
                &&& result == Err::<(), LocalExecutorError>(
                    LocalExecutorError::StateInvariant {
                        reason: "completed observation was absent from local order",
                    },
                )
                &&& final(self).observations() == old(self).observations()
            },
            old(self).has_observation(observation_id) ==> {
                let j = old(self).observation_index(observation_id);
                &&& result == Ok::<(), LocalExecutorError>(())
                &&& final(self).observations() == old(self).observations().remove(j)
                &&& !final(self).has_observation(observation_id)
                &&& !final(self).is_live(old(self).observations()[j].correlation_id)
            },
    {
        let j = match self.find_observation(observation_id) {
            Some(j) => j,
            None => {
                return Err(
                    LocalExecutorError::StateInvariant {
                        reason: "completed observation was absent from local order",
                    },
                );
            },
        };
        proof {
            self.lemma_observation_index(j as int);
        }
        let ghost before = self.observations@;
        let removed = self.observations.remove(j);
        proof {
            assert(self.observations@ =~= before.remove(j as int));
            let at = |k: int| if k < j { k } else { k + 1 };
            assert forall|k: int| 0 <= k < self.observations@.len() implies self.observations@[k]
                == before[at(k)] by {}
            assert forall|a: int, b: int|
                0 <= a < b < self.observations@.len() implies #[trigger] self.observations@[a].observation_id
                != #[trigger] self.observations@[b].observation_id by {
                assert(before[at(a)].observation_id != before[at(b)].observation_id);
            }
            assert forall|a: int, b: int|
                0 <= a < b < self.observations@.len() implies #[trigger] self.observations@[a].correlation_id
                != #[trigger] self.observations@[b].correlation_id by {
                assert(before[at(a)].correlation_id != before[at(b)].correlation_id);
            }
            assert forall|a: int, b: int|
                0 <= a < self.commands@.len() && 0 <= b < self.observations@.len() implies #[trigger] self.commands@[a].correlation_id
                != #[trigger] self.observations@[b].correlation_id by {
                assert(self.commands@[a].correlation_id != before[at(b)].correlation_id);
            }
            assert forall|k: int| 0 <= k < self.observations@.len() implies self.observations@[k].observation_id
                != observation_id by {
                assert(before[at(k)].observation_id != before[j as int].observation_id);
            }
            assert forall|k: int| 0 <= k < self.observations@.len() implies self.observations@[k].correlation_id
                != removed.correlation_id by {
                assert(before[at(k)].correlation_id != before[j as int].correlation_id);
            }
            assert forall|k: int| 0 <= k < self.commands@.len() implies self.commands@[k].correlation_id
                != removed.correlation_id by {
                assert(self.commands@[k].correlation_id != before[j as int].correlation_id);
            }
        }
        Ok(())
    }

    /// Marks the first observation whose pending notice was not yet sent and
    /// returns it, so each observation is reported pending at most once.
    pub fn report_next_pending(&mut self) -> (reported: Option<PendingObservation>)
        requires
            old(self).wf(),
        ensures
            final(self).wf(),
            final(self).phase() == old(self).phase(),
            final(self).commands() == old(self).commands(),
            final(self).live_capacity() == old(self).live_capacity(),
            final(self).spec_output_context() == old(self).spec_output_context(),
            match first_unreported(old(self).observations()) {
                None => reported is None && final(self).observations() == old(self).observations(),
                Some(j) => {
                    &&& reported == Some(old(self).observations()[j])
                    &&& final(self).observations() == old(self).observations().update(
                        j,
                        PendingObservation { pending_reported: true, ..old(self).observations()[j] },
                    )
                },
            },
    {
        let j = match self.find_unreported() {
            Some(j) => j,
            None => {
                return None;
            },
        };
        let found = self.observations[j];
        let ghost before = self.observations@;
        self.observations.set(j, PendingObservation { pending_reported: true, ..found });
        proof {
            assert forall|a: int, b: int|
                0 <= a < b < self.observations@.len() implies #[trigger] self.observations@[a].observation_id
                != #[trigger] self.observations@[b].observation_id by {
                assert(before[a].observation_id != before[b].observation_id);
            }
            assert forall|a: int, b: int|
                0 <= a < b < self.observations@.len() implies #[trigger] self.observations@[a].correlation_id
                != #[trigger] self.observations@[b].correlation_id by {
                assert(before[a].correlation_id != before[b].correlation_id);
            }
            assert forall|a: int, b: int|
                0 <= a < self.commands@.len() && 0 <= b < self.observations@.len() implies #[trigger] self.commands@[a].correlation_id
                != #[trigger] self.observations@[b].correlation_id by {
                assert(self.commands@[a].correlation_id != before[b].correlation_id);
            }
        }
        Some(found)
    }

    fn find_unreported(&self) -> (index: Option<usize>)
        ensures
            match first_unreported(self.observations()) {
                None => index is None,
                Some(j) => 0 <= j < self.observations().len() && index == Some(j as usize),
            },
    {
        let mut j: usize = 0;
        while j < self.observations.len()
            invariant
                j <= self.observations@.len(),
                forall|k: int| 0 <= k < j ==> self.observations@[k].pending_reported,
            decreases self.observations@.len() - j,
        {
            if !self.observations[j].pending_reported {
                proof {
                    lemma_first_unreported(self.observations@, j as int);
                }
                return Some(j);
            }
            j = j + 1;
        }
        None
    }

    /// Returns the oldest pending observation, if any.
    pub fn first_observation(&self) -> (first: Option<PendingObservation>)
        ensures
            self.observations().len() == 0 ==> first is None,
            self.observations().len() > 0 ==> first == Some(self.observations()[0]),
    {
        if self.observations.len() == 0 {
            None
        } else {
            Some(self.observations[0])
        }
    }

    /// An orderly close needs no live correlation and a quiescent service.
    pub fn check_close(&self, snapshot: ServiceSnapshot) -> (result: Result<(), SessionFailureCode>)
        requires
            self.wf(),
        ensures
            result is Ok <==> (self.live_count() == 0 && snapshot.command_depth == 0
                && snapshot.outstanding_observations == 0),
            result is Err ==> result == Err::<(), SessionFailureCode>(
                SessionFailureCode::ProtocolState,
            ),
    {
        if self.commands.len() != 0 || self.observations.len() != 0 || snapshot.command_depth != 0
            || snapshot.outstanding_observations != 0 {
            Err(SessionFailureCode::ProtocolState)
        } else {
            Ok(())
        }
    }

    /// Closes the session after its close was answered; closing is terminal.
    pub fn commit_close(&mut self) -> (result: Result<(), LocalExecutorError>)
        requires
            old(self).wf(),
            old(self).live_count() == 0,
        ensures
            final(self).wf(),
            final(self).commands() == old(self).commands(),
            final(self).observations() == old(self).observations(),
            final(self).negotiated() == old(self).negotiated(),
            final(self).negotiated_compilation() == old(self).negotiated_compilation(),
            final(self).live_capacity() == old(self).live_capacity(),
            old(self).negotiated() is None ==> {
                &&& result == Err::<(), LocalExecutorError>(
                    LocalExecutorError::StateInvariant {
                        reason: "close was handled outside the active state",
                    },
                )
                &&& final(self).phase() == old(self).phase()
            },
            old(self).negotiated() is Some ==> {
                &&& result == Ok::<(), LocalExecutorError>(())
                &&& final(self).phase() == LocalExecutorPhase::Closed
                &&& final(self).spec_output_context() == old(self).spec_output_context()
            },
    {
        if self.negotiated_limits.is_none() {
            return Err(
                LocalExecutorError::StateInvariant {
                    reason: "close was handled outside the active state",
                },
            );
        }
        self.phase = LocalExecutorPhase::Closed;
        Ok(())
    }
}


/// A message on a correlation that is still live is refused as a protocol
/// state failure before any service work, whatever it asks for.
pub proof fn lemma_live_correlation_is_refused(
    ledger: SessionLedger,
    correlation_id: u64,
    kind: ClientMessageKind,
)
    requires
        ledger.is_live(correlation_id),
    ensures
        ledger.spec_active_check(correlation_id, ledger.schema_version(), kind) == Err::<
            (),
            SessionFailureCode,
        >(SessionFailureCode::ProtocolState),
{
}

/// Exactly one hello opens a session: once active, a further hello is refused
/// before any service work.
pub proof fn lemma_second_hello_is_refused(ledger: SessionLedger, correlation_id: u64)
    ensures
        ledger.spec_active_check(correlation_id, ledger.schema_version(), ClientMessageKind::Hello)
            is Err,
{
}

/// When every live correlation is taken, an observation request is refused
/// for capacity before any service work.
pub proof fn lemma_full_session_refuses_observations(
    ledger: SessionLedger,
    observation_id: u128,
    service_capacity: u32,
    width: u32,
    height: u32,
)
    requires
        ledger.live_count() >= ledger.live_capacity(),
    ensures
        ledger.spec_observation_check(observation_id, service_capacity, width, height) == Err::<
            (),
            SessionFailureCode,
        >(SessionFailureCode::CapacityExceeded),
{
}

/// A command the service queues without a matching key is never recorded:
/// every admission answer that names another key is an invariant failure.
pub proof fn lemma_foreign_admission_is_refused(
    ledger: SessionLedger,
    kind: PendingKind,
    submitted_key: u128,
    other_key: u128,
    service_capacity: u32,
)
    requires
        other_key != submitted_key,
    ensures
        ledger.spec_admission_decision(
            kind,
            submitted_key,
            ServiceAdmission::Queued { idempotency_key: other_key },
            service_capacity,
        ) is Err,
        ledger.spec_admission_decision(
            kind,
            submitted_key,
            ServiceAdmission::Superseded {
                idempotency_key: other_key,
                superseded_idempotency_key: submitted_key,
            },
            service_capacity,
        ) is Err,
{
}


/// The next step for a decoded message in an active session.
#[derive(Debug, Clone, Copy, PartialEq, Eq, Structural)]
pub enum ActiveStep {
    /// Answer with this failure; neither the service nor the ledger changes.
    Refuse(SessionFailureCode),
    /// Submit the command to the service, then decide its admission.
    SubmitCommand,
    /// Run the query and answer with its result.
    RunQuery,
    /// Encode the acceptance, request the observation, then commit it.
    RequestObservation,
    /// Encode the close acknowledgement, then close the session.
    Close,
}

/// Inputs an active-session step reads from the service.
#[derive(Debug, Clone, Copy, PartialEq, Eq, Structural)]
pub struct ServiceState {
    /// Transient work the service owns.
    pub snapshot: ServiceSnapshot,
    /// Declared command capacity.
    pub command_capacity: u32,
    /// Declared observation capacity.
    pub observation_capacity: u32,
    /// Observation width.
    pub width: u32,
    /// Observation height.
    pub height: u32,
}

impl SessionLedger {
    /// What an active session does with a decoded message, checked in order:
    /// the message's version and correlation, then per message kind the
    /// version-two bound of imagination, the live-correlation capacity of
    /// commands, the admission checks of observations, and the quiescence
    /// of a close.
    pub open spec fn spec_active_step(
        &self,
        correlation_id: u64,
        schema_version: u16,
        kind: ClientMessageKind,
        observation_id: u128,
        service: ServiceState,
    ) -> ActiveStep {
        let capacity_reached = self.live_count() >= self.live_capacity()
            && service.snapshot.command_depth < service.command_capacity;
        match self.spec_active_check(correlation_id, schema_version, kind) {
            Err(code) => ActiveStep::Refuse(code),
            Ok(()) => match kind {
                ClientMessageKind::Hello => ActiveStep::Refuse(SessionFailureCode::ProtocolState),
                ClientMessageKind::SubmitPatch => if capacity_reached {
                    ActiveStep::Refuse(SessionFailureCode::CapacityExceeded)
                } else {
                    ActiveStep::SubmitCommand
                },
                ClientMessageKind::SubmitImagination => if !(self.schema_version()
                    == LOCAL_SESSION_SCHEMA_VERSION_V2 && self.negotiated_compilation() is Some) {
                    ActiveStep::Refuse(SessionFailureCode::UnsupportedVersion)
                } else if capacity_reached {
                    ActiveStep::Refuse(SessionFailureCode::CapacityExceeded)
                } else {
                    ActiveStep::SubmitCommand
                },
                ClientMessageKind::Query => ActiveStep::RunQuery,
                ClientMessageKind::RequestObservation => match self.spec_observation_check(
                    observation_id,
                    service.observation_capacity,
                    service.width,
                    service.height,
                ) {
                    Err(code) => ActiveStep::Refuse(code),
                    Ok(()) => ActiveStep::RequestObservation,
                },
                ClientMessageKind::Close => if self.live_count() == 0
                    && service.snapshot.command_depth == 0
                    && service.snapshot.outstanding_observations == 0 {
                    ActiveStep::Close
                } else {
                    ActiveStep::Refuse(SessionFailureCode::ProtocolState)
                },
            },
        }
    }

    /// Decides the next step for a decoded message of an active session.
    /// `observation_id` is read only for an observation request.
    pub fn plan_active_step(
        &self,
        correlation_id: u64,
        schema_version: u16,
        kind: ClientMessageKind,
        observation_id: u128,
        service: ServiceState,
    ) -> (step: ActiveStep)
        requires
            self.wf(),
        ensures
            step == self.spec_active_step(correlation_id, schema_version, kind, observation_id, service),
    {
        match self.check_active_message(correlation_id, schema_version, kind) {
            Err(code) => {
                return ActiveStep::Refuse(code);
            },
            Ok(()) => {},
        }
        match kind {
            ClientMessageKind::Hello => ActiveStep::Refuse(SessionFailureCode::ProtocolState),
            ClientMessageKind::SubmitPatch => {
                if self.command_capacity_reached(
                    service.snapshot.command_depth,
                    service.command_capacity,
                ) {
                    ActiveStep::Refuse(SessionFailureCode::CapacityExceeded)
                } else {
                    ActiveStep::SubmitCommand
                }
            },
            ClientMessageKind::SubmitImagination => {
                match self.check_imagination_version() {
                    Err(code) => {
                        return ActiveStep::Refuse(code);
                    },
                    Ok(()) => {},
                }
                if self.command_capacity_reached(
                    service.snapshot.command_depth,
                    service.command_capacity,
                ) {
                    ActiveStep::Refuse(SessionFailureCode::CapacityExceeded)
                } else {
                    ActiveStep::SubmitCommand
                }
            },
            ClientMessageKind::Query => ActiveStep::RunQuery,
            ClientMessageKind::RequestObservation => {
                match self.check_observation_request(
                    observation_id,
                    service.observation_capacity,
                    service.width,
                    service.height,
                ) {
                    Err(code) => ActiveStep::Refuse(code),
                    Ok(()) => ActiveStep::RequestObservation,
                }
            },
            ClientMessageKind::Close => {
                match self.check_close(service.snapshot) {
                    Err(code) => ActiveStep::Refuse(code),
                    Ok(()) => ActiveStep::Close,
                }
            },
        }
    }
}


/// Where an inbound frame goes in the session's current phase.
#[derive(Debug, Clone, Copy, PartialEq, Eq, Structural)]
pub enum FrameRoute {
    /// Decide it as the opening hello.
    Hello,
    /// Decide it as a message of the active session.
    Active,
    /// Answer with this failure; nothing changes.
    Refuse(SessionFailureCode),
}

/// What polling the service for one observation outcome gave.
#[derive(Debug, Clone, Copy, PartialEq, Eq, Structural)]
pub enum PollOutcome {
    /// The observation with this identity completed and can be delivered.
    Delivered { observation_id: u128 },
    /// The observation with this identity failed with `code`.
    Failed { observation_id: u128, code: SessionFailureCode },
    /// No outcome is ready yet.
    NotReady,
    /// Polling itself failed with `code`.
    PollFailed(SessionFailureCode),
}

/// What an advance does about the oldest pending observation.
#[derive(Debug, Clone, Copy, PartialEq, Eq, Structural)]
pub enum ObservationStep {
    /// Send the completed observation to `correlation_id`, or a failure with
    /// `oversize_code` when it does not fit the output bounds; then release
    /// the observation.
    Deliver { correlation_id: u64, observation_id: u128, oversize_code: SessionFailureCode },
    /// Send a failure with `code` to `correlation_id`; then release the
    /// observation.
    Fail { correlation_id: u64, observation_id: u128, code: SessionFailureCode },
    /// Send the pending notice that `report_next_pending` selects, if any.
    ReportPending,
}

/// The rejection sent to the superseded correlation before the admission
/// reply of a supersession; no other admission sends one.
pub open spec fn spec_supersession_notice(decision: AdmissionDecision) -> Option<(u64, SessionFailureCode)> {
    match decision {
        AdmissionDecision::Supersede { superseded_correlation_id, .. } => Some(
            (superseded_correlation_id, SessionFailureCode::CommandRejected),
        ),
        _ => None,
    }
}

/// Returns the rejection a supersession sends first, before its own
/// admission reply.
pub fn supersession_notice(decision: AdmissionDecision) -> (notice: Option<(u64, SessionFailureCode)>)
    ensures
        notice == spec_supersession_notice(decision),
{
    match decision {
        AdmissionDecision::Supersede { superseded_correlation_id, .. } => Some(
            (superseded_correlation_id, SessionFailureCode::CommandRejected),
        ),
        _ => None,
    }
}

impl SessionLedger {
    /// Routes an inbound frame: the hello path before the session opens,
    /// the active path while it is open, and a protocol-state failure after
    /// it closed.
    pub fn route_frame(&self) -> (route: FrameRoute)
        ensures
            route == match self.phase() {
                LocalExecutorPhase::AwaitingHello => FrameRoute::Hello,
                LocalExecutorPhase::Active => FrameRoute::Active,
                LocalExecutorPhase::Closed => FrameRoute::Refuse(SessionFailureCode::ProtocolState),
            },
    {
        match self.phase {
            LocalExecutorPhase::AwaitingHello => FrameRoute::Hello,
            LocalExecutorPhase::Active => FrameRoute::Active,
            LocalExecutorPhase::Closed => FrameRoute::Refuse(SessionFailureCode::ProtocolState),
        }
    }

    /// Whether an advance does any work: only an active session advances.
    pub fn can_advance(&self) -> (advance: bool)
        ensures
            advance == (self.phase() == LocalExecutorPhase::Active),
    {
        match self.phase {
            LocalExecutorPhase::Active => true,
            _ => false,
        }
    }

    /// What an advance does with a poll outcome while an observation is
    /// pending: a completion or failure goes to the correlation of its own
    /// observation, a poll failure fails the oldest pending observation, and
    /// no outcome yields a pending notice.
    pub fn plan_observation_step(&self, poll: PollOutcome) -> (step: Result<
        ObservationStep,
        LocalExecutorError,
    >)
        requires
            self.wf(),
            self.observations().len() > 0,
        ensures
            step == match poll {
                PollOutcome::Delivered { observation_id } => match self.observation_with_id(
                    observation_id,
                ) {
                    Some(p) => Ok::<ObservationStep, LocalExecutorError>(
                        ObservationStep::Deliver {
                            correlation_id: p.correlation_id,
                            observation_id,
                            oversize_code: SessionFailureCode::LimitExceeded,
                        },
                    ),
                    None => Err(
                        LocalExecutorError::StateInvariant {
                            reason: "observation completion had no live correlation",
                        },
                    ),
                },
                PollOutcome::Failed { observation_id, code } => match self.observation_with_id(
                    observation_id,
                ) {
                    Some(p) => Ok(
                        ObservationStep::Fail { correlation_id: p.correlation_id, observation_id, code },
                    ),
                    None => Err(
                        LocalExecutorError::StateInvariant {
                            reason: "observation completion had no live correlation",
                        },
                    ),
                },
                PollOutcome::NotReady => Ok(ObservationStep::ReportPending),
                PollOutcome::PollFailed(code) => Ok(
                    ObservationStep::Fail {
                        correlation_id: self.observations()[0].correlation_id,
                        observation_id: self.observations()[0].observation_id,
                        code,
                    },
                ),
            },
    {
        match poll {
            PollOutcome::Delivered { observation_id } => {
                let correlation_id = match self.observation_correlation(observation_id) {
                    Ok(id) => id,
                    Err(e) => {
                        return Err(e);
                    },
                };
                Ok(
                    ObservationStep::Deliver {
                        correlation_id,
                        observation_id,
                        oversize_code: SessionFailureCode::LimitExceeded,
                    },
                )
            },
            PollOutcome::Failed { observation_id, code } => {
                let correlation_id = match self.observation_correlation(observation_id) {
                    Ok(id) => id,
                    Err(e) => {
                        return Err(e);
                    },
                };
                Ok(ObservationStep::Fail { correlation_id, observation_id, code })
            },
            PollOutcome::NotReady => Ok(ObservationStep::ReportPending),
            PollOutcome::PollFailed(code) => {
                let first = self.observations[0];
                Ok(
                    ObservationStep::Fail {
                        correlation_id: first.correlation_id,
                        observation_id: first.observation_id,
                        code,
                    },
                )
            },
        }
    }
}

} // verus!
