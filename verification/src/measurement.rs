//! Sorted nearest-rank summaries of the controlled CPU world fixture.

use vstd::prelude::*;
use vstd::relations::{sorted_by, total_ordering};

verus! {

/// Versioned fixture name.
pub const FIXTURE_NAME: &'static str = "world-create-empty-v1";

/// Entity-create operations applied per sample.
pub const FIXTURE_OPERATIONS: u32 = 1_000;

/// Discarded warmup samples.
pub const WARMUP_SAMPLES: u32 = 5;

/// Retained measured samples.
pub const MEASURED_SAMPLES: u32 = 30;

/// The `<=` order of sample values.
pub open spec fn sample_leq() -> spec_fn(u128, u128) -> bool {
    |x: u128, y: u128| x <= y
}

/// The samples in ascending order.
pub open spec fn sorted_samples(samples: Seq<u128>) -> Seq<u128> {
    samples.sort_by(sample_leq())
}

/// Nearest-rank index of the 95th percentile among `n` sorted samples.
pub open spec fn p95_index(n: nat) -> nat {
    let product = if n * 95 > usize::MAX {
        usize::MAX as nat
    } else {
        n * 95
    };
    let rank = product / 100 + if product % 100 == 0 {
        0nat
    } else {
        1nat
    };
    if rank == 0 {
        0
    } else {
        (rank - 1) as nat
    }
}

/// Build profile used to collect a controlled measurement.
#[derive(Debug, Clone, Copy, PartialEq, Eq, Structural)]
pub enum MeasurementProfile {
    /// Development profile with debug assertions.
    Debug,
    /// Optimized release profile.
    Release,
}

impl MeasurementProfile {
    /// Returns the profile's lower-case name.
    pub fn name(&self) -> (name: &'static str)
        ensures
            *self == MeasurementProfile::Debug ==> name == "debug",
            *self == MeasurementProfile::Release ==> name == "release",
    {
        match self {
            MeasurementProfile::Debug => "debug",
            MeasurementProfile::Release => "release",
        }
    }
}

/// Sorted nearest-rank timing distribution stored in nanoseconds.
#[derive(Debug, Clone, Copy, PartialEq, Eq, Structural)]
pub struct TimingDistribution {
    min: u128,
    median: u128,
    p95: u128,
    max: u128,
}

proof fn lemma_sample_order_total()
    ensures
        total_ordering(sample_leq()),
{
}

/// Sorts `values` in place into ascending order.
fn sort_ascending(values: &mut Vec<u128>)
    ensures
        final(values)@.len() == old(values)@.len(),
        final(values)@.to_multiset() == old(values)@.to_multiset(),
        sorted_by(final(values)@, sample_leq()),
{
    let n = values.len();
    if n <= 1 {
        return;
    }
    let mut i: usize = 1;
    while i < n
        invariant
            1 <= i <= n,
            n == values@.len(),
            values@.to_multiset() == old(values)@.to_multiset(),
            forall|a: int, b: int| 0 <= a < b < i ==> #[trigger] values@[a] <= #[trigger] values@[b],
        decreases n - i,
    {
        let mut j: usize = i;
        while j > 0 && values[j - 1] > values[j]
            invariant
                0 <= j <= i < n,
                n == values@.len(),
                values@.to_multiset() == old(values)@.to_multiset(),
                forall|a: int, b: int|
                    0 <= a < b <= i && b != j ==> #[trigger] values@[a] <= #[trigger] values@[b],
            decreases j,
        {
            let left = values[j - 1];
            let right = values[j];
            let ghost before = values@;
            values.set(j - 1, right);
            values.set(j, left);
            proof {
                vstd::seq_lib::to_multiset_update(before, j - 1, right);
                let mid = before.update(j - 1, right);
                vstd::seq_lib::to_multiset_update(mid, j as int, left);
                assert(mid[j as int] == right);
                assert(values@ == mid.update(j as int, left));
                broadcast use vstd::multiset::group_multiset_axioms;
                vstd::seq_lib::to_multiset_contains(before, left);
                assert(before[j - 1] == left);
                assert(before.contains(left));
                assert(before.to_multiset().count(left) > 0);
                assert(before.to_multiset().insert(right).remove(left).insert(left).remove(right)
                    =~= before.to_multiset());
                assert forall|a: int, b: int|
                    0 <= a < b <= i && b != j - 1 implies #[trigger] values@[a]
                    <= #[trigger] values@[b] by {
                    if a == j - 1 && b == j {
                    } else if a == j - 1 {
                        assert(before[j as int] <= before[b]);
                    } else if a == j {
                        assert(before[j - 1] <= before[b]);
                    } else if b == j {
                        assert(before[a] <= before[j - 1]);
                    } else {
                        assert(before[a] <= before[b]);
                    }
                }
            }
            j = j - 1;
        }
        proof {
            assert forall|a: int, b: int| 0 <= a < b < i + 1 implies #[trigger] values@[a]
                <= #[trigger] values@[b] by {
                if b == j && a < j - 1 {
                    assert(values@[a] <= values@[j - 1]);
                }
            }
        }
        i = i + 1;
    }
}

proof fn lemma_p95_index_in_range(n: nat)
    requires
        n >= 1,
        n <= usize::MAX,
    ensures
        p95_index(n) < n,
{
    let product = if n * 95 > usize::MAX {
        usize::MAX as nat
    } else {
        n * 95
    };
    assert(product <= n * 95);
    assert(product / 100 * 100 <= product) by (nonlinear_arith)
        requires
            product >= 0,
    ;
    assert(product / 100 < n) by (nonlinear_arith)
        requires
            product <= n * 95,
            n >= 1,
    ;
    if product % 100 != 0 {
        assert(product / 100 + 1 <= n) by (nonlinear_arith)
            requires
                product <= n * 95,
                n >= 1,
                product % 100 != 0,
                product == 100 * (product / 100) + product % 100,
        ;
    }
}

impl TimingDistribution {
    /// The distribution's statistics: minimum, upper median, nearest-rank
    /// 95th percentile, maximum, each taken from the sorted samples.
    pub closed spec fn stats(self) -> (u128, u128, u128, u128) {
        (self.min, self.median, self.p95, self.max)
    }

    /// Summarizes a non-empty sample set by sorted nearest rank.
    pub fn from_samples(samples: Vec<u128>) -> (report: Self)
        requires
            samples@.len() > 0,
        ensures
            report.stats() == timing_stats(samples@),
    {
        let ghost unsorted = samples@;
        let mut samples = samples;
        sort_ascending(&mut samples);
        let n = samples.len();
        proof {
            lemma_sample_order_total();
            unsorted.lemma_sort_by_ensures(sample_leq());
            vstd::seq_lib::lemma_sorted_unique(samples@, sorted_samples(unsorted), sample_leq());
            lemma_p95_index_in_range(n as nat);
        }
        let median_index = n / 2;
        let product = if n > usize::MAX / 95 {
            usize::MAX
        } else {
            n * 95
        };
        let rank = product / 100 + if product % 100 == 0 {
            0
        } else {
            1
        };
        let p95_position = if rank == 0 {
            0
        } else {
            rank - 1
        };
        proof {
            if n > usize::MAX / 95 {
                assert(n * 95 > usize::MAX) by (nonlinear_arith)
                    requires
                        n > usize::MAX / 95,
                ;
            } else {
                assert(n * 95 <= usize::MAX) by (nonlinear_arith)
                    requires
                        n <= usize::MAX / 95,
                ;
            }
            assert(p95_position == p95_index(n as nat));
        }
        TimingDistribution {
            min: samples[0],
            median: samples[median_index],
            p95: samples[p95_position],
            max: samples[n - 1],
        }
    }

    /// Returns the minimum sample in nanoseconds.
    pub fn min_nanos(self) -> (nanos: u128)
        ensures
            nanos == self.stats().0,
    {
        self.min
    }

    /// Returns the upper middle sample in nanoseconds.
    pub fn median_nanos(self) -> (nanos: u128)
        ensures
            nanos == self.stats().1,
    {
        self.median
    }

    /// Returns the nearest-rank 95th percentile in nanoseconds.
    pub fn p95_nanos(self) -> (nanos: u128)
        ensures
            nanos == self.stats().2,
    {
        self.p95
    }

    /// Returns the maximum sample in nanoseconds.
    pub fn max_nanos(self) -> (nanos: u128)
        ensures
            nanos == self.stats().3,
    {
        self.max
    }
}

/// One controlled sample of every measured phase, in nanoseconds.
#[derive(Debug, Clone, Copy, PartialEq, Eq, Structural)]
pub struct NanosecondSample {
    /// Decoded patch apply.
    pub apply: u128,
    /// Protocol validation and atomic preflight.
    pub validate: u128,
    /// Atomic world commit.
    pub commit: u128,
    /// Compact render extraction.
    pub extraction: u128,
    /// Canonical logical hash.
    pub logical_hash: u128,
}

/// One measured phase.
#[derive(Debug, Clone, Copy, PartialEq, Eq, Structural)]
pub enum SamplePhase {
    /// Decoded patch apply.
    Apply,
    /// Protocol validation and atomic preflight.
    Validate,
    /// Atomic world commit.
    Commit,
    /// Compact render extraction.
    Extraction,
    /// Canonical logical hash.
    LogicalHash,
}

/// The value of one phase in a sample.
pub open spec fn phase_value(sample: NanosecondSample, phase: SamplePhase) -> u128 {
    match phase {
        SamplePhase::Apply => sample.apply,
        SamplePhase::Validate => sample.validate,
        SamplePhase::Commit => sample.commit,
        SamplePhase::Extraction => sample.extraction,
        SamplePhase::LogicalHash => sample.logical_hash,
    }
}

fn select_phase(sample: &NanosecondSample, phase: SamplePhase) -> (value: u128)
    ensures
        value == phase_value(*sample, phase),
{
    match phase {
        SamplePhase::Apply => sample.apply,
        SamplePhase::Validate => sample.validate,
        SamplePhase::Commit => sample.commit,
        SamplePhase::Extraction => sample.extraction,
        SamplePhase::LogicalHash => sample.logical_hash,
    }
}

/// The values of one phase across samples, in sample order.
pub open spec fn phase_values(samples: Seq<NanosecondSample>, phase: SamplePhase) -> Seq<u128> {
    samples.map_values(|sample: NanosecondSample| phase_value(sample, phase))
}

/// Summarizes one phase across non-empty samples.
pub fn distribution(samples: &[NanosecondSample], phase: SamplePhase) -> (report: TimingDistribution)
    requires
        samples@.len() > 0,
    ensures
        ({
            let sorted = sorted_samples(phase_values(samples@, phase));
            let n = samples@.len();
            report.stats() == (sorted[0], sorted[(n / 2) as int], sorted[p95_index(n) as int], sorted[n - 1])
        }),
{
    let mut values: Vec<u128> = Vec::new();
    let mut i: usize = 0;
    while i < samples.len()
        invariant
            i <= samples@.len(),
            values@ == phase_values(samples@.subrange(0, i as int), phase),
        decreases samples@.len() - i,
    {
        values.push(select_phase(&samples[i], phase));
        i = i + 1;
        assert(values@ =~= phase_values(samples@.subrange(0, i as int), phase));
    }
    assert(samples@.subrange(0, samples@.len() as int) =~= samples@);
    TimingDistribution::from_samples(values)
}

/// A violation of the controlled fixture's own contract.
#[derive(Debug, Clone, Copy, PartialEq, Eq, Structural)]
pub enum MeasurementError {
    /// The extraction did not report one change per fixture operation.
    Contract,
}

/// Builds one sample from its measured phases: elapsed nanoseconds for
/// apply, extraction, and hashing, and the receipt's validate and commit
/// microseconds. The extraction must report one change per operation.
pub fn fixture_sample(
    apply_nanos: u128,
    validate_micros: u64,
    commit_micros: u64,
    extraction_changes: usize,
    extraction_nanos: u128,
    logical_hash_nanos: u128,
) -> (sample: Result<NanosecondSample, MeasurementError>)
    ensures
        extraction_changes != FIXTURE_OPERATIONS ==> sample == Err::<
            NanosecondSample,
            MeasurementError,
        >(MeasurementError::Contract),
        extraction_changes == FIXTURE_OPERATIONS ==> sample == Ok::<
            NanosecondSample,
            MeasurementError,
        >(
            NanosecondSample {
                apply: apply_nanos,
                validate: (validate_micros * 1_000) as u128,
                commit: (commit_micros * 1_000) as u128,
                extraction: extraction_nanos,
                logical_hash: logical_hash_nanos,
            },
        ),
{
    if extraction_changes != FIXTURE_OPERATIONS as usize {
        return Err(MeasurementError::Contract);
    }
    Ok(
        NanosecondSample {
            apply: apply_nanos,
            validate: validate_micros as u128 * 1_000,
            commit: commit_micros as u128 * 1_000,
            extraction: extraction_nanos,
            logical_hash: logical_hash_nanos,
        },
    )
}

/// Complete result of the fixed controlled CPU world fixture.
#[derive(Debug, Clone, Copy, PartialEq, Eq, Structural)]
pub struct WorldMeasurement {
    profile: MeasurementProfile,
    apply: TimingDistribution,
    validate: TimingDistribution,
    commit: TimingDistribution,
    extraction: TimingDistribution,
    logical_hash: TimingDistribution,
}

impl WorldMeasurement {
    /// `self` summarizes every phase of `samples`, taken under `profile`.
    pub open spec fn summarizes(self, samples: Seq<NanosecondSample>, profile: MeasurementProfile) -> bool {
        let n = samples.len();
        let stats = |phase: SamplePhase| {
            let sorted = sorted_samples(phase_values(samples, phase));
            (sorted[0], sorted[(n / 2) as int], sorted[p95_index(n) as int], sorted[n - 1])
        };
        &&& self.profile_spec() == profile
        &&& self.apply_spec().stats() == stats(SamplePhase::Apply)
        &&& self.validate_spec().stats() == stats(SamplePhase::Validate)
        &&& self.commit_spec().stats() == stats(SamplePhase::Commit)
        &&& self.extraction_spec().stats() == stats(SamplePhase::Extraction)
        &&& self.logical_hash_spec().stats() == stats(SamplePhase::LogicalHash)
    }

    /// Summarizes every phase of non-empty measured samples taken under `profile`.
    pub fn summarize(samples: &[NanosecondSample], profile: MeasurementProfile) -> (measurement: Self)
        requires
            samples@.len() > 0,
        ensures
            measurement.summarizes(samples@, profile),
    {
        WorldMeasurement {
            profile,
            apply: distribution(samples, SamplePhase::Apply),
            validate: distribution(samples, SamplePhase::Validate),
            commit: distribution(samples, SamplePhase::Commit),
            extraction: distribution(samples, SamplePhase::Extraction),
            logical_hash: distribution(samples, SamplePhase::LogicalHash),
        }
    }

    /// Recorded profile.
    pub closed spec fn profile_spec(self) -> MeasurementProfile {
        self.profile
    }

    /// Apply distribution.
    pub closed spec fn apply_spec(self) -> TimingDistribution {
        self.apply
    }

    /// Validate distribution.
    pub closed spec fn validate_spec(self) -> TimingDistribution {
        self.validate
    }

    /// Commit distribution.
    pub closed spec fn commit_spec(self) -> TimingDistribution {
        self.commit
    }

    /// Extraction distribution.
    pub closed spec fn extraction_spec(self) -> TimingDistribution {
        self.extraction
    }

    /// Logical-hash distribution.
    pub closed spec fn logical_hash_spec(self) -> TimingDistribution {
        self.logical_hash
    }

    /// Returns the versioned fixture name.
    pub fn fixture_name(self) -> (name: &'static str)
        ensures
            name == FIXTURE_NAME,
    {
        FIXTURE_NAME
    }

    /// Returns the profile compiled into the measuring process.
    pub fn profile(self) -> (profile: MeasurementProfile)
        ensures
            profile == self.profile_spec(),
    {
        self.profile
    }

    /// Returns entity-create operations applied per sample.
    pub fn operations(self) -> (operations: u32)
        ensures
            operations == FIXTURE_OPERATIONS,
    {
        FIXTURE_OPERATIONS
    }

    /// Returns discarded warmup sample count.
    pub fn warmup_samples(self) -> (count: u32)
        ensures
            count == WARMUP_SAMPLES,
    {
        WARMUP_SAMPLES
    }

    /// Returns retained measured sample count.
    pub fn measured_samples(self) -> (count: u32)
        ensures
            count == MEASURED_SAMPLES,
    {
        MEASURED_SAMPLES
    }

    /// Returns the complete decoded patch-apply distribution.
    pub fn apply(self) -> (report: TimingDistribution)
        ensures
            report == self.apply_spec(),
    {
        self.apply
    }

    /// Returns protocol-validation and atomic-preflight timing.
    pub fn validate(self) -> (report: TimingDistribution)
        ensures
            report == self.validate_spec(),
    {
        self.validate
    }

    /// Returns atomic world-commit timing.
    pub fn commit(self) -> (report: TimingDistribution)
        ensures
            report == self.commit_spec(),
    {
        self.commit
    }

    /// Returns compact render-extraction timing.
    pub fn extraction(self) -> (report: TimingDistribution)
        ensures
            report == self.extraction_spec(),
    {
        self.extraction
    }

    /// Returns canonical logical-hash timing.
    pub fn logical_hash(self) -> (report: TimingDistribution)
        ensures
            report == self.logical_hash_spec(),
    {
        self.logical_hash
    }
}


/// The position of the first failed run, if any.
pub open spec fn first_failure(runs: Seq<Result<NanosecondSample, MeasurementError>>) -> Option<int> {
    if exists|i: int| 0 <= i < runs.len() && runs[i] is Err {
        Some(choose|i: int| 0 <= i < runs.len() && runs[i] is Err && forall|j: int| 0 <= j < i ==> runs[j] is Ok)
    } else {
        None
    }
}

proof fn lemma_first_failure_is_unique(runs: Seq<Result<NanosecondSample, MeasurementError>>, i: int)
    requires
        0 <= i < runs.len(),
        runs[i] is Err,
        forall|j: int| 0 <= j < i ==> runs[j] is Ok,
    ensures
        first_failure(runs) == Some(i),
{
    let k = choose|k: int| 0 <= k < runs.len() && runs[k] is Err && forall|j: int| 0 <= j < k ==> runs[j] is Ok;
    assert(0 <= k < runs.len() && runs[k] is Err && forall|j: int| 0 <= j < k ==> runs[j] is Ok);
    if k < i {
        assert(runs[k] is Ok);
    }
    if i < k {
        assert(runs[i] is Ok);
    }
}

/// The measured samples of successful runs: every run after the warmups.
pub open spec fn measured_runs(runs: Seq<Result<NanosecondSample, MeasurementError>>) -> Seq<NanosecondSample> {
    runs.subrange(WARMUP_SAMPLES as int, runs.len() as int).map_values(
        |run: Result<NanosecondSample, MeasurementError>| run->Ok_0,
    )
}

/// Completes the controlled fixture from its runs, in the order they were
/// made: `WARMUP_SAMPLES` warmups and then `MEASURED_SAMPLES` measured runs,
/// where running stops at the first failure. A failure is returned as it is;
/// otherwise the warmups are discarded and the measured runs summarized.
pub fn measure_controlled_world_fixture(
    runs: &[Result<NanosecondSample, MeasurementError>],
    profile: MeasurementProfile,
) -> (result: Result<WorldMeasurement, MeasurementError>)
    requires
        runs@.len() == WARMUP_SAMPLES + MEASURED_SAMPLES || (0 < runs@.len()
            <= WARMUP_SAMPLES + MEASURED_SAMPLES && runs@.last() is Err),
    ensures
        match first_failure(runs@) {
            Some(i) => result == Err::<WorldMeasurement, MeasurementError>(runs@[i]->Err_0),
            None => result is Ok && result->Ok_0.summarizes(measured_runs(runs@), profile),
        },
{
    let warmups: usize = WARMUP_SAMPLES as usize;
    let mut samples: Vec<NanosecondSample> = Vec::new();
    let mut i: usize = 0;
    while i < runs.len()
        invariant
            i <= runs@.len(),
            runs@.len() <= 35,
            warmups == 5,
            forall|j: int| 0 <= j < i ==> runs@[j] is Ok,
            i <= warmups ==> samples@.len() == 0,
            i > warmups ==> samples@ == runs@.subrange(5, i as int).map_values(
                |run: Result<NanosecondSample, MeasurementError>| run->Ok_0,
            ),
        decreases runs@.len() - i,
    {
        match runs[i] {
            Err(e) => {
                proof {
                    lemma_first_failure_is_unique(runs@, i as int);
                }
                return Err(e);
            },
            Ok(sample) => {
                if i >= warmups {
                    samples.push(sample);
                }
            },
        }
        i = i + 1;
        proof {
            if i > warmups {
                assert(samples@ =~= runs@.subrange(5, i as int).map_values(
                    |run: Result<NanosecondSample, MeasurementError>| run->Ok_0,
                ));
            }
        }
    }
    assert(first_failure(runs@) is None);
    assert(runs@.len() == 35);
    Ok(WorldMeasurement::summarize(samples.as_slice(), profile))
}


/// The minimum, upper median, nearest-rank 95th percentile, and maximum of
/// non-empty samples.
pub open spec fn timing_stats(samples: Seq<u128>) -> (u128, u128, u128, u128) {
    let sorted = sorted_samples(samples);
    let n = samples.len();
    (sorted[0], sorted[(n / 2) as int], sorted[p95_index(n) as int], sorted[n - 1])
}

proof fn lemma_p95_not_below_median(n: nat)
    requires
        n >= 1,
        n * 95 <= usize::MAX,
    ensures
        n / 2 <= p95_index(n),
{
    let product = n * 95;
    let rank = product / 100 + if product % 100 == 0 {
        0nat
    } else {
        1nat
    };
    assert(rank * 100 >= product) by (nonlinear_arith)
        requires
            rank == product / 100 + if product % 100 == 0 {
                0nat
            } else {
                1nat
            },
    ;
    assert(rank >= 1) by (nonlinear_arith)
        requires
            rank * 100 >= product,
            product == n * 95,
            n >= 1,
    ;
    assert(rank - 1 >= n / 2) by (nonlinear_arith)
        requires
            rank * 100 >= n * 95,
            rank >= 1,
            n >= 1,
    ;
}

/// A timing distribution orders its statistics (minimum, median, 95th
/// percentile, maximum), takes each of them from the samples, and does not
/// depend on the order the samples came in.
pub proof fn lemma_timing_stats_law(samples: Seq<u128>, reordered: Seq<u128>)
    requires
        samples.len() > 0,
        samples.len() * 95 <= usize::MAX,
        reordered.to_multiset() == samples.to_multiset(),
    ensures
        ({
            let (min, median, p95, max) = timing_stats(samples);
            &&& min <= median <= p95 <= max
            &&& samples.contains(min)
            &&& samples.contains(median)
            &&& samples.contains(p95)
            &&& samples.contains(max)
        }),
        timing_stats(reordered) == timing_stats(samples),
{
    lemma_sample_order_total();
    samples.lemma_sort_by_ensures(sample_leq());
    reordered.lemma_sort_by_ensures(sample_leq());
    let sorted = sorted_samples(samples);
    let n = samples.len();
    broadcast use vstd::seq_lib::group_to_multiset_ensures;
    assert(sorted.len() == n) by {
        assert(sorted.to_multiset().len() == samples.to_multiset().len());
    }
    lemma_p95_index_in_range(n);
    lemma_p95_not_below_median(n);
    let m = (n / 2) as int;
    let p = p95_index(n) as int;
    if 0 < m {
        assert((sample_leq())(sorted[0], sorted[m]));
    }
    if m < p {
        assert((sample_leq())(sorted[m], sorted[p]));
    }
    if p < n - 1 {
        assert((sample_leq())(sorted[p], sorted[n - 1]));
    }
    assert(sorted.contains(sorted[0]));
    assert(sorted.contains(sorted[(n / 2) as int]));
    assert(sorted.contains(sorted[p95_index(n) as int]));
    assert(sorted.contains(sorted[n - 1]));
    vstd::seq_lib::lemma_sorted_unique(sorted_samples(reordered), sorted, sample_leq());
    assert(reordered.len() == n) by {
        assert(reordered.to_multiset().len() == samples.to_multiset().len());
    }
}

} // verus!
