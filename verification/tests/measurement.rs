//! Nearest-rank timing distributions and the fixed fixture contract.

use cogniform::measurement::{
    distribution, fixture_sample, measure_controlled_world_fixture, MeasurementError, MeasurementProfile, NanosecondSample, SamplePhase, TimingDistribution,
    WorldMeasurement,
};

fn sample(apply: u128) -> NanosecondSample {
    NanosecondSample {
        apply,
        validate: apply + 1,
        commit: apply + 2,
        extraction: apply + 3,
        logical_hash: apply + 4,
    }
}

#[test]
fn distribution_uses_sorted_nearest_rank_percentiles() {
    let report = TimingDistribution::from_samples((1..=20).rev().collect());
    assert_eq!(report.min_nanos(), 1);
    assert_eq!(report.median_nanos(), 11);
    assert_eq!(report.p95_nanos(), 19);
    assert_eq!(report.max_nanos(), 20);
}

#[test]
fn single_sample_fills_every_statistic() {
    let report = TimingDistribution::from_samples(vec![42]);
    assert_eq!(
        (report.min_nanos(), report.median_nanos(), report.p95_nanos(), report.max_nanos()),
        (42, 42, 42, 42)
    );
}

#[test]
fn thirty_samples_use_the_twenty_ninth_for_p95() {
    let samples: Vec<u128> = (0..30).map(|value| (value * 7) % 30).collect();
    let report = TimingDistribution::from_samples(samples);
    assert_eq!(report.min_nanos(), 0);
    assert_eq!(report.median_nanos(), 15);
    assert_eq!(report.p95_nanos(), 28);
    assert_eq!(report.max_nanos(), 29);
}

#[test]
fn phase_distributions_select_their_own_field() {
    let samples = [sample(30), sample(10), sample(20)];
    let apply = distribution(&samples, SamplePhase::Apply);
    assert_eq!((apply.min_nanos(), apply.median_nanos(), apply.max_nanos()), (10, 20, 30));
    let hash = distribution(&samples, SamplePhase::LogicalHash);
    assert_eq!((hash.min_nanos(), hash.median_nanos(), hash.max_nanos()), (14, 24, 34));
}

#[test]
fn summary_reports_the_fixed_fixture_contract() {
    let samples = [sample(5), sample(1), sample(3)];
    let measurement = WorldMeasurement::summarize(&samples, MeasurementProfile::Release);
    assert_eq!(measurement.fixture_name(), "world-create-empty-v1");
    assert_eq!(measurement.profile(), MeasurementProfile::Release);
    assert_eq!(measurement.profile().name(), "release");
    assert_eq!(MeasurementProfile::Debug.name(), "debug");
    assert_eq!(measurement.operations(), 1_000);
    assert_eq!(measurement.warmup_samples(), 5);
    assert_eq!(measurement.measured_samples(), 30);
    assert_eq!(measurement.apply().median_nanos(), 3);
    assert_eq!(measurement.validate().min_nanos(), 2);
    assert_eq!(measurement.commit().max_nanos(), 7);
    assert_eq!(measurement.extraction().p95_nanos(), 8);
    assert_eq!(measurement.logical_hash().min_nanos(), 5);
}

#[test]
fn fixture_samples_scale_receipt_micros_and_check_the_extraction() {
    let sample = fixture_sample(10, 2, 3, 1_000, 40, 50).unwrap();
    assert_eq!(sample.apply, 10);
    assert_eq!(sample.validate, 2_000);
    assert_eq!(sample.commit, 3_000);
    assert_eq!(sample.extraction, 40);
    assert_eq!(sample.logical_hash, 50);
    assert_eq!(fixture_sample(10, 2, 3, 999, 40, 50).err(), Some(MeasurementError::Contract));
    let largest = fixture_sample(0, u64::MAX, 0, 1_000, 0, 0).unwrap();
    assert_eq!(largest.validate, u128::from(u64::MAX) * 1_000);
}

fn fixed_sample(value: u128) -> NanosecondSample {
    NanosecondSample { apply: value, validate: value * 2, commit: value * 3, extraction: value, logical_hash: value }
}

#[test]
fn controlled_fixture_discards_warmups_and_stops_at_the_first_failure() {
    let mut runs: Vec<Result<NanosecondSample, MeasurementError>> = Vec::new();
    for index in 0..35_u128 {
        // Warmups are far slower and must not reach any statistic.
        let value = if index < 5 { 1_000_000 } else { index };
        runs.push(Ok(fixed_sample(value)));
    }
    let measurement = measure_controlled_world_fixture(&runs, MeasurementProfile::Release).unwrap();
    assert_eq!(measurement.apply().min_nanos(), 5);
    assert_eq!(measurement.apply().max_nanos(), 34);
    assert_eq!(measurement.validate().max_nanos(), 68);

    let mut failed = runs[..7].to_vec();
    failed.push(Err(MeasurementError::Contract));
    assert_eq!(
        measure_controlled_world_fixture(&failed, MeasurementProfile::Debug).err(),
        Some(MeasurementError::Contract)
    );
}
