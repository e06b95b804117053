//! Observation permits, age accounting, completion causality, and visibility.

use std::time::Duration;

use cogniform::observation::{
    check_observation_capacity, completion_metadata, completion_staleness, visibility_counts,
    FrameSource, ImageDimensions, ObservationError, ObservationKind, ObservationRequest,
};
use cogniform::slots::{duration_micros, elapsed_micros, ObservationSlots};

#[test]
fn global_slots_enforce_capacity_until_delivery_is_released() {
    let mut slots = ObservationSlots::new(2);
    let first = slots.try_acquire_at(0).unwrap();
    let second = slots.try_acquire_at(0).unwrap();
    assert_eq!(slots.in_use(), 2);
    assert!(slots.try_acquire_at(0).is_none());
    slots.release(first);
    assert_eq!(slots.in_use(), 1);
    let replacement = slots.try_acquire_at(0).unwrap();
    assert_eq!(slots.in_use(), 2);
    slots.release(second);
    slots.release(replacement);
    assert_eq!(slots.in_use(), 0);
}

#[test]
fn observation_age_spans_each_live_permit_and_releases_exactly() {
    let started_at = 500_u64;
    let mut slots = ObservationSlots::new(2);
    assert_eq!(slots.oldest_age_micros_at(started_at), None);
    let first = slots.try_acquire_at(started_at).unwrap();
    let second = slots.try_acquire_at(started_at + 4).unwrap();
    assert!(slots.try_acquire_at(started_at + 6).is_none());
    let sampled_at = started_at + 11;
    assert_eq!(slots.oldest_age_micros_at(sampled_at), Some(11));
    slots.release(first);
    assert_eq!(slots.oldest_age_micros_at(sampled_at), Some(7));
    slots.release(second);
    assert_eq!(slots.oldest_age_micros_at(sampled_at), None);
    assert_eq!(duration_micros(Duration::MAX.as_secs(), Duration::MAX.subsec_micros()), u64::MAX);
}

#[test]
fn visibility_counts_are_sorted_and_ignore_background() {
    let first = 1_u128;
    let second = 2_u128;
    let visibility = visibility_counts(&[Some(second), None, Some(first), Some(second)]);
    assert_eq!(visibility, vec![(first, 1), (second, 2)]);
}

#[test]
fn status_reports_count_and_oldest_age_together() {
    let mut slots = ObservationSlots::new(3);
    assert_eq!(slots.capacity(), 3);
    assert_eq!(slots.status_at(10), (0, None));
    let late = slots.try_acquire_at(20).unwrap();
    let _early = slots.try_acquire_at(5).unwrap();
    assert_eq!(slots.status_at(30), (2, Some(25)));
    slots.release(late);
    assert_eq!(slots.status_at(30), (1, Some(25)));
    assert_eq!(slots.status_at(1), (1, Some(0)));
}

#[test]
fn acquire_then_release_restores_the_count() {
    let mut slots = ObservationSlots::new(1);
    let permit = slots.try_acquire_at(7).unwrap();
    assert_eq!(slots.in_use(), 1);
    slots.release(permit);
    assert_eq!(slots.in_use(), 0);
    assert_eq!(slots.status_at(9), (0, None));
    assert!(slots.try_acquire_at(9).is_some());
}

#[test]
fn zero_capacity_admits_nothing() {
    let mut slots = ObservationSlots::new(0);
    assert!(slots.try_acquire_at(0).is_none());
    assert_eq!(slots.in_use(), 0);
}

#[test]
fn duration_and_elapsed_micros_are_exact_and_saturating() {
    assert_eq!(duration_micros(2, 345_678), 2_345_678);
    assert_eq!(duration_micros(u64::MAX / 1_000_000 + 1, 0), u64::MAX);
    assert_eq!(elapsed_micros(15, 10), 5);
    assert_eq!(elapsed_micros(10, 15), 0);
}

#[test]
fn observation_capacity_is_bounded_by_the_queue_limit() {
    assert_eq!(check_observation_capacity(4, 8), Ok(()));
    assert_eq!(check_observation_capacity(8, 8), Ok(()));
    assert_eq!(
        check_observation_capacity(9, 8),
        Err(ObservationError::CapacityExceeded { capacity: 8 })
    );
}

#[test]
fn completion_staleness_checks_camera_then_revision() {
    assert_eq!(completion_staleness(5, 5, 9, 7), Ok(2));
    assert_eq!(completion_staleness(5, 5, 7, 7), Ok(0));
    assert_eq!(
        completion_staleness(5, 6, 9, 7),
        Err(ObservationError::CameraMismatch { requested: 5, rendered: 6 })
    );
    assert_eq!(
        completion_staleness(5, 5, 6, 7),
        Err(ObservationError::SourceRevisionAhead { source: 7, latest: 6 })
    );
}

#[test]
fn background_only_frames_have_no_visible_entities() {
    assert!(visibility_counts(&[None, None]).is_empty());
    assert!(visibility_counts(&[]).is_empty());
    assert_eq!(visibility_counts(&[Some(9), Some(9), Some(3)]), vec![(3, 1), (9, 2)]);
}

#[test]
fn reservation_reports_the_capacity_it_exhausted() {
    let mut slots = ObservationSlots::new(1);
    let permit = slots.try_reserve_at(3).ok().unwrap();
    assert!(matches!(
        slots.try_reserve_at(4),
        Err(ObservationError::CapacityExceeded { capacity: 1 })
    ));
    slots.release(permit);
    assert!(slots.try_reserve_at(5).is_ok());
}

#[test]
fn completed_metadata_binds_request_and_frame_and_omits_visibility_dimensions() {
    let source = FrameSource { scene_revision: 3, frame_id: 4, camera_id: 5, width: 2, height: 1 };
    let color = ObservationRequest { observation_id: 1, camera_id: 5, kind: ObservationKind::Color, quality: 0 };
    let metadata = completion_metadata(color, source, 7, 100, 20).unwrap();
    assert_eq!(metadata.observation_id, 1);
    assert_eq!(metadata.scene_revision, 3);
    assert_eq!(metadata.frame_id, 4);
    assert_eq!(metadata.dimensions, Some(ImageDimensions { width: 2, height: 1 }));
    assert_eq!(metadata.revisions_behind, 4);
    assert_eq!(metadata.latest_known_revision, 7);
    assert_eq!(metadata.observed_at_unix_micros, 100);
    assert_eq!(metadata.production_latency_micros, 20);

    let visibility = ObservationRequest { kind: ObservationKind::Visibility, ..color };
    assert_eq!(completion_metadata(visibility, source, 3, 0, 0).unwrap().dimensions, None);

    let other_camera = ObservationRequest { camera_id: 6, ..color };
    assert_eq!(
        completion_metadata(other_camera, source, 7, 0, 0),
        Err(ObservationError::CameraMismatch { requested: 6, rendered: 5 })
    );
    assert_eq!(
        completion_metadata(color, source, 2, 0, 0),
        Err(ObservationError::SourceRevisionAhead { source: 3, latest: 2 })
    );
}
