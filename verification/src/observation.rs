//! Observation admission bounds, completion causality, and visibility counts.

use vstd::prelude::*;

verus! {

/// Bounded observation admission, completion, or causality failure.
#[derive(Debug, Clone, Copy, PartialEq, Eq, Structural)]
pub enum ObservationError {
    /// The requested exact revision is not currently authoritative.
    RequestRevisionMismatch { requested: u64, current: u64 },
    /// The configured number of outstanding requests is already admitted.
    CapacityExceeded { capacity: u32 },
    /// The worker or one of its bounded channels is unavailable.
    WorkerUnavailable,
    /// The supplied latest revision was older than the frame's source revision.
    SourceRevisionAhead { source: u64, latest: u64 },
    /// The completed frame did not represent the exact requested revision.
    SourceRevisionMismatch { requested: u64, rendered: u64 },
    /// The request camera disagreed with the submitted frame source.
    CameraMismatch { requested: u128, rendered: u128 },
}

/// Rejects an observation capacity above the protocol queue bound.
pub fn check_observation_capacity(capacity: u32, max_queue_capacity: u32) -> (result: Result<
    (),
    ObservationError,
>)
    ensures
        capacity > max_queue_capacity ==> result == Err::<(), ObservationError>(
            ObservationError::CapacityExceeded { capacity: max_queue_capacity },
        ),
        capacity <= max_queue_capacity ==> result == Ok::<(), ObservationError>(()),
{
    if capacity > max_queue_capacity {
        Err(ObservationError::CapacityExceeded { capacity: max_queue_capacity })
    } else {
        Ok(())
    }
}

/// Checks a completed frame against its request and returns how many
/// revisions it is behind the latest known revision.
pub fn completion_staleness(
    requested_camera: u128,
    rendered_camera: u128,
    latest_known_revision: u64,
    source_revision: u64,
) -> (result: Result<u64, ObservationError>)
    ensures
        requested_camera != rendered_camera ==> result == Err::<u64, ObservationError>(
            ObservationError::CameraMismatch {
                requested: requested_camera,
                rendered: rendered_camera,
            },
        ),
        requested_camera == rendered_camera && latest_known_revision < source_revision ==> result
            == Err::<u64, ObservationError>(
            ObservationError::SourceRevisionAhead {
                source: source_revision,
                latest: latest_known_revision,
            },
        ),
        requested_camera == rendered_camera && latest_known_revision >= source_revision ==> result
            == Ok::<u64, ObservationError>((latest_known_revision - source_revision) as u64),
{
    if requested_camera != rendered_camera {
        return Err(
            ObservationError::CameraMismatch { requested: requested_camera, rendered: rendered_camera },
        );
    }
    if latest_known_revision < source_revision {
        return Err(
            ObservationError::SourceRevisionAhead {
                source: source_revision,
                latest: latest_known_revision,
            },
        );
    }
    Ok(latest_known_revision - source_revision)
}

/// Kind of observation payload.
#[derive(Debug, Clone, Copy, PartialEq, Eq, Structural)]
pub enum ObservationKind {
    /// Color pixels.
    Color,
    /// Depth pixels.
    Depth,
    /// Surface normal pixels.
    Normal,
    /// Stable entity identity per pixel.
    EntityId,
    /// Visible pixel count per entity.
    Visibility,
}

/// One observation request, reduced to what its completion reads.
#[derive(Debug, Clone, Copy, PartialEq, Eq, Structural)]
pub struct ObservationRequest {
    /// Public identity of the requested result.
    pub observation_id: u128,
    /// Stable extracted camera identity.
    pub camera_id: u128,
    /// Requested payload kind.
    pub kind: ObservationKind,
    /// Requested quality tier.
    pub quality: u8,
}

/// What a rendered frame reports about its source.
#[derive(Debug, Clone, Copy, PartialEq, Eq, Structural)]
pub struct FrameSource {
    /// Revision the frame rendered.
    pub scene_revision: u64,
    /// Frame identity.
    pub frame_id: u64,
    /// Camera the frame rendered from.
    pub camera_id: u128,
    /// Frame width in pixels.
    pub width: u32,
    /// Frame height in pixels.
    pub height: u32,
}

/// Image dimensions of an observation.
#[derive(Debug, Clone, Copy, PartialEq, Eq, Structural)]
pub struct ImageDimensions {
    /// Width in pixels.
    pub width: u32,
    /// Height in pixels.
    pub height: u32,
}

/// The causal envelope of one completed observation.
#[derive(Debug, Clone, Copy, PartialEq, Eq, Structural)]
pub struct ObservationMetadata {
    /// Public identity of the result.
    pub observation_id: u128,
    /// Revision the frame rendered.
    pub scene_revision: u64,
    /// Frame identity.
    pub frame_id: u64,
    /// Camera the frame rendered from.
    pub camera_id: u128,
    /// Payload kind.
    pub kind: ObservationKind,
    /// Image dimensions; absent exactly for a visibility observation.
    pub dimensions: Option<ImageDimensions>,
    /// Quality tier.
    pub quality: u8,
    /// Wall-clock time of the observation in microseconds.
    pub observed_at_unix_micros: u64,
    /// Time from admission to readback in microseconds.
    pub production_latency_micros: u64,
    /// Latest revision known when the observation completed.
    pub latest_known_revision: u64,
    /// How many revisions the frame is behind the latest known revision.
    pub revisions_behind: u64,
}

/// The metadata a checked completion carries.
pub open spec fn spec_metadata(
    request: ObservationRequest,
    source: FrameSource,
    latest_known_revision: u64,
    observed_at_unix_micros: u64,
    production_latency_micros: u64,
) -> ObservationMetadata {
    ObservationMetadata {
        observation_id: request.observation_id,
        scene_revision: source.scene_revision,
        frame_id: source.frame_id,
        camera_id: source.camera_id,
        kind: request.kind,
        dimensions: if request.kind == ObservationKind::Visibility {
            None
        } else {
            Some(ImageDimensions { width: source.width, height: source.height })
        },
        quality: request.quality,
        observed_at_unix_micros,
        production_latency_micros,
        latest_known_revision,
        revisions_behind: (latest_known_revision - source.scene_revision) as u64,
    }
}

/// Completed metadata echoes its request (identity, kind, and quality) and
/// its frame (revision, frame, and camera), and places the frame's revision
/// exactly `revisions_behind` behind the latest known one.
pub proof fn lemma_metadata_echoes_request_and_frame(
    request: ObservationRequest,
    source: FrameSource,
    latest_known_revision: u64,
    observed_at_unix_micros: u64,
    production_latency_micros: u64,
)
    requires
        source.scene_revision <= latest_known_revision,
    ensures
        ({
            let m = spec_metadata(
                request,
                source,
                latest_known_revision,
                observed_at_unix_micros,
                production_latency_micros,
            );
            &&& m.observation_id == request.observation_id
            &&& m.kind == request.kind
            &&& m.quality == request.quality
            &&& m.scene_revision == source.scene_revision
            &&& m.frame_id == source.frame_id
            &&& m.camera_id == source.camera_id
            &&& m.scene_revision + m.revisions_behind == latest_known_revision
            &&& (m.dimensions is None <==> request.kind == ObservationKind::Visibility)
        }),
{
}

/// Builds the metadata of a completed frame: the camera must be the one
/// requested and the frame's revision must not be ahead of the latest known
/// revision; the dimensions are those of the frame, absent exactly for a
/// visibility observation.
pub fn completion_metadata(
    request: ObservationRequest,
    source: FrameSource,
    latest_known_revision: u64,
    observed_at_unix_micros: u64,
    production_latency_micros: u64,
) -> (result: Result<ObservationMetadata, ObservationError>)
    ensures
        request.camera_id != source.camera_id ==> result == Err::<
            ObservationMetadata,
            ObservationError,
        >(
            ObservationError::CameraMismatch {
                requested: request.camera_id,
                rendered: source.camera_id,
            },
        ),
        request.camera_id == source.camera_id && latest_known_revision < source.scene_revision
            ==> result == Err::<ObservationMetadata, ObservationError>(
            ObservationError::SourceRevisionAhead {
                source: source.scene_revision,
                latest: latest_known_revision,
            },
        ),
        request.camera_id == source.camera_id && latest_known_revision >= source.scene_revision
            ==> result == Ok::<ObservationMetadata, ObservationError>(
            spec_metadata(
                request,
                source,
                latest_known_revision,
                observed_at_unix_micros,
                production_latency_micros,
            ),
        ),
        result matches Ok(m) ==> (m.dimensions is None <==> m.kind == ObservationKind::Visibility),
        result matches Ok(m) ==> {
            &&& m.observation_id == request.observation_id
            &&& m.kind == request.kind
            &&& m.quality == request.quality
            &&& m.camera_id == request.camera_id
            &&& m.scene_revision == source.scene_revision
            &&& m.frame_id == source.frame_id
            &&& m.latest_known_revision == latest_known_revision
            &&& m.scene_revision + m.revisions_behind == latest_known_revision
            &&& m.observed_at_unix_micros == observed_at_unix_micros
            &&& m.production_latency_micros == production_latency_micros
            &&& (m.dimensions matches Some(d) ==> d.width == source.width && d.height
                == source.height)
        },
{
    let revisions_behind = match completion_staleness(
        request.camera_id,
        source.camera_id,
        latest_known_revision,
        source.scene_revision,
    ) {
        Err(e) => {
            return Err(e);
        },
        Ok(behind) => behind,
    };
    let dimensions = match request.kind {
        ObservationKind::Visibility => None,
        _ => Some(ImageDimensions { width: source.width, height: source.height }),
    };
    Ok(
        ObservationMetadata {
            observation_id: request.observation_id,
            scene_revision: source.scene_revision,
            frame_id: source.frame_id,
            camera_id: source.camera_id,
            kind: request.kind,
            dimensions,
            quality: request.quality,
            observed_at_unix_micros,
            production_latency_micros,
            latest_known_revision,
            revisions_behind,
        },
    )
}

/// Pixels attributed to `entity_id` in `pixels`.
pub open spec fn pixel_count(pixels: Seq<Option<u128>>, entity_id: u128) -> nat
    decreases pixels.len(),
{
    if pixels.len() == 0 {
        0
    } else {
        pixel_count(pixels.drop_last(), entity_id) + if pixels.last() == Some(entity_id) {
            1nat
        } else {
            0nat
        }
    }
}

/// `counts` lists each entity seen in `pixels` once, in ascending identity
/// order, with its exact non-zero pixel count.
pub open spec fn is_visibility_of(counts: Seq<(u128, u64)>, pixels: Seq<Option<u128>>) -> bool {
    &&& forall|i: int, j: int| 0 <= i < j < counts.len() ==> #[trigger] counts[i].0 < #[trigger] counts[j].0
    &&& forall|i: int|
        0 <= i < counts.len() ==> #[trigger] counts[i].1 as nat == pixel_count(pixels, counts[i].0)
            && counts[i].1 > 0
    &&& forall|id: u128|
        pixel_count(pixels, id) > 0 ==> exists|i: int| 0 <= i < counts.len() && #[trigger] counts[i].0 == id
}

proof fn lemma_pixel_count_bound(pixels: Seq<Option<u128>>, entity_id: u128)
    ensures
        pixel_count(pixels, entity_id) <= pixels.len(),
    decreases pixels.len(),
{
    if pixels.len() > 0 {
        lemma_pixel_count_bound(pixels.drop_last(), entity_id);
    }
}

/// Counts the pixels of each entity, ignoring background pixels, and lists
/// the entities in ascending identity order.
pub fn visibility_counts(pixels: &[Option<u128>]) -> (counts: Vec<(u128, u64)>)
    ensures
        is_visibility_of(counts@, pixels@),
{
    let mut counts: Vec<(u128, u64)> = Vec::new();
    let mut p: usize = 0;
    while p < pixels.len()
        invariant
            p <= pixels@.len(),
            is_visibility_of(counts@, pixels@.subrange(0, p as int)),
        decreases pixels@.len() - p,
    {
        let ghost prefix = pixels@.subrange(0, p as int);
        let ghost next = pixels@.subrange(0, p + 1);
        assert(next.drop_last() =~= prefix);
        let ghost old_counts = counts@;
        match pixels[p] {
            None => {
                assert forall|id: u128| pixel_count(next, id) == pixel_count(prefix, id) by {}
            },
            Some(id) => {
                let mut k: usize = 0;
                while k < counts.len() && counts[k].0 < id
                    invariant
                        k <= counts@.len(),
                        counts@ == old_counts,
                        forall|j: int| 0 <= j < k ==> #[trigger] counts@[j].0 < id,
                    decreases counts@.len() - k,
                {
                    k = k + 1;
                }
                proof {
                    lemma_pixel_count_bound(prefix, id);
                }
                if k < counts.len() && counts[k].0 == id {
                    let current = counts[k].1;
                    counts.set(k, (id, current + 1));
                    proof {
                        assert forall|i: int, j: int|
                            0 <= i < j < counts@.len() implies #[trigger] counts@[i].0
                            < #[trigger] counts@[j].0 by {
                            assert(old_counts[i].0 < old_counts[j].0);
                        }
                        assert forall|i: int| 0 <= i < counts@.len() implies #[trigger] counts@[i].1 as nat
                            == pixel_count(next, counts@[i].0) && counts@[i].1 > 0 by {
                            if i != k as int {
                                assert(old_counts[i].0 != id);
                            }
                        }
                        assert forall|other: u128| pixel_count(next, other) > 0 implies exists|i: int|
                            0 <= i < counts@.len() && #[trigger] counts@[i].0 == other by {
                            if other == id {
                                assert(counts@[k as int].0 == other);
                            } else {
                                assert(pixel_count(next, other) == pixel_count(prefix, other));
                                let i = choose|i: int|
                                    0 <= i < old_counts.len() && #[trigger] old_counts[i].0 == other;
                                assert(i != k as int);
                                assert(counts@[i].0 == other);
                            }
                        }
                    }
                } else {
                    counts.insert(k, (id, 1));
                    proof {
                        assert(pixel_count(prefix, id) == 0) by {
                            if pixel_count(prefix, id) > 0 {
                                let i = choose|i: int|
                                    0 <= i < old_counts.len() && #[trigger] old_counts[i].0 == id;
                                if i < k {
                                    assert(old_counts[i].0 < id);
                                } else {
                                    assert(old_counts[k as int].0 <= old_counts[i].0);
                                    assert(old_counts[k as int].0 != id);
                                }
                            }
                        }
                        assert forall|i: int, j: int|
                            0 <= i < j < counts@.len() implies #[trigger] counts@[i].0
                            < #[trigger] counts@[j].0 by {
                            let ci = counts@[i];
                            let cj = counts@[j];
                            if j < k {
                                assert(ci == old_counts[i]);
                                assert(cj == old_counts[j]);
                            } else if i < k && j == k {
                                assert(ci == old_counts[i]);
                            } else if i < k && j > k {
                                assert(ci == old_counts[i]);
                                assert(cj == old_counts[j - 1]);
                                assert(old_counts[i].0 < old_counts[j - 1].0 || i == j - 1);
                            } else if i == k {
                                assert(cj == old_counts[j - 1]);
                                if j - 1 > k {
                                    assert(old_counts[k as int].0 < old_counts[j - 1].0);
                                }
                                assert(old_counts[k as int].0 != id);
                                assert(old_counts[k as int].0 >= id);
                            } else {
                                assert(ci == old_counts[i - 1]);
                                assert(cj == old_counts[j - 1]);
                            }
                        }
                        assert forall|i: int| 0 <= i < counts@.len() implies #[trigger] counts@[i].1 as nat
                            == pixel_count(next, counts@[i].0) && counts@[i].1 > 0 by {
                            if i < k {
                                assert(counts@[i] == old_counts[i]);
                                assert(old_counts[i].0 != id);
                            } else if i > k {
                                assert(counts@[i] == old_counts[i - 1]);
                                assert(old_counts[i - 1].0 != id) by {
                                    if i - 1 > k {
                                        assert(old_counts[k as int].0 < old_counts[i - 1].0);
                                    }
                                }
                            }
                        }
                        assert forall|other: u128| pixel_count(next, other) > 0 implies exists|i: int|
                            0 <= i < counts@.len() && #[trigger] counts@[i].0 == other by {
                            if other == id {
                                assert(counts@[k as int].0 == other);
                            } else {
                                assert(pixel_count(next, other) == pixel_count(prefix, other));
                                let i = choose|i: int|
                                    0 <= i < old_counts.len() && #[trigger] old_counts[i].0 == other;
                                if i < k {
                                    assert(counts@[i].0 == other);
                                } else {
                                    assert(counts@[i + 1].0 == other);
                                }
                            }
                        }
                    }
                }
            },
        }
        p = p + 1;
    }
    assert(pixels@.subrange(0, pixels@.len() as int) =~= pixels@);
    counts
}

} // verus!
