use scribe_client::gpui_image_lifecycle::{
    plan_crop, CropPlan, GpuiImageCache, GpuiImageError, GpuiImageKey, ImageBoundError,
    ImageLimitName, PixelRect, TerminalImageDefinition, TerminalImageRejectionReason,
};
use scribe_client::gpui_image_spike::{
    spike_fixtures, spike_fixtures_in, Fixture, SpikeAction, SpikeBounds, SpikeError, SpikeRooms,
    SpikeStage, SpikeState,
};
use scribe_client::protocol::SessionId;

fn definition(id: u64, width: u32, height: u32) -> TerminalImageDefinition {
    TerminalImageDefinition {
        id,
        generation: 1,
        width,
        height,
        rgba_bytes: u64::from(width) * u64::from(height) * 4,
        has_alpha: true,
    }
}

const TOO_WIDE: ImageBoundError = ImageBoundError::LimitExceeded(ImageLimitName::Dimensions);
const NO_ROOM: GpuiImageError = GpuiImageError::Bound(ImageBoundError::LimitExceeded(
    ImageLimitName::ViewProjectedGpuBytes,
));

// ---- the cache ----

#[test]
fn red_and_blue_change_places() {
    let mut cache = GpuiImageCache::new(1024);
    let image = definition(1, 2, 1);
    let id = cache.get_or_insert(&image, &[1, 2, 3, 4, 5, 6, 7, 8], Ok(())).unwrap();
    let source = cache.get(GpuiImageKey::from_definition(&image)).unwrap();
    assert_eq!(source.image, id);
    assert_eq!(source.bgra, vec![3, 2, 1, 4, 7, 6, 5, 8]);
}

#[test]
fn a_source_is_built_once() {
    let mut cache = GpuiImageCache::new(1024);
    let image = definition(1, 1, 1);
    let first = cache.get_or_insert(&image, &[0; 4], Ok(())).unwrap();
    assert_eq!(cache.get_or_insert(&image, &[0; 4], Ok(())), Ok(first));
    assert_eq!(cache.stats().render_images_created, 1);
    assert_eq!(cache.stats().cache_reuses, 1);
    assert_eq!(cache.projected_gpu_bytes(), 8);
    let other = TerminalImageDefinition { has_alpha: false, ..image };
    assert_eq!(
        cache.get_or_insert(&other, &[0; 4], Ok(())),
        Err(GpuiImageError::ConflictingDefinition)
    );
    let session = SessionId { value: 7 };
    let second = cache.get_or_insert_for_session(session, &image, &[0; 4], Ok(())).unwrap();
    assert_ne!(first, second);
}

#[test]
fn refused_sources_change_nothing() {
    let mut cache = GpuiImageCache::with_projected_gpu_limit(8, 1024);
    let wide = definition(1, 3, 1);
    assert_eq!(
        cache.get_or_insert(&wide, &[0; 12], Err(TOO_WIDE)),
        Err(GpuiImageError::Bound(TOO_WIDE))
    );
    assert_eq!(
        cache.get_or_insert(&wide, &[0; 11], Ok(())),
        Err(GpuiImageError::CanonicalLength)
    );
    let misstated = TerminalImageDefinition { rgba_bytes: 4, ..definition(1, 2, 1) };
    assert_eq!(
        cache.get_or_insert(&misstated, &[0; 4], Ok(())),
        Err(GpuiImageError::CanonicalLength)
    );
    assert_eq!(cache.get_or_insert(&wide, &[0; 12], Ok(())), Err(NO_ROOM));
    assert_eq!(cache.projected_gpu_bytes(), 0);
    cache.get_or_insert(&definition(2, 1, 1), &[0; 4], Ok(())).unwrap();
    assert_eq!(cache.get_or_insert(&definition(3, 1, 1), &[0; 4], Ok(())), Err(NO_ROOM));
    assert_eq!(cache.stats().pressure_rejections, 2);
    assert_eq!(cache.projected_gpu_bytes(), 8);
}

#[test]
fn limits_stop_at_the_ceiling() {
    let mut cache = GpuiImageCache::with_projected_gpu_limit(u64::MAX, 8);
    assert!(cache.get_or_insert(&definition(1, 1, 1), &[0; 4], Ok(())).is_ok());
    assert_eq!(cache.get_or_insert(&definition(2, 1, 1), &[0; 4], Ok(())), Err(NO_ROOM));
}

#[test]
fn evicted_sources_come_back_as_other_images() {
    let mut cache = GpuiImageCache::new(1024);
    let image = definition(1, 1, 1);
    let key = GpuiImageKey::from_definition(&image);
    let first = cache.get_or_insert(&image, &[0; 4], Ok(())).unwrap();
    assert_eq!(cache.evict(key).unwrap().image, first);
    assert!(cache.evict(key).is_none());
    assert!(cache.get(key).is_none());
    assert_eq!(cache.projected_gpu_bytes(), 0);
    assert_eq!(cache.drop_entry(true, true), Ok(()));
    assert_eq!(cache.drop_entry(false, false), Err(GpuiImageError::DropImage));
    assert_eq!(cache.stats().final_reference_drops, 1);
    assert_eq!(cache.stats().atlas_drops, 1);
    assert_ne!(cache.get_or_insert(&image, &[0; 4], Ok(())).unwrap(), first);
}

#[test]
fn the_oldest_source_goes_first() {
    let mut cache = GpuiImageCache::new(1024);
    for id in [5, 3, 4] {
        cache.get_or_insert(&definition(id, 1, 1), &[0; 4], Ok(())).unwrap();
    }
    let ids = cache.invalidate_atlas();
    assert_eq!(ids.len(), 3);
    assert_eq!(cache.evict_oldest().unwrap().key.image_id, 5);
    assert_eq!(cache.evict_oldest().unwrap().key.image_id, 3);
    assert_eq!(cache.invalidate_atlas(), vec![ids[2]]);
    assert_eq!(cache.evict_oldest().unwrap().key.image_id, 4);
    assert!(cache.evict_oldest().is_none());
}

#[test]
fn sessions_own_their_sources() {
    let mut cache = GpuiImageCache::new(1024);
    let (a, b) = (SessionId { value: 1 }, SessionId { value: 2 });
    for (session, id) in [(a, 1), (b, 2), (a, 3)] {
        cache
            .get_or_insert_for_session(session, &definition(id, 1, 1), &[0; 4], Ok(()))
            .unwrap();
    }
    cache.get_or_insert(&definition(9, 1, 1), &[0; 4], Ok(())).unwrap();
    let ids = |keys: Vec<GpuiImageKey>| keys.iter().map(|k| k.image_id).collect::<Vec<_>>();
    assert_eq!(ids(cache.clear_session(a)), vec![1, 3]);
    let live = vec![GpuiImageKey::for_session(a, &definition(3, 1, 1))];
    assert_eq!(ids(cache.retain_session_definitions(a, &live)), vec![1]);
    assert_eq!(ids(cache.retain_sessions(&vec![a])), vec![2]);
    assert!(!cache.renderer_unavailable());
    assert_eq!(ids(cache.note_renderer_failure(b)), vec![2]);
    assert!(cache.renderer_unavailable());
    cache.get_or_insert(&definition(10, 1, 1), &[0; 4], Ok(())).unwrap();
    assert!(!cache.renderer_unavailable());
}

#[test]
fn refusals_are_put_into_words() {
    let reason = |error: GpuiImageError| error.rejection_reason();
    for error in [GpuiImageError::DropImage, GpuiImageError::PaintImage] {
        assert_eq!(reason(error), TerminalImageRejectionReason::RendererUnavailable);
        assert!(error.is_renderer_failure());
    }
    assert_eq!(reason(NO_ROOM), TerminalImageRejectionReason::QuotaExceeded);
    assert_eq!(
        reason(GpuiImageError::Bound(ImageBoundError::ArithmeticOverflow)),
        TerminalImageRejectionReason::InvalidDimensions
    );
    assert_eq!(
        reason(GpuiImageError::InvalidSourceCrop),
        TerminalImageRejectionReason::InvalidDimensions
    );
    assert_eq!(
        reason(GpuiImageError::AllocationFailed),
        TerminalImageRejectionReason::DecodeFailed
    );
    assert_eq!(NO_ROOM.message(), None);
    assert_eq!(GpuiImageError::PaintImage.message(), Some("GPUI image paint failed"));
}

#[test]
fn crops_lie_within_the_image() {
    let rect = PixelRect { x: 1, y: 2, width: 3, height: 4 };
    assert_eq!(
        plan_crop((4, 6), rect, Ok(()), true),
        Ok(CropPlan {
            source_x: 1,
            source_y: 2,
            source_width: 3,
            source_height: 4,
            image_width: 4,
            image_height: 6,
        })
    );
    assert_eq!(plan_crop((3, 6), rect, Ok(()), true), Err(GpuiImageError::InvalidSourceCrop));
    assert_eq!(plan_crop((4, 6), rect, Ok(()), false), Err(GpuiImageError::InvalidDestination));
    assert_eq!(
        plan_crop((4, 6), rect, Err(TOO_WIDE), true),
        Err(GpuiImageError::Bound(TOO_WIDE))
    );
    let empty = PixelRect { width: 0, ..rect };
    assert_eq!(plan_crop((4, 6), empty, Ok(()), true), Err(GpuiImageError::InvalidSourceCrop));
    let far = PixelRect { x: u32::MAX, ..rect };
    assert_eq!(plan_crop((4, 6), far, Ok(()), true), Err(GpuiImageError::InvalidSourceCrop));
}

// ---- the trial ----

#[test]
fn fixtures_are_filled() {
    let solid = Fixture::solid(2, 2, 1, [9, 8, 7, 6], Ok(())).unwrap();
    assert_eq!(solid.rgba, vec![9, 8, 7, 6, 9, 8, 7, 6]);
    assert_eq!(solid.definition.rgba_bytes, 8);
    let quarters = Fixture::quadrants(1, 2, 2, Ok(())).unwrap();
    assert_eq!(
        quarters.rgba,
        vec![255, 0, 0, 255, 0, 255, 0, 255, 0, 0, 255, 255, 255, 255, 0, 255]
    );
}

fn trial() -> SpikeState {
    SpikeState::new(
        1024,
        8,
        (
            Fixture::quadrants(1, 2, 2, Ok(())).unwrap(),
            Fixture::solid(2, 8, 1, [1, 2, 3, 255], Ok(())).unwrap(),
            Fixture::solid(3, 1, 1, [1, 2, 3, 128], Ok(())).unwrap(),
        ),
        Err(TOO_WIDE),
    )
    .unwrap()
}

const WITHIN: SpikeBounds = SpikeBounds { source: Ok(()), max_axis: Ok(()), one_pixel: Ok(()) };

#[test]
fn the_trial_goes_through_its_stages() {
    let mut state = trial();
    assert_eq!(state.cached_ids(), Err(SpikeError::SourceNotCached));
    assert_eq!(state.handle_key("x"), Ok(SpikeAction::Nothing));
    let (ids, first) = state.ensure_images(WITHIN).unwrap();
    assert!(first);
    assert_eq!(state.stage, SpikeStage::Initial);
    assert_eq!(state.cached_ids(), Ok(ids));

    assert_eq!(state.handle_key("d"), Ok(SpikeAction::InvalidateAtlas(ids)));
    state.invalidated(ids);
    assert_eq!(state.ensure_images(WITHIN), Ok((ids, false)));
    assert_eq!(state.stage, SpikeStage::Recovered);

    assert_eq!(state.handle_key("e"), Ok(SpikeAction::EvictAll(ids)));
    while state.cache.evict_oldest().is_some() {}
    assert_eq!(state.evicted(ids, 2), Err(SpikeError::NotFinalReferences));
    assert_eq!(state.evicted(ids, 3), Ok(()));
    let (again, _) = state.ensure_images(WITHIN).unwrap();
    assert_ne!(again.source, ids.source);
    assert_eq!(state.stage, SpikeStage::Recreated);
}

#[test]
fn the_trial_stops_at_the_first_refusal() {
    let mut state = trial();
    let bounds = SpikeBounds { max_axis: Err(TOO_WIDE), ..WITHIN };
    assert_eq!(
        state.ensure_images(bounds),
        Err(SpikeError::Image(GpuiImageError::Bound(TOO_WIDE)))
    );
    assert_eq!(state.cached_ids(), Err(SpikeError::MaxAxisNotCached));
    assert_eq!(state.stage, SpikeStage::Initial);
    state.stage = SpikeStage::Evicted;
    assert_eq!(state.ensure_images(WITHIN), Err(SpikeError::NoIdsBeforeEviction));
}

#[test]
fn sources_that_are_too_wide_have_to_be_refused() {
    let fixtures = || {
        (
            Fixture::quadrants(1, 2, 2, Ok(())).unwrap(),
            Fixture::solid(2, 8, 1, [0; 4], Ok(())).unwrap(),
            Fixture::solid(3, 1, 1, [0; 4], Ok(())).unwrap(),
        )
    };
    assert_eq!(
        SpikeState::new(1024, 8, fixtures(), Ok(())).unwrap_err(),
        SpikeError::Image(GpuiImageError::CanonicalLength)
    );
    let overflow = ImageBoundError::ArithmeticOverflow;
    assert_eq!(
        SpikeState::new(1024, 8, fixtures(), Err(overflow)).unwrap_err(),
        SpikeError::Image(GpuiImageError::Bound(overflow))
    );
}

// ---- room for pixels ----

#[test]
fn sources_are_built_in_the_room_that_there_is() {
    let mut cache = GpuiImageCache::new(1024);
    let image = definition(1, 1, 1);
    let key = GpuiImageKey::from_definition(&image);
    assert_eq!(
        cache.insert_reserved(key, &image, &[1, 2, 3, 4], None),
        Err(GpuiImageError::AllocationFailed)
    );
    assert!(cache.get(key).is_none());
    assert_eq!(
        cache.insert_reserved(key, &definition(1, 2, 1), &[1, 2, 3, 4], Some(Vec::new())),
        Err(GpuiImageError::CanonicalLength)
    );
    assert_eq!(cache.stats().render_images_created, 0);
    let id = cache.insert_reserved(key, &image, &[1, 2, 3, 4], Some(Vec::new())).unwrap();
    assert_eq!(cache.get(key).unwrap().image, id);
    assert_eq!(cache.get(key).unwrap().bgra, vec![3, 2, 1, 4]);
    assert_eq!(cache.projected_gpu_bytes(), 8);
    assert_eq!(cache.stats().render_images_created, 1);
}

#[test]
fn the_trial_has_its_sources() {
    let (source, max_axis, one_pixel) = spike_fixtures(8, WITHIN).unwrap();
    assert_eq!((source.definition.id, source.definition.width), (1, 128));
    assert_eq!(source.rgba.len(), 4 * 128 * 128);
    assert_eq!(source.rgba[..4], [255, 0, 0, 255]);
    assert_eq!((max_axis.definition.id, max_axis.definition.width), (2, 8));
    assert_eq!(max_axis.definition.height, 1);
    assert_eq!(max_axis.rgba[..4], [0, 160, 255, 255]);
    assert!(!max_axis.definition.has_alpha);
    assert_eq!(one_pixel.definition.id, 3);
    assert_eq!(one_pixel.rgba, vec![255, 0, 255, 255]);
    let bounds = SpikeBounds { max_axis: Err(TOO_WIDE), ..WITHIN };
    assert_eq!(
        spike_fixtures(8, bounds).unwrap_err(),
        SpikeError::Image(GpuiImageError::Bound(TOO_WIDE))
    );
}

#[test]
fn fixtures_need_room() {
    let failed = SpikeError::Image(GpuiImageError::AllocationFailed);
    assert_eq!(Fixture::solid_in(2, 2, 1, [0; 4], Ok(()), None).unwrap_err(), failed);
    assert_eq!(Fixture::quadrants_in(1, 2, 2, Ok(()), None).unwrap_err(), failed);
    let room = || Some(Vec::new());
    assert_eq!(
        Fixture::solid_in(2, 2, 1, [9; 4], Ok(()), room()).unwrap().rgba,
        vec![9; 8]
    );
    let rooms = SpikeRooms { source: room(), max_axis: room(), one_pixel: None };
    assert_eq!(spike_fixtures_in(8, WITHIN, rooms).unwrap_err(), failed);
}
