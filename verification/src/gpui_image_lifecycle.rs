//! The images that a window keeps on the GPU for its terminals.
//!
//! Each source is held once, whatever the number of its placements and crops.
//! The cache never charges more than its limit, and refuses a source rather than
//! drop one that may already be queued for painting.

use vstd::prelude::*;

use crate::protocol::SessionId;

verus! {

/// What a decoded image is.
#[derive(Debug, Clone, Copy, PartialEq, Eq, Structural)]
pub struct TerminalImageDefinition {
    pub id: u64,
    pub generation: u64,
    pub width: u32,
    pub height: u32,
    /// How many bytes its pixels take up, four to a pixel.
    pub rgba_bytes: u64,
    pub has_alpha: bool,
}

/// One decoded source in a window.
#[derive(Debug, Clone, Copy, PartialEq, Eq, Structural, Hash)]
pub struct GpuiImageKey {
    pub session_id: Option<SessionId>,
    pub image_id: u64,
    pub generation: u64,
}

impl GpuiImageKey {
    /// The key of a source that belongs to no session.
    pub fn from_definition(definition: &TerminalImageDefinition) -> (r: Self)
        ensures
            r == (GpuiImageKey {
                session_id: None,
                image_id: definition.id,
                generation: definition.generation,
            }),
    {
        GpuiImageKey {
            session_id: None,
            image_id: definition.id,
            generation: definition.generation,
        }
    }

    /// The key of a source that belongs to a session.
    pub fn for_session(session_id: SessionId, definition: &TerminalImageDefinition) -> (r: Self)
        ensures
            r == (GpuiImageKey {
                session_id: Some(session_id),
                image_id: definition.id,
                generation: definition.generation,
            }),
    {
        GpuiImageKey {
            session_id: Some(session_id),
            image_id: definition.id,
            generation: definition.generation,
        }
    }
}

/// Counters of what the cache did. They stop at their largest value.
#[derive(Debug, Clone, Copy, PartialEq, Eq, Structural)]
pub struct GpuiImageCacheStats {
    pub render_images_created: u64,
    pub cache_reuses: u64,
    pub pressure_rejections: u64,
    pub atlas_drops: u64,
    pub final_reference_drops: u64,
}

impl Default for GpuiImageCacheStats {
    fn default() -> (r: Self)
        ensures
            r == (GpuiImageCacheStats {
                render_images_created: 0,
                cache_reuses: 0,
                pressure_rejections: 0,
                atlas_drops: 0,
                final_reference_drops: 0,
            }),
    {
        GpuiImageCacheStats {
            render_images_created: 0,
            cache_reuses: 0,
            pressure_rejections: 0,
            atlas_drops: 0,
            final_reference_drops: 0,
        }
    }
}

/// A limit on images.
#[derive(Debug, Clone, Copy, PartialEq, Eq, Structural)]
pub enum ImageLimitName {
    Dimensions,
    ViewProjectedGpuBytes,
    /// Any other limit, by its number.
    Other(u32),
}

/// Why an image is out of bounds.
#[derive(Debug, Clone, Copy, PartialEq, Eq, Structural)]
pub enum ImageBoundError {
    ArithmeticOverflow,
    LimitExceeded(ImageLimitName),
    /// Any other reason, by its number.
    Other(u32),
}

/// What the user is told about an image that is not shown.
#[derive(Debug, Clone, Copy, PartialEq, Eq, Structural)]
pub enum TerminalImageRejectionReason {
    RendererUnavailable,
    QuotaExceeded,
    InvalidDimensions,
    DecodeFailed,
}

/// Why an image is not shown.
#[derive(Debug, Clone, Copy, PartialEq, Eq, Structural)]
pub enum GpuiImageError {
    Bound(ImageBoundError),
    CanonicalLength,
    ConflictingDefinition,
    AllocationFailed,
    InvalidSourceCrop,
    InvalidDestination,
    DropImage,
    PaintImage,
}

impl GpuiImageError {
    /// Whether the renderer itself failed.
    pub open spec fn of_renderer(self) -> bool {
        self == GpuiImageError::DropImage || self == GpuiImageError::PaintImage
    }

    /// Whether the renderer itself failed, rather than one image being refused.
    pub fn is_renderer_failure(&self) -> (r: bool)
        ensures
            r == self.of_renderer(),
    {
        match self {
            GpuiImageError::DropImage => true,
            GpuiImageError::PaintImage => true,
            _ => false,
        }
    }

    /// What the user is told.
    pub open spec fn reason(self) -> TerminalImageRejectionReason {
        match self {
            GpuiImageError::DropImage | GpuiImageError::PaintImage => {
                TerminalImageRejectionReason::RendererUnavailable
            },
            GpuiImageError::Bound(ImageBoundError::LimitExceeded(_)) => {
                TerminalImageRejectionReason::QuotaExceeded
            },
            GpuiImageError::Bound(_)
            | GpuiImageError::InvalidSourceCrop
            | GpuiImageError::InvalidDestination => TerminalImageRejectionReason::InvalidDimensions,
            GpuiImageError::CanonicalLength
            | GpuiImageError::ConflictingDefinition
            | GpuiImageError::AllocationFailed => TerminalImageRejectionReason::DecodeFailed,
        }
    }

    /// What the user is told.
    pub fn rejection_reason(&self) -> (r: TerminalImageRejectionReason)
        ensures
            r == self.reason(),
    {
        match self {
            GpuiImageError::DropImage => TerminalImageRejectionReason::RendererUnavailable,
            GpuiImageError::PaintImage => TerminalImageRejectionReason::RendererUnavailable,
            GpuiImageError::Bound(ImageBoundError::LimitExceeded(_)) => {
                TerminalImageRejectionReason::QuotaExceeded
            },
            GpuiImageError::Bound(_) => TerminalImageRejectionReason::InvalidDimensions,
            GpuiImageError::InvalidSourceCrop => TerminalImageRejectionReason::InvalidDimensions,
            GpuiImageError::InvalidDestination => TerminalImageRejectionReason::InvalidDimensions,
            GpuiImageError::CanonicalLength => TerminalImageRejectionReason::DecodeFailed,
            GpuiImageError::ConflictingDefinition => TerminalImageRejectionReason::DecodeFailed,
            GpuiImageError::AllocationFailed => TerminalImageRejectionReason::DecodeFailed,
        }
    }

    /// The message for the log; none for a bound, which has a message of its own.
    pub fn message(&self) -> (r: Option<&'static str>)
        ensures
            r is None <==> self is Bound,
            *self == GpuiImageError::CanonicalLength ==> r->0@
                == "canonical RGBA bytes do not match image metadata"@,
            *self == GpuiImageError::ConflictingDefinition ==> r->0@
                == "an image key was reused with different metadata"@,
            *self == GpuiImageError::AllocationFailed ==> r->0@
                == "canonical RGBA allocation failed"@,
            *self == GpuiImageError::InvalidSourceCrop ==> r->0@
                == "source crop is outside the canonical image"@,
            *self == GpuiImageError::InvalidDestination ==> r->0@
                == "destination image bounds must be positive and finite"@,
            *self == GpuiImageError::DropImage ==> r->0@ == "GPUI image atlas cleanup failed"@,
            *self == GpuiImageError::PaintImage ==> r->0@ == "GPUI image paint failed"@,
    {
        match self {
            GpuiImageError::Bound(_) => None,
            GpuiImageError::CanonicalLength => {
                Some("canonical RGBA bytes do not match image metadata")
            },
            GpuiImageError::ConflictingDefinition => {
                Some("an image key was reused with different metadata")
            },
            GpuiImageError::AllocationFailed => Some("canonical RGBA allocation failed"),
            GpuiImageError::InvalidSourceCrop => Some("source crop is outside the canonical image"),
            GpuiImageError::InvalidDestination => {
                Some("destination image bounds must be positive and finite")
            },
            GpuiImageError::DropImage => Some("GPUI image atlas cleanup failed"),
            GpuiImageError::PaintImage => Some("GPUI image paint failed"),
        }
    }
}

/// The user is told that the renderer is unavailable exactly where the renderer
/// failed: no refusal of one image is blamed on it.
pub proof fn only_the_renderer_is_blamed_for_the_renderer(error: GpuiImageError)
    ensures
        error.reason() == TerminalImageRejectionReason::RendererUnavailable <==>
            error.of_renderer(),
{
}

// ---- Pixels ----

/// Pixels with red and blue exchanged: of each four bytes the first and third
/// change places. Bytes after the last whole pixel are left out.
pub open spec fn swapped(rgba: Seq<u8>) -> Seq<u8> {
    Seq::new(
        rgba.len() / 4 * 4,
        |i: int|
            if i % 4 == 0 {
                rgba[i + 2]
            } else if i % 4 == 2 {
                rgba[i - 2]
            } else {
                rgba[i]
            },
    )
}

/// Whether a buffer of `len` bytes holds an image of the given size, four bytes
/// to a pixel.
pub open spec fn holds_image(width: u32, height: u32, len: nat) -> bool {
    4 * width <= usize::MAX && 4 * width * height <= len
}

/// `image::ImageBuffer::from_raw` accepts a buffer that is at least as long as
/// the image's channels, and `into_raw` hands the same buffer back; that length
/// is computed by checked multiplication, first by the width.
#[verifier::external_body]
fn image_buffer(width: u32, height: u32, raw: Vec<u8>) -> (r: Option<Vec<u8>>)
    ensures
        r is Some <==> holds_image(width, height, raw@.len()),
        r matches Some(kept) ==> kept@ == raw@,
{
    image::ImageBuffer::<image::Rgba<u8>, Vec<u8>>::from_raw(width, height, raw)
        .map(|buffer| buffer.into_raw())
}

/// How many bytes the pixels take up for the renderer.
fn pixel_room(canonical_rgba: &[u8]) -> (r: usize)
    ensures
        r == canonical_rgba@.len(),
{
    canonical_rgba.len()
}

/// An empty buffer with room for `len` bytes, where memory for it can be had.
/// That is up to the machine.
pub(crate) fn reserve_pixels(len: usize) -> (r: Option<Vec<u8>>)
    ensures
        r matches Some(room) ==> room@.len() == 0,
{
    let mut room: Vec<u8> = Vec::new();
    match room.try_reserve(len) {
        Ok(()) => Some(room),
        Err(_) => None,
    }
}

/// The pixels in the order in which the renderer wants them, in a buffer that was
/// reserved for them.
fn build_render_image(
    definition: &TerminalImageDefinition,
    canonical_rgba: &[u8],
    room: Vec<u8>,
) -> (r: Option<Vec<u8>>)
    requires
        room@.len() == 0,
    ensures
        match r {
            Some(bgra) => bgra@ == swapped(canonical_rgba@) && holds_image(
                definition.width,
                definition.height,
                bgra@.len(),
            ),
            None => !holds_image(
                definition.width,
                definition.height,
                swapped(canonical_rgba@).len(),
            ),
        },
{
    let mut bgra = room;
    let ghost all = swapped(canonical_rgba@);
    let mut i: usize = 0;
    proof {
        assert(bgra@ =~= all.take(0));
    }
    while canonical_rgba.len() - i >= 4
        invariant
            i <= canonical_rgba@.len(),
            i % 4 == 0,
            all == swapped(canonical_rgba@),
            bgra@ == all.take(i as int),
        decreases canonical_rgba@.len() - i,
    {
        bgra.push(canonical_rgba[i + 2]);
        bgra.push(canonical_rgba[i + 1]);
        bgra.push(canonical_rgba[i]);
        bgra.push(canonical_rgba[i + 3]);
        i += 4;
        proof {
            assert(i <= canonical_rgba@.len() / 4 * 4);
            assert(bgra@ =~= all.take(i as int));
        }
    }
    proof {
        assert(i == canonical_rgba@.len() / 4 * 4);
        assert(all.take(i as int) =~= all);
    }
    image_buffer(definition.width, definition.height, bgra)
}

// ---- The cache ----

/// A source in the cache: what it is, and the pixels that are uploaded.
#[derive(Debug)]
pub struct SourceImage {
    pub key: GpuiImageKey,
    pub definition: TerminalImageDefinition,
    /// Names this upload; never given twice.
    pub image: u64,
    pub bgra: Vec<u8>,
}

/// What a source in the cache amounts to.
#[verifier::ext_equal]
pub struct SourceModel {
    pub key: GpuiImageKey,
    pub definition: TerminalImageDefinition,
    pub image: u64,
    pub bgra: Seq<u8>,
}

impl View for SourceImage {
    type V = SourceModel;

    open spec fn view(&self) -> SourceModel {
        SourceModel {
            key: self.key,
            definition: self.definition,
            image: self.image,
            bgra: self.bgra@,
        }
    }
}

/// What the sources of a cache amount to.
pub open spec fn source_models(sources: Seq<SourceImage>) -> Seq<SourceModel> {
    Seq::new(sources.len(), |i: int| sources[i]@)
}

/// What a source is charged: its upload and its texture.
pub open spec fn charge(definition: TerminalImageDefinition) -> nat {
    2 * definition.rgba_bytes as nat
}

/// What sources are charged together.
pub open spec fn total_charge(sources: Seq<SourceModel>) -> nat
    decreases sources.len(),
{
    if sources.len() == 0 {
        0
    } else {
        total_charge(sources.drop_last()) + charge(sources.last().definition)
    }
}

/// The place of a source; the number of sources where it is not there.
pub open spec fn place_of(sources: Seq<SourceModel>, key: GpuiImageKey) -> int
    decreases sources.len(),
{
    if sources.len() == 0 {
        0
    } else if place_of(sources.drop_last(), key) < sources.len() - 1 {
        place_of(sources.drop_last(), key)
    } else if sources.last().key == key {
        sources.len() - 1
    } else {
        sources.len() as int
    }
}

/// Whether a source is there.
pub open spec fn has_source(sources: Seq<SourceModel>, key: GpuiImageKey) -> bool {
    place_of(sources, key) < sources.len()
}

proof fn place_of_bounds(sources: Seq<SourceModel>, key: GpuiImageKey)
    ensures
        0 <= place_of(sources, key) <= sources.len(),
        has_source(sources, key) ==> sources[place_of(sources, key)].key == key,
        forall|i: int|
            0 <= i < place_of(sources, key) ==> (#[trigger] sources[i]).key != key,
    decreases sources.len(),
{
    if sources.len() > 0 {
        place_of_bounds(sources.drop_last(), key);
        assert forall|i: int| 0 <= i < place_of(sources, key) implies (#[trigger] sources[i]).key
            != key by {
            if i < sources.len() - 1 {
                assert(sources[i] == sources.drop_last()[i]);
            }
        }
    }
}

proof fn place_of_unique(sources: Seq<SourceModel>, key: GpuiImageKey, n: int)
    requires
        0 <= n <= sources.len(),
        n < sources.len() ==> sources[n].key == key,
        forall|i: int| 0 <= i < n ==> (#[trigger] sources[i]).key != key,
    ensures
        place_of(sources, key) == n,
{
    place_of_bounds(sources, key);
    let m = place_of(sources, key);
    if m < n {
        assert(sources[m].key != key);
    }
    if n < m {
        assert(sources[n].key != key);
    }
}

proof fn total_charge_remove(sources: Seq<SourceModel>, n: int)
    requires
        0 <= n < sources.len(),
    ensures
        total_charge(sources) == total_charge(sources.remove(n)) + charge(sources[n].definition),
    decreases sources.len(),
{
    if n == sources.len() - 1 {
        assert(sources.remove(n) =~= sources.drop_last());
    } else {
        total_charge_remove(sources.drop_last(), n);
        assert(sources.remove(n).drop_last() =~= sources.drop_last().remove(n));
    }
}

/// A number that goes up by one and stops at its largest value.
pub open spec fn counted(n: u64) -> u64 {
    if n == u64::MAX {
        n
    } else {
        (n + 1) as u64
    }
}

/// The sources of one window, oldest first.
#[derive(Debug)]
pub struct GpuiImageCache {
    sources: Vec<SourceImage>,
    projected_gpu_bytes: u64,
    max_projected_gpu_bytes: u64,
    next_image: u64,
    stats: GpuiImageCacheStats,
    renderer_unavailable: bool,
}

impl GpuiImageCache {
    /// The sources, oldest first.
    pub closed spec fn sources(&self) -> Seq<SourceModel> {
        source_models(self.sources@)
    }

    /// The limit on the charge.
    pub closed spec fn limit(&self) -> u64 {
        self.max_projected_gpu_bytes
    }

    /// The name of the next upload.
    pub closed spec fn next_image(&self) -> u64 {
        self.next_image
    }

    /// The counters.
    pub closed spec fn counters(&self) -> GpuiImageCacheStats {
        self.stats
    }

    /// Whether the renderer failed and has not built a source since.
    pub closed spec fn failed(&self) -> bool {
        self.renderer_unavailable
    }

    /// The charge is what the sources come to and within the limit; no source is
    /// held twice; and every upload has a name of its own, older than the next.
    pub closed spec fn wf(&self) -> bool {
        &&& self.projected_gpu_bytes == total_charge(self.sources())
        &&& self.projected_gpu_bytes <= self.max_projected_gpu_bytes
        &&& forall|i: int, j: int|
            0 <= i < j < self.sources().len() ==> (#[trigger] self.sources()[i]).key != (
            #[trigger] self.sources()[j]).key
        &&& forall|i: int, j: int|
            0 <= i < j < self.sources().len() ==> (#[trigger] self.sources()[i]).image != (
            #[trigger] self.sources()[j]).image
        &&& forall|i: int|
            0 <= i < self.sources().len() ==> (#[trigger] self.sources()[i]).image
                < self.next_image
    }

    /// What the invariant gives.
    pub proof fn bounded(&self)
        requires
            self.wf(),
        ensures
            total_charge(self.sources()) <= self.limit(),
            forall|i: int, j: int|
                0 <= i < j < self.sources().len() ==> (#[trigger] self.sources()[i]).key != (
                #[trigger] self.sources()[j]).key && self.sources()[i].image
                    != self.sources()[j].image,
            forall|i: int|
                0 <= i < self.sources().len() ==> (#[trigger] self.sources()[i]).image
                    < self.next_image(),
    {
    }

    /// An empty cache under the given limit, or under `ceiling` where that is
    /// lower.
    pub fn with_projected_gpu_limit(max_projected_gpu_bytes: u64, ceiling: u64) -> (r: Self)
        ensures
            r.wf(),
            r.sources() == Seq::<SourceModel>::empty(),
            r.limit() == if max_projected_gpu_bytes < ceiling {
                max_projected_gpu_bytes
            } else {
                ceiling
            },
            r.counters() == (GpuiImageCacheStats {
                render_images_created: 0,
                cache_reuses: 0,
                pressure_rejections: 0,
                atlas_drops: 0,
                final_reference_drops: 0,
            }),
            r.next_image() == 0,
            !r.failed(),
    {
        let limit = if max_projected_gpu_bytes < ceiling {
            max_projected_gpu_bytes
        } else {
            ceiling
        };
        let r = GpuiImageCache {
            sources: Vec::new(),
            projected_gpu_bytes: 0,
            max_projected_gpu_bytes: limit,
            next_image: 0,
            stats: GpuiImageCacheStats::default(),
            renderer_unavailable: false,
        };
        proof {
            assert(r.sources() =~= Seq::<SourceModel>::empty());
        }
        r
    }

    /// An empty cache under the ceiling.
    pub fn new(ceiling: u64) -> (r: Self)
        ensures
            r.wf(),
            r.sources() == Seq::<SourceModel>::empty(),
            r.limit() == ceiling,
            r.counters() == (GpuiImageCacheStats {
                render_images_created: 0,
                cache_reuses: 0,
                pressure_rejections: 0,
                atlas_drops: 0,
                final_reference_drops: 0,
            }),
            r.next_image() == 0,
            !r.failed(),
    {
        Self::with_projected_gpu_limit(ceiling, ceiling)
    }

    /// Whether the renderer failed and has not built a source since.
    pub fn renderer_unavailable(&self) -> (r: bool)
        ensures
            r == self.failed(),
    {
        self.renderer_unavailable
    }

    /// The current charge.
    pub fn projected_gpu_bytes(&self) -> (r: u64)
        requires
            self.wf(),
        ensures
            r == total_charge(self.sources()),
    {
        self.projected_gpu_bytes
    }

    /// The counters.
    pub fn stats(&self) -> (r: GpuiImageCacheStats)
        ensures
            r == self.counters(),
    {
        self.stats
    }

    fn place(&self, key: GpuiImageKey) -> (r: usize)
        ensures
            r == place_of(self.sources(), key),
            r <= self.sources@.len(),
    {
        let mut i: usize = 0;
        while i < self.sources.len() && self.sources[i].key != key
            invariant
                i <= self.sources@.len(),
                forall|k: int| 0 <= k < i ==> (#[trigger] self.sources@[k]).key != key,
            decreases self.sources@.len() - i,
        {
            i += 1;
        }
        proof {
            let s = self.sources();
            assert forall|k: int| 0 <= k < i implies (#[trigger] s[k]).key != key by {
                assert(self.sources@[k].key != key);
            }
            place_of_unique(s, key, i as int);
        }
        i
    }

    /// Why the pixels do not fit the definition, given what the limits on images
    /// say of it.
    pub open spec fn invalid(
        definition: TerminalImageDefinition,
        len: nat,
        bounds: Result<(), ImageBoundError>,
    ) -> Option<GpuiImageError> {
        match bounds {
            Err(error) => Some(GpuiImageError::Bound(error)),
            Ok(()) => if definition.rgba_bytes > usize::MAX {
                Some(GpuiImageError::Bound(ImageBoundError::ArithmeticOverflow))
            } else if len != definition.rgba_bytes {
                Some(GpuiImageError::CanonicalLength)
            } else {
                None
            },
        }
    }

    fn validate_canonical(
        definition: &TerminalImageDefinition,
        canonical_rgba: &[u8],
        bounds: Result<(), ImageBoundError>,
    ) -> (r: Result<(), GpuiImageError>)
        ensures
            r == match Self::invalid(*definition, canonical_rgba@.len(), bounds) {
                Some(error) => Err::<(), GpuiImageError>(error),
                None => Ok(()),
            },
    {
        if let Err(error) = bounds {
            return Err(GpuiImageError::Bound(error));
        }
        if definition.rgba_bytes > usize::MAX as u64 {
            return Err(GpuiImageError::Bound(ImageBoundError::ArithmeticOverflow));
        }
        if canonical_rgba.len() != definition.rgba_bytes as usize {
            return Err(GpuiImageError::CanonicalLength);
        }
        Ok(())
    }

    /// Why a new source is refused by the limit.
    pub open spec fn over_limit(&self, definition: TerminalImageDefinition) -> Option<
        GpuiImageError,
    > {
        let limit_exceeded = GpuiImageError::Bound(
            ImageBoundError::LimitExceeded(ImageLimitName::ViewProjectedGpuBytes),
        );
        if charge(definition) > u64::MAX {
            Some(GpuiImageError::Bound(ImageBoundError::ArithmeticOverflow))
        } else if charge(definition) > self.limit() {
            Some(limit_exceeded)
        } else if total_charge(self.sources()) + charge(definition) > u64::MAX {
            Some(GpuiImageError::Bound(ImageBoundError::ArithmeticOverflow))
        } else if total_charge(self.sources()) + charge(definition) > self.limit() {
            Some(limit_exceeded)
        } else {
            None
        }
    }

    /// What holds of the cache where nothing but a counter changed.
    pub open spec fn same_but_counters(&self, other: &GpuiImageCache) -> bool {
        &&& self.sources() == other.sources()
        &&& self.limit() == other.limit()
        &&& self.next_image() == other.next_image()
        &&& self.failed() == other.failed()
    }

    /// What asking for a source does: `r` is what it comes to, and `after` what
    /// the cache is then.
    pub open spec fn yields(
        before: GpuiImageCache,
        key: GpuiImageKey,
        definition: TerminalImageDefinition,
        rgba: Seq<u8>,
        bounds: Result<(), ImageBoundError>,
        after: GpuiImageCache,
        r: Result<u64, GpuiImageError>,
    ) -> bool {
        let place = place_of(before.sources(), key);
        let counters = before.counters();
        match Self::invalid(definition, rgba.len(), bounds) {
            Some(error) => r == Err::<u64, GpuiImageError>(error) && after == before,
            None => if has_source(before.sources(), key) {
                if before.sources()[place].definition != definition {
                    r == Err::<u64, GpuiImageError>(GpuiImageError::ConflictingDefinition) && after
                        == before
                } else {
                    &&& r == Ok::<u64, GpuiImageError>(before.sources()[place].image)
                    &&& after.same_but_counters(&before)
                    &&& after.counters() == (GpuiImageCacheStats {
                        cache_reuses: counted(counters.cache_reuses),
                        ..counters
                    })
                }
            } else {
                match before.over_limit(definition) {
                    Some(error) => {
                        &&& r == Err::<u64, GpuiImageError>(error)
                        &&& after.same_but_counters(&before)
                        &&& after.counters() == if error == GpuiImageError::Bound(
                            ImageBoundError::ArithmeticOverflow,
                        ) {
                            counters
                        } else {
                            GpuiImageCacheStats {
                                pressure_rejections: counted(counters.pressure_rejections),
                                ..counters
                            }
                        }
                    },
                    None => Self::builds(before, key, definition, rgba, after, r),
                }
            },
        }
    }

    /// What building a source that is within the limit does, given whether there
    /// is room for its pixels.
    pub open spec fn inserts(
        before: GpuiImageCache,
        key: GpuiImageKey,
        definition: TerminalImageDefinition,
        rgba: Seq<u8>,
        has_room: bool,
        after: GpuiImageCache,
        r: Result<u64, GpuiImageError>,
    ) -> bool {
        let counters = before.counters();
        let image = before.next_image();
        if !has_room {
            r == Err::<u64, GpuiImageError>(GpuiImageError::AllocationFailed) && after == before
        } else if !holds_image(definition.width, definition.height, swapped(rgba).len()) {
            r == Err::<u64, GpuiImageError>(GpuiImageError::CanonicalLength) && after == before
        } else if image == u64::MAX {
            r == Err::<u64, GpuiImageError>(
                GpuiImageError::Bound(ImageBoundError::ArithmeticOverflow),
            ) && after == before
        } else {
            &&& r == Ok::<u64, GpuiImageError>(image)
            &&& after.sources() == before.sources().push(
                SourceModel { key, definition, image, bgra: swapped(rgba) },
            )
            &&& after.limit() == before.limit()
            &&& after.next_image() == image + 1
            &&& !after.failed()
            &&& after.counters() == (GpuiImageCacheStats {
                render_images_created: counted(counters.render_images_created),
                ..counters
            })
        }
    }

    /// What building a source that is within the limit does. Whether there is room
    /// for its pixels is up to the machine.
    pub open spec fn builds(
        before: GpuiImageCache,
        key: GpuiImageKey,
        definition: TerminalImageDefinition,
        rgba: Seq<u8>,
        after: GpuiImageCache,
        r: Result<u64, GpuiImageError>,
    ) -> bool {
        ||| Self::inserts(before, key, definition, rgba, true, after, r)
        ||| Self::inserts(before, key, definition, rgba, false, after, r)
    }

    /// Builds a source that is within the limit and not there yet, in the room
    /// that was reserved for its pixels, where there is any.
    pub fn insert_reserved(
        &mut self,
        key: GpuiImageKey,
        definition: &TerminalImageDefinition,
        canonical_rgba: &[u8],
        room: Option<Vec<u8>>,
    ) -> (r: Result<u64, GpuiImageError>)
        requires
            old(self).wf(),
            !has_source(old(self).sources(), key),
            old(self).over_limit(*definition) is None,
            room matches Some(bytes) ==> bytes@.len() == 0,
        ensures
            final(self).wf(),
            Self::inserts(
                *old(self),
                key,
                *definition,
                canonical_rgba@,
                room is Some,
                *final(self),
                r,
            ),
    {
        let room = match room {
            Some(room) => room,
            None => {
                return Err(GpuiImageError::AllocationFailed);
            },
        };
        let bgra = match build_render_image(definition, canonical_rgba, room) {
            Some(bgra) => bgra,
            None => {
                return Err(GpuiImageError::CanonicalLength);
            },
        };
        let image = self.next_image;
        if image == u64::MAX {
            return Err(GpuiImageError::Bound(ImageBoundError::ArithmeticOverflow));
        }
        let ghost before = self.sources();
        let source = SourceImage { key, definition: *definition, image, bgra };
        let ghost model = source@;
        self.sources.push(source);
        self.projected_gpu_bytes = self.projected_gpu_bytes + 2 * definition.rgba_bytes;
        self.next_image = image + 1;
        self.stats.render_images_created = self.stats.render_images_created.saturating_add(1);
        self.renderer_unavailable = false;
        proof {
            place_of_bounds(before, key);
            assert(self.sources() =~= before.push(model));
            assert(before.push(model).drop_last() =~= before);
        }
        Ok(image)
    }

    /// The source under a key, built from its pixels where it is not there yet.
    /// `bounds` is what the limits on images say of the definition.
    pub fn get_or_insert_key(
        &mut self,
        key: GpuiImageKey,
        definition: &TerminalImageDefinition,
        canonical_rgba: &[u8],
        bounds: Result<(), ImageBoundError>,
    ) -> (r: Result<u64, GpuiImageError>)
        requires
            old(self).wf(),
        ensures
            final(self).wf(),
            Self::yields(*old(self), key, *definition, canonical_rgba@, bounds, *final(self), r),
    {
        if let Err(error) = Self::validate_canonical(definition, canonical_rgba, bounds) {
            return Err(error);
        }
        let n: usize = self.place(key);
        if n < self.sources.len() {
            if self.sources[n].definition != *definition {
                return Err(GpuiImageError::ConflictingDefinition);
            }
            self.stats.cache_reuses = self.stats.cache_reuses.saturating_add(1);
            return Ok(self.sources[n].image);
        }
        let limit_exceeded = GpuiImageError::Bound(
            ImageBoundError::LimitExceeded(ImageLimitName::ViewProjectedGpuBytes),
        );
        let projected = match definition.rgba_bytes.checked_mul(2) {
            Some(projected) => projected,
            None => {
                return Err(GpuiImageError::Bound(ImageBoundError::ArithmeticOverflow));
            },
        };
        if projected > self.max_projected_gpu_bytes {
            self.stats.pressure_rejections = self.stats.pressure_rejections.saturating_add(1);
            return Err(limit_exceeded);
        }
        let charged = match self.projected_gpu_bytes.checked_add(projected) {
            Some(charged) => charged,
            None => {
                return Err(GpuiImageError::Bound(ImageBoundError::ArithmeticOverflow));
            },
        };
        if charged > self.max_projected_gpu_bytes {
            self.stats.pressure_rejections = self.stats.pressure_rejections.saturating_add(1);
            return Err(limit_exceeded);
        }
        let room = reserve_pixels(pixel_room(canonical_rgba));
        self.insert_reserved(key, definition, canonical_rgba, room)
    }

    /// The source of a definition that belongs to no session.
    pub fn get_or_insert(
        &mut self,
        definition: &TerminalImageDefinition,
        canonical_rgba: &[u8],
        bounds: Result<(), ImageBoundError>,
    ) -> (r: Result<u64, GpuiImageError>)
        requires
            old(self).wf(),
        ensures
            final(self).wf(),
            ({
                let key = GpuiImageKey {
                    session_id: None,
                    image_id: definition.id,
                    generation: definition.generation,
                };
                Self::yields(*old(self), key, *definition, canonical_rgba@, bounds, *final(self), r)
            }),
    {
        self.get_or_insert_key(
            GpuiImageKey::from_definition(definition),
            definition,
            canonical_rgba,
            bounds,
        )
    }

    /// The source of a definition that belongs to a session.
    pub fn get_or_insert_for_session(
        &mut self,
        session_id: SessionId,
        definition: &TerminalImageDefinition,
        canonical_rgba: &[u8],
        bounds: Result<(), ImageBoundError>,
    ) -> (r: Result<u64, GpuiImageError>)
        requires
            old(self).wf(),
        ensures
            final(self).wf(),
            ({
                let key = GpuiImageKey {
                    session_id: Some(session_id),
                    image_id: definition.id,
                    generation: definition.generation,
                };
                Self::yields(*old(self), key, *definition, canonical_rgba@, bounds, *final(self), r)
            }),
    {
        self.get_or_insert_key(
            GpuiImageKey::for_session(session_id, definition),
            definition,
            canonical_rgba,
            bounds,
        )
    }

    /// The source under a key, where it is there.
    pub fn get(&self, key: GpuiImageKey) -> (r: Option<&SourceImage>)
        ensures
            match r {
                Some(source) => has_source(self.sources(), key) && source@
                    == self.sources()[place_of(self.sources(), key)],
                None => !has_source(self.sources(), key),
            },
    {
        let n: usize = self.place(key);
        if n < self.sources.len() {
            Some(&self.sources[n])
        } else {
            None
        }
    }

    /// Takes a source out of the cache, so that the renderer can drop it.
    pub fn evict(&mut self, key: GpuiImageKey) -> (r: Option<SourceImage>)
        requires
            old(self).wf(),
        ensures
            final(self).wf(),
            ({
                let place = place_of(old(self).sources(), key);
                match r {
                    Some(source) => {
                        &&& has_source(old(self).sources(), key)
                        &&& source@ == old(self).sources()[place]
                        &&& final(self).sources() == old(self).sources().remove(place)
                    },
                    None => !has_source(old(self).sources(), key) && final(self).sources() == old(
                        self,
                    ).sources(),
                }
            }),
            final(self).limit() == old(self).limit(),
            final(self).next_image() == old(self).next_image(),
            final(self).counters() == old(self).counters(),
            final(self).failed() == old(self).failed(),
    {
        let n: usize = self.place(key);
        if n >= self.sources.len() {
            return None;
        }
        let ghost before = self.sources();
        let source = self.sources.remove(n);
        proof {
            total_charge_remove(before, n as int);
            assert(self.sources() =~= before.remove(n as int));
        }
        self.projected_gpu_bytes = self.projected_gpu_bytes.saturating_sub(
            source.definition.rgba_bytes * 2,
        );
        Some(source)
    }

    /// Takes the oldest source out of the cache, so that the renderer can drop
    /// it.
    pub fn evict_oldest(&mut self) -> (r: Option<SourceImage>)
        requires
            old(self).wf(),
        ensures
            final(self).wf(),
            match r {
                Some(source) => {
                    &&& old(self).sources().len() > 0
                    &&& source@ == old(self).sources()[0]
                    &&& final(self).sources() == old(self).sources().remove(0)
                },
                None => old(self).sources().len() == 0 && final(self).sources() == old(
                    self,
                ).sources(),
            },
            final(self).limit() == old(self).limit(),
            final(self).next_image() == old(self).next_image(),
            final(self).counters() == old(self).counters(),
            final(self).failed() == old(self).failed(),
    {
        if self.sources.len() == 0 {
            return None;
        }
        let key = self.sources[0].key;
        proof {
            place_of_unique(self.sources(), key, 0);
        }
        self.evict(key)
    }

    /// Notes what became of dropping an image from the renderer's atlas.
    pub fn note_atlas_drop(&mut self, dropped: bool) -> (r: Result<(), GpuiImageError>)
        requires
            old(self).wf(),
        ensures
            final(self).wf(),
            final(self).same_but_counters(old(self)),
            if dropped {
                &&& r == Ok::<(), GpuiImageError>(())
                &&& final(self).counters() == (GpuiImageCacheStats {
                    atlas_drops: counted(old(self).counters().atlas_drops),
                    ..old(self).counters()
                })
            } else {
                &&& r == Err::<(), GpuiImageError>(GpuiImageError::DropImage)
                &&& final(self).counters() == old(self).counters()
            },
    {
        if !dropped {
            return Err(GpuiImageError::DropImage);
        }
        self.stats.atlas_drops = self.stats.atlas_drops.saturating_add(1);
        Ok(())
    }

    /// Notes what became of a source that was evicted: whether the cache held the
    /// last reference to it, and whether the renderer dropped it.
    pub fn drop_entry(&mut self, last_reference: bool, dropped: bool) -> (r: Result<
        (),
        GpuiImageError,
    >)
        requires
            old(self).wf(),
        ensures
            final(self).wf(),
            final(self).same_but_counters(old(self)),
            r == if dropped {
                Ok::<(), GpuiImageError>(())
            } else {
                Err::<(), GpuiImageError>(GpuiImageError::DropImage)
            },
            final(self).counters() == (GpuiImageCacheStats {
                final_reference_drops: if last_reference {
                    counted(old(self).counters().final_reference_drops)
                } else {
                    old(self).counters().final_reference_drops
                },
                atlas_drops: if dropped {
                    counted(old(self).counters().atlas_drops)
                } else {
                    old(self).counters().atlas_drops
                },
                ..old(self).counters()
            }),
    {
        if last_reference {
            self.stats.final_reference_drops = self.stats.final_reference_drops.saturating_add(1);
        }
        self.note_atlas_drop(dropped)
    }

    /// The keys of the sources that a predicate holds of, oldest first.
    pub open spec fn keys_where(
        sources: Seq<SourceModel>,
        pick: spec_fn(GpuiImageKey) -> bool,
    ) -> Seq<GpuiImageKey>
        decreases sources.len(),
    {
        if sources.len() == 0 {
            Seq::empty()
        } else {
            let front = Self::keys_where(sources.drop_last(), pick);
            if pick(sources.last().key) {
                front.push(sources.last().key)
            } else {
                front
            }
        }
    }

    /// The sources of a closed session, to be evicted.
    pub fn clear_session(&self, session_id: SessionId) -> (r: Vec<GpuiImageKey>)
        ensures
            r@ == Self::keys_where(
                self.sources(),
                |key: GpuiImageKey| key.session_id == Some(session_id),
            ),
    {
        let ghost pick = |key: GpuiImageKey| key.session_id == Some(session_id);
        let ghost all = self.sources();
        let mut out: Vec<GpuiImageKey> = Vec::new();
        let mut i: usize = 0;
        proof {
            assert(all.take(0) =~= Seq::<SourceModel>::empty());
        }
        while i < self.sources.len()
            invariant
                i <= self.sources@.len(),
                all == source_models(self.sources@),
                pick == (|key: GpuiImageKey| key.session_id == Some(session_id)),
                out@ == Self::keys_where(all.take(i as int), pick),
            decreases self.sources@.len() - i,
        {
            let key = self.sources[i].key;
            proof {
                assert(all.take(i + 1).drop_last() =~= all.take(i as int));
                assert(all.take(i + 1).last().key == key);
            }
            let mine = match key.session_id {
                Some(owner) => owner == session_id,
                None => false,
            };
            if mine {
                out.push(key);
            }
            i += 1;
        }
        proof {
            assert(all.take(all.len() as int) =~= all);
        }
        out
    }

    /// The sources of a session that its scene no longer has, to be evicted.
    pub fn retain_session_definitions(
        &self,
        session_id: SessionId,
        live: &Vec<GpuiImageKey>,
    ) -> (r: Vec<GpuiImageKey>)
        ensures
            r@ == Self::keys_where(
                self.sources(),
                |key: GpuiImageKey| key.session_id == Some(session_id) && !live@.contains(key),
            ),
    {
        let ghost pick = |key: GpuiImageKey|
            key.session_id == Some(session_id) && !live@.contains(key);
        let ghost all = self.sources();
        let mut out: Vec<GpuiImageKey> = Vec::new();
        let mut i: usize = 0;
        proof {
            assert(all.take(0) =~= Seq::<SourceModel>::empty());
        }
        while i < self.sources.len()
            invariant
                i <= self.sources@.len(),
                all == source_models(self.sources@),
                pick == (|key: GpuiImageKey|
                    key.session_id == Some(session_id) && !live@.contains(key)),
                out@ == Self::keys_where(all.take(i as int), pick),
            decreases self.sources@.len() - i,
        {
            let key = self.sources[i].key;
            proof {
                assert(all.take(i + 1).drop_last() =~= all.take(i as int));
                assert(all.take(i + 1).last().key == key);
            }
            let mine = match key.session_id {
                Some(owner) => owner == session_id,
                None => false,
            };
            if mine && !holds_key(live, key) {
                out.push(key);
            }
            i += 1;
        }
        proof {
            assert(all.take(all.len() as int) =~= all);
        }
        out
    }

    /// The sources of sessions that are no longer in the window, to be evicted.
    pub fn retain_sessions(&self, live_sessions: &Vec<SessionId>) -> (r: Vec<GpuiImageKey>)
        ensures
            r@ == Self::keys_where(
                self.sources(),
                |key: GpuiImageKey|
                    key.session_id is Some && !live_sessions@.contains(key.session_id->0),
            ),
    {
        let ghost pick = |key: GpuiImageKey|
            key.session_id is Some && !live_sessions@.contains(key.session_id->0);
        let ghost all = self.sources();
        let mut out: Vec<GpuiImageKey> = Vec::new();
        let mut i: usize = 0;
        proof {
            assert(all.take(0) =~= Seq::<SourceModel>::empty());
        }
        while i < self.sources.len()
            invariant
                i <= self.sources@.len(),
                all == source_models(self.sources@),
                pick == (|key: GpuiImageKey|
                    key.session_id is Some && !live_sessions@.contains(key.session_id->0)),
                out@ == Self::keys_where(all.take(i as int), pick),
            decreases self.sources@.len() - i,
        {
            let key = self.sources[i].key;
            proof {
                assert(all.take(i + 1).drop_last() =~= all.take(i as int));
                assert(all.take(i + 1).last().key == key);
            }
            if let Some(owner) = key.session_id {
                if !holds_session(live_sessions, owner) {
                    out.push(key);
                }
            }
            i += 1;
        }
        proof {
            assert(all.take(all.len() as int) =~= all);
        }
        out
    }

    /// Notes that the renderer failed for a session, and gives that session's
    /// sources, to be evicted.
    pub fn note_renderer_failure(&mut self, session_id: SessionId) -> (r: Vec<GpuiImageKey>)
        requires
            old(self).wf(),
        ensures
            final(self).wf(),
            final(self).failed(),
            final(self).sources() == old(self).sources(),
            final(self).limit() == old(self).limit(),
            final(self).next_image() == old(self).next_image(),
            final(self).counters() == old(self).counters(),
            r@ == Self::keys_where(
                old(self).sources(),
                |key: GpuiImageKey| key.session_id == Some(session_id),
            ),
    {
        self.renderer_unavailable = true;
        self.clear_session(session_id)
    }

    /// Every image in the renderer's atlas, oldest first, to be dropped from it
    /// and uploaded again under the same name.
    pub fn invalidate_atlas(&self) -> (r: Vec<u64>)
        ensures
            r@ == Seq::new(self.sources().len(), |i: int| self.sources()[i].image),
    {
        let ghost all = self.sources();
        let mut out: Vec<u64> = Vec::new();
        let mut i: usize = 0;
        while i < self.sources.len()
            invariant
                i <= self.sources@.len(),
                all == source_models(self.sources@),
                out@ == Seq::new(i as nat, |k: int| all[k].image),
            decreases self.sources@.len() - i,
        {
            out.push(self.sources[i].image);
            i += 1;
            proof {
                assert(out@ =~= Seq::new(i as nat, |k: int| all[k].image));
            }
        }
        out
    }
}

fn holds_key(keys: &Vec<GpuiImageKey>, key: GpuiImageKey) -> (r: bool)
    ensures
        r == keys@.contains(key),
{
    let mut i: usize = 0;
    while i < keys.len()
        invariant
            i <= keys@.len(),
            forall|k: int| 0 <= k < i ==> keys@[k] != key,
        decreases keys@.len() - i,
    {
        if keys[i] == key {
            return true;
        }
        i += 1;
    }
    false
}

fn holds_session(sessions: &Vec<SessionId>, session: SessionId) -> (r: bool)
    ensures
        r == sessions@.contains(session),
{
    let mut i: usize = 0;
    while i < sessions.len()
        invariant
            i <= sessions@.len(),
            forall|k: int| 0 <= k < i ==> sessions@[k] != session,
        decreases sessions@.len() - i,
    {
        if sessions[i] == session {
            return true;
        }
        i += 1;
    }
    false
}

/// Once a source has been asked for with success, it is in the cache as the
/// image that was given.
pub proof fn asking_again_finds_the_source(
    start: GpuiImageCache,
    key: GpuiImageKey,
    definition: TerminalImageDefinition,
    rgba: Seq<u8>,
    bounds: Result<(), ImageBoundError>,
    end: GpuiImageCache,
    image: u64,
)
    requires
        start.wf(),
        end.wf(),
        GpuiImageCache::yields(start, key, definition, rgba, bounds, end, Ok(image)),
    ensures
        has_source(end.sources(), key),
        end.sources()[place_of(end.sources(), key)].image == image,
        end.sources()[place_of(end.sources(), key)].definition == definition,
{
    place_of_bounds(start.sources(), key);
    place_of_bounds(end.sources(), key);
    if !has_source(start.sources(), key) {
        let s = end.sources();
        assert(s.drop_last() =~= start.sources());
        assert forall|i: int| 0 <= i < s.len() - 1 implies (#[trigger] s[i]).key != key by {
            assert(s[i] == start.sources()[i]);
        }
        place_of_unique(s, key, s.len() - 1);
    }
}

/// Asking for a source leaves every source in place that was there before.
pub proof fn sources_stay(
    start: GpuiImageCache,
    key: GpuiImageKey,
    definition: TerminalImageDefinition,
    rgba: Seq<u8>,
    bounds: Result<(), ImageBoundError>,
    end: GpuiImageCache,
    r: Result<u64, GpuiImageError>,
    other: GpuiImageKey,
)
    requires
        has_source(start.sources(), other),
        GpuiImageCache::yields(start, key, definition, rgba, bounds, end, r),
    ensures
        has_source(end.sources(), other),
        place_of(end.sources(), other) == place_of(start.sources(), other),
        end.sources()[place_of(end.sources(), other)] == start.sources()[place_of(
            start.sources(),
            other,
        )],
{
    place_of_bounds(start.sources(), other);
    let n = place_of(start.sources(), other);
    assert forall|i: int| 0 <= i < n implies (#[trigger] end.sources()[i]).key != other by {
        assert(end.sources()[i] == start.sources()[i]);
    }
    place_of_unique(end.sources(), other, n);
}

/// A source that was built is found again: asking for it once more gives the
/// same image and changes nothing but a counter.
pub proof fn a_source_is_built_once(
    start: GpuiImageCache,
    key: GpuiImageKey,
    definition: TerminalImageDefinition,
    rgba: Seq<u8>,
    bounds: Result<(), ImageBoundError>,
    between: GpuiImageCache,
    first: u64,
    end: GpuiImageCache,
    second: Result<u64, GpuiImageError>,
)
    requires
        start.wf(),
        between.wf(),
        GpuiImageCache::yields(start, key, definition, rgba, bounds, between, Ok(first)),
        GpuiImageCache::yields(between, key, definition, rgba, bounds, end, second),
    ensures
        second == Ok::<u64, GpuiImageError>(first),
        end.same_but_counters(&between),
        has_source(between.sources(), key),
{
    asking_again_finds_the_source(start, key, definition, rgba, bounds, between, first);
}

/// A source that was evicted comes back as another image: no name is ever given
/// twice.
pub proof fn an_evicted_source_comes_back_as_another_image(
    start: GpuiImageCache,
    key: GpuiImageKey,
    emptied: GpuiImageCache,
    definition: TerminalImageDefinition,
    rgba: Seq<u8>,
    bounds: Result<(), ImageBoundError>,
    end: GpuiImageCache,
    image: u64,
)
    requires
        start.wf(),
        has_source(start.sources(), key),
        emptied.wf(),
        emptied.sources() == start.sources().remove(place_of(start.sources(), key)),
        emptied.next_image() == start.next_image(),
        GpuiImageCache::yields(emptied, key, definition, rgba, bounds, end, Ok(image)),
    ensures
        image != start.sources()[place_of(start.sources(), key)].image,
{
    place_of_bounds(start.sources(), key);
    place_of_bounds(emptied.sources(), key);
    start.bounded();
    let n = place_of(start.sources(), key);
    let m = place_of(emptied.sources(), key);
    if has_source(emptied.sources(), key) {
        let other = if m < n {
            m
        } else {
            m + 1
        };
        assert(emptied.sources()[m] == start.sources()[other]);
        assert(start.sources()[n].key == key);
    }
}

// ---- Crops ----

/// A rectangle of pixels.
#[derive(Debug, Clone, Copy, PartialEq, Eq, Structural)]
pub struct PixelRect {
    pub x: u32,
    pub y: u32,
    pub width: u32,
    pub height: u32,
}

/// The whole numbers from which a crop is painted.
#[derive(Debug, Clone, Copy, PartialEq, Eq, Structural)]
pub struct CropPlan {
    pub source_x: u16,
    pub source_y: u16,
    pub source_width: u16,
    pub source_height: u16,
    pub image_width: u16,
    pub image_height: u16,
}

/// Whether a crop is not empty and lies within an image of the given size.
pub open spec fn crop_inside(size: (u32, u32), source: PixelRect) -> bool {
    &&& source.width > 0
    &&& source.height > 0
    &&& source.x + source.width <= size.0
    &&& source.y + source.height <= size.1
}

/// The numbers from which a crop is painted, or why it cannot be. `bounds` is
/// what the limits on images say of the image's size, and `destination_valid`
/// whether the place to paint it has a size that is positive and finite.
pub fn plan_crop(
    source_size: (u32, u32),
    source: PixelRect,
    bounds: Result<(), ImageBoundError>,
    destination_valid: bool,
) -> (r: Result<CropPlan, GpuiImageError>)
    ensures
        match bounds {
            Err(error) => r == Err::<CropPlan, GpuiImageError>(GpuiImageError::Bound(error)),
            Ok(()) => if !crop_inside(source_size, source) {
                r == Err::<CropPlan, GpuiImageError>(GpuiImageError::InvalidSourceCrop)
            } else if !destination_valid {
                r == Err::<CropPlan, GpuiImageError>(GpuiImageError::InvalidDestination)
            } else if source_size.0 > u16::MAX || source_size.1 > u16::MAX {
                r == Err::<CropPlan, GpuiImageError>(GpuiImageError::InvalidSourceCrop)
            } else {
                r == Ok::<CropPlan, GpuiImageError>(
                    CropPlan {
                        source_x: source.x as u16,
                        source_y: source.y as u16,
                        source_width: source.width as u16,
                        source_height: source.height as u16,
                        image_width: source_size.0 as u16,
                        image_height: source_size.1 as u16,
                    },
                )
            },
        },
{
    if let Err(error) = bounds {
        return Err(GpuiImageError::Bound(error));
    }
    let right = match source.x.checked_add(source.width) {
        Some(right) => right,
        None => {
            return Err(GpuiImageError::InvalidSourceCrop);
        },
    };
    let bottom = match source.y.checked_add(source.height) {
        Some(bottom) => bottom,
        None => {
            return Err(GpuiImageError::InvalidSourceCrop);
        },
    };
    if source.width == 0 || source.height == 0 || right > source_size.0 || bottom > source_size.1 {
        return Err(GpuiImageError::InvalidSourceCrop);
    }
    if !destination_valid {
        return Err(GpuiImageError::InvalidDestination);
    }
    if source_size.0 > u16::MAX as u32 || source_size.1 > u16::MAX as u32 {
        return Err(GpuiImageError::InvalidSourceCrop);
    }
    Ok(
        CropPlan {
            source_x: source.x as u16,
            source_y: source.y as u16,
            source_width: source.width as u16,
            source_height: source.height as u16,
            image_width: source_size.0 as u16,
            image_height: source_size.1 as u16,
        },
    )
}

/// A pixel is uploaded with red and blue exchanged, and green and alpha in their places.
pub proof fn red_and_blue_are_exchanged(rgba: Seq<u8>, k: int)
    requires
        0 <= k,
        4 * k + 4 <= rgba.len(),
    ensures
        swapped(rgba)[4 * k] == rgba[4 * k + 2],
        swapped(rgba)[4 * k + 1] == rgba[4 * k + 1],
        swapped(rgba)[4 * k + 2] == rgba[4 * k],
        swapped(rgba)[4 * k + 3] == rgba[4 * k + 3],
        swapped(rgba).len() == rgba.len() - rgba.len() % 4,
{
}

/// Exchanging twice gives the pixels back.
pub proof fn exchanging_twice_changes_nothing(rgba: Seq<u8>)
    requires
        rgba.len() % 4 == 0,
    ensures
        swapped(swapped(rgba)) == rgba,
{
    let once = swapped(rgba);
    let twice = swapped(once);
    assert(twice.len() == rgba.len());
    assert forall|i: int| 0 <= i < rgba.len() implies twice[i] == rgba[i] by {
        let k = i / 4;
        red_and_blue_are_exchanged(rgba, k);
        red_and_blue_are_exchanged(once, k);
    }
    assert(twice =~= rgba);
}

/// Each source is charged twice its bytes, and the total is the sum.
pub proof fn sources_are_charged_twice(sources: Seq<SourceModel>, source: SourceModel)
    ensures
        charge(source.definition) == 2 * source.definition.rgba_bytes,
        total_charge(Seq::empty()) == 0,
        total_charge(sources.push(source)) == total_charge(sources) + 2
            * source.definition.rgba_bytes,
{
    assert(sources.push(source).drop_last() =~= sources);
}

/// A new source that does not fit beside the others is refused, nothing is built for it,
/// and one that does is not refused for its size.
pub proof fn what_does_not_fit_is_refused(
    before: GpuiImageCache,
    key: GpuiImageKey,
    definition: TerminalImageDefinition,
    rgba: Seq<u8>,
    after: GpuiImageCache,
    r: Result<u64, GpuiImageError>,
)
    requires
        GpuiImageCache::yields(before, key, definition, rgba, Ok(()), after, r),
        !has_source(before.sources(), key),
        rgba.len() == definition.rgba_bytes,
        definition.rgba_bytes <= usize::MAX,
        total_charge(before.sources()) + 2 * definition.rgba_bytes <= u64::MAX,
    ensures
        ({
            let refused = Err::<u64, GpuiImageError>(
                GpuiImageError::Bound(
                    ImageBoundError::LimitExceeded(ImageLimitName::ViewProjectedGpuBytes),
                ),
            );
            &&& total_charge(before.sources()) + 2 * definition.rgba_bytes > before.limit() <==> r
                == refused
            &&& r == refused ==> after.sources() == before.sources()
        }),
{
}

/// What is refused changes no source; what is built is one more, under the next number,
/// with its pixels as they are uploaded; and what is there already is neither.
pub proof fn asking_adds_one_source_at_most(
    before: GpuiImageCache,
    key: GpuiImageKey,
    definition: TerminalImageDefinition,
    rgba: Seq<u8>,
    bounds: Result<(), ImageBoundError>,
    after: GpuiImageCache,
    r: Result<u64, GpuiImageError>,
)
    requires
        GpuiImageCache::yields(before, key, definition, rgba, bounds, after, r),
    ensures
        after.limit() == before.limit(),
        r is Err ==> after.sources() == before.sources() && after.next_image()
            == before.next_image(),
        r is Ok && has_source(before.sources(), key) ==> after.sources() == before.sources()
            && before.sources()[place_of(before.sources(), key)].definition == definition && r->Ok_0
            == before.sources()[place_of(before.sources(), key)].image,
        r is Ok && !has_source(before.sources(), key) ==> {
            &&& r->Ok_0 == before.next_image()
            &&& after.next_image() == before.next_image() + 1
            &&& after.sources().len() == before.sources().len() + 1
            &&& after.sources().drop_last() == before.sources()
            &&& after.sources().last().key == key
            &&& after.sources().last().definition == definition
            &&& after.sources().last().image == before.next_image()
            &&& after.sources().last().bgra == swapped(rgba)
        },
        bounds matches Err(error) ==> r == Err::<u64, GpuiImageError>(GpuiImageError::Bound(error)),
        bounds is Ok && definition.rgba_bytes <= usize::MAX && rgba.len() != definition.rgba_bytes
            ==> r == Err::<u64, GpuiImageError>(GpuiImageError::CanonicalLength),
{
    if r is Ok && !has_source(before.sources(), key) {
        assert(after.sources().drop_last() =~= before.sources());
    }
}

/// Why an image was refused is told by what went wrong.
pub proof fn refusals_have_their_reason(limit: ImageLimitName, number: u32)
    ensures
        GpuiImageError::Bound(ImageBoundError::LimitExceeded(limit)).reason()
            == TerminalImageRejectionReason::QuotaExceeded,
        GpuiImageError::Bound(ImageBoundError::ArithmeticOverflow).reason()
            == TerminalImageRejectionReason::InvalidDimensions,
        GpuiImageError::Bound(ImageBoundError::Other(number)).reason()
            == TerminalImageRejectionReason::InvalidDimensions,
        GpuiImageError::InvalidSourceCrop.reason()
            == TerminalImageRejectionReason::InvalidDimensions,
        GpuiImageError::InvalidDestination.reason()
            == TerminalImageRejectionReason::InvalidDimensions,
        GpuiImageError::CanonicalLength.reason() == TerminalImageRejectionReason::DecodeFailed,
        GpuiImageError::ConflictingDefinition.reason()
            == TerminalImageRejectionReason::DecodeFailed,
        GpuiImageError::AllocationFailed.reason() == TerminalImageRejectionReason::DecodeFailed,
        GpuiImageError::DropImage.reason() == TerminalImageRejectionReason::RendererUnavailable,
        GpuiImageError::PaintImage.reason() == TerminalImageRejectionReason::RendererUnavailable,
{
}

/// A crop lies inside where it is not empty and none of its pixels is beyond the image.
pub proof fn crops_lie_inside(size: (u32, u32), source: PixelRect, x: int, y: int)
    requires
        crop_inside(size, source),
        source.x <= x < source.x + source.width,
        source.y <= y < source.y + source.height,
    ensures
        0 <= x < size.0,
        0 <= y < size.1,
{
}

/// The whole of an image is a crop that lies inside, and an empty one does not.
pub proof fn whole_images_lie_inside(size: (u32, u32), x: u32, y: u32)
    ensures
        size.0 > 0 && size.1 > 0 ==> crop_inside(
            size,
            PixelRect { x: 0, y: 0, width: size.0, height: size.1 },
        ),
        x < size.0 && y < size.1 ==> crop_inside(size, PixelRect { x, y, width: 1, height: 1 }),
        !crop_inside(size, PixelRect { x, y, width: 0, height: size.1 }),
        !crop_inside(size, PixelRect { x, y, width: size.0, height: 0 }),
{
}

/// A key names a source where some source has it, and the first that has it is the one.
pub proof fn keys_name_the_first_source(sources: Seq<SourceModel>, key: GpuiImageKey, i: int)
    ensures
        0 <= place_of(sources, key) <= sources.len(),
        has_source(sources, key) ==> sources[place_of(sources, key)].key == key,
        0 <= i < place_of(sources, key) && i < sources.len() ==> sources[i].key != key,
        0 <= i < sources.len() && sources[i].key == key ==> has_source(sources, key),
    decreases sources.len(),
{
    if sources.len() > 0 {
        let d = sources.drop_last();
        keys_name_the_first_source(d, key, i);
        if has_source(d, key) {
            assert(d[place_of(d, key)] == sources[place_of(d, key)]);
        }
        if 0 <= i < d.len() {
            assert(d[i] == sources[i]);
        }
    }
}

/// A source that is evicted leaves the cache, and no other does; what was counted stays
/// counted.
pub proof fn evicted_sources_leave(key: GpuiImageKey)
    ensures
        forall|cache: &mut GpuiImageCache, r: Option<SourceImage>|
            #[trigger] call_ensures(GpuiImageCache::evict, (cache, key), r) ==> {
                &&& r is Some <==> has_source(cache.sources(), key)
                &&& r is None ==> final(cache).sources() == cache.sources()
                &&& r is Some ==> final(cache).sources().len() + 1 == cache.sources().len()
                &&& r matches Some(source) ==> source@ == cache.sources()[place_of(
                    cache.sources(),
                    key,
                )]
                &&& final(cache).counters() == cache.counters()
                &&& final(cache).limit() == cache.limit()
            },
        forall|cache: &mut GpuiImageCache, r: Option<SourceImage>|
            #[trigger] call_ensures(GpuiImageCache::evict_oldest, (cache,), r) ==> {
                &&& r is Some <==> cache.sources().len() > 0
                &&& r matches Some(source) ==> source@ == cache.sources()[0]
                    && final(cache).sources() == cache.sources().skip(1)
                &&& final(cache).counters() == cache.counters()
            },
{
    assert forall|cache: &mut GpuiImageCache, r: Option<SourceImage>|
        #[trigger] call_ensures(GpuiImageCache::evict, (cache, key), r) && r is Some implies {
        final(cache).sources().len() + 1 == cache.sources().len()
    } by {
        place_of_bounds(cache.sources(), key);
    }
    assert forall|cache: &mut GpuiImageCache, r: Option<SourceImage>|
        #[trigger] call_ensures(GpuiImageCache::evict_oldest, (cache,), r) && r is Some implies {
        final(cache).sources() == cache.sources().skip(1)
    } by {
        assert(cache.sources().remove(0) =~= cache.sources().skip(1));
    }
}

/// A drop that the renderer refused is an error and is not counted; one that it took is
/// counted once. The last reference to a source is counted whatever the renderer says.
pub proof fn drops_are_counted(last: bool, dropped: bool)
    ensures
        forall|cache: &mut GpuiImageCache, r: Result<(), GpuiImageError>|
            #[trigger] call_ensures(GpuiImageCache::drop_entry, (cache, last, dropped), r) ==> {
                let before = cache.counters();
                let after = final(cache).counters();
                &&& r is Ok <==> dropped
                &&& r matches Err(error) ==> error == GpuiImageError::DropImage
                &&& dropped && before.atlas_drops < u64::MAX ==> after.atlas_drops
                    == before.atlas_drops + 1
                &&& !dropped ==> after.atlas_drops == before.atlas_drops
                &&& last && before.final_reference_drops < u64::MAX ==> after.final_reference_drops
                    == before.final_reference_drops + 1
                &&& !last ==> after.final_reference_drops == before.final_reference_drops
                &&& after.render_images_created == before.render_images_created
                &&& after.cache_reuses == before.cache_reuses
                &&& after.pressure_rejections == before.pressure_rejections
            },
        forall|cache: &mut GpuiImageCache, r: Result<(), GpuiImageError>|
            #[trigger] call_ensures(GpuiImageCache::note_atlas_drop, (cache, dropped), r) ==> {
                let before = cache.counters();
                let after = final(cache).counters();
                &&& r is Ok <==> dropped
                &&& dropped && before.atlas_drops < u64::MAX ==> after.atlas_drops
                    == before.atlas_drops + 1
                &&& !dropped ==> after == before
                &&& after.final_reference_drops == before.final_reference_drops
            },
{
}

/// A new cache is empty, and its limit is the smaller of the two that are asked for.
pub proof fn new_caches_are_empty(limit: u64, ceiling: u64, r: GpuiImageCache)
    requires
        call_ensures(GpuiImageCache::with_projected_gpu_limit, (limit, ceiling), r),
    ensures
        r.sources().len() == 0,
        r.limit() <= limit && r.limit() <= ceiling,
        r.limit() == limit || r.limit() == ceiling,
        r.counters().render_images_created == 0,
        r.counters().cache_reuses == 0,
        r.counters().pressure_rejections == 0,
        r.counters().atlas_drops == 0,
        r.counters().final_reference_drops == 0,
{
}

/// Every image leaves the renderer's memory with the atlas, and its source stays.
pub proof fn every_image_leaves_with_the_atlas(cache: &GpuiImageCache, r: Vec<u64>, i: int)
    requires
        call_ensures(GpuiImageCache::invalidate_atlas, (cache,), r),
    ensures
        r@.len() == cache.sources().len(),
        0 <= i < r@.len() ==> r@[i] == cache.sources()[i].image,
{
}

} // verus!
