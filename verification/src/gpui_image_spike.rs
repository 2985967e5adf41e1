//! A trial of the image cache in a window of its own: three sources are shown,
//! one key drops the renderer's atlas, another evicts the sources, and each time
//! the images that come back are compared with those that went.

use vstd::prelude::*;

use crate::gpui_image_lifecycle::{
    asking_again_finds_the_source, has_source, place_of, reserve_pixels, sources_stay,
    GpuiImageCache, GpuiImageError, GpuiImageKey, ImageBoundError, ImageLimitName,
    TerminalImageDefinition,
};
use crate::text::str_eq;

verus! {

/// Why the trial failed.
#[derive(Debug, Clone, Copy, PartialEq, Eq, Structural)]
pub enum SpikeError {
    Image(GpuiImageError),
    /// A source beyond the largest size was accepted.
    MaxPlusOneReached,
    /// A refused source was counted as built.
    CreationCountChanged,
    /// Two placements of one source are two images.
    SharedPlacementDiverged,
    NoIdsBeforeInvalidation,
    /// The images changed with the atlas.
    InvalidationChangedIds,
    NoIdsBeforeEviction,
    /// An image survived its eviction.
    EvictionKeptAnId,
    SourceNotCached,
    MaxAxisNotCached,
    OnePixelNotCached,
    /// Not every evicted source was the last of its kind.
    NotFinalReferences,
}

impl SpikeError {
    /// The message for the log; none for an image, which has a message of its
    /// own.
    pub open spec fn text(self) -> Option<Seq<char>> {
        match self {
            SpikeError::Image(_) => None,
            SpikeError::MaxPlusOneReached => Some("max-plus-one reached GPUI allocation"@),
            SpikeError::CreationCountChanged => {
                Some("max-plus-one changed RenderImage creation count"@)
            },
            SpikeError::SharedPlacementDiverged => Some("shared placement source diverged"@),
            SpikeError::NoIdsBeforeInvalidation => {
                Some("atlas invalidation did not record prior IDs"@)
            },
            SpikeError::InvalidationChangedIds => {
                Some("atlas invalidation changed source identities"@)
            },
            SpikeError::NoIdsBeforeEviction => Some("eviction did not record prior IDs"@),
            SpikeError::EvictionKeptAnId => {
                Some("eviction retained a stale RenderImage identity"@)
            },
            SpikeError::SourceNotCached => Some("source fixture is not cached"@),
            SpikeError::MaxAxisNotCached => Some("max-axis fixture is not cached"@),
            SpikeError::OnePixelNotCached => Some("one-pixel fixture is not cached"@),
            SpikeError::NotFinalReferences => {
                Some("not every cache entry reached its final reference"@)
            },
        }
    }

    /// The message for the log.
    pub fn message(&self) -> (r: Option<&'static str>)
        ensures
            match r {
                Some(text) => self.text() == Some(text@),
                None => self.text() is None,
            },
    {
        match self {
            SpikeError::Image(_) => None,
            SpikeError::MaxPlusOneReached => Some("max-plus-one reached GPUI allocation"),
            SpikeError::CreationCountChanged => {
                Some("max-plus-one changed RenderImage creation count")
            },
            SpikeError::SharedPlacementDiverged => Some("shared placement source diverged"),
            SpikeError::NoIdsBeforeInvalidation => {
                Some("atlas invalidation did not record prior IDs")
            },
            SpikeError::InvalidationChangedIds => {
                Some("atlas invalidation changed source identities")
            },
            SpikeError::NoIdsBeforeEviction => Some("eviction did not record prior IDs"),
            SpikeError::EvictionKeptAnId => Some("eviction retained a stale RenderImage identity"),
            SpikeError::SourceNotCached => Some("source fixture is not cached"),
            SpikeError::MaxAxisNotCached => Some("max-axis fixture is not cached"),
            SpikeError::OnePixelNotCached => Some("one-pixel fixture is not cached"),
            SpikeError::NotFinalReferences => {
                Some("not every cache entry reached its final reference")
            },
        }
    }
}

/// A source of the trial.
#[derive(Debug)]
pub struct Fixture {
    pub definition: TerminalImageDefinition,
    pub rgba: Vec<u8>,
}

/// The definition of a first generation of the given size.
pub open spec fn definition_of(
    id: u64,
    width: u32,
    height: u32,
    has_alpha: bool,
) -> TerminalImageDefinition {
    TerminalImageDefinition {
        id,
        generation: 1,
        width,
        height,
        rgba_bytes: (4 * width * height) as u64,
        has_alpha,
    }
}

/// The colour of a pixel in a picture of four quarters.
pub open spec fn quarter_pixel(width: u32, height: u32, x: int, y: int) -> Seq<u8> {
    if x < width as int / 2 {
        if y < height as int / 2 {
            seq![255u8, 0, 0, 255]
        } else {
            seq![0u8, 0, 255, 255]
        }
    } else {
        if y < height as int / 2 {
            seq![0u8, 255, 0, 255]
        } else {
            seq![255u8, 255, 0, 255]
        }
    }
}

/// The pixels of a picture of one colour.
pub open spec fn solid_pixels(width: u32, height: u32, pixel: Seq<u8>) -> Seq<u8> {
    Seq::new((4 * width * height) as nat, |i: int| pixel[i % 4])
}

/// The pixels of a picture of four quarters: red, green, blue and yellow, row by
/// row.
pub open spec fn quarter_pixels(width: u32, height: u32) -> Seq<u8> {
    Seq::new(
        (4 * width * height) as nat,
        |i: int|
            quarter_pixel(width, height, (i / 4) % (width as int), (i / 4) / (width as int))[i % 4],
    )
}

/// How many pixels a picture has, or why it is out of bounds.
fn pixel_count(width: u32, height: u32, bounds: Result<(), ImageBoundError>) -> (r: Result<
    u64,
    SpikeError,
>)
    ensures
        match bounds {
            Err(error) => r == Err::<u64, SpikeError>(
                SpikeError::Image(GpuiImageError::Bound(error)),
            ),
            Ok(()) => if 4 * width * height > usize::MAX || 4 * width * height > u64::MAX {
                r == Err::<u64, SpikeError>(
                    SpikeError::Image(GpuiImageError::Bound(ImageBoundError::ArithmeticOverflow)),
                )
            } else {
                r == Ok::<u64, SpikeError>((width * height) as u64)
            },
        },
{
    if let Err(error) = bounds {
        return Err(SpikeError::Image(GpuiImageError::Bound(error)));
    }
    let overflow = SpikeError::Image(GpuiImageError::Bound(ImageBoundError::ArithmeticOverflow));
    proof {
        assert(width * height <= u32::MAX * u32::MAX) by (nonlinear_arith)
            requires
                width <= u32::MAX,
                height <= u32::MAX,
        ;
        assert(4 * (width * height) == 4 * width * height) by (nonlinear_arith);
    }
    let count: u64 = (width as u64) * (height as u64);
    match count.checked_mul(4) {
        Some(bytes) => if bytes > usize::MAX as u64 {
            Err(overflow)
        } else {
            Ok(count)
        },
        None => Err(overflow),
    }
}

/// How many bytes the pixels of a picture take up, or why it is out of bounds.
fn byte_count(width: u32, height: u32, bounds: Result<(), ImageBoundError>) -> (r: Result<
    usize,
    SpikeError,
>)
    ensures
        match bounds {
            Err(error) => r == Err::<usize, SpikeError>(
                SpikeError::Image(GpuiImageError::Bound(error)),
            ),
            Ok(()) => if 4 * width * height > usize::MAX || 4 * width * height > u64::MAX {
                r == Err::<usize, SpikeError>(
                    SpikeError::Image(GpuiImageError::Bound(ImageBoundError::ArithmeticOverflow)),
                )
            } else {
                r == Ok::<usize, SpikeError>((4 * width * height) as usize)
            },
        },
{
    match pixel_count(width, height, bounds) {
        Ok(count) => {
            proof {
                assert(4 * (width * height) == 4 * width * height) by (nonlinear_arith);
            }
            Ok((count * 4) as usize)
        },
        Err(error) => Err(error),
    }
}

/// Whether `r` is what making a picture comes to, given what the limits on images
/// say of it and whether there is room for its pixels.
pub open spec fn makes(
    definition: TerminalImageDefinition,
    pixels: Seq<u8>,
    bounds: Result<(), ImageBoundError>,
    has_room: bool,
    r: Result<Fixture, SpikeError>,
) -> bool {
    let bytes = 4 * definition.width * definition.height;
    match bounds {
        Err(error) => r == Err::<Fixture, SpikeError>(
            SpikeError::Image(GpuiImageError::Bound(error)),
        ),
        Ok(()) => if bytes > usize::MAX || bytes > u64::MAX {
            r == Err::<Fixture, SpikeError>(
                SpikeError::Image(GpuiImageError::Bound(ImageBoundError::ArithmeticOverflow)),
            )
        } else if !has_room {
            r == Err::<Fixture, SpikeError>(SpikeError::Image(GpuiImageError::AllocationFailed))
        } else {
            r matches Ok(fixture) && fixture.definition == definition && fixture.rgba@ == pixels
        },
    }
}

impl Fixture {
    /// A picture of one colour, in the room that was reserved for its pixels,
    /// where there is any. `bounds` is what the limits on images say of it.
    pub fn solid_in(
        id: u64,
        width: u32,
        height: u32,
        rgba: [u8; 4],
        bounds: Result<(), ImageBoundError>,
        room: Option<Vec<u8>>,
    ) -> (r: Result<Self, SpikeError>)
        requires
            room matches Some(bytes) ==> bytes@.len() == 0,
        ensures
            makes(
                definition_of(id, width, height, rgba@[3] != 255),
                solid_pixels(width, height, rgba@),
                bounds,
                room is Some,
                r,
            ),
    {
        let count: u64 = match pixel_count(width, height, bounds) {
            Ok(count) => count,
            Err(error) => {
                return Err(error);
            },
        };
        let ghost all = solid_pixels(width, height, rgba@);
        proof {
            assert(4 * (width * height) == 4 * width * height) by (nonlinear_arith);
        }
        let definition = TerminalImageDefinition {
            id,
            generation: 1,
            width,
            height,
            rgba_bytes: count * 4,
            has_alpha: rgba[3] != 255,
        };
        let mut bytes: Vec<u8> = match room {
            Some(room) => room,
            None => {
                return Err(SpikeError::Image(GpuiImageError::AllocationFailed));
            },
        };
        proof {
            assert(bytes@ =~= all.take(0));
        }
        let mut p: u64 = 0;
        while p < count
            invariant
                p <= count,
                all.len() == 4 * count,
                all == solid_pixels(width, height, rgba@),
                bytes@ == all.take(4 * p),
            decreases count - p,
        {
            bytes.push(rgba[0]);
            bytes.push(rgba[1]);
            bytes.push(rgba[2]);
            bytes.push(rgba[3]);
            p += 1;
            proof {
                assert(bytes@ =~= all.take(4 * p));
            }
        }
        proof {
            assert(all.take(4 * count) =~= all);
        }
        Ok(Fixture { definition, rgba: bytes })
    }

    /// A picture of one colour. `bounds` is what the limits on images say of it.
    /// Whether there is room for its pixels is up to the machine.
    pub fn solid(
        id: u64,
        width: u32,
        height: u32,
        rgba: [u8; 4],
        bounds: Result<(), ImageBoundError>,
    ) -> (r: Result<Self, SpikeError>)
        ensures
            ({
                let definition = definition_of(id, width, height, rgba@[3] != 255);
                let pixels = solid_pixels(width, height, rgba@);
                ||| makes(definition, pixels, bounds, true, r)
                ||| makes(definition, pixels, bounds, false, r)
            }),
    {
        let room = match byte_count(width, height, bounds) {
            Ok(len) => reserve_pixels(len),
            Err(_) => None,
        };
        Self::solid_in(id, width, height, rgba, bounds, room)
    }

    /// A picture of four quarters, in the room that was reserved for its pixels,
    /// where there is any. `bounds` is what the limits on images say of it.
    pub fn quadrants_in(
        id: u64,
        width: u32,
        height: u32,
        bounds: Result<(), ImageBoundError>,
        room: Option<Vec<u8>>,
    ) -> (r: Result<Self, SpikeError>)
        requires
            room matches Some(bytes) ==> bytes@.len() == 0,
        ensures
            makes(
                definition_of(id, width, height, false),
                quarter_pixels(width, height),
                bounds,
                room is Some,
                r,
            ),
    {
        let count: u64 = match pixel_count(width, height, bounds) {
            Ok(count) => count,
            Err(error) => {
                return Err(error);
            },
        };
        let ghost all = quarter_pixels(width, height);
        proof {
            assert(4 * (width * height) == 4 * width * height) by (nonlinear_arith);
            assert(count > 0 ==> width > 0) by (nonlinear_arith)
                requires
                    count == width * height,
            ;
        }
        let definition = TerminalImageDefinition {
            id,
            generation: 1,
            width,
            height,
            rgba_bytes: count * 4,
            has_alpha: false,
        };
        let mut bytes: Vec<u8> = match room {
            Some(room) => room,
            None => {
                return Err(SpikeError::Image(GpuiImageError::AllocationFailed));
            },
        };
        proof {
            assert(bytes@ =~= all.take(0));
        }
        let mut p: u64 = 0;
        while p < count
            invariant
                p <= count,
                count > 0 ==> width > 0,
                all.len() == 4 * count,
                all == quarter_pixels(width, height),
                bytes@ == all.take(4 * p),
            decreases count - p,
        {
            let left = p % (width as u64) < (width / 2) as u64;
            let top = p / (width as u64) < (height / 2) as u64;
            let ghost pixel = quarter_pixel(
                width,
                height,
                p as int % (width as int),
                p as int / (width as int),
            );
            let (red, green, blue): (u8, u8, u8) = if left {
                if top {
                    (255, 0, 0)
                } else {
                    (0, 0, 255)
                }
            } else {
                if top {
                    (0, 255, 0)
                } else {
                    (255, 255, 0)
                }
            };
            proof {
                assert(pixel =~= seq![red, green, blue, 255u8]);
                assert((4 * p + 1) / 4 == p && (4 * p + 2) / 4 == p && (4 * p + 3) / 4 == p);
            }
            bytes.push(red);
            bytes.push(green);
            bytes.push(blue);
            bytes.push(255);
            p += 1;
            proof {
                assert(bytes@ =~= all.take(4 * p));
            }
        }
        proof {
            assert(all.take(4 * count) =~= all);
        }
        Ok(Fixture { definition, rgba: bytes })
    }

    /// A picture of four quarters. `bounds` is what the limits on images say of it.
    /// Whether there is room for its pixels is up to the machine.
    pub fn quadrants(
        id: u64,
        width: u32,
        height: u32,
        bounds: Result<(), ImageBoundError>,
    ) -> (r: Result<Self, SpikeError>)
        ensures
            ({
                let definition = definition_of(id, width, height, false);
                let pixels = quarter_pixels(width, height);
                ||| makes(definition, pixels, bounds, true, r)
                ||| makes(definition, pixels, bounds, false, r)
            }),
    {
        let room = match byte_count(width, height, bounds) {
            Ok(len) => reserve_pixels(len),
            Err(_) => None,
        };
        Self::quadrants_in(id, width, height, bounds, room)
    }

    /// The key of the source.
    pub open spec fn source_key(&self) -> GpuiImageKey {
        GpuiImageKey {
            session_id: None,
            image_id: self.definition.id,
            generation: self.definition.generation,
        }
    }

    /// What asking a cache for the source does: `r` is what it comes to, and
    /// `after` what the cache is then.
    pub open spec fn asks(
        &self,
        before: GpuiImageCache,
        bounds: Result<(), ImageBoundError>,
        after: GpuiImageCache,
        r: Result<u64, GpuiImageError>,
    ) -> bool {
        GpuiImageCache::yields(
            before,
            self.source_key(),
            self.definition,
            self.rgba@,
            bounds,
            after,
            r,
        )
    }

    /// The key of the source.
    pub fn key(&self) -> (r: GpuiImageKey)
        ensures
            r == self.source_key(),
    {
        GpuiImageKey::from_definition(&self.definition)
    }
}

/// How far the trial has got.
#[derive(Debug, Clone, Copy, PartialEq, Eq, Structural)]
pub enum SpikeStage {
    Initial,
    AtlasInvalidated,
    Recovered,
    Evicted,
    Recreated,
}

/// The images of the three sources.
#[derive(Debug, Clone, Copy, PartialEq, Eq, Structural)]
pub struct SpikeIds {
    pub source: u64,
    pub max_axis: u64,
    pub one_pixel: u64,
}

/// The stage after the images are seen: the same images have to come back after
/// the atlas was dropped, and all others after the sources were evicted.
pub open spec fn next_stage(
    stage: SpikeStage,
    before_invalidation: Option<SpikeIds>,
    before_eviction: Option<SpikeIds>,
    ids: SpikeIds,
) -> Result<SpikeStage, SpikeError> {
    match stage {
        SpikeStage::AtlasInvalidated => match before_invalidation {
            None => Err(SpikeError::NoIdsBeforeInvalidation),
            Some(prior) => if ids == prior {
                Ok(SpikeStage::Recovered)
            } else {
                Err(SpikeError::InvalidationChangedIds)
            },
        },
        SpikeStage::Evicted => match before_eviction {
            None => Err(SpikeError::NoIdsBeforeEviction),
            Some(prior) => if ids.source != prior.source && ids.max_axis != prior.max_axis
                && ids.one_pixel != prior.one_pixel {
                Ok(SpikeStage::Recreated)
            } else {
                Err(SpikeError::EvictionKeptAnId)
            },
        },
        other => Ok(other),
    }
}

/// What a key asks for.
#[derive(Debug, Clone, Copy, PartialEq, Eq, Structural)]
pub enum SpikeAction {
    /// Drop the renderer's atlas, and come back with [`SpikeState::invalidated`].
    InvalidateAtlas(SpikeIds),
    /// Evict every source, and come back with [`SpikeState::evicted`].
    EvictAll(SpikeIds),
    Nothing,
}

/// What the limits on images say of the three sources.
#[derive(Debug, Clone, Copy)]
pub struct SpikeBounds {
    pub source: Result<(), ImageBoundError>,
    pub max_axis: Result<(), ImageBoundError>,
    pub one_pixel: Result<(), ImageBoundError>,
}

/// The cache after the sources were asked for, one after the other.
pub struct SpikeSteps {
    pub first: GpuiImageCache,
    pub second: GpuiImageCache,
    pub third: GpuiImageCache,
}

/// The room that was reserved for the pixels of the three sources, where there is
/// any.
#[derive(Debug)]
pub struct SpikeRooms {
    pub source: Option<Vec<u8>>,
    pub max_axis: Option<Vec<u8>>,
    pub one_pixel: Option<Vec<u8>>,
}

/// Whether `r` is what making the first source comes to: a square of four
/// quarters.
pub open spec fn makes_source(
    bounds: SpikeBounds,
    has_room: bool,
    r: Result<Fixture, SpikeError>,
) -> bool {
    makes(
        definition_of(1, 128, 128, false),
        quarter_pixels(128, 128),
        bounds.source,
        has_room,
        r,
    )
}

/// Whether `r` is what making the second source comes to: a blue line as wide as
/// an image may be.
pub open spec fn makes_max_axis(
    max_width: u32,
    bounds: SpikeBounds,
    has_room: bool,
    r: Result<Fixture, SpikeError>,
) -> bool {
    makes(
        definition_of(2, max_width, 1, false),
        solid_pixels(max_width, 1, seq![0u8, 160, 255, 255]),
        bounds.max_axis,
        has_room,
        r,
    )
}

/// Whether `r` is what making the third source comes to: one magenta pixel.
pub open spec fn makes_one_pixel(
    bounds: SpikeBounds,
    has_room: bool,
    r: Result<Fixture, SpikeError>,
) -> bool {
    makes(
        definition_of(3, 1, 1, false),
        solid_pixels(1, 1, seq![255u8, 0, 255, 255]),
        bounds.one_pixel,
        has_room,
        r,
    )
}

/// Whether `r` is what making the three sources comes to, given for which of them
/// there is room. The first that cannot be made is why none is.
pub open spec fn makes_sources(
    max_width: u32,
    bounds: SpikeBounds,
    rooms: (bool, bool, bool),
    r: Result<(Fixture, Fixture, Fixture), SpikeError>,
) -> bool {
    match r {
        Ok(made) => {
            &&& makes_source(bounds, rooms.0, Ok(made.0))
            &&& makes_max_axis(max_width, bounds, rooms.1, Ok(made.1))
            &&& makes_one_pixel(bounds, rooms.2, Ok(made.2))
        },
        Err(error) => {
            ||| makes_source(bounds, rooms.0, Err(error))
            ||| exists|a: Fixture| #[trigger]
                makes_source(bounds, rooms.0, Ok(a)) && {
                    ||| makes_max_axis(max_width, bounds, rooms.1, Err(error))
                    ||| exists|b: Fixture| #[trigger]
                        makes_max_axis(max_width, bounds, rooms.1, Ok(b)) && makes_one_pixel(
                            bounds,
                            rooms.2,
                            Err(error),
                        )
                }
        },
    }
}

/// The three sources of the trial, in the room that was reserved for them.
pub fn spike_fixtures_in(max_width: u32, bounds: SpikeBounds, rooms: SpikeRooms) -> (r: Result<
    (Fixture, Fixture, Fixture),
    SpikeError,
>)
    requires
        rooms.source matches Some(bytes) ==> bytes@.len() == 0,
        rooms.max_axis matches Some(bytes) ==> bytes@.len() == 0,
        rooms.one_pixel matches Some(bytes) ==> bytes@.len() == 0,
    ensures
        makes_sources(
            max_width,
            bounds,
            (rooms.source is Some, rooms.max_axis is Some, rooms.one_pixel is Some),
            r,
        ),
{
    let blue: [u8; 4] = [0, 160, 255, 255];
    let magenta: [u8; 4] = [255, 0, 255, 255];
    proof {
        assert(blue@ =~= seq![0u8, 160, 255, 255]);
        assert(magenta@ =~= seq![255u8, 0, 255, 255]);
    }
    let ghost has = (rooms.source is Some, rooms.max_axis is Some, rooms.one_pixel is Some);
    let source = match Fixture::quadrants_in(1, 128, 128, bounds.source, rooms.source) {
        Ok(fixture) => {
            proof {
                assert(makes_source(bounds, has.0, Ok(fixture)));
            }
            fixture
        },
        Err(error) => {
            return Err(error);
        },
    };
    let max_axis = match Fixture::solid_in(
        2,
        max_width,
        1,
        blue,
        bounds.max_axis,
        rooms.max_axis,
    ) {
        Ok(fixture) => {
            proof {
                assert(makes_max_axis(max_width, bounds, has.1, Ok(fixture)));
            }
            fixture
        },
        Err(error) => {
            return Err(error);
        },
    };
    match Fixture::solid_in(3, 1, 1, magenta, bounds.one_pixel, rooms.one_pixel) {
        Ok(one_pixel) => Ok((source, max_axis, one_pixel)),
        Err(error) => Err(error),
    }
}

/// The three sources of the trial. Whether there is room for them is up to the
/// machine.
pub fn spike_fixtures(max_width: u32, bounds: SpikeBounds) -> (r: Result<
    (Fixture, Fixture, Fixture),
    SpikeError,
>)
    ensures
        exists|rooms: (bool, bool, bool)| #[trigger] makes_sources(max_width, bounds, rooms, r),
{
    let source = match byte_count(128, 128, bounds.source) {
        Ok(len) => reserve_pixels(len),
        Err(_) => None,
    };
    let max_axis = match byte_count(max_width, 1, bounds.max_axis) {
        Ok(len) => reserve_pixels(len),
        Err(_) => None,
    };
    let one_pixel = match byte_count(1, 1, bounds.one_pixel) {
        Ok(len) => reserve_pixels(len),
        Err(_) => None,
    };
    spike_fixtures_in(max_width, bounds, SpikeRooms { source, max_axis, one_pixel })
}

/// The trial.
#[derive(Debug)]
pub struct SpikeState {
    pub cache: GpuiImageCache,
    pub source: Fixture,
    pub max_axis: Fixture,
    pub one_pixel: Fixture,
    pub stage: SpikeStage,
    pub ready_logged: bool,
    pub ids_before_invalidation: Option<SpikeIds>,
    pub ids_before_eviction: Option<SpikeIds>,
}

impl SpikeState {
    /// The cache is sound.
    pub open spec fn wf(&self) -> bool {
        self.cache.wf()
    }

    /// Everything but the cache, the stage and the log.
    pub open spec fn same_trial(&self, other: &SpikeState) -> bool {
        &&& self.source == other.source
        &&& self.max_axis == other.max_axis
        &&& self.one_pixel == other.one_pixel
        &&& self.ids_before_invalidation == other.ids_before_invalidation
        &&& self.ids_before_eviction == other.ids_before_eviction
    }

    /// A trial with sources that are already made, and a first look at a source
    /// that is too wide by one pixel: it has to be refused, and not be built.
    /// `too_wide` is what the limits on images say of it.
    pub fn new(
        ceiling: u64,
        max_width: u32,
        fixtures: (Fixture, Fixture, Fixture),
        too_wide: Result<(), ImageBoundError>,
    ) -> (r: Result<Self, SpikeError>)
        requires
            max_width < u32::MAX,
        ensures
            match too_wide {
                Err(ImageBoundError::LimitExceeded(ImageLimitName::Dimensions)) => {
                    r matches Ok(state) && state.wf() && state.cache.sources().len() == 0
                        && state.cache.limit() == ceiling && state.source == fixtures.0
                        && state.max_axis == fixtures.1 && state.one_pixel == fixtures.2
                        && state.stage == SpikeStage::Initial && !state.ready_logged
                        && state.ids_before_invalidation is None && state.ids_before_eviction
                        is None
                },
                Err(error) => r == Err::<SpikeState, SpikeError>(
                    SpikeError::Image(GpuiImageError::Bound(error)),
                ),
                Ok(()) => r == Err::<SpikeState, SpikeError>(
                    SpikeError::Image(GpuiImageError::CanonicalLength),
                ) || r == Err::<SpikeState, SpikeError>(
                    SpikeError::Image(GpuiImageError::AllocationFailed),
                ),
            },
    {
        let mut cache = GpuiImageCache::new(ceiling);
        let created_before = cache.stats().render_images_created;
        let over_limit = TerminalImageDefinition {
            id: 4,
            generation: 1,
            width: max_width + 1,
            height: 1,
            rgba_bytes: 0,
            has_alpha: false,
        };
        let nothing: Vec<u8> = Vec::new();
        match cache.get_or_insert(&over_limit, nothing.as_slice(), too_wide) {
            Err(GpuiImageError::Bound(ImageBoundError::LimitExceeded(
                ImageLimitName::Dimensions,
            ))) => {},
            Err(error) => {
                return Err(SpikeError::Image(error));
            },
            Ok(_) => {
                return Err(SpikeError::MaxPlusOneReached);
            },
        }
        if cache.stats().render_images_created != created_before {
            return Err(SpikeError::CreationCountChanged);
        }
        let (source, max_axis, one_pixel) = fixtures;
        Ok(
            SpikeState {
                cache,
                source,
                max_axis,
                one_pixel,
                stage: SpikeStage::Initial,
                ready_logged: false,
                ids_before_invalidation: None,
                ids_before_eviction: None,
            },
        )
    }

    /// The images of the three sources, which have to be in the cache.
    pub open spec fn ids_in_cache(&self) -> Result<SpikeIds, SpikeError> {
        let s = self.cache.sources();
        if !has_source(s, self.source.source_key()) {
            Err(SpikeError::SourceNotCached)
        } else if !has_source(s, self.max_axis.source_key()) {
            Err(SpikeError::MaxAxisNotCached)
        } else if !has_source(s, self.one_pixel.source_key()) {
            Err(SpikeError::OnePixelNotCached)
        } else {
            Ok(
                SpikeIds {
                    source: s[place_of(s, self.source.source_key())].image,
                    max_axis: s[place_of(s, self.max_axis.source_key())].image,
                    one_pixel: s[place_of(s, self.one_pixel.source_key())].image,
                },
            )
        }
    }

    /// The images of the three sources.
    pub fn cached_ids(&self) -> (r: Result<SpikeIds, SpikeError>)
        ensures
            r == self.ids_in_cache(),
    {
        let source = match self.cache.get(self.source.key()) {
            Some(image) => image.image,
            None => {
                return Err(SpikeError::SourceNotCached);
            },
        };
        let max_axis = match self.cache.get(self.max_axis.key()) {
            Some(image) => image.image,
            None => {
                return Err(SpikeError::MaxAxisNotCached);
            },
        };
        let one_pixel = match self.cache.get(self.one_pixel.key()) {
            Some(image) => image.image,
            None => {
                return Err(SpikeError::OnePixelNotCached);
            },
        };
        Ok(SpikeIds { source, max_axis, one_pixel })
    }

    /// Every source is asked for in turn, the first of them twice, up to the
    /// first that is refused. `steps` is the cache after each but the last, `ids`
    /// the images so far, and `after` the cache in the end.
    pub open spec fn asks_all(
        &self,
        bounds: SpikeBounds,
        steps: SpikeSteps,
        ids: SpikeIds,
        after: GpuiImageCache,
        refusal: Option<GpuiImageError>,
    ) -> bool {
        ||| refusal matches Some(error) && self.source.asks(
            self.cache,
            bounds.source,
            after,
            Err(error),
        )
        ||| self.source.asks(self.cache, bounds.source, steps.first, Ok(ids.source))
            && self.source.asks(steps.first, bounds.source, steps.second, Ok(ids.source)) && {
            ||| refusal matches Some(error) && self.max_axis.asks(
                steps.second,
                bounds.max_axis,
                after,
                Err(error),
            )
            ||| self.max_axis.asks(
                steps.second,
                bounds.max_axis,
                steps.third,
                Ok(ids.max_axis),
            ) && {
                ||| refusal matches Some(error) && self.one_pixel.asks(
                    steps.third,
                    bounds.one_pixel,
                    after,
                    Err(error),
                )
                ||| refusal is None && self.one_pixel.asks(
                    steps.third,
                    bounds.one_pixel,
                    after,
                    Ok(ids.one_pixel),
                )
            }
        }
    }

    /// What the trial comes to once the sources were asked for: `r` is said of
    /// it, and `after` is the trial then.
    pub open spec fn comes_to(
        &self,
        ids: SpikeIds,
        refusal: Option<GpuiImageError>,
        after: SpikeState,
        r: Result<(SpikeIds, bool), SpikeError>,
    ) -> bool {
        let stage = next_stage(
            self.stage,
            self.ids_before_invalidation,
            self.ids_before_eviction,
            ids,
        );
        let failure = match refusal {
            Some(error) => Some(SpikeError::Image(error)),
            None => match stage {
                Err(error) => Some(error),
                Ok(_) => None,
            },
        };
        match failure {
            Some(error) => {
                &&& r == Err::<(SpikeIds, bool), SpikeError>(error)
                &&& after.stage == self.stage
                &&& after.ready_logged == self.ready_logged
            },
            None => {
                &&& r == Ok::<(SpikeIds, bool), SpikeError>((ids, !self.ready_logged))
                &&& after.stage == stage->Ok_0
                &&& after.ready_logged
                &&& after.ids_in_cache() == Ok::<SpikeIds, SpikeError>(ids)
            },
        }
    }

    /// Puts the three sources into the cache, the first of them twice, and moves
    /// on by what images they are. Says too whether this is the first time.
    pub fn ensure_images(&mut self, bounds: SpikeBounds) -> (r: Result<
        (SpikeIds, bool),
        SpikeError,
    >)
        requires
            old(self).wf(),
        ensures
            final(self).wf(),
            final(self).same_trial(old(self)),
            exists|steps: SpikeSteps, ids: SpikeIds, refusal: Option<GpuiImageError>| #[trigger]
                old(self).asks_all(bounds, steps, ids, final(self).cache, refusal)
                    && old(self).comes_to(ids, refusal, *final(self), r),
    {
        let source = match self.cache.get_or_insert(
            &self.source.definition,
            self.source.rgba.as_slice(),
            bounds.source,
        ) {
            Ok(image) => image,
            Err(error) => {
                proof {
                    let cache = self.cache;
                    let steps = SpikeSteps { first: cache, second: cache, third: cache };
                    let ids = SpikeIds { source: 0, max_axis: 0, one_pixel: 0 };
                    assert(old(self).asks_all(bounds, steps, ids, self.cache, Some(error)));
                }
                return Err(SpikeError::Image(error));
            },
        };
        let ghost first = self.cache;
        proof {
            asking_again_finds_the_source(
                old(self).cache,
                self.source.source_key(),
                self.source.definition,
                self.source.rgba@,
                bounds.source,
                first,
                source,
            );
        }
        let shared = match self.cache.get_or_insert(
            &self.source.definition,
            self.source.rgba.as_slice(),
            bounds.source,
        ) {
            Ok(image) => image,
            Err(error) => {
                proof {
                    let steps = SpikeSteps { first, second: self.cache, third: self.cache };
                    let ids = SpikeIds { source, max_axis: 0, one_pixel: 0 };
                    assert(old(self).asks_all(bounds, steps, ids, self.cache, Some(error)));
                }
                return Err(SpikeError::Image(error));
            },
        };
        if source != shared {
            return Err(SpikeError::SharedPlacementDiverged);
        }
        let ghost second = self.cache;
        let max_axis = match self.cache.get_or_insert(
            &self.max_axis.definition,
            self.max_axis.rgba.as_slice(),
            bounds.max_axis,
        ) {
            Ok(image) => image,
            Err(error) => {
                proof {
                    let steps = SpikeSteps { first, second, third: self.cache };
                    let ids = SpikeIds { source, max_axis: 0, one_pixel: 0 };
                    assert(old(self).asks_all(bounds, steps, ids, self.cache, Some(error)));
                }
                return Err(SpikeError::Image(error));
            },
        };
        let ghost third = self.cache;
        let one_pixel = match self.cache.get_or_insert(
            &self.one_pixel.definition,
            self.one_pixel.rgba.as_slice(),
            bounds.one_pixel,
        ) {
            Ok(image) => image,
            Err(error) => {
                proof {
                    let steps = SpikeSteps { first, second, third };
                    let ids = SpikeIds { source, max_axis, one_pixel: 0 };
                    assert(old(self).asks_all(bounds, steps, ids, self.cache, Some(error)));
                }
                return Err(SpikeError::Image(error));
            },
        };
        proof {
            sources_stay(
                first,
                self.source.source_key(),
                self.source.definition,
                self.source.rgba@,
                bounds.source,
                second,
                Ok(shared),
                self.source.source_key(),
            );
            asking_again_finds_the_source(
                second,
                self.max_axis.source_key(),
                self.max_axis.definition,
                self.max_axis.rgba@,
                bounds.max_axis,
                third,
                max_axis,
            );
            sources_stay(
                second,
                self.max_axis.source_key(),
                self.max_axis.definition,
                self.max_axis.rgba@,
                bounds.max_axis,
                third,
                Ok(max_axis),
                self.source.source_key(),
            );
            asking_again_finds_the_source(
                third,
                self.one_pixel.source_key(),
                self.one_pixel.definition,
                self.one_pixel.rgba@,
                bounds.one_pixel,
                self.cache,
                one_pixel,
            );
            sources_stay(
                third,
                self.one_pixel.source_key(),
                self.one_pixel.definition,
                self.one_pixel.rgba@,
                bounds.one_pixel,
                self.cache,
                Ok(one_pixel),
                self.source.source_key(),
            );
            sources_stay(
                third,
                self.one_pixel.source_key(),
                self.one_pixel.definition,
                self.one_pixel.rgba@,
                bounds.one_pixel,
                self.cache,
                Ok(one_pixel),
                self.max_axis.source_key(),
            );
        }
        proof {
            let ids = SpikeIds { source, max_axis, one_pixel };
            let steps = SpikeSteps { first, second, third };
            assert(old(self).asks_all(bounds, steps, ids, self.cache, None));
        }
        let ids = SpikeIds { source, max_axis, one_pixel };
        let stage = match self.observe(ids) {
            Ok(stage) => stage,
            Err(error) => {
                return Err(error);
            },
        };
        self.stage = stage;
        let first = !self.ready_logged;
        self.ready_logged = true;
        Ok((ids, first))
    }

    /// The stage after the given images are seen.
    pub fn observe(&self, ids: SpikeIds) -> (r: Result<SpikeStage, SpikeError>)
        ensures
            r == next_stage(
                self.stage,
                self.ids_before_invalidation,
                self.ids_before_eviction,
                ids,
            ),
    {
        match self.stage {
            SpikeStage::AtlasInvalidated => match self.ids_before_invalidation {
                None => Err(SpikeError::NoIdsBeforeInvalidation),
                Some(prior) => if ids == prior {
                    Ok(SpikeStage::Recovered)
                } else {
                    Err(SpikeError::InvalidationChangedIds)
                },
            },
            SpikeStage::Evicted => match self.ids_before_eviction {
                None => Err(SpikeError::NoIdsBeforeEviction),
                Some(prior) => if ids.source != prior.source && ids.max_axis != prior.max_axis
                    && ids.one_pixel != prior.one_pixel {
                    Ok(SpikeStage::Recreated)
                } else {
                    Err(SpikeError::EvictionKeptAnId)
                },
            },
            SpikeStage::Initial => Ok(SpikeStage::Initial),
            SpikeStage::Recovered => Ok(SpikeStage::Recovered),
            SpikeStage::Recreated => Ok(SpikeStage::Recreated),
        }
    }

    /// What a key asks for: `d` drops the atlas, `e` evicts the sources.
    pub fn handle_key(&self, key: &str) -> (r: Result<SpikeAction, SpikeError>)
        ensures
            r == if key@ == "d"@ {
                match self.ids_in_cache() {
                    Ok(ids) => Ok::<SpikeAction, SpikeError>(SpikeAction::InvalidateAtlas(ids)),
                    Err(error) => Err(error),
                }
            } else if key@ == "e"@ {
                match self.ids_in_cache() {
                    Ok(ids) => Ok::<SpikeAction, SpikeError>(SpikeAction::EvictAll(ids)),
                    Err(error) => Err(error),
                }
            } else {
                Ok(SpikeAction::Nothing)
            },
    {
        if str_eq(key, "d") {
            match self.cached_ids() {
                Ok(ids) => Ok(SpikeAction::InvalidateAtlas(ids)),
                Err(error) => Err(error),
            }
        } else if str_eq(key, "e") {
            match self.cached_ids() {
                Ok(ids) => Ok(SpikeAction::EvictAll(ids)),
                Err(error) => Err(error),
            }
        } else {
            Ok(SpikeAction::Nothing)
        }
    }

    /// The atlas was dropped while the given images were in the cache.
    pub fn invalidated(&mut self, ids: SpikeIds)
        requires
            old(self).wf(),
        ensures
            *final(self) == (SpikeState {
                ids_before_invalidation: Some(ids),
                stage: SpikeStage::AtlasInvalidated,
                ..*old(self)
            }),
    {
        self.ids_before_invalidation = Some(ids);
        self.stage = SpikeStage::AtlasInvalidated;
    }

    /// The sources were evicted while the given images were in the cache, and so
    /// many of them were the last of their kind.
    pub fn evicted(&mut self, ids: SpikeIds, final_drops: u64) -> (r: Result<(), SpikeError>)
        requires
            old(self).wf(),
        ensures
            if final_drops == 3 {
                &&& r == Ok::<(), SpikeError>(())
                &&& *final(self) == (SpikeState {
                    ids_before_eviction: Some(ids),
                    stage: SpikeStage::Evicted,
                    ..*old(self)
                })
            } else {
                &&& r == Err::<(), SpikeError>(SpikeError::NotFinalReferences)
                &&& *final(self) == *old(self)
            },
    {
        if final_drops != 3 {
            return Err(SpikeError::NotFinalReferences);
        }
        self.ids_before_eviction = Some(ids);
        self.stage = SpikeStage::Evicted;
        Ok(())
    }
}

/// In a picture of four quarters the pixel in column `x` and row `y` is red in the upper
/// left, green in the upper right, blue in the lower left and yellow in the lower right.
pub proof fn quarters_have_their_colours(width: u32, height: u32, x: int, y: int)
    requires
        0 <= x < width,
        0 <= y < height,
    ensures
        ({
            let pixels = quarter_pixels(width, height);
            let at = 4 * (y * width + x);
            let left = x < width as int / 2;
            let upper = y < height as int / 2;
            &&& pixels.len() == 4 * (width * height)
            &&& 0 <= at && at + 4 <= pixels.len()
            &&& pixels[at] == if left != upper && left {
                0u8
            } else if left == upper {
                255u8
            } else {
                0u8
            }
            &&& pixels[at + 1] == if left {
                0u8
            } else {
                255u8
            }
            &&& pixels[at + 2] == if left && !upper {
                255u8
            } else {
                0u8
            }
            &&& pixels[at + 3] == 255u8
        }),
{
    let w = width as int;
    let p = y * w + x;
    assert(0 <= p && p < width * height && 4 * width * height == 4 * (width * height))
        by (nonlinear_arith)
        requires
            0 <= x < width,
            0 <= y < height,
            w == width as int,
            p == y * w + x,
    ;
    vstd::arithmetic::div_mod::lemma_fundamental_div_mod_converse(p, w, y, x);
    assert((4 * p) / 4 == p && (4 * p + 1) / 4 == p && (4 * p + 2) / 4 == p && (4 * p + 3) / 4
        == p);
}

/// In a picture of one colour every pixel has that colour.
pub proof fn solid_pictures_have_one_colour(width: u32, height: u32, pixel: Seq<u8>, p: int)
    requires
        pixel.len() == 4,
        0 <= p < width * height,
    ensures
        solid_pixels(width, height, pixel).len() == 4 * (width * height),
        solid_pixels(width, height, pixel).subrange(4 * p, 4 * p + 4) == pixel,
{
    assert(4 * width * height == 4 * (width * height)) by (nonlinear_arith);
}

/// The three sources: a square of four quarters, a line as wide as asked for, and a single
/// magenta pixel. None of them is transparent anywhere.
pub proof fn sources_are_as_described(
    max_width: u32,
    bounds: SpikeBounds,
    rooms: (bool, bool, bool),
    made: (Fixture, Fixture, Fixture),
)
    requires
        makes_sources(max_width, bounds, rooms, Ok(made)),
    ensures
        rooms.0 && rooms.1 && rooms.2,
        bounds.source is Ok && bounds.max_axis is Ok && bounds.one_pixel is Ok,
        made.0.definition.id == 1 && made.1.definition.id == 2 && made.2.definition.id == 3,
        made.0.definition.generation == 1 && made.1.definition.generation == 1
            && made.2.definition.generation == 1,
        made.0.definition.width == 128 && made.0.definition.height == 128,
        made.1.definition.width == max_width && made.1.definition.height == 1,
        made.2.definition.width == 1 && made.2.definition.height == 1,
        !made.0.definition.has_alpha && !made.1.definition.has_alpha
            && !made.2.definition.has_alpha,
        made.0.definition.rgba_bytes == 65536 && made.0.rgba@.len() == 65536,
        made.1.definition.rgba_bytes == 4 * max_width && made.1.rgba@.len() == 4 * max_width,
        made.2.definition.rgba_bytes == 4,
        made.0.rgba@ == quarter_pixels(128, 128),
        forall|p: int|
            0 <= p < max_width ==> #[trigger] made.1.rgba@.subrange(4 * p, 4 * p + 4) == seq![
                0u8,
                160,
                255,
                255,
            ],
        made.2.rgba@ == seq![255u8, 0, 255, 255],
{
    assert(4 * max_width * 1 == 4 * max_width);
    assert forall|p: int| 0 <= p < max_width implies #[trigger] made.1.rgba@.subrange(
        4 * p,
        4 * p + 4,
    ) == seq![0u8, 160, 255, 255] by {
        solid_pictures_have_one_colour(max_width, 1, seq![0u8, 160, 255, 255], p);
    }
}

/// A source that cannot be made is told why: its bounds come first, then its size, then the
/// room for it.
pub proof fn pictures_are_refused_for_a_reason(
    definition: TerminalImageDefinition,
    pixels: Seq<u8>,
    bounds: Result<(), ImageBoundError>,
    has_room: bool,
    r: Result<Fixture, SpikeError>,
)
    requires
        makes(definition, pixels, bounds, has_room, r),
        4 * definition.width * definition.height <= u32::MAX,
    ensures
        r is Ok <==> bounds is Ok && has_room,
        bounds matches Err(error) ==> r == Err::<Fixture, SpikeError>(
            SpikeError::Image(GpuiImageError::Bound(error)),
        ),
        bounds is Ok && !has_room ==> r == Err::<Fixture, SpikeError>(
            SpikeError::Image(GpuiImageError::AllocationFailed),
        ),
{
}

/// After the atlas was dropped the same three images have to come back, and after the
/// sources were evicted not one of them may; at any other time nothing is asked of them.
pub proof fn images_come_back_as_they_should(
    stage: SpikeStage,
    kept: Option<SpikeIds>,
    evicted: Option<SpikeIds>,
    ids: SpikeIds,
)
    ensures
        next_stage(SpikeStage::AtlasInvalidated, Some(ids), evicted, ids) == Ok::<
            SpikeStage,
            SpikeError,
        >(SpikeStage::Recovered),
        next_stage(SpikeStage::AtlasInvalidated, kept, evicted, ids) is Ok <==> kept == Some(ids),
        next_stage(SpikeStage::AtlasInvalidated, None, evicted, ids) == Err::<
            SpikeStage,
            SpikeError,
        >(SpikeError::NoIdsBeforeInvalidation),
        kept is Some && kept != Some(ids) ==> next_stage(
            SpikeStage::AtlasInvalidated,
            kept,
            evicted,
            ids,
        ) == Err::<SpikeStage, SpikeError>(SpikeError::InvalidationChangedIds),
        next_stage(SpikeStage::Evicted, kept, None, ids) == Err::<SpikeStage, SpikeError>(
            SpikeError::NoIdsBeforeEviction,
        ),
        evicted matches Some(prior) ==> next_stage(SpikeStage::Evicted, kept, evicted, ids) == if {
            ||| ids.source == prior.source
            ||| ids.max_axis == prior.max_axis
            ||| ids.one_pixel == prior.one_pixel
        } {
            Err::<SpikeStage, SpikeError>(SpikeError::EvictionKeptAnId)
        } else {
            Ok::<SpikeStage, SpikeError>(SpikeStage::Recreated)
        },
        stage == SpikeStage::Initial || stage == SpikeStage::Recovered || stage
            == SpikeStage::Recreated ==> next_stage(stage, kept, evicted, ids) == Ok::<
            SpikeStage,
            SpikeError,
        >(stage),
{
}

/// Two keys do something: one drops the atlas and one evicts the sources, and both need
/// all three images in the cache.
pub proof fn two_keys_do_something(
    state: &SpikeState,
    key: &str,
    r: Result<SpikeAction, SpikeError>,
)
    requires
        call_ensures(SpikeState::handle_key, (state, key), r),
    ensures
        key@ != seq!['d'] && key@ != seq!['e'] ==> r == Ok::<SpikeAction, SpikeError>(
            SpikeAction::Nothing,
        ),
        key@ == seq!['d'] || key@ == seq!['e'] ==> (r is Ok <==> state.ids_in_cache() is Ok),
        r matches Ok(SpikeAction::InvalidateAtlas(ids)) ==> key@ == seq!['d']
            && state.ids_in_cache() == Ok::<SpikeIds, SpikeError>(ids),
        r matches Ok(SpikeAction::EvictAll(ids)) ==> key@ == seq!['e'] && state.ids_in_cache()
            == Ok::<SpikeIds, SpikeError>(ids),
        r matches Ok(SpikeAction::Nothing) ==> key@ != seq!['d'] && key@ != seq!['e'],
{
    reveal_strlit("d");
    reveal_strlit("e");
    assert("d"@ =~= seq!['d']);
    assert("e"@ =~= seq!['e']);
}

/// What was shown is remembered before the atlas goes and before the sources go. Three
/// sources go for the last time, or the trial failed.
pub proof fn what_was_shown_is_remembered(ids: SpikeIds, last: u64)
    ensures
        forall|state: &mut SpikeState, r: ()|
            #[trigger] call_ensures(SpikeState::invalidated, (state, ids), r) ==> {
                &&& final(state).ids_before_invalidation == Some(ids)
                &&& final(state).ids_before_eviction == state.ids_before_eviction
                &&& final(state).stage == SpikeStage::AtlasInvalidated
            },
        forall|state: &mut SpikeState, r: Result<(), SpikeError>|
            #[trigger] call_ensures(SpikeState::evicted, (state, ids, last), r) ==> {
                &&& r is Ok <==> last == 3
                &&& r is Ok ==> final(state).ids_before_eviction == Some(ids)
                    && final(state).stage == SpikeStage::Evicted
                &&& r matches Err(error) ==> error == SpikeError::NotFinalReferences
            },
{
}

/// The failures of the trial are told in words of their own.
pub proof fn failures_are_told()
    ensures
        SpikeError::MaxPlusOneReached.text() == Some("max-plus-one reached GPUI allocation"@),
        SpikeError::CreationCountChanged.text() == Some(
            "max-plus-one changed RenderImage creation count"@,
        ),
        SpikeError::SharedPlacementDiverged.text() == Some("shared placement source diverged"@),
        SpikeError::NoIdsBeforeInvalidation.text() == Some(
            "atlas invalidation did not record prior IDs"@,
        ),
        SpikeError::InvalidationChangedIds.text() == Some(
            "atlas invalidation changed source identities"@,
        ),
        SpikeError::NoIdsBeforeEviction.text() == Some("eviction did not record prior IDs"@),
        SpikeError::EvictionKeptAnId.text() == Some(
            "eviction retained a stale RenderImage identity"@,
        ),
        SpikeError::SourceNotCached.text() == Some("source fixture is not cached"@),
        SpikeError::MaxAxisNotCached.text() == Some("max-axis fixture is not cached"@),
        SpikeError::OnePixelNotCached.text() == Some("one-pixel fixture is not cached"@),
        SpikeError::NotFinalReferences.text() == Some(
            "not every cache entry reached its final reference"@,
        ),
{
}

} // verus!
