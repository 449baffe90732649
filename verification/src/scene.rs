//! The scene state: the eight orbiting bodies with their fixed draw
//! parameters, the star-field backdrop, the animation clock and the two
//! memoized layer caches.

use vstd::prelude::*;
use vstd::string::StringExecFns;
use crate::compose::LayerCache;

verus! {

/// An opaque color with channels in thousandths of a unit: `1000` is full
/// intensity, `0` none; `a` is the alpha channel.
#[derive(Clone, Copy, Debug, PartialEq, Eq, Structural)]
pub struct Color {
    pub r: u16,
    pub g: u16,
    pub b: u16,
    pub a: u16,
}

/// One background star: an offset from the screen center and a square side,
/// both in thousandths of a pixel.
#[derive(Clone, Copy, Debug, PartialEq, Eq, Structural)]
pub struct Star {
    pub x: i64,
    pub y: i64,
    pub size: u64,
}

/// One orbiting body and its fixed draw parameters.
#[derive(Clone, Debug)]
pub struct Planet {
    /// Orbital period in ten-thousandths of a simulated day; at least 1.
    pub period: u32,
    /// Orbit radius in thousandths of a pixel.
    pub orbit: u64,
    /// Drawn circle radius in thousandths of a pixel.
    pub radius: u64,
    /// On-screen label.
    pub name: String,
    /// Whether a satellite is drawn orbiting this body.
    pub lune: bool,
    /// Satellite speed multiplier in thousandths, drawn once at creation
    /// from `[1.0, 15.0]`.
    pub moon_speed: u64,
    /// Fill color of the body.
    pub color: Color,
    /// Color of the dashed orbit guide: the body's hue with low alpha.
    pub line_color: Color,
}

/// Width, in pixels, of the window the star field is sized for.
pub const INITIAL_WIDTH: u32 = 1024;

/// Height, in pixels, of the window the star field is sized for.
pub const INITIAL_HEIGHT: u32 = 768;

/// Number of stars in the backdrop.
pub const STAR_COUNT: usize = 5000;

/// Default animation speed in thousandths of a simulated day per second.
pub const DEFAULT_SPEED_MILLI: u32 = 5000;

/// Latest timestamp the scene accepts, in milliseconds: keeps every
/// derived product inside the machine integers.
pub const MAX_TIME_MS: u64 = 1_000_000_000_000_000;

/// Largest accepted speed multiplier, in thousandths of a day per second.
pub const MAX_SPEED_MILLI: u32 = 1_000_000;

/// Bound on star offsets, in thousandths of a pixel, under which placing a
/// star relative to any frame center stays inside `i64`.
pub const MAX_STAR_COORD: i64 = 100_000_000_000_000_000;

/// The whole scene: bodies in fixed draw order, stars, clock, speed, and
/// the two layer caches.
#[derive(Clone, Debug)]
pub struct State {
    /// Memoized star-field layer; drawn once, then reused.
    pub space_cache: LayerCache,
    /// Memoized orbital-system layer; invalidated by every [`State::update`].
    pub system_cache: LayerCache,
    /// Timestamp captured at construction, in milliseconds.
    pub start: u64,
    /// Timestamp of the latest [`State::update`], in milliseconds.
    pub now: u64,
    /// The immutable star-field backdrop.
    pub stars: Vec<Star>,
    /// Simulated days per real second, in thousandths.
    pub speed_multi: u32,
    /// The eight bodies, in draw order from Mercury to Neptune.
    pub planets: Vec<Planet>,
}

/// Membership of a star in the generation rectangle of a given width and
/// height in pixels: offsets cover half the size on each side of the
/// center, sizes lie in `[0.5, 2.0)` pixels.
pub open spec fn star_in_box(s: Star, width_px: int, height_px: int) -> bool {
    &&& -width_px * 500 <= s.x < width_px * 500
    &&& -height_px * 500 <= s.y < height_px * 500
    &&& 500 <= s.size < 2000
}

/// The fixed draw parameters of one body.
pub open spec fn planet_constants(
    p: Planet,
    name: Seq<char>,
    period: u32,
    orbit: u64,
    radius: u64,
    lune: bool,
    color: Color,
) -> bool {
    &&& p.name@ == name
    &&& p.period == period
    &&& p.orbit == orbit
    &&& p.radius == radius
    &&& p.lune == lune
    &&& p.color == color
    &&& p.line_color == (Color { r: color.r, g: color.g, b: color.b, a: 100 })
}

/// The eight bodies with their fixed constants, in draw order. Periods are
/// in ten-thousandths of a day (Mars through Neptune: multiples of an Earth
/// year of 365.26 days), radii in thousandths of a pixel, colors in
/// thousandths of a channel; orbit guides reuse the body hue at alpha 0.1.
pub open spec fn default_planets(ps: Seq<Planet>) -> bool {
    &&& ps.len() == 8
    &&& planet_constants(ps[0], "mercury"@, 879700, 100000, 9000, false,
            (Color { r: 660, g: 660, b: 660, a: 1000 }))
    &&& planet_constants(ps[1], "venus"@, 2240000, 140000, 12000, false,
            (Color { r: 1000, g: 1000, b: 0, a: 1000 }))
    &&& planet_constants(ps[2], "earth"@, 3650000, 180000, 12000, true,
            (Color { r: 0, g: 0, b: 1000, a: 1000 }))
    &&& planet_constants(ps[3], "mars"@, 6866888, 220000, 11000, true,
            (Color { r: 910, g: 550, b: 480, a: 1000 }))
    &&& planet_constants(ps[4], "jupiter"@, 43319836, 270000, 18000, true,
            (Color { r: 550, g: 270, b: 70, a: 1000 }))
    &&& planet_constants(ps[5], "saturn"@, 107605596, 3300000, 18000, true,
            (Color { r: 1000, g: 840, b: 0, a: 1000 }))
    &&& planet_constants(ps[6], "uranus"@, 306854926, 390000, 16000, true,
            (Color { r: 470, g: 870, b: 760, a: 1000 }))
    &&& planet_constants(ps[7], "neptune"@, 601911954, 450000, 16000, true,
            (Color { r: 0, g: 410, b: 780, a: 1000 }))
}

/// Relies on rand's `Rng::gen_range` over a half-open integer range:
/// the result is drawn uniformly from `[lo, hi)`, in particular it always
/// lies inside that range. `gen_range` panics on an empty range, which the
/// precondition rules out.
#[verifier::external_body]
fn rand_range_i64(lo: i64, hi: i64) -> (r: i64)
    requires
        lo < hi,
    ensures
        lo <= r < hi,
{
    rand::Rng::gen_range(&mut rand::thread_rng(), lo..hi)
}

impl State {
    /// Internal invariant: eight bodies with positive periods, bounded star
    /// offsets, and clock and speed small enough that every per-frame
    /// product fits its machine integer.
    pub open spec fn wf(self) -> bool {
        &&& self.planets@.len() == 8
        &&& forall|i: int|
            0 <= i < self.planets@.len() ==> (#[trigger] self.planets@[i]).period >= 1
        &&& forall|i: int|
            0 <= i < self.stars@.len() ==> star_coord_bounded(#[trigger] self.stars@[i])
        &&& self.start <= MAX_TIME_MS
        &&& self.now <= MAX_TIME_MS
        &&& self.speed_multi <= MAX_SPEED_MILLI
    }

    /// Builds the scene at timestamp `now_ms`: the clock starts at `now_ms`,
    /// the star field is scattered over twice the initial window size, each
    /// body gets its fixed constants and a fresh random satellite speed
    /// in `[1.0, 15.0]`, the speed multiplier is 5 days per second, and
    /// both layer caches start empty.
    pub fn new(now_ms: u64) -> (s: State)
        requires
            now_ms <= MAX_TIME_MS,
        ensures
            s.wf(),
            s.start == now_ms,
            s.now == now_ms,
            s.speed_multi == DEFAULT_SPEED_MILLI,
            s.space_cache.ops is None,
            s.system_cache.ops is None,
            s.stars@.len() == STAR_COUNT,
            forall|i: int|
                0 <= i < s.stars@.len()
                    ==> star_in_box(#[trigger] s.stars@[i], 2 * INITIAL_WIDTH as int, 2 * INITIAL_HEIGHT as int),
            default_planets(s.planets@),
            forall|i: int|
                0 <= i < s.planets@.len()
                    ==> 1000 <= (#[trigger] s.planets@[i]).moon_speed <= 15000,
    {
        let stars = generate_stars(2 * INITIAL_WIDTH, 2 * INITIAL_HEIGHT);
        let mut planets: Vec<Planet> = Vec::new();
        planets.push(Planet {
            period: 879700,
            orbit: 100000,
            radius: 9000,
            name: String::from_str("mercury"),
            lune: false,
            moon_speed: random_moon_speed(),
            color: Color { r: 660, g: 660, b: 660, a: 1000 },
            line_color: Color { r: 660, g: 660, b: 660, a: 100 },
        });
        planets.push(Planet {
            period: 2240000,
            orbit: 140000,
            radius: 12000,
            name: String::from_str("venus"),
            lune: false,
            moon_speed: random_moon_speed(),
            color: Color { r: 1000, g: 1000, b: 0, a: 1000 },
            line_color: Color { r: 1000, g: 1000, b: 0, a: 100 },
        });
        planets.push(Planet {
            period: 3650000,
            orbit: 180000,
            radius: 12000,
            name: String::from_str("earth"),
            lune: true,
            moon_speed: random_moon_speed(),
            color: Color { r: 0, g: 0, b: 1000, a: 1000 },
            line_color: Color { r: 0, g: 0, b: 1000, a: 100 },
        });
        planets.push(Planet {
            period: 6866888,
            orbit: 220000,
            radius: 11000,
            name: String::from_str("mars"),
            lune: true,
            moon_speed: random_moon_speed(),
            color: Color { r: 910, g: 550, b: 480, a: 1000 },
            line_color: Color { r: 910, g: 550, b: 480, a: 100 },
        });
        planets.push(Planet {
            period: 43319836,
            orbit: 270000,
            radius: 18000,
            name: String::from_str("jupiter"),
            lune: true,
            moon_speed: random_moon_speed(),
            color: Color { r: 550, g: 270, b: 70, a: 1000 },
            line_color: Color { r: 550, g: 270, b: 70, a: 100 },
        });
        planets.push(Planet {
            period: 107605596,
            orbit: 3300000,
            radius: 18000,
            name: String::from_str("saturn"),
            lune: true,
            moon_speed: random_moon_speed(),
            color: Color { r: 1000, g: 840, b: 0, a: 1000 },
            line_color: Color { r: 1000, g: 840, b: 0, a: 100 },
        });
        planets.push(Planet {
            period: 306854926,
            orbit: 390000,
            radius: 16000,
            name: String::from_str("uranus"),
            lune: true,
            moon_speed: random_moon_speed(),
            color: Color { r: 470, g: 870, b: 760, a: 1000 },
            line_color: Color { r: 470, g: 870, b: 760, a: 100 },
        });
        planets.push(Planet {
            period: 601911954,
            orbit: 450000,
            radius: 16000,
            name: String::from_str("neptune"),
            lune: true,
            moon_speed: random_moon_speed(),
            color: Color { r: 0, g: 410, b: 780, a: 1000 },
            line_color: Color { r: 0, g: 410, b: 780, a: 100 },
        });
        State {
            space_cache: LayerCache { ops: None },
            system_cache: LayerCache { ops: None },
            start: now_ms,
            now: now_ms,
            stars,
            speed_multi: DEFAULT_SPEED_MILLI,
            planets,
        }
    }

    /// Advances the clock: records `now_ms` and invalidates the
    /// orbital-system layer. Everything else — in particular the star
    /// collection and its cached layer — is left exactly as it was, so any
    /// number of calls never regenerates or mutates the backdrop. A
    /// timestamp below the previous one is accepted: the animation then
    /// runs backwards rather than failing.
    pub fn update(&mut self, now_ms: u64)
        requires
            now_ms <= MAX_TIME_MS,
        ensures
            final(self).now == now_ms,
            final(self).system_cache.ops is None,
            final(self).start == old(self).start,
            final(self).stars == old(self).stars,
            final(self).space_cache == old(self).space_cache,
            final(self).planets == old(self).planets,
            final(self).speed_multi == old(self).speed_multi,
            old(self).wf() ==> final(self).wf(),
    {
        self.now = now_ms;
        self.system_cache.ops = None;
    }
}

/// A star offset small enough to place relative to any frame center.
pub open spec fn star_coord_bounded(s: Star) -> bool {
    &&& -MAX_STAR_COORD <= s.x <= MAX_STAR_COORD
    &&& -MAX_STAR_COORD <= s.y <= MAX_STAR_COORD
}

/// One random satellite speed multiplier in thousandths, from `[1.0, 15.0]`.
fn random_moon_speed() -> (r: u64)
    ensures
        1000 <= r <= 15000,
{
    let m = rand_range_i64(1000, 15001);
    m as u64
}

/// Scatters [`STAR_COUNT`] stars uniformly over the rectangle covering half
/// of `width_px` and `height_px` on each side of the screen center, each
/// star with a square side in `[0.5, 2.0)` pixels.
pub fn generate_stars(width_px: u32, height_px: u32) -> (r: Vec<Star>)
    requires
        width_px >= 1,
        height_px >= 1,
    ensures
        r@.len() == STAR_COUNT,
        forall|i: int|
            0 <= i < r@.len() ==> star_in_box(#[trigger] r@[i], width_px as int, height_px as int),
{
    let half_w: i64 = (width_px as i64) * 500;
    let half_h: i64 = (height_px as i64) * 500;
    let mut stars: Vec<Star> = Vec::new();
    let mut i: usize = 0;
    while i < STAR_COUNT
        invariant
            i <= STAR_COUNT,
            stars@.len() == i,
            half_w == width_px * 500,
            half_h == height_px * 500,
            width_px >= 1,
            height_px >= 1,
            forall|j: int|
                0 <= j < stars@.len()
                    ==> star_in_box(#[trigger] stars@[j], width_px as int, height_px as int),
        decreases STAR_COUNT - i,
    {
        let x = rand_range_i64(-half_w, half_w);
        let y = rand_range_i64(-half_h, half_h);
        let size = rand_range_i64(500, 2000);
        stars.push(Star { x, y, size: size as u64 });
        i += 1;
    }
    stars
}

} // verus!
