//! The frame compositor: turns the scene state and a viewport size into the
//! two ordered draw layers, memoizing each in its cache.

use vstd::prelude::*;
use crate::clock::{time_converter, MILLI_PER_DAY, MILLI_PER_MONTH, MILLI_PER_YEAR};
use crate::orbit::{angle_of, rotation_calculator, Angle};
use crate::scene::{star_coord_bounded, Color, Planet, Star, State};

verus! {

/// Radius of the sun in thousandths of a pixel.
pub const SUN_RADIUS: u64 = 60000;

/// Radius of every satellite in thousandths of a pixel.
pub const MOON_RADIUS: u64 = 4000;

/// Distance of a satellite from its body in thousandths of a pixel.
pub const MOON_DIST: u64 = 28000;

/// Horizontal position of the status text in thousandths of a pixel.
pub const OVERLAY_X: i64 = 150000;

/// Vertical position of the status text in thousandths of a pixel.
pub const OVERLAY_Y: i64 = 10000;

/// One primitive drawing instruction, as handed to the renderer.
/// Coordinates and sizes are in thousandths of a pixel; colors in
/// thousandths of a unit channel; `cx`, `cy` is the frame center.
#[derive(Clone, Copy, Debug, PartialEq, Eq, Structural)]
pub enum DrawOp {
    /// A solid white square of side `size`, centered at `x`, `y`.
    StarRect { x: i64, y: i64, size: u64 },
    /// The sun: a filled circle of radius `radius` at the frame center.
    Sun { cx: i64, cy: i64, radius: u64, color: Color },
    /// A satellite: a solid white circle of radius `radius`. Its position:
    /// from the frame center, rotate by `angle`, step `orbit` along the
    /// rotated x-axis to the body, rotate further by `drive` scaled by
    /// `factor_milli / 1000`, then step `dist` along the resulting y-axis.
    Moon {
        cx: i64,
        cy: i64,
        angle: Angle,
        orbit: u64,
        drive: Angle,
        factor_milli: u64,
        dist: u64,
        radius: u64,
    },
    /// A body's name label, anchored bottom-center at the body's position
    /// (frame center, rotated by `angle`, stepped `orbit` outward), in the
    /// body's color; `body` is the index into the scene's planet list.
    Label { cx: i64, cy: i64, angle: Angle, orbit: u64, body: usize, color: Color },
    /// A body: a filled circle of radius `radius` at the body's position,
    /// filled with a linear gradient across its width from the body color
    /// (stop at 40%) to dark teal (stop at 70%).
    Body { cx: i64, cy: i64, angle: Angle, orbit: u64, radius: u64, color: Color },
    /// The dashed orbit guide: a circle of radius `radius` around the frame
    /// center, stroke width one pixel, dash pattern three on, six off.
    Guide { cx: i64, cy: i64, radius: u64, color: Color },
    /// The status text: the speed multiplier in thousandths of a day per
    /// second, and the elapsed simulated time as whole days, months, years.
    Overlay { x: i64, y: i64, speed_milli: u32, days: u64, months: u64, years: u64 },
}

/// One memoized raster layer: the draw instructions of the last rendering,
/// or `None` when the layer must be drawn afresh.
#[derive(Clone, Debug)]
pub struct LayerCache {
    pub ops: Option<Vec<DrawOp>>,
}

/// The sun's amber fill, approximately RGB `0xF9D71C`, in thousandths.
pub open spec fn sun_color() -> Color {
    Color { r: 976, g: 843, b: 110, a: 1000 }
}

/// The frame-center coordinate, in thousandths of a pixel, of a viewport
/// side of `px` pixels.
pub open spec fn center_coord(px: u32) -> i64 {
    (px as int * 500) as i64
}

/// Elapsed real time of a scene, in milliseconds; negative when the clock
/// was moved backwards.
pub open spec fn elapsed_ms_of(s: State) -> int {
    s.now - s.start
}

/// Elapsed simulated time in thousandths of a day; negative elapsed real
/// time shows as zero.
pub open spec fn sim_days_milli(elapsed_ms: int, speed_milli: u32) -> int {
    if elapsed_ms <= 0 {
        0
    } else {
        elapsed_ms * speed_milli / 1000
    }
}

/// The instruction for one star: its square placed relative to the frame
/// center.
pub open spec fn star_op(cx: i64, cy: i64, s: Star) -> DrawOp {
    DrawOp::StarRect { x: (cx + s.x) as i64, y: (cy + s.y) as i64, size: s.size }
}

/// The whole star-field layer: one square per star, in order.
pub open spec fn starfield_ops(stars: Seq<Star>, cx: i64, cy: i64) -> Seq<DrawOp> {
    Seq::new(stars.len(), |i: int| star_op(cx, cy, stars[i]))
}

/// The sun's instruction.
pub open spec fn sun_op(cx: i64, cy: i64) -> DrawOp {
    DrawOp::Sun { cx, cy, radius: SUN_RADIUS, color: sun_color() }
}

/// A body's satellite instruction.
pub open spec fn moon_op(cx: i64, cy: i64, p: Planet, ang: Angle, drive: Angle) -> DrawOp {
    DrawOp::Moon {
        cx,
        cy,
        angle: ang,
        orbit: p.orbit,
        drive,
        factor_milli: p.moon_speed,
        dist: MOON_DIST,
        radius: MOON_RADIUS,
    }
}

/// A body's name-label instruction.
pub open spec fn label_op(cx: i64, cy: i64, p: Planet, ang: Angle, idx: int) -> DrawOp {
    DrawOp::Label { cx, cy, angle: ang, orbit: p.orbit, body: idx as usize, color: p.color }
}

/// A body's filled-circle instruction.
pub open spec fn body_op(cx: i64, cy: i64, p: Planet, ang: Angle) -> DrawOp {
    DrawOp::Body { cx, cy, angle: ang, orbit: p.orbit, radius: p.radius, color: p.color }
}

/// A body's orbit-guide instruction.
pub open spec fn guide_op(cx: i64, cy: i64, p: Planet) -> DrawOp {
    DrawOp::Guide { cx, cy, radius: p.orbit, color: p.line_color }
}

/// All instructions for one body, in order: its satellite when it has one,
/// then the name label, the body circle, and the dashed orbit guide.
pub open spec fn planet_ops(
    cx: i64,
    cy: i64,
    p: Planet,
    idx: int,
    ang: Angle,
    drive: Angle,
) -> Seq<DrawOp> {
    (if p.lune {
        seq![moon_op(cx, cy, p, ang, drive)]
    } else {
        Seq::<DrawOp>::empty()
    }) + seq![label_op(cx, cy, p, ang, idx), body_op(cx, cy, p, ang), guide_op(cx, cy, p)]
}

/// The instructions of the first `n` bodies, in draw order, each at its own
/// angle for the elapsed time, every satellite driven by the shared `drive`
/// angle.
pub open spec fn planets_ops_upto(
    cx: i64,
    cy: i64,
    ps: Seq<Planet>,
    n: int,
    elapsed_ms: int,
    speed_milli: u32,
    drive: Angle,
) -> Seq<DrawOp>
    decreases n,
{
    if n <= 0 {
        Seq::<DrawOp>::empty()
    } else {
        planets_ops_upto(cx, cy, ps, n - 1, elapsed_ms, speed_milli, drive) + planet_ops(
            cx,
            cy,
            ps[n - 1],
            n - 1,
            angle_of(ps[n - 1].period, elapsed_ms, speed_milli),
            drive,
        )
    }
}

/// The status-text instruction for an elapsed time and speed.
pub open spec fn overlay_op(elapsed_ms: int, speed_milli: u32) -> DrawOp {
    DrawOp::Overlay {
        x: OVERLAY_X,
        y: OVERLAY_Y,
        speed_milli,
        days: (sim_days_milli(elapsed_ms, speed_milli) / MILLI_PER_DAY as int) as u64,
        months: (sim_days_milli(elapsed_ms, speed_milli) / MILLI_PER_MONTH as int) as u64,
        years: (sim_days_milli(elapsed_ms, speed_milli) / MILLI_PER_YEAR as int) as u64,
    }
}

/// The shared satellite drive angle: the angle of the third body (Earth).
/// Every satellite is driven by Earth's angle rather than by its own body's,
/// so all moons stay globally in sync with Earth's position. A moon could
/// equally be driven by its own body's angle; driving them all from Earth
/// is the choice made and documented here.
pub open spec fn drive_angle(ps: Seq<Planet>, elapsed_ms: int, speed_milli: u32) -> Angle {
    angle_of(ps[2].period, elapsed_ms, speed_milli)
}

/// The whole orbital-system layer, in draw order: the sun, the bodies from
/// Mercury to Neptune, the status text.
pub open spec fn system_ops(
    cx: i64,
    cy: i64,
    ps: Seq<Planet>,
    elapsed_ms: int,
    speed_milli: u32,
) -> Seq<DrawOp> {
    seq![sun_op(cx, cy)] + planets_ops_upto(
        cx,
        cy,
        ps,
        ps.len() as int,
        elapsed_ms,
        speed_milli,
        drive_angle(ps, elapsed_ms, speed_milli),
    ) + seq![overlay_op(elapsed_ms, speed_milli)]
}

/// For the default eight bodies the orbital-system layer always holds
/// exactly 32 instructions, whatever the elapsed time, the speed and the
/// viewport: the sun, then a label, a body circle and an orbit guide for
/// each of the eight bodies, a satellite for the six bodies that have one,
/// and the status text.
pub proof fn lemma_system_ops_count(
    cx: i64,
    cy: i64,
    ps: Seq<Planet>,
    elapsed_ms: int,
    speed_milli: u32,
)
    requires
        crate::scene::default_planets(ps),
    ensures
        system_ops(cx, cy, ps, elapsed_ms, speed_milli).len() == 32,
{
    reveal_with_fuel(planets_ops_upto, 9);
}

/// Appends one body's instructions to the frame: the satellite first when
/// the body has one, then the name label and the body circle itself.
pub fn draw_planet(
    frame: &mut Vec<DrawOp>,
    cx: i64,
    cy: i64,
    rotation: Angle,
    planet: &Planet,
    body_index: usize,
    moon_rotation: Angle,
)
    ensures
        final(frame)@ == old(frame)@ + (if planet.lune {
            seq![moon_op(cx, cy, *planet, rotation, moon_rotation)]
        } else {
            Seq::<DrawOp>::empty()
        }) + seq![
            label_op(cx, cy, *planet, rotation, body_index as int),
            body_op(cx, cy, *planet, rotation),
        ],
{
    if planet.lune {
        frame.push(
            DrawOp::Moon {
                cx,
                cy,
                angle: rotation,
                orbit: planet.orbit,
                drive: moon_rotation,
                factor_milli: planet.moon_speed,
                dist: MOON_DIST,
                radius: MOON_RADIUS,
            },
        );
    }
    frame.push(
        DrawOp::Label {
            cx,
            cy,
            angle: rotation,
            orbit: planet.orbit,
            body: body_index,
            color: planet.color,
        },
    );
    frame.push(
        DrawOp::Body {
            cx,
            cy,
            angle: rotation,
            orbit: planet.orbit,
            radius: planet.radius,
            color: planet.color,
        },
    );
    proof {
        assert(frame@ =~= old(frame)@ + (if planet.lune {
            seq![moon_op(cx, cy, *planet, rotation, moon_rotation)]
        } else {
            Seq::<DrawOp>::empty()
        }) + seq![
            label_op(cx, cy, *planet, rotation, body_index as int),
            body_op(cx, cy, *planet, rotation),
        ]);
    }
}

/// Appends a body's dashed orbit guide to the frame: a circle of radius
/// `orbit` around the frame center in the body's guide color.
pub fn draw_planet_line(frame: &mut Vec<DrawOp>, cx: i64, cy: i64, orbit: u64, color: Color)
    ensures
        final(frame)@ == old(frame)@.push((DrawOp::Guide { cx, cy, radius: orbit, color })),
{
    frame.push(DrawOp::Guide { cx, cy, radius: orbit, color });
}

/// Copies a layer's instruction list: the cache keeps one copy and the
/// caller gets the other.
fn clone_ops(v: &Vec<DrawOp>) -> (r: Vec<DrawOp>)
    ensures
        r@ == v@,
{
    let mut r: Vec<DrawOp> = Vec::new();
    let mut i: usize = 0;
    while i < v.len()
        invariant
            i <= v.len(),
            r@ == v@.take(i as int),
        decreases v.len() - i,
    {
        r.push(v[i]);
        proof {
            assert(v@.take(i as int + 1) =~= v@.take(i as int).push(v@[i as int]));
        }
        i += 1;
    }
    proof {
        assert(v@.take(v@.len() as int) =~= v@);
    }
    r
}

/// Builds the star-field layer from the star collection.
fn build_starfield(stars: &Vec<Star>, cx: i64, cy: i64) -> (r: Vec<DrawOp>)
    requires
        0 <= cx <= 3_000_000_000_000,
        0 <= cy <= 3_000_000_000_000,
        forall|i: int| 0 <= i < stars@.len() ==> star_coord_bounded(#[trigger] stars@[i]),
    ensures
        r@ == starfield_ops(stars@, cx, cy),
{
    let mut r: Vec<DrawOp> = Vec::new();
    let mut i: usize = 0;
    while i < stars.len()
        invariant
            i <= stars@.len(),
            0 <= cx <= 3_000_000_000_000,
            0 <= cy <= 3_000_000_000_000,
            forall|k: int| 0 <= k < stars@.len() ==> star_coord_bounded(#[trigger] stars@[k]),
            r@.len() == i,
            forall|j: int| 0 <= j < i ==> r@[j] == star_op(cx, cy, stars@[j]),
        decreases stars@.len() - i,
    {
        let s = stars[i];
        r.push(DrawOp::StarRect { x: cx + s.x, y: cy + s.y, size: s.size });
        i += 1;
    }
    proof {
        assert(r@ =~= starfield_ops(stars@, cx, cy));
    }
    r
}

impl State {
    /// Produces the two draw layers for the current state and viewport, in
    /// fixed order: the star field beneath, the orbital system above. The
    /// scene itself is untouched apart from the two caches' memoized
    /// contents.
    ///
    /// The star-field layer is computed once and then reused from its cache
    /// unconditionally, even when the viewport size has changed since: the
    /// staleness is inherited cache policy, kept deliberately. The
    /// orbital-system layer is reused only while its cache holds contents,
    /// which every [`State::update`] clears.
    pub fn draw(&mut self, width_px: u32, height_px: u32) -> (r: (Vec<DrawOp>, Vec<DrawOp>))
        requires
            old(self).wf(),
        ensures
            final(self).wf(),
            final(self).start == old(self).start,
            final(self).now == old(self).now,
            final(self).stars == old(self).stars,
            final(self).speed_multi == old(self).speed_multi,
            final(self).planets == old(self).planets,
            (old(self).space_cache.ops matches Some(v) ==> {
                &&& r.0@ == v@
                &&& final(self).space_cache == old(self).space_cache
            }),
            (old(self).space_cache.ops is None ==> {
                &&& r.0@ == starfield_ops(
                    old(self).stars@,
                    center_coord(width_px),
                    center_coord(height_px),
                )
                &&& final(self).space_cache.ops matches Some(v) && v@ == r.0@
            }),
            (old(self).system_cache.ops matches Some(v) ==> {
                &&& r.1@ == v@
                &&& final(self).system_cache == old(self).system_cache
            }),
            (old(self).system_cache.ops is None ==> {
                &&& r.1@ == system_ops(
                    center_coord(width_px),
                    center_coord(height_px),
                    old(self).planets@,
                    elapsed_ms_of(*old(self)),
                    old(self).speed_multi,
                )
                &&& final(self).system_cache.ops matches Some(v) && v@ == r.1@
            }),
    {
        let cx: i64 = (width_px as i64) * 500;
        let cy: i64 = (height_px as i64) * 500;

        let background: Vec<DrawOp>;
        if self.space_cache.ops.is_some() {
            background = clone_ops(self.space_cache.ops.as_ref().unwrap());
        } else {
            let ops = build_starfield(&self.stars, cx, cy);
            self.space_cache.ops = Some(clone_ops(&ops));
            background = ops;
        }

        let system: Vec<DrawOp>;
        if self.system_cache.ops.is_some() {
            system = clone_ops(self.system_cache.ops.as_ref().unwrap());
        } else {
            let elapsed: i128 = self.now as i128 - self.start as i128;
            let drive = rotation_calculator(self.planets[2].period, elapsed, self.speed_multi);
            let mut ops: Vec<DrawOp> = Vec::new();
            ops.push(DrawOp::Sun { cx, cy, radius: SUN_RADIUS, color: Color { r: 976, g: 843, b: 110, a: 1000 } });
            let mut i: usize = 0;
            while i < self.planets.len()
                invariant
                    i <= self.planets@.len(),
                    self.wf(),
                    elapsed == self.now - self.start,
                    drive == drive_angle(self.planets@, elapsed as int, self.speed_multi),
                    ops@ == seq![sun_op(cx, cy)] + planets_ops_upto(
                        cx,
                        cy,
                        self.planets@,
                        i as int,
                        elapsed as int,
                        self.speed_multi,
                        drive,
                    ),
                decreases self.planets@.len() - i,
            {
                let planet = &self.planets[i];
                let rotation = rotation_calculator(planet.period, elapsed, self.speed_multi);
                draw_planet(&mut ops, cx, cy, rotation, planet, i, drive);
                draw_planet_line(&mut ops, cx, cy, planet.orbit, planet.line_color);
                proof {
                    assert(ops@ =~= seq![sun_op(cx, cy)] + planets_ops_upto(
                        cx,
                        cy,
                        self.planets@,
                        i as int + 1,
                        elapsed as int,
                        self.speed_multi,
                        drive,
                    ));
                }
                i += 1;
            }
            let days_milli: u64;
            if elapsed <= 0 {
                days_milli = 0;
            } else {
                proof {
                    assert((elapsed as int) * (self.speed_multi as int)
                        <= 1_000_000_000_000_000 * 1_000_000) by (nonlinear_arith)
                        requires
                            0 <= elapsed <= 1_000_000_000_000_000,
                            0 <= self.speed_multi <= 1_000_000,
                    ;
                }
                days_milli = ((elapsed as u128) * (self.speed_multi as u128) / 1000) as u64;
            }
            let (days, months, years) = time_converter(days_milli);
            ops.push(
                DrawOp::Overlay {
                    x: OVERLAY_X,
                    y: OVERLAY_Y,
                    speed_milli: self.speed_multi,
                    days,
                    months,
                    years,
                },
            );
            proof {
                assert(ops@ =~= system_ops(
                    cx,
                    cy,
                    self.planets@,
                    elapsed as int,
                    self.speed_multi,
                ));
            }
            self.system_cache.ops = Some(clone_ops(&ops));
            system = ops;
        }
        (background, system)
    }
}

} // verus!
