//! Planning of simple rectangular toolpaths: the ordered series of layer
//! heights, the concentric perimeter walls of each layer, the running
//! extrusion total, and the orchestrator that renders the whole path as
//! command lines.

use vstd::arithmetic::div_mod::{
    lemma_fundamental_div_mod, lemma_fundamental_div_mod_converse, lemma_mod_pos_bound,
};
use vstd::arithmetic::mul::{
    lemma_mul_by_zero_is_zero, lemma_mul_is_distributive_add_other_way,
    lemma_mul_is_distributive_sub_other_way, lemma_mul_nonnegative, lemma_mul_strict_inequality,
};
use vstd::string::StringExecFns;
use vstd::prelude::*;

verus! {

use crate::consts::Constants;
use crate::units::{half_toward_zero, Mm};
use crate::{
    move_xy_str, move_xyz, move_xyz_str, move_z_str, reset_extruder, reset_extruder_str, Point2d,
    Point3d,
};

/// The layer planner works on non-negative micrometer heights: a negative
/// input clamps to zero, as a cast to an unsigned micron count would.
pub open spec fn micron_clamp(m: Mm) -> int {
    if m.micros < 0 {
        0
    } else {
        m.micros as int
    }
}

/// How many layer heights lie in the half-open span `[lo, hi)` when
/// stepping by `step`: zero for an empty span, else the round-up quotient.
pub open spec fn spec_layer_count(lo: int, hi: int, step: int) -> int {
    if lo >= hi {
        0
    } else {
        (hi - lo + step - 1) / step
    }
}

/// Produces the ordered series of layer z-heights for a vertical span.
///
/// Heights are enumerated in whole micrometers from the first-layer height
/// upward in steps of `z_height`, strictly below `last_layer_z`: the layer
/// at or above the top is never emitted, so a caller wanting a capping
/// layer must add it itself.  Negative bounds clamp to zero.
pub fn gen_layer_heights(first_layer_z: Mm, last_layer_z: Mm, z_height: Mm) -> (r: Vec<Mm>)
    requires
        z_height.micros > 0,
    ensures
        r@.len() == spec_layer_count(
            micron_clamp(first_layer_z),
            micron_clamp(last_layer_z),
            z_height.micros as int,
        ),
        forall|i: int|
            0 <= i < r@.len() ==> #[trigger] r@[i].micros == micron_clamp(first_layer_z) + i * (
            z_height.micros as int),
        forall|i: int| 0 <= i < r@.len() ==> #[trigger] r@[i].micros < micron_clamp(last_layer_z),
        micron_clamp(first_layer_z) + r@.len() * (z_height.micros as int) >= micron_clamp(
            last_layer_z,
        ),
        r@.len() > 0 ==> r@[0].micros == micron_clamp(first_layer_z),
        forall|i: int|
            0 < i < r@.len() ==> #[trigger] r@[i].micros - r@[i - 1].micros == z_height.micros,
        forall|i: int, j: int| 0 <= i < j < r@.len() ==> r@[i].micros < r@[j].micros,
{
    let lo: u64 = if first_layer_z.micros < 0 {
        0
    } else {
        first_layer_z.micros as u64
    };
    let hi: u64 = if last_layer_z.micros < 0 {
        0
    } else {
        last_layer_z.micros as u64
    };
    let step: u64 = z_height.micros as u64;
    let mut v: Vec<Mm> = Vec::new();
    let mut z: u64 = lo;
    while z < hi
        invariant
            lo == micron_clamp(first_layer_z),
            hi == micron_clamp(last_layer_z),
            hi <= i64::MAX,
            step == z_height.micros,
            step > 0,
            z == lo + v@.len() * (step as int),
            v@.len() > 0 ==> z <= hi + step - 1,
            forall|i: int|
                0 <= i < v@.len() ==> #[trigger] v@[i].micros == lo + i * (step as int),
            forall|i: int| 0 <= i < v@.len() ==> #[trigger] v@[i].micros < hi,
        decreases (if z < hi {
            hi - z
        } else {
            0int
        }),
    {
        v.push(Mm { micros: z as i64 });
        proof {
            lemma_mul_is_distributive_add_other_way(step as int, v@.len() - 1, 1);
        }
        z = z + step;
    }
    proof {
        lemma_mul_by_zero_is_zero(step as int);
        if lo >= hi {
            if v@.len() > 0 {
                assert(v@[0].micros == lo + 0 * (step as int));
                assert(false);
            }
        } else {
            let d: int = hi - lo;
            let n: int = v@.len() as int;
            let s: int = step as int;
            assert(n > 0);
            lemma_mul_is_distributive_sub_other_way(s, n, 1);
            assert(v@[n - 1].micros == lo + (n - 1) * s);
            assert((n - 1) * s < d);
            assert(0 <= d + s - 1 - n * s < s);
            lemma_fundamental_div_mod_converse(d + s - 1, s, n, d + s - 1 - n * s);
        }
        assert forall|i: int, j: int| 0 <= i < j < v@.len() implies v@[i].micros < v@[j].micros by {
            lemma_mul_strict_inequality(i, j, step as int);
        }
        assert forall|i: int| 0 < i < v@.len() implies #[trigger] v@[i].micros - v@[i - 1].micros
            == z_height.micros by {
            lemma_mul_is_distributive_sub_other_way(step as int, i, i - 1);
        }
    }
    v
}

/// Computes the first point of a layer: the print rectangle centered on
/// the bed in X and Y, at the layer's z-height.  Centering uses halves
/// rounded toward zero, as the machine's integer division does.
pub fn calc_start_point(bed_x: Mm, bed_y: Mm, print_x: Mm, print_y: Mm, first_layer_z: Mm) -> (r:
    Point3d)
    ensures
        r.x.micros == half_toward_zero(bed_x.micros as int) - half_toward_zero(
            print_x.micros as int,
        ),
        r.y.micros == half_toward_zero(bed_y.micros as int) - half_toward_zero(
            print_y.micros as int,
        ),
        r.z == first_layer_z,
{
    let hx = bed_x.halved();
    let hy = bed_y.halved();
    let px = print_x.halved();
    let py = print_y.halved();
    Point3d {
        x: Mm { micros: hx.micros - px.micros },
        y: Mm { micros: hy.micros - py.micros },
        z: first_layer_z,
    }
}

/// How many whole walls a wall thickness holds: the truncated quotient of
/// thickness by nozzle width, clamped to `[0, 255]`.  A fractional
/// remainder is dropped, under-building by up to one nozzle width.
pub open spec fn spec_wall_count(wall_thickness: int, nozzle_size: int) -> int {
    if wall_thickness <= 0 {
        0
    } else if wall_thickness / nozzle_size > 255 {
        255
    } else {
        wall_thickness / nozzle_size
    }
}

/// Derives the wall count from a wall thickness and the nozzle width.
pub fn wall_count(wall_thickness: Mm, nozzle_size: Mm) -> (n: u8)
    requires
        nozzle_size.micros > 0,
    ensures
        n as int == spec_wall_count(wall_thickness.micros as int, nozzle_size.micros as int),
{
    if wall_thickness.micros <= 0 {
        0
    } else {
        let q: u64 = (wall_thickness.micros as u64) / (nozzle_size.micros as u64);
        if q > 255 {
            255
        } else {
            q as u8
        }
    }
}

/// The largest coordinate magnitude, in micrometers, the planners accept:
/// one thousand kilometers, far beyond any real bed, small enough that all
/// intermediate arithmetic stays inside `i64`.
pub const MAX_COORD_MICROS: i64 = 1_000_000_000_000_000;

/// Whether a length lies within the planners' coordinate range.
pub open spec fn coord_in_range(m: Mm) -> bool {
    -MAX_COORD_MICROS <= m.micros <= MAX_COORD_MICROS
}

/// The x-coordinate (in micrometers) of point `i` of a perimeter path:
/// point `4n + k` is corner `k` of wall `n`, each wall inset by
/// `n * nozzle` and entered from where the previous wall ended.
pub open spec fn perim_x(start: Point3d, nozzle: int, x_dim: int, i: int) -> int {
    let n = i / 4;
    let k = i % 4;
    if k == 0 {
        if n == 0 {
            start.x.micros as int
        } else {
            start.x.micros + (n - 1) * nozzle
        }
    } else if k == 3 {
        start.x.micros + n * nozzle
    } else {
        start.x.micros + x_dim - n * nozzle
    }
}

/// The y-coordinate (in micrometers) of point `i` of a perimeter path.
pub open spec fn perim_y(start: Point3d, nozzle: int, y_dim: int, i: int) -> int {
    let n = i / 4;
    let k = i % 4;
    if k == 0 || k == 1 {
        start.y.micros + y_dim - n * nozzle
    } else {
        start.y.micros + n * nozzle
    }
}

/// Produces the ordered points tracing `num_walls` concentric rectangular
/// walls, outermost first, four corners per wall, each wall inset by one
/// more nozzle width and continuing from where the previous wall ended.
pub fn gen_2_perimiters(
    start_point: Point3d,
    nozzle_size: Mm,
    num_walls: u8,
    x_dim: Mm,
    y_dim: Mm,
) -> (r: Vec<Point3d>)
    requires
        coord_in_range(start_point.x),
        coord_in_range(start_point.y),
        coord_in_range(nozzle_size),
        coord_in_range(x_dim),
        coord_in_range(y_dim),
    ensures
        r@.len() == 4 * num_walls as int,
        forall|i: int|
            0 <= i < r@.len() ==> (#[trigger] r@[i]).x.micros == perim_x(
                start_point,
                nozzle_size.micros as int,
                x_dim.micros as int,
                i,
            ),
        forall|i: int|
            0 <= i < r@.len() ==> (#[trigger] r@[i]).y.micros == perim_y(
                start_point,
                nozzle_size.micros as int,
                y_dim.micros as int,
                i,
            ),
        forall|i: int| 0 <= i < r@.len() ==> (#[trigger] r@[i]).z == start_point.z,
{
    let sx: i64 = start_point.x.micros;
    let sy: i64 = start_point.y.micros;
    let xd: i64 = x_dim.micros;
    let yd: i64 = y_dim.micros;
    let nz: i64 = nozzle_size.micros;
    let mut points: Vec<Point3d> = Vec::new();
    let mut cur_x: i64 = sx;
    let mut n: u8 = 0;
    while n < num_walls
        invariant
            n <= num_walls,
            sx == start_point.x.micros,
            sy == start_point.y.micros,
            xd == x_dim.micros,
            yd == y_dim.micros,
            nz == nozzle_size.micros,
            coord_in_range(start_point.x),
            coord_in_range(start_point.y),
            coord_in_range(nozzle_size),
            coord_in_range(x_dim),
            coord_in_range(y_dim),
            points@.len() == 4 * n as int,
            cur_x as int == (if n == 0 {
                sx as int
            } else {
                sx + (n - 1) * (nz as int)
            }),
            forall|i: int|
                0 <= i < points@.len() ==> (#[trigger] points@[i]).x.micros == perim_x(
                    start_point,
                    nz as int,
                    xd as int,
                    i,
                ),
            forall|i: int|
                0 <= i < points@.len() ==> (#[trigger] points@[i]).y.micros == perim_y(
                    start_point,
                    nz as int,
                    yd as int,
                    i,
                ),
            forall|i: int| 0 <= i < points@.len() ==> (#[trigger] points@[i]).z == start_point.z,
        decreases num_walls - n,
    {
        proof {
            assert(-255 * MAX_COORD_MICROS <= (n as int) * (nz as int) <= 255
                * MAX_COORD_MICROS) by (nonlinear_arith)
                requires
                    0 <= n as int <= 255,
                    -MAX_COORD_MICROS <= nz as int <= MAX_COORD_MICROS,
            ;
        }
        let offset: i64 = (n as i64) * nz;
        let y_top: i64 = sy + yd - offset;
        let x_right: i64 = sx + xd - offset;
        let y_bot: i64 = sy + offset;
        let x_left: i64 = sx + offset;
        points.push(Point3d { x: Mm { micros: cur_x }, y: Mm { micros: y_top }, z: start_point.z });
        points.push(
            Point3d { x: Mm { micros: x_right }, y: Mm { micros: y_top }, z: start_point.z },
        );
        points.push(
            Point3d { x: Mm { micros: x_right }, y: Mm { micros: y_bot }, z: start_point.z },
        );
        points.push(
            Point3d { x: Mm { micros: x_left }, y: Mm { micros: y_bot }, z: start_point.z },
        );
        proof {
            let nn = n as int;
            lemma_fundamental_div_mod_converse(4 * nn, 4, nn, 0);
            lemma_fundamental_div_mod_converse(4 * nn + 1, 4, nn, 1);
            lemma_fundamental_div_mod_converse(4 * nn + 2, 4, nn, 2);
            lemma_fundamental_div_mod_converse(4 * nn + 3, 4, nn, 3);
        }
        cur_x = x_left;
        n = n + 1;
    }
    points
}

/// Law: the perimeter path is axis-aligned -- each point after the first
/// differs from its predecessor in exactly one of x and y -- whenever the
/// walls fit inside the rectangle (each extent exceeds the total inset of
/// the innermost wall from both sides).
pub proof fn lemma_perimeter_axis_aligned(
    start: Point3d,
    nozzle: int,
    num_walls: int,
    x_dim: int,
    y_dim: int,
    i: int,
)
    requires
        0 < nozzle,
        2 * (num_walls - 1) * nozzle < x_dim,
        2 * (num_walls - 1) * nozzle < y_dim,
        1 <= i < 4 * num_walls,
    ensures
        (perim_x(start, nozzle, x_dim, i) != perim_x(start, nozzle, x_dim, i - 1)) != (perim_y(
            start,
            nozzle,
            y_dim,
            i,
        ) != perim_y(start, nozzle, y_dim, i - 1)),
{
    let n = i / 4;
    let k = i % 4;
    lemma_fundamental_div_mod(i, 4);
    lemma_mod_pos_bound(i, 4);
    assert(i == 4 * n + k);
    assert(n < num_walls);
    if k == 0 {
        assert(n >= 1);
        lemma_fundamental_div_mod_converse(i - 1, 4, n - 1, 3);
        assert(perim_x(start, nozzle, x_dim, i) == perim_x(start, nozzle, x_dim, i - 1));
        assert(n * nozzle + (n - 1) * nozzle < y_dim) by (nonlinear_arith)
            requires
                1 <= n < num_walls,
                0 < nozzle,
                2 * (num_walls - 1) * nozzle < y_dim,
        ;
        assert(perim_y(start, nozzle, y_dim, i) != perim_y(start, nozzle, y_dim, i - 1));
    } else {
        lemma_fundamental_div_mod_converse(i - 1, 4, n, k - 1);
        if k == 1 {
            assert(perim_y(start, nozzle, y_dim, i) == perim_y(start, nozzle, y_dim, i - 1));
            if n == 0 {
                assert(0 < x_dim) by (nonlinear_arith)
                    requires
                        1 <= num_walls,
                        0 < nozzle,
                        2 * (num_walls - 1) * nozzle < x_dim,
                ;
                assert(perim_x(start, nozzle, x_dim, i) != perim_x(start, nozzle, x_dim, i - 1));
            } else {
                assert(n * nozzle + (n - 1) * nozzle < x_dim) by (nonlinear_arith)
                    requires
                        1 <= n < num_walls,
                        0 < nozzle,
                        2 * (num_walls - 1) * nozzle < x_dim,
                ;
                assert(perim_x(start, nozzle, x_dim, i) != perim_x(start, nozzle, x_dim, i - 1));
            }
        } else if k == 2 {
            assert(perim_x(start, nozzle, x_dim, i) == perim_x(start, nozzle, x_dim, i - 1));
            assert(n * nozzle + n * nozzle < y_dim) by (nonlinear_arith)
                requires
                    0 <= n < num_walls,
                    0 < nozzle,
                    2 * (num_walls - 1) * nozzle < y_dim,
            ;
            assert(perim_y(start, nozzle, y_dim, i) != perim_y(start, nozzle, y_dim, i - 1));
        } else {
            assert(perim_y(start, nozzle, y_dim, i) == perim_y(start, nozzle, y_dim, i - 1));
            assert(n * nozzle + n * nozzle < x_dim) by (nonlinear_arith)
                requires
                    0 <= n < num_walls,
                    0 < nozzle,
                    2 * (num_walls - 1) * nozzle < x_dim,
            ;
            assert(perim_x(start, nozzle, x_dim, i) != perim_x(start, nozzle, x_dim, i - 1));
        }
    }
}

/// The running total of absolute extrusion distance across one perimeter
/// traversal.
pub struct ExtrusionAccumulator {
    /// Cumulative absolute feed distance so far.
    pub total: Mm,
}

impl ExtrusionAccumulator {
    /// A fresh accumulator, starting from zero feed distance.
    pub fn new() -> (r: ExtrusionAccumulator)
        ensures
            r.total.micros == 0,
    {
        ExtrusionAccumulator { total: Mm { micros: 0 } }
    }

    /// Adds `amount` to the running total and returns the new total.
    ///
    /// The total never decreases: it grows by exactly `amount`, so it is
    /// unchanged for `amount` zero and strictly larger for `amount`
    /// positive.
    pub fn advance(&mut self, amount: Mm) -> (r: Mm)
        requires
            amount.micros >= 0,
            old(self).total.micros + amount.micros <= i64::MAX,
        ensures
            final(self).total.micros == old(self).total.micros + amount.micros,
            r == final(self).total,
            r.micros >= old(self).total.micros,
            amount.micros == 0 ==> r.micros == old(self).total.micros,
            amount.micros > 0 ==> r.micros > old(self).total.micros,
    {
        self.total = Mm { micros: self.total.micros + amount.micros };
        self.total
    }
}

/// The largest configuration length the orchestrator accepts, in
/// micrometers: one kilometer.
pub const MAX_CFG_MICROS: i64 = 1_000_000_000_000;

/// The largest extrusion factor the orchestrator accepts, in micrometers
/// of filament per millimeter of travel: a meter of feed per millimeter.
pub const MAX_FACTOR_MICROS: i64 = 1_000_000;

/// The parameters of one rectangular print: the bed, the print rectangle,
/// the vertical span and step, the walls, and the feeds.
#[derive(Debug, Clone, Copy)]
pub struct ToolpathConfig {
    /// Bed extent along X.
    pub bed_x: Mm,
    /// Bed extent along Y.
    pub bed_y: Mm,
    /// Print rectangle extent along X.
    pub print_x: Mm,
    /// Print rectangle extent along Y.
    pub print_y: Mm,
    /// Height of the first layer.
    pub first_layer_z: Mm,
    /// Total height of the print; no layer is emitted at or above it.
    pub total_height: Mm,
    /// Height of each layer after the first.
    pub layer_step: Mm,
    /// Nozzle width: the inset between consecutive walls.
    pub nozzle_size: Mm,
    /// How many concentric walls each layer traces.
    pub num_walls: u8,
    /// Filament feed per millimeter of travel, in micrometers.  Each
    /// contour point advances the extrusion target by one rectangle
    /// X-extent worth of travel at this rate.
    pub extrude_factor: Mm,
    /// Feed rate for non-extruding travel moves.
    pub travel_feed: Option<u32>,
    /// Feed rate for extruding moves.
    pub print_feed: Option<u32>,
}

/// The machine limits a configuration must respect, plus the positive
/// step and inset the planners demand of their callers.
pub open spec fn cfg_ok(cfg: ToolpathConfig) -> bool {
    &&& -MAX_CFG_MICROS <= cfg.bed_x.micros <= MAX_CFG_MICROS
    &&& -MAX_CFG_MICROS <= cfg.bed_y.micros <= MAX_CFG_MICROS
    &&& 0 <= cfg.print_x.micros <= MAX_CFG_MICROS
    &&& 0 <= cfg.print_y.micros <= MAX_CFG_MICROS
    &&& 0 < cfg.layer_step.micros
    &&& 0 <= cfg.nozzle_size.micros <= MAX_CFG_MICROS
    &&& 0 <= cfg.extrude_factor.micros <= MAX_FACTOR_MICROS
}

/// How many layers the configuration yields.
pub open spec fn spec_num_layers(cfg: ToolpathConfig) -> int {
    spec_layer_count(
        micron_clamp(cfg.first_layer_z),
        micron_clamp(cfg.total_height),
        cfg.layer_step.micros as int,
    )
}

/// The z-height (in micrometers) of layer `l`.
pub open spec fn layer_z(cfg: ToolpathConfig, l: int) -> int {
    micron_clamp(cfg.first_layer_z) + l * (cfg.layer_step.micros as int)
}

/// The first point of a layer at height `z`: the print rectangle centered
/// on the bed.
pub open spec fn spec_start_point(cfg: ToolpathConfig, z: int) -> Point3d {
    Point3d {
        x: Mm {
            micros: (half_toward_zero(cfg.bed_x.micros as int) - half_toward_zero(
                cfg.print_x.micros as int,
            )) as i64,
        },
        y: Mm {
            micros: (half_toward_zero(cfg.bed_y.micros as int) - half_toward_zero(
                cfg.print_y.micros as int,
            )) as i64,
        },
        z: Mm { micros: z as i64 },
    }
}

/// How far the extrusion target advances per contour point, in
/// micrometers: one rectangle X-extent of travel at the configured rate.
pub open spec fn extrusion_step(cfg: ToolpathConfig) -> int {
    (cfg.print_x.micros * cfg.extrude_factor.micros) / 1000
}

/// Contour point `k` of the layer at height `z`.
pub open spec fn contour_point(cfg: ToolpathConfig, z: int, k: int) -> Point3d {
    let sp = spec_start_point(cfg, z);
    Point3d {
        x: Mm {
            micros: perim_x(sp, cfg.nozzle_size.micros as int, cfg.print_x.micros as int, k) as i64,
        },
        y: Mm {
            micros: perim_y(sp, cfg.nozzle_size.micros as int, cfg.print_y.micros as int, k) as i64,
        },
        z: Mm { micros: z as i64 },
    }
}

/// The extruding move for contour point `k` of the layer at height `z`:
/// its extrusion target is the `k+1`-fold extrusion step.
pub open spec fn contour_line(cfg: ToolpathConfig, z: int, k: int) -> Seq<char> {
    move_xyz_str(
        contour_point(cfg, z, k),
        cfg.print_feed,
        Some(Mm { micros: ((k + 1) * extrusion_step(cfg)) as i64 }),
    )
}

/// All lines of layer `l`: a travel move to the layer's start point, then
/// one extruding move per contour point.
pub open spec fn layer_lines(cfg: ToolpathConfig, l: int) -> Seq<Seq<char>> {
    let z = layer_z(cfg, l);
    seq![move_xyz_str(spec_start_point(cfg, z), cfg.travel_feed, None)] + Seq::new(
        (4 * cfg.num_walls as int) as nat,
        |k: int| contour_line(cfg, z, k),
    )
}

/// All lines of the layers from `l` up.
pub open spec fn layers_lines_from(cfg: ToolpathConfig, l: int) -> Seq<Seq<char>>
    decreases spec_num_layers(cfg) - l,
{
    if l >= spec_num_layers(cfg) {
        Seq::<Seq<char>>::empty()
    } else {
        layer_lines(cfg, l) + layers_lines_from(cfg, l + 1)
    }
}

/// The machine-mode preamble: absolute positioning, absolute extrusion,
/// a zeroed extruder, and homing.
pub open spec fn preamble_lines() -> Seq<Seq<char>> {
    seq![
        Constants::AbsolutePos.text_end(),
        Constants::AbsoluteExtrution.text_end(),
        reset_extruder_str(Mm { micros: 0 }),
        Constants::AutoHome.text_end(),
    ]
}

/// Every line of the toolpath, in emission order: the preamble, then each
/// layer in order.
pub open spec fn toolpath_lines(cfg: ToolpathConfig) -> Seq<Seq<char>> {
    preamble_lines() + layers_lines_from(cfg, 0)
}

/// Renders the whole toolpath: the machine-mode preamble, then, per
/// layer, a travel move to the layer's start point followed by one
/// extruding move per contour point with a monotonically increasing
/// extrusion target.  Lines come out in exactly the order generated.
pub fn generate_toolpath(cfg: ToolpathConfig) -> (r: Vec<String>)
    requires
        cfg_ok(cfg),
    ensures
        r@.map_values(|s: String| s@) == toolpath_lines(cfg),
{
    let mut lines: Vec<String> = Vec::new();
    lines.push(String::from_str(Constants::AbsolutePos.as_str_end()));
    lines.push(String::from_str(Constants::AbsoluteExtrution.as_str_end()));
    lines.push(reset_extruder(Mm { micros: 0 }));
    lines.push(String::from_str(Constants::AutoHome.as_str_end()));
    proof {
        assert(lines@.map_values(|s: String| s@) =~= preamble_lines());
    }
    let heights = gen_layer_heights(cfg.first_layer_z, cfg.total_height, cfg.layer_step);
    proof {
        assert(0 <= cfg.print_x.micros * cfg.extrude_factor.micros
            <= 1_000_000_000_000_000_000) by (nonlinear_arith)
            requires
                0 <= cfg.print_x.micros <= MAX_CFG_MICROS,
                0 <= cfg.extrude_factor.micros <= MAX_FACTOR_MICROS,
        ;
    }
    let inc: i64 = (((cfg.print_x.micros as u64) * (cfg.extrude_factor.micros as u64)) / 1000) as i64;
    let mut l: usize = 0;
    while l < heights.len()
        invariant
            cfg_ok(cfg),
            heights@.len() == spec_num_layers(cfg),
            forall|i: int|
                0 <= i < heights@.len() ==> #[trigger] heights@[i].micros == layer_z(cfg, i),
            inc as int == extrusion_step(cfg),
            0 <= inc <= 1_000_000_000_000_000,
            l <= heights@.len(),
            lines@.map_values(|s: String| s@) + layers_lines_from(cfg, l as int) == toolpath_lines(
                cfg,
            ),
        decreases heights@.len() - l,
    {
        let ghost lines_before_layer = lines@.map_values(|s: String| s@);
        let z = heights[l];
        let ghost zint = z.micros as int;
        let sp = calc_start_point(cfg.bed_x, cfg.bed_y, cfg.print_x, cfg.print_y, z);
        proof {
            assert(sp == spec_start_point(cfg, zint));
        }
        lines.push(move_xyz(sp, cfg.travel_feed, None));
        let ghost prefix = lines@.map_values(|s: String| s@);
        proof {
            assert(prefix =~= lines_before_layer + seq![
                move_xyz_str(spec_start_point(cfg, zint), cfg.travel_feed, None),
            ]);
        }
        let contour = gen_2_perimiters(sp, cfg.nozzle_size, cfg.num_walls, cfg.print_x, cfg.print_y);
        proof {
            assert forall|i: int| 0 <= i < contour@.len() implies #[trigger] contour@[i]
                == contour_point(cfg, zint, i) by {
                assert(contour@[i].x.micros == perim_x(
                    spec_start_point(cfg, zint),
                    cfg.nozzle_size.micros as int,
                    cfg.print_x.micros as int,
                    i,
                ));
                assert(contour@[i].y.micros == perim_y(
                    spec_start_point(cfg, zint),
                    cfg.nozzle_size.micros as int,
                    cfg.print_y.micros as int,
                    i,
                ));
                assert(contour@[i].z == spec_start_point(cfg, zint).z);
            }
        }
        let mut acc = ExtrusionAccumulator::new();
        let mut k: usize = 0;
        while k < contour.len()
            invariant
                cfg_ok(cfg),
                contour@.len() == 4 * cfg.num_walls as int,
                forall|i: int|
                    0 <= i < contour@.len() ==> #[trigger] contour@[i] == contour_point(
                        cfg,
                        zint,
                        i,
                    ),
                inc as int == extrusion_step(cfg),
                0 <= inc <= 1_000_000_000_000_000,
                k <= contour@.len(),
                acc.total.micros == k as int * (inc as int),
                lines@.map_values(|s: String| s@) == prefix + Seq::new(
                    k as nat,
                    |kk: int| contour_line(cfg, zint, kk),
                ),
            decreases contour@.len() - k,
        {
            proof {
                lemma_mul_is_distributive_add_other_way(inc as int, k as int, 1);
                assert((k as int + 1) * (inc as int) <= 1021 * 1_000_000_000_000_000) by (nonlinear_arith)
                    requires
                        0 <= k as int + 1 <= 1021,
                        0 <= inc <= 1_000_000_000_000_000,
                ;
                lemma_mul_nonnegative(k as int, inc as int);
            }
            let e = acc.advance(Mm { micros: inc });
            let line = move_xyz(contour[k], cfg.print_feed, Some(e));
            let ghost line_view = line@;
            let ghost lines_pre = lines@;
            lines.push(line);
            proof {
                assert(e == Mm { micros: ((k as int + 1) * extrusion_step(cfg)) as i64 });
                assert(contour@[k as int] == contour_point(cfg, zint, k as int));
                assert(line_view == contour_line(cfg, zint, k as int));
                assert(lines@.map_values(|s: String| s@) =~= lines_pre.map_values(
                    |s: String| s@,
                ).push(line_view));
                assert(lines@.map_values(|s: String| s@) =~= prefix + Seq::new(
                    (k + 1) as nat,
                    |kk: int| contour_line(cfg, zint, kk),
                ));
            }
            k = k + 1;
        }
        proof {
            assert(zint == layer_z(cfg, l as int));
            assert(Seq::new((4 * cfg.num_walls as int) as nat, |kk: int| contour_line(cfg, zint, kk))
                =~= Seq::new(k as nat, |kk: int| contour_line(cfg, zint, kk)));
            assert(layer_lines(cfg, l as int) =~= seq![
                move_xyz_str(spec_start_point(cfg, zint), cfg.travel_feed, None),
            ] + Seq::new((4 * cfg.num_walls as int) as nat, |kk: int| contour_line(cfg, zint, kk)));
            assert(lines@.map_values(|s: String| s@) =~= lines_before_layer + layer_lines(
                cfg,
                l as int,
            ));
            assert(layers_lines_from(cfg, l as int) == layer_lines(cfg, l as int)
                + layers_lines_from(cfg, l as int + 1));
            assert(lines@.map_values(|s: String| s@) + layers_lines_from(cfg, l as int + 1)
                =~= toolpath_lines(cfg));
        }
        l = l + 1;
    }
    proof {
        assert(layers_lines_from(cfg, l as int) =~= Seq::<Seq<char>>::empty());
        assert(lines@.map_values(|s: String| s@) =~= toolpath_lines(cfg));
    }
    lines
}

/// The lines of a layer change: a z-hop a quarter step above the old
/// layer, a travel to the new layer's XY start, then a descent to the new
/// layer's height.
pub open spec fn layer_change_lines(
    cur_layer_end: Point3d,
    new_layer_start: Point3d,
    layer_hight: int,
) -> Seq<Seq<char>> {
    seq![
        move_z_str(Mm { micros: (cur_layer_end.z.micros + (layer_hight * 5) / 4) as i64 }),
        move_xy_str(Point2d { x: new_layer_start.x, y: new_layer_start.y }, None, None),
        move_z_str(new_layer_start.z),
    ]
}

/// Renders a layer change: hop a quarter layer height above the current
/// layer's end, travel without extruding to the new start, then descend.
pub fn layer_change(cur_layer_end: Point3d, new_layer_start: Point3d, layer_hight: Mm) -> (r: Vec<
    String,
>)
    requires
        0 <= layer_hight.micros <= MAX_CFG_MICROS,
        coord_in_range(cur_layer_end.z),
    ensures
        r@.map_values(|s: String| s@) == layer_change_lines(
            cur_layer_end,
            new_layer_start,
            layer_hight.micros as int,
        ),
{
    let lift: i64 = (((layer_hight.micros as u64) * 5) / 4) as i64;
    let mut out: Vec<String> = Vec::new();
    out.push(crate::move_z(Mm { micros: cur_layer_end.z.micros + lift }));
    out.push(crate::move_xy(Point2d { x: new_layer_start.x, y: new_layer_start.y }, None, None));
    out.push(crate::move_z(new_layer_start.z));
    proof {
        assert(out@.map_values(|s: String| s@) =~= layer_change_lines(
            cur_layer_end,
            new_layer_start,
            layer_hight.micros as int,
        ));
    }
    out
}

/// The running totals that a fresh accumulator reports when fed each of
/// `amounts` in turn, starting from `start`.
pub open spec fn running_totals(start: int, amounts: Seq<int>) -> Seq<int>
    decreases amounts.len(),
{
    if amounts.len() == 0 {
        Seq::<int>::empty()
    } else {
        seq![start + amounts[0]] + running_totals(start + amounts[0], amounts.drop_first())
    }
}

/// Law: across any sequence of non-negative advances, the reported totals
/// never decrease, and none falls below the starting total.
pub proof fn lemma_extrusion_monotonic(start: int, amounts: Seq<int>)
    requires
        forall|i: int| 0 <= i < amounts.len() ==> amounts[i] >= 0,
    ensures
        running_totals(start, amounts).len() == amounts.len(),
        forall|i: int| 0 <= i < amounts.len() ==> start <= #[trigger] running_totals(
            start,
            amounts,
        )[i],
        forall|i: int, j: int|
            0 <= i <= j < amounts.len() ==> running_totals(start, amounts)[i] <= running_totals(
                start,
                amounts,
            )[j],
    decreases amounts.len(),
{
    if amounts.len() > 0 {
        lemma_extrusion_monotonic(start + amounts[0], amounts.drop_first());
    }
}

} // verus!
