//! Verified G-code generation.
//!
//! Typed motion and state parameters are rendered into exact textual command
//! lines, and that encoding layer drives planners for simple rectangular
//! toolpaths: layer heights, concentric perimeter walls, and a running
//! extrusion total.  Every length is fixed-point (see [`Mm`]), so each
//! renderer's output is pinned down character by character in its contract.

use vstd::prelude::*;

pub mod consts;
pub mod machine;
pub mod toolpath;
pub mod units;

pub use units::Mm;

verus! {

use crate::units::{mm_str, mm_text, uint_str, uint_text};
use vstd::string::StringExecFns;

/// A point in the XY plane, coordinates in millimeters.
#[derive(Debug, Clone, Copy, PartialEq, Eq, Structural)]
pub struct Point2d {
    pub x: Mm,
    pub y: Mm,
}

/// A point in XYZ space, coordinates in millimeters.
#[derive(Debug, Clone, Copy, PartialEq, Eq, Structural)]
pub struct Point3d {
    pub x: Mm,
    pub y: Mm,
    pub z: Mm,
}

/// The feed-rate field: `" F<rate>"` when a rate is given, empty otherwise.
pub open spec fn feed_str(feed_rate: Option<u32>) -> Seq<char> {
    match feed_rate {
        Option::Some(f) => " F"@ + uint_str(f as nat),
        Option::None => Seq::<char>::empty(),
    }
}

/// An optional length field: `" <tag><value>"` when present, empty otherwise.
pub open spec fn opt_mm_field_str(tag: Seq<char>, value: Option<Mm>) -> Seq<char> {
    match value {
        Option::Some(v) => tag + mm_str(v),
        Option::None => Seq::<char>::empty(),
    }
}

/// The line `move_xy` renders: a travel (`G0`) or extruding (`G1`) move in
/// the XY plane, fields in the order X, Y, E, F.
pub open spec fn move_xy_str(dest: Point2d, feed_rate: Option<u32>, flow_rate: Option<Mm>) -> Seq<
    char,
> {
    (if flow_rate is Some {
        "G1"@
    } else {
        "G0"@
    }) + " X"@ + mm_str(dest.x) + " Y"@ + mm_str(dest.y) + opt_mm_field_str(" E"@, flow_rate)
        + feed_str(feed_rate) + "\n"@
}

/// Renders a `G0`/`G1` linear move in the XY plane.
///
/// The opcode is `G1` exactly when an extrusion target is given; the axis
/// fields come first, then the `E` field if any, then the `F` field if any.
pub fn move_xy(dest: Point2d, feed_rate: Option<u32>, flow_rate: Option<Mm>) -> (r: String)
    ensures
        r@ == move_xy_str(dest, feed_rate, flow_rate),
{
    let mut s = if flow_rate.is_some() {
        String::from_str("G1")
    } else {
        String::from_str("G0")
    };
    s.append(" X");
    s.append(mm_text(dest.x).as_str());
    s.append(" Y");
    s.append(mm_text(dest.y).as_str());
    if let Some(e) = flow_rate {
        s.append(" E");
        s.append(mm_text(e).as_str());
    }
    if let Some(f) = feed_rate {
        s.append(" F");
        s.append(uint_text(f as u64).as_str());
    }
    s.append("\n");
    proof {
        assert(s@ =~= move_xy_str(dest, feed_rate, flow_rate));
    }
    s
}

/// The line `move_xyz` renders: a travel (`G0`) or extruding (`G1`) move in
/// XYZ space, fields in the order X, Y, Z, E, F.
pub open spec fn move_xyz_str(dest: Point3d, feed_rate: Option<u32>, flow_rate: Option<Mm>) -> Seq<
    char,
> {
    (if flow_rate is Some {
        "G1"@
    } else {
        "G0"@
    }) + " X"@ + mm_str(dest.x) + " Y"@ + mm_str(dest.y) + " Z"@ + mm_str(dest.z)
        + opt_mm_field_str(" E"@, flow_rate) + feed_str(feed_rate) + "\n"@
}

/// Renders a `G0`/`G1` linear move in three dimensions.
///
/// The opcode is `G1` exactly when an extrusion target is given; the axis
/// fields come first, then the `E` field if any, then the `F` field if any.
pub fn move_xyz(dest: Point3d, feed_rate: Option<u32>, flow_rate: Option<Mm>) -> (r: String)
    ensures
        r@ == move_xyz_str(dest, feed_rate, flow_rate),
{
    let mut s = if flow_rate.is_some() {
        String::from_str("G1")
    } else {
        String::from_str("G0")
    };
    s.append(" X");
    s.append(mm_text(dest.x).as_str());
    s.append(" Y");
    s.append(mm_text(dest.y).as_str());
    s.append(" Z");
    s.append(mm_text(dest.z).as_str());
    if let Some(e) = flow_rate {
        s.append(" E");
        s.append(mm_text(e).as_str());
    }
    if let Some(f) = feed_rate {
        s.append(" F");
        s.append(uint_text(f as u64).as_str());
    }
    s.append("\n");
    proof {
        assert(s@ =~= move_xyz_str(dest, feed_rate, flow_rate));
    }
    s
}

/// The line `move_z` renders: a Z-only travel move.
pub open spec fn move_z_str(z: Mm) -> Seq<char> {
    "G0 Z"@ + mm_str(z) + "\n"@
}

/// Renders a `G0` move along the Z axis alone, with no feed-rate or
/// extrusion field; useful for layer changes and z-hops.
pub fn move_z(z: Mm) -> (r: String)
    ensures
        r@ == move_z_str(z),
{
    let mut s = String::from_str("G0 Z");
    s.append(mm_text(z).as_str());
    s.append("\n");
    proof {
        assert(s@ =~= move_z_str(z));
    }
    s
}

/// The line `move_xy_arc_ij` renders: a clockwise (`G2`) or counter-
/// clockwise (`G3`) arc, each field present only when its argument is,
/// in the order X, Y, I, J, E.
pub open spec fn arc_str(
    dest: Option<Point2d>,
    x_offset: Option<Mm>,
    y_offset: Option<Mm>,
    flow_rate: Option<Mm>,
    ccw: bool,
) -> Seq<char> {
    (if ccw {
        "G3"@
    } else {
        "G2"@
    }) + (match dest {
        Option::Some(d) => " X"@ + mm_str(d.x) + " Y"@ + mm_str(d.y),
        Option::None => Seq::<char>::empty(),
    }) + opt_mm_field_str(" I"@, x_offset) + opt_mm_field_str(" J"@, y_offset) + opt_mm_field_str(
        " E"@,
        flow_rate,
    ) + "\n"@
}

/// Renders a `G2`/`G3` arc move in the XY plane.
///
/// The opcode is `G3` for a counter-clockwise arc and `G2` otherwise; the
/// end point, center offsets and extrusion target are each emitted only
/// when present, in the fixed order X, Y, I, J, E.
#[verifier::rlimit(60)]
pub fn move_xy_arc_ij(
    dest: Option<Point2d>,
    x_offset: Option<Mm>,
    y_offset: Option<Mm>,
    flow_rate: Option<Mm>,
    ccw: bool,
) -> (r: String)
    ensures
        r@ == arc_str(dest, x_offset, y_offset, flow_rate, ccw),
{
    let mut s = if ccw {
        String::from_str("G3")
    } else {
        String::from_str("G2")
    };
    if let Some(d) = dest {
        s.append(" X");
        s.append(mm_text(d.x).as_str());
        s.append(" Y");
        s.append(mm_text(d.y).as_str());
    }
    if let Some(i) = x_offset {
        s.append(" I");
        s.append(mm_text(i).as_str());
    }
    if let Some(j) = y_offset {
        s.append(" J");
        s.append(mm_text(j).as_str());
    }
    if let Some(e) = flow_rate {
        s.append(" E");
        s.append(mm_text(e).as_str());
    }
    s.append("\n");
    proof {
        assert(s@ =~= arc_str(dest, x_offset, y_offset, flow_rate, ccw));
    }
    s
}

/// The line `set_pos_2d` renders: `G92` with X and Y, and E when present.
pub open spec fn set_pos_2d_str(pos: Point2d, extrude_pos: Option<Mm>) -> Seq<char> {
    "G92 X"@ + mm_str(pos.x) + " Y"@ + mm_str(pos.y) + opt_mm_field_str(" E"@, extrude_pos)
        + "\n"@
}

/// Renders a `G92` command declaring the current XY position (and
/// optionally the extruder position) without motion; never a feed field.
pub fn set_pos_2d(pos: Point2d, extrude_pos: Option<Mm>) -> (r: String)
    ensures
        r@ == set_pos_2d_str(pos, extrude_pos),
{
    let mut s = String::from_str("G92 X");
    s.append(mm_text(pos.x).as_str());
    s.append(" Y");
    s.append(mm_text(pos.y).as_str());
    if let Some(e) = extrude_pos {
        s.append(" E");
        s.append(mm_text(e).as_str());
    }
    s.append("\n");
    proof {
        assert(s@ =~= set_pos_2d_str(pos, extrude_pos));
    }
    s
}

/// The line `set_pos_3d` renders: `G92` with X, Y and Z, and E when present.
pub open spec fn set_pos_3d_str(pos: Point3d, extrude_pos: Option<Mm>) -> Seq<char> {
    "G92 X"@ + mm_str(pos.x) + " Y"@ + mm_str(pos.y) + " Z"@ + mm_str(pos.z) + opt_mm_field_str(
        " E"@,
        extrude_pos,
    ) + "\n"@
}

/// Renders a `G92` command declaring the current XYZ position (and
/// optionally the extruder position) without motion; never a feed field.
pub fn set_pos_3d(pos: Point3d, extrude_pos: Option<Mm>) -> (r: String)
    ensures
        r@ == set_pos_3d_str(pos, extrude_pos),
{
    let mut s = String::from_str("G92 X");
    s.append(mm_text(pos.x).as_str());
    s.append(" Y");
    s.append(mm_text(pos.y).as_str());
    s.append(" Z");
    s.append(mm_text(pos.z).as_str());
    if let Some(e) = extrude_pos {
        s.append(" E");
        s.append(mm_text(e).as_str());
    }
    s.append("\n");
    proof {
        assert(s@ =~= set_pos_3d_str(pos, extrude_pos));
    }
    s
}

/// The line `reset_extruder` renders: `G92` with the E axis alone.
pub open spec fn reset_extruder_str(extrude_pos: Mm) -> Seq<char> {
    "G92 E"@ + mm_str(extrude_pos) + "\n"@
}

/// Renders a `G92` command setting the extruder (E axis) position.
pub fn reset_extruder(extrude_pos: Mm) -> (r: String)
    ensures
        r@ == reset_extruder_str(extrude_pos),
{
    let mut s = String::from_str("G92 E");
    s.append(mm_text(extrude_pos).as_str());
    s.append("\n");
    proof {
        assert(s@ =~= reset_extruder_str(extrude_pos));
    }
    s
}

/// An optional selector field (a tool or fan index): `" <tag><index>"`
/// when present, empty otherwise.
pub open spec fn selector_str(tag: Seq<char>, index: Option<u8>) -> Seq<char> {
    match index {
        Option::Some(i) => tag + uint_str(i as nat),
        Option::None => Seq::<char>::empty(),
    }
}

/// The line `set_hotend_temp` renders.
pub open spec fn set_hotend_temp_str(temp: u16, hotend: Option<u8>) -> Seq<char> {
    "M104 S"@ + uint_str(temp as nat) + selector_str(" T"@, hotend) + "\n"@
}

/// Renders an `M104` command setting the target hotend temperature, with
/// an optional tool selector.
pub fn set_hotend_temp(temp: u16, hotend: Option<u8>) -> (r: String)
    ensures
        r@ == set_hotend_temp_str(temp, hotend),
{
    let mut s = String::from_str("M104 S");
    s.append(uint_text(temp as u64).as_str());
    if let Some(t) = hotend {
        s.append(" T");
        s.append(uint_text(t as u64).as_str());
    }
    s.append("\n");
    proof {
        assert(s@ =~= set_hotend_temp_str(temp, hotend));
    }
    s
}

/// The line `wait_hotend_temp` renders.
pub open spec fn wait_hotend_temp_str(temp: u16, hotend: Option<u8>) -> Seq<char> {
    "M109 S"@ + uint_str(temp as nat) + selector_str(" T"@, hotend) + "\n"@
}

/// Renders an `M109` command setting the target hotend temperature and
/// waiting until it is reached, with an optional tool selector.
pub fn wait_hotend_temp(temp: u16, hotend: Option<u8>) -> (r: String)
    ensures
        r@ == wait_hotend_temp_str(temp, hotend),
{
    let mut s = String::from_str("M109 S");
    s.append(uint_text(temp as u64).as_str());
    if let Some(t) = hotend {
        s.append(" T");
        s.append(uint_text(t as u64).as_str());
    }
    s.append("\n");
    proof {
        assert(s@ =~= wait_hotend_temp_str(temp, hotend));
    }
    s
}

/// The line `set_fan_speed` renders.
pub open spec fn set_fan_speed_str(speed: u8, fan: Option<u8>) -> Seq<char> {
    "M106 S"@ + uint_str(speed as nat) + selector_str(" P"@, fan) + "\n"@
}

/// Renders an `M106` command setting the fan speed, with an optional fan
/// selector.
pub fn set_fan_speed(speed: u8, fan: Option<u8>) -> (r: String)
    ensures
        r@ == set_fan_speed_str(speed, fan),
{
    let mut s = String::from_str("M106 S");
    s.append(uint_text(speed as u64).as_str());
    if let Some(p) = fan {
        s.append(" P");
        s.append(uint_text(p as u64).as_str());
    }
    s.append("\n");
    proof {
        assert(s@ =~= set_fan_speed_str(speed, fan));
    }
    s
}

/// The line `fan_off` renders.
pub open spec fn fan_off_str(fan: Option<u8>) -> Seq<char> {
    "M107"@ + selector_str(" P"@, fan) + "\n"@
}

/// Renders an `M107` command disabling the fan, with an optional fan
/// selector.
pub fn fan_off(fan: Option<u8>) -> (r: String)
    ensures
        r@ == fan_off_str(fan),
{
    let mut s = String::from_str("M107");
    if let Some(p) = fan {
        s.append(" P");
        s.append(uint_text(p as u64).as_str());
    }
    s.append("\n");
    proof {
        assert(s@ =~= fan_off_str(fan));
    }
    s
}

/// The line `set_bed_temp` renders.
pub open spec fn set_bed_temp_str(temp: u8) -> Seq<char> {
    "M140 S"@ + uint_str(temp as nat) + "\n"@
}

/// Renders an `M140` command setting the target bed temperature.
pub fn set_bed_temp(temp: u8) -> (r: String)
    ensures
        r@ == set_bed_temp_str(temp),
{
    let mut s = String::from_str("M140 S");
    s.append(uint_text(temp as u64).as_str());
    s.append("\n");
    proof {
        assert(s@ =~= set_bed_temp_str(temp));
    }
    s
}

/// The line `wait_bed_temp` renders.
pub open spec fn wait_bed_temp_str(temp: u8) -> Seq<char> {
    "M190 S"@ + uint_str(temp as nat) + "\n"@
}

/// Renders an `M190` command setting the target bed temperature and
/// waiting until it is reached.
pub fn wait_bed_temp(temp: u8) -> (r: String)
    ensures
        r@ == wait_bed_temp_str(temp),
{
    let mut s = String::from_str("M190 S");
    s.append(uint_text(temp as u64).as_str());
    s.append("\n");
    proof {
        assert(s@ =~= wait_bed_temp_str(temp));
    }
    s
}

/// The line `set_chamber_temp` renders.
pub open spec fn set_chamber_temp_str(temp: u8) -> Seq<char> {
    "M141 S"@ + uint_str(temp as nat) + "\n"@
}

/// Renders an `M141` command setting the target chamber temperature.
pub fn set_chamber_temp(temp: u8) -> (r: String)
    ensures
        r@ == set_chamber_temp_str(temp),
{
    let mut s = String::from_str("M141 S");
    s.append(uint_text(temp as u64).as_str());
    s.append("\n");
    proof {
        assert(s@ =~= set_chamber_temp_str(temp));
    }
    s
}

/// The line `wait_chamber_temp` renders.
pub open spec fn wait_chamber_temp_str(temp: u8) -> Seq<char> {
    "M191 S"@ + uint_str(temp as nat) + "\n"@
}

/// Renders an `M191` command setting the target chamber temperature and
/// waiting until it is reached.
pub fn wait_chamber_temp(temp: u8) -> (r: String)
    ensures
        r@ == wait_chamber_temp_str(temp),
{
    let mut s = String::from_str("M191 S");
    s.append(uint_text(temp as u64).as_str());
    s.append("\n");
    proof {
        assert(s@ =~= wait_chamber_temp_str(temp));
    }
    s
}

/// Law: a linear move's opcode is decided by the extrusion target alone --
/// `G1` when one is present, `G0` when not -- in two and in three
/// dimensions alike.
pub proof fn lemma_linear_move_opcode(
    dest2: Point2d,
    dest3: Point3d,
    feed_rate: Option<u32>,
    flow_rate: Option<Mm>,
)
    ensures
        move_xy_str(dest2, feed_rate, flow_rate).subrange(0, 2) == if flow_rate is Some {
            "G1"@
        } else {
            "G0"@
        },
        move_xyz_str(dest3, feed_rate, flow_rate).subrange(0, 2) == if flow_rate is Some {
            "G1"@
        } else {
            "G0"@
        },
{
    reveal_strlit("G0");
    reveal_strlit("G1");
    assert(move_xy_str(dest2, feed_rate, flow_rate).subrange(0, 2) =~= (if flow_rate is Some {
        "G1"@
    } else {
        "G0"@
    }));
    assert(move_xyz_str(dest3, feed_rate, flow_rate).subrange(0, 2) =~= (if flow_rate is Some {
        "G1"@
    } else {
        "G0"@
    }));
}

} // verus!
