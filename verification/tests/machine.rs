use gen_gcode::machine::{HomePos, Machine};
use gen_gcode::Mm;

#[test]
fn test_machine_home_x_bl() {
    let m = Machine {
        bed_x: Mm::from_mm(220),
        bed_y: Mm::from_mm(220),
        home_pos: HomePos::BottomLeft,
    };
    let p = m.home_point();
    assert_eq!(p.x, Mm::from_mm(0))
}

#[test]
fn test_machine_home_y_bl() {
    let m = Machine {
        bed_x: Mm::from_mm(220),
        bed_y: Mm::from_mm(220),
        home_pos: HomePos::BottomLeft,
    };
    let p = m.home_point();
    assert_eq!(p.y, Mm::from_mm(0))
}

#[test]
fn test_machine_home_x_tl() {
    let m = Machine {
        bed_x: Mm::from_mm(220),
        bed_y: Mm::from_mm(220),
        home_pos: HomePos::TopLeft,
    };
    let p = m.home_point();
    assert_eq!(p.x, Mm::from_mm(0))
}

#[test]
fn test_machine_home_y_tl() {
    let m = Machine {
        bed_x: Mm::from_mm(220),
        bed_y: Mm::from_mm(220),
        home_pos: HomePos::TopLeft,
    };
    let p = m.home_point();
    assert_eq!(p.y, Mm::from_mm(220))
}

#[test]
fn test_machine_home_x_br() {
    let m = Machine {
        bed_x: Mm::from_mm(220),
        bed_y: Mm::from_mm(220),
        home_pos: HomePos::BottomRight,
    };
    let p = m.home_point();
    assert_eq!(p.x, Mm::from_mm(220))
}

#[test]
fn test_machine_home_y_br() {
    let m = Machine {
        bed_x: Mm::from_mm(220),
        bed_y: Mm::from_mm(220),
        home_pos: HomePos::BottomRight,
    };
    let p = m.home_point();
    assert_eq!(p.y, Mm::from_mm(0))
}

#[test]
fn test_machine_home_x_tr() {
    let m = Machine {
        bed_x: Mm::from_mm(220),
        bed_y: Mm::from_mm(220),
        home_pos: HomePos::TopRight,
    };
    let p = m.home_point();
    assert_eq!(p.x, Mm::from_mm(220))
}

#[test]
fn test_machine_home_y_tr() {
    let m = Machine {
        bed_x: Mm::from_mm(220),
        bed_y: Mm::from_mm(220),
        home_pos: HomePos::TopRight,
    };
    let p = m.home_point();
    assert_eq!(p.y, Mm::from_mm(220))
}

#[test]
fn test_machine_home_x_c() {
    let m = Machine {
        bed_x: Mm::from_mm(220),
        bed_y: Mm::from_mm(220),
        home_pos: HomePos::Center,
    };
    let p = m.home_point();
    assert_eq!(p.x, Mm::from_mm(110))
}

#[test]
fn test_machine_home_y_c() {
    let m = Machine {
        bed_x: Mm::from_mm(220),
        bed_y: Mm::from_mm(220),
        home_pos: HomePos::Center,
    };
    let p = m.home_point();
    assert_eq!(p.y, Mm::from_mm(110))
}
