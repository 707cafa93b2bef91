use bary::grid::{IVec2, PartCoord, Rotation};
use bary::pipe::{get_bend_location, PipeGeometry, PipeSegments};

fn pc(x: i32, y: i32) -> PartCoord {
    PartCoord::new(IVec2::new(x, y))
}

#[test]
fn rotating_part_coords() {
    let v = PartCoord::zero().rotated_ccw();
    assert_eq!(v, pc(-1, 0));

    let v = v.rotated_ccw();
    assert_eq!(v, pc(-1, -1));

    let v = v.rotated_ccw();
    assert_eq!(v, pc(0, -1));

    let v = v.rotated_ccw();
    assert_eq!(v, pc(0, 0));

    let v = PartCoord::one().rotated_ccw();
    assert_eq!(v, pc(-2, 1));

    let v = v.rotated_ccw();
    assert_eq!(v, pc(-2, -2));

    let v = v.rotated_ccw();
    assert_eq!(v, pc(1, -2));

    let v = v.rotated_ccw();
    assert_eq!(v, pc(1, 1));
}

#[test]
fn pipe_path_computation() {
    assert_eq!(get_bend_location(pc(0, 0), pc(1, 1), true), Some(pc(1, 0)));
    assert_eq!(get_bend_location(pc(0, 0), pc(1, 1), false), Some(pc(0, 1)));
    assert_eq!(get_bend_location(pc(3, 2), pc(-4, 10), true), Some(pc(-4, 2)));
    assert_eq!(get_bend_location(pc(3, 2), pc(-4, 10), false), Some(pc(3, 10)));
}

#[test]
fn straight_pipes_do_not_bend() {
    assert_eq!(get_bend_location(pc(2, 5), pc(2, -3), true), None);
    assert_eq!(get_bend_location(pc(-1, 4), pc(7, 4), false), None);
    let g = PipeGeometry { start: pc(2, 5), end: pc(2, 3), x_first: true };
    assert_eq!(g.segments(), PipeSegments::Single(pc(2, 5), pc(2, 3)));
    let pts = g.points();
    assert_eq!(pts.len(), 3);
    assert!(g.contains(pc(2, 4)));
    assert!(!g.contains(pc(3, 4)));
}

#[test]
fn bent_pipe_cells() {
    let g = PipeGeometry { start: pc(0, 0), end: pc(2, 2), x_first: true };
    assert_eq!(g.segments(), PipeSegments::Double(pc(0, 0), pc(2, 0), pc(2, 2)));
    let pts = g.points();
    // three cells along x, then two more along y; the bend is counted once
    assert_eq!(pts.len(), 5);
    for p in [pc(0, 0), pc(1, 0), pc(2, 0), pc(2, 1), pc(2, 2)] {
        assert!(pts.contains(&p));
        assert!(g.contains(p));
    }
    assert!(!g.contains(pc(0, 1)));
    assert!(!g.contains(pc(1, 1)));
}

#[test]
fn pipe_offset_and_rotation() {
    let g = PipeGeometry { start: pc(0, 0), end: pc(2, 2), x_first: true };
    let h = g.with_offset(pc(10, -5));
    assert_eq!(h, PipeGeometry { start: pc(10, -5), end: pc(12, -3), x_first: true });

    let mut r = g;
    r.rotate_ccw();
    assert_eq!(r, PipeGeometry { start: pc(-1, 0), end: pc(-3, 2), x_first: false });
    // the rotated pipe holds exactly the rotated cells
    for p in [pc(0, 0), pc(1, 0), pc(2, 0), pc(2, 1), pc(2, 2)] {
        assert!(r.contains(p.rotated_ccw()));
    }
    assert!(!r.contains(pc(0, 1).rotated_ccw()));
    r.rotate_ccw();
    r.rotate_ccw();
    r.rotate_ccw();
    assert_eq!(r, g);
}

#[test]
fn part_coord_helpers() {
    let p = pc(3, -7);
    assert_eq!(p.to_tuple(), (3, -7));
    assert_eq!(p.inner(), IVec2::new(3, -7));
    assert_eq!(p.origin_with(Rotation::East), pc(3, -7));
    assert_eq!(p.origin_with(Rotation::North), pc(4, -7));
    assert_eq!(p.origin_with(Rotation::West), pc(4, -6));
    assert_eq!(p.origin_with(Rotation::South), pc(3, -6));
    assert_eq!(p.plus(pc(1, 1)), pc(4, -6));
    assert_eq!(p.minus(pc(1, 1)), pc(2, -8));
}

#[test]
fn pipe_point_counts() {
    let p = |x: i32, y: i32| PartCoord::new(IVec2::new(x, y));
    let bent = PipeGeometry { start: p(0, 0), end: p(3, -2), x_first: true };
    assert_eq!(bent.points().len(), 6);
    let straight = PipeGeometry { start: p(5, 1), end: p(5, -3), x_first: false };
    assert_eq!(straight.points().len(), 5);
    let single = PipeGeometry { start: p(2, 2), end: p(2, 2), x_first: true };
    assert_eq!(single.points().len(), 1);
}
