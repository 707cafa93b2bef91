use bary::grid::{IVec2, PartCoord, Rotation, UVec2};
use bary::instance::{GridRegion, PartInstance};
use bary::part_layer::PartLayer;

fn pc(x: i32, y: i32) -> PartCoord {
    PartCoord::new(IVec2::new(x, y))
}

#[test]
fn part_instance_placement() {
    let region = GridRegion::new(pc(2, 3), Rotation::East, UVec2::new(4, 1));
    let mut p = PartInstance::new("tank", PartLayer::Internal, region);
    assert_eq!(p.name, "tank");
    assert_eq!(p.layer(), PartLayer::Internal);
    assert_eq!(p.dims_grid(), UVec2::new(4, 1));
    assert_eq!(p.origin(), pc(2, 3));
    assert_eq!(p.upper_left(), pc(2, 4));
    p.set_rotation(Rotation::North);
    assert_eq!(p.rotation(), Rotation::North);
    assert_eq!(p.dims_grid(), UVec2::new(1, 4));
    assert_eq!(p.upper_left(), pc(2, 7));
    let q = p.with_origin(IVec2::new(-1, -1));
    assert_eq!(q.origin(), pc(-1, -1));
    assert_eq!(p.origin(), pc(2, 3));
    p.set_origin(IVec2::new(5, 5));
    assert_eq!(p.origin(), pc(5, 5));
}

#[test]
fn part_instance_rotation() {
    let region = GridRegion::new(pc(2, 3), Rotation::East, UVec2::new(4, 1));
    let start = PartInstance::new("tank", PartLayer::Exterior, region);
    let mut p = start.clone();
    p.rotate_ccw();
    // the top left corner (2, 4) turns into the new bottom left corner
    assert_eq!(p.origin(), pc(-4, 2));
    assert_eq!(p.rotation(), Rotation::North);
    assert_eq!(p.dims_grid(), UVec2::new(1, 4));
    p.rotate_ccw();
    assert_eq!(p.rotation(), Rotation::West);
    p.rotate_ccw();
    assert_eq!(p.rotation(), Rotation::South);
    p.rotate_ccw();
    assert_eq!(p, start);
}
