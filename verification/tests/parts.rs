use bary::blob::{Blob, TableIdent};
use bary::color::BColor;
use bary::grid::{Ent, GridLocation, IVec2, PartCoord};
use bary::part_layer::PartLayer;
use bary::portal::{DebugPortalPrototype, PortalDirection};

#[test]
fn colors() {
    let c = BColor::new(205, 92, 92, 255);
    assert_eq!(c.to_u8(), [205, 92, 92, 255]);
    assert_eq!(BColor::gray(128), BColor::new(128, 128, 128, 255));
    assert_eq!(BColor::gray(0).to_u8(), [0, 0, 0, 255]);
}

#[test]
fn layers() {
    assert_eq!(PartLayer::all(), [PartLayer::Internal, PartLayer::Plumbing, PartLayer::Structure, PartLayer::Exterior]);
    assert_eq!(PartLayer::build_order(), [PartLayer::Structure, PartLayer::Internal, PartLayer::Exterior]);
    let d = PartLayer::draw_order();
    for (i, l) in d.iter().enumerate() {
        assert_eq!(l.to_z() as usize, i);
    }
    assert_eq!(PartLayer::Exterior.to_z(), 3);
}

#[test]
fn grid_locations() {
    let l = GridLocation::new(Ent(7), PartCoord::new(IVec2::new(1, 2)));
    assert_eq!(l.grid_id, Ent(7));
    assert_eq!(l.coord, PartCoord::new(IVec2::new(1, 2)));
    let p = DebugPortalPrototype { dir: PortalDirection::Sink };
    assert_eq!(p.dir, PortalDirection::Sink);
}

#[test]
fn blobs_carry_their_table() {
    let b = Blob::new(vec![1, 2, 3], TableIdent::Pipes);
    assert_eq!(b.table(), TableIdent::Pipes);
    assert_eq!(b.data(), &[1, 2, 3]);
    assert_eq!(b.consume(), vec![1, 2, 3]);
    assert_eq!(TableIdent::all().len(), 14);
    assert_eq!(TableIdent::all()[0], TableIdent::Blueprints);
}
