use bary::editor::EditorState;
use bary::grid::{Ent, GridLocation, IVec2, PartCoord, Rotation};
use bary::viewport::{DockingInterface, FreeFlying, SelectionInfo, Viewport};

fn loc(g: u64, x: i32, y: i32) -> GridLocation {
    GridLocation::new(Ent(g), PartCoord::new(IVec2::new(x, y)))
}

fn editing(vehicle: u64) -> Viewport<i32> {
    Viewport::Editor(EditorState {
        vehicle: Ent(vehicle),
        target_offset: 0,
        actual_offset: 0,
        camera_rotation: Rotation::East,
        prototype_id: None,
        part_rotation: Rotation::East,
        layer: None,
        select_start: Some(PartCoord::new(IVec2::new(2, 3))),
        hovered: None,
        vehicle_name_field: None,
    })
}

fn flying(selected: Vec<GridLocation>) -> Viewport<i32> {
    Viewport::Free(FreeFlying::new(None, SelectionInfo { hovered: Some(loc(1, 0, 0)), selected }))
}

#[test]
fn selection_helpers() {
    let s = SelectionInfo::selecting(Ent(4));
    assert_eq!(s.selected, vec![loc(4, -1000, -1000)]);
    assert_eq!(s.first_selected_grid(), Some(Ent(4)));
    assert_eq!(SelectionInfo::default().first_selected_grid(), None);
}

#[test]
fn looking_at_a_vehicle() {
    let mut v = flying(vec![]);
    assert!(v.look_at(Ent(3)));
    assert!(!v.look_at(Ent(3)));
    assert_eq!(v.free().unwrap().follow_vehicle, Some(Ent(3)));
    let mut e = editing(8);
    assert!(!e.look_at(Ent(3)));
    assert!(!e.is_real_view());
    assert!(v.is_real_view());
}

#[test]
fn leaving_the_editor() {
    let mut v = editing(8);
    assert_eq!(v.focused_grid_id(), Some(Ent(8)));
    assert_eq!(v.selected_grid_loc(), Some(loc(8, 2, 3)));
    assert_eq!(v.hovered_grid_loc(), None);
    assert!(v.leave_editor());
    assert!(!v.leave_editor());
    let f = v.free().unwrap();
    assert_eq!(f.follow_vehicle, Some(Ent(8)));
    assert_eq!(f.selection_info.selected, vec![loc(8, -1000, -1000)]);
    assert_eq!(v.focused_grid_id(), Some(Ent(8)));
    assert!(v.editor().is_none());
}

#[test]
fn docking_needs_two_grids() {
    assert_eq!(flying(vec![loc(1, 0, 0)]).docking_interface(), None);
    assert_eq!(flying(vec![loc(1, 0, 0), loc(1, 2, 2)]).docking_interface(), None);
    let mut v = flying(vec![loc(1, 0, 0), loc(2, 5, 5)]);
    if let Some(f) = v.free_mut() {
        f.offset = PartCoord::new(IVec2::new(1, -1));
        f.rotation = Rotation::West;
    }
    assert_eq!(
        v.docking_interface(),
        Some(DockingInterface {
            offset: PartCoord::new(IVec2::new(1, -1)),
            rotation: Rotation::West,
            parent: loc(1, 0, 0),
            child: loc(2, 5, 5),
        })
    );
    assert_eq!(v.hovered_grid_loc(), Some(loc(1, 0, 0)));
    assert_eq!(editing(2).docking_interface(), None);
    let mut e = editing(2);
    e.editor_mut().unwrap().vehicle = Ent(6);
    assert_eq!(e.focused_grid_id(), Some(Ent(6)));
}
