use bary::editor::{
    BlueprintId, EditableText, EditorKeys, EditorState, GridEdit, HoveredCell, TextKey,
};
use bary::grid::{Ent, IVec2, PartCoord, Rotation};
use bary::part_layer::PartLayer;

fn key(s: &str) -> TextKey {
    TextKey::Other(Some(s.to_string()))
}

fn editor() -> EditorState<i32> {
    EditorState {
        vehicle: Ent(5),
        target_offset: 0,
        actual_offset: 0,
        camera_rotation: Rotation::East,
        prototype_id: None,
        part_rotation: Rotation::East,
        layer: None,
        select_start: None,
        hovered: Some(PartCoord::new(IVec2::new(1, 1))),
        vehicle_name_field: None,
    }
}

fn no_keys() -> EditorKeys {
    EditorKeys {
        enter: false,
        rotate: false,
        pipette: false,
        next_layer: false,
        rename: false,
        blueprint: false,
        escape: false,
    }
}

#[test]
fn text_field_typing() {
    let mut t = EditableText::empty();
    t.handle_keys(&[key("a"), key("b"), key("é"), TextKey::Other(None), key("cd")]);
    assert_eq!(t.contents(), "abcd");
    t.handle_keys(&[TextKey::Backspace]);
    assert_eq!(t.contents(), "abc");
    t.handle_keys(&[TextKey::Return, key("x")]);
    assert_eq!(t.contents(), "x");
    t.handle_keys(&[TextKey::Backspace, TextKey::Backspace]);
    assert_eq!(t.contents(), "");
}

#[test]
fn focus_layer_cycles() {
    let mut e = editor();
    let mut seen = Vec::new();
    for _ in 0..5 {
        e.next_layer(true);
        seen.push(e.layer);
    }
    assert_eq!(
        seen,
        vec![
            Some(PartLayer::Internal),
            Some(PartLayer::Plumbing),
            Some(PartLayer::Structure),
            Some(PartLayer::Exterior),
            None
        ]
    );
    e.next_layer(false);
    assert_eq!(e.layer, Some(PartLayer::Exterior));
    e.next_layer(true);
    assert_eq!(e.layer, None);
}

#[test]
fn rotating_turns_part_or_camera() {
    let mut e = editor();
    e.rotate_part();
    assert_eq!(e.camera_rotation, Rotation::North);
    assert_eq!(e.part_rotation, Rotation::East);
    e.prototype_id = Some(Ent(9));
    e.rotate_part();
    e.rotate_part();
    assert_eq!(e.part_rotation, Rotation::West);
    assert_eq!(e.camera_rotation, Rotation::North);
}

#[test]
fn pipette_picks_and_drops() {
    let mut e = editor();
    e.pipette(HoveredCell::Part { prototype: Ent(3), rotation: Rotation::South, layer: PartLayer::Plumbing });
    assert_eq!(e.prototype_id, Some(Ent(3)));
    assert_eq!(e.part_rotation, Rotation::South);
    assert_eq!(e.layer, Some(PartLayer::Plumbing));
    e.pipette(HoveredCell::Empty);
    assert_eq!(e.prototype_id, None);
    assert_eq!(e.layer, Some(PartLayer::Plumbing));
    e.pipette(HoveredCell::Empty);
    assert_eq!(e.layer, None);
    e.pipette(HoveredCell::Unknown);
    assert_eq!(e.prototype_id, None);
    e.hovered = None;
    e.pipette(HoveredCell::Part { prototype: Ent(3), rotation: Rotation::South, layer: PartLayer::Plumbing });
    assert_eq!(e.prototype_id, None);
}

#[test]
fn editor_keys_move_and_turn() {
    let mut e = editor();
    let keys = EditorKeys { rotate: true, next_layer: true, ..no_keys() };
    let r = e.handle_keys(keys, &[key("z")], HoveredCell::Unknown, |o| o + 10);
    assert_eq!(r, None);
    assert_eq!(e.camera_rotation, Rotation::North);
    assert_eq!(e.layer, Some(PartLayer::Internal));
    assert_eq!(e.target_offset, 10);
    assert!(e.vehicle_name_field.is_none());
}

#[test]
fn naming_a_ship() {
    let mut e = editor();
    let r = e.handle_keys(EditorKeys { rename: true, ..no_keys() }, &[], HoveredCell::Unknown, |o| o + 1);
    assert_eq!(r, None);
    assert_eq!(e.target_offset, 1);
    let r = e.handle_keys(EditorKeys { rotate: true, ..no_keys() }, &[key("Sp"), key("ry")], HoveredCell::Unknown, |o| o + 1);
    assert_eq!(r, None);
    assert_eq!(e.target_offset, 1);
    assert_eq!(e.camera_rotation, Rotation::East);
    let r = e.handle_keys(EditorKeys { enter: true, ..no_keys() }, &[key("!")], HoveredCell::Unknown, |o| o + 1);
    assert_eq!(r, Some(GridEdit::RenameGrid(Ent(5), "Spry".to_string())));
    assert!(e.vehicle_name_field.is_none());
    assert_eq!(e.target_offset, 2);
}

#[test]
fn choosing_a_blueprint_and_escaping() {
    let mut e = editor();
    e.handle_keys(EditorKeys { blueprint: true, ..no_keys() }, &[], HoveredCell::Unknown, |o| o);
    e.handle_keys(no_keys(), &[key("hull")], HoveredCell::Unknown, |o| o);
    let r = e.handle_keys(EditorKeys { enter: true, ..no_keys() }, &[], HoveredCell::Unknown, |o| o);
    assert_eq!(r, Some(GridEdit::SetGridBlueprint(Ent(5), Some(BlueprintId("hull".to_string(), 0)))));
    e.handle_keys(EditorKeys { rename: true, blueprint: true, ..no_keys() }, &[], HoveredCell::Unknown, |o| o);
    assert_eq!(e.vehicle_name_field.as_ref().map(|f| f.1), Some(true));
    e.handle_keys(EditorKeys { escape: true, ..no_keys() }, &[], HoveredCell::Unknown, |o| o);
    assert!(e.vehicle_name_field.is_none());
}
