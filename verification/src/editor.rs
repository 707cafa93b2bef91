//! The ship editor's state: which part is being placed, in which layer and
//! orientation, the text field for naming a ship, and what the editor's
//! keys do to them.
//!
//! The camera offsets are floating-point values, so the editor is generic
//! over their type, and moving them is left to a function the caller
//! supplies. What the world holds at the hovered cell is looked up by the
//! caller too, and handed in as a [HoveredCell].

use vstd::prelude::*;
use crate::grid::{Ent, PartCoord, Rotation};
use crate::instance::next_rotation;
use crate::part_layer::PartLayer;
use crate::text::{string_clear, string_pop};

verus! {

/// A key press, as a text field sees it: backspace, return, or another key
/// with the text it types, if any.
#[derive(Debug, Clone, PartialEq, Eq)]
pub enum TextKey {
    Backspace,
    Return,
    Other(Option<String>),
}

/// What one key press does to the text of a field: backspace removes the
/// last character, return clears the field, and another key appends its
/// text when that text is all ASCII.
pub open spec fn key_effect(s: Seq<char>, k: TextKey) -> Seq<char> {
    match k {
        TextKey::Backspace => if s.len() > 0 { s.drop_last() } else { s },
        TextKey::Return => Seq::empty(),
        TextKey::Other(Some(t)) => if vstd::utf8::is_ascii_chars(t@) { s + t@ } else { s },
        TextKey::Other(None) => s,
    }
}

/// The text after the key presses `keys`, in order.
pub open spec fn typed(s: Seq<char>, keys: Seq<TextKey>) -> Seq<char>
    decreases keys.len(),
{
    if keys.len() == 0 {
        s
    } else {
        key_effect(typed(s, keys.drop_last()), keys.last())
    }
}

/// A line of text being typed.
#[derive(Debug, Clone)]
pub struct EditableText {
    inner: String,
}

impl View for EditableText {
    type V = Seq<char>;

    closed spec fn view(&self) -> Seq<char> {
        self.inner@
    }
}

impl EditableText {
    /// A field with no text.
    pub fn empty() -> (t: Self)
        ensures
            t@ == Seq::<char>::empty(),
    {
        EditableText { inner: String::new() }
    }

    /// The text typed so far.
    pub fn contents(&self) -> (s: &str)
        ensures
            s@ == self@,
    {
        self.inner.as_str()
    }

    fn clear(&mut self)
        ensures
            final(self)@ == Seq::<char>::empty(),
    {
        string_clear(&mut self.inner);
    }

    fn on_backspace(&mut self)
        ensures
            final(self)@ == key_effect(old(self)@, TextKey::Backspace),
    {
        let _ = string_pop(&mut self.inner);
    }

    /// Applies the key presses `keys` to the text, in order.
    pub fn handle_keys(&mut self, keys: &[TextKey])
        ensures
            final(self)@ == typed(old(self)@, keys@),
    {
        let mut i: usize = 0;
        while i < keys.len()
            invariant
                i <= keys@.len(),
                self@ == typed(old(self)@, keys@.take(i as int)),
            decreases keys@.len() - i,
        {
            assert(keys@.take(i + 1).drop_last() =~= keys@.take(i as int));
            match &keys[i] {
                TextKey::Backspace => self.on_backspace(),
                TextKey::Return => self.clear(),
                TextKey::Other(name) => {
                    if let Some(s) = name {
                        if s.as_str().is_ascii() {
                            self.inner.append(s.as_str());
                        }
                    }
                },
            }
            i = i + 1;
        }
        assert(keys@.take(keys@.len() as int) =~= keys@);
    }
}

/// Typing one ASCII character and then pressing backspace leaves the text
/// as it was; return always leaves it empty.
pub proof fn lemma_field_backspace_undoes_typing(s: Seq<char>, t: String)
    requires
        t@.len() == 1,
        vstd::utf8::is_ascii_chars(t@),
    ensures
        key_effect(key_effect(s, TextKey::Other(Some(t))), TextKey::Backspace) == s,
        key_effect(s, TextKey::Return).len() == 0,
{
    assert((s + t@).drop_last() =~= s);
}

/// The focus layer after stepping up through no layer and the layers, in
/// declaration order, coming back to no layer after the last.
pub open spec fn layer_after(l: Option<PartLayer>) -> Option<PartLayer> {
    match l {
        None => Some(PartLayer::Internal),
        Some(PartLayer::Internal) => Some(PartLayer::Plumbing),
        Some(PartLayer::Plumbing) => Some(PartLayer::Structure),
        Some(PartLayer::Structure) => Some(PartLayer::Exterior),
        Some(PartLayer::Exterior) => None,
    }
}

/// The focus layer after stepping down the same cycle.
pub open spec fn layer_before(l: Option<PartLayer>) -> Option<PartLayer> {
    match l {
        None => Some(PartLayer::Exterior),
        Some(PartLayer::Internal) => None,
        Some(PartLayer::Plumbing) => Some(PartLayer::Internal),
        Some(PartLayer::Structure) => Some(PartLayer::Plumbing),
        Some(PartLayer::Exterior) => Some(PartLayer::Structure),
    }
}

/// Stepping the focus layer down undoes stepping it up, and the other way
/// round; five steps either way come back to the start.
pub proof fn lemma_layer_cycle(l: Option<PartLayer>)
    ensures
        layer_before(layer_after(l)) == l,
        layer_after(layer_before(l)) == l,
        layer_after(layer_after(layer_after(layer_after(layer_after(l))))) == l,
{
}

/// What the world holds at the hovered cell of the edited grid, in the
/// editor's focus layer, or in the top layer when there is no focus layer.
#[derive(Debug, Clone, Copy, PartialEq, Eq)]
pub enum HoveredCell {
    /// The grid is gone, no part stands in that layer, or the part's
    /// record is gone.
    Unknown,
    /// No part stands at the cell in any layer.
    Empty,
    /// A part of prototype `prototype`, turned `rotation`, in `layer`.
    Part { prototype: Ent, rotation: Rotation, layer: PartLayer },
}

/// The settings that the editor's keys change: the camera's orientation,
/// the prototype being placed, its orientation, and the focus layer.
#[derive(Debug, Clone, Copy, PartialEq, Eq)]
pub struct EditorSettings {
    pub camera_rotation: Rotation,
    pub prototype_id: Option<Ent>,
    pub part_rotation: Rotation,
    pub layer: Option<PartLayer>,
}

/// A quarter turn of the part being placed, or of the camera when no part
/// is being placed.
pub open spec fn rotated_settings(c: EditorSettings) -> EditorSettings {
    if c.prototype_id is Some {
        EditorSettings { part_rotation: next_rotation(c.part_rotation), ..c }
    } else {
        EditorSettings { camera_rotation: next_rotation(c.camera_rotation), ..c }
    }
}

/// One step of the focus layer, up or down.
pub open spec fn layer_stepped(c: EditorSettings, is_up: bool) -> EditorSettings {
    EditorSettings { layer: if is_up { layer_after(c.layer) } else { layer_before(c.layer) }, ..c }
}

/// The pipette: drops the prototype being placed if there is one;
/// otherwise picks up the prototype, orientation and layer of the part at
/// the hovered cell. An empty cell clears the focus layer.
pub open spec fn pipetted_settings(c: EditorSettings, hovered: Option<PartCoord>, cell: HoveredCell) -> EditorSettings {
    if c.prototype_id is Some {
        EditorSettings { prototype_id: None, ..c }
    } else if hovered is None {
        c
    } else {
        match cell {
            HoveredCell::Unknown => c,
            HoveredCell::Empty => EditorSettings { layer: None, ..c },
            HoveredCell::Part { prototype, rotation, layer } => EditorSettings {
                prototype_id: Some(prototype),
                part_rotation: rotation,
                layer: Some(layer),
                ..c
            },
        }
    }
}

/// The editor keys pressed in one frame, each at most once.
#[derive(Debug, Clone, Copy, PartialEq, Eq)]
pub struct EditorKeys {
    /// Return: submits the text field.
    pub enter: bool,
    /// R: turns the part being placed, or the camera.
    pub rotate: bool,
    /// Q: the pipette.
    pub pipette: bool,
    /// E: the next focus layer.
    pub next_layer: bool,
    /// N: opens a field for the ship's name.
    pub rename: bool,
    /// B: opens a field for the ship's blueprint.
    pub blueprint: bool,
    /// Escape: closes the text field.
    pub escape: bool,
}

/// What the settings become when the keys act on them, which they do only
/// while no text field takes the keys.
pub open spec fn keys_settings(c: EditorSettings, keys: EditorKeys, hovered: Option<PartCoord>, cell: HoveredCell) -> EditorSettings {
    let c1 = if keys.rotate { rotated_settings(c) } else { c };
    let c2 = if keys.pipette { pipetted_settings(c1, hovered, cell) } else { c1 };
    if keys.next_layer { layer_stepped(c2, true) } else { c2 }
}

/// The text field after a frame: submitting closes it; while open it takes
/// the typed keys; N or B open one when none is open; Escape closes it.
/// The flag says whether the field names the ship (otherwise its
/// blueprint).
pub open spec fn field_after(f: Option<(Seq<char>, bool)>, keys: EditorKeys, text_keys: Seq<TextKey>) -> Option<(Seq<char>, bool)> {
    let f1 = if keys.enter && f is Some { None } else { f };
    let f2 = match f1 {
        Some((t, is_name)) => Some((typed(t, text_keys), is_name)),
        None => None,
    };
    let f3 = if keys.rename && f2 is None { Some((Seq::<char>::empty(), true)) } else { f2 };
    let f4 = if keys.blueprint && f3 is None { Some((Seq::<char>::empty(), false)) } else { f3 };
    if keys.escape && f4 is Some { None } else { f4 }
}

/// The name of a blueprint and its revision.
#[derive(Debug, Clone, PartialEq, Eq)]
pub struct BlueprintId(pub String, pub u32);

/// A change to a grid that the editor asks of the world.
#[derive(Debug, Clone, PartialEq, Eq)]
pub enum GridEdit {
    RenameGrid(Ent, String),
    SetGridBlueprint(Ent, Option<BlueprintId>),
}

/// The ship editor.
#[derive(Debug)]
pub struct EditorState<V> {
    pub vehicle: Ent,
    pub target_offset: V,
    pub actual_offset: V,
    pub camera_rotation: Rotation,
    pub prototype_id: Option<Ent>,
    pub part_rotation: Rotation,
    pub layer: Option<PartLayer>,
    pub select_start: Option<PartCoord>,
    pub hovered: Option<PartCoord>,
    pub vehicle_name_field: Option<(EditableText, bool)>,
}

impl<V> EditorState<V> {
    /// The settings that the keys change.
    pub open spec fn settings(&self) -> EditorSettings {
        EditorSettings {
            camera_rotation: self.camera_rotation,
            prototype_id: self.prototype_id,
            part_rotation: self.part_rotation,
            layer: self.layer,
        }
    }

    /// The text field: its text and whether it names the ship.
    pub open spec fn field_view(&self) -> Option<(Seq<char>, bool)> {
        match self.vehicle_name_field {
            Some((t, is_name)) => Some((t@, is_name)),
            None => None,
        }
    }

    /// `self` and `other` differ at most in the settings the keys change.
    pub open spec fn same_but_settings(&self, other: &Self) -> bool {
        &&& self.vehicle == other.vehicle
        &&& self.target_offset == other.target_offset
        &&& self.actual_offset == other.actual_offset
        &&& self.select_start == other.select_start
        &&& self.hovered == other.hovered
        &&& self.field_view() == other.field_view()
    }

    /// Steps the focus layer up or down its cycle.
    pub fn next_layer(&mut self, is_up: bool)
        ensures
            final(self).settings() == layer_stepped(old(self).settings(), is_up),
            final(self).same_but_settings(old(self)),
    {
        self.layer = if is_up {
            match self.layer {
                None => Some(PartLayer::Internal),
                Some(PartLayer::Internal) => Some(PartLayer::Plumbing),
                Some(PartLayer::Plumbing) => Some(PartLayer::Structure),
                Some(PartLayer::Structure) => Some(PartLayer::Exterior),
                Some(PartLayer::Exterior) => None,
            }
        } else {
            match self.layer {
                None => Some(PartLayer::Exterior),
                Some(PartLayer::Internal) => None,
                Some(PartLayer::Plumbing) => Some(PartLayer::Internal),
                Some(PartLayer::Structure) => Some(PartLayer::Plumbing),
                Some(PartLayer::Exterior) => Some(PartLayer::Structure),
            }
        };
    }

    /// Turns the part being placed a quarter, or the camera when no part is
    /// being placed.
    pub fn rotate_part(&mut self)
        ensures
            final(self).settings() == rotated_settings(old(self).settings()),
            final(self).same_but_settings(old(self)),
    {
        if self.prototype_id.is_some() {
            self.part_rotation = quarter_turn(self.part_rotation);
        } else {
            self.camera_rotation = quarter_turn(self.camera_rotation);
        }
    }

    /// The pipette, given what the world holds at the hovered cell.
    pub fn pipette(&mut self, cell: HoveredCell)
        ensures
            final(self).settings() == pipetted_settings(old(self).settings(), old(self).hovered, cell),
            final(self).same_but_settings(old(self)),
    {
        if self.prototype_id.is_some() {
            self.prototype_id = None;
            return;
        }
        self.prototype_id = None;
        if self.hovered.is_none() {
            return;
        }
        match cell {
            HoveredCell::Unknown => {},
            HoveredCell::Empty => {
                self.layer = None;
            },
            HoveredCell::Part { prototype, rotation, layer } => {
                self.prototype_id = Some(prototype);
                self.part_rotation = rotation;
                self.layer = Some(layer);
            },
        }
    }
}

/// Whether `r` is what submitting the text field asks for: when the field
/// was open and Return was pressed, renaming the grid to the text or
/// setting its blueprint to the one the text names, at revision 0; nothing
/// otherwise.
pub open spec fn submitted(r: Option<GridEdit>, f: Option<(Seq<char>, bool)>, vehicle: Ent, enter: bool) -> bool {
    if enter && f is Some {
        let (t, is_name) = f->0;
        match r {
            Some(GridEdit::RenameGrid(v, s)) => is_name && v == vehicle && s@ == t,
            Some(GridEdit::SetGridBlueprint(v, Some(BlueprintId(s, rev)))) => !is_name && v == vehicle && s@ == t && rev == 0,
            _ => false,
        }
    } else {
        r is None
    }
}

impl<V: Copy> EditorState<V> {
    /// Whether the text field takes this frame's keys: it is open and not
    /// being submitted.
    pub open spec fn typing(&self, keys: EditorKeys) -> bool {
        self.vehicle_name_field is Some && !keys.enter
    }

    /// One frame of the editor's keys. Return submits an open text field.
    /// While a field stays open it takes the typed keys; otherwise R, Q and
    /// E act, and `move_offset` moves the camera's target. Then N or B open
    /// a field when none is open, and Escape closes it.
    pub fn handle_keys<F: FnOnce(V) -> V>(
        &mut self,
        keys: EditorKeys,
        text_keys: &[TextKey],
        cell: HoveredCell,
        move_offset: F,
    ) -> (r: Option<GridEdit>)
        requires
            call_requires(move_offset, (old(self).target_offset,)),
        ensures
            submitted(r, old(self).field_view(), old(self).vehicle, keys.enter),
            final(self).field_view() == field_after(old(self).field_view(), keys, text_keys@),
            final(self).vehicle == old(self).vehicle,
            final(self).actual_offset == old(self).actual_offset,
            final(self).select_start == old(self).select_start,
            final(self).hovered == old(self).hovered,
            old(self).typing(keys) ==> {
                &&& final(self).settings() == old(self).settings()
                &&& final(self).target_offset == old(self).target_offset
            },
            !old(self).typing(keys) ==> {
                &&& final(self).settings() == keys_settings(old(self).settings(), keys, old(self).hovered, cell)
                &&& call_ensures(move_offset, (old(self).target_offset,), final(self).target_offset)
            },
    {
        let mut ret: Option<GridEdit> = None;
        if keys.enter && self.vehicle_name_field.is_some() {
            let field = self.vehicle_name_field.take();
            if let Some((text, is_name)) = field {
                let contents = text.contents().to_owned();
                let delta = if is_name {
                    GridEdit::RenameGrid(self.vehicle, contents)
                } else {
                    GridEdit::SetGridBlueprint(self.vehicle, Some(BlueprintId(contents, 0)))
                };
                ret = Some(delta);
                self.vehicle_name_field = None;
            }
        }
        let field = self.vehicle_name_field.take();
        match field {
            Some((mut text, is_name)) => {
                text.handle_keys(text_keys);
                self.vehicle_name_field = Some((text, is_name));
            },
            None => {
                if keys.rotate {
                    self.rotate_part();
                }
                if keys.pipette {
                    self.pipette(cell);
                }
                if keys.next_layer {
                    self.next_layer(true);
                }
                self.target_offset = move_offset(self.target_offset);
            },
        }
        if keys.rename && self.vehicle_name_field.is_none() {
            self.vehicle_name_field = Some((EditableText::empty(), true));
        }
        if keys.blueprint && self.vehicle_name_field.is_none() {
            self.vehicle_name_field = Some((EditableText::empty(), false));
        }
        if keys.escape && self.vehicle_name_field.is_some() {
            self.vehicle_name_field = None;
        }
        ret
    }
}

/// The next orientation counterclockwise.
fn quarter_turn(r: Rotation) -> (n: Rotation)
    ensures
        n == next_rotation(r),
{
    match r {
        Rotation::East => Rotation::North,
        Rotation::North => Rotation::West,
        Rotation::West => Rotation::South,
        Rotation::South => Rotation::East,
    }
}

} // verus!
