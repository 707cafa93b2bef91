//! What a client is looking at: the ship editor, or free flight with its
//! selection of grid cells; and the docking of two selected grids.
//!
//! Camera offsets and the waypoint widget are floating-point values, so the
//! viewport is generic over their type.

use vstd::prelude::*;
use crate::editor::EditorState;
use crate::grid::{Ent, GridLocation, IVec2, PartCoord, Rotation};
use crate::terrain::GlobalTileIndex;

verus! {

/// The grid cells under the cursor and selected.
#[derive(Debug, Clone)]
pub struct SelectionInfo {
    pub hovered: Option<GridLocation>,
    pub selected: Vec<GridLocation>,
}

impl Default for SelectionInfo {
    fn default() -> (s: Self)
        ensures
            s.hovered is None,
            s.selected@ == Seq::<GridLocation>::empty(),
    {
        SelectionInfo { hovered: None, selected: Vec::new() }
    }
}

/// The cell that marks a grid as selected as a whole, far outside any part.
pub open spec fn whole_grid_marker(grid_id: Ent) -> GridLocation {
    GridLocation { grid_id, coord: PartCoord(IVec2 { x: -1000i32, y: -1000i32 }) }
}

impl SelectionInfo {
    /// A selection of grid `grid_id` as a whole.
    pub fn selecting(grid_id: Ent) -> (s: Self)
        ensures
            s.hovered is None,
            s.selected@ == seq![whole_grid_marker(grid_id)],
    {
        let marker = GridLocation { grid_id, coord: PartCoord(IVec2 { x: -1000, y: -1000 }) };
        let s = SelectionInfo { hovered: None, selected: vec![marker] };
        assert(s.selected@ =~= seq![whole_grid_marker(grid_id)]);
        s
    }

    /// The grid of the first selected cell.
    pub fn first_selected_grid(&self) -> (g: Option<Ent>)
        ensures
            g == (if self.selected@.len() > 0 { Some(self.selected@[0].grid_id) } else { None }),
    {
        if self.selected.len() > 0 {
            Some(self.selected[0].grid_id)
        } else {
            None
        }
    }
}

/// A tile of an asteroid under the cursor.
#[derive(Debug, Clone, Copy, PartialEq, Eq)]
pub struct TerrainSelectionInfo {
    pub asteroid: Ent,
    pub tile: GlobalTileIndex,
}

/// Free flight: the vehicle followed, the selection, and the pending
/// docking offset and orientation; `V` is the type of the waypoint widget's
/// position.
#[derive(Debug)]
pub struct FreeFlying<V> {
    pub follow_vehicle: Option<Ent>,
    pub lock_rotation: bool,
    pub selection_info: SelectionInfo,
    pub hovered_chunk: Option<TerrainSelectionInfo>,
    pub waypoint_widget: Option<V>,
    pub offset: PartCoord,
    pub rotation: Rotation,
}

impl<V> FreeFlying<V> {
    /// Free flight that follows `follow_vehicle` with `selection_info`,
    /// locks no rotation, shows no widget and has no docking offset.
    pub fn new(follow_vehicle: Option<Ent>, selection_info: SelectionInfo) -> (f: Self)
        ensures
            f.follow_vehicle == follow_vehicle,
            !f.lock_rotation,
            f.selection_info == selection_info,
            f.hovered_chunk is None,
            f.waypoint_widget is None,
            f.offset == PartCoord(IVec2 { x: 0, y: 0 }),
            f.rotation == Rotation::East,
    {
        FreeFlying {
            follow_vehicle,
            lock_rotation: false,
            selection_info,
            hovered_chunk: None,
            waypoint_widget: None,
            offset: PartCoord(IVec2 { x: 0, y: 0 }),
            rotation: Rotation::East,
        }
    }
}

/// Two grids to dock: the selected cell of each, and the offset and
/// orientation of the child relative to the parent.
#[derive(Debug, Clone, Copy, PartialEq, Eq)]
pub struct DockingInterface {
    pub offset: PartCoord,
    pub rotation: Rotation,
    pub parent: GridLocation,
    pub child: GridLocation,
}

/// What a client is looking at.
#[derive(Debug)]
pub enum Viewport<V> {
    Editor(EditorState<V>),
    Free(FreeFlying<V>),
}

impl<V> Viewport<V> {
    /// In free flight, starts following `id` and says whether it was not
    /// followed already; in the editor, does nothing and says `false`.
    pub fn look_at(&mut self, id: Ent) -> (changed: bool)
        ensures
            match *old(self) {
                Viewport::Free(f) => {
                    &&& changed == (f.follow_vehicle != Some(id))
                    &&& *final(self) == Viewport::Free(FreeFlying { follow_vehicle: Some(id), ..f })
                },
                Viewport::Editor(_) => !changed && *final(self) == *old(self),
            },
    {
        match self {
            Viewport::Free(fly) => {
                let ret = fly.follow_vehicle != Some(id);
                fly.follow_vehicle = Some(id);
                ret
            },
            Viewport::Editor(_) => false,
        }
    }

    /// Whether this is a view of the world rather than the editor.
    pub fn is_real_view(&self) -> (b: bool)
        ensures
            b == (*self is Free),
    {
        match self {
            Viewport::Free(_) => true,
            _ => false,
        }
    }

    /// The free-flight state, in free flight.
    pub fn free(&self) -> (r: Option<&FreeFlying<V>>)
        ensures
            match *self {
                Viewport::Free(f) => r == Some(&f),
                Viewport::Editor(_) => r is None,
            },
    {
        match self {
            Viewport::Free(free) => Some(free),
            _ => None,
        }
    }

    /// The editor, in the editor.
    pub fn editor(&self) -> (r: Option<&EditorState<V>>)
        ensures
            match *self {
                Viewport::Editor(e) => r == Some(&e),
                Viewport::Free(_) => r is None,
            },
    {
        match self {
            Viewport::Editor(e) => Some(e),
            _ => None,
        }
    }

    /// The free-flight state, to change, in free flight.
    pub fn free_mut(&mut self) -> (r: Option<&mut FreeFlying<V>>)
        ensures
            match *old(self) {
                Viewport::Free(f) => r matches Some(m) && *m == f && *final(self) == Viewport::Free(*final(m)),
                Viewport::Editor(_) => r is None && *final(self) == *old(self),
            },
    {
        match self {
            Viewport::Free(free) => Some(free),
            _ => None,
        }
    }

    /// The editor, to change, in the editor.
    pub fn editor_mut(&mut self) -> (r: Option<&mut EditorState<V>>)
        ensures
            match *old(self) {
                Viewport::Editor(e) => r matches Some(m) && *m == e && *final(self) == Viewport::Editor(*final(m)),
                Viewport::Free(_) => r is None && *final(self) == *old(self),
            },
    {
        match self {
            Viewport::Editor(e) => Some(e),
            _ => None,
        }
    }

    /// Leaves the editor for free flight that follows the edited vehicle,
    /// with that vehicle selected; says whether the editor was open.
    pub fn leave_editor(&mut self) -> (left: bool)
        ensures
            left == (*old(self) is Editor),
            !left ==> *final(self) == *old(self),
            left ==> match *final(self) {
                Viewport::Free(f) => {
                    &&& f.follow_vehicle == Some(old(self)->Editor_0.vehicle)
                    &&& !f.lock_rotation
                    &&& f.selection_info.hovered is None
                    &&& f.selection_info.selected@ == seq![whole_grid_marker(old(self)->Editor_0.vehicle)]
                    &&& f.hovered_chunk is None
                    &&& f.waypoint_widget is None
                    &&& f.offset == PartCoord(IVec2 { x: 0, y: 0 })
                    &&& f.rotation == Rotation::East
                },
                Viewport::Editor(_) => false,
            },
    {
        let vehicle = match self {
            Viewport::Editor(editor) => editor.vehicle,
            Viewport::Free(_) => {
                return false;
            },
        };
        *self = Viewport::Free(FreeFlying::new(Some(vehicle), SelectionInfo::selecting(vehicle)));
        true
    }

    /// The selected cell: in the editor, the start of the selection on the
    /// edited vehicle; in free flight, the first selected cell.
    pub fn selected_grid_loc(&self) -> (l: Option<GridLocation>)
        ensures
            l == (match *self {
                Viewport::Editor(e) => match e.select_start {
                    Some(coord) => Some(GridLocation { grid_id: e.vehicle, coord }),
                    None => None,
                },
                Viewport::Free(f) => if f.selection_info.selected@.len() > 0 {
                    Some(f.selection_info.selected@[0])
                } else {
                    None
                },
            }),
    {
        match self {
            Viewport::Editor(e) => {
                let coord = e.select_start?;
                Some(GridLocation { grid_id: e.vehicle, coord })
            },
            Viewport::Free(f) => {
                if f.selection_info.selected.len() > 0 {
                    Some(f.selection_info.selected[0])
                } else {
                    None
                }
            },
        }
    }

    /// The hovered cell: in the editor, on the edited vehicle.
    pub fn hovered_grid_loc(&self) -> (l: Option<GridLocation>)
        ensures
            l == (match *self {
                Viewport::Editor(e) => match e.hovered {
                    Some(coord) => Some(GridLocation { grid_id: e.vehicle, coord }),
                    None => None,
                },
                Viewport::Free(f) => f.selection_info.hovered,
            }),
    {
        match self {
            Viewport::Editor(e) => {
                let coord = e.hovered?;
                Some(GridLocation { grid_id: e.vehicle, coord })
            },
            Viewport::Free(f) => f.selection_info.hovered,
        }
    }

    /// The grid in focus: the edited vehicle, or the grid of the first
    /// selected cell.
    pub fn focused_grid_id(&self) -> (g: Option<Ent>)
        ensures
            g == (match *self {
                Viewport::Editor(e) => Some(e.vehicle),
                Viewport::Free(f) => if f.selection_info.selected@.len() > 0 {
                    Some(f.selection_info.selected@[0].grid_id)
                } else {
                    None
                },
            }),
    {
        match self {
            Viewport::Editor(e) => Some(e.vehicle),
            Viewport::Free(f) => f.selection_info.first_selected_grid(),
        }
    }

    /// In free flight with exactly two cells of two different grids
    /// selected, the docking of the second grid onto the first, with the
    /// pending offset and orientation.
    pub fn docking_interface(&self) -> (d: Option<DockingInterface>)
        ensures
            d == (match *self {
                Viewport::Free(f) => {
                    let sel = f.selection_info.selected@;
                    if sel.len() == 2 && sel[0].grid_id != sel[1].grid_id {
                        Some(DockingInterface { offset: f.offset, rotation: f.rotation, parent: sel[0], child: sel[1] })
                    } else {
                        None
                    }
                },
                Viewport::Editor(_) => None,
            }),
    {
        let free = self.free()?;
        if free.selection_info.selected.len() != 2 {
            return None;
        }
        let parent = free.selection_info.selected[0];
        let child = free.selection_info.selected[1];
        if parent.grid_id == child.grid_id {
            return None;
        }
        Some(DockingInterface { parent, child, offset: free.offset, rotation: free.rotation })
    }
}

} // verus!
