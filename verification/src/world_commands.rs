//! The terminal's commands that change the world: their entry points,
//! their parameters, and the handlers that read integer and boolean
//! arguments.
//!
//! Points, poses and lengths in the world are floating-point values, which
//! stay outside the verified library: the changes are generic over their
//! types, and the handlers that parse them are supplied by the caller.

use vstd::prelude::*;
use crate::actions::{arg_bool, arg_i32, arg_u64, bool_arg, i32_arg, u64_arg};
use crate::blob::TableIdent;
use crate::commands::{ArgsMap, Command, ParseError};
use crate::editor::BlueprintId;
use crate::grid::{Ent, GridLocation, IVec2, PartCoord};
use crate::terrain::GlobalTileIndex;
use crate::text::string_views;

verus! {

/// A change to the world that the terminal can ask for; `V` is the type of
/// a point, `I` the type of a pose and `R` the type of a length.
#[derive(Debug, Clone, PartialEq)]
pub enum WorldDelta<V, I, R> {
    SpawnShipAt(String, BlueprintId, I),
    DespawnGrid(Ent),
    Ping(V),
    ClearAll,
    SetWaypoint { grid_id: Ent, waypoint: I },
    Explode(GridLocation),
    ToggleTracking(Ent),
    RemoveTerrainTile { asteroid: Ent, tile: GlobalTileIndex },
    AddTerrainTile { asteroid: Ent, tile: GlobalTileIndex },
    FullyRevealTerrainTile { asteroid: Ent, tile: GlobalTileIndex },
    SpawnAsteroid { iso: I, radius: R, seed: u64 },
    GoToAsteroid { grid_id: Ent, ast_id: Ent },
    SetAnchored(Ent, bool),
    PlayerPilotingEnterGrid { player_id: Ent, grid_id: Ent },
}

/// What a terminal command asks for.
#[derive(Debug, Clone, PartialEq)]
pub enum TermCmd<V, I, R> {
    World(WorldDelta<V, I, R>),
    Exit,
    Say(String),
    Ping,
    Clear,
    SetSimSpeed(u32),
    FindGridByName(String),
    /// Print information about an entity table to the terminal.
    PrintEntityInfo(TableIdent),
    ServerDisconnect,
    ServerConnect,
    RequestServerStatistics,
    /// Print information about the save to the terminal.
    PrintSaveInfo,
    /// Save the world to disk under a name, overwriting or not.
    SaveWorldToDisk(String, bool),
    /// List the saves that can be loaded.
    ListSaves,
    /// Load the save with the given name.
    LoadSave(String),
    /// Print information about a table's blob to the terminal.
    PrintBlobInfo(TableIdent),
    /// Ask the server for one table's blob.
    ClientReqBlob(TableIdent),
    /// Ask the server for every table's blob.
    ClientReqAllBlobs,
    Help,
    ToggleDebugMode,
}

/// The world change `d`, or the first failure reading its arguments.
pub open spec fn world_cmd<V, I, R>(d: Result<WorldDelta<V, I, R>, ParseError>) -> Result<TermCmd<V, I, R>, ParseError> {
    match d {
        Ok(d) => Ok(TermCmd::World(d)),
        Err(e) => Err(e),
    }
}

/// The cell named by the arguments `grid_id`, `x` and `y`, read in that
/// order.
pub open spec fn location_args(args: Seq<(Seq<char>, Seq<char>)>) -> Result<GridLocation, ParseError> {
    match u64_arg(args, "grid_id"@) {
        Err(e) => Err(e),
        Ok(g) => match i32_arg(args, "x"@) {
            Err(e) => Err(e),
            Ok(x) => match i32_arg(args, "y"@) {
                Err(e) => Err(e),
                Ok(y) => Ok(GridLocation { grid_id: Ent(g), coord: PartCoord(IVec2 { x, y }) }),
            },
        },
    }
}

/// The asteroid tile named by the arguments `ast_id`, `x` and `y`, read in
/// that order.
pub open spec fn tile_args(args: Seq<(Seq<char>, Seq<char>)>) -> Result<(Ent, GlobalTileIndex), ParseError> {
    match u64_arg(args, "ast_id"@) {
        Err(e) => Err(e),
        Ok(a) => match i32_arg(args, "x"@) {
            Err(e) => Err(e),
            Ok(x) => match i32_arg(args, "y"@) {
                Err(e) => Err(e),
                Ok(y) => Ok((Ent(a), GlobalTileIndex(IVec2 { x, y }))),
            },
        },
    }
}

/// Reads the cell named by `grid_id`, `x` and `y`.
fn read_location(args: &ArgsMap) -> (r: Result<GridLocation, ParseError>)
    ensures
        r == location_args(args@),
{
    let g = arg_u64(args, "grid_id")?;
    let x = arg_i32(args, "x")?;
    let y = arg_i32(args, "y")?;
    Ok(GridLocation { grid_id: Ent(g), coord: PartCoord(IVec2 { x, y }) })
}

/// Reads the asteroid tile named by `ast_id`, `x` and `y`.
fn read_tile(args: &ArgsMap) -> (r: Result<(Ent, GlobalTileIndex), ParseError>)
    ensures
        r == tile_args(args@),
{
    let a = arg_u64(args, "ast_id")?;
    let x = arg_i32(args, "x")?;
    let y = arg_i32(args, "y")?;
    Ok((Ent(a), GlobalTileIndex(IVec2 { x, y })))
}

/// `sim.despawn [grid_id]`: removes a grid.
pub fn sim_despawn<V, I, R>(args: &ArgsMap) -> (r: Result<TermCmd<V, I, R>, ParseError>)
    ensures
        r == world_cmd(match u64_arg(args@, "grid_id"@) {
            Ok(g) => Ok(WorldDelta::<V, I, R>::DespawnGrid(Ent(g))),
            Err(e) => Err(e),
        }),
{
    let grid_id = Ent(arg_u64(args, "grid_id")?);
    Ok(TermCmd::World(WorldDelta::DespawnGrid(grid_id)))
}

/// `sim.clear`: empties the world.
pub fn sim_clear<V, I, R>(_args: &ArgsMap) -> (r: Result<TermCmd<V, I, R>, ParseError>)
    ensures
        r == Ok::<TermCmd<V, I, R>, ParseError>(TermCmd::World(WorldDelta::ClearAll)),
{
    Ok(TermCmd::World(WorldDelta::ClearAll))
}

/// `sim.explode [grid_id] [x] [y]`: an explosion at a cell of a grid.
pub fn sim_explode<V, I, R>(args: &ArgsMap) -> (r: Result<TermCmd<V, I, R>, ParseError>)
    ensures
        r == world_cmd(match location_args(args@) {
            Ok(l) => Ok(WorldDelta::<V, I, R>::Explode(l)),
            Err(e) => Err(e),
        }),
{
    let loc = read_location(args)?;
    Ok(TermCmd::World(WorldDelta::Explode(loc)))
}

/// `sim.toggle_tracking [grid_id]`: starts or stops tracking a grid.
pub fn sim_toggle_tracking<V, I, R>(args: &ArgsMap) -> (r: Result<TermCmd<V, I, R>, ParseError>)
    ensures
        r == world_cmd(match u64_arg(args@, "grid_id"@) {
            Ok(g) => Ok(WorldDelta::<V, I, R>::ToggleTracking(Ent(g))),
            Err(e) => Err(e),
        }),
{
    let grid_id = Ent(arg_u64(args, "grid_id")?);
    Ok(TermCmd::World(WorldDelta::ToggleTracking(grid_id)))
}

/// `sim.ast.remove [ast_id] [x] [y]`: removes a tile of an asteroid.
pub fn sim_ast_remove<V, I, R>(args: &ArgsMap) -> (r: Result<TermCmd<V, I, R>, ParseError>)
    ensures
        r == world_cmd(match tile_args(args@) {
            Ok((asteroid, tile)) => Ok(WorldDelta::<V, I, R>::RemoveTerrainTile { asteroid, tile }),
            Err(e) => Err(e),
        }),
{
    let (asteroid, tile) = read_tile(args)?;
    Ok(TermCmd::World(WorldDelta::RemoveTerrainTile { asteroid, tile }))
}

/// `sim.ast.add [ast_id] [x] [y]`: adds a tile to an asteroid.
pub fn sim_ast_add<V, I, R>(args: &ArgsMap) -> (r: Result<TermCmd<V, I, R>, ParseError>)
    ensures
        r == world_cmd(match tile_args(args@) {
            Ok((asteroid, tile)) => Ok(WorldDelta::<V, I, R>::AddTerrainTile { asteroid, tile }),
            Err(e) => Err(e),
        }),
{
    let (asteroid, tile) = read_tile(args)?;
    Ok(TermCmd::World(WorldDelta::AddTerrainTile { asteroid, tile }))
}

/// `sim.ast.reveal [ast_id] [x] [y]`: lights a tile of an asteroid fully.
pub fn sim_ast_reveal<V, I, R>(args: &ArgsMap) -> (r: Result<TermCmd<V, I, R>, ParseError>)
    ensures
        r == world_cmd(match tile_args(args@) {
            Ok((asteroid, tile)) => Ok(WorldDelta::<V, I, R>::FullyRevealTerrainTile { asteroid, tile }),
            Err(e) => Err(e),
        }),
{
    let (asteroid, tile) = read_tile(args)?;
    Ok(TermCmd::World(WorldDelta::FullyRevealTerrainTile { asteroid, tile }))
}

/// `sim.goto.ast [grid_id] [ast_id]`: sends a grid to an asteroid.
pub fn sim_goto_ast<V, I, R>(args: &ArgsMap) -> (r: Result<TermCmd<V, I, R>, ParseError>)
    ensures
        r == world_cmd(match u64_arg(args@, "grid_id"@) {
            Err(e) => Err(e),
            Ok(g) => match u64_arg(args@, "ast_id"@) {
                Err(e) => Err(e),
                Ok(a) => Ok(WorldDelta::<V, I, R>::GoToAsteroid { grid_id: Ent(g), ast_id: Ent(a) }),
            },
        }),
{
    let grid_id = Ent(arg_u64(args, "grid_id")?);
    let ast_id = Ent(arg_u64(args, "ast_id")?);
    Ok(TermCmd::World(WorldDelta::GoToAsteroid { grid_id, ast_id }))
}

/// `sim.anchor [grid_id] [is_anchored]`: anchors a grid or frees it.
pub fn sim_anchor<V, I, R>(args: &ArgsMap) -> (r: Result<TermCmd<V, I, R>, ParseError>)
    ensures
        r == world_cmd(match u64_arg(args@, "grid_id"@) {
            Err(e) => Err(e),
            Ok(g) => match bool_arg(args@, "is_anchored"@) {
                Err(e) => Err(e),
                Ok(b) => Ok(WorldDelta::<V, I, R>::SetAnchored(Ent(g), b)),
            },
        }),
{
    let grid_id = Ent(arg_u64(args, "grid_id")?);
    let is_anchored = arg_bool(args, "is_anchored")?;
    Ok(TermCmd::World(WorldDelta::SetAnchored(grid_id, is_anchored)))
}

/// `sim.pilot.enter [grid_id]`: a player takes the controls of a grid. It
/// reads `player_id` first, which is not among the command's parameters,
/// so unless an argument of that name is bound it reports a bad key.
pub fn sim_pilot_enter<V, I, R>(args: &ArgsMap) -> (r: Result<TermCmd<V, I, R>, ParseError>)
    ensures
        r == world_cmd(match u64_arg(args@, "player_id"@) {
            Err(e) => Err(e),
            Ok(p) => match u64_arg(args@, "grid_id"@) {
                Err(e) => Err(e),
                Ok(g) => Ok(WorldDelta::<V, I, R>::PlayerPilotingEnterGrid { player_id: Ent(p), grid_id: Ent(g) }),
            },
        }),
{
    let player_id = Ent(arg_u64(args, "player_id")?);
    let grid_id = Ent(arg_u64(args, "grid_id")?);
    Ok(TermCmd::World(WorldDelta::PlayerPilotingEnterGrid { player_id, grid_id }))
}

/// The handler of each world-changing terminal command.
pub struct WorldDeltaHandlers<H> {
    pub spawn: H,
    pub despawn: H,
    pub ping: H,
    pub clear: H,
    pub waypoint: H,
    pub explode: H,
    pub toggle_tracking: H,
    pub ast_remove: H,
    pub ast_add: H,
    pub ast_reveal: H,
    pub ast_spawn: H,
    pub goto_ast: H,
    pub anchor: H,
    pub pilot_enter: H,
}

/// The world-changing commands, in order: each entry point with its
/// parameters.
pub open spec fn world_delta_table() -> Seq<(Seq<char>, Seq<Seq<char>>)> {
    seq![
        ("sim.spawn"@, seq!["ship_name"@, "bp_name"@, "bp_version"@, "x"@, "y"@]),
        ("sim.despawn"@, seq!["grid_id"@]),
        ("sim.ping"@, seq!["x"@, "y"@]),
        ("sim.clear"@, Seq::<Seq<char>>::empty()),
        ("sim.waypoint"@, seq!["grid_id"@, "x"@, "y"@]),
        ("sim.explode"@, seq!["grid_id"@, "x"@, "y"@]),
        ("sim.toggle_tracking"@, seq!["grid_id"@]),
        ("sim.ast.remove"@, seq!["ast_id"@, "x"@, "y"@]),
        ("sim.ast.add"@, seq!["ast_id"@, "x"@, "y"@]),
        ("sim.ast.reveal"@, seq!["ast_id"@, "x"@, "y"@]),
        ("sim.ast.spawn"@, seq!["x"@, "y"@, "r"@, "seed"@]),
        ("sim.goto.ast"@, seq!["grid_id"@, "ast_id"@]),
        ("sim.anchor"@, seq!["grid_id"@, "is_anchored"@]),
        ("sim.pilot.enter"@, seq!["grid_id"@]),
    ]
}

/// The handlers in the order of [world_delta_table].
pub open spec fn world_delta_handler_list<H>(h: WorldDeltaHandlers<H>) -> Seq<H> {
    seq![
        h.spawn,
        h.despawn,
        h.ping,
        h.clear,
        h.waypoint,
        h.explode,
        h.toggle_tracking,
        h.ast_remove,
        h.ast_add,
        h.ast_reveal,
        h.ast_spawn,
        h.goto_ast,
        h.anchor,
        h.pilot_enter,
    ]
}

/// Every world-changing terminal command, each with its handler.
pub fn world_delta_commands<H>(h: WorldDeltaHandlers<H>) -> (cmds: Vec<Command<H>>)
    ensures
        cmds@.len() == world_delta_table().len(),
        forall|i: int| 0 <= i < cmds@.len() ==> {
            &&& (#[trigger] cmds@[i]).entrypoint@ == world_delta_table()[i].0
            &&& string_views(cmds@[i].params@) == world_delta_table()[i].1
            &&& cmds@[i].func == world_delta_handler_list(h)[i]
        },
{
    let mut v: Vec<Command<H>> = Vec::new();
    v.push(Command::new("sim.spawn", vec!["ship_name", "bp_name", "bp_version", "x", "y"], h.spawn));
    v.push(Command::new("sim.despawn", vec!["grid_id"], h.despawn));
    v.push(Command::new("sim.ping", vec!["x", "y"], h.ping));
    v.push(Command::new("sim.clear", vec![], h.clear));
    v.push(Command::new("sim.waypoint", vec!["grid_id", "x", "y"], h.waypoint));
    v.push(Command::new("sim.explode", vec!["grid_id", "x", "y"], h.explode));
    v.push(Command::new("sim.toggle_tracking", vec!["grid_id"], h.toggle_tracking));
    v.push(Command::new("sim.ast.remove", vec!["ast_id", "x", "y"], h.ast_remove));
    v.push(Command::new("sim.ast.add", vec!["ast_id", "x", "y"], h.ast_add));
    v.push(Command::new("sim.ast.reveal", vec!["ast_id", "x", "y"], h.ast_reveal));
    v.push(Command::new("sim.ast.spawn", vec!["x", "y", "r", "seed"], h.ast_spawn));
    v.push(Command::new("sim.goto.ast", vec!["grid_id", "ast_id"], h.goto_ast));
    v.push(Command::new("sim.anchor", vec!["grid_id", "is_anchored"], h.anchor));
    v.push(Command::new("sim.pilot.enter", vec!["grid_id"], h.pilot_enter));
    v
}

} // verus!
