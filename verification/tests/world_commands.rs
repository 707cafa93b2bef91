use bary::commands::{ArgsMap, ParseError};
use bary::grid::{Ent, GridLocation, IVec2, PartCoord};
use bary::terrain::GlobalTileIndex;
use bary::world_commands::{
    sim_anchor, sim_ast_add, sim_ast_remove, sim_ast_reveal, sim_clear, sim_despawn, sim_explode,
    sim_goto_ast, sim_pilot_enter, sim_toggle_tracking, world_delta_commands, TermCmd, WorldDelta,
    WorldDeltaHandlers,
};

type Cmd = TermCmd<(), (), ()>;
type Delta = WorldDelta<(), (), ()>;

fn args(pairs: &[(&str, &str)]) -> ArgsMap {
    let mut m = ArgsMap::new();
    for (k, v) in pairs {
        m.insert(k.to_string(), v.to_string());
    }
    m
}

#[test]
fn world_table_in_order() {
    let h = WorldDeltaHandlers {
        spawn: 0u8,
        despawn: 1,
        ping: 2,
        clear: 3,
        waypoint: 4,
        explode: 5,
        toggle_tracking: 6,
        ast_remove: 7,
        ast_add: 8,
        ast_reveal: 9,
        ast_spawn: 10,
        goto_ast: 11,
        anchor: 12,
        pilot_enter: 13,
    };
    let cmds = world_delta_commands(h);
    let s: Vec<String> = cmds.iter().map(|c| c.to_suggestion()).collect();
    assert_eq!(
        s,
        vec![
            "sim.spawn [ship_name] [bp_name] [bp_version] [x] [y]",
            "sim.despawn [grid_id]",
            "sim.ping [x] [y]",
            "sim.clear",
            "sim.waypoint [grid_id] [x] [y]",
            "sim.explode [grid_id] [x] [y]",
            "sim.toggle_tracking [grid_id]",
            "sim.ast.remove [ast_id] [x] [y]",
            "sim.ast.add [ast_id] [x] [y]",
            "sim.ast.reveal [ast_id] [x] [y]",
            "sim.ast.spawn [x] [y] [r] [seed]",
            "sim.goto.ast [grid_id] [ast_id]",
            "sim.anchor [grid_id] [is_anchored]",
            "sim.pilot.enter [grid_id]",
        ]
    );
    let funcs: Vec<u8> = cmds.iter().map(|c| c.func).collect();
    assert_eq!(funcs, (0u8..14).collect::<Vec<u8>>());
}

#[test]
fn grid_commands() {
    assert_eq!(sim_despawn::<(), (), ()>(&args(&[("grid_id", "4")])), Ok(Cmd::World(Delta::DespawnGrid(Ent(4)))));
    assert_eq!(sim_clear::<(), (), ()>(&args(&[])), Ok(Cmd::World(Delta::ClearAll)));
    assert_eq!(sim_toggle_tracking::<(), (), ()>(&args(&[("grid_id", "x")])), Err(ParseError::BadValue));
    assert_eq!(
        sim_goto_ast::<(), (), ()>(&args(&[("grid_id", "1"), ("ast_id", "2")])),
        Ok(Cmd::World(Delta::GoToAsteroid { grid_id: Ent(1), ast_id: Ent(2) }))
    );
    assert_eq!(sim_goto_ast::<(), (), ()>(&args(&[("grid_id", "1")])), Err(ParseError::BadKey));
    assert_eq!(
        sim_anchor::<(), (), ()>(&args(&[("grid_id", "3"), ("is_anchored", "true")])),
        Ok(Cmd::World(Delta::SetAnchored(Ent(3), true)))
    );
    assert_eq!(sim_anchor::<(), (), ()>(&args(&[("grid_id", "3"), ("is_anchored", "yes")])), Err(ParseError::BadValue));
    assert_eq!(sim_pilot_enter::<(), (), ()>(&args(&[("grid_id", "3")])), Err(ParseError::BadKey));
    assert_eq!(
        sim_pilot_enter::<(), (), ()>(&args(&[("player_id", "9"), ("grid_id", "3")])),
        Ok(Cmd::World(Delta::PlayerPilotingEnterGrid { player_id: Ent(9), grid_id: Ent(3) }))
    );
}

#[test]
fn cell_and_tile_commands() {
    assert_eq!(
        sim_explode::<(), (), ()>(&args(&[("grid_id", "2"), ("x", "-3"), ("y", "+4")])),
        Ok(Cmd::World(Delta::Explode(GridLocation::new(Ent(2), PartCoord::new(IVec2::new(-3, 4))))))
    );
    assert_eq!(sim_explode::<(), (), ()>(&args(&[("grid_id", "2"), ("x", "-"), ("y", "4")])), Err(ParseError::BadValue));
    assert_eq!(sim_explode::<(), (), ()>(&args(&[("grid_id", "2"), ("x", "1")])), Err(ParseError::BadKey));
    let tile = GlobalTileIndex(IVec2::new(-2147483648, 2147483647));
    let a = args(&[("ast_id", "7"), ("x", "-2147483648"), ("y", "2147483647")]);
    assert_eq!(sim_ast_remove::<(), (), ()>(&a), Ok(Cmd::World(Delta::RemoveTerrainTile { asteroid: Ent(7), tile })));
    assert_eq!(sim_ast_add::<(), (), ()>(&a), Ok(Cmd::World(Delta::AddTerrainTile { asteroid: Ent(7), tile })));
    assert_eq!(sim_ast_reveal::<(), (), ()>(&a), Ok(Cmd::World(Delta::FullyRevealTerrainTile { asteroid: Ent(7), tile })));
    assert_eq!(
        sim_ast_add::<(), (), ()>(&args(&[("ast_id", "7"), ("x", "2147483648"), ("y", "0")])),
        Err(ParseError::BadValue)
    );
}
