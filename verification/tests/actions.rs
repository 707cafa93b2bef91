use bary::actions::{
    all_commands, cmd_despawn, cmd_edit, cmd_find, cmd_placeholder, cmd_say, cmd_set_cpu,
    cmd_set_speed, Action, ClientAction, CommandHandlers, WorldAction,
};
use bary::commands::{ArgsMap, ParseError};
use bary::grid::Ent;

type Act = Action<(), ()>;

fn args(pairs: &[(&str, &str)]) -> ArgsMap {
    let mut m = ArgsMap::new();
    for (k, v) in pairs {
        m.insert(k.to_string(), v.to_string());
    }
    m
}

#[test]
fn despawn_reads_a_grid_id() {
    assert_eq!(cmd_despawn::<(), ()>(&args(&[("grid_id", "42")])), Ok(Act::World(WorldAction::DespawnGrid(Ent(42)))));
    assert_eq!(cmd_despawn::<(), ()>(&args(&[("grid_id", "+7")])), Ok(Act::World(WorldAction::DespawnGrid(Ent(7)))));
    assert_eq!(
        cmd_despawn::<(), ()>(&args(&[("grid_id", "18446744073709551615")])),
        Ok(Act::World(WorldAction::DespawnGrid(Ent(u64::MAX))))
    );
    assert_eq!(cmd_despawn::<(), ()>(&args(&[("grid_id", "18446744073709551616")])), Err(ParseError::BadValue));
    assert_eq!(cmd_despawn::<(), ()>(&args(&[("grid_id", "-1")])), Err(ParseError::BadValue));
    assert_eq!(cmd_despawn::<(), ()>(&args(&[("grid_id", "")])), Err(ParseError::BadValue));
    assert_eq!(cmd_despawn::<(), ()>(&args(&[("grid_id", "+")])), Err(ParseError::BadValue));
    assert_eq!(cmd_despawn::<(), ()>(&args(&[("grid_id", " 3")])), Err(ParseError::BadValue));
    assert_eq!(cmd_despawn::<(), ()>(&args(&[("grid", "3")])), Err(ParseError::BadKey));
}

#[test]
fn speed_must_fit_in_u32() {
    assert_eq!(cmd_set_speed::<(), ()>(&args(&[("speed", "4294967295")])), Ok(Act::World(WorldAction::SetSpeed(u32::MAX))));
    assert_eq!(cmd_set_speed::<(), ()>(&args(&[("speed", "4294967296")])), Err(ParseError::BadValue));
    assert_eq!(cmd_set_speed::<(), ()>(&args(&[("speed", "3x")])), Err(ParseError::BadValue));
    assert_eq!(cmd_set_speed::<(), ()>(&args(&[])), Err(ParseError::BadKey));
}

#[test]
fn cpu_state_is_true_or_false() {
    assert_eq!(cmd_set_cpu::<(), ()>(&args(&[("state", "true")])), Ok(Act::Client(ClientAction::SetCpuSelectedGrid(true))));
    assert_eq!(cmd_set_cpu::<(), ()>(&args(&[("state", "false")])), Ok(Act::Client(ClientAction::SetCpuSelectedGrid(false))));
    assert_eq!(cmd_set_cpu::<(), ()>(&args(&[("state", "True")])), Err(ParseError::BadValue));
    assert_eq!(cmd_set_cpu::<(), ()>(&args(&[("state", "1")])), Err(ParseError::BadValue));
    assert_eq!(cmd_set_cpu::<(), ()>(&args(&[])), Err(ParseError::BadKey));
}

#[test]
fn say_takes_any_text() {
    assert_eq!(cmd_say::<(), ()>(&args(&[("msg", "hello there")])), Ok(Act::Client(ClientAction::Say("hello there".to_string()))));
    assert_eq!(cmd_say::<(), ()>(&args(&[("msg", "a"), ("msg", "b")])), Ok(Act::Client(ClientAction::Say("b".to_string()))));
    assert_eq!(cmd_say::<(), ()>(&args(&[])), Err(ParseError::BadKey));
}

#[test]
fn unfinished_commands_report_it() {
    assert_eq!(cmd_edit::<(), ()>(&args(&[("grid_id", "1")])), Err(ParseError::NotImplemented));
    assert_eq!(cmd_edit::<(), ()>(&args(&[("grid_id", "x")])), Err(ParseError::BadValue));
    assert_eq!(cmd_find::<(), ()>(&args(&[("grid_name", "1")])), Err(ParseError::BadKey));
    assert_eq!(cmd_find::<(), ()>(&args(&[("grid_id", "1")])), Err(ParseError::NotImplemented));
    assert_eq!(cmd_placeholder::<(), ()>(&args(&[])), Err(ParseError::NotImplemented));
}

#[test]
fn command_table_in_order() {
    let h = CommandHandlers {
        spawn: 0u8,
        edit: 1,
        despawn: 2,
        find: 3,
        ping: 4,
        waypoint: 5,
        speed: 6,
        save: 7,
        exit: 8,
        setcpu: 9,
        say: 10,
    };
    let cmds = all_commands(h);
    let suggestions: Vec<String> = cmds.iter().map(|c| c.to_suggestion()).collect();
    assert_eq!(
        suggestions,
        vec![
            "spawn [bp_name] [x] [y]",
            "edit [grid_id]",
            "despawn [grid_id]",
            "find [grid_name]",
            "ping [x] [y]",
            "waypoint [grid_id] [x] [y]",
            "speed [speed]",
            "save",
            "exit",
            "setcpu [state]",
            "say [msg]",
        ]
    );
    let funcs: Vec<u8> = cmds.iter().map(|c| c.func).collect();
    assert_eq!(funcs, (0u8..11).collect::<Vec<u8>>());
}
