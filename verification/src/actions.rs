//! What console commands ask for, the handlers that read it from the
//! arguments, and the table of every command.
//!
//! Points and poses in the world are floating-point values, which stay
//! outside the verified library: actions are generic over their types, and
//! the handlers that parse them are supplied by the caller.

use vstd::prelude::*;
use crate::grid::Ent;
use crate::commands::{lookup, ArgsMap, Command, ParseError};
use crate::text::string_views;

verus! {

/// A change to the simulated world; `V` is the type of a point and `I` the
/// type of a pose.
#[derive(Debug, Clone, PartialEq)]
pub enum WorldAction<V, I> {
    Ping(V),
    SpawnShipAt(String, I),
    SetWaypoint { grid_id: Ent, waypoint: I },
    DespawnGrid(Ent),
    SetSpeed(u32),
}

/// A change to this client's own state.
#[derive(Debug, Clone, PartialEq)]
pub enum ClientAction {
    SetCpuSelectedGrid(bool),
    Say(String),
}

/// What a console command asks for.
#[derive(Debug, Clone, PartialEq)]
pub enum Action<V, I> {
    World(WorldAction<V, I>),
    Client(ClientAction),
}

/// The value of a run of decimal digits.
pub open spec fn digits_value(s: Seq<char>) -> nat
    decreases s.len(),
{
    if s.len() == 0 {
        0
    } else {
        digits_value(s.drop_last()) * 10 + (s.last() as nat - '0' as nat) as nat
    }
}

/// The number that an unsigned integer's `from_str` reads from `s`: an
/// optional `+`, then one or more ASCII digits; `None` for anything else.
/// Whether it fits the integer type is left to the caller.
pub open spec fn decimal_value(s: Seq<char>) -> Option<nat> {
    let d = if s.len() > 0 && s[0] == '+' { s.drop_first() } else { s };
    if d.len() > 0 && forall|i: int| 0 <= i < d.len() ==> '0' <= #[trigger] d[i] <= '9' {
        Some(digits_value(d))
    } else {
        None
    }
}

/// What `bool::from_str` reads from `s`: exactly `true` or `false`.
pub open spec fn bool_value(s: Seq<char>) -> Option<bool> {
    if s == "true"@ {
        Some(true)
    } else if s == "false"@ {
        Some(false)
    } else {
        None
    }
}

/// Calls `str::parse::<u64>`: an optional `+` and decimal digits whose value
/// fits in a `u64`.
#[verifier::external_body]
fn parse_u64(s: &str) -> (r: Option<u64>)
    ensures
        r == u64_value(s@),
{
    s.parse::<u64>().ok()
}

/// Calls `str::parse::<u32>`: an optional `+` and decimal digits whose value
/// fits in a `u32`.
#[verifier::external_body]
fn parse_u32(s: &str) -> (r: Option<u32>)
    ensures
        r == u32_value(s@),
{
    s.parse::<u32>().ok()
}

/// The number that a signed integer's `from_str` reads from `s`: an
/// optional `+` or `-`, then one or more ASCII digits; `None` for anything
/// else. Whether it fits the integer type is left to the caller.
pub open spec fn signed_decimal_value(s: Seq<char>) -> Option<int> {
    if s.len() > 0 && s[0] == '-' {
        let d = s.drop_first();
        if d.len() > 0 && forall|i: int| 0 <= i < d.len() ==> '0' <= #[trigger] d[i] <= '9' {
            Some(-(digits_value(d) as int))
        } else {
            None
        }
    } else {
        match decimal_value(s) {
            Some(v) => Some(v as int),
            None => None,
        }
    }
}

/// A decimal number that fits in an `i32`.
pub open spec fn i32_value(s: Seq<char>) -> Option<i32> {
    match signed_decimal_value(s) {
        Some(v) => if i32::MIN <= v <= i32::MAX { Some(v as i32) } else { None },
        None => None,
    }
}

/// Calls `str::parse::<i32>`: an optional sign and decimal digits whose
/// value fits in an `i32`.
#[verifier::external_body]
fn parse_i32(s: &str) -> (r: Option<i32>)
    ensures
        r == i32_value(s@),
{
    s.parse::<i32>().ok()
}

/// Argument `key` read as an `i32`: [ParseError::BadKey] when it is not
/// bound, [ParseError::BadValue] when it is not such a number.
pub open spec fn i32_arg(args: Seq<(Seq<char>, Seq<char>)>, key: Seq<char>) -> Result<i32, ParseError> {
    match lookup(args, key) {
        None => Err(ParseError::BadKey),
        Some(s) => match i32_value(s) {
            Some(v) => Ok(v),
            None => Err(ParseError::BadValue),
        },
    }
}

/// Argument `key` as a signed 32-bit number.
pub fn arg_i32(args: &ArgsMap, key: &str) -> (r: Result<i32, ParseError>)
    ensures
        r == i32_arg(args@, key@),
{
    match args.get(key) {
        None => Err(ParseError::BadKey),
        Some(s) => match parse_i32(s.as_str()) {
            Some(v) => Ok(v),
            None => Err(ParseError::BadValue),
        },
    }
}

/// A decimal number that fits in a `u64`.
pub open spec fn u64_value(s: Seq<char>) -> Option<u64> {
    match decimal_value(s) {
        Some(v) => if v <= u64::MAX { Some(v as u64) } else { None },
        None => None,
    }
}

/// A decimal number that fits in a `u32`.
pub open spec fn u32_value(s: Seq<char>) -> Option<u32> {
    match decimal_value(s) {
        Some(v) => if v <= u32::MAX { Some(v as u32) } else { None },
        None => None,
    }
}

/// Argument `key` read as a `u64`: [ParseError::BadKey] when it is not
/// bound, [ParseError::BadValue] when it is not such a number.
pub open spec fn u64_arg(args: Seq<(Seq<char>, Seq<char>)>, key: Seq<char>) -> Result<u64, ParseError> {
    match lookup(args, key) {
        None => Err(ParseError::BadKey),
        Some(s) => match u64_value(s) {
            Some(v) => Ok(v),
            None => Err(ParseError::BadValue),
        },
    }
}

/// Argument `key` read as a `u32`.
pub open spec fn u32_arg(args: Seq<(Seq<char>, Seq<char>)>, key: Seq<char>) -> Result<u32, ParseError> {
    match lookup(args, key) {
        None => Err(ParseError::BadKey),
        Some(s) => match u32_value(s) {
            Some(v) => Ok(v),
            None => Err(ParseError::BadValue),
        },
    }
}

/// Argument `key` read as a `bool`.
pub open spec fn bool_arg(args: Seq<(Seq<char>, Seq<char>)>, key: Seq<char>) -> Result<bool, ParseError> {
    match lookup(args, key) {
        None => Err(ParseError::BadKey),
        Some(s) => match bool_value(s) {
            Some(v) => Ok(v),
            None => Err(ParseError::BadValue),
        },
    }
}

/// Argument `key` as an unsigned 64-bit number.
pub fn arg_u64(args: &ArgsMap, key: &str) -> (r: Result<u64, ParseError>)
    ensures
        r == u64_arg(args@, key@),
{
    match args.get(key) {
        None => Err(ParseError::BadKey),
        Some(s) => match parse_u64(s.as_str()) {
            Some(v) => Ok(v),
            None => Err(ParseError::BadValue),
        },
    }
}

/// Argument `key` as an unsigned 32-bit number.
pub fn arg_u32(args: &ArgsMap, key: &str) -> (r: Result<u32, ParseError>)
    ensures
        r == u32_arg(args@, key@),
{
    match args.get(key) {
        None => Err(ParseError::BadKey),
        Some(s) => match parse_u32(s.as_str()) {
            Some(v) => Ok(v),
            None => Err(ParseError::BadValue),
        },
    }
}

/// Argument `key` as `true` or `false`.
pub fn arg_bool(args: &ArgsMap, key: &str) -> (r: Result<bool, ParseError>)
    ensures
        r == bool_arg(args@, key@),
{
    match args.get(key) {
        None => Err(ParseError::BadKey),
        Some(s) => {
            if *s == "true".to_owned() {
                Ok(true)
            } else if *s == "false".to_owned() {
                Ok(false)
            } else {
                Err(ParseError::BadValue)
            }
        },
    }
}

/// Argument `key` as text; any text will do.
pub fn arg_text(args: &ArgsMap, key: &str) -> (r: Result<String, ParseError>)
    ensures
        match r {
            Ok(s) => lookup(args@, key@) == Some(s@),
            Err(e) => lookup(args@, key@) is None && e == ParseError::BadKey,
        },
{
    match args.get(key) {
        None => Err(ParseError::BadKey),
        Some(s) => Ok(s.clone()),
    }
}

} // verus!

verus! {

/// Removes a grid: `despawn [grid_id]`.
pub fn cmd_despawn<V, I>(args: &ArgsMap) -> (r: Result<Action<V, I>, ParseError>)
    ensures
        r == (match u64_arg(args@, "grid_id"@) {
            Ok(id) => Ok(Action::World(WorldAction::<V, I>::DespawnGrid(Ent(id)))),
            Err(e) => Err(e),
        }),
{
    let id = arg_u64(args, "grid_id")?;
    Ok(Action::World(WorldAction::DespawnGrid(Ent(id))))
}

/// Sets the simulation speed: `speed [speed]`.
pub fn cmd_set_speed<V, I>(args: &ArgsMap) -> (r: Result<Action<V, I>, ParseError>)
    ensures
        r == (match u32_arg(args@, "speed"@) {
            Ok(v) => Ok(Action::World(WorldAction::<V, I>::SetSpeed(v))),
            Err(e) => Err(e),
        }),
{
    let speed = arg_u32(args, "speed")?;
    Ok(Action::World(WorldAction::SetSpeed(speed)))
}

/// Turns the computer of the selected grid on or off: `setcpu [state]`.
pub fn cmd_set_cpu<V, I>(args: &ArgsMap) -> (r: Result<Action<V, I>, ParseError>)
    ensures
        r == (match bool_arg(args@, "state"@) {
            Ok(v) => Ok(Action::<V, I>::Client(ClientAction::SetCpuSelectedGrid(v))),
            Err(e) => Err(e),
        }),
{
    let state = arg_bool(args, "state")?;
    Ok(Action::Client(ClientAction::SetCpuSelectedGrid(state)))
}

/// Says something to the other players: `say [msg]`.
pub fn cmd_say<V, I>(args: &ArgsMap) -> (r: Result<Action<V, I>, ParseError>)
    ensures
        match r {
            Ok(Action::Client(ClientAction::Say(m))) => lookup(args@, "msg"@) == Some(m@),
            Ok(_) => false,
            Err(e) => lookup(args@, "msg"@) is None && e == ParseError::BadKey,
        },
{
    let msg = arg_text(args, "msg")?;
    Ok(Action::Client(ClientAction::Say(msg)))
}

/// Opens a grid in the editor: reads `grid_id`, then reports that this is
/// not implemented.
pub fn cmd_edit<V, I>(args: &ArgsMap) -> (r: Result<Action<V, I>, ParseError>)
    ensures
        r == (match u64_arg(args@, "grid_id"@) {
            Ok(_) => Err(ParseError::NotImplemented),
            Err(e) => Err::<Action<V, I>, ParseError>(e),
        }),
{
    let _grid_id = Ent(arg_u64(args, "grid_id")?);
    Err(ParseError::NotImplemented)
}

/// Finds a grid: reads `grid_id`, then reports that this is not
/// implemented.
pub fn cmd_find<V, I>(args: &ArgsMap) -> (r: Result<Action<V, I>, ParseError>)
    ensures
        r == (match u64_arg(args@, "grid_id"@) {
            Ok(_) => Err(ParseError::NotImplemented),
            Err(e) => Err::<Action<V, I>, ParseError>(e),
        }),
{
    let _grid_id = Ent(arg_u64(args, "grid_id")?);
    Err(ParseError::NotImplemented)
}

/// A command that does nothing yet.
pub fn cmd_placeholder<V, I>(_args: &ArgsMap) -> (r: Result<Action<V, I>, ParseError>)
    ensures
        r == Err::<Action<V, I>, ParseError>(ParseError::NotImplemented),
{
    Err(ParseError::NotImplemented)
}

/// The handler of each console command.
pub struct CommandHandlers<F> {
    pub spawn: F,
    pub edit: F,
    pub despawn: F,
    pub find: F,
    pub ping: F,
    pub waypoint: F,
    pub speed: F,
    pub save: F,
    pub exit: F,
    pub setcpu: F,
    pub say: F,
}

/// The console's commands, in order: each entry point with its parameters.
pub open spec fn command_table() -> Seq<(Seq<char>, Seq<Seq<char>>)> {
    seq![
        ("spawn"@, seq!["bp_name"@, "x"@, "y"@]),
        ("edit"@, seq!["grid_id"@]),
        ("despawn"@, seq!["grid_id"@]),
        ("find"@, seq!["grid_name"@]),
        ("ping"@, seq!["x"@, "y"@]),
        ("waypoint"@, seq!["grid_id"@, "x"@, "y"@]),
        ("speed"@, seq!["speed"@]),
        ("save"@, Seq::<Seq<char>>::empty()),
        ("exit"@, Seq::<Seq<char>>::empty()),
        ("setcpu"@, seq!["state"@]),
        ("say"@, seq!["msg"@]),
    ]
}

/// The handlers in the order of [command_table].
pub open spec fn handler_list<F>(h: CommandHandlers<F>) -> Seq<F> {
    seq![h.spawn, h.edit, h.despawn, h.find, h.ping, h.waypoint, h.speed, h.save, h.exit, h.setcpu, h.say]
}

/// Every console command, each with its handler.
pub fn all_commands<F>(h: CommandHandlers<F>) -> (cmds: Vec<Command<F>>)
    ensures
        cmds@.len() == command_table().len(),
        forall|i: int| 0 <= i < cmds@.len() ==> {
            &&& (#[trigger] cmds@[i]).entrypoint@ == command_table()[i].0
            &&& string_views(cmds@[i].params@) == command_table()[i].1
            &&& cmds@[i].func == handler_list(h)[i]
        },
{
    let ghost hs = handler_list(h);
    let mut v: Vec<Command<F>> = Vec::new();
    v.push(Command::new("spawn", vec!["bp_name", "x", "y"], h.spawn));
    v.push(Command::new("edit", vec!["grid_id"], h.edit));
    v.push(Command::new("despawn", vec!["grid_id"], h.despawn));
    v.push(Command::new("find", vec!["grid_name"], h.find));
    v.push(Command::new("ping", vec!["x", "y"], h.ping));
    v.push(Command::new("waypoint", vec!["grid_id", "x", "y"], h.waypoint));
    v.push(Command::new("speed", vec!["speed"], h.speed));
    v.push(Command::new("save", vec![], h.save));
    v.push(Command::new("exit", vec![], h.exit));
    v.push(Command::new("setcpu", vec!["state"], h.setcpu));
    v.push(Command::new("say", vec!["msg"], h.say));
    v
}

} // verus!
