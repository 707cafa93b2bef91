use bary::commands::{ArgsMap, Command, ParseError};
use bary::actions::{
    all_commands, cmd_despawn, cmd_edit, cmd_find, cmd_placeholder, cmd_say, cmd_set_cpu,
    cmd_set_speed, Action, CommandHandlers, WorldAction,
};
use bary::grid::Ent;
use bary::prompt::{CommandPrompt, PromptKey, Severity};
use bary::text::split_whitespace;

type Handler = Box<dyn Fn(&ArgsMap) -> Result<String, ParseError>>;

fn commands() -> Vec<Command<Handler>> {
    let say: Handler = Box::new(|args: &ArgsMap| args.get("msg").cloned().ok_or(ParseError::BadKey));
    let spawn: Handler = Box::new(|args: &ArgsMap| {
        let name = args.get("bp_name").ok_or(ParseError::BadKey)?;
        let x = args.get("x").ok_or(ParseError::BadKey)?;
        let y = args.get("y").ok_or(ParseError::BadKey)?;
        Ok(format!("spawn {} at {},{}", name, x, y))
    });
    let save: Handler = Box::new(|_| Err(ParseError::NotImplemented));
    vec![
        Command::new("spawn", vec!["bp_name", "x", "y"], spawn),
        Command::new("save", vec![], save),
        Command::new("say", vec!["msg"], say),
    ]
}

fn s(x: &str) -> String {
    x.to_string()
}

#[test]
fn command_suggestions_and_args() {
    let cmds = commands();
    assert_eq!(cmds[0].to_suggestion(), "spawn [bp_name] [x] [y]");
    assert_eq!(cmds[1].to_suggestion(), "save");
    assert_eq!(
        cmds[0].parse_partial_args(&[s("ship")]),
        vec![(Some(s("bp_name")), Some(s("ship"))), (Some(s("x")), None), (Some(s("y")), None)]
    );
    assert_eq!(
        cmds[2].parse_partial_args(&[s("a"), s("b")]),
        vec![(Some(s("msg")), Some(s("a"))), (None, Some(s("b")))]
    );
    assert!(cmds[0].parse_complete_args(&[s("ship"), s("1")]).is_none());
    let m = cmds[0].parse_complete_args(&[s("ship"), s("1"), s("2"), s("extra")]).unwrap();
    assert_eq!(m.get("x"), Some(&s("1")));
    assert_eq!(m.get("y"), Some(&s("2")));
    assert_eq!(m.get("z"), None);
    assert_eq!(cmds[0].parse(&[s("ship")]), Err(ParseError::WrongArgumentCount));
    assert_eq!(cmds[0].parse(&[s("ship"), s("1"), s("2")]), Ok(s("spawn ship at 1,2")));
    assert_eq!(cmds[1].parse(&[]), Err(ParseError::NotImplemented));
}

#[test]
fn args_map_last_binding_wins() {
    let mut m = ArgsMap::new();
    m.insert(s("k"), s("1"));
    m.insert(s("k"), s("2"));
    assert_eq!(m.get("k"), Some(&s("2")));
}

#[test]
fn whitespace_splitting() {
    assert_eq!(split_whitespace("  say  hello\tworld \n"), vec![s("say"), s("hello"), s("world")]);
    assert!(split_whitespace("   ").is_empty());
}

#[test]
fn prompt_typing_and_suggestions() {
    let mut p = CommandPrompt::new(commands());
    p.append("sp");
    // unfocused prompts ignore typing
    assert_eq!(p.contents, "");
    p.focus();
    assert!(p.is_focused());
    assert_eq!(p.suggest_text, "spawn save say ");
    p.append("sp");
    assert_eq!(p.suggest_text, "spawn [bp_name] [x] [y]");
    assert_eq!(p.bg_text(), "spawn [bp_name] [x] [y]");
    assert_eq!(p.fg_text(), "sp                     ");
    p.on_backspace();
    assert_eq!(p.contents, "s");
    // "s" is found in the first command
    assert_eq!(p.suggest_text, "spawn [bp_name] [x] [y]");
    p.append("a");
    assert_eq!(p.suggest_text, "save");
    p.on_tab_complete();
    assert_eq!(p.contents, "save");
    p.dismiss();
    assert!(!p.is_focused());
    assert_eq!(p.contents, "");
}

#[test]
fn prompt_display_with_args() {
    let mut p = CommandPrompt::new(commands());
    p.focus();
    p.append("spawn ship 3");
    let d = p.display_text();
    let bg: String = d.iter().map(|(c, _)| *c).collect();
    assert_eq!(bg, "spawn bp_name: ship x: 3 y: _");
    assert_eq!(p.fg_text(), "spawn          ship    3    _");
    p.dismiss();
    p.focus();
    p.append("say a b");
    assert_eq!(p.bg_text(), "say msg: a ???: b");
}

#[test]
fn prompt_enter() {
    let mut p = CommandPrompt::new(commands());
    assert_eq!(p.on_enter(), None);
    p.focus();
    assert_eq!(p.on_enter(), None);
    assert!(p.lines.is_empty());
    p.append("say hi");
    assert_eq!(p.on_enter(), Some(s("hi")));
    assert_eq!(p.contents, "");
    assert_eq!(p.lines, vec![(s("say hi"), Severity::Info)]);
    p.append("spawn x");
    assert_eq!(p.on_enter(), None);
    assert_eq!(p.lines[2], (s("Failed to parse: WrongArgumentCount"), Severity::Error));
    p.append("zzz");
    assert_eq!(p.on_enter(), None);
    assert_eq!(p.lines[4], (s("Bad command"), Severity::Error));
    p.append("save");
    assert_eq!(p.on_enter(), None);
    assert_eq!(p.lines[6], (s("Failed to parse: NotImplemented"), Severity::Error));
    assert_eq!(p.suggest_text, "spawn save say ");
    p.append("\"unclosed");
    assert_eq!(p.on_enter(), None);
    assert_eq!(p.lines[8], (s("Bad command"), Severity::Error));
}

type GameHandler = Box<dyn Fn(&ArgsMap) -> Result<Action<(), ()>, ParseError>>;

fn game_commands() -> Vec<Command<GameHandler>> {
    fn boxed(f: fn(&ArgsMap) -> Result<Action<(), ()>, ParseError>) -> GameHandler {
        Box::new(f)
    }
    let coords: GameHandler = Box::new(|_| Err(ParseError::NotImplemented));
    let ping: GameHandler = Box::new(|_| Err(ParseError::NotImplemented));
    let waypoint: GameHandler = Box::new(|_| Err(ParseError::NotImplemented));
    all_commands(CommandHandlers {
        spawn: coords,
        edit: boxed(cmd_edit),
        despawn: boxed(cmd_despawn),
        find: boxed(cmd_find),
        ping,
        waypoint,
        speed: boxed(cmd_set_speed),
        save: boxed(cmd_placeholder),
        exit: boxed(cmd_placeholder),
        setcpu: boxed(cmd_set_cpu),
        say: boxed(cmd_say),
    })
}

#[test]
fn command_prompt() {
    let mut cmd = CommandPrompt::new(game_commands());
    cmd.focus();
    assert_eq!(cmd.on_event(&PromptKey::Other(Some("j".to_string()))), None);
    assert_eq!(cmd.on_event(&PromptKey::Other(Some("r".to_string()))), None);
    let all = "spawn edit despawn find ping waypoint speed save exit setcpu say ";
    assert_eq!(cmd.suggest_text, all);
    assert_eq!(cmd.bg_text(), format!("jr{}", &all[2..]));
    assert_eq!(cmd.fg_text(), format!("jr{}", " ".repeat(all.len() - 2)));
}

#[test]
fn prompt_keys() {
    let mut cmd = CommandPrompt::new(game_commands());
    assert_eq!(cmd.on_event(&PromptKey::Other(Some("x".to_string()))), None);
    assert_eq!(cmd.contents, "");
    cmd.on_event::<Action<(), ()>>(&PromptKey::BackQuote);
    assert!(cmd.is_focused());
    for k in ["d", "e", "s", "p", "é"] {
        cmd.on_event::<Action<(), ()>>(&PromptKey::Other(Some(k.to_string())));
    }
    assert_eq!(cmd.contents, "desp");
    assert_eq!(cmd.suggest_text, "despawn [grid_id]");
    cmd.on_event::<Action<(), ()>>(&PromptKey::Tab);
    assert_eq!(cmd.contents, "despawn [grid_id]");
    cmd.on_event::<Action<(), ()>>(&PromptKey::Escape);
    assert!(!cmd.is_focused());
    assert_eq!(cmd.contents, "");
    cmd.on_event::<Action<(), ()>>(&PromptKey::BackQuote);
    cmd.append("despawn 12");
    cmd.on_event::<Action<(), ()>>(&PromptKey::Backspace);
    cmd.on_event::<Action<(), ()>>(&PromptKey::Other(Some("3".to_string())));
    assert_eq!(
        cmd.on_event(&PromptKey::Return),
        Some(Action::World(WorldAction::DespawnGrid(Ent(13))))
    );
    assert_eq!(cmd.lines.len(), 1);
}
