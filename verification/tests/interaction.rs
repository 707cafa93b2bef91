use bary::grid::Ent;
use bary::interaction::{LeftButton, NodeHit, UiEventKind, UiInteractionState};
use bary::ui_message::UiMessage;

type P = (i32, i32);

fn motion(a: P, b: P) -> Option<P> {
    if a != b {
        Some((b.0 - a.0, b.1 - a.1))
    } else {
        None
    }
}

fn buttons(just_pressed: bool, pressed: bool, just_released: bool) -> LeftButton {
    LeftButton { just_pressed, pressed, just_released }
}

fn nodes() -> Vec<NodeHit<P>> {
    vec![
        NodeHit { contains: true, on_click: None, relative: (0, 0) },
        NodeHit { contains: true, on_click: Some(UiMessage::DockingHandle), relative: (3, 4) },
        NodeHit { contains: false, on_click: Some(UiMessage::Exit), relative: (9, 9) },
    ]
}

#[test]
fn hot_and_active_elements() {
    let mut s: UiInteractionState<P> = UiInteractionState::default();
    assert!(!s.is_on_gui());
    let r = s.update(&nodes(), Some((10, 10)), buttons(false, false, false), motion);
    assert!(r.is_none());
    assert!(s.is_on_gui());
    assert_eq!(s.hot(), Some(&UiMessage::DockingHandle));
    assert_eq!(s.active(), None);
    s.update(&nodes(), Some((10, 10)), buttons(true, true, false), motion);
    assert_eq!(s.active(), Some(&UiMessage::DockingHandle));
}

#[test]
fn dragging_and_releasing() {
    let mut s: UiInteractionState<P> = UiInteractionState::default();
    s.update(&nodes(), Some((10, 10)), buttons(true, true, false), motion);
    let r = s.update(&nodes(), Some((10, 10)), buttons(false, true, false), motion);
    assert!(r.is_none());
    let r = s.update(&nodes(), Some((12, 15)), buttons(false, true, false), motion).unwrap();
    assert_eq!(r.msg, UiMessage::DockingHandle);
    assert_eq!(r.pos, (3, 4));
    assert!(matches!(r.kind, UiEventKind::Drag((2, 5))));
    let r = s.update(&nodes(), Some((12, 15)), buttons(false, false, true), motion).unwrap();
    assert_eq!(r.msg, UiMessage::DockingHandle);
    assert!(matches!(r.kind, UiEventKind::Click));
    assert_eq!(s.active(), None);
}

#[test]
fn releasing_elsewhere_sends_nothing() {
    let mut s: UiInteractionState<P> = UiInteractionState::default();
    s.update(&nodes(), Some((10, 10)), buttons(true, true, false), motion);
    let away = vec![NodeHit { contains: true, on_click: Some(UiMessage::SetMachineOnOff(Ent(1), true)), relative: (0, 0) }];
    let r = s.update(&away, Some((50, 50)), buttons(false, false, true), motion);
    assert!(r.is_none());
    assert_eq!(s.active(), None);
    assert_eq!(s.hot(), Some(&UiMessage::SetMachineOnOff(Ent(1), true)));
    let r = s.update(&nodes(), None, buttons(false, false, false), motion);
    assert!(r.is_none());
    assert!(!s.is_on_gui());
    assert_eq!(s.hot(), None);
}

#[test]
fn messages_compare_by_contents() {
    let a = UiMessage::LoadSaveFile("one".to_string());
    assert!(a.same_as(&a.clone()));
    assert!(!a.same_as(&UiMessage::LoadSaveFile("two".to_string())));
    assert!(!UiMessage::Salt(1).same_as(&UiMessage::Salt(2)));
    assert!(UiMessage::Exit.same_as(&UiMessage::Exit));
}
