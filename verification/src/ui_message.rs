//! The messages that user interface elements send when used.

use vstd::prelude::*;
use crate::grid::Ent;

verus! {

/// What a user interface element asks for when clicked.
#[derive(Debug, PartialEq, Eq)]
pub enum UiMessage {
    Exit,
    SaveFile,
    OpenEditor,
    LeaveEditor,
    AltMode,
    DebugText,
    SimSpeed(u32),
    DockingShiftX,
    DockingShiftY,
    DockingRotate,
    DockingActivate,
    LoadSinglePlayer,
    JoinMultiplayer,
    HostMultiplayer,
    Settings,
    LoadSaveFile(String),
    GoToMainMenu,
    DockingHandle,
    MainMenuHandle,
    SaveSelectHandle,
    PartInfoHandle,
    SetMachineOnOff(Ent, bool),
    SetThrusterOnOff(Ent, bool),
    Salt(usize),
}

impl Clone for UiMessage {
    fn clone(&self) -> (m: Self)
        ensures
            m == *self,
    {
        match self {
            UiMessage::Exit => UiMessage::Exit,
            UiMessage::SaveFile => UiMessage::SaveFile,
            UiMessage::OpenEditor => UiMessage::OpenEditor,
            UiMessage::LeaveEditor => UiMessage::LeaveEditor,
            UiMessage::AltMode => UiMessage::AltMode,
            UiMessage::DebugText => UiMessage::DebugText,
            UiMessage::SimSpeed(n) => UiMessage::SimSpeed(*n),
            UiMessage::DockingShiftX => UiMessage::DockingShiftX,
            UiMessage::DockingShiftY => UiMessage::DockingShiftY,
            UiMessage::DockingRotate => UiMessage::DockingRotate,
            UiMessage::DockingActivate => UiMessage::DockingActivate,
            UiMessage::LoadSinglePlayer => UiMessage::LoadSinglePlayer,
            UiMessage::JoinMultiplayer => UiMessage::JoinMultiplayer,
            UiMessage::HostMultiplayer => UiMessage::HostMultiplayer,
            UiMessage::Settings => UiMessage::Settings,
            UiMessage::LoadSaveFile(s) => UiMessage::LoadSaveFile(s.clone()),
            UiMessage::GoToMainMenu => UiMessage::GoToMainMenu,
            UiMessage::DockingHandle => UiMessage::DockingHandle,
            UiMessage::MainMenuHandle => UiMessage::MainMenuHandle,
            UiMessage::SaveSelectHandle => UiMessage::SaveSelectHandle,
            UiMessage::PartInfoHandle => UiMessage::PartInfoHandle,
            UiMessage::SetMachineOnOff(e, b) => UiMessage::SetMachineOnOff(*e, *b),
            UiMessage::SetThrusterOnOff(e, b) => UiMessage::SetThrusterOnOff(*e, *b),
            UiMessage::Salt(n) => UiMessage::Salt(*n),
        }
    }
}

/// Whether two messages are the same request: the same variant with equal
/// contents, texts compared by their characters.
pub open spec fn same_message(a: UiMessage, b: UiMessage) -> bool {
    match (a, b) {
        (UiMessage::LoadSaveFile(x), UiMessage::LoadSaveFile(y)) => x@ == y@,
        _ => a == b,
    }
}

impl UiMessage {
    /// Whether `self` and `other` are the same request.
    pub fn same_as(&self, other: &UiMessage) -> (b: bool)
        ensures
            b == same_message(*self, *other),
    {
        match (self, other) {
            (UiMessage::Exit, UiMessage::Exit) => true,
            (UiMessage::SaveFile, UiMessage::SaveFile) => true,
            (UiMessage::OpenEditor, UiMessage::OpenEditor) => true,
            (UiMessage::LeaveEditor, UiMessage::LeaveEditor) => true,
            (UiMessage::AltMode, UiMessage::AltMode) => true,
            (UiMessage::DebugText, UiMessage::DebugText) => true,
            (UiMessage::SimSpeed(x), UiMessage::SimSpeed(y)) => *x == *y,
            (UiMessage::DockingShiftX, UiMessage::DockingShiftX) => true,
            (UiMessage::DockingShiftY, UiMessage::DockingShiftY) => true,
            (UiMessage::DockingRotate, UiMessage::DockingRotate) => true,
            (UiMessage::DockingActivate, UiMessage::DockingActivate) => true,
            (UiMessage::LoadSinglePlayer, UiMessage::LoadSinglePlayer) => true,
            (UiMessage::JoinMultiplayer, UiMessage::JoinMultiplayer) => true,
            (UiMessage::HostMultiplayer, UiMessage::HostMultiplayer) => true,
            (UiMessage::Settings, UiMessage::Settings) => true,
            (UiMessage::LoadSaveFile(x), UiMessage::LoadSaveFile(y)) => *x == *y,
            (UiMessage::GoToMainMenu, UiMessage::GoToMainMenu) => true,
            (UiMessage::DockingHandle, UiMessage::DockingHandle) => true,
            (UiMessage::MainMenuHandle, UiMessage::MainMenuHandle) => true,
            (UiMessage::SaveSelectHandle, UiMessage::SaveSelectHandle) => true,
            (UiMessage::PartInfoHandle, UiMessage::PartInfoHandle) => true,
            (UiMessage::SetMachineOnOff(e1, b1), UiMessage::SetMachineOnOff(e2, b2)) => *e1 == *e2 && *b1 == *b2,
            (UiMessage::SetThrusterOnOff(e1, b1), UiMessage::SetThrusterOnOff(e2, b2)) => *e1 == *e2 && *b1 == *b2,
            (UiMessage::Salt(x), UiMessage::Salt(y)) => *x == *y,
            _ => false,
        }
    }
}

} // verus!
