//! The closed set of client actions that the state machine emits and the
//! action interpreter executes.

use vstd::prelude::*;

use crate::input_mode::InputMode;

verus! {

/// How a candidate-window selection moves.
#[derive(Clone, Copy, Debug, PartialEq, Eq, Structural)]
pub enum SetSelectionType {
    Up,
    Down,
    Number(i32),
}

/// The forced text form requested by a function key.
#[derive(Clone, Copy, Debug, PartialEq, Eq, Structural)]
pub enum SetTextType {
    Hiragana,
    Katakana,
    HalfKatakana,
    FullLatin,
    HalfLatin,
}

#[derive(Clone, Debug, PartialEq)]
pub enum ClientAction {
    StartComposition,
    EndComposition,
    AppendText(String),
    RemoveText,
    MoveCursor(i32),
    SetIMEMode(InputMode),
    SetSelection(SetSelectionType),
    ShrinkText(String),
    SetTextWithType(SetTextType),
}

/// The mathematical shape of a client action: strings as character
/// sequences, integers unbounded.
pub ghost enum ClientActionModel {
    StartComposition,
    EndComposition,
    AppendText(Seq<char>),
    RemoveText,
    MoveCursor(int),
    SetIMEMode(InputMode),
    SetSelection(SetSelectionType),
    ShrinkText(Seq<char>),
    SetTextWithType(SetTextType),
}

impl View for ClientAction {
    type V = ClientActionModel;

    open spec fn view(&self) -> ClientActionModel {
        match self {
            ClientAction::StartComposition => ClientActionModel::StartComposition,
            ClientAction::EndComposition => ClientActionModel::EndComposition,
            ClientAction::AppendText(s) => ClientActionModel::AppendText(s@),
            ClientAction::RemoveText => ClientActionModel::RemoveText,
            ClientAction::MoveCursor(d) => ClientActionModel::MoveCursor(*d as int),
            ClientAction::SetIMEMode(m) => ClientActionModel::SetIMEMode(*m),
            ClientAction::SetSelection(s) => ClientActionModel::SetSelection(*s),
            ClientAction::ShrinkText(s) => ClientActionModel::ShrinkText(s@),
            ClientAction::SetTextWithType(t) => ClientActionModel::SetTextWithType(*t),
        }
    }
}

impl DeepView for ClientAction {
    type V = ClientActionModel;

    open spec fn deep_view(&self) -> ClientActionModel {
        self.view()
    }
}

} // verus!
