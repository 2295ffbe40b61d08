//! The edit actions that the state machine hands to the executor.

use vstd::prelude::*;

use crate::input_mode::InputMode;

verus! {

/// One edit against the composition buffer.
#[derive(Debug, Clone, PartialEq)]
pub enum ClientAction {
    StartComposition,
    EndComposition,
    AppendText(String),
    AppendTextRaw(String),
    AppendTextDirect(String),
    RemoveText,
    ShrinkText(String),
    ShrinkTextRaw(String),
    ShrinkTextDirect(String),
    SetTextWithType(SetTextType),
    MoveCursor(i32),
    MoveClause(i32),
    AdjustBoundary(i32),
    SetSelection(SetSelectionType),
    SetTemporaryLatin(bool),
    SetTemporaryLatinShiftPending(bool),
    SetIMEMode(InputMode),
}

/// Which candidate a selection change asks for.
#[derive(Debug, Clone, Copy, PartialEq, Eq, Structural)]
pub enum SetSelectionType {
    Up,
    Down,
    Number(i32),
}

/// The script in which the whole buffer is shown at once.
#[derive(Debug, Clone, Copy, PartialEq, Eq, Structural)]
pub enum SetTextType {
    Hiragana,
    Katakana,
    HalfKatakana,
    FullLatin,
    HalfLatin,
}

/// A client action with its text as a sequence of characters.
pub enum ClientActionView {
    StartComposition,
    EndComposition,
    AppendText(Seq<char>),
    AppendTextRaw(Seq<char>),
    AppendTextDirect(Seq<char>),
    RemoveText,
    ShrinkText(Seq<char>),
    ShrinkTextRaw(Seq<char>),
    ShrinkTextDirect(Seq<char>),
    SetTextWithType(SetTextType),
    MoveCursor(i32),
    MoveClause(i32),
    AdjustBoundary(i32),
    SetSelection(SetSelectionType),
    SetTemporaryLatin(bool),
    SetTemporaryLatinShiftPending(bool),
    SetIMEMode(InputMode),
}

impl View for ClientAction {
    type V = ClientActionView;

    open spec fn view(&self) -> ClientActionView {
        match self {
            ClientAction::StartComposition => ClientActionView::StartComposition,
            ClientAction::EndComposition => ClientActionView::EndComposition,
            ClientAction::AppendText(text) => ClientActionView::AppendText(text@),
            ClientAction::AppendTextRaw(text) => ClientActionView::AppendTextRaw(text@),
            ClientAction::AppendTextDirect(text) => ClientActionView::AppendTextDirect(text@),
            ClientAction::RemoveText => ClientActionView::RemoveText,
            ClientAction::ShrinkText(text) => ClientActionView::ShrinkText(text@),
            ClientAction::ShrinkTextRaw(text) => ClientActionView::ShrinkTextRaw(text@),
            ClientAction::ShrinkTextDirect(text) => ClientActionView::ShrinkTextDirect(text@),
            ClientAction::SetTextWithType(kind) => ClientActionView::SetTextWithType(*kind),
            ClientAction::MoveCursor(offset) => ClientActionView::MoveCursor(*offset),
            ClientAction::MoveClause(direction) => ClientActionView::MoveClause(*direction),
            ClientAction::AdjustBoundary(direction) => ClientActionView::AdjustBoundary(*direction),
            ClientAction::SetSelection(selection) => ClientActionView::SetSelection(*selection),
            ClientAction::SetTemporaryLatin(on) => ClientActionView::SetTemporaryLatin(*on),
            ClientAction::SetTemporaryLatinShiftPending(on) => {
                ClientActionView::SetTemporaryLatinShiftPending(*on)
            },
            ClientAction::SetIMEMode(mode) => ClientActionView::SetIMEMode(*mode),
        }
    }
}

impl DeepView for ClientAction {
    type V = ClientActionView;

    open spec fn deep_view(&self) -> ClientActionView {
        self@
    }
}

/// The list that holds `first` alone.
pub fn one_action(first: ClientAction) -> (actions: Vec<ClientAction>)
    ensures
        actions.deep_view() == seq![first@],
{
    let actions = vec![first];
    assert(actions.deep_view() =~= seq![first@]);
    actions
}

/// The list of `first`, then `second`.
pub fn two_actions(first: ClientAction, second: ClientAction) -> (actions: Vec<ClientAction>)
    ensures
        actions.deep_view() == seq![first@, second@],
{
    let actions = vec![first, second];
    assert(actions.deep_view() =~= seq![first@, second@]);
    actions
}

/// The list of `first`, `second`, then `third`.
pub fn three_actions(first: ClientAction, second: ClientAction, third: ClientAction) -> (actions:
    Vec<ClientAction>)
    ensures
        actions.deep_view() == seq![first@, second@, third@],
{
    let actions = vec![first, second, third];
    assert(actions.deep_view() =~= seq![first@, second@, third@]);
    actions
}

} // verus!
