//! The executor of edit actions.
//!
//! The candidate service and the rendering sink live outside the engine.
//! For each action the engine first says what the host must do and ask
//! ([`TextServiceFactory::plan_action`]); the host performs that and hands
//! the service's answer back; the engine then updates the buffer and says
//! what is left to do ([`TextServiceFactory::handle_action`]). The host
//! stops at the first call that fails, and the buffer it keeps is the one
//! from before the batch.

use vstd::prelude::*;
use vstd::string::*;

use crate::client_action::{ClientAction, ClientActionView, SetSelectionType, SetTextType};
use crate::composition::{
    key_outcome, selected_candidate, CandidateSelection, CandidateSelectionView, Candidates,
    CandidatesView, Composition, CompositionState, CompositionView, TextServiceFactory,
};
use crate::config::{AppConfig, CharacterWidthConfigView, GeneralConfig, RomajiRuleView};
use crate::full_width::{
    convert_kana_symbol, fullwidth_char, halfwidth_char, kana_symbols, to_fullwidth, to_halfwidth,
};
use crate::input_mode::InputMode;
use crate::laws::law_applied_keeps_the_buffer_well_formed;
use crate::text::{
    clone_texts, drop_back, drop_front, joined, strip_prefix, without_front, without_last,
    without_prefix,
};
use crate::text_util::{half_katakana, katakana_char, to_half_katakana, to_katakana};
use crate::user_action::{KeyError, KeyEvent, LayoutLookup};

verus! {

/// The cursor offset that tells the service: the snapshot stack was cleared.
pub const MOVE_CURSOR_CLEAR_CLAUSE_SNAPSHOTS: i32 = 125;

/// The cursor offset that tells the service: a snapshot was pushed.
pub const MOVE_CURSOR_PUSH_CLAUSE_SNAPSHOT: i32 = 126;

/// The cursor offset that tells the service: a snapshot was popped.
pub const MOVE_CURSOR_POP_CLAUSE_SNAPSHOT: i32 = 127;

/// One call that the host makes for the engine and whose answer, if it
/// has one, the engine does not read.
#[derive(Debug, Clone, PartialEq)]
pub enum Effect {
    /// Sink: open the visible composition.
    StartComposition,
    /// Sink: close the visible composition.
    EndComposition,
    /// Sink: show this preview, followed by this suffix.
    SetText(String, String),
    /// Sink: commit the text shown so far (the first) and go on with a
    /// composition that shows the second.
    ShiftStart(String, String),
    /// Sink: move the candidate window to the caret.
    UpdateCaretPosition,
    /// Sink: show the input mode in the status display.
    UpdateModeIndicator,
    /// Host: the ambient input mode is now this one.
    SwitchInputMode(InputMode),
    /// Service: show the candidate window.
    ShowWindow,
    /// Service: hide the candidate window.
    HideWindow,
    /// Service: list these candidates.
    SetCandidates(Vec<String>),
    /// Service: mark this candidate.
    SetSelection(i32),
    /// Service: the input mode has this label.
    SetInputMode(String),
    /// Service: forget the text.
    ClearText,
    /// Service: move the cursor by this offset, or take this signal.
    MoveCursor(i32),
    /// Service: drop this many characters from the front of the text.
    ShrinkText(i32),
}

/// An effect with its texts as sequences of characters.
pub enum EffectView {
    StartComposition,
    EndComposition,
    SetText(Seq<char>, Seq<char>),
    ShiftStart(Seq<char>, Seq<char>),
    UpdateCaretPosition,
    UpdateModeIndicator,
    SwitchInputMode(InputMode),
    ShowWindow,
    HideWindow,
    SetCandidates(Seq<Seq<char>>),
    SetSelection(i32),
    SetInputMode(Seq<char>),
    ClearText,
    MoveCursor(i32),
    ShrinkText(i32),
}

impl View for Effect {
    type V = EffectView;

    open spec fn view(&self) -> EffectView {
        match self {
            Effect::StartComposition => EffectView::StartComposition,
            Effect::EndComposition => EffectView::EndComposition,
            Effect::SetText(preview, suffix) => EffectView::SetText(preview@, suffix@),
            Effect::ShiftStart(shown, text) => EffectView::ShiftStart(shown@, text@),
            Effect::UpdateCaretPosition => EffectView::UpdateCaretPosition,
            Effect::UpdateModeIndicator => EffectView::UpdateModeIndicator,
            Effect::SwitchInputMode(mode) => EffectView::SwitchInputMode(*mode),
            Effect::ShowWindow => EffectView::ShowWindow,
            Effect::HideWindow => EffectView::HideWindow,
            Effect::SetCandidates(texts) => EffectView::SetCandidates(texts.deep_view()),
            Effect::SetSelection(index) => EffectView::SetSelection(*index),
            Effect::SetInputMode(label) => EffectView::SetInputMode(label@),
            Effect::ClearText => EffectView::ClearText,
            Effect::MoveCursor(offset) => EffectView::MoveCursor(*offset),
            Effect::ShrinkText(count) => EffectView::ShrinkText(*count),
        }
    }
}

impl DeepView for Effect {
    type V = EffectView;

    open spec fn deep_view(&self) -> EffectView {
        self@
    }
}

/// The one call of an action whose answer, a candidate set, the engine
/// reads.
#[derive(Debug, Clone, PartialEq)]
pub enum Query {
    AppendText(String),
    RemoveText,
    ShrinkText(i32),
    MoveCursor(i32),
}

/// A query with its text as a sequence of characters.
pub enum QueryView {
    AppendText(Seq<char>),
    RemoveText,
    ShrinkText(i32),
    MoveCursor(i32),
}

impl View for Query {
    type V = QueryView;

    open spec fn view(&self) -> QueryView {
        match self {
            Query::AppendText(text) => QueryView::AppendText(text@),
            Query::RemoveText => QueryView::RemoveText,
            Query::ShrinkText(count) => QueryView::ShrinkText(*count),
            Query::MoveCursor(offset) => QueryView::MoveCursor(*offset),
        }
    }
}

/// What the host does before an action is applied: the effects, in order,
/// then the query whose answer the action needs.
#[derive(Debug, Clone, PartialEq)]
pub struct Plan {
    pub effects: Vec<Effect>,
    pub query: Option<Query>,
}

/// A plan as plain sequences.
pub struct PlanView {
    pub effects: Seq<EffectView>,
    pub query: Option<QueryView>,
}

impl View for Plan {
    type V = PlanView;

    open spec fn view(&self) -> PlanView {
        PlanView {
            effects: self.effects.deep_view(),
            query: match self.query {
                Some(query) => Some(query@),
                None => None,
            },
        }
    }
}

impl PlanView {
    /// The plan of an action that needs nothing from the service.
    pub open spec fn nothing() -> PlanView {
        PlanView { effects: Seq::empty(), query: None }
    }
}

/// The signal that new input owes the service where clause snapshots are
/// about to be dropped.
pub open spec fn clear_signal(c: CompositionView) -> Seq<EffectView> {
    if c.clause_snapshots.len() > 0 {
        seq![EffectView::MoveCursor(MOVE_CURSOR_CLEAR_CLAUSE_SNAPSHOTS)]
    } else {
        Seq::empty()
    }
}

/// The text that is sent to the service for typed text: normalized in kana
/// mode, as typed in Latin mode.
pub open spec fn sent_text(
    text: Seq<char>,
    mode: InputMode,
    general: GeneralConfig,
    character_width: CharacterWidthConfigView,
    rows: Seq<RomajiRuleView>,
) -> Seq<char> {
    match mode {
        InputMode::Kana => kana_symbols(text, general, character_width, rows),
        InputMode::Latin => text,
    }
}

/// What the host does and asks before `action` is applied to `c`.
pub open spec fn planned(
    c: CompositionView,
    action: ClientActionView,
    mode: InputMode,
    general: GeneralConfig,
    character_width: CharacterWidthConfigView,
    rows: Seq<RomajiRuleView>,
) -> PlanView {
    match action {
        ClientActionView::AppendText(text) => PlanView {
            effects: clear_signal(c),
            query: Some(
                QueryView::AppendText(sent_text(text, mode, general, character_width, rows)),
            ),
        },
        ClientActionView::AppendTextRaw(text) => PlanView {
            effects: clear_signal(c),
            query: Some(QueryView::AppendText(text)),
        },
        ClientActionView::RemoveText => PlanView {
            effects: clear_signal(c),
            query: Some(QueryView::RemoveText),
        },
        ClientActionView::MoveCursor(offset) => PlanView {
            effects: Seq::empty(),
            query: Some(QueryView::MoveCursor(offset)),
        },
        ClientActionView::MoveClause(direction) => if direction > 0 && c.suffix.len() > 0 {
            PlanView {
                effects: seq![EffectView::MoveCursor(MOVE_CURSOR_PUSH_CLAUSE_SNAPSHOT)],
                query: Some(QueryView::ShrinkText(c.corresponding_count)),
            }
        } else {
            PlanView::nothing()
        },
        ClientActionView::AdjustBoundary(direction) => if direction != 0 {
            PlanView {
                effects: seq![EffectView::MoveCursor(direction)],
                query: Some(QueryView::MoveCursor(0)),
            }
        } else {
            PlanView::nothing()
        },
        ClientActionView::ShrinkText(text) => PlanView {
            effects: clear_signal(c).push(EffectView::ShrinkText(c.corresponding_count)),
            query: Some(
                QueryView::AppendText(sent_text(text, mode, general, character_width, rows)),
            ),
        },
        ClientActionView::ShrinkTextRaw(text) => PlanView {
            effects: clear_signal(c).push(EffectView::ShrinkText(c.corresponding_count)),
            query: Some(QueryView::AppendText(text)),
        },
        _ => PlanView::nothing(),
    }
}

/// The buffer after a candidate was chosen from `candidates`: index, count,
/// suffix and phonetic form are the candidate's, and the preview is the
/// candidate's text behind the fixed prefix.
pub open spec fn adopted(
    c: CompositionView,
    candidates: CandidatesView,
    selected: CandidateSelectionView,
) -> CompositionView {
    CompositionView {
        candidates,
        selection_index: selected.index,
        corresponding_count: selected.corresponding_count,
        preview: c.fixed_prefix + selected.text,
        suffix: selected.sub_text,
        raw_hiragana: selected.hiragana,
        ..c
    }
}

/// The buffer cleared: every text empty, both counters zero, no candidates
/// and no snapshots. The state stays.
pub open spec fn cleared(c: CompositionView) -> CompositionView {
    CompositionView::cleared(c.state)
}

/// The calls that show the buffer: the text, the candidate list and the
/// marked candidate, and the caret position where asked for.
pub open spec fn shown(c: CompositionView, with_caret: bool) -> Seq<EffectView> {
    let base = seq![
        EffectView::SetText(c.preview, c.suffix),
        EffectView::SetCandidates(c.candidates.texts),
        EffectView::SetSelection(c.selection_index),
    ];
    if with_caret {
        base.push(EffectView::UpdateCaretPosition)
    } else {
        base
    }
}

/// The calls that close the composition on both sides.
pub open spec fn closing() -> Seq<EffectView> {
    seq![
        EffectView::EndComposition,
        EffectView::HideWindow,
        EffectView::SetCandidates(Seq::empty()),
        EffectView::ClearText,
    ]
}

/// The buffer with `reply` as its candidate set and the candidate nearest
/// to `desired` chosen, and the calls that show it. A reply that holds no
/// candidate becomes the candidate set all the same: the index is then
/// zero, the texts stay and nothing is shown.
pub open spec fn reselected(
    c: CompositionView,
    reply: CandidatesView,
    desired: int,
    with_caret: bool,
) -> (CompositionView, Seq<EffectView>) {
    match selected_candidate(reply, desired) {
        Some(selected) => {
            let next = adopted(c, reply, selected);
            (next, shown(next, with_caret))
        },
        None => (CompositionView { candidates: reply, selection_index: 0, ..c }, Seq::empty()),
    }
}

/// New input: the clause snapshots are dropped, the typed text joins the
/// raw input, and the candidate at the current index is chosen anew.
pub open spec fn appended(c: CompositionView, text: Seq<char>, reply: CandidatesView) -> (
    CompositionView,
    Seq<EffectView>,
) {
    let typed = CompositionView {
        clause_snapshots: Seq::empty(),
        raw_input: c.raw_input + text,
        ..c
    };
    reselected(typed, reply, c.selection_index as int, false)
}

/// One unit removed: the clause snapshots are dropped and the raw input
/// loses its last character. While candidates remain, the one at the
/// current index is chosen anew. Once none remains the service's buffer is
/// drained: the fixed prefix alone is shown, the composition is closed on
/// both sides, and the buffer is cleared and idle.
pub open spec fn removed(c: CompositionView, reply: CandidatesView) -> (
    CompositionView,
    Seq<EffectView>,
) {
    let shorter = CompositionView {
        clause_snapshots: Seq::empty(),
        raw_input: without_last(c.raw_input),
        ..c
    };
    if reply.texts.len() > 0 {
        reselected(shorter, reply, c.selection_index as int, false)
    } else {
        (
            CompositionView::idle(),
            seq![EffectView::SetText(c.fixed_prefix, Seq::empty())] + closing(),
        )
    }
}

/// The count of raw characters that a clause consumes, never below zero.
pub open spec fn consumed(count: i32) -> int {
    if count < 0 {
        0
    } else {
        count as int
    }
}

/// A clause boundary crossed, forward for a positive direction and back
/// for a negative one.
///
/// Forward, with a suffix to move into: the buffer is saved on the stack,
/// the clause's preview joins the fixed prefix, the raw input loses what
/// the clause consumed, and the first candidate of the reply is chosen.
/// Where the reply holds no candidate there is no further clause: the
/// service is told to drop the snapshot again and the buffer stays as it
/// was. Forward without a suffix nothing happens at all.
///
/// Back, with a saved clause: the most recent snapshot leaves the stack
/// and every field it holds is put back.
pub open spec fn clause_moved(c: CompositionView, direction: i32, reply: CandidatesView) -> (
    CompositionView,
    Seq<EffectView>,
) {
    if direction > 0 {
        if c.suffix.len() == 0 {
            (c, Seq::empty())
        } else if reply.texts.len() == 0 {
            (c, seq![EffectView::MoveCursor(MOVE_CURSOR_POP_CLAUSE_SNAPSHOT)] + shown(c, true))
        } else {
            let advanced = CompositionView {
                clause_snapshots: c.clause_snapshots.push(c.snapshot()),
                raw_input: without_front(c.raw_input, consumed(c.corresponding_count)),
                fixed_prefix: c.fixed_prefix + without_prefix(c.preview, c.fixed_prefix),
                ..c
            };
            reselected(advanced, reply, 0, true)
        }
    } else if direction < 0 && c.clause_snapshots.len() > 0 {
        let back = CompositionView {
            clause_snapshots: c.clause_snapshots.drop_last(),
            ..c.restored(c.clause_snapshots.last())
        };
        (back, seq![EffectView::MoveCursor(MOVE_CURSOR_POP_CLAUSE_SNAPSHOT)] + shown(back, true))
    } else {
        (c, Seq::empty())
    }
}

/// A clause boundary adjusted: where the probe found candidates, its first
/// is chosen; where it found none the move was invalid, the buffer stays,
/// and a move to the left is undone by one step to the right.
pub open spec fn boundary_adjusted(c: CompositionView, direction: i32, reply: CandidatesView) -> (
    CompositionView,
    Seq<EffectView>,
) {
    if direction == 0 {
        (c, Seq::empty())
    } else if reply.texts.len() == 0 {
        (
            c,
            if direction < 0 {
                seq![EffectView::MoveCursor(1)]
            } else {
                Seq::empty()
            },
        )
    } else {
        reselected(c, reply, 0, true)
    }
}

/// The index that a selection change asks for: one up or down from the
/// current one, as far as the integers go, or the number given.
pub open spec fn desired_index(current: i32, selection: SetSelectionType) -> int {
    match selection {
        SetSelectionType::Up => if current == i32::MIN {
            current as int
        } else {
            current - 1
        },
        SetSelectionType::Down => if current == i32::MAX {
            current as int
        } else {
            current + 1
        },
        SetSelectionType::Number(number) => number as int,
    }
}

/// The selection changed among the candidates at hand: the service is told
/// the index and the sink the text; no new candidates are asked for.
pub open spec fn selection_set(c: CompositionView, selection: SetSelectionType) -> (
    CompositionView,
    Seq<EffectView>,
) {
    match selected_candidate(c.candidates, desired_index(c.selection_index, selection)) {
        Some(selected) => {
            let next = adopted(c, c.candidates, selected);
            (
                next,
                seq![
                    EffectView::SetSelection(next.selection_index),
                    EffectView::SetText(next.preview, next.suffix),
                ],
            )
        },
        None => (c, Seq::empty()),
    }
}

/// The previewed clause committed and typing resumed: the fixed prefix and
/// the clause snapshots are dropped, the typed text joins the raw input,
/// which then loses what the clause consumed, the first candidate of the
/// reply is chosen, and the state is `Composing` whatever the batch asked.
pub open spec fn shrunk(c: CompositionView, text: Seq<char>, reply: CandidatesView) -> (
    CompositionView,
    Seq<EffectView>,
) {
    let resumed = CompositionView {
        fixed_prefix: Seq::empty(),
        clause_snapshots: Seq::empty(),
        raw_input: without_front(c.raw_input + text, consumed(c.corresponding_count)),
        candidates: reply,
        selection_index: 0,
        state: CompositionState::Composing,
        ..c
    };
    match selected_candidate(reply, 0) {
        Some(selected) => {
            let next = adopted(resumed, reply, selected);
            (
                next,
                seq![
                    EffectView::ShiftStart(c.preview, selected.text),
                    EffectView::SetCandidates(reply.texts),
                    EffectView::SetSelection(next.selection_index),
                    EffectView::UpdateCaretPosition,
                ],
            )
        },
        None => (resumed, Seq::empty()),
    }
}

/// The whole buffer in one script: the phonetic form as it is, in katakana
/// or in half-width katakana, or the raw input full-width or half-width.
pub open spec fn script_text(c: CompositionView, kind: SetTextType) -> Seq<char> {
    match kind {
        SetTextType::Hiragana => c.raw_hiragana,
        SetTextType::Katakana => c.raw_hiragana.map_values(|ch: char| katakana_char(ch)),
        SetTextType::HalfKatakana => half_katakana(c.raw_hiragana),
        SetTextType::FullLatin => c.raw_input.map_values(|ch: char| fullwidth_char(ch, true)),
        SetTextType::HalfLatin => c.raw_input.map_values(|ch: char| halfwidth_char(ch)),
    }
}

/// The input mode switched: a composition is opened and closed at once so
/// that none stays in progress, the host and the service learn the mode,
/// and the buffer is cleared.
pub open spec fn mode_switched(c: CompositionView, mode: InputMode) -> (
    CompositionView,
    Seq<EffectView>,
) {
    (
        cleared(c),
        seq![
            EffectView::StartComposition,
            EffectView::UpdateCaretPosition,
            EffectView::EndComposition,
            EffectView::SwitchInputMode(mode),
            EffectView::UpdateModeIndicator,
            EffectView::SetInputMode(mode.spec_label()),
            EffectView::ClearText,
        ],
    )
}

/// The buffer after `action`, given the service's answer to the action's
/// query, and the calls that are left for the host to make, in order. An
/// action without a query does not read `reply`.
pub open spec fn applied(c: CompositionView, action: ClientActionView, reply: CandidatesView) -> (
    CompositionView,
    Seq<EffectView>,
) {
    match action {
        ClientActionView::StartComposition => (
            c,
            seq![
                EffectView::StartComposition,
                EffectView::UpdateCaretPosition,
                EffectView::ShowWindow,
            ],
        ),
        ClientActionView::EndComposition => (cleared(c), closing()),
        ClientActionView::AppendText(text) => appended(c, text, reply),
        ClientActionView::AppendTextRaw(text) => appended(c, text, reply),
        ClientActionView::RemoveText => removed(c, reply),
        ClientActionView::MoveCursor(_) => reselected(c, reply, c.selection_index as int, true),
        ClientActionView::MoveClause(direction) => clause_moved(c, direction, reply),
        ClientActionView::AdjustBoundary(direction) => boundary_adjusted(c, direction, reply),
        ClientActionView::SetIMEMode(mode) => mode_switched(c, mode),
        ClientActionView::SetSelection(selection) => selection_set(c, selection),
        ClientActionView::ShrinkText(text) => shrunk(c, text, reply),
        ClientActionView::ShrinkTextRaw(text) => shrunk(c, text, reply),
        ClientActionView::SetTextWithType(kind) => (
            c,
            seq![EffectView::SetText(script_text(c, kind), Seq::empty())],
        ),
        _ => (c, Seq::empty()),
    }
}

/// The working copy that a batch of actions starts from: the buffer, with
/// the state that the batch is to leave.
pub open spec fn begun(c: CompositionView, transition: CompositionState) -> CompositionView {
    CompositionView { state: transition, ..c }
}

/// The buffer after a batch of actions, where `replies` holds, for each
/// action, the service's answer to its query.
pub open spec fn batch_applied(
    c: CompositionView,
    actions: Seq<ClientActionView>,
    replies: Seq<CandidatesView>,
) -> CompositionView
    decreases actions.len(),
{
    if actions.len() == 0 {
        c
    } else {
        batch_applied(
            applied(c, actions[0], replies[0]).0,
            actions.drop_first(),
            replies.drop_first(),
        )
    }
}

/// The batch that a key press opens: nothing for a key that is left to the
/// host, else the actions with the working copy they start from.
pub open spec fn key_batch(
    outcome: Result<Option<(Seq<ClientActionView>, CompositionState)>, KeyError>,
    c: CompositionView,
) -> Result<Option<(Seq<ClientActionView>, CompositionView)>, KeyError> {
    match outcome {
        Err(error) => Err(error),
        Ok(None) => Ok(None),
        Ok(Some((actions, state))) => Ok(Some((actions, begun(c, state)))),
    }
}

/// The view of what `handle_key` returns.
pub open spec fn key_batch_view(
    batch: Result<Option<(Vec<ClientAction>, Composition)>, KeyError>,
) -> Result<Option<(Seq<ClientActionView>, CompositionView)>, KeyError> {
    match batch {
        Err(error) => Err(error),
        Ok(None) => Ok(None),
        Ok(Some((actions, work))) => Ok(Some((actions.deep_view(), work@))),
    }
}

/// Appends one effect to a list.
fn push_effect(effects: &mut Vec<Effect>, effect: Effect)
    ensures
        final(effects).deep_view() == old(effects).deep_view().push(effect@),
{
    effects.push(effect);
    assert(effects.deep_view() =~= old(effects).deep_view().push(effect@));
}

/// An empty list of effects.
fn no_effects() -> (effects: Vec<Effect>)
    ensures
        effects.deep_view() == Seq::<EffectView>::empty(),
{
    let effects: Vec<Effect> = Vec::new();
    assert(effects.deep_view() =~= Seq::<EffectView>::empty());
    effects
}

/// Appends the calls that show the buffer.
fn show(work: &Composition, with_caret: bool, effects: &mut Vec<Effect>)
    ensures
        final(effects).deep_view() == old(effects).deep_view() + shown(work@, with_caret),
{
    push_effect(effects, Effect::SetText(work.preview.clone(), work.suffix.clone()));
    push_effect(effects, Effect::SetCandidates(clone_texts(&work.candidates.texts)));
    push_effect(effects, Effect::SetSelection(work.selection_index));
    if with_caret {
        push_effect(effects, Effect::UpdateCaretPosition);
    }
    assert(effects.deep_view() =~= old(effects).deep_view() + shown(work@, with_caret));
}

/// Appends the calls that close the composition on both sides.
fn close(effects: &mut Vec<Effect>)
    ensures
        final(effects).deep_view() == old(effects).deep_view() + closing(),
{
    push_effect(effects, Effect::EndComposition);
    push_effect(effects, Effect::HideWindow);
    let none: Vec<String> = Vec::new();
    assert(none.deep_view() =~= Seq::<Seq<char>>::empty());
    push_effect(effects, Effect::SetCandidates(none));
    push_effect(effects, Effect::ClearText);
    assert(effects.deep_view() =~= old(effects).deep_view() + closing());
}

/// Takes a chosen candidate into the buffer.
fn adopt(work: &mut Composition, candidates: Candidates, selected: CandidateSelection)
    ensures
        final(work)@ == adopted(old(work)@, candidates@, selected@),
{
    work.selection_index = selected.index;
    work.corresponding_count = selected.corresponding_count;
    work.preview = TextServiceFactory::merge_preview_with_prefix(
        work.fixed_prefix.as_str(),
        selected.text.as_str(),
    );
    work.suffix = selected.sub_text;
    work.raw_hiragana = selected.hiragana;
    work.candidates = candidates;
}

/// Clears the buffer.
fn clear(work: &mut Composition)
    ensures
        final(work)@ == cleared(old(work)@),
{
    work.candidates = Candidates::new();
    work.selection_index = 0;
    work.corresponding_count = 0;
    work.preview = String::new();
    work.suffix = String::new();
    work.raw_input = String::new();
    work.raw_hiragana = String::new();
    work.fixed_prefix = String::new();
    work.clause_snapshots = Vec::new();
    assert(work@.clause_snapshots =~= Seq::empty());
}

/// Drops the clause snapshots.
fn clear_clause_snapshots(work: &mut Composition)
    ensures
        final(work)@ == (CompositionView { clause_snapshots: Seq::empty(), ..old(work)@ }),
{
    work.clause_snapshots = Vec::new();
    assert(work@.clause_snapshots =~= Seq::empty());
}

/// Takes the reply as the candidate set and chooses the candidate nearest
/// to `desired`.
fn reselect(
    work: &mut Composition,
    reply: Candidates,
    desired: i32,
    with_caret: bool,
    effects: &mut Vec<Effect>,
)
    ensures
        final(work)@ == reselected(old(work)@, reply@, desired as int, with_caret).0,
        final(effects).deep_view() == old(effects).deep_view() + reselected(
            old(work)@,
            reply@,
            desired as int,
            with_caret,
        ).1,
{
    match TextServiceFactory::select_candidate(&reply, desired) {
        Some(selected) => {
            adopt(work, reply, selected);
            show(work, with_caret, effects);
        },
        None => {
            work.candidates = reply;
            work.selection_index = 0;
            assert(effects.deep_view() =~= old(effects).deep_view() + Seq::<EffectView>::empty());
        },
    }
}

impl TextServiceFactory {
    /// Opens a batch: the working copy of the buffer, which will leave the
    /// batch in the state `transition` unless an action decides otherwise.
    pub fn begin_actions(&self, transition: CompositionState) -> (work: Composition)
        ensures
            work@ == begun(self.composition@, transition),
    {
        let mut work = self.composition.duplicate();
        work.state = transition;
        work
    }

    /// Closes a batch that ran to its end: the working copy becomes the
    /// buffer.
    pub fn commit_actions(&mut self, work: Composition)
        ensures
            final(self).composition@ == work@,
            final(self).input_mode == old(self).input_mode,
    {
        self.composition = work;
    }

    /// Handles a key press as far as the engine alone can: classifies the
    /// key, looks the transition up, and opens the batch. `Ok(None)` says
    /// that the key is not the engine's.
    pub fn handle_key(&self, key: &KeyEvent, lookup: LayoutLookup, config: &AppConfig) -> (batch:
        Result<Option<(Vec<ClientAction>, Composition)>, KeyError>)
        ensures
            key_batch_view(batch) == key_batch(
                key_outcome(
                    self.composition@,
                    self.input_mode,
                    *key,
                    lookup,
                    config.shortcuts,
                    config.general,
                ),
                self.composition@,
            ),
    {
        match self.process_key(key, lookup, config) {
            Err(error) => Err(error),
            Ok(None) => Ok(None),
            Ok(Some((actions, transition))) => {
                let work = self.begin_actions(transition);
                Ok(Some((actions, work)))
            },
        }
    }

    /// Appends the signal that the clause snapshots are cleared, where
    /// there are any to clear.
    fn signal_cleared_snapshots(composition: &Composition, effects: &mut Vec<Effect>)
        ensures
            final(effects).deep_view() == old(effects).deep_view() + clear_signal(composition@),
    {
        if composition.clause_snapshots.len() == 0 {
            assert(effects.deep_view() =~= old(effects).deep_view() + clear_signal(
                composition@,
            ));
            return ;
        }
        push_effect(effects, Effect::MoveCursor(MOVE_CURSOR_CLEAR_CLAUSE_SNAPSHOTS));
        assert(effects.deep_view() =~= old(effects).deep_view() + clear_signal(composition@));
    }

    /// The text to send to the service for typed text.
    fn text_to_send(text: &str, mode: InputMode, config: &AppConfig) -> (out: String)
        ensures
            out@ == sent_text(
                text@,
                mode,
                config.general,
                config.character_width@,
                config.romaji_table.rows.deep_view(),
            ),
    {
        match mode {
            InputMode::Kana => {
                let rows = config.romaji_table.rows.as_slice();
                assert(rows.deep_view() =~= config.romaji_table.rows.deep_view());
                convert_kana_symbol(text, &config.general, &config.character_width, rows)
            },
            InputMode::Latin => String::from_str(text),
        }
    }

    /// Says what the host must do and ask before `action` is applied.
    ///
    /// `mode` is the input mode as it stood when the batch began.
    pub fn plan_action(
        composition: &Composition,
        action: &ClientAction,
        mode: InputMode,
        config: &AppConfig,
    ) -> (plan: Plan)
        ensures
            plan@ == planned(
                composition@,
                action@,
                mode,
                config.general,
                config.character_width@,
                config.romaji_table.rows.deep_view(),
            ),
    {
        let mut effects = no_effects();
        match action {
            ClientAction::AppendText(text) => {
                Self::signal_cleared_snapshots(composition, &mut effects);
                let sent = Self::text_to_send(text.as_str(), mode, config);
                Plan { effects, query: Some(Query::AppendText(sent)) }
            },
            ClientAction::AppendTextRaw(text) => {
                Self::signal_cleared_snapshots(composition, &mut effects);
                Plan { effects, query: Some(Query::AppendText(text.clone())) }
            },
            ClientAction::RemoveText => {
                Self::signal_cleared_snapshots(composition, &mut effects);
                Plan { effects, query: Some(Query::RemoveText) }
            },
            ClientAction::MoveCursor(offset) => Plan {
                effects,
                query: Some(Query::MoveCursor(*offset)),
            },
            ClientAction::MoveClause(direction) => {
                if *direction > 0 && !composition.suffix.as_str().is_empty() {
                    push_effect(&mut effects, Effect::MoveCursor(MOVE_CURSOR_PUSH_CLAUSE_SNAPSHOT));
                    assert(effects.deep_view() =~= seq![
                        EffectView::MoveCursor(MOVE_CURSOR_PUSH_CLAUSE_SNAPSHOT),
                    ]);
                    Plan {
                        effects,
                        query: Some(Query::ShrinkText(composition.corresponding_count)),
                    }
                } else {
                    Plan { effects, query: None }
                }
            },
            ClientAction::AdjustBoundary(direction) => {
                if *direction != 0 {
                    push_effect(&mut effects, Effect::MoveCursor(*direction));
                    assert(effects.deep_view() =~= seq![EffectView::MoveCursor(*direction)]);
                    Plan { effects, query: Some(Query::MoveCursor(0)) }
                } else {
                    Plan { effects, query: None }
                }
            },
            ClientAction::ShrinkText(text) => {
                Self::signal_cleared_snapshots(composition, &mut effects);
                push_effect(&mut effects, Effect::ShrinkText(composition.corresponding_count));
                let sent = Self::text_to_send(text.as_str(), mode, config);
                Plan { effects, query: Some(Query::AppendText(sent)) }
            },
            ClientAction::ShrinkTextRaw(text) => {
                Self::signal_cleared_snapshots(composition, &mut effects);
                push_effect(&mut effects, Effect::ShrinkText(composition.corresponding_count));
                Plan { effects, query: Some(Query::AppendText(text.clone())) }
            },
            _ => Plan { effects, query: None },
        }
    }

    /// New input.
    fn append(work: &mut Composition, text: &str, reply: Candidates, effects: &mut Vec<Effect>)
        ensures
            final(work)@ == appended(old(work)@, text@, reply@).0,
            final(effects).deep_view() == old(effects).deep_view() + appended(
                old(work)@,
                text@,
                reply@,
            ).1,
    {
        clear_clause_snapshots(work);
        work.raw_input.append(text);
        let desired = work.selection_index;
        reselect(work, reply, desired, false, effects);
    }

    /// One unit removed.
    fn remove(work: &mut Composition, reply: Candidates, effects: &mut Vec<Effect>)
        ensures
            final(work)@ == removed(old(work)@, reply@).0,
            final(effects).deep_view() == old(effects).deep_view() + removed(old(work)@, reply@).1,
    {
        if reply.texts.len() > 0 {
            clear_clause_snapshots(work);
            work.raw_input = drop_back(work.raw_input.as_str());
            let desired = work.selection_index;
            reselect(work, reply, desired, false, effects);
        } else {
            // The service holds no text any more: close the composition too, so
            // that no preview lingers.
            push_effect(effects, Effect::SetText(work.fixed_prefix.clone(), String::new()));
            close(effects);
            clear(work);
            work.state = CompositionState::Idle;
            assert(effects.deep_view() =~= old(effects).deep_view() + removed(
                old(work)@,
                reply@,
            ).1);
        }
    }

    /// A clause boundary crossed.
    fn move_clause(
        work: &mut Composition,
        direction: i32,
        reply: Candidates,
        effects: &mut Vec<Effect>,
    )
        ensures
            final(work)@ == clause_moved(old(work)@, direction, reply@).0,
            final(effects).deep_view() == old(effects).deep_view() + clause_moved(
                old(work)@,
                direction,
                reply@,
            ).1,
    {
        if direction > 0 {
            if work.suffix.as_str().is_empty() {
                assert(effects.deep_view() =~= old(effects).deep_view() + Seq::<
                    EffectView,
                >::empty());
                return ;
            }
            if reply.texts.len() == 0 {
                push_effect(effects, Effect::MoveCursor(MOVE_CURSOR_POP_CLAUSE_SNAPSHOT));
                show(work, true, effects);
                assert(effects.deep_view() =~= old(effects).deep_view() + (seq![
                    EffectView::MoveCursor(MOVE_CURSOR_POP_CLAUSE_SNAPSHOT),
                ] + shown(work@, true)));
                return ;
            }
            let saved = work.snapshot();
            let clause_preview = strip_prefix(work.preview.as_str(), work.fixed_prefix.as_str());
            let count: usize = if work.corresponding_count < 0 {
                0
            } else {
                work.corresponding_count as usize
            };
            work.clause_snapshots.push(saved);
            assert(work@.clause_snapshots =~= old(work)@.clause_snapshots.push(
                old(work)@.snapshot(),
            ));
            work.raw_input = drop_front(work.raw_input.as_str(), count);
            work.fixed_prefix.append(clause_preview.as_str());
            reselect(work, reply, 0, true, effects);
        } else if direction < 0 {
            match work.clause_snapshots.pop() {
                Some(saved) => {
                    assert(work@.clause_snapshots =~= old(work)@.clause_snapshots.drop_last());
                    assert(saved@ == old(work)@.clause_snapshots.last());
                    work.restore(saved);
                    push_effect(effects, Effect::MoveCursor(MOVE_CURSOR_POP_CLAUSE_SNAPSHOT));
                    show(work, true, effects);
                    assert(effects.deep_view() =~= old(effects).deep_view() + (seq![
                        EffectView::MoveCursor(MOVE_CURSOR_POP_CLAUSE_SNAPSHOT),
                    ] + shown(work@, true)));
                },
                None => {
                    assert(old(work)@.clause_snapshots.len() == 0);
                    assert(work@.clause_snapshots =~= old(work)@.clause_snapshots);
                    assert(effects.deep_view() =~= old(effects).deep_view() + Seq::<
                        EffectView,
                    >::empty());
                },
            }
        } else {
            assert(effects.deep_view() =~= old(effects).deep_view() + Seq::<EffectView>::empty());
        }
    }

    /// A clause boundary adjusted.
    fn adjust_boundary(
        work: &mut Composition,
        direction: i32,
        reply: Candidates,
        effects: &mut Vec<Effect>,
    )
        ensures
            final(work)@ == boundary_adjusted(old(work)@, direction, reply@).0,
            final(effects).deep_view() == old(effects).deep_view() + boundary_adjusted(
                old(work)@,
                direction,
                reply@,
            ).1,
    {
        if direction == 0 {
            assert(effects.deep_view() =~= old(effects).deep_view() + Seq::<EffectView>::empty());
            return ;
        }
        if reply.texts.len() == 0 {
            // At least one character stays left of the boundary: a move that ran
            // into the head of the text is taken back.
            if direction < 0 {
                push_effect(effects, Effect::MoveCursor(1));
                assert(effects.deep_view() =~= old(effects).deep_view() + seq![
                    EffectView::MoveCursor(1),
                ]);
            } else {
                assert(effects.deep_view() =~= old(effects).deep_view() + Seq::<
                    EffectView,
                >::empty());
            }
            return ;
        }
        reselect(work, reply, 0, true, effects);
    }

    /// The selection changed among the candidates at hand.
    fn set_selection(work: &mut Composition, selection: SetSelectionType, effects: &mut Vec<Effect>)
        ensures
            final(work)@ == selection_set(old(work)@, selection).0,
            final(effects).deep_view() == old(effects).deep_view() + selection_set(
                old(work)@,
                selection,
            ).1,
    {
        let desired: i32 = match selection {
            SetSelectionType::Up => if work.selection_index == i32::MIN {
                i32::MIN
            } else {
                work.selection_index - 1
            },
            SetSelectionType::Down => if work.selection_index == i32::MAX {
                i32::MAX
            } else {
                work.selection_index + 1
            },
            SetSelectionType::Number(number) => number,
        };
        match Self::select_candidate(&work.candidates, desired) {
            Some(selected) => {
                work.selection_index = selected.index;
                work.corresponding_count = selected.corresponding_count;
                work.preview = Self::merge_preview_with_prefix(
                    work.fixed_prefix.as_str(),
                    selected.text.as_str(),
                );
                work.suffix = selected.sub_text;
                work.raw_hiragana = selected.hiragana;
                push_effect(effects, Effect::SetSelection(work.selection_index));
                push_effect(effects, Effect::SetText(work.preview.clone(), work.suffix.clone()));
                assert(effects.deep_view() =~= old(effects).deep_view() + seq![
                    EffectView::SetSelection(work@.selection_index),
                    EffectView::SetText(work@.preview, work@.suffix),
                ]);
            },
            None => {
                assert(effects.deep_view() =~= old(effects).deep_view() + Seq::<
                    EffectView,
                >::empty());
            },
        }
    }

    /// The previewed clause committed and typing resumed.
    fn shrink(work: &mut Composition, text: &str, reply: Candidates, effects: &mut Vec<Effect>)
        ensures
            final(work)@ == shrunk(old(work)@, text@, reply@).0,
            final(effects).deep_view() == old(effects).deep_view() + shrunk(
                old(work)@,
                text@,
                reply@,
            ).1,
    {
        let count: usize = if work.corresponding_count < 0 {
            0
        } else {
            work.corresponding_count as usize
        };
        let typed = joined(work.raw_input.as_str(), text);
        work.fixed_prefix = String::new();
        clear_clause_snapshots(work);
        work.raw_input = drop_front(typed.as_str(), count);
        work.selection_index = 0;
        work.state = CompositionState::Composing;
        match Self::select_candidate(&reply, 0) {
            Some(selected) => {
                push_effect(effects, Effect::ShiftStart(work.preview.clone(), selected.text.clone()));
                push_effect(effects, Effect::SetCandidates(clone_texts(&reply.texts)));
                push_effect(effects, Effect::SetSelection(selected.index));
                push_effect(effects, Effect::UpdateCaretPosition);
                adopt(work, reply, selected);
                assert(effects.deep_view() =~= old(effects).deep_view() + shrunk(
                    old(work)@,
                    text@,
                    reply@,
                ).1);
            },
            None => {
                work.candidates = reply;
                assert(effects.deep_view() =~= old(effects).deep_view() + Seq::<
                    EffectView,
                >::empty());
            },
        }
    }

    /// The whole buffer in one script.
    fn script_text_of(work: &Composition, kind: SetTextType) -> (text: String)
        ensures
            text@ == script_text(work@, kind),
    {
        match kind {
            SetTextType::Hiragana => work.raw_hiragana.clone(),
            SetTextType::Katakana => to_katakana(work.raw_hiragana.as_str()),
            SetTextType::HalfKatakana => to_half_katakana(work.raw_hiragana.as_str()),
            SetTextType::FullLatin => to_fullwidth(work.raw_input.as_str(), true),
            SetTextType::HalfLatin => to_halfwidth(work.raw_input.as_str()),
        }
    }

    /// The input mode switched.
    fn switch_mode(work: &mut Composition, mode: InputMode, effects: &mut Vec<Effect>)
        ensures
            final(work)@ == mode_switched(old(work)@, mode).0,
            final(effects).deep_view() == old(effects).deep_view() + mode_switched(
                old(work)@,
                mode,
            ).1,
    {
        push_effect(effects, Effect::StartComposition);
        push_effect(effects, Effect::UpdateCaretPosition);
        push_effect(effects, Effect::EndComposition);
        push_effect(effects, Effect::SwitchInputMode(mode));
        push_effect(effects, Effect::UpdateModeIndicator);
        push_effect(effects, Effect::SetInputMode(mode.label()));
        clear(work);
        push_effect(effects, Effect::ClearText);
        assert(effects.deep_view() =~= old(effects).deep_view() + mode_switched(
            old(work)@,
            mode,
        ).1);
    }

    /// Applies one action to the working copy of the buffer, given the
    /// service's answer to the action's query, and returns the calls that
    /// are left for the host to make, in order.
    ///
    /// An action that plans no query does not read `reply`.
    pub fn handle_action(work: &mut Composition, action: &ClientAction, reply: Candidates) -> (effects:
        Vec<Effect>)
        ensures
            final(work)@ == applied(old(work)@, action@, reply@).0,
            effects.deep_view() == applied(old(work)@, action@, reply@).1,
            old(work)@.wf() && reply@.consistent() ==> final(work)@.wf(),
    {
        proof {
            if old(work)@.wf() && reply@.consistent() {
                law_applied_keeps_the_buffer_well_formed(old(work)@, action@, reply@);
            }
        }
        let mut effects = no_effects();
        match action {
            ClientAction::StartComposition => {
                push_effect(&mut effects, Effect::StartComposition);
                push_effect(&mut effects, Effect::UpdateCaretPosition);
                push_effect(&mut effects, Effect::ShowWindow);
                assert(effects.deep_view() =~= applied(old(work)@, action@, reply@).1);
            },
            ClientAction::EndComposition => {
                close(&mut effects);
                clear(work);
                assert(effects.deep_view() =~= closing());
            },
            ClientAction::AppendText(text) => {
                Self::append(work, text.as_str(), reply, &mut effects);
            },
            ClientAction::AppendTextRaw(text) => {
                Self::append(work, text.as_str(), reply, &mut effects);
            },
            ClientAction::RemoveText => {
                Self::remove(work, reply, &mut effects);
            },
            ClientAction::MoveCursor(_) => {
                let desired = work.selection_index;
                reselect(work, reply, desired, true, &mut effects);
            },
            ClientAction::MoveClause(direction) => {
                Self::move_clause(work, *direction, reply, &mut effects);
            },
            ClientAction::AdjustBoundary(direction) => {
                Self::adjust_boundary(work, *direction, reply, &mut effects);
            },
            ClientAction::SetIMEMode(mode) => {
                Self::switch_mode(work, *mode, &mut effects);
            },
            ClientAction::SetSelection(selection) => {
                Self::set_selection(work, *selection, &mut effects);
            },
            ClientAction::ShrinkText(text) => {
                Self::shrink(work, text.as_str(), reply, &mut effects);
            },
            ClientAction::ShrinkTextRaw(text) => {
                Self::shrink(work, text.as_str(), reply, &mut effects);
            },
            ClientAction::SetTextWithType(kind) => {
                let text = Self::script_text_of(work, *kind);
                push_effect(&mut effects, Effect::SetText(text, String::new()));
                assert(effects.deep_view() =~= applied(old(work)@, action@, reply@).1);
            },
            _ => {},
        }
        assert(effects.deep_view() =~= applied(old(work)@, action@, reply@).1);
        effects
    }
}

} // verus!
