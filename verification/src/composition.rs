//! The composition buffer and the state machine that turns a user action
//! into the edit actions to run and the state to enter.

use vstd::prelude::*;
use vstd::string::*;

use crate::client_action::{
    one_action, three_actions, two_actions, ClientAction, ClientActionView, SetSelectionType,
    SetTextType,
};
use crate::config::{AppConfig, GeneralConfig, NumpadInputMode, ShortcutConfig, SpaceInputMode};
use crate::input_mode::InputMode;
use crate::text::{
    char_text, clone_counts, clone_texts, decimal_notation, decimal_text, digit_char, digit_glyph,
    joined,
};
use crate::user_action::{
    classify, key_action, Function, KeyError, KeyEvent, LayoutLookup, Navigation, UserAction,
};

verus! {

/// Where the composition stands. `Selecting` is reserved: no transition
/// enters or leaves it.
#[derive(Debug, Clone, Copy, PartialEq, Eq, Structural)]
pub enum CompositionState {
    Idle,
    Composing,
    Previewing,
    Selecting,
}

impl Default for CompositionState {
    fn default() -> (state: Self)
        ensures
            state == CompositionState::Idle,
    {
        CompositionState::Idle
    }
}

/// The conversion options for the active clause, as parallel lists, with
/// the phonetic form of the input they were made from.
#[derive(Debug, Clone, PartialEq, Default)]
pub struct Candidates {
    pub texts: Vec<String>,
    pub sub_texts: Vec<String>,
    pub hiragana: String,
    pub corresponding_count: Vec<i32>,
}

/// A candidate set as plain sequences.
pub struct CandidatesView {
    pub texts: Seq<Seq<char>>,
    pub sub_texts: Seq<Seq<char>>,
    pub hiragana: Seq<char>,
    pub corresponding_count: Seq<i32>,
}

impl CandidatesView {
    /// The three lists run in parallel.
    pub open spec fn consistent(self) -> bool {
        self.texts.len() == self.sub_texts.len() && self.texts.len()
            == self.corresponding_count.len()
    }
}

impl View for Candidates {
    type V = CandidatesView;

    open spec fn view(&self) -> CandidatesView {
        CandidatesView {
            texts: self.texts.deep_view(),
            sub_texts: self.sub_texts.deep_view(),
            hiragana: self.hiragana@,
            corresponding_count: self.corresponding_count@,
        }
    }
}

impl CandidatesView {
    /// The candidate set without a candidate.
    pub open spec fn empty() -> CandidatesView {
        CandidatesView {
            texts: Seq::empty(),
            sub_texts: Seq::empty(),
            hiragana: Seq::empty(),
            corresponding_count: Seq::empty(),
        }
    }
}

impl Candidates {
    /// The candidate set without a candidate.
    pub fn new() -> (candidates: Candidates)
        ensures
            candidates@ == CandidatesView::empty(),
    {
        let candidates = Candidates {
            texts: Vec::new(),
            sub_texts: Vec::new(),
            hiragana: String::new(),
            corresponding_count: Vec::new(),
        };
        assert(candidates@.texts =~= Seq::empty());
        assert(candidates@.sub_texts =~= Seq::empty());
        candidates
    }

    /// Whether the three lists run in parallel.
    pub fn is_consistent(&self) -> (b: bool)
        ensures
            b == self@.consistent(),
    {
        self.texts.len() == self.sub_texts.len() && self.texts.len()
            == self.corresponding_count.len()
    }

    /// A copy of the candidate set.
    pub fn duplicate(&self) -> (copy: Candidates)
        ensures
            copy@ == self@,
    {
        Candidates {
            texts: clone_texts(&self.texts),
            sub_texts: clone_texts(&self.sub_texts),
            hiragana: self.hiragana.clone(),
            corresponding_count: clone_counts(&self.corresponding_count),
        }
    }
}

/// The buffer as it stood when a clause boundary was crossed forward.
#[derive(Debug, Clone, PartialEq)]
pub struct ClauseSnapshot {
    pub preview: String,
    pub suffix: String,
    pub raw_input: String,
    pub raw_hiragana: String,
    pub fixed_prefix: String,
    pub corresponding_count: i32,
    pub selection_index: i32,
    pub candidates: Candidates,
}

/// A clause snapshot as plain sequences.
pub struct ClauseSnapshotView {
    pub preview: Seq<char>,
    pub suffix: Seq<char>,
    pub raw_input: Seq<char>,
    pub raw_hiragana: Seq<char>,
    pub fixed_prefix: Seq<char>,
    pub corresponding_count: i32,
    pub selection_index: i32,
    pub candidates: CandidatesView,
}

impl View for ClauseSnapshot {
    type V = ClauseSnapshotView;

    open spec fn view(&self) -> ClauseSnapshotView {
        ClauseSnapshotView {
            preview: self.preview@,
            suffix: self.suffix@,
            raw_input: self.raw_input@,
            raw_hiragana: self.raw_hiragana@,
            fixed_prefix: self.fixed_prefix@,
            corresponding_count: self.corresponding_count,
            selection_index: self.selection_index,
            candidates: self.candidates@,
        }
    }
}

impl ClauseSnapshotView {
    /// The invariant of a saved clause, and of the buffer itself.
    pub open spec fn wf(self) -> bool {
        &&& self.candidates.consistent()
        &&& index_in_range(self.selection_index, self.candidates)
        &&& self.fixed_prefix.is_prefix_of(self.preview)
    }
}

impl DeepView for ClauseSnapshot {
    type V = ClauseSnapshotView;

    open spec fn deep_view(&self) -> ClauseSnapshotView {
        self@
    }
}

impl ClauseSnapshot {
    /// A copy of the snapshot.
    pub fn duplicate(&self) -> (copy: ClauseSnapshot)
        ensures
            copy@ == self@,
    {
        ClauseSnapshot {
            preview: self.preview.clone(),
            suffix: self.suffix.clone(),
            raw_input: self.raw_input.clone(),
            raw_hiragana: self.raw_hiragana.clone(),
            fixed_prefix: self.fixed_prefix.clone(),
            corresponding_count: self.corresponding_count,
            selection_index: self.selection_index,
            candidates: self.candidates.duplicate(),
        }
    }
}

/// The live edit buffer of one input session.
#[derive(Debug, Clone, PartialEq, Default)]
pub struct Composition {
    /// The converted text on display, fixed prefix included.
    pub preview: String,
    /// What the chosen candidate leaves unconverted, shown after the preview.
    pub suffix: String,
    /// The keystrokes of the active clause that await conversion.
    pub raw_input: String,
    /// The phonetic form of the chosen candidate.
    pub raw_hiragana: String,
    /// The previews of the clauses already passed, in order.
    pub fixed_prefix: String,
    /// How many raw characters the chosen candidate consumes.
    pub corresponding_count: i32,
    /// The index of the chosen candidate.
    pub selection_index: i32,
    pub candidates: Candidates,
    /// The clauses already passed, the most recent last.
    pub clause_snapshots: Vec<ClauseSnapshot>,
    pub state: CompositionState,
}

/// The composition buffer as plain sequences.
pub struct CompositionView {
    pub preview: Seq<char>,
    pub suffix: Seq<char>,
    pub raw_input: Seq<char>,
    pub raw_hiragana: Seq<char>,
    pub fixed_prefix: Seq<char>,
    pub corresponding_count: i32,
    pub selection_index: i32,
    pub candidates: CandidatesView,
    pub clause_snapshots: Seq<ClauseSnapshotView>,
    pub state: CompositionState,
}

impl View for Composition {
    type V = CompositionView;

    open spec fn view(&self) -> CompositionView {
        CompositionView {
            preview: self.preview@,
            suffix: self.suffix@,
            raw_input: self.raw_input@,
            raw_hiragana: self.raw_hiragana@,
            fixed_prefix: self.fixed_prefix@,
            corresponding_count: self.corresponding_count,
            selection_index: self.selection_index,
            candidates: self.candidates@,
            clause_snapshots: self.clause_snapshots.deep_view(),
            state: self.state,
        }
    }
}

/// Whether an index is a valid choice among `candidates`: inside the list,
/// and zero while the list is empty.
pub open spec fn index_in_range(index: i32, candidates: CandidatesView) -> bool {
    if candidates.texts.len() == 0 {
        index == 0
    } else {
        0 <= index < candidates.texts.len()
    }
}

impl CompositionView {
    /// The buffer of an idle session: every text empty, no candidates, no
    /// snapshots, state `Idle`.
    pub open spec fn idle() -> CompositionView {
        CompositionView {
            preview: Seq::empty(),
            suffix: Seq::empty(),
            raw_input: Seq::empty(),
            raw_hiragana: Seq::empty(),
            fixed_prefix: Seq::empty(),
            corresponding_count: 0,
            selection_index: 0,
            candidates: CandidatesView::empty(),
            clause_snapshots: Seq::empty(),
            state: CompositionState::Idle,
        }
    }

    /// The cleared buffer in the state `state`: every text empty, both
    /// counters zero, no candidates and no snapshots.
    pub open spec fn cleared(state: CompositionState) -> CompositionView {
        CompositionView { state, ..CompositionView::idle() }
    }

    /// The buffer's invariant, which holds here and of every snapshot: the
    /// lists of the candidate set run in parallel; the chosen index lies
    /// inside them, or is zero where there is no candidate; and the preview
    /// starts with the fixed prefix.
    pub open spec fn wf(self) -> bool {
        &&& self.snapshot().wf()
        &&& forall|i: int|
            0 <= i < self.clause_snapshots.len() ==> (#[trigger] self.clause_snapshots[i]).wf()
    }

    /// The snapshot that crossing a clause boundary forward would save.
    pub open spec fn snapshot(self) -> ClauseSnapshotView {
        ClauseSnapshotView {
            preview: self.preview,
            suffix: self.suffix,
            raw_input: self.raw_input,
            raw_hiragana: self.raw_hiragana,
            fixed_prefix: self.fixed_prefix,
            corresponding_count: self.corresponding_count,
            selection_index: self.selection_index,
            candidates: self.candidates,
        }
    }

    /// The buffer with every field that a snapshot holds taken from
    /// `saved`; the snapshot stack and the state are kept.
    pub open spec fn restored(self, saved: ClauseSnapshotView) -> CompositionView {
        CompositionView {
            preview: saved.preview,
            suffix: saved.suffix,
            raw_input: saved.raw_input,
            raw_hiragana: saved.raw_hiragana,
            fixed_prefix: saved.fixed_prefix,
            corresponding_count: saved.corresponding_count,
            selection_index: saved.selection_index,
            candidates: saved.candidates,
            ..self
        }
    }
}

impl Composition {
    /// The buffer of an idle session.
    pub fn new() -> (composition: Composition)
        ensures
            composition@ == CompositionView::idle(),
    {
        let composition = Composition {
            preview: String::new(),
            suffix: String::new(),
            raw_input: String::new(),
            raw_hiragana: String::new(),
            fixed_prefix: String::new(),
            corresponding_count: 0,
            selection_index: 0,
            candidates: Candidates::new(),
            clause_snapshots: Vec::new(),
            state: CompositionState::Idle,
        };
        assert(composition@.clause_snapshots =~= Seq::empty());
        composition
    }

    /// A copy of the buffer.
    pub fn duplicate(&self) -> (copy: Composition)
        ensures
            copy@ == self@,
    {
        let mut snapshots: Vec<ClauseSnapshot> = Vec::new();
        let mut i: usize = 0;
        while i < self.clause_snapshots.len()
            invariant
                i <= self.clause_snapshots.len(),
                snapshots.len() == i,
                forall|k: int| 0 <= k < i ==> (#[trigger] snapshots[k])@ == self.clause_snapshots[k]@,
            decreases self.clause_snapshots.len() - i,
        {
            snapshots.push(self.clause_snapshots[i].duplicate());
            i += 1;
        }
        assert(snapshots.deep_view() =~= self.clause_snapshots.deep_view());
        Composition {
            preview: self.preview.clone(),
            suffix: self.suffix.clone(),
            raw_input: self.raw_input.clone(),
            raw_hiragana: self.raw_hiragana.clone(),
            fixed_prefix: self.fixed_prefix.clone(),
            corresponding_count: self.corresponding_count,
            selection_index: self.selection_index,
            candidates: self.candidates.duplicate(),
            clause_snapshots: snapshots,
            state: self.state,
        }
    }

    /// Saves every buffer field but the stack and the state.
    pub fn snapshot(&self) -> (saved: ClauseSnapshot)
        ensures
            saved@ == self@.snapshot(),
    {
        ClauseSnapshot {
            preview: self.preview.clone(),
            suffix: self.suffix.clone(),
            raw_input: self.raw_input.clone(),
            raw_hiragana: self.raw_hiragana.clone(),
            fixed_prefix: self.fixed_prefix.clone(),
            corresponding_count: self.corresponding_count,
            selection_index: self.selection_index,
            candidates: self.candidates.duplicate(),
        }
    }

    /// Puts a saved clause back, field for field.
    pub fn restore(&mut self, saved: ClauseSnapshot)
        ensures
            final(self)@ == old(self)@.restored(saved@),
    {
        self.preview = saved.preview;
        self.suffix = saved.suffix;
        self.raw_input = saved.raw_input;
        self.raw_hiragana = saved.raw_hiragana;
        self.fixed_prefix = saved.fixed_prefix;
        self.corresponding_count = saved.corresponding_count;
        self.selection_index = saved.selection_index;
        self.candidates = saved.candidates;
    }
}

/// The candidate that a selection settles on.
#[derive(Debug, Clone, PartialEq)]
pub struct CandidateSelection {
    pub index: i32,
    pub text: String,
    pub sub_text: String,
    pub hiragana: String,
    pub corresponding_count: i32,
}

/// A selected candidate as plain sequences.
pub struct CandidateSelectionView {
    pub index: i32,
    pub text: Seq<char>,
    pub sub_text: Seq<char>,
    pub hiragana: Seq<char>,
    pub corresponding_count: i32,
}

impl View for CandidateSelection {
    type V = CandidateSelectionView;

    open spec fn view(&self) -> CandidateSelectionView {
        CandidateSelectionView {
            index: self.index,
            text: self.text@,
            sub_text: self.sub_text@,
            hiragana: self.hiragana@,
            corresponding_count: self.corresponding_count,
        }
    }
}

/// The index nearest to `desired` among `count` candidates.
pub open spec fn clamped_index(desired: int, count: int) -> int
    recommends
        count > 0,
{
    if desired < 0 {
        0
    } else if desired >= count {
        count - 1
    } else {
        desired
    }
}

/// The candidate that a wish for index `desired` settles on: none where
/// there are no candidates, else the one at the nearest valid index. A
/// list that is shorter than the list of texts gives the empty text, or a
/// count of zero, in place of what it lacks.
pub open spec fn selected_candidate(candidates: CandidatesView, desired: int) -> Option<
    CandidateSelectionView,
> {
    if candidates.texts.len() == 0 {
        None
    } else {
        let index = clamped_index(desired, candidates.texts.len() as int);
        Some(
            CandidateSelectionView {
                index: index as i32,
                text: candidates.texts[index],
                sub_text: if index < candidates.sub_texts.len() {
                    candidates.sub_texts[index]
                } else {
                    Seq::empty()
                },
                hiragana: candidates.hiragana,
                corresponding_count: if index < candidates.corresponding_count.len() {
                    candidates.corresponding_count[index]
                } else {
                    0
                },
            },
        )
    }
}

/// The view of an optional selection.
pub open spec fn selection_view(selection: Option<CandidateSelection>) -> Option<
    CandidateSelectionView,
> {
    match selection {
        Some(selected) => Some(selected@),
        None => None,
    }
}

/// The full-width form of an ASCII character outside the letters: the
/// ideographic space for the space, the glyph `0xFEE0` code points up for a
/// digit or a punctuation mark, and the character itself otherwise.
pub open spec fn fullwidth_ascii(c: char) -> char {
    let code = c as int;
    if c == ' ' {
        '\u{3000}'
    } else if (0x21 <= code <= 0x2F) || (0x30 <= code <= 0x39) || (0x3A <= code <= 0x40) || (0x5B
        <= code <= 0x60) || (0x7B <= code <= 0x7E) {
        (code + 0xFEE0) as char
    } else {
        c
    }
}

/// The ASCII form of a full-width character: the space for the
/// ideographic space, the character `0xFEE0` code points down for the
/// full-width forms `U+FF01` to `U+FF5E`, and the character itself
/// otherwise.
pub open spec fn halfwidth_ascii(c: char) -> char {
    let code = c as int;
    if c == '\u{3000}' {
        ' '
    } else if 0xFF01 <= code <= 0xFF5E {
        (code - 0xFEE0) as char
    } else {
        c
    }
}

/// What a numeric-keypad key writes under the keypad mode: nothing where
/// the mode is direct input and the key may pass through untouched, the
/// half-width form under "always half" (and under direct input where the
/// key may not pass through), the full-width form under "follow".
pub open spec fn numpad_text(c: char, mode: NumpadInputMode, allow_direct_passthrough: bool)
    -> Option<Seq<char>> {
    match mode {
        NumpadInputMode::DirectInput => if allow_direct_passthrough {
            None
        } else {
            Some(seq![halfwidth_ascii(c)])
        },
        NumpadInputMode::AlwaysHalf => Some(seq![halfwidth_ascii(c)]),
        NumpadInputMode::FollowInputMode => Some(seq![fullwidth_ascii(c)]),
    }
}

/// What a numeric-keypad key writes inside a composition, where it may not
/// pass through.
pub open spec fn numpad_text_inside(c: char, mode: NumpadInputMode) -> Seq<char> {
    match mode {
        NumpadInputMode::FollowInputMode => seq![fullwidth_ascii(c)],
        _ => seq![halfwidth_ascii(c)],
    }
}

/// The digit that a number key stands for.
pub open spec fn number_glyph(value: i8) -> char {
    if 0 <= value <= 9 {
        digit_glyph(value as int)
    } else {
        '0'
    }
}

/// The space that the space key writes: half-width where the mode says
/// "always half", full-width otherwise, and the other one with shift held.
pub open spec fn space_text(mode: SpaceInputMode, shift_pressed: bool) -> Seq<char> {
    if (mode == SpaceInputMode::AlwaysHalf) != shift_pressed {
        seq![' ']
    } else {
        seq!['\u{3000}']
    }
}

/// The outcome of committing the current clause: the composition ends
/// where the chosen candidate leaves nothing over; else the clause is
/// shrunk away and composing goes on with what it left.
pub open spec fn commit_current_clause(composition: CompositionView) -> (
    CompositionState,
    Seq<ClientActionView>,
) {
    if composition.suffix.len() == 0 {
        (CompositionState::Idle, seq![ClientActionView::EndComposition])
    } else {
        (CompositionState::Composing, seq![ClientActionView::ShrinkText(Seq::empty())])
    }
}

/// The outcome of committing the first clause: one step back for every
/// saved clause, then the end-or-shrink decision taken on the earliest
/// clause's suffix (the current one where no clause was saved).
pub open spec fn commit_first_clause(composition: CompositionView) -> (
    CompositionState,
    Seq<ClientActionView>,
) {
    let back = Seq::new(
        composition.clause_snapshots.len(),
        |i: int| ClientActionView::MoveClause(-1i32),
    );
    let first_suffix = if composition.clause_snapshots.len() > 0 {
        composition.clause_snapshots[0].suffix
    } else {
        composition.suffix
    };
    if first_suffix.len() == 0 {
        (CompositionState::Idle, back.push(ClientActionView::EndComposition))
    } else {
        (CompositionState::Composing, back.push(ClientActionView::ShrinkText(Seq::empty())))
    }
}

/// The edit action that carries typed text: appended while composing, and
/// replacing the previewed clause while previewing.
pub open spec fn text_action(previewing: bool, raw: bool, text: Seq<char>) -> ClientActionView {
    if previewing {
        if raw {
            ClientActionView::ShrinkTextRaw(text)
        } else {
            ClientActionView::ShrinkText(text)
        }
    } else {
        if raw {
            ClientActionView::AppendTextRaw(text)
        } else {
            ClientActionView::AppendText(text)
        }
    }
}

/// The script that a function key asks for.
pub open spec fn function_script(key: Function) -> SetTextType {
    match key {
        Function::Six => SetTextType::Hiragana,
        Function::Seven => SetTextType::Katakana,
        Function::Eight => SetTextType::HalfKatakana,
        Function::Nine => SetTextType::FullLatin,
        Function::Ten => SetTextType::HalfLatin,
    }
}

/// The rows of the transition table for the state `Idle`. Only typed
/// characters, digits and the space, all in kana mode, and the three mode
/// keys act; every other action is left to the host.
pub open spec fn idle_transition(
    mode: InputMode,
    action: UserAction,
    general: GeneralConfig,
    shift_pressed: bool,
) -> Option<(CompositionState, Seq<ClientActionView>)> {
    let kana = mode == InputMode::Kana;
    match action {
        UserAction::NumpadSymbol(symbol) => if kana {
            match numpad_text(symbol, general.numpad_input, true) {
                Some(text) => Some(
                    (
                        CompositionState::Composing,
                        seq![
                            ClientActionView::StartComposition,
                            ClientActionView::AppendTextRaw(text),
                        ],
                    ),
                ),
                None => None,
            }
        } else {
            None
        },
        UserAction::Input(c) => if kana {
            Some(
                (
                    CompositionState::Composing,
                    seq![
                        ClientActionView::StartComposition,
                        ClientActionView::AppendText(seq![c]),
                    ],
                ),
            )
        } else {
            None
        },
        UserAction::Number { value, is_numpad } => if !kana {
            None
        } else if is_numpad {
            match numpad_text(number_glyph(value), general.numpad_input, true) {
                Some(text) => Some(
                    (
                        CompositionState::Composing,
                        seq![
                            ClientActionView::StartComposition,
                            ClientActionView::AppendTextRaw(text),
                        ],
                    ),
                ),
                None => None,
            }
        } else {
            Some(
                (
                    CompositionState::Composing,
                    seq![
                        ClientActionView::StartComposition,
                        ClientActionView::AppendText(decimal_notation(value as int)),
                    ],
                ),
            )
        },
        UserAction::Space => if kana {
            Some(
                (
                    CompositionState::Idle,
                    seq![
                        ClientActionView::StartComposition,
                        ClientActionView::AppendText(space_text(general.space_input, shift_pressed)),
                        ClientActionView::EndComposition,
                    ],
                ),
            )
        } else {
            None
        },
        UserAction::ToggleInputMode => Some(
            (
                CompositionState::Idle,
                seq![
                    ClientActionView::SetIMEMode(
                        if kana {
                            InputMode::Latin
                        } else {
                            InputMode::Kana
                        },
                    ),
                ],
            ),
        ),
        UserAction::InputModeOn => Some(
            (CompositionState::Idle, seq![ClientActionView::SetIMEMode(InputMode::Kana)]),
        ),
        UserAction::InputModeOff => Some(
            (CompositionState::Idle, seq![ClientActionView::SetIMEMode(InputMode::Latin)]),
        ),
        _ => None,
    }
}

/// The rows of the transition table for `Composing` and `Previewing`,
/// which differ in two places only: typed text is appended while composing
/// and replaces the previewed clause while previewing, and a boundary
/// adjustment keeps the state it was made in.
pub open spec fn active_transition(
    composition: CompositionView,
    mode: InputMode,
    action: UserAction,
    general: GeneralConfig,
) -> Option<(CompositionState, Seq<ClientActionView>)> {
    let kana = mode == InputMode::Kana;
    let previewing = composition.state == CompositionState::Previewing;
    match action {
        UserAction::NumpadSymbol(symbol) => if kana {
            Some(
                (
                    CompositionState::Composing,
                    seq![text_action(previewing, true, numpad_text_inside(symbol, general.numpad_input))],
                ),
            )
        } else {
            None
        },
        UserAction::Input(c) => Some(
            (CompositionState::Composing, seq![text_action(previewing, false, seq![c])]),
        ),
        UserAction::Number { value, is_numpad } => if is_numpad && kana {
            Some(
                (
                    CompositionState::Composing,
                    seq![
                        text_action(
                            previewing,
                            true,
                            numpad_text_inside(number_glyph(value), general.numpad_input),
                        ),
                    ],
                ),
            )
        } else {
            Some(
                (
                    CompositionState::Composing,
                    seq![text_action(previewing, false, decimal_notation(value as int))],
                ),
            )
        },
        UserAction::Backspace => if composition.raw_input.len() <= 1 {
            Some(
                (
                    CompositionState::Idle,
                    seq![ClientActionView::RemoveText, ClientActionView::EndComposition],
                ),
            )
        } else {
            Some((CompositionState::Composing, seq![ClientActionView::RemoveText]))
        },
        UserAction::Enter | UserAction::CommitAndNextClause => Some(
            commit_current_clause(composition),
        ),
        UserAction::CommitFirstClause => Some(commit_first_clause(composition)),
        UserAction::AdjustClauseBoundary(direction) => Some(
            (composition.state, seq![ClientActionView::AdjustBoundary(direction)]),
        ),
        UserAction::Escape => Some(
            (
                CompositionState::Idle,
                seq![ClientActionView::RemoveText, ClientActionView::EndComposition],
            ),
        ),
        UserAction::Navigation(direction) => Some(
            match direction {
                Navigation::Right => (
                    CompositionState::Composing,
                    seq![ClientActionView::MoveClause(1i32)],
                ),
                Navigation::Left => (
                    CompositionState::Composing,
                    seq![ClientActionView::MoveClause(-1i32)],
                ),
                Navigation::Up => (
                    CompositionState::Previewing,
                    seq![ClientActionView::SetSelection(SetSelectionType::Up)],
                ),
                Navigation::Down => (
                    CompositionState::Previewing,
                    seq![ClientActionView::SetSelection(SetSelectionType::Down)],
                ),
            },
        ),
        UserAction::ToggleInputMode | UserAction::InputModeOff => Some(
            (
                CompositionState::Idle,
                seq![
                    ClientActionView::EndComposition,
                    ClientActionView::SetIMEMode(InputMode::Latin),
                ],
            ),
        ),
        UserAction::InputModeOn => Some(
            (
                CompositionState::Idle,
                seq![
                    ClientActionView::EndComposition,
                    ClientActionView::SetIMEMode(InputMode::Kana),
                ],
            ),
        ),
        UserAction::Space | UserAction::Tab => Some(
            (
                CompositionState::Previewing,
                seq![ClientActionView::SetSelection(SetSelectionType::Down)],
            ),
        ),
        UserAction::Function(key) => Some(
            (
                CompositionState::Previewing,
                seq![ClientActionView::SetTextWithType(function_script(key))],
            ),
        ),
        UserAction::Unknown => None,
    }
}

/// The transition table: the state to enter and the actions to run, or
/// `None` where the table has no row and the input is left to the host.
pub open spec fn transition(
    composition: CompositionView,
    mode: InputMode,
    action: UserAction,
    general: GeneralConfig,
    shift_pressed: bool,
) -> Option<(CompositionState, Seq<ClientActionView>)> {
    match composition.state {
        CompositionState::Idle => idle_transition(mode, action, general, shift_pressed),
        CompositionState::Composing | CompositionState::Previewing => active_transition(
            composition,
            mode,
            action,
            general,
        ),
        CompositionState::Selecting => None,
    }
}

/// The view of a transition's outcome.
pub open spec fn transition_view(outcome: Option<(CompositionState, Vec<ClientAction>)>) -> Option<
    (CompositionState, Seq<ClientActionView>),
> {
    match outcome {
        Some((state, actions)) => Some((state, actions.deep_view())),
        None => None,
    }
}

/// What a key press asks of the executor: the actions and the state to
/// enter, nothing for a key that is left to the host, or the failure of
/// the layout lookup.
pub open spec fn key_outcome(
    composition: CompositionView,
    mode: InputMode,
    key: KeyEvent,
    lookup: LayoutLookup,
    shortcuts: ShortcutConfig,
    general: GeneralConfig,
) -> Result<Option<(Seq<ClientActionView>, CompositionState)>, KeyError> {
    match key_action(key, shortcuts, lookup) {
        Err(error) => Err(error),
        Ok(None) => Ok(None),
        Ok(Some(action)) => match transition(composition, mode, action, general, key.shift_pressed) {
            Some((state, actions)) => Ok(Some((actions, state))),
            None => Ok(None),
        },
    }
}

/// The view of what `process_key` returns.
pub open spec fn key_outcome_view(
    outcome: Result<Option<(Vec<ClientAction>, CompositionState)>, KeyError>,
) -> Result<Option<(Seq<ClientActionView>, CompositionState)>, KeyError> {
    match outcome {
        Err(error) => Err(error),
        Ok(None) => Ok(None),
        Ok(Some((actions, state))) => Ok(Some((actions.deep_view(), state))),
    }
}

/// The controller of one input session: it owns the composition buffer
/// and knows the ambient input mode.
#[derive(Debug, Clone, PartialEq)]
pub struct TextServiceFactory {
    pub composition: Composition,
    pub input_mode: InputMode,
}

impl TextServiceFactory {
    /// The full-width form of an ASCII digit, punctuation mark or space.
    pub fn to_fullwidth_ascii_char(c: char) -> (out: char)
        ensures
            out == fullwidth_ascii(c),
    {
        if c == ' ' {
            return '\u{3000}';
        }
        let code = c as u32;
        if (0x21 <= code && code <= 0x40) || (0x5B <= code && code <= 0x60) || (0x7B <= code && code
            <= 0x7E) {
            match char::from_u32(code + 0xFEE0) {
                Some(wide) => wide,
                None => c,
            }
        } else {
            c
        }
    }

    /// The ASCII form of a full-width character.
    pub fn to_halfwidth_ascii_char(c: char) -> (out: char)
        ensures
            out == halfwidth_ascii(c),
    {
        if c == '\u{3000}' {
            return ' ';
        }
        let code = c as u32;
        if 0xFF01 <= code && code <= 0xFF5E {
            match char::from_u32(code - 0xFEE0) {
                Some(narrow) => narrow,
                None => c,
            }
        } else {
            c
        }
    }

    /// What a numeric-keypad key writes under the keypad mode.
    pub fn numpad_text_for_mode(c: char, mode: NumpadInputMode, allow_direct_passthrough: bool)
        -> (text: Option<String>)
        ensures
            match text {
                Some(t) => numpad_text(c, mode, allow_direct_passthrough) == Some(t@),
                None => numpad_text(c, mode, allow_direct_passthrough) is None,
            },
    {
        match mode {
            NumpadInputMode::DirectInput => {
                if allow_direct_passthrough {
                    None
                } else {
                    Some(char_text(Self::to_halfwidth_ascii_char(c)))
                }
            },
            NumpadInputMode::AlwaysHalf => Some(char_text(Self::to_halfwidth_ascii_char(c))),
            NumpadInputMode::FollowInputMode => Some(char_text(Self::to_fullwidth_ascii_char(c))),
        }
    }

    /// Settles a wish for the candidate at `desired_index`.
    pub fn select_candidate(candidates: &Candidates, desired_index: i32) -> (selection: Option<
        CandidateSelection,
    >)
        ensures
            selection_view(selection) == selected_candidate(candidates@, desired_index as int),
            selection is Some <==> candidates@.texts.len() > 0,
            selection matches Some(selected) ==> 0 <= selected.index < candidates@.texts.len()
                && selected.index == clamped_index(
                desired_index as int,
                candidates@.texts.len() as int,
            ),
    {
        if candidates.texts.len() == 0 {
            return None;
        }
        let max_index = candidates.texts.len() - 1;
        let wanted: usize = if desired_index < 0 {
            0
        } else {
            desired_index as usize
        };
        let index: usize = if wanted > max_index {
            max_index
        } else {
            wanted
        };
        let sub_text = if index < candidates.sub_texts.len() {
            candidates.sub_texts[index].clone()
        } else {
            String::new()
        };
        let corresponding_count = if index < candidates.corresponding_count.len() {
            candidates.corresponding_count[index]
        } else {
            0
        };
        Some(
            CandidateSelection {
                index: index as i32,
                text: candidates.texts[index].clone(),
                sub_text,
                hiragana: candidates.hiragana.clone(),
                corresponding_count,
            },
        )
    }

    /// The preview of a clause behind the clauses already passed.
    pub fn merge_preview_with_prefix(fixed_prefix: &str, clause_preview: &str) -> (preview: String)
        ensures
            preview@ == fixed_prefix@ + clause_preview@,
    {
        if fixed_prefix.is_empty() {
            let preview = String::from_str(clause_preview);
            assert(preview@ =~= fixed_prefix@ + clause_preview@);
            preview
        } else {
            joined(fixed_prefix, clause_preview)
        }
    }

    /// Decides what committing the current clause does.
    pub fn commit_current_clause_actions(composition: &Composition) -> (outcome: (
        CompositionState,
        Vec<ClientAction>,
    ))
        ensures
            (outcome.0, outcome.1.deep_view()) == commit_current_clause(composition@),
    {
        if composition.suffix.as_str().is_empty() {
            (CompositionState::Idle, one_action(ClientAction::EndComposition))
        } else {
            (CompositionState::Composing, one_action(ClientAction::ShrinkText(String::new())))
        }
    }

    /// Decides what committing the first clause does.
    pub fn commit_first_clause_actions(composition: &Composition) -> (outcome: (
        CompositionState,
        Vec<ClientAction>,
    ))
        ensures
            (outcome.0, outcome.1.deep_view()) == commit_first_clause(composition@),
    {
        let mut actions: Vec<ClientAction> = Vec::new();
        let count = composition.clause_snapshots.len();
        let mut i: usize = 0;
        while i < count
            invariant
                i <= count,
                actions.len() == i,
                forall|k: int|
                    0 <= k < i ==> (#[trigger] actions[k])@ == ClientActionView::MoveClause(-1i32),
            decreases count - i,
        {
            actions.push(ClientAction::MoveClause(-1));
            i += 1;
        }
        assert(actions.deep_view() =~= Seq::new(
            count as nat,
            |k: int| ClientActionView::MoveClause(-1i32),
        ));
        let ghost back = actions.deep_view();
        let first_suffix_is_empty = if count > 0 {
            composition.clause_snapshots[0].suffix.as_str().is_empty()
        } else {
            composition.suffix.as_str().is_empty()
        };
        if first_suffix_is_empty {
            actions.push(ClientAction::EndComposition);
            assert(actions.deep_view() =~= back.push(ClientActionView::EndComposition));
            (CompositionState::Idle, actions)
        } else {
            actions.push(ClientAction::ShrinkText(String::new()));
            assert(actions.deep_view() =~= back.push(
                ClientActionView::ShrinkText(Seq::empty()),
            ));
            (CompositionState::Composing, actions)
        }
    }

    /// The edit action that carries the typed `text`.
    fn text_action_for(previewing: bool, raw: bool, text: String) -> (action: ClientAction)
        ensures
            action@ == text_action(previewing, raw, text@),
    {
        if previewing {
            if raw {
                ClientAction::ShrinkTextRaw(text)
            } else {
                ClientAction::ShrinkText(text)
            }
        } else {
            if raw {
                ClientAction::AppendTextRaw(text)
            } else {
                ClientAction::AppendText(text)
            }
        }
    }

    /// What a numeric-keypad key writes inside a composition.
    fn numpad_text_inside_for(c: char, mode: NumpadInputMode) -> (text: String)
        ensures
            text@ == numpad_text_inside(c, mode),
    {
        match Self::numpad_text_for_mode(c, mode, false) {
            Some(text) => text,
            None => char_text(c),
        }
    }

    /// The rows of the table for the state `Idle`.
    fn idle_actions(
        mode: InputMode,
        action: UserAction,
        general: &GeneralConfig,
        shift_pressed: bool,
    ) -> (outcome: Option<(CompositionState, Vec<ClientAction>)>)
        ensures
            transition_view(outcome) == idle_transition(mode, action, *general, shift_pressed),
    {
        let kana = mode == InputMode::Kana;
        match action {
            UserAction::NumpadSymbol(symbol) => {
                if !kana {
                    return None;
                }
                match Self::numpad_text_for_mode(symbol, general.numpad_input, true) {
                    Some(text) => Some(
                        (
                            CompositionState::Composing,
                            two_actions(
                                ClientAction::StartComposition,
                                ClientAction::AppendTextRaw(text),
                            ),
                        ),
                    ),
                    None => None,
                }
            },
            UserAction::Input(c) => {
                if !kana {
                    return None;
                }
                Some(
                    (
                        CompositionState::Composing,
                        two_actions(
                            ClientAction::StartComposition,
                            ClientAction::AppendText(char_text(c)),
                        ),
                    ),
                )
            },
            UserAction::Number { value, is_numpad } => {
                if !kana {
                    return None;
                }
                if is_numpad {
                    let digit = digit_char(value);
                    match Self::numpad_text_for_mode(digit, general.numpad_input, true) {
                        Some(text) => Some(
                            (
                                CompositionState::Composing,
                                two_actions(
                                    ClientAction::StartComposition,
                                    ClientAction::AppendTextRaw(text),
                                ),
                            ),
                        ),
                        None => None,
                    }
                } else {
                    Some(
                        (
                            CompositionState::Composing,
                            two_actions(
                                ClientAction::StartComposition,
                                ClientAction::AppendText(decimal_text(value)),
                            ),
                        ),
                    )
                }
            },
            UserAction::Space => {
                if !kana {
                    return None;
                }
                let mut use_halfwidth = match general.space_input {
                    SpaceInputMode::AlwaysHalf => true,
                    SpaceInputMode::FollowInputMode => false,
                };
                if shift_pressed {
                    use_halfwidth = !use_halfwidth;
                }
                let space = if use_halfwidth {
                    char_text(' ')
                } else {
                    char_text('\u{3000}')
                };
                Some(
                    (
                        CompositionState::Idle,
                        three_actions(
                            ClientAction::StartComposition,
                            ClientAction::AppendText(space),
                            ClientAction::EndComposition,
                        ),
                    ),
                )
            },
            UserAction::ToggleInputMode => {
                let target = match mode {
                    InputMode::Kana => InputMode::Latin,
                    InputMode::Latin => InputMode::Kana,
                };
                Some((CompositionState::Idle, one_action(ClientAction::SetIMEMode(target))))
            },
            UserAction::InputModeOn => Some(
                (CompositionState::Idle, one_action(ClientAction::SetIMEMode(InputMode::Kana))),
            ),
            UserAction::InputModeOff => Some(
                (CompositionState::Idle, one_action(ClientAction::SetIMEMode(InputMode::Latin))),
            ),
            _ => None,
        }
    }

    /// The rows of the table for `Composing` and `Previewing`.
    fn active_actions(
        composition: &Composition,
        mode: InputMode,
        action: UserAction,
        general: &GeneralConfig,
    ) -> (outcome: Option<(CompositionState, Vec<ClientAction>)>)
        ensures
            transition_view(outcome) == active_transition(composition@, mode, action, *general),
    {
        let kana = mode == InputMode::Kana;
        let previewing = composition.state == CompositionState::Previewing;
        match action {
            UserAction::NumpadSymbol(symbol) => {
                if !kana {
                    return None;
                }
                let text = Self::numpad_text_inside_for(symbol, general.numpad_input);
                Some(
                    (
                        CompositionState::Composing,
                        one_action(Self::text_action_for(previewing, true, text)),
                    ),
                )
            },
            UserAction::Input(c) => Some(
                (
                    CompositionState::Composing,
                    one_action(Self::text_action_for(previewing, false, char_text(c))),
                ),
            ),
            UserAction::Number { value, is_numpad } => {
                if is_numpad && kana {
                    let digit = digit_char(value);
                    let text = Self::numpad_text_inside_for(digit, general.numpad_input);
                    Some(
                        (
                            CompositionState::Composing,
                            one_action(Self::text_action_for(previewing, true, text)),
                        ),
                    )
                } else {
                    Some(
                        (
                            CompositionState::Composing,
                            one_action(
                                Self::text_action_for(previewing, false, decimal_text(value)),
                            ),
                        ),
                    )
                }
            },
            UserAction::Backspace => {
                // The preview may be shorter or longer than what was typed, so the
                // end of the composition goes by the raw input that is left.
                if composition.raw_input.as_str().unicode_len() <= 1 {
                    Some(
                        (
                            CompositionState::Idle,
                            two_actions(ClientAction::RemoveText, ClientAction::EndComposition),
                        ),
                    )
                } else {
                    Some((CompositionState::Composing, one_action(ClientAction::RemoveText)))
                }
            },
            UserAction::Enter | UserAction::CommitAndNextClause => Some(
                Self::commit_current_clause_actions(composition),
            ),
            UserAction::CommitFirstClause => Some(Self::commit_first_clause_actions(composition)),
            UserAction::AdjustClauseBoundary(direction) => Some(
                (composition.state, one_action(ClientAction::AdjustBoundary(direction))),
            ),
            UserAction::Escape => Some(
                (
                    CompositionState::Idle,
                    two_actions(ClientAction::RemoveText, ClientAction::EndComposition),
                ),
            ),
            UserAction::Navigation(direction) => Some(
                match direction {
                    Navigation::Right => (
                        CompositionState::Composing,
                        one_action(ClientAction::MoveClause(1)),
                    ),
                    Navigation::Left => (
                        CompositionState::Composing,
                        one_action(ClientAction::MoveClause(-1)),
                    ),
                    Navigation::Up => (
                        CompositionState::Previewing,
                        one_action(ClientAction::SetSelection(SetSelectionType::Up)),
                    ),
                    Navigation::Down => (
                        CompositionState::Previewing,
                        one_action(ClientAction::SetSelection(SetSelectionType::Down)),
                    ),
                },
            ),
            UserAction::ToggleInputMode | UserAction::InputModeOff => Some(
                (
                    CompositionState::Idle,
                    two_actions(
                        ClientAction::EndComposition,
                        ClientAction::SetIMEMode(InputMode::Latin),
                    ),
                ),
            ),
            UserAction::InputModeOn => Some(
                (
                    CompositionState::Idle,
                    two_actions(
                        ClientAction::EndComposition,
                        ClientAction::SetIMEMode(InputMode::Kana),
                    ),
                ),
            ),
            UserAction::Space | UserAction::Tab => Some(
                (
                    CompositionState::Previewing,
                    one_action(ClientAction::SetSelection(SetSelectionType::Down)),
                ),
            ),
            UserAction::Function(key) => {
                let script = match key {
                    Function::Six => SetTextType::Hiragana,
                    Function::Seven => SetTextType::Katakana,
                    Function::Eight => SetTextType::HalfKatakana,
                    Function::Nine => SetTextType::FullLatin,
                    Function::Ten => SetTextType::HalfLatin,
                };
                Some(
                    (CompositionState::Previewing, one_action(ClientAction::SetTextWithType(script))),
                )
            },
            UserAction::Unknown => None,
        }
    }

    /// Looks the transition table up: the state to enter and the actions to
    /// run for `action`, or `None` where the input is left to the host.
    pub fn transition(
        composition: &Composition,
        mode: InputMode,
        action: UserAction,
        general: &GeneralConfig,
        shift_pressed: bool,
    ) -> (outcome: Option<(CompositionState, Vec<ClientAction>)>)
        ensures
            transition_view(outcome) == transition(
                composition@,
                mode,
                action,
                *general,
                shift_pressed,
            ),
    {
        match composition.state {
            CompositionState::Idle => Self::idle_actions(mode, action, general, shift_pressed),
            CompositionState::Composing | CompositionState::Previewing => Self::active_actions(
                composition,
                mode,
                action,
                general,
            ),
            CompositionState::Selecting => None,
        }
    }

    /// Turns a key press into the actions to run and the state to enter.
    ///
    /// `lookup` is the keyboard layout's answer for the key; it is read
    /// only where the key's class is `FromLayout`.
    pub fn process_key(&self, key: &KeyEvent, lookup: LayoutLookup, config: &AppConfig) -> (outcome:
        Result<Option<(Vec<ClientAction>, CompositionState)>, KeyError>)
        ensures
            key_outcome_view(outcome) == key_outcome(
                self.composition@,
                self.input_mode,
                *key,
                lookup,
                config.shortcuts,
                config.general,
            ),
    {
        let action = match classify(key, &config.shortcuts, lookup) {
            Err(error) => {
                return Err(error);
            },
            Ok(None) => {
                return Ok(None);
            },
            Ok(Some(action)) => action,
        };
        match Self::transition(
            &self.composition,
            self.input_mode,
            action,
            &config.general,
            key.shift_pressed,
        ) {
            Some((state, actions)) => Ok(Some((actions, state))),
            None => Ok(None),
        }
    }
}

} // verus!
