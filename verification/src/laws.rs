//! Laws of the engine: what holds of every buffer, every reply of the
//! candidate service and every configuration.

use vstd::prelude::*;

use crate::client_action::ClientActionView;
use crate::composition::{
    index_in_range, selected_candidate, transition, CandidatesView, CompositionState,
    CompositionView,
};
use crate::config::{CharacterWidthConfigView, GeneralConfig, RomajiRuleView, ShortcutConfig};
use crate::executor::{
    applied, batch_applied, begun, consumed, desired_index, planned, reselected, EffectView,
    PlanView,
};
use crate::full_width::{
    basic_setting, fullwidth_char, halfwidth_char, is_ascii_punctuation, kana_symbol,
    legacy_fullwidth, legacy_halfwidth, normalized_key, romaji_override,
    width_group_char_from_key,
};
use crate::input_mode::InputMode;
use crate::text::{without_front, without_last, without_prefix};
use crate::user_action::{key_class, KeyClass, KeyEvent, UserAction, VK_SPACE};

verus! {

/// The two fixed tables mirror each other: the table of full-width glyphs
/// writes the mark `key` as `glyph` exactly if the table of marks reads
/// `glyph` as `key`. In particular no two marks share a glyph.
pub proof fn law_legacy_tables_mirror(key: char, glyph: char)
    ensures
        legacy_fullwidth(key) == Some(glyph) <==> legacy_halfwidth(glyph) == Some(key),
{
}

/// Turning a character full-width (letters left alone) and half-width
/// again gives the character back, for every character that is not itself
/// a glyph of the fixed table; the 32 marks of the table are of that kind.
pub proof fn law_halfwidth_undoes_fullwidth_char(c: char)
    ensures
        legacy_halfwidth(c) is None ==> halfwidth_char(fullwidth_char(c, false)) == c,
        is_ascii_punctuation(c) ==> halfwidth_char(fullwidth_char(c, false)) == c,
{
    if legacy_fullwidth(c) is Some {
        law_legacy_tables_mirror(c, legacy_fullwidth(c)->0);
    }
}

/// Turning a text full-width (letters left alone) and half-width again
/// gives the text back, for every text that holds no glyph of the fixed
/// table.
pub proof fn law_halfwidth_undoes_fullwidth(s: Seq<char>)
    requires
        forall|i: int| 0 <= i < s.len() ==> legacy_halfwidth(#[trigger] s[i]) is None,
    ensures
        s.map_values(|c: char| fullwidth_char(c, false)).map_values(|c: char| halfwidth_char(c))
            == s,
{
    let wide = s.map_values(|c: char| fullwidth_char(c, false));
    let back = wide.map_values(|c: char| halfwidth_char(c));
    assert forall|i: int| 0 <= i < s.len() implies back[i] == s[i] by {
        law_halfwidth_undoes_fullwidth_char(s[i]);
    }
    assert(back =~= s);
}

/// A romaji rule wins outright: where a rule overrides the key of a typed
/// character, the character becomes the rule's output under every style,
/// every per-symbol table and every width mode.
pub proof fn law_romaji_rule_wins(
    c: char,
    general: GeneralConfig,
    other_general: GeneralConfig,
    character_width: CharacterWidthConfigView,
    other_character_width: CharacterWidthConfigView,
    rows: Seq<RomajiRuleView>,
)
    requires
        romaji_override(normalized_key(c), rows) is Some,
    ensures
        kana_symbol(c, general, character_width, rows) == romaji_override(
            normalized_key(c),
            rows,
        )->0,
        kana_symbol(c, general, character_width, rows) == kana_symbol(
            c,
            other_general,
            other_character_width,
            rows,
        ),
{
}

/// The style settings come before the per-symbol table: for a key that
/// they govern, and that no romaji rule overrides, the outcome is the
/// style's glyph as the width groups adjust it, whatever the table holds.
pub proof fn law_style_comes_before_the_symbol_table(
    c: char,
    general: GeneralConfig,
    character_width: CharacterWidthConfigView,
    rows: Seq<RomajiRuleView>,
)
    requires
        romaji_override(normalized_key(c), rows) is None,
        basic_setting(normalized_key(c), general) is Some,
    ensures
        kana_symbol(c, general, character_width, rows) == seq![
            width_group_char_from_key(
                basic_setting(normalized_key(c), general)->0,
                normalized_key(c),
                character_width.groups,
            ),
        ],
{
}

/// A composite shortcut whose flag is off is inert: control+space and
/// alt+backquote then yield no action at all, not a toggle.
pub proof fn law_disabled_shortcut_is_inert(key: KeyEvent, shortcuts: ShortcutConfig)
    requires
        (!shortcuts.ctrl_space_toggle && key.ctrl_pressed && key.key_code == VK_SPACE) || (
        !shortcuts.alt_backquote_toggle && key.spec_is_alt_backquote()),
    ensures
        key_class(key, shortcuts) == KeyClass::Inert,
{
}

/// In the idle state only a fixed list of actions starts anything: typed
/// characters, digits, keypad symbols and the space, all in kana mode
/// only, and the three mode keys.
pub proof fn law_idle_state_has_a_whitelist(
    c: CompositionView,
    mode: InputMode,
    action: UserAction,
    general: GeneralConfig,
    shift_pressed: bool,
)
    requires
        c.state == CompositionState::Idle,
        transition(c, mode, action, general, shift_pressed) is Some,
    ensures
        action is ToggleInputMode || action is InputModeOn || action is InputModeOff || (mode
            == InputMode::Kana && (action is Input || action is Number || action is NumpadSymbol
            || action is Space)),
{
}

/// Enter and the commit-and-advance action do the same, and the same in
/// `Composing` as in `Previewing`.
pub proof fn law_commit_is_the_same_in_both_states(
    c: CompositionView,
    mode: InputMode,
    other_mode: InputMode,
    general: GeneralConfig,
    shift_pressed: bool,
)
    ensures
        ({
            let composing = CompositionView { state: CompositionState::Composing, ..c };
            let previewing = CompositionView { state: CompositionState::Previewing, ..c };
            &&& transition(composing, mode, UserAction::Enter, general, shift_pressed)
                == transition(previewing, other_mode, UserAction::Enter, general, shift_pressed)
            &&& transition(composing, mode, UserAction::Enter, general, shift_pressed)
                == transition(
                composing,
                mode,
                UserAction::CommitAndNextClause,
                general,
                shift_pressed,
            )
            &&& transition(previewing, mode, UserAction::Enter, general, shift_pressed)
                == transition(
                previewing,
                mode,
                UserAction::CommitAndNextClause,
                general,
                shift_pressed,
            )
        }),
{
}

/// A backspace on a composition whose raw input is one character long asks
/// for the removal and the end of the composition, and that batch leaves
/// the buffer cleared and idle whatever the candidate service answers.
pub proof fn law_backspace_on_last_character_ends(
    c: CompositionView,
    mode: InputMode,
    general: GeneralConfig,
    shift_pressed: bool,
    replies: Seq<CandidatesView>,
)
    requires
        c.state == CompositionState::Composing || c.state == CompositionState::Previewing,
        c.raw_input.len() == 1,
    ensures
        transition(c, mode, UserAction::Backspace, general, shift_pressed) == Some(
            (
                CompositionState::Idle,
                seq![ClientActionView::RemoveText, ClientActionView::EndComposition],
            ),
        ),
        batch_applied(
            begun(c, CompositionState::Idle),
            seq![ClientActionView::RemoveText, ClientActionView::EndComposition],
            replies,
        ) == CompositionView::idle(),
{
    let actions = seq![ClientActionView::RemoveText, ClientActionView::EndComposition];
    let start = begun(c, CompositionState::Idle);
    let after_remove = applied(start, ClientActionView::RemoveText, replies[0]).0;
    let rest = actions.drop_first();
    assert(rest =~= seq![ClientActionView::EndComposition]);
    assert(rest.drop_first() =~= Seq::<ClientActionView>::empty());
    let after_end = applied(after_remove, ClientActionView::EndComposition, replies.drop_first()[0]).0;
    reveal_with_fuel(batch_applied, 3);
    assert(batch_applied(start, actions, replies) == after_end);
    assert(after_remove.state == CompositionState::Idle);
}

/// Crossing a clause boundary forward and at once back again restores the
/// buffer, field for field, for any non-empty suffix.
///
/// Left out is the one case in which the forward step is refused (the
/// service has no further clause) while clauses are saved: the step back
/// then returns to the clause before.
pub proof fn law_clause_round_trip(
    c: CompositionView,
    forward: i32,
    backward: i32,
    forward_reply: CandidatesView,
    backward_reply: CandidatesView,
)
    requires
        forward > 0,
        backward < 0,
        c.suffix.len() > 0,
        forward_reply.texts.len() > 0 || c.clause_snapshots.len() == 0,
    ensures
        applied(
            applied(c, ClientActionView::MoveClause(forward), forward_reply).0,
            ClientActionView::MoveClause(backward),
            backward_reply,
        ).0 == c,
{
    let moved = applied(c, ClientActionView::MoveClause(forward), forward_reply).0;
    let back = applied(moved, ClientActionView::MoveClause(backward), backward_reply).0;
    if forward_reply.texts.len() > 0 {
        assert(moved.clause_snapshots =~= c.clause_snapshots.push(c.snapshot()));
        assert(moved.clause_snapshots.drop_last() =~= c.clause_snapshots);
        assert(moved.clause_snapshots.last() == c.snapshot());
        assert(moved.state == c.state);
    }
    assert(back.clause_snapshots =~= c.clause_snapshots);
}

/// Crossing a clause boundary forward without a suffix does nothing: the
/// host is asked to make no call, before or after, and the buffer stays.
pub proof fn law_forward_without_suffix_is_inert(
    c: CompositionView,
    direction: i32,
    mode: InputMode,
    general: GeneralConfig,
    character_width: CharacterWidthConfigView,
    rows: Seq<RomajiRuleView>,
    reply: CandidatesView,
)
    requires
        direction > 0,
        c.suffix.len() == 0,
    ensures
        planned(c, ClientActionView::MoveClause(direction), mode, general, character_width, rows)
            == PlanView::nothing(),
        applied(c, ClientActionView::MoveClause(direction), reply) == (
            c,
            Seq::<EffectView>::empty(),
        ),
{
}

/// A selection always lands inside the candidate list: on the first
/// candidate for a wish below it, on the last for a wish beyond it, and on
/// the wished one otherwise; only an empty list gives no selection.
pub proof fn law_selection_clamps(candidates: CandidatesView, desired: i32)
    ensures
        candidates.texts.len() == 0 <==> selected_candidate(candidates, desired as int) is None,
        candidates.texts.len() > 0 ==> ({
            let index = selected_candidate(candidates, desired as int)->0.index;
            &&& 0 <= index < candidates.texts.len()
            &&& desired < 0 ==> index == 0
            &&& desired >= candidates.texts.len() ==> index == candidates.texts.len() - 1
            &&& 0 <= desired < candidates.texts.len() ==> index == desired
        }),
{
}

/// Saving the buffer and putting the saved clause back at once changes
/// nothing.
pub proof fn law_snapshot_round_trip(c: CompositionView)
    ensures
        c.restored(c.snapshot()) == c,
{
}

/// The reply is read only where a query was planned: an action that asks
/// the service nothing gives the same buffer and the same calls whatever
/// is handed to it as the reply.
pub proof fn law_reply_is_read_only_after_a_query(
    c: CompositionView,
    action: ClientActionView,
    mode: InputMode,
    general: GeneralConfig,
    character_width: CharacterWidthConfigView,
    rows: Seq<RomajiRuleView>,
    first_reply: CandidatesView,
    second_reply: CandidatesView,
)
    requires
        planned(c, action, mode, general, character_width, rows).query is None,
    ensures
        applied(c, action, first_reply) == applied(c, action, second_reply),
{
}

/// Choosing anew from a reply keeps the buffer well formed.
proof fn lemma_reselected_well_formed(
    c: CompositionView,
    reply: CandidatesView,
    desired: i32,
    with_caret: bool,
)
    requires
        reply.consistent(),
        c.fixed_prefix.is_prefix_of(c.preview),
        forall|i: int|
            0 <= i < c.clause_snapshots.len() ==> (#[trigger] c.clause_snapshots[i]).wf(),
    ensures
        reselected(c, reply, desired as int, with_caret).0.wf(),
{
    law_selection_clamps(reply, desired);
    let next = reselected(c, reply, desired as int, with_caret).0;
    if reply.texts.len() > 0 {
        let chosen = selected_candidate(reply, desired as int)->0;
        assert(next.preview == c.fixed_prefix + chosen.text);
        assert(next.preview.subrange(0, c.fixed_prefix.len() as int) =~= c.fixed_prefix);
    }
}

/// Crossing a clause boundary forward makes the whole preview the fixed
/// prefix of what follows, in a buffer whose preview starts with its fixed
/// prefix.
pub proof fn law_forward_step_fixes_the_preview(
    c: CompositionView,
    direction: i32,
    reply: CandidatesView,
)
    requires
        c.fixed_prefix.is_prefix_of(c.preview),
        direction > 0,
        c.suffix.len() > 0,
        reply.texts.len() > 0,
    ensures
        applied(c, ClientActionView::MoveClause(direction), reply).0.fixed_prefix == c.preview,
{
    let rest = without_prefix(c.preview, c.fixed_prefix);
    assert(c.fixed_prefix + rest =~= c.preview);
}

/// The executor keeps the buffer's invariant: after every action, whatever
/// consistent candidate set the service answered with, the lists of the
/// candidate set run in parallel, the chosen index lies inside them and
/// the preview starts with the fixed prefix, in the buffer and in every
/// saved clause.
pub proof fn law_applied_keeps_the_buffer_well_formed(
    c: CompositionView,
    action: ClientActionView,
    reply: CandidatesView,
)
    requires
        c.wf(),
        reply.consistent(),
    ensures
        applied(c, action, reply).0.wf(),
{
    let next = applied(c, action, reply).0;
    match action {
        ClientActionView::AppendText(text) => {
            lemma_reselected_well_formed(
                CompositionView {
                    clause_snapshots: Seq::empty(),
                    raw_input: c.raw_input + text,
                    ..c
                },
                reply,
                c.selection_index,
                false,
            );
        },
        ClientActionView::AppendTextRaw(text) => {
            lemma_reselected_well_formed(
                CompositionView {
                    clause_snapshots: Seq::empty(),
                    raw_input: c.raw_input + text,
                    ..c
                },
                reply,
                c.selection_index,
                false,
            );
        },
        ClientActionView::RemoveText => {
            lemma_reselected_well_formed(
                CompositionView {
                    clause_snapshots: Seq::empty(),
                    raw_input: without_last(c.raw_input),
                    ..c
                },
                reply,
                c.selection_index,
                false,
            );
        },
        ClientActionView::MoveCursor(_) => {
            lemma_reselected_well_formed(c, reply, c.selection_index, true);
        },
        ClientActionView::MoveClause(direction) => {
            if direction > 0 && c.suffix.len() > 0 && reply.texts.len() > 0 {
                let advanced = CompositionView {
                    clause_snapshots: c.clause_snapshots.push(c.snapshot()),
                    raw_input: without_front(
                        c.raw_input,
                        consumed(c.corresponding_count),
                    ),
                    fixed_prefix: c.fixed_prefix + without_prefix(
                        c.preview,
                        c.fixed_prefix,
                    ),
                    ..c
                };
                assert(advanced.fixed_prefix.is_prefix_of(advanced.preview)) by {
                    law_forward_step_fixes_the_preview(c, direction, reply);
                    assert(advanced.fixed_prefix == c.preview);
                    assert(c.preview.subrange(0, c.preview.len() as int) =~= c.preview);
                }
                lemma_reselected_well_formed(advanced, reply, 0, true);
            }
        },
        ClientActionView::AdjustBoundary(direction) => {
            lemma_reselected_well_formed(c, reply, 0, true);
        },
        ClientActionView::SetSelection(selection) => {
            if c.candidates.texts.len() > 0 {
                let desired = desired_index(c.selection_index, selection);
                assert(i32::MIN <= desired <= i32::MAX);
                law_selection_clamps(c.candidates, desired as i32);
                assert(next.preview.subrange(0, c.fixed_prefix.len() as int) =~= c.fixed_prefix);
            }
        },
        ClientActionView::ShrinkText(text) => {
            law_selection_clamps(reply, 0);
            assert(next.preview.subrange(0, 0) =~= Seq::<char>::empty());
        },
        ClientActionView::ShrinkTextRaw(text) => {
            law_selection_clamps(reply, 0);
            assert(next.preview.subrange(0, 0) =~= Seq::<char>::empty());
        },
        ClientActionView::EndComposition => {
            assert(next.preview.subrange(0, 0) =~= Seq::<char>::empty());
        },
        ClientActionView::SetIMEMode(_) => {
            assert(next.preview.subrange(0, 0) =~= Seq::<char>::empty());
        },
        _ => {},
    }
}

} // verus!
