use ime_composition::client_action::{ClientAction, SetSelectionType, SetTextType};
use ime_composition::composition::{
    Candidates, Composition, CompositionState, TextServiceFactory,
};
use ime_composition::config::{AppConfig, GeneralConfig};
use ime_composition::executor::{Effect, Plan, Query};
use ime_composition::input_mode::InputMode;
use ime_composition::user_action::UserAction;

fn candidates(entries: &[(&str, &str, i32)], hiragana: &str) -> Candidates {
    Candidates {
        texts: entries.iter().map(|e| e.0.to_string()).collect(),
        sub_texts: entries.iter().map(|e| e.1.to_string()).collect(),
        hiragana: hiragana.to_string(),
        corresponding_count: entries.iter().map(|e| e.2).collect(),
    }
}

fn nihongo() -> Candidates {
    candidates(
        &[("日本", "ご", 5), ("二本", "ご", 5), ("にほんご", "", 7)],
        "にほんご",
    )
}

fn texts(candidates: &Candidates) -> Vec<String> {
    candidates.texts.clone()
}

/// A composition that shows the first candidate of `nihongo()`.
fn first_clause() -> Composition {
    Composition {
        preview: "日本".to_string(),
        suffix: "ご".to_string(),
        raw_input: "nihongo".to_string(),
        raw_hiragana: "にほんご".to_string(),
        fixed_prefix: String::new(),
        corresponding_count: 5,
        selection_index: 0,
        candidates: nihongo(),
        clause_snapshots: vec![],
        state: CompositionState::Composing,
    }
}

fn config() -> AppConfig {
    AppConfig::with_romaji_table("")
}

fn plan(composition: &Composition, action: ClientAction, mode: InputMode) -> Plan {
    TextServiceFactory::plan_action(composition, &action, mode, &config())
}

fn apply(work: &mut Composition, action: ClientAction, reply: Candidates) -> Vec<Effect> {
    TextServiceFactory::handle_action(work, &action, reply)
}

fn nothing() -> Plan {
    Plan { effects: vec![], query: None }
}

#[test]
fn start_composition_opens_both_sides() {
    let mut work = Composition::default();
    assert_eq!(plan(&work, ClientAction::StartComposition, InputMode::Kana), nothing());
    let effects = apply(&mut work, ClientAction::StartComposition, Candidates::default());
    assert_eq!(
        effects,
        vec![Effect::StartComposition, Effect::UpdateCaretPosition, Effect::ShowWindow]
    );
    assert_eq!(work, Composition::default());
}

#[test]
fn end_composition_clears_the_buffer() {
    let mut work = first_clause();
    work.fixed_prefix = "前".to_string();
    work.clause_snapshots = vec![first_clause().snapshot()];
    assert_eq!(plan(&work, ClientAction::EndComposition, InputMode::Kana), nothing());
    let effects = apply(&mut work, ClientAction::EndComposition, Candidates::default());
    assert_eq!(
        effects,
        vec![
            Effect::EndComposition,
            Effect::HideWindow,
            Effect::SetCandidates(vec![]),
            Effect::ClearText
        ]
    );
    assert_eq!(
        work,
        Composition { state: CompositionState::Composing, ..Composition::default() }
    );
}

#[test]
fn append_text_is_normalized_in_kana_mode_only() {
    let work = Composition::default();
    assert_eq!(
        plan(&work, ClientAction::AppendText("a?".to_string()), InputMode::Kana),
        Plan { effects: vec![], query: Some(Query::AppendText("a？".to_string())) }
    );
    assert_eq!(
        plan(&work, ClientAction::AppendText("a?".to_string()), InputMode::Latin),
        Plan { effects: vec![], query: Some(Query::AppendText("a?".to_string())) }
    );
    assert_eq!(
        plan(&work, ClientAction::AppendTextRaw("a?".to_string()), InputMode::Kana),
        Plan { effects: vec![], query: Some(Query::AppendText("a?".to_string())) }
    );
}

#[test]
fn new_input_signals_that_snapshots_are_cleared() {
    let mut work = first_clause();
    work.clause_snapshots = vec![first_clause().snapshot()];
    let signal = vec![Effect::MoveCursor(125)];
    assert_eq!(
        plan(&work, ClientAction::AppendTextRaw("x".to_string()), InputMode::Kana),
        Plan { effects: signal.clone(), query: Some(Query::AppendText("x".to_string())) }
    );
    assert_eq!(
        plan(&work, ClientAction::RemoveText, InputMode::Kana),
        Plan { effects: signal.clone(), query: Some(Query::RemoveText) }
    );
    assert_eq!(
        plan(&work, ClientAction::ShrinkTextRaw("x".to_string()), InputMode::Kana),
        Plan {
            effects: vec![Effect::MoveCursor(125), Effect::ShrinkText(5)],
            query: Some(Query::AppendText("x".to_string()))
        }
    );
    work.clause_snapshots.clear();
    assert_eq!(
        plan(&work, ClientAction::RemoveText, InputMode::Kana),
        Plan { effects: vec![], query: Some(Query::RemoveText) }
    );
    assert_eq!(
        plan(&work, ClientAction::ShrinkText(",".to_string()), InputMode::Kana),
        Plan {
            effects: vec![Effect::ShrinkText(5)],
            query: Some(Query::AppendText("、".to_string()))
        }
    );
}

#[test]
fn append_text_takes_the_candidate_at_the_current_index() {
    let mut work = Composition {
        raw_input: "nihon".to_string(),
        fixed_prefix: "前".to_string(),
        selection_index: 1,
        clause_snapshots: vec![first_clause().snapshot()],
        state: CompositionState::Composing,
        ..Composition::default()
    };
    let effects = apply(&mut work, ClientAction::AppendText("go".to_string()), nihongo());
    assert_eq!(
        effects,
        vec![
            Effect::SetText("前二本".to_string(), "ご".to_string()),
            Effect::SetCandidates(texts(&nihongo())),
            Effect::SetSelection(1),
        ]
    );
    assert_eq!(
        work,
        Composition {
            preview: "前二本".to_string(),
            suffix: "ご".to_string(),
            raw_input: "nihongo".to_string(),
            raw_hiragana: "にほんご".to_string(),
            fixed_prefix: "前".to_string(),
            corresponding_count: 5,
            selection_index: 1,
            candidates: nihongo(),
            clause_snapshots: vec![],
            state: CompositionState::Composing,
        }
    );
}

#[test]
fn append_text_without_candidates_keeps_what_is_shown() {
    let mut work = first_clause();
    let effects = apply(&mut work, ClientAction::AppendTextRaw("x".to_string()), Candidates::default());
    assert_eq!(effects, vec![]);
    assert_eq!(
        work,
        Composition {
            raw_input: "nihongox".to_string(),
            candidates: Candidates::default(),
            ..first_clause()
        }
    );
}

#[test]
fn reply_without_candidates_resets_the_index() {
    let mut work = first_clause();
    work.selection_index = 2;
    apply(&mut work, ClientAction::AppendText("x".to_string()), Candidates::default());
    assert_eq!(work.selection_index, 0);
    assert_eq!(work.preview, "日本");
    assert_eq!(work.raw_input, "nihongox");

    let mut work = first_clause();
    work.selection_index = 2;
    let effects = apply(&mut work, ClientAction::MoveCursor(1), Candidates::default());
    assert_eq!(effects, vec![]);
    assert_eq!(work.selection_index, 0);
    assert_eq!(work.candidates, Candidates::default());
}

#[test]
fn remove_text_reselects_while_candidates_remain() {
    let mut work = first_clause();
    work.selection_index = 7;
    let reply = candidates(&[("日本", "", 5), ("二本", "", 5)], "にほん");
    let effects = apply(&mut work, ClientAction::RemoveText, reply.clone());
    assert_eq!(
        effects,
        vec![
            Effect::SetText("二本".to_string(), "".to_string()),
            Effect::SetCandidates(texts(&reply)),
            Effect::SetSelection(1),
        ]
    );
    assert_eq!(work.raw_input, "nihong");
    assert_eq!(work.selection_index, 1);
    assert_eq!(work.preview, "二本");
    assert_eq!(work.raw_hiragana, "にほん");
    assert_eq!(work.state, CompositionState::Composing);
}

#[test]
fn remove_text_on_a_drained_service_ends_the_composition() {
    let mut work = first_clause();
    work.fixed_prefix = "前".to_string();
    work.preview = "前日本".to_string();
    work.clause_snapshots = vec![first_clause().snapshot()];
    let effects = apply(&mut work, ClientAction::RemoveText, Candidates::default());
    assert_eq!(
        effects,
        vec![
            Effect::SetText("前".to_string(), "".to_string()),
            Effect::EndComposition,
            Effect::HideWindow,
            Effect::SetCandidates(vec![]),
            Effect::ClearText,
        ]
    );
    assert_eq!(work, Composition::default());

    let mut work = first_clause();
    let leftover = Candidates { hiragana: "に".to_string(), ..Candidates::default() };
    apply(&mut work, ClientAction::RemoveText, leftover);
    assert_eq!(work, Composition::default());
}

#[test]
fn backspace_on_the_last_character_clears_everything() {
    for reply in [Candidates::default(), nihongo()] {
        let mut composition = first_clause();
        composition.raw_input = "n".to_string();
        let (state, actions) = TextServiceFactory::transition(
            &composition,
            InputMode::Kana,
            UserAction::Backspace,
            &GeneralConfig::default(),
            false,
        )
        .unwrap();
        assert_eq!(state, CompositionState::Idle);
        assert_eq!(actions, vec![ClientAction::RemoveText, ClientAction::EndComposition]);

        let factory = TextServiceFactory { composition, input_mode: InputMode::Kana };
        let mut work = factory.begin_actions(state);
        for action in &actions {
            TextServiceFactory::handle_action(&mut work, action, reply.clone());
        }
        assert_eq!(work.state, CompositionState::Idle);
        assert_eq!(work.preview, "");
        assert_eq!(work.suffix, "");
        assert_eq!(work.raw_input, "");
        assert_eq!(work.raw_hiragana, "");
        assert_eq!(work.fixed_prefix, "");
        assert_eq!(work.corresponding_count, 0);
        assert_eq!(work.selection_index, 0);
        assert!(work.clause_snapshots.is_empty());
        assert_eq!(work, Composition::default());
    }
}

#[test]
fn move_cursor_reselects_and_moves_the_caret() {
    let mut work = first_clause();
    work.selection_index = 2;
    assert_eq!(
        plan(&work, ClientAction::MoveCursor(-1), InputMode::Kana),
        Plan { effects: vec![], query: Some(Query::MoveCursor(-1)) }
    );
    let reply = candidates(&[("に", "ほんご", 1)], "に");
    let effects = apply(&mut work, ClientAction::MoveCursor(-1), reply.clone());
    assert_eq!(
        effects,
        vec![
            Effect::SetText("に".to_string(), "ほんご".to_string()),
            Effect::SetCandidates(texts(&reply)),
            Effect::SetSelection(0),
            Effect::UpdateCaretPosition,
        ]
    );
    assert_eq!(work.corresponding_count, 1);
}

#[test]
fn move_clause_forward_saves_the_clause_and_advances() {
    let mut work = first_clause();
    assert_eq!(
        plan(&work, ClientAction::MoveClause(1), InputMode::Kana),
        Plan {
            effects: vec![Effect::MoveCursor(126)],
            query: Some(Query::ShrinkText(5))
        }
    );
    let reply = candidates(&[("語", "", 2), ("後", "", 2)], "ご");
    let effects = apply(&mut work, ClientAction::MoveClause(1), reply.clone());
    assert_eq!(
        effects,
        vec![
            Effect::SetText("日本語".to_string(), "".to_string()),
            Effect::SetCandidates(texts(&reply)),
            Effect::SetSelection(0),
            Effect::UpdateCaretPosition,
        ]
    );
    assert_eq!(
        work,
        Composition {
            preview: "日本語".to_string(),
            suffix: "".to_string(),
            raw_input: "go".to_string(),
            raw_hiragana: "ご".to_string(),
            fixed_prefix: "日本".to_string(),
            corresponding_count: 2,
            selection_index: 0,
            candidates: reply,
            clause_snapshots: vec![first_clause().snapshot()],
            state: CompositionState::Composing,
        }
    );
}

#[test]
fn move_clause_forward_and_back_restores_the_buffer() {
    let mut work = first_clause();
    work.selection_index = 1;
    work.preview = "二本".to_string();
    let before = work.clone();
    let reply = candidates(&[("語", "", 2)], "ご");
    apply(&mut work, ClientAction::MoveClause(1), reply);
    assert_ne!(work, before);
    assert_eq!(
        plan(&work, ClientAction::MoveClause(-1), InputMode::Kana),
        nothing()
    );
    let effects = apply(&mut work, ClientAction::MoveClause(-1), Candidates::default());
    assert_eq!(work, before);
    assert_eq!(
        effects,
        vec![
            Effect::MoveCursor(127),
            Effect::SetText("二本".to_string(), "ご".to_string()),
            Effect::SetCandidates(texts(&nihongo())),
            Effect::SetSelection(1),
            Effect::UpdateCaretPosition,
        ]
    );
}

#[test]
fn move_clause_forward_without_suffix_does_nothing() {
    let mut work = first_clause();
    work.suffix = String::new();
    let before = work.clone();
    assert_eq!(plan(&work, ClientAction::MoveClause(1), InputMode::Kana), nothing());
    let effects = apply(&mut work, ClientAction::MoveClause(1), nihongo());
    assert_eq!(effects, vec![]);
    assert_eq!(work, before);
}

#[test]
fn move_clause_forward_is_taken_back_without_a_further_clause() {
    let mut work = first_clause();
    let before = work.clone();
    let effects = apply(&mut work, ClientAction::MoveClause(1), Candidates::default());
    assert_eq!(
        effects,
        vec![
            Effect::MoveCursor(127),
            Effect::SetText("日本".to_string(), "ご".to_string()),
            Effect::SetCandidates(texts(&nihongo())),
            Effect::SetSelection(0),
            Effect::UpdateCaretPosition,
        ]
    );
    assert_eq!(work, before);
}

#[test]
fn refused_forward_step_then_back_returns_to_the_clause_before() {
    let mut work = first_clause();
    let mut earlier = first_clause();
    earlier.preview = "まえ".to_string();
    work.clause_snapshots = vec![earlier.snapshot()];
    apply(&mut work, ClientAction::MoveClause(1), Candidates::default());
    apply(&mut work, ClientAction::MoveClause(-1), Candidates::default());
    assert_eq!(work.preview, "まえ");
    assert!(work.clause_snapshots.is_empty());
}

#[test]
fn move_clause_back_without_snapshot_or_with_zero_does_nothing() {
    let mut work = first_clause();
    let before = work.clone();
    assert_eq!(apply(&mut work, ClientAction::MoveClause(-1), nihongo()), vec![]);
    assert_eq!(apply(&mut work, ClientAction::MoveClause(0), nihongo()), vec![]);
    assert_eq!(plan(&work, ClientAction::MoveClause(0), InputMode::Kana), nothing());
    assert_eq!(work, before);
}

#[test]
fn move_clause_forward_strips_the_fixed_prefix_from_the_preview() {
    let mut work = first_clause();
    work.fixed_prefix = "前".to_string();
    work.preview = "前日本".to_string();
    work.corresponding_count = -3;
    let reply = candidates(&[("語", "", 2)], "ご");
    apply(&mut work, ClientAction::MoveClause(1), reply);
    assert_eq!(work.fixed_prefix, "前日本");
    assert_eq!(work.preview, "前日本語");
    assert_eq!(work.raw_input, "nihongo");

    let mut other = first_clause();
    other.fixed_prefix = "別".to_string();
    other.corresponding_count = 100;
    let reply = candidates(&[("語", "", 2)], "ご");
    apply(&mut other, ClientAction::MoveClause(1), reply);
    assert_eq!(other.fixed_prefix, "別日本");
    assert_eq!(other.raw_input, "");
}

#[test]
fn adjust_boundary_adopts_the_probe() {
    let mut work = first_clause();
    work.selection_index = 2;
    assert_eq!(
        plan(&work, ClientAction::AdjustBoundary(-1), InputMode::Kana),
        Plan { effects: vec![Effect::MoveCursor(-1)], query: Some(Query::MoveCursor(0)) }
    );
    let reply = candidates(&[("二", "ほんご", 1), ("に", "ほんご", 1)], "に");
    let effects = apply(&mut work, ClientAction::AdjustBoundary(-1), reply.clone());
    assert_eq!(
        effects,
        vec![
            Effect::SetText("二".to_string(), "ほんご".to_string()),
            Effect::SetCandidates(texts(&reply)),
            Effect::SetSelection(0),
            Effect::UpdateCaretPosition,
        ]
    );
    assert_eq!(work.selection_index, 0);
    assert_eq!(work.candidates, reply);
}

#[test]
fn adjust_boundary_without_candidates_is_abandoned() {
    let mut work = first_clause();
    let before = work.clone();
    assert_eq!(
        apply(&mut work, ClientAction::AdjustBoundary(-1), Candidates::default()),
        vec![Effect::MoveCursor(1)]
    );
    assert_eq!(
        apply(&mut work, ClientAction::AdjustBoundary(1), Candidates::default()),
        vec![]
    );
    assert_eq!(apply(&mut work, ClientAction::AdjustBoundary(0), nihongo()), vec![]);
    assert_eq!(plan(&work, ClientAction::AdjustBoundary(0), InputMode::Kana), nothing());
    assert_eq!(work, before);
}

#[test]
fn set_ime_mode_switches_and_clears() {
    let mut work = first_clause();
    assert_eq!(
        plan(&work, ClientAction::SetIMEMode(InputMode::Latin), InputMode::Kana),
        nothing()
    );
    let effects = apply(&mut work, ClientAction::SetIMEMode(InputMode::Latin), Candidates::default());
    assert_eq!(
        effects,
        vec![
            Effect::StartComposition,
            Effect::UpdateCaretPosition,
            Effect::EndComposition,
            Effect::SwitchInputMode(InputMode::Latin),
            Effect::UpdateModeIndicator,
            Effect::SetInputMode("A".to_string()),
            Effect::ClearText,
        ]
    );
    assert_eq!(
        work,
        Composition { state: CompositionState::Composing, ..Composition::default() }
    );
    let effects = apply(&mut work, ClientAction::SetIMEMode(InputMode::Kana), Candidates::default());
    assert_eq!(effects[5], Effect::SetInputMode("あ".to_string()));
    assert_eq!(InputMode::Kana.label(), "あ");
}

#[test]
fn selection_down_at_the_last_candidate_stays() {
    let mut work = first_clause();
    work.state = CompositionState::Previewing;
    work.selection_index = 2;
    work.preview = "にほんご".to_string();
    work.suffix = String::new();
    work.corresponding_count = 7;
    let before = work.clone();
    assert_eq!(
        plan(&work, ClientAction::SetSelection(SetSelectionType::Down), InputMode::Kana),
        nothing()
    );
    let effects = apply(
        &mut work,
        ClientAction::SetSelection(SetSelectionType::Down),
        Candidates::default(),
    );
    assert_eq!(
        effects,
        vec![
            Effect::SetSelection(2),
            Effect::SetText("にほんご".to_string(), "".to_string())
        ]
    );
    assert_eq!(work, before);
}

#[test]
fn selection_moves_within_the_candidates_at_hand() {
    let mut work = first_clause();
    work.fixed_prefix = "前".to_string();
    let down = apply(
        &mut work,
        ClientAction::SetSelection(SetSelectionType::Down),
        Candidates::default(),
    );
    assert_eq!(
        down,
        vec![
            Effect::SetSelection(1),
            Effect::SetText("前二本".to_string(), "ご".to_string())
        ]
    );
    assert_eq!(work.candidates, nihongo());
    apply(&mut work, ClientAction::SetSelection(SetSelectionType::Up), Candidates::default());
    apply(&mut work, ClientAction::SetSelection(SetSelectionType::Up), Candidates::default());
    assert_eq!(work.selection_index, 0);
    apply(&mut work, ClientAction::SetSelection(SetSelectionType::Number(2)), Candidates::default());
    assert_eq!(work.selection_index, 2);
    assert_eq!(work.preview, "前にほんご");
    assert_eq!(work.suffix, "");
    assert_eq!(work.corresponding_count, 7);
    apply(&mut work, ClientAction::SetSelection(SetSelectionType::Number(-5)), Candidates::default());
    assert_eq!(work.selection_index, 0);
    apply(
        &mut work,
        ClientAction::SetSelection(SetSelectionType::Number(10_000)),
        Candidates::default(),
    );
    assert_eq!(work.selection_index, 2);
}

#[test]
fn selection_at_the_ends_of_the_integers_does_not_overflow() {
    let mut work = first_clause();
    work.selection_index = i32::MAX;
    apply(&mut work, ClientAction::SetSelection(SetSelectionType::Down), Candidates::default());
    assert_eq!(work.selection_index, 2);
    work.selection_index = i32::MIN;
    apply(&mut work, ClientAction::SetSelection(SetSelectionType::Up), Candidates::default());
    assert_eq!(work.selection_index, 0);
}

#[test]
fn selection_without_candidates_changes_nothing() {
    let mut work = Composition::default();
    let effects = apply(
        &mut work,
        ClientAction::SetSelection(SetSelectionType::Down),
        nihongo(),
    );
    assert_eq!(effects, vec![]);
    assert_eq!(work, Composition::default());
}

#[test]
fn shrink_text_commits_the_clause_and_resumes() {
    let mut work = first_clause();
    work.state = CompositionState::Previewing;
    work.fixed_prefix = "前".to_string();
    work.preview = "前日本".to_string();
    work.selection_index = 1;
    work.clause_snapshots = vec![first_clause().snapshot()];
    let reply = candidates(&[("ごk", "", 3), ("語k", "", 3)], "ごk");
    let effects = apply(&mut work, ClientAction::ShrinkText("k".to_string()), reply.clone());
    assert_eq!(
        effects,
        vec![
            Effect::ShiftStart("前日本".to_string(), "ごk".to_string()),
            Effect::SetCandidates(texts(&reply)),
            Effect::SetSelection(0),
            Effect::UpdateCaretPosition,
        ]
    );
    assert_eq!(
        work,
        Composition {
            preview: "ごk".to_string(),
            suffix: "".to_string(),
            raw_input: "gok".to_string(),
            raw_hiragana: "ごk".to_string(),
            fixed_prefix: "".to_string(),
            corresponding_count: 3,
            selection_index: 0,
            candidates: reply,
            clause_snapshots: vec![],
            state: CompositionState::Composing,
        }
    );
}

#[test]
fn shrink_text_without_candidates_still_resumes_composing() {
    let mut work = first_clause();
    work.state = CompositionState::Idle;
    work.selection_index = 2;
    let effects = apply(&mut work, ClientAction::ShrinkTextRaw("".to_string()), Candidates::default());
    assert_eq!(effects, vec![]);
    assert_eq!(
        work,
        Composition {
            raw_input: "go".to_string(),
            selection_index: 0,
            candidates: Candidates::default(),
            state: CompositionState::Composing,
            ..first_clause()
        }
    );
}

#[test]
fn set_text_with_type_shows_the_buffer_in_one_script() {
    let mut work = first_clause();
    work.raw_input = "nihongo-!".to_string();
    work.raw_hiragana = "にほんごー".to_string();
    let before = work.clone();
    let table = [
        (SetTextType::Hiragana, "にほんごー"),
        (SetTextType::Katakana, "ニホンゴー"),
        (SetTextType::HalfKatakana, "ﾆﾎﾝｺﾞｰ"),
        (SetTextType::FullLatin, "ｎｉｈｏｎｇｏー！"),
        (SetTextType::HalfLatin, "nihongo-!"),
    ];
    for (kind, text) in table {
        assert_eq!(plan(&work, ClientAction::SetTextWithType(kind), InputMode::Kana), nothing());
        let effects = apply(&mut work, ClientAction::SetTextWithType(kind), Candidates::default());
        assert_eq!(effects, vec![Effect::SetText(text.to_string(), "".to_string())]);
        assert_eq!(work, before);
    }
}

#[test]
fn reserved_actions_do_nothing() {
    let mut work = first_clause();
    let before = work.clone();
    for action in [
        ClientAction::AppendTextDirect("x".to_string()),
        ClientAction::ShrinkTextDirect("x".to_string()),
        ClientAction::SetTemporaryLatin(true),
        ClientAction::SetTemporaryLatinShiftPending(true),
    ] {
        assert_eq!(plan(&work, action.clone(), InputMode::Kana), nothing());
        assert_eq!(apply(&mut work, action, nihongo()), vec![]);
        assert_eq!(work, before);
    }
}

#[test]
fn batch_works_on_a_copy_until_it_is_committed() {
    let mut factory = TextServiceFactory {
        composition: first_clause(),
        input_mode: InputMode::Kana,
    };
    let mut work = factory.begin_actions(CompositionState::Previewing);
    assert_eq!(
        work,
        Composition { state: CompositionState::Previewing, ..first_clause() }
    );
    apply(&mut work, ClientAction::EndComposition, Candidates::default());
    assert_eq!(factory.composition, first_clause());
    factory.commit_actions(work.clone());
    assert_eq!(factory.composition, work);
    assert_eq!(factory.input_mode, InputMode::Kana);
}

#[test]
fn every_action_keeps_the_selection_inside_the_list() {
    let replies = [Candidates::default(), nihongo(), candidates(&[("x", "", 1)], "x")];
    let actions = [
        ClientAction::StartComposition,
        ClientAction::AppendText("a".to_string()),
        ClientAction::RemoveText,
        ClientAction::MoveCursor(1),
        ClientAction::MoveClause(1),
        ClientAction::MoveClause(-1),
        ClientAction::AdjustBoundary(1),
        ClientAction::SetSelection(SetSelectionType::Down),
        ClientAction::ShrinkText("a".to_string()),
        ClientAction::EndComposition,
        ClientAction::SetIMEMode(InputMode::Latin),
    ];
    for first in &actions {
        for second in &actions {
            for reply in &replies {
                let mut work = first_clause();
                work.selection_index = 2;
                apply(&mut work, first.clone(), reply.clone());
                apply(&mut work, second.clone(), reply.clone());
                let count = work.candidates.texts.len() as i32;
                if count > 0 {
                    assert!(0 <= work.selection_index && work.selection_index < count);
                } else {
                    assert_eq!(work.selection_index, 0);
                }
                assert!(work.candidates.is_consistent());
                assert!(work.preview.starts_with(&work.fixed_prefix));
            }
        }
    }
}
