use ime_composition::config::{
    default_shortcut_enabled, default_symbol_fullwidth, default_symbol_fullwidth_map,
    group_mode_from_legacy, is_legacy_removed_default_row, legacy_groups_from_symbol_fullwidth,
    AppConfig, CharacterWidthConfig, CharacterWidthGroups, GeneralConfig, NumpadInputMode,
    PunctuationStyle, RomajiRule, RomajiTableConfig, ShortcutConfig, SpaceInputMode, SymbolStyle,
    WidthMode, CONFIG_VERSION,
};
use ime_composition::romaji_table::{default_romaji_rows, is_whitespace};

fn rule(input: &str, output: &str, next_input: &str) -> RomajiRule {
    RomajiRule {
        input: input.to_string(),
        output: output.to_string(),
        next_input: next_input.to_string(),
    }
}

#[test]
fn defaults_of_the_configuration() {
    let general = GeneralConfig::default();
    assert_eq!(general.punctuation_style, PunctuationStyle::ToutenKuten);
    assert_eq!(general.symbol_style, SymbolStyle::CornerBracketMiddleDot);
    assert_eq!(general.space_input, SpaceInputMode::AlwaysHalf);
    assert_eq!(general.numpad_input, NumpadInputMode::AlwaysHalf);
    assert_eq!(PunctuationStyle::default(), PunctuationStyle::ToutenKuten);
    assert_eq!(SymbolStyle::default(), SymbolStyle::CornerBracketMiddleDot);
    assert_eq!(SpaceInputMode::default(), SpaceInputMode::AlwaysHalf);
    assert_eq!(NumpadInputMode::default(), NumpadInputMode::AlwaysHalf);
    let shortcuts = ShortcutConfig::default();
    assert!(shortcuts.ctrl_space_toggle && shortcuts.alt_backquote_toggle);
    assert!(default_shortcut_enabled());
    assert_eq!(
        CharacterWidthGroups::default(),
        CharacterWidthGroups {
            alphabet: WidthMode::Half,
            number: WidthMode::Half,
            bracket: WidthMode::Full,
            comma_period: WidthMode::Full,
            middle_dot_corner_bracket: WidthMode::Full,
            quote: WidthMode::Full,
            colon_semicolon: WidthMode::Full,
            hash_group: WidthMode::Half,
            tilde: WidthMode::Full,
            math_symbol: WidthMode::Full,
            question_exclamation: WidthMode::Full,
        }
    );
    let width = CharacterWidthConfig::default();
    assert_eq!(width.groups, CharacterWidthGroups::default());
    assert_eq!(width.symbol_fullwidth.len(), 42);
}

#[test]
fn default_symbol_table_has_forty_two_entries() {
    let table = default_symbol_fullwidth_map();
    assert_eq!(table.len(), 42);
    let full = "!\"'()*+,-./:;<=>?[]{}~";
    let half = "0123456789#$%&@\\^_`|";
    for c in full.chars() {
        assert_eq!(table.get(&c.to_string()), Some(&true));
        assert_eq!(default_symbol_fullwidth(c), Some(true));
    }
    for c in half.chars() {
        assert_eq!(table.get(&c.to_string()), Some(&false));
        assert_eq!(default_symbol_fullwidth(c), Some(false));
    }
    assert_eq!(table.get("a"), None);
    assert_eq!(table.get(" "), None);
    assert_eq!(default_symbol_fullwidth('a'), None);
}

#[test]
fn group_mode_is_the_majority_of_the_entries_present() {
    let mut table = default_symbol_fullwidth_map();
    table.clear();
    assert_eq!(group_mode_from_legacy(&table, "?!", WidthMode::Half), WidthMode::Half);
    assert_eq!(group_mode_from_legacy(&table, "?!", WidthMode::Full), WidthMode::Full);
    table.insert("?".to_string(), false);
    assert_eq!(group_mode_from_legacy(&table, "?!", WidthMode::Full), WidthMode::Half);
    table.insert("!".to_string(), true);
    assert_eq!(group_mode_from_legacy(&table, "?!", WidthMode::Half), WidthMode::Full);
    table.insert("!".to_string(), false);
    assert_eq!(group_mode_from_legacy(&table, "?!", WidthMode::Full), WidthMode::Half);
    assert_eq!(group_mode_from_legacy(&table, "", WidthMode::Full), WidthMode::Full);
    assert_eq!(group_mode_from_legacy(&table, "??!", WidthMode::Full), WidthMode::Half);
}

#[test]
fn legacy_groups_of_the_default_table() {
    let groups = legacy_groups_from_symbol_fullwidth(&default_symbol_fullwidth_map());
    assert_eq!(groups, CharacterWidthGroups::default());
}

#[test]
fn legacy_groups_follow_the_table() {
    let mut table = default_symbol_fullwidth_map();
    for key in "0123456789".chars() {
        table.insert(key.to_string(), true);
    }
    table.insert("(".to_string(), false);
    table.insert(")".to_string(), false);
    table.insert("{".to_string(), false);
    table.insert("}".to_string(), false);
    table.insert("~".to_string(), false);
    let groups = legacy_groups_from_symbol_fullwidth(&table);
    assert_eq!(
        groups,
        CharacterWidthGroups {
            number: WidthMode::Full,
            bracket: WidthMode::Half,
            tilde: WidthMode::Half,
            ..CharacterWidthGroups::default()
        }
    );
}

#[test]
fn retired_default_rows() {
    for (input, output) in [("~", "〜"), (".", "。"), (",", "、"), ("[", "「"), ("]", "」")] {
        assert!(is_legacy_removed_default_row(&rule(input, output, "")));
        assert!(!is_legacy_removed_default_row(&rule(input, output, "x")));
    }
    assert!(!is_legacy_removed_default_row(&rule("~", "～", "")));
    assert!(!is_legacy_removed_default_row(&rule(".", "、", "")));
    assert!(!is_legacy_removed_default_row(&rule("a", "あ", "")));
    assert!(!is_legacy_removed_default_row(&rule("", "", "")));
}

#[test]
fn fresh_configuration() {
    let config = AppConfig::with_romaji_table("a\tあ\n");
    assert_eq!(config.version, "0.1.1");
    assert_eq!(CONFIG_VERSION, "0.1.1");
    assert!(!config.zenzai.enable);
    assert_eq!(config.zenzai.profile, "");
    assert_eq!(config.zenzai.backend, "cpu");
    assert!(config.shortcuts.ctrl_space_toggle && config.shortcuts.alt_backquote_toggle);
    assert_eq!(config.general.punctuation_style, PunctuationStyle::ToutenKuten);
    assert_eq!(config.romaji_table.rows, vec![rule("a", "あ", "")]);
    assert_eq!(config.character_width.groups, CharacterWidthGroups::default());
    assert_eq!(config.character_width.symbol_fullwidth.len(), 42);
}

#[test]
fn current_configuration_is_not_migrated() {
    let mut config = AppConfig::with_romaji_table("~\t〜\na\tあ\n");
    config.character_width.groups.number = WidthMode::Half;
    assert!(!config.needs_migration());
    let migrated = config.migrate(None);
    assert_eq!(migrated.version, "0.1.1");
    assert_eq!(migrated.romaji_table.rows, vec![rule("~", "〜", ""), rule("a", "あ", "")]);
    assert_eq!(migrated.character_width.groups.number, WidthMode::Half);
}

#[test]
fn old_configuration_loses_retired_rows_and_derived_groups() {
    let mut config = AppConfig::with_romaji_table("~\t〜\na\tあ\n.\t。\n,\t、\tn\n[\t「\n]\t」\n");
    config.version = "0.1.0".to_string();
    for key in "0123456789".chars() {
        config.character_width.symbol_fullwidth.insert(key.to_string(), true);
    }
    config.character_width.groups = CharacterWidthGroups {
        number: WidthMode::Full,
        ..CharacterWidthGroups::default()
    };
    let migrated = config.migrate(None);
    assert_eq!(migrated.version, "0.1.1");
    assert_eq!(
        migrated.romaji_table.rows,
        vec![rule("a", "あ", ""), rule(",", "、", "n")]
    );
    assert_eq!(migrated.character_width.groups, CharacterWidthGroups::default());
    assert_eq!(migrated.character_width.symbol_fullwidth.get("0"), Some(&true));
}

#[test]
fn old_configuration_keeps_groups_that_were_chosen() {
    let mut config = AppConfig::with_romaji_table("");
    config.version = "0.0.9".to_string();
    assert!(config.needs_migration());
    config.character_width.groups.tilde = WidthMode::Half;
    let migrated = config.migrate(None);
    assert_eq!(migrated.version, "0.1.1");
    assert_eq!(migrated.character_width.groups.tilde, WidthMode::Half);
}

#[test]
fn migration_derives_groups_from_the_legacy_table_where_given() {
    let mut legacy = default_symbol_fullwidth_map();
    legacy.insert("~".to_string(), false);
    let mut config = AppConfig::with_romaji_table("");
    config.version = String::new();
    config.character_width.groups.tilde = WidthMode::Half;
    let migrated = config.migrate(Some(legacy));
    assert_eq!(migrated.character_width.groups, CharacterWidthGroups::default());
    assert_eq!(migrated.character_width.symbol_fullwidth.get("~"), Some(&true));
}

#[test]
fn romaji_table_lines_become_rules() {
    let table = "# comment\n\na\tあ\n  ka \t か \t k \t ignored\r\n\t\n#x\ty\nx\n y\t\n\t z\nn\tん\t\nlast\tend";
    assert_eq!(
        default_romaji_rows(table),
        vec![
            rule("a", "あ", ""),
            rule("ka", "か", "k"),
            rule("n", "ん", ""),
            rule("last", "end", ""),
        ]
    );
    assert_eq!(default_romaji_rows(""), vec![]);
    assert_eq!(default_romaji_rows("\n\n"), vec![]);
    assert_eq!(RomajiTableConfig::from_table("tt\tっ\tt").rows, vec![rule("tt", "っ", "t")]);
}

#[test]
fn romaji_table_fields_are_trimmed_of_all_white_space() {
    assert_eq!(
        default_romaji_rows("\u{3000}a\u{A0}\t\u{2003}あ\u{85}\n"),
        vec![rule("a", "あ", "")]
    );
    assert_eq!(default_romaji_rows("a b\tx y\n"), vec![rule("a b", "x y", "")]);
    for c in ['\t', '\n', '\r', ' ', '\u{0B}', '\u{0C}', '\u{85}', '\u{A0}', '\u{1680}', '\u{2000}', '\u{200A}', '\u{2028}', '\u{2029}', '\u{202F}', '\u{205F}', '\u{3000}'] {
        assert!(is_whitespace(c));
        assert!(c.is_whitespace());
    }
    for c in ['a', '\u{8}', '\u{E}', '\u{200B}', '\u{180E}', '\u{FEFF}', 'あ'] {
        assert!(!is_whitespace(c));
        assert!(!c.is_whitespace());
    }
}

#[test]
fn symbol_table_from_entries() {
    let table = ime_composition::config::symbol_table_from(&vec![
        ("?".to_string(), true),
        ("#".to_string(), true),
        ("?".to_string(), false),
        ("long".to_string(), true),
    ]);
    assert_eq!(table.len(), 3);
    assert_eq!(table.get("?"), Some(&false));
    assert_eq!(table.get("#"), Some(&true));
    assert_eq!(table.get("long"), Some(&true));
    assert_eq!(table.get("!"), None);
    assert_eq!(ime_composition::config::symbol_table_from(&vec![]).len(), 0);
}
