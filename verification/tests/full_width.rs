use ime_composition::config::{
    default_symbol_fullwidth_map, CharacterWidthConfig, CharacterWidthGroups, GeneralConfig,
    PunctuationStyle, RomajiRule, SymbolStyle, WidthMode,
};
use ime_composition::full_width::{
    apply_basic_setting, apply_width_group_char, apply_width_groups,
    apply_width_groups_with_source_key, convert_kana_symbol, find_romaji_priority_output,
    legacy_fullwidth_or_half, normalize_input_key, to_fullwidth, to_fullwidth_with_config,
    to_halfwidth, toggle_with_mode,
};

fn default_character_width() -> CharacterWidthConfig {
    CharacterWidthConfig {
        symbol_fullwidth: default_symbol_fullwidth_map(),
        groups: CharacterWidthGroups::default(),
    }
}

fn rule(input: &str, output: &str) -> RomajiRule {
    RomajiRule {
        input: input.to_string(),
        output: output.to_string(),
        next_input: String::new(),
    }
}

#[test]
fn romaji_rule_has_highest_precedence() {
    let mut config = default_character_width();
    config.groups.question_exclamation = WidthMode::Half;

    let general = GeneralConfig::default();
    let rows = vec![RomajiRule {
        input: "?".to_string(),
        output: "？".to_string(),
        next_input: String::new(),
    }];

    let output = convert_kana_symbol("?", &general, &config, &rows);
    assert_eq!(output, "？");
}

#[test]
fn basic_setting_applies_before_width_groups() {
    let mut general = GeneralConfig::default();
    general.punctuation_style = PunctuationStyle::FullwidthCommaFullwidthPeriod;

    let mut config = default_character_width();
    config.groups.comma_period = WidthMode::Full;

    let output = convert_kana_symbol(",.", &general, &config, &[]);
    assert_eq!(output, "，．");
}

#[test]
fn width_group_can_force_halfwidth_japanese_punctuation() {
    let mut config = default_character_width();
    config.groups.comma_period = WidthMode::Half;

    let output = convert_kana_symbol(",.", &GeneralConfig::default(), &config, &[]);
    assert_eq!(output, "､｡");
}

#[test]
fn punctuation_half_mode_keeps_style_specific_ascii_forms() {
    let mut config = default_character_width();
    config.groups.comma_period = WidthMode::Half;

    let mut general = GeneralConfig::default();
    general.punctuation_style = PunctuationStyle::FullwidthCommaFullwidthPeriod;
    assert_eq!(convert_kana_symbol(",.", &general, &config, &[]), ",.");

    general.punctuation_style = PunctuationStyle::ToutenFullwidthPeriod;
    assert_eq!(convert_kana_symbol(",.", &general, &config, &[]), "､.");

    general.punctuation_style = PunctuationStyle::FullwidthCommaKuten;
    assert_eq!(convert_kana_symbol(",.", &general, &config, &[]), ",｡");
}

#[test]
fn symbol_style_switches_brackets_and_middle_dot() {
    let mut general = GeneralConfig::default();
    general.symbol_style = SymbolStyle::SquareBracketBackslash;

    let output = convert_kana_symbol("[]\\", &general, &default_character_width(), &[]);
    assert_eq!(output, "［］\\");
}

#[test]
fn slash_style_uses_fullwidth_solidus() {
    let mut general = GeneralConfig::default();
    general.symbol_style = SymbolStyle::SquareBracketBackslash;

    let output = convert_kana_symbol("/", &general, &default_character_width(), &[]);
    assert_eq!(output, "／");
}

#[test]
fn slash_to_middle_dot_follows_math_symbol_width_group() {
    let mut general = GeneralConfig::default();
    general.symbol_style = SymbolStyle::CornerBracketMiddleDot;

    let mut config = default_character_width();
    config.groups.middle_dot_corner_bracket = WidthMode::Half;
    config.groups.math_symbol = WidthMode::Full;

    let output = convert_kana_symbol("/", &general, &config, &[]);
    assert_eq!(output, "・");
}

#[test]
fn romaji_rule_bypasses_width_settings() {
    let mut config = default_character_width();
    config.groups.tilde = WidthMode::Half;

    let rows = vec![RomajiRule {
        input: "~".to_string(),
        output: "〜".to_string(),
        next_input: String::new(),
    }];

    assert_eq!(
        convert_kana_symbol("~", &GeneralConfig::default(), &config, &rows),
        "〜"
    );
}

#[test]
fn backslash_is_not_forced_to_middle_dot_by_basic_setting() {
    let mut general = GeneralConfig::default();
    general.symbol_style = SymbolStyle::CornerBracketMiddleDot;

    let mut config = default_character_width();
    config.groups.hash_group = WidthMode::Half;

    assert_eq!(convert_kana_symbol("\\", &general, &config, &[]), "\\");
}

#[test]
fn circumflex_variant_is_normalized() {
    let mut config = default_character_width();
    config.groups.hash_group = WidthMode::Full;

    assert_eq!(
        convert_kana_symbol("ˆ", &GeneralConfig::default(), &config, &[]),
        "＾"
    );
}

#[test]
fn to_fullwidth_maps_every_mark_of_the_table() {
    assert_eq!(
        to_fullwidth("!\"#$%&'()*+,-./:;<=>?@[\\]^_`{|}~", false),
        "！”＃＄％＆’（）＊＋、ー。・：；＜＝＞？＠「￥」＾＿｀｛｜｝～"
    );
}

#[test]
fn to_fullwidth_leaves_letters_alone_unless_asked() {
    assert_eq!(to_fullwidth("abc-XYZ 09", false), "abcーXYZ 09");
    assert_eq!(to_fullwidth("abc-XYZ 09", true), "ａｂｃーXYZ 09");
}

#[test]
fn to_halfwidth_maps_every_glyph_of_the_table() {
    assert_eq!(
        to_halfwidth("！”＃＄％＆’（）＊＋、ー。・：；＜＝＞？＠「￥」＾＿｀｛｜｝～"),
        "!\"#$%&'()*+,-./:;<=>?@[\\]^_`{|}~"
    );
    assert_eq!(to_halfwidth("ａ１あ"), "ａ１あ");
}

#[test]
fn halfwidth_undoes_fullwidth_for_every_mark() {
    for code in 0x21u32..0x7F {
        let c = char::from_u32(code).unwrap();
        let s = c.to_string();
        assert_eq!(to_halfwidth(&to_fullwidth(&s, false)), s);
    }
    assert_eq!(to_halfwidth(&to_fullwidth("nihongo, desu.", false)), "nihongo, desu.");
}

#[test]
fn halfwidth_does_not_undo_fullwidth_for_a_glyph_of_the_table() {
    assert_eq!(to_halfwidth(&to_fullwidth("、", false)), ",");
}

#[test]
fn to_fullwidth_with_config_follows_table_then_default() {
    let mut table = default_symbol_fullwidth_map();
    assert_eq!(to_fullwidth_with_config("1#!a", false, &table), "1#！a");
    assert_eq!(to_fullwidth_with_config("1#!a", true, &table), "1#！ａ");
    table.insert("1".to_string(), true);
    table.insert("!".to_string(), false);
    assert_eq!(to_fullwidth_with_config("1#!a", false, &table), "１#!a");
}

#[test]
fn legacy_glyph_falls_back_to_the_builtin_default() {
    let mut empty = default_symbol_fullwidth_map();
    empty.clear();
    assert_eq!(legacy_fullwidth_or_half('?', &empty), '？');
    assert_eq!(legacy_fullwidth_or_half('#', &empty), '#');
    assert_eq!(legacy_fullwidth_or_half('5', &empty), '5');
    assert_eq!(legacy_fullwidth_or_half('a', &empty), 'a');
}

#[test]
fn input_key_variants_fold_onto_ascii() {
    let pairs = [
        ('ˆ', '^'),
        ('＾', '^'),
        ('〜', '~'),
        ('～', '~'),
        ('＼', '\\'),
        ('￥', '\\'),
        ('¥', '\\'),
        ('，', ','),
        ('．', '.'),
        ('”', '"'),
        ('’', '\''),
        ('a', 'a'),
        ('。', '。'),
    ];
    for (typed, key) in pairs {
        assert_eq!(normalize_input_key(typed), key);
    }
}

#[test]
fn romaji_rule_needs_a_mark_a_single_input_and_an_output() {
    let rows = vec![rule("a", "あ"), rule("?", ""), rule("??", "x"), rule("?", "？！"), rule("?", "z")];
    assert_eq!(find_romaji_priority_output('?', &rows), Some("？！".to_string()));
    assert_eq!(find_romaji_priority_output('a', &rows), None);
    assert_eq!(find_romaji_priority_output('!', &rows), None);
    assert_eq!(find_romaji_priority_output('?', &[]), None);
}

#[test]
fn romaji_output_may_be_longer_than_one_character() {
    let rows = vec![rule("-", "ーー")];
    let out = convert_kana_symbol("a-b", &GeneralConfig::default(), &default_character_width(), &rows);
    assert_eq!(out, "aーーb");
}

#[test]
fn basic_setting_governs_five_keys() {
    let mut general = GeneralConfig::default();
    assert_eq!(apply_basic_setting(',', &general), Some('、'));
    assert_eq!(apply_basic_setting('.', &general), Some('。'));
    assert_eq!(apply_basic_setting('[', &general), Some('「'));
    assert_eq!(apply_basic_setting(']', &general), Some('」'));
    assert_eq!(apply_basic_setting('/', &general), Some('・'));
    assert_eq!(apply_basic_setting('\\', &general), None);
    assert_eq!(apply_basic_setting('a', &general), None);
    general.punctuation_style = PunctuationStyle::ToutenFullwidthPeriod;
    general.symbol_style = SymbolStyle::CornerBracketBackslash;
    assert_eq!(apply_basic_setting(',', &general), Some('、'));
    assert_eq!(apply_basic_setting('.', &general), Some('．'));
    assert_eq!(apply_basic_setting('[', &general), Some('「'));
    assert_eq!(apply_basic_setting('/', &general), Some('／'));
    general.punctuation_style = PunctuationStyle::FullwidthCommaKuten;
    general.symbol_style = SymbolStyle::SquareBracketMiddleDot;
    assert_eq!(apply_basic_setting(',', &general), Some('，'));
    assert_eq!(apply_basic_setting('.', &general), Some('。'));
    assert_eq!(apply_basic_setting(']', &general), Some('］'));
    assert_eq!(apply_basic_setting('/', &general), Some('・'));
}

#[test]
fn toggle_forces_half_and_keeps_strangers_in_full() {
    assert_eq!(toggle_with_mode('＾', WidthMode::Half, '^', '＾'), '^');
    assert_eq!(toggle_with_mode('ˆ', WidthMode::Half, '^', '＾'), '^');
    assert_eq!(toggle_with_mode('^', WidthMode::Full, '^', '＾'), '＾');
    assert_eq!(toggle_with_mode('ˆ', WidthMode::Full, '^', '＾'), 'ˆ');
}

#[test]
fn width_groups_in_half_mode() {
    let groups = CharacterWidthGroups {
        alphabet: WidthMode::Half,
        number: WidthMode::Half,
        bracket: WidthMode::Half,
        comma_period: WidthMode::Half,
        middle_dot_corner_bracket: WidthMode::Half,
        quote: WidthMode::Half,
        colon_semicolon: WidthMode::Half,
        hash_group: WidthMode::Half,
        tilde: WidthMode::Half,
        math_symbol: WidthMode::Half,
        question_exclamation: WidthMode::Half,
    };
    assert_eq!(
        apply_width_groups("ａＺ９（｛［、，。．・「」”’：；＃￥〜～ー－／＊？！あ", &groups),
        "aZ9({[､,｡.･｢｣\"':;#\\~~--/*?!あ"
    );
}

#[test]
fn width_groups_in_full_mode() {
    let groups = CharacterWidthGroups {
        alphabet: WidthMode::Full,
        number: WidthMode::Full,
        bracket: WidthMode::Full,
        comma_period: WidthMode::Full,
        middle_dot_corner_bracket: WidthMode::Full,
        quote: WidthMode::Full,
        colon_semicolon: WidthMode::Full,
        hash_group: WidthMode::Full,
        tilde: WidthMode::Full,
        math_symbol: WidthMode::Full,
        question_exclamation: WidthMode::Full,
    };
    assert_eq!(
        apply_width_groups("aZ9({[,，.．･｢｣\"':;#\\¥ˆ~〜-－/*?!あ", &groups),
        "ａＺ９（｛［、，。．・「」”’：；＃＼＼ˆ～〜ー－／＊？！あ"
    );
}

#[test]
fn width_group_of_one_glyph() {
    let groups = CharacterWidthGroups::default();
    assert_eq!(apply_width_group_char('１', &groups), '1');
    assert_eq!(apply_width_group_char('(', &groups), '（');
    assert_eq!(apply_width_group_char('＃', &groups), '#');
    assert_eq!(apply_width_group_char('ａ', &groups), 'a');
    assert_eq!(apply_width_group_char('漢', &groups), '漢');
}

#[test]
fn middle_dot_from_the_slash_key_goes_by_the_math_group() {
    let mut groups = CharacterWidthGroups::default();
    groups.middle_dot_corner_bracket = WidthMode::Full;
    groups.math_symbol = WidthMode::Half;
    assert_eq!(apply_width_groups_with_source_key('・', '/', &groups), '･');
    assert_eq!(apply_width_groups_with_source_key('・', '.', &groups), '・');
    assert_eq!(apply_width_groups_with_source_key('／', '/', &groups), '/');
    assert_eq!(apply_width_groups_with_source_key('「', '/', &groups), '「');
}

#[test]
fn letters_and_digits_pass_through_under_the_defaults() {
    let out = convert_kana_symbol(
        "nihongo123",
        &GeneralConfig::default(),
        &default_character_width(),
        &[],
    );
    assert_eq!(out, "nihongo123");
}

#[test]
fn default_symbols_in_kana_mode() {
    let out = convert_kana_symbol(
        "!\"#$%&'()*+-:;<=>?@^_`{|}~",
        &GeneralConfig::default(),
        &default_character_width(),
        &[],
    );
    assert_eq!(out, "！”#$%&’（）＊＋ー：；＜＝＞？@^_`｛|｝～");
}
