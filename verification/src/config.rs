//! The configuration that the engine consumes, read-only, for the length
//! of one key-handling cycle.

use vstd::hash_map::StringHashMap;
use vstd::prelude::*;
use vstd::string::*;

use crate::romaji_table::{default_romaji_rows, romaji_rows};
use crate::text::{char_text, is_single_char, same_text, to_chars};

verus! {

/// Whether a group of glyphs is written half-width or full-width.
#[derive(Debug, Clone, Copy, PartialEq, Eq, Structural)]
pub enum WidthMode {
    Half,
    Full,
}

/// Which glyphs the comma key and the period key give.
#[derive(Debug, Clone, Copy, PartialEq, Eq, Structural)]
pub enum PunctuationStyle {
    ToutenKuten,
    FullwidthCommaFullwidthPeriod,
    ToutenFullwidthPeriod,
    FullwidthCommaKuten,
}

/// Which glyphs the bracket keys and the slash key give.
#[derive(Debug, Clone, Copy, PartialEq, Eq, Structural)]
pub enum SymbolStyle {
    CornerBracketMiddleDot,
    SquareBracketBackslash,
    CornerBracketBackslash,
    SquareBracketMiddleDot,
}

/// How wide the space key writes.
#[derive(Debug, Clone, Copy, PartialEq, Eq, Structural)]
pub enum SpaceInputMode {
    AlwaysHalf,
    FollowInputMode,
}

/// How the numeric keypad writes.
#[derive(Debug, Clone, Copy, PartialEq, Eq, Structural)]
pub enum NumpadInputMode {
    AlwaysHalf,
    FollowInputMode,
    DirectInput,
}

/// The width mode of each of the eleven glyph groups.
#[derive(Debug, Clone, PartialEq, Eq, Structural)]
pub struct CharacterWidthGroups {
    pub alphabet: WidthMode,
    pub number: WidthMode,
    pub bracket: WidthMode,
    pub comma_period: WidthMode,
    pub middle_dot_corner_bracket: WidthMode,
    pub quote: WidthMode,
    pub colon_semicolon: WidthMode,
    pub hash_group: WidthMode,
    pub tilde: WidthMode,
    pub math_symbol: WidthMode,
    pub question_exclamation: WidthMode,
}

/// The styles and input modes that apply to every key.
#[derive(Debug, Clone)]
pub struct GeneralConfig {
    pub punctuation_style: PunctuationStyle,
    pub symbol_style: SymbolStyle,
    pub space_input: SpaceInputMode,
    pub numpad_input: NumpadInputMode,
}

/// One romaji override: typing `input` writes `output`. `next_input` is
/// carried along and never consulted by the normalizer.
#[derive(Debug, Clone, PartialEq, Eq)]
pub struct RomajiRule {
    pub input: String,
    pub output: String,
    pub next_input: String,
}

/// A romaji rule as plain sequences of characters.
pub struct RomajiRuleView {
    pub input: Seq<char>,
    pub output: Seq<char>,
    pub next_input: Seq<char>,
}

impl View for RomajiRule {
    type V = RomajiRuleView;

    open spec fn view(&self) -> RomajiRuleView {
        RomajiRuleView {
            input: self.input@,
            output: self.output@,
            next_input: self.next_input@,
        }
    }
}

impl DeepView for RomajiRule {
    type V = RomajiRuleView;

    open spec fn deep_view(&self) -> RomajiRuleView {
        self@
    }
}

impl RomajiRule {
    /// A copy of the rule.
    pub fn duplicate(&self) -> (copy: RomajiRule)
        ensures
            copy@ == self@,
    {
        RomajiRule {
            input: self.input.clone(),
            output: self.output.clone(),
            next_input: self.next_input.clone(),
        }
    }
}

/// The ordered list of romaji overrides.
#[derive(Debug, Clone)]
pub struct RomajiTableConfig {
    pub rows: Vec<RomajiRule>,
}

/// Settings of the neural conversion backend; carried, never read here.
#[derive(Debug, Clone)]
pub struct ZenzaiConfig {
    pub enable: bool,
    pub profile: String,
    pub backend: String,
}

/// The backend settings as plain sequences.
pub struct ZenzaiConfigView {
    pub enable: bool,
    pub profile: Seq<char>,
    pub backend: Seq<char>,
}

impl View for ZenzaiConfig {
    type V = ZenzaiConfigView;

    open spec fn view(&self) -> ZenzaiConfigView {
        ZenzaiConfigView { enable: self.enable, profile: self.profile@, backend: self.backend@ }
    }
}

/// Which of the two composite shortcuts toggle the input mode.
#[derive(Debug, Clone)]
pub struct ShortcutConfig {
    pub ctrl_space_toggle: bool,
    pub alt_backquote_toggle: bool,
}

/// The per-symbol table: whether the symbol that a key names is written
/// full-width.
pub type SymbolWidthTable = StringHashMap<bool>;

/// The per-symbol full-width overrides and the per-group width modes.
pub struct CharacterWidthConfig {
    pub symbol_fullwidth: SymbolWidthTable,
    pub groups: CharacterWidthGroups,
}

/// The width configuration with its override table as a mathematical map.
pub struct CharacterWidthConfigView {
    pub symbol_fullwidth: Map<Seq<char>, bool>,
    pub groups: CharacterWidthGroups,
}

impl View for CharacterWidthConfig {
    type V = CharacterWidthConfigView;

    open spec fn view(&self) -> CharacterWidthConfigView {
        CharacterWidthConfigView { symbol_fullwidth: self.symbol_fullwidth@, groups: self.groups }
    }
}

/// The whole configuration.
pub struct AppConfig {
    pub version: String,
    pub zenzai: ZenzaiConfig,
    pub shortcuts: ShortcutConfig,
    pub general: GeneralConfig,
    pub romaji_table: RomajiTableConfig,
    pub character_width: CharacterWidthConfig,
}

/// The whole configuration as plain values.
pub struct AppConfigView {
    pub version: Seq<char>,
    pub zenzai: ZenzaiConfigView,
    pub shortcuts: ShortcutConfig,
    pub general: GeneralConfig,
    pub rows: Seq<RomajiRuleView>,
    pub character_width: CharacterWidthConfigView,
}

impl View for AppConfig {
    type V = AppConfigView;

    open spec fn view(&self) -> AppConfigView {
        AppConfigView {
            version: self.version@,
            zenzai: self.zenzai@,
            shortcuts: self.shortcuts,
            general: self.general,
            rows: self.romaji_table.rows.deep_view(),
            character_width: self.character_width@,
        }
    }
}

/// The version that a configuration of today carries.
pub const CONFIG_VERSION: &'static str = "0.1.1";

/// The backend that a fresh configuration names.
pub const DEFAULT_BACKEND: &'static str = "cpu";

/// The width modes of a configuration that names none.
pub open spec fn default_groups() -> CharacterWidthGroups {
    CharacterWidthGroups {
        alphabet: WidthMode::Half,
        number: WidthMode::Half,
        bracket: WidthMode::Full,
        comma_period: WidthMode::Full,
        middle_dot_corner_bracket: WidthMode::Full,
        quote: WidthMode::Full,
        colon_semicolon: WidthMode::Full,
        hash_group: WidthMode::Half,
        tilde: WidthMode::Full,
        math_symbol: WidthMode::Full,
        question_exclamation: WidthMode::Full,
    }
}

impl Default for CharacterWidthGroups {
    fn default() -> (groups: Self)
        ensures
            groups == default_groups(),
    {
        CharacterWidthGroups {
            alphabet: WidthMode::Half,
            number: WidthMode::Half,
            bracket: WidthMode::Full,
            comma_period: WidthMode::Full,
            middle_dot_corner_bracket: WidthMode::Full,
            quote: WidthMode::Full,
            colon_semicolon: WidthMode::Full,
            hash_group: WidthMode::Half,
            tilde: WidthMode::Full,
            math_symbol: WidthMode::Full,
            question_exclamation: WidthMode::Full,
        }
    }
}

impl Default for PunctuationStyle {
    fn default() -> (style: Self)
        ensures
            style == PunctuationStyle::ToutenKuten,
    {
        PunctuationStyle::ToutenKuten
    }
}

impl Default for SymbolStyle {
    fn default() -> (style: Self)
        ensures
            style == SymbolStyle::CornerBracketMiddleDot,
    {
        SymbolStyle::CornerBracketMiddleDot
    }
}

impl Default for SpaceInputMode {
    fn default() -> (mode: Self)
        ensures
            mode == SpaceInputMode::AlwaysHalf,
    {
        SpaceInputMode::AlwaysHalf
    }
}

impl Default for NumpadInputMode {
    fn default() -> (mode: Self)
        ensures
            mode == NumpadInputMode::AlwaysHalf,
    {
        NumpadInputMode::AlwaysHalf
    }
}

impl Default for GeneralConfig {
    fn default() -> (general: Self)
        ensures
            general.punctuation_style == PunctuationStyle::ToutenKuten,
            general.symbol_style == SymbolStyle::CornerBracketMiddleDot,
            general.space_input == SpaceInputMode::AlwaysHalf,
            general.numpad_input == NumpadInputMode::AlwaysHalf,
    {
        GeneralConfig {
            punctuation_style: PunctuationStyle::ToutenKuten,
            symbol_style: SymbolStyle::CornerBracketMiddleDot,
            space_input: SpaceInputMode::AlwaysHalf,
            numpad_input: NumpadInputMode::AlwaysHalf,
        }
    }
}

/// A shortcut that the configuration does not mention is enabled.
pub fn default_shortcut_enabled() -> (enabled: bool)
    ensures
        enabled,
{
    true
}

impl Default for ShortcutConfig {
    fn default() -> (shortcuts: Self)
        ensures
            shortcuts.ctrl_space_toggle,
            shortcuts.alt_backquote_toggle,
    {
        ShortcutConfig {
            ctrl_space_toggle: default_shortcut_enabled(),
            alt_backquote_toggle: default_shortcut_enabled(),
        }
    }
}

/// The built-in answer to "is this symbol written full-width": `None` for
/// a character that is neither an ASCII digit nor ASCII punctuation.
pub open spec fn symbol_default(c: char) -> Option<bool> {
    match c {
        '0' | '1' | '2' | '3' | '4' | '5' | '6' | '7' | '8' | '9' => Some(false),
        '#' | '$' | '%' | '&' | '@' | '\\' | '^' | '_' | '`' | '|' => Some(false),
        '!' | '"' | '\'' | '(' | ')' | '*' | '+' | ',' | '-' | '.' | '/' => Some(true),
        ':' | ';' | '<' | '=' | '>' | '?' | '[' | ']' | '{' | '}' | '~' => Some(true),
        _ => None,
    }
}

/// Looks `c` up in the built-in table of symbol widths.
pub fn default_symbol_fullwidth(c: char) -> (found: Option<bool>)
    ensures
        found == symbol_default(c),
{
    match c {
        '0' | '1' | '2' | '3' | '4' | '5' | '6' | '7' | '8' | '9' => Some(false),
        '#' | '$' | '%' | '&' | '@' | '\\' | '^' | '_' | '`' | '|' => Some(false),
        '!' | '"' | '\'' | '(' | ')' | '*' | '+' | ',' | '-' | '.' | '/' => Some(true),
        ':' | ';' | '<' | '=' | '>' | '?' | '[' | ']' | '{' | '}' | '~' => Some(true),
        _ => None,
    }
}

/// The built-in table as a map from one-character keys.
pub open spec fn default_symbol_map() -> Map<Seq<char>, bool> {
    Map::new(
        |key: Seq<char>| key.len() == 1 && symbol_default(key[0]) is Some,
        |key: Seq<char>| symbol_default(key[0])->0,
    )
}

/// The built-in table below the code point `bound`.
pub open spec fn default_symbol_map_below(bound: int) -> Map<Seq<char>, bool> {
    Map::new(
        |key: Seq<char>| key.len() == 1 && symbol_default(key[0]) is Some && (key[0] as int) < bound,
        |key: Seq<char>| symbol_default(key[0])->0,
    )
}

/// The override table of a fresh configuration: the 42 ASCII digits and
/// punctuation marks, each with its built-in width.
pub fn default_symbol_fullwidth_map() -> (table: StringHashMap<bool>)
    ensures
        table@ == default_symbol_map(),
{
    let mut table: StringHashMap<bool> = StringHashMap::new();
    let mut code: u32 = 0x21;
    assert(table@ =~= default_symbol_map_below(0x21));
    while code < 0x7F
        invariant
            0x21 <= code <= 0x7F,
            table@ == default_symbol_map_below(code as int),
        decreases 0x7F - code,
    {
        let found = char::from_u32(code);
        match found {
            Some(c) => {
                match default_symbol_fullwidth(c) {
                    Some(full) => {
                        table.insert(char_text(c), full);
                    },
                    None => {},
                }
                assert(table@ =~= default_symbol_map_below(code + 1)) by {
                    assert forall|key: Seq<char>|
                        key.len() == 1 && key[0] == c implies key == seq![c] by {
                        assert(key =~= seq![c]);
                    }
                }
            },
            None => {},
        }
        code += 1;
    }
    assert(table@ =~= default_symbol_map());
    table
}

/// The table that holds the given entries; of two entries for one symbol
/// the later one counts.
pub open spec fn table_of(entries: Seq<(Seq<char>, bool)>) -> Map<Seq<char>, bool>
    decreases entries.len(),
{
    if entries.len() == 0 {
        Map::empty()
    } else {
        table_of(entries.drop_last()).insert(entries.last().0, entries.last().1)
    }
}

/// Builds a per-symbol table from its entries.
pub fn symbol_table_from(entries: &Vec<(String, bool)>) -> (table: SymbolWidthTable)
    ensures
        table@ == table_of(entries.deep_view()),
{
    let mut table: StringHashMap<bool> = StringHashMap::new();
    let mut i: usize = 0;
    assert(entries.deep_view().take(0) =~= Seq::empty());
    while i < entries.len()
        invariant
            i <= entries.len(),
            table@ == table_of(entries.deep_view().take(i as int)),
        decreases entries.len() - i,
    {
        proof {
            let all = entries.deep_view();
            assert(all.take(i + 1).drop_last() =~= all.take(i as int));
            assert(all.take(i + 1).last() == all[i as int]);
            assert(all[i as int] == (entries[i as int].0@, entries[i as int].1));
        }
        table.insert(entries[i].0.clone(), entries[i].1);
        i += 1;
    }
    assert(entries.deep_view().take(i as int) =~= entries.deep_view());
    table
}

/// The position of `key` among the answers that a legacy table gives for
/// one group: how many of the first `upto` characters of `keys` the table
/// marks full-width (`full` = true) or half-width (`full` = false).
pub open spec fn legacy_votes(
    table: Map<Seq<char>, bool>,
    keys: Seq<char>,
    full: bool,
) -> nat
    decreases keys.len(),
{
    if keys.len() == 0 {
        0
    } else {
        let rest = legacy_votes(table, keys.drop_last(), full);
        let key = seq![keys.last()];
        if table.contains_key(key) && table[key] == full {
            rest + 1
        } else {
            rest
        }
    }
}

/// The width mode that a legacy per-symbol table implies for the group
/// made of `keys`: `fallback` where the table names none of them, else
/// full-width unless the half-width entries outnumber the full-width ones.
pub open spec fn legacy_group_mode(
    table: Map<Seq<char>, bool>,
    keys: Seq<char>,
    fallback: WidthMode,
) -> WidthMode {
    let full = legacy_votes(table, keys, true);
    let half = legacy_votes(table, keys, false);
    if full == 0 && half == 0 {
        fallback
    } else if full >= half {
        WidthMode::Full
    } else {
        WidthMode::Half
    }
}

/// Derives one group's width mode from a legacy per-symbol table.
pub fn group_mode_from_legacy(
    symbol_fullwidth: &StringHashMap<bool>,
    keys: &str,
    fallback: WidthMode,
) -> (mode: WidthMode)
    ensures
        mode == legacy_group_mode(symbol_fullwidth@, keys@, fallback),
{
    let keys = to_chars(keys);
    let mut full: usize = 0;
    let mut half: usize = 0;
    let mut i: usize = 0;
    while i < keys.len()
        invariant
            i <= keys.len(),
            full == legacy_votes(symbol_fullwidth@, keys@.take(i as int), true),
            half == legacy_votes(symbol_fullwidth@, keys@.take(i as int), false),
            full <= i,
            half <= i,
        decreases keys.len() - i,
    {
        let key = char_text(keys[i]);
        proof {
            assert(keys@.take(i + 1).drop_last() =~= keys@.take(i as int));
            assert(keys@.take(i + 1).last() == keys@[i as int]);
        }
        match symbol_fullwidth.get(key.as_str()) {
            Some(value) => {
                if *value {
                    full += 1;
                } else {
                    half += 1;
                }
            },
            None => {},
        }
        i += 1;
    }
    assert(keys@.take(keys@.len() as int) =~= keys@);
    if full == 0 && half == 0 {
        fallback
    } else if full >= half {
        WidthMode::Full
    } else {
        WidthMode::Half
    }
}

/// The group modes that a legacy per-symbol table implies. The alphabet
/// group has no symbols and keeps its default.
pub open spec fn legacy_groups(table: Map<Seq<char>, bool>) -> CharacterWidthGroups {
    let defaults = default_groups();
    CharacterWidthGroups {
        alphabet: defaults.alphabet,
        number: legacy_group_mode(table, "0123456789"@, defaults.number),
        bracket: legacy_group_mode(table, "(){}[]"@, defaults.bracket),
        comma_period: legacy_group_mode(table, ",."@, defaults.comma_period),
        middle_dot_corner_bracket: legacy_group_mode(
            table,
            "/[]"@,
            defaults.middle_dot_corner_bracket,
        ),
        quote: legacy_group_mode(table, "\"'"@, defaults.quote),
        colon_semicolon: legacy_group_mode(table, ":;"@, defaults.colon_semicolon),
        hash_group: legacy_group_mode(table, "#%&@$^_|`\\"@, defaults.hash_group),
        tilde: legacy_group_mode(table, "~"@, defaults.tilde),
        math_symbol: legacy_group_mode(table, "<>=+-/*"@, defaults.math_symbol),
        question_exclamation: legacy_group_mode(table, "?!"@, defaults.question_exclamation),
    }
}

/// Derives all group modes from a legacy per-symbol table.
pub fn legacy_groups_from_symbol_fullwidth(symbol_fullwidth: &StringHashMap<bool>) -> (groups:
    CharacterWidthGroups)
    ensures
        groups == legacy_groups(symbol_fullwidth@),
{
    let defaults = CharacterWidthGroups::default();
    CharacterWidthGroups {
        alphabet: defaults.alphabet,
        number: group_mode_from_legacy(symbol_fullwidth, "0123456789", defaults.number),
        bracket: group_mode_from_legacy(symbol_fullwidth, "(){}[]", defaults.bracket),
        comma_period: group_mode_from_legacy(symbol_fullwidth, ",.", defaults.comma_period),
        middle_dot_corner_bracket: group_mode_from_legacy(
            symbol_fullwidth,
            "/[]",
            defaults.middle_dot_corner_bracket,
        ),
        quote: group_mode_from_legacy(symbol_fullwidth, "\"'", defaults.quote),
        colon_semicolon: group_mode_from_legacy(symbol_fullwidth, ":;", defaults.colon_semicolon),
        hash_group: group_mode_from_legacy(symbol_fullwidth, "#%&@$^_|`\\", defaults.hash_group),
        tilde: group_mode_from_legacy(symbol_fullwidth, "~", defaults.tilde),
        math_symbol: group_mode_from_legacy(symbol_fullwidth, "<>=+-/*", defaults.math_symbol),
        question_exclamation: group_mode_from_legacy(
            symbol_fullwidth,
            "?!",
            defaults.question_exclamation,
        ),
    }
}

impl Default for CharacterWidthConfig {
    fn default() -> (config: Self)
        ensures
            config@.symbol_fullwidth == default_symbol_map(),
            config@.groups == default_groups(),
    {
        CharacterWidthConfig {
            symbol_fullwidth: default_symbol_fullwidth_map(),
            groups: CharacterWidthGroups::default(),
        }
    }
}

/// Whether a rule is one of the five that older configurations held by
/// default and that the style settings have replaced.
pub open spec fn legacy_removed_row(row: RomajiRuleView) -> bool {
    row.next_input.len() == 0 && ((row.input == seq!['~'] && row.output == seq!['〜']) || (
    row.input == seq!['.'] && row.output == seq!['。']) || (row.input == seq![','] && row.output
        == seq!['、']) || (row.input == seq!['['] && row.output == seq!['「']) || (row.input
        == seq![']'] && row.output == seq!['」']))
}

/// Whether a rule is one of the five retired default rules.
pub fn is_legacy_removed_default_row(row: &RomajiRule) -> (b: bool)
    ensures
        b == legacy_removed_row(row@),
{
    let input = row.input.as_str();
    let output = row.output.as_str();
    row.next_input.as_str().is_empty() && ((is_single_char(input, '~') && is_single_char(
        output,
        '〜',
    )) || (is_single_char(input, '.') && is_single_char(output, '。')) || (is_single_char(
        input,
        ',',
    ) && is_single_char(output, '、')) || (is_single_char(input, '[') && is_single_char(
        output,
        '「',
    )) || (is_single_char(input, ']') && is_single_char(output, '」')))
}

/// The rules that stay when the retired default rules are taken out.
pub open spec fn kept_rows(rows: Seq<RomajiRuleView>) -> Seq<RomajiRuleView>
    decreases rows.len(),
{
    if rows.len() == 0 {
        Seq::empty()
    } else if legacy_removed_row(rows.last()) {
        kept_rows(rows.drop_last())
    } else {
        kept_rows(rows.drop_last()).push(rows.last())
    }
}

/// A configuration brought up to the version of today.
///
/// One that carries today's version stays as it is. An older one had its
/// group modes derived from the per-symbol table `legacy` (its own table
/// where none is given); where its group modes are still the derived ones
/// they give way to the defaults. The retired default rules leave its
/// romaji table, and it carries today's version.
pub open spec fn migrated(config: AppConfigView, legacy: Option<Map<Seq<char>, bool>>)
    -> AppConfigView {
    if config.version == CONFIG_VERSION@ {
        config
    } else {
        let table = match legacy {
            Some(table) => table,
            None => config.character_width.symbol_fullwidth,
        };
        AppConfigView {
            version: CONFIG_VERSION@,
            rows: kept_rows(config.rows),
            character_width: CharacterWidthConfigView {
                groups: if config.character_width.groups == legacy_groups(table) {
                    default_groups()
                } else {
                    config.character_width.groups
                },
                ..config.character_width
            },
            ..config
        }
    }
}

/// The configuration of a fresh installation whose romaji table is `rows`.
pub open spec fn fresh_config(rows: Seq<RomajiRuleView>) -> AppConfigView {
    AppConfigView {
        version: CONFIG_VERSION@,
        zenzai: ZenzaiConfigView { enable: false, profile: Seq::empty(), backend: DEFAULT_BACKEND@ },
        shortcuts: ShortcutConfig { ctrl_space_toggle: true, alt_backquote_toggle: true },
        general: GeneralConfig {
            punctuation_style: PunctuationStyle::ToutenKuten,
            symbol_style: SymbolStyle::CornerBracketMiddleDot,
            space_input: SpaceInputMode::AlwaysHalf,
            numpad_input: NumpadInputMode::AlwaysHalf,
        },
        rows,
        character_width: CharacterWidthConfigView {
            symbol_fullwidth: default_symbol_map(),
            groups: default_groups(),
        },
    }
}

impl RomajiTableConfig {
    /// The romaji table that the text `table` holds.
    pub fn from_table(table: &str) -> (config: RomajiTableConfig)
        ensures
            config.rows.deep_view() == romaji_rows(table@),
    {
        RomajiTableConfig { rows: default_romaji_rows(table) }
    }
}

impl AppConfig {
    /// The configuration of a fresh installation, with the romaji table
    /// that the text `table` holds.
    pub fn with_romaji_table(table: &str) -> (config: AppConfig)
        ensures
            config@ == fresh_config(romaji_rows(table@)),
    {
        AppConfig {
            version: String::from_str(CONFIG_VERSION),
            zenzai: ZenzaiConfig {
                enable: false,
                profile: String::new(),
                backend: String::from_str(DEFAULT_BACKEND),
            },
            shortcuts: ShortcutConfig::default(),
            general: GeneralConfig::default(),
            romaji_table: RomajiTableConfig::from_table(table),
            character_width: CharacterWidthConfig::default(),
        }
    }

    /// Whether the configuration carries another version than today's.
    pub fn needs_migration(&self) -> (b: bool)
        ensures
            b == (self@.version != CONFIG_VERSION@),
    {
        !same_text(self.version.as_str(), CONFIG_VERSION)
    }

    /// Brings a configuration that was read from its file up to the
    /// version of today. `legacy_symbol_fullwidth` is the per-symbol table
    /// as the file's older layout held it, where the file could be read
    /// that way.
    pub fn migrate(self, legacy_symbol_fullwidth: Option<StringHashMap<bool>>) -> (config: AppConfig)
        ensures
            config@ == migrated(
                self@,
                match legacy_symbol_fullwidth {
                    Some(table) => Some(table@),
                    None => None,
                },
            ),
    {
        if !self.needs_migration() {
            return self;
        }
        let mut config = self;
        let legacy_groups = match &legacy_symbol_fullwidth {
            Some(table) => legacy_groups_from_symbol_fullwidth(table),
            None => legacy_groups_from_symbol_fullwidth(&config.character_width.symbol_fullwidth),
        };
        if config.character_width.groups == legacy_groups {
            config.character_width.groups = CharacterWidthGroups::default();
        }
        let mut rows: Vec<RomajiRule> = Vec::new();
        let mut i: usize = 0;
        assert(rows.deep_view() =~= kept_rows(config.romaji_table.rows.deep_view().take(0)));
        while i < config.romaji_table.rows.len()
            invariant
                i <= config.romaji_table.rows.len(),
                rows.deep_view() == kept_rows(config.romaji_table.rows.deep_view().take(i as int)),
            decreases config.romaji_table.rows.len() - i,
        {
            let ghost all = config.romaji_table.rows.deep_view();
            let ghost before = rows.deep_view();
            let row = &config.romaji_table.rows[i];
            proof {
                assert(all.take(i + 1).drop_last() =~= all.take(i as int));
                assert(all.take(i + 1).last() == row@);
            }
            if !is_legacy_removed_default_row(row) {
                rows.push(row.duplicate());
                assert(rows.deep_view() =~= before.push(row@));
            }
            i += 1;
        }
        assert(config.romaji_table.rows.deep_view().take(i as int)
            =~= config.romaji_table.rows.deep_view());
        config.romaji_table.rows = rows;
        config.version = String::from_str(CONFIG_VERSION);
        config
    }
}

} // verus!
