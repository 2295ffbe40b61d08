//! The width and symbol normalizer: which glyph a typed character becomes
//! under the configured styles, romaji overrides and width groups.

use vstd::hash_map::StringHashMap;
use vstd::prelude::*;
use vstd::string::*;

use crate::config::{
    default_symbol_fullwidth, symbol_default, CharacterWidthConfig, CharacterWidthConfigView,
    CharacterWidthGroups, GeneralConfig, PunctuationStyle, RomajiRule, RomajiRuleView, SymbolStyle,
    WidthMode,
};
use crate::text::{char_text, is_single_char};

verus! {

/// Whether `c` is one of the 32 ASCII punctuation marks.
pub open spec fn is_ascii_punctuation(c: char) -> bool {
    let code = c as int;
    (0x21 <= code <= 0x2F) || (0x3A <= code <= 0x40) || (0x5B <= code <= 0x60) || (0x7B <= code
        <= 0x7E)
}

/// Whether `c` is one of the ten ASCII digits.
pub open spec fn is_ascii_digit(c: char) -> bool {
    '0' <= c <= '9'
}

/// The character `0xFEE0` code points above `c`: the full-width form of a
/// printable ASCII character.
pub open spec fn wide_form(c: char) -> char {
    ((c as int) + 0xFEE0) as char
}

/// The full-width glyph of a punctuation mark in the fixed table. Nine
/// marks have a glyph of their own; every other mark has its full-width
/// form. A character that is no ASCII punctuation mark is not in the table.
pub open spec fn legacy_fullwidth(c: char) -> Option<char> {
    match c {
        '"' => Some('”'),
        '\'' => Some('’'),
        ',' => Some('、'),
        '-' => Some('ー'),
        '.' => Some('。'),
        '/' => Some('・'),
        '[' => Some('「'),
        '\\' => Some('￥'),
        ']' => Some('」'),
        _ => if is_ascii_punctuation(c) {
            Some(wide_form(c))
        } else {
            None
        },
    }
}

/// The punctuation mark whose glyph in the fixed table is `c`.
pub open spec fn legacy_halfwidth(c: char) -> Option<char> {
    match c {
        '”' => Some('"'),
        '’' => Some('\''),
        '、' => Some(','),
        'ー' => Some('-'),
        '。' => Some('.'),
        '・' => Some('/'),
        '「' => Some('['),
        '￥' => Some('\\'),
        '」' => Some(']'),
        _ => {
            let code = c as int;
            if 0xFF01 <= code <= 0xFF5E {
                let narrow = (code - 0xFEE0) as char;
                if is_ascii_punctuation(narrow) && legacy_fullwidth(narrow) == Some(c) {
                    Some(narrow)
                } else {
                    None
                }
            } else {
                None
            }
        },
    }
}

/// The full-width glyph of a symbol that the configuration can switch: the
/// fixed table, and the full-width form of each digit.
pub open spec fn configurable_fullwidth(c: char) -> Option<char> {
    if is_ascii_digit(c) {
        Some(wide_form(c))
    } else {
        legacy_fullwidth(c)
    }
}

/// The full-width form of a lower-case ASCII letter.
pub open spec fn letter_fullwidth(c: char) -> Option<char> {
    if 'a' <= c <= 'z' {
        Some(wide_form(c))
    } else {
        None
    }
}

/// Whether the symbol `c` is written full-width: the table's own entry
/// where it has one, else the built-in default, else no.
pub open spec fn symbol_is_fullwidth(table: Map<Seq<char>, bool>, c: char) -> bool {
    if table.contains_key(seq![c]) {
        table[seq![c]]
    } else {
        match symbol_default(c) {
            Some(full) => full,
            None => false,
        }
    }
}

/// What one character becomes when a text is turned half-width.
pub open spec fn halfwidth_char(c: char) -> char {
    match legacy_halfwidth(c) {
        Some(narrow) => narrow,
        None => c,
    }
}

/// What one character becomes when a text is turned full-width.
pub open spec fn fullwidth_char(c: char, process_alphabet: bool) -> char {
    if process_alphabet && letter_fullwidth(c) is Some {
        letter_fullwidth(c)->0
    } else {
        match legacy_fullwidth(c) {
            Some(wide) => wide,
            None => c,
        }
    }
}

/// What one character becomes when a text is turned full-width under a
/// per-symbol table.
pub open spec fn fullwidth_char_with_config(
    c: char,
    process_alphabet: bool,
    table: Map<Seq<char>, bool>,
) -> char {
    if process_alphabet && letter_fullwidth(c) is Some {
        letter_fullwidth(c)->0
    } else if configurable_fullwidth(c) is Some && symbol_is_fullwidth(table, c) {
        configurable_fullwidth(c)->0
    } else {
        c
    }
}

/// The canonical ASCII key of a typed character: the variants of the
/// caret, the tilde, the backslash and yen sign, the comma, the period and
/// the two quotes fold onto their key; every other character is its own.
pub open spec fn normalized_key(c: char) -> char {
    match c {
        'ˆ' | '＾' => '^',
        '〜' | '～' => '~',
        '＼' | '￥' | '¥' => '\\',
        '，' => ',',
        '．' => '.',
        '”' => '"',
        '’' => '\'',
        _ => c,
    }
}

/// Whether `rule` overrides the key: its input is the key alone and it
/// writes something.
pub open spec fn rule_applies(rule: RomajiRuleView, key: char) -> bool {
    rule.input == seq![key] && rule.output.len() > 0
}

/// The output of the first rule that overrides `key`.
pub open spec fn first_rule_output(key: char, rows: Seq<RomajiRuleView>) -> Option<Seq<char>>
    decreases rows.len(),
{
    if rows.len() == 0 {
        None
    } else if rule_applies(rows[0], key) {
        Some(rows[0].output)
    } else {
        first_rule_output(key, rows.drop_first())
    }
}

/// The romaji override of a key: rules override punctuation marks only,
/// and the first rule that applies wins.
pub open spec fn romaji_override(key: char, rows: Seq<RomajiRuleView>) -> Option<Seq<char>> {
    if is_ascii_punctuation(key) {
        first_rule_output(key, rows)
    } else {
        None
    }
}

/// The glyph that the punctuation style or the symbol style gives one of
/// the five keys it governs.
pub open spec fn basic_setting(key: char, general: GeneralConfig) -> Option<char> {
    match key {
        ',' => Some(
            match general.punctuation_style {
                PunctuationStyle::ToutenKuten | PunctuationStyle::ToutenFullwidthPeriod => '、',
                _ => '，',
            },
        ),
        '.' => Some(
            match general.punctuation_style {
                PunctuationStyle::ToutenKuten | PunctuationStyle::FullwidthCommaKuten => '。',
                _ => '．',
            },
        ),
        '[' => Some(
            match general.symbol_style {
                SymbolStyle::CornerBracketMiddleDot | SymbolStyle::CornerBracketBackslash => '「',
                _ => '［',
            },
        ),
        ']' => Some(
            match general.symbol_style {
                SymbolStyle::CornerBracketMiddleDot | SymbolStyle::CornerBracketBackslash => '」',
                _ => '］',
            },
        ),
        '/' => Some(
            match general.symbol_style {
                SymbolStyle::CornerBracketMiddleDot | SymbolStyle::SquareBracketMiddleDot => '・',
                _ => '／',
            },
        ),
        _ => None,
    }
}

/// The glyph of a key under the per-symbol table: its full-width glyph
/// where the symbol is switched to full-width, else the key itself.
pub open spec fn legacy_glyph(key: char, table: Map<Seq<char>, bool>) -> char {
    if configurable_fullwidth(key) is Some && symbol_is_fullwidth(table, key) {
        configurable_fullwidth(key)->0
    } else {
        key
    }
}

/// The eleven groups of glyphs whose width is configured.
#[derive(Debug, Clone, Copy, PartialEq, Eq, Structural)]
pub enum WidthGroup {
    Alphabet,
    Number,
    Bracket,
    CommaPeriod,
    MiddleDotCornerBracket,
    Quote,
    ColonSemicolon,
    HashGroup,
    Tilde,
    MathSymbol,
    QuestionExclamation,
}

/// The configured mode of a group.
pub open spec fn group_mode(groups: CharacterWidthGroups, group: WidthGroup) -> WidthMode {
    match group {
        WidthGroup::Alphabet => groups.alphabet,
        WidthGroup::Number => groups.number,
        WidthGroup::Bracket => groups.bracket,
        WidthGroup::CommaPeriod => groups.comma_period,
        WidthGroup::MiddleDotCornerBracket => groups.middle_dot_corner_bracket,
        WidthGroup::Quote => groups.quote,
        WidthGroup::ColonSemicolon => groups.colon_semicolon,
        WidthGroup::HashGroup => groups.hash_group,
        WidthGroup::Tilde => groups.tilde,
        WidthGroup::MathSymbol => groups.math_symbol,
        WidthGroup::QuestionExclamation => groups.question_exclamation,
    }
}

/// The group of a glyph, with what the glyph becomes in half mode and in
/// full mode.
pub struct WidthForms {
    pub group: WidthGroup,
    pub half: char,
    pub full: char,
}

/// The forms of a glyph that has the plain pair of an ASCII character and
/// its full-width form.
pub open spec fn plain_pair(group: WidthGroup, narrow: char) -> Option<WidthForms> {
    Some(WidthForms { group, half: narrow, full: wide_form(narrow) })
}

/// The ASCII character whose plain pair `c` belongs to: `c` itself where
/// it is printable ASCII, the character `0xFEE0` below where `c` is a
/// full-width form.
pub open spec fn plain_narrow(c: char) -> char {
    let code = c as int;
    if 0xFF01 <= code <= 0xFF5E {
        (code - 0xFEE0) as char
    } else {
        c
    }
}

/// The table of the width groups: for each glyph that a group recognizes,
/// the group and the glyph's two forms. A glyph outside the table passes
/// through the width groups unchanged.
pub open spec fn width_forms(c: char) -> Option<WidthForms> {
    let narrow = plain_narrow(c);
    match c {
        ',' | '、' | '､' => Some(
            WidthForms { group: WidthGroup::CommaPeriod, half: '､', full: '、' },
        ),
        '，' => Some(WidthForms { group: WidthGroup::CommaPeriod, half: ',', full: '，' }),
        '.' | '。' | '｡' => Some(
            WidthForms { group: WidthGroup::CommaPeriod, half: '｡', full: '。' },
        ),
        '．' => Some(WidthForms { group: WidthGroup::CommaPeriod, half: '.', full: '．' }),
        '･' | '・' => Some(
            WidthForms { group: WidthGroup::MiddleDotCornerBracket, half: '･', full: '・' },
        ),
        '｢' | '「' => Some(
            WidthForms { group: WidthGroup::MiddleDotCornerBracket, half: '｢', full: '「' },
        ),
        '｣' | '」' => Some(
            WidthForms { group: WidthGroup::MiddleDotCornerBracket, half: '｣', full: '」' },
        ),
        '"' | '”' => Some(WidthForms { group: WidthGroup::Quote, half: '"', full: '”' }),
        '\'' | '’' => Some(WidthForms { group: WidthGroup::Quote, half: '\'', full: '’' }),
        'ˆ' => Some(WidthForms { group: WidthGroup::HashGroup, half: '^', full: 'ˆ' }),
        '\\' | '￥' | '＼' | '¥' => Some(
            WidthForms { group: WidthGroup::HashGroup, half: '\\', full: '＼' },
        ),
        '〜' => Some(WidthForms { group: WidthGroup::Tilde, half: '~', full: '〜' }),
        '-' | 'ー' => Some(WidthForms { group: WidthGroup::MathSymbol, half: '-', full: 'ー' }),
        '－' => Some(WidthForms { group: WidthGroup::MathSymbol, half: '-', full: '－' }),
        _ => {
            if 'a' <= narrow <= 'z' || 'A' <= narrow <= 'Z' {
                plain_pair(WidthGroup::Alphabet, narrow)
            } else if '0' <= narrow <= '9' {
                plain_pair(WidthGroup::Number, narrow)
            } else if narrow == '(' || narrow == ')' || narrow == '{' || narrow == '}' || narrow
                == '[' || narrow == ']' {
                plain_pair(WidthGroup::Bracket, narrow)
            } else if narrow == ':' || narrow == ';' {
                plain_pair(WidthGroup::ColonSemicolon, narrow)
            } else if narrow == '#' || narrow == '$' || narrow == '%' || narrow == '&' || narrow
                == '@' || narrow == '^' || narrow == '_' || narrow == '|' || narrow == '`' {
                plain_pair(WidthGroup::HashGroup, narrow)
            } else if narrow == '~' {
                plain_pair(WidthGroup::Tilde, narrow)
            } else if narrow == '<' || narrow == '>' || narrow == '=' || narrow == '+' || narrow
                == '/' || narrow == '*' {
                plain_pair(WidthGroup::MathSymbol, narrow)
            } else if narrow == '?' || narrow == '!' {
                plain_pair(WidthGroup::QuestionExclamation, narrow)
            } else {
                None
            }
        },
    }
}

/// What the width groups make of one glyph: its half form where its group
/// is in half mode, its full form where the group is in full mode, and the
/// glyph itself where no group recognizes it.
pub open spec fn width_group_char(c: char, groups: CharacterWidthGroups) -> char {
    match width_forms(c) {
        Some(forms) => match group_mode(groups, forms.group) {
            WidthMode::Half => forms.half,
            WidthMode::Full => forms.full,
        },
        None => c,
    }
}

/// What the width groups make of a glyph that came from the key
/// `source_key`. A middle dot that the slash key wrote belongs to the
/// math-symbol group, as the slash does, and not to the middle-dot group.
pub open spec fn width_group_char_from_key(
    c: char,
    source_key: char,
    groups: CharacterWidthGroups,
) -> char {
    if source_key == '/' && (c == '・' || c == '･') {
        match groups.math_symbol {
            WidthMode::Half => '･',
            WidthMode::Full => '・',
        }
    } else {
        width_group_char(c, groups)
    }
}

/// What one typed character becomes in kana mode, by precedence: the key
/// is normalized; a romaji rule for the key wins outright; else the style
/// settings or, for a key they do not govern, the per-symbol table give
/// the glyph, which the width groups then adjust.
pub open spec fn kana_symbol(
    c: char,
    general: GeneralConfig,
    character_width: CharacterWidthConfigView,
    rows: Seq<RomajiRuleView>,
) -> Seq<char> {
    let key = normalized_key(c);
    match romaji_override(key, rows) {
        Some(output) => output,
        None => {
            let base = match basic_setting(key, general) {
                Some(glyph) => glyph,
                None => legacy_glyph(key, character_width.symbol_fullwidth),
            };
            seq![width_group_char_from_key(base, key, character_width.groups)]
        },
    }
}

/// What a typed text becomes in kana mode: each character's outcome, in
/// order.
pub open spec fn kana_symbols(
    s: Seq<char>,
    general: GeneralConfig,
    character_width: CharacterWidthConfigView,
    rows: Seq<RomajiRuleView>,
) -> Seq<char>
    decreases s.len(),
{
    if s.len() == 0 {
        Seq::empty()
    } else {
        kana_symbols(s.drop_last(), general, character_width, rows) + kana_symbol(
            s.last(),
            general,
            character_width,
            rows,
        )
    }
}

/// Looks the full-width glyph of a punctuation mark up in the fixed table.
pub fn legacy_fullwidth_glyph(c: char) -> (glyph: Option<char>)
    ensures
        glyph == legacy_fullwidth(c),
{
    match c {
        '!' => Some('！'),
        '"' => Some('”'),
        '#' => Some('＃'),
        '$' => Some('＄'),
        '%' => Some('％'),
        '&' => Some('＆'),
        '\'' => Some('’'),
        '(' => Some('（'),
        ')' => Some('）'),
        '*' => Some('＊'),
        '+' => Some('＋'),
        ',' => Some('、'),
        '-' => Some('ー'),
        '.' => Some('。'),
        '/' => Some('・'),
        ':' => Some('：'),
        ';' => Some('；'),
        '<' => Some('＜'),
        '=' => Some('＝'),
        '>' => Some('＞'),
        '?' => Some('？'),
        '@' => Some('＠'),
        '[' => Some('「'),
        '\\' => Some('￥'),
        ']' => Some('」'),
        '^' => Some('＾'),
        '_' => Some('＿'),
        '`' => Some('｀'),
        '{' => Some('｛'),
        '|' => Some('｜'),
        '}' => Some('｝'),
        '~' => Some('～'),
        _ => None,
    }
}

/// Looks up the punctuation mark that the fixed table writes as `c`.
pub fn legacy_halfwidth_key(c: char) -> (key: Option<char>)
    ensures
        key == legacy_halfwidth(c),
{
    match c {
        '！' => Some('!'),
        '”' => Some('"'),
        '＃' => Some('#'),
        '＄' => Some('$'),
        '％' => Some('%'),
        '＆' => Some('&'),
        '’' => Some('\''),
        '（' => Some('('),
        '）' => Some(')'),
        '＊' => Some('*'),
        '＋' => Some('+'),
        '、' => Some(','),
        'ー' => Some('-'),
        '。' => Some('.'),
        '・' => Some('/'),
        '：' => Some(':'),
        '；' => Some(';'),
        '＜' => Some('<'),
        '＝' => Some('='),
        '＞' => Some('>'),
        '？' => Some('?'),
        '＠' => Some('@'),
        '「' => Some('['),
        '￥' => Some('\\'),
        '」' => Some(']'),
        '＾' => Some('^'),
        '＿' => Some('_'),
        '｀' => Some('`'),
        '｛' => Some('{'),
        '｜' => Some('|'),
        '｝' => Some('}'),
        '～' => Some('~'),
        _ => None,
    }
}

/// The full-width glyph of a symbol that the configuration can switch.
pub fn configurable_fullwidth_glyph(c: char) -> (glyph: Option<char>)
    ensures
        glyph == configurable_fullwidth(c),
{
    match c {
        '0' => Some('０'),
        '1' => Some('１'),
        '2' => Some('２'),
        '3' => Some('３'),
        '4' => Some('４'),
        '5' => Some('５'),
        '6' => Some('６'),
        '7' => Some('７'),
        '8' => Some('８'),
        '9' => Some('９'),
        _ => legacy_fullwidth_glyph(c),
    }
}

/// The full-width form of a lower-case ASCII letter.
pub fn letter_fullwidth_glyph(c: char) -> (glyph: Option<char>)
    ensures
        glyph == letter_fullwidth(c),
{
    if 'a' <= c && c <= 'z' {
        char::from_u32(c as u32 + 0xFEE0)
    } else {
        None
    }
}

/// Whether the per-symbol table, or else the built-in default, writes the
/// symbol `c` full-width.
pub fn is_symbol_fullwidth(symbol_fullwidth: &StringHashMap<bool>, c: char) -> (full: bool)
    ensures
        full == symbol_is_fullwidth(symbol_fullwidth@, c),
{
    let key = char_text(c);
    match symbol_fullwidth.get(key.as_str()) {
        Some(full) => *full,
        None => match default_symbol_fullwidth(c) {
            Some(full) => full,
            None => false,
        },
    }
}

/// Turns the full-width glyphs of the fixed table back into their ASCII
/// punctuation marks; every other character stays.
pub fn to_halfwidth(s: &str) -> (out: String)
    ensures
        out@ == s@.map_values(|c: char| halfwidth_char(c)),
{
    let mut out = String::new();
    for c in it: s.chars()
        invariant
            it.seq() == s@,
            out@ == s@.take(it.index() as int).map_values(|c: char| halfwidth_char(c)),
    {
        match legacy_halfwidth_key(c) {
            Some(narrow) => out.push(narrow),
            None => out.push(c),
        }
    }
    out
}

/// Turns ASCII punctuation into the full-width glyphs of the fixed table,
/// and lower-case letters into their full-width forms where
/// `process_alphabet` is set; every other character stays.
pub fn to_fullwidth(s: &str, process_alphabet: bool) -> (out: String)
    ensures
        out@ == s@.map_values(|c: char| fullwidth_char(c, process_alphabet)),
{
    let mut out = String::new();
    for c in it: s.chars()
        invariant
            it.seq() == s@,
            out@ == s@.take(it.index() as int).map_values(
                |c: char| fullwidth_char(c, process_alphabet),
            ),
    {
        let letter = if process_alphabet {
            letter_fullwidth_glyph(c)
        } else {
            None
        };
        match letter {
            Some(wide) => out.push(wide),
            None => match legacy_fullwidth_glyph(c) {
                Some(wide) => out.push(wide),
                None => out.push(c),
            },
        }
    }
    out
}

/// Like [`to_fullwidth`], for digits too, and only for the symbols that
/// the per-symbol table (or else the built-in default) writes full-width.
pub fn to_fullwidth_with_config(
    s: &str,
    process_alphabet: bool,
    symbol_fullwidth: &StringHashMap<bool>,
) -> (out: String)
    ensures
        out@ == s@.map_values(
            |c: char| fullwidth_char_with_config(c, process_alphabet, symbol_fullwidth@),
        ),
{
    let mut out = String::new();
    for c in it: s.chars()
        invariant
            it.seq() == s@,
            out@ == s@.take(it.index() as int).map_values(
                |c: char| fullwidth_char_with_config(c, process_alphabet, symbol_fullwidth@),
            ),
    {
        let letter = if process_alphabet {
            letter_fullwidth_glyph(c)
        } else {
            None
        };
        match letter {
            Some(wide) => out.push(wide),
            None => {
                let glyph = legacy_fullwidth_or_half(c, symbol_fullwidth);
                out.push(glyph);
            },
        }
    }
    out
}

/// Folds the variants of a key onto its canonical ASCII character.
pub fn normalize_input_key(c: char) -> (key: char)
    ensures
        key == normalized_key(c),
{
    match c {
        'ˆ' | '＾' => '^',
        '〜' | '～' => '~',
        '＼' | '￥' | '¥' => '\\',
        '，' => ',',
        '．' => '.',
        '”' => '"',
        '’' => '\'',
        _ => c,
    }
}

/// Finds the romaji rule that overrides a key, and gives its output.
pub fn find_romaji_priority_output(key: char, romaji_rows: &[RomajiRule]) -> (output: Option<
    String,
>)
    ensures
        match output {
            Some(text) => romaji_override(key, romaji_rows.deep_view()) == Some(text@),
            None => romaji_override(key, romaji_rows.deep_view()) is None,
        },
{
    let code = key as u32;
    let is_priority_key = (0x21 <= code && code <= 0x2F) || (0x3A <= code && code <= 0x40) || (0x5B
        <= code && code <= 0x60) || (0x7B <= code && code <= 0x7E);
    if !is_priority_key {
        return None;
    }
    let ghost rows = romaji_rows.deep_view();
    let mut i: usize = 0;
    assert(rows.skip(0) =~= rows);
    while i < romaji_rows.len()
        invariant
            i <= romaji_rows.len(),
            rows == romaji_rows.deep_view(),
            is_ascii_punctuation(key),
            first_rule_output(key, rows) == first_rule_output(key, rows.skip(i as int)),
        decreases romaji_rows.len() - i,
    {
        let row = &romaji_rows[i];
        proof {
            assert(rows.skip(i as int)[0] == row@);
            assert(rows.skip(i as int).drop_first() =~= rows.skip(i + 1));
            assert(first_rule_output(key, rows.skip(i as int)) == if rule_applies(row@, key) {
                Some(row@.output)
            } else {
                first_rule_output(key, rows.skip(i + 1))
            });
        }
        if is_single_char(row.input.as_str(), key) && !row.output.as_str().is_empty() {
            let output = row.output.clone();
            assert(rule_applies(row@, key));
            assert(first_rule_output(key, rows) == Some(output@));
            return Some(output);
        }
        i += 1;
    }
    assert(rows.skip(i as int).len() == 0);
    None
}

/// The glyph that the punctuation style or the symbol style gives a key.
pub fn apply_basic_setting(key: char, general: &GeneralConfig) -> (glyph: Option<char>)
    ensures
        glyph == basic_setting(key, *general),
{
    match key {
        ',' => Some(
            match general.punctuation_style {
                PunctuationStyle::ToutenKuten | PunctuationStyle::ToutenFullwidthPeriod => '、',
                PunctuationStyle::FullwidthCommaFullwidthPeriod
                | PunctuationStyle::FullwidthCommaKuten => '，',
            },
        ),
        '.' => Some(
            match general.punctuation_style {
                PunctuationStyle::ToutenKuten | PunctuationStyle::FullwidthCommaKuten => '。',
                PunctuationStyle::FullwidthCommaFullwidthPeriod
                | PunctuationStyle::ToutenFullwidthPeriod => '．',
            },
        ),
        '[' => Some(
            match general.symbol_style {
                SymbolStyle::CornerBracketMiddleDot | SymbolStyle::CornerBracketBackslash => '「',
                SymbolStyle::SquareBracketBackslash | SymbolStyle::SquareBracketMiddleDot => '［',
            },
        ),
        ']' => Some(
            match general.symbol_style {
                SymbolStyle::CornerBracketMiddleDot | SymbolStyle::CornerBracketBackslash => '」',
                SymbolStyle::SquareBracketBackslash | SymbolStyle::SquareBracketMiddleDot => '］',
            },
        ),
        '/' => Some(
            match general.symbol_style {
                SymbolStyle::CornerBracketMiddleDot | SymbolStyle::SquareBracketMiddleDot => '・',
                SymbolStyle::SquareBracketBackslash | SymbolStyle::CornerBracketBackslash => '／',
            },
        ),
        _ => None,
    }
}

/// The glyph of a key under the per-symbol table.
pub fn legacy_fullwidth_or_half(key: char, symbol_fullwidth: &StringHashMap<bool>) -> (glyph: char)
    ensures
        glyph == legacy_glyph(key, symbol_fullwidth@),
{
    match configurable_fullwidth_glyph(key) {
        Some(fullwidth) => {
            if is_symbol_fullwidth(symbol_fullwidth, key) {
                fullwidth
            } else {
                key
            }
        },
        None => key,
    }
}

/// The glyph of a two-form pair under a width mode: the half form in half
/// mode; in full mode the full form for either member of the pair, and
/// `current` itself for any other character.
pub open spec fn toggled(current: char, mode: WidthMode, half: char, full: char) -> char {
    match mode {
        WidthMode::Half => half,
        WidthMode::Full => if current == half || current == full {
            full
        } else {
            current
        },
    }
}

/// Picks the glyph of a two-form pair for `current` under `mode`.
pub fn toggle_with_mode(current: char, mode: WidthMode, half: char, full: char) -> (out: char)
    ensures
        out == toggled(current, mode, half, full),
{
    match mode {
        WidthMode::Half => half,
        WidthMode::Full => {
            if current == half || current == full {
                full
            } else {
                current
            }
        },
    }
}

/// What a group makes of a glyph: the glyph's form under the group's mode
/// where the glyph is the group's, and nothing where it is not.
pub open spec fn group_glyph(c: char, groups: CharacterWidthGroups, group: WidthGroup) -> Option<
    char,
> {
    match width_forms(c) {
        Some(forms) => if forms.group == group {
            Some(width_group_char(c, groups))
        } else {
            None
        },
        None => None,
    }
}

/// The glyph of a letter or a digit (`narrow` its ASCII form) under `mode`.
fn toggle_plain(narrow: char, mode: WidthMode) -> (out: char)
    requires
        'a' <= narrow <= 'z' || 'A' <= narrow <= 'Z' || '0' <= narrow <= '9',
    ensures
        out == match mode {
            WidthMode::Half => narrow,
            WidthMode::Full => wide_form(narrow),
        },
{
    match mode {
        WidthMode::Half => narrow,
        WidthMode::Full => match char::from_u32(narrow as u32 + 0xFEE0) {
            Some(wide) => wide,
            None => narrow,
        },
    }
}

/// The ASCII form of a full-width letter or digit.
fn narrow_form(c: char) -> (narrow: char)
    requires
        0xFF01 <= c as int <= 0xFF5E,
    ensures
        narrow == plain_narrow(c),
{
    match char::from_u32(c as u32 - 0xFEE0) {
        Some(narrow) => narrow,
        None => c,
    }
}

/// The letters, in their two forms.
fn alphabet_glyph(c: char, groups: &CharacterWidthGroups) -> (out: Option<char>)
    ensures
        out == group_glyph(c, *groups, WidthGroup::Alphabet),
{
    match c {
        'a'..='z' | 'A'..='Z' => Some(toggle_plain(c, groups.alphabet)),
        'ａ'..='ｚ' | 'Ａ'..='Ｚ' => Some(toggle_plain(narrow_form(c), groups.alphabet)),
        _ => None,
    }
}

/// The digits, in their two forms.
fn number_glyph(c: char, groups: &CharacterWidthGroups) -> (out: Option<char>)
    ensures
        out == group_glyph(c, *groups, WidthGroup::Number),
{
    match c {
        '0'..='9' => Some(toggle_plain(c, groups.number)),
        '０'..='９' => Some(toggle_plain(narrow_form(c), groups.number)),
        _ => None,
    }
}

/// The round, curly and square brackets.
fn bracket_glyph(c: char, groups: &CharacterWidthGroups) -> (out: Option<char>)
    ensures
        out == group_glyph(c, *groups, WidthGroup::Bracket),
{
    match c {
        '(' | '（' => Some(toggle_with_mode(c, groups.bracket, '(', '（')),
        ')' | '）' => Some(toggle_with_mode(c, groups.bracket, ')', '）')),
        '{' | '｛' => Some(toggle_with_mode(c, groups.bracket, '{', '｛')),
        '}' | '｝' => Some(toggle_with_mode(c, groups.bracket, '}', '｝')),
        '[' | '［' => Some(toggle_with_mode(c, groups.bracket, '[', '［')),
        ']' | '］' => Some(toggle_with_mode(c, groups.bracket, ']', '］')),
        _ => None,
    }
}

/// The comma and the period: the Japanese marks and the full-width marks
/// each keep to their own half form.
fn comma_period_glyph(c: char, groups: &CharacterWidthGroups) -> (out: Option<char>)
    ensures
        out == group_glyph(c, *groups, WidthGroup::CommaPeriod),
{
    match c {
        ',' | '、' | '､' => Some(
            match groups.comma_period {
                WidthMode::Half => '､',
                WidthMode::Full => '、',
            },
        ),
        '，' => Some(
            match groups.comma_period {
                WidthMode::Half => ',',
                WidthMode::Full => '，',
            },
        ),
        '.' | '。' | '｡' => Some(
            match groups.comma_period {
                WidthMode::Half => '｡',
                WidthMode::Full => '。',
            },
        ),
        '．' => Some(
            match groups.comma_period {
                WidthMode::Half => '.',
                WidthMode::Full => '．',
            },
        ),
        _ => None,
    }
}

/// The middle dot and the corner brackets.
fn middle_dot_corner_bracket_glyph(c: char, groups: &CharacterWidthGroups) -> (out: Option<char>)
    ensures
        out == group_glyph(c, *groups, WidthGroup::MiddleDotCornerBracket),
{
    match c {
        '･' | '・' => Some(toggle_with_mode(c, groups.middle_dot_corner_bracket, '･', '・')),
        '｢' | '「' => Some(toggle_with_mode(c, groups.middle_dot_corner_bracket, '｢', '「')),
        '｣' | '」' => Some(toggle_with_mode(c, groups.middle_dot_corner_bracket, '｣', '」')),
        _ => None,
    }
}

/// The double and the single quote.
fn quote_glyph(c: char, groups: &CharacterWidthGroups) -> (out: Option<char>)
    ensures
        out == group_glyph(c, *groups, WidthGroup::Quote),
{
    match c {
        '"' | '”' => Some(toggle_with_mode(c, groups.quote, '"', '”')),
        '\'' | '’' => Some(toggle_with_mode(c, groups.quote, '\'', '’')),
        _ => None,
    }
}

/// The colon and the semicolon.
fn colon_semicolon_glyph(c: char, groups: &CharacterWidthGroups) -> (out: Option<char>)
    ensures
        out == group_glyph(c, *groups, WidthGroup::ColonSemicolon),
{
    match c {
        ':' | '：' => Some(toggle_with_mode(c, groups.colon_semicolon, ':', '：')),
        ';' | '；' => Some(toggle_with_mode(c, groups.colon_semicolon, ';', '；')),
        _ => None,
    }
}

/// The catch-all group of `#$%&@^_|` and the backquote, with the backslash
/// and its yen-sign variants.
fn hash_group_glyph(c: char, groups: &CharacterWidthGroups) -> (out: Option<char>)
    ensures
        out == group_glyph(c, *groups, WidthGroup::HashGroup),
{
    match c {
        '#' | '＃' => Some(toggle_with_mode(c, groups.hash_group, '#', '＃')),
        '$' | '＄' => Some(toggle_with_mode(c, groups.hash_group, '$', '＄')),
        '%' | '％' => Some(toggle_with_mode(c, groups.hash_group, '%', '％')),
        '&' | '＆' => Some(toggle_with_mode(c, groups.hash_group, '&', '＆')),
        '@' | '＠' => Some(toggle_with_mode(c, groups.hash_group, '@', '＠')),
        '^' | '＾' | 'ˆ' => Some(toggle_with_mode(c, groups.hash_group, '^', '＾')),
        '_' | '＿' => Some(toggle_with_mode(c, groups.hash_group, '_', '＿')),
        '|' | '｜' => Some(toggle_with_mode(c, groups.hash_group, '|', '｜')),
        '`' | '｀' => Some(toggle_with_mode(c, groups.hash_group, '`', '｀')),
        '\\' | '￥' | '＼' | '¥' => Some(
            match groups.hash_group {
                WidthMode::Half => '\\',
                WidthMode::Full => '＼',
            },
        ),
        _ => None,
    }
}

/// The tilde and the wave dash.
fn tilde_glyph(c: char, groups: &CharacterWidthGroups) -> (out: Option<char>)
    ensures
        out == group_glyph(c, *groups, WidthGroup::Tilde),
{
    match c {
        '~' | '～' | '〜' => Some(
            match groups.tilde {
                WidthMode::Half => '~',
                WidthMode::Full => match c {
                    '〜' => '〜',
                    _ => '～',
                },
            },
        ),
        _ => None,
    }
}

/// The signs of arithmetic and comparison, the slash among them.
fn math_symbol_glyph(c: char, groups: &CharacterWidthGroups) -> (out: Option<char>)
    ensures
        out == group_glyph(c, *groups, WidthGroup::MathSymbol),
{
    match c {
        '<' | '＜' => Some(toggle_with_mode(c, groups.math_symbol, '<', '＜')),
        '>' | '＞' => Some(toggle_with_mode(c, groups.math_symbol, '>', '＞')),
        '=' | '＝' => Some(toggle_with_mode(c, groups.math_symbol, '=', '＝')),
        '+' | '＋' => Some(toggle_with_mode(c, groups.math_symbol, '+', '＋')),
        '-' | 'ー' | '－' => Some(
            match groups.math_symbol {
                WidthMode::Half => '-',
                WidthMode::Full => match c {
                    '－' => '－',
                    _ => 'ー',
                },
            },
        ),
        '/' | '／' => Some(toggle_with_mode(c, groups.math_symbol, '/', '／')),
        '*' | '＊' => Some(toggle_with_mode(c, groups.math_symbol, '*', '＊')),
        _ => None,
    }
}

/// The question mark and the exclamation mark.
fn question_exclamation_glyph(c: char, groups: &CharacterWidthGroups) -> (out: Option<char>)
    ensures
        out == group_glyph(c, *groups, WidthGroup::QuestionExclamation),
{
    match c {
        '?' | '？' => Some(toggle_with_mode(c, groups.question_exclamation, '?', '？')),
        '!' | '！' => Some(toggle_with_mode(c, groups.question_exclamation, '!', '！')),
        _ => None,
    }
}

/// Applies the width groups to one glyph: the first group that knows the
/// glyph decides, and a glyph that none knows stays as it is.
pub fn apply_width_group_char(c: char, groups: &CharacterWidthGroups) -> (out: char)
    ensures
        out == width_group_char(c, *groups),
{
    if let Some(glyph) = alphabet_glyph(c, groups) {
        return glyph;
    }
    if let Some(glyph) = number_glyph(c, groups) {
        return glyph;
    }
    if let Some(glyph) = bracket_glyph(c, groups) {
        return glyph;
    }
    if let Some(glyph) = comma_period_glyph(c, groups) {
        return glyph;
    }
    if let Some(glyph) = middle_dot_corner_bracket_glyph(c, groups) {
        return glyph;
    }
    if let Some(glyph) = quote_glyph(c, groups) {
        return glyph;
    }
    if let Some(glyph) = colon_semicolon_glyph(c, groups) {
        return glyph;
    }
    if let Some(glyph) = hash_group_glyph(c, groups) {
        return glyph;
    }
    if let Some(glyph) = tilde_glyph(c, groups) {
        return glyph;
    }
    if let Some(glyph) = math_symbol_glyph(c, groups) {
        return glyph;
    }
    if let Some(glyph) = question_exclamation_glyph(c, groups) {
        return glyph;
    }
    c
}

/// Applies the width groups to every glyph of a text.
pub fn apply_width_groups(text: &str, groups: &CharacterWidthGroups) -> (out: String)
    ensures
        out@ == text@.map_values(|c: char| width_group_char(c, *groups)),
{
    let mut out = String::new();
    for c in it: text.chars()
        invariant
            it.seq() == text@,
            out@ == text@.take(it.index() as int).map_values(
                |c: char| width_group_char(c, *groups),
            ),
    {
        out.push(apply_width_group_char(c, groups));
    }
    out
}

/// Applies the width groups to a glyph that came from the key
/// `source_key`.
pub fn apply_width_groups_with_source_key(
    c: char,
    source_key: char,
    groups: &CharacterWidthGroups,
) -> (out: char)
    ensures
        out == width_group_char_from_key(c, source_key, *groups),
{
    if source_key == '/' {
        return match c {
            '・' | '･' => match groups.math_symbol {
                WidthMode::Half => '･',
                WidthMode::Full => '・',
            },
            '/' | '／' => match groups.math_symbol {
                WidthMode::Half => '/',
                WidthMode::Full => '／',
            },
            _ => apply_width_group_char(c, groups),
        };
    }
    apply_width_group_char(c, groups)
}

/// Normalizes a typed text for kana mode, character by character.
pub fn convert_kana_symbol(
    s: &str,
    general: &GeneralConfig,
    character_width: &CharacterWidthConfig,
    romaji_rows: &[RomajiRule],
) -> (out: String)
    ensures
        out@ == kana_symbols(s@, *general, character_width@, romaji_rows.deep_view()),
{
    let groups = &character_width.groups;
    let mut out = String::new();
    for c in it: s.chars()
        invariant
            it.seq() == s@,
            groups == character_width.groups,
            out@ == kana_symbols(
                s@.take(it.index() as int),
                *general,
                character_width@,
                romaji_rows.deep_view(),
            ),
    {
        proof {
            let i = it.index() as int;
            assert(s@.take(i + 1).drop_last() =~= s@.take(i));
            assert(s@.take(i + 1).last() == c);
        }
        let key = normalize_input_key(c);
        match find_romaji_priority_output(key, romaji_rows) {
            Some(romaji_output) => {
                out.append(romaji_output.as_str());
            },
            None => {
                let base = match apply_basic_setting(key, general) {
                    Some(glyph) => glyph,
                    None => legacy_fullwidth_or_half(key, &character_width.symbol_fullwidth),
                };
                let glyph = apply_width_groups_with_source_key(base, key, groups);
                out.push(glyph);
                assert(seq![glyph] =~= kana_symbol(
                    c,
                    *general,
                    character_width@,
                    romaji_rows.deep_view(),
                ));
            },
        }
    }
    assert(s@.take(s@.len() as int) =~= s@);
    out
}

} // verus!
