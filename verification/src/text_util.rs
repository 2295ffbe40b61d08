//! The kana scripts: hiragana to katakana, and katakana to its half-width
//! forms.

use vstd::prelude::*;
use vstd::string::*;

verus! {

/// The katakana of a hiragana character: the hiragana letters `ぁ` to `ゖ`
/// and the two iteration marks lie `0x60` code points below their
/// katakana. Every other character is its own.
pub open spec fn katakana_char(c: char) -> char {
    if ('ぁ' <= c <= 'ゖ') || c == 'ゝ' || c == 'ゞ' {
        ((c as int) + 0x60) as char
    } else {
        c
    }
}

/// The half-width form of a katakana letter or mark: the half-width
/// letter, followed by the voicing mark for a voiced or half-voiced
/// letter. A character without a half-width form is not in the table.
pub open spec fn half_katakana_form(c: char) -> Option<(char, Option<char>)> {
    match c {
        'ァ' => Some(('ｧ', None)),
        'ア' => Some(('ｱ', None)),
        'ィ' => Some(('ｨ', None)),
        'イ' => Some(('ｲ', None)),
        'ゥ' => Some(('ｩ', None)),
        'ウ' => Some(('ｳ', None)),
        'ェ' => Some(('ｪ', None)),
        'エ' => Some(('ｴ', None)),
        'ォ' => Some(('ｫ', None)),
        'オ' => Some(('ｵ', None)),
        'カ' => Some(('ｶ', None)),
        'ガ' => Some(('ｶ', Some('ﾞ'))),
        'キ' => Some(('ｷ', None)),
        'ギ' => Some(('ｷ', Some('ﾞ'))),
        'ク' => Some(('ｸ', None)),
        'グ' => Some(('ｸ', Some('ﾞ'))),
        'ケ' => Some(('ｹ', None)),
        'ゲ' => Some(('ｹ', Some('ﾞ'))),
        'コ' => Some(('ｺ', None)),
        'ゴ' => Some(('ｺ', Some('ﾞ'))),
        'サ' => Some(('ｻ', None)),
        'ザ' => Some(('ｻ', Some('ﾞ'))),
        'シ' => Some(('ｼ', None)),
        'ジ' => Some(('ｼ', Some('ﾞ'))),
        'ス' => Some(('ｽ', None)),
        'ズ' => Some(('ｽ', Some('ﾞ'))),
        'セ' => Some(('ｾ', None)),
        'ゼ' => Some(('ｾ', Some('ﾞ'))),
        'ソ' => Some(('ｿ', None)),
        'ゾ' => Some(('ｿ', Some('ﾞ'))),
        'タ' => Some(('ﾀ', None)),
        'ダ' => Some(('ﾀ', Some('ﾞ'))),
        'チ' => Some(('ﾁ', None)),
        'ヂ' => Some(('ﾁ', Some('ﾞ'))),
        'ッ' => Some(('ｯ', None)),
        'ツ' => Some(('ﾂ', None)),
        'ヅ' => Some(('ﾂ', Some('ﾞ'))),
        'テ' => Some(('ﾃ', None)),
        'デ' => Some(('ﾃ', Some('ﾞ'))),
        'ト' => Some(('ﾄ', None)),
        'ド' => Some(('ﾄ', Some('ﾞ'))),
        'ナ' => Some(('ﾅ', None)),
        'ニ' => Some(('ﾆ', None)),
        'ヌ' => Some(('ﾇ', None)),
        'ネ' => Some(('ﾈ', None)),
        'ノ' => Some(('ﾉ', None)),
        'ハ' => Some(('ﾊ', None)),
        'バ' => Some(('ﾊ', Some('ﾞ'))),
        'パ' => Some(('ﾊ', Some('ﾟ'))),
        'ヒ' => Some(('ﾋ', None)),
        'ビ' => Some(('ﾋ', Some('ﾞ'))),
        'ピ' => Some(('ﾋ', Some('ﾟ'))),
        'フ' => Some(('ﾌ', None)),
        'ブ' => Some(('ﾌ', Some('ﾞ'))),
        'プ' => Some(('ﾌ', Some('ﾟ'))),
        'ヘ' => Some(('ﾍ', None)),
        'ベ' => Some(('ﾍ', Some('ﾞ'))),
        'ペ' => Some(('ﾍ', Some('ﾟ'))),
        'ホ' => Some(('ﾎ', None)),
        'ボ' => Some(('ﾎ', Some('ﾞ'))),
        'ポ' => Some(('ﾎ', Some('ﾟ'))),
        'マ' => Some(('ﾏ', None)),
        'ミ' => Some(('ﾐ', None)),
        'ム' => Some(('ﾑ', None)),
        'メ' => Some(('ﾒ', None)),
        'モ' => Some(('ﾓ', None)),
        'ャ' => Some(('ｬ', None)),
        'ヤ' => Some(('ﾔ', None)),
        'ュ' => Some(('ｭ', None)),
        'ユ' => Some(('ﾕ', None)),
        'ョ' => Some(('ｮ', None)),
        'ヨ' => Some(('ﾖ', None)),
        'ラ' => Some(('ﾗ', None)),
        'リ' => Some(('ﾘ', None)),
        'ル' => Some(('ﾙ', None)),
        'レ' => Some(('ﾚ', None)),
        'ロ' => Some(('ﾛ', None)),
        'ワ' => Some(('ﾜ', None)),
        'ヲ' => Some(('ｦ', None)),
        'ン' => Some(('ﾝ', None)),
        'ヴ' => Some(('ｳ', Some('ﾞ'))),
        'ー' => Some(('ｰ', None)),
        '。' => Some(('｡', None)),
        '「' => Some(('｢', None)),
        '」' => Some(('｣', None)),
        '、' => Some(('､', None)),
        '・' => Some(('･', None)),
        '゛' => Some(('ﾞ', None)),
        '゜' => Some(('ﾟ', None)),
        _ => None,
    }
}

/// What one character becomes in half-width katakana: hiragana is read as
/// katakana first; a character without a half-width form stays.
pub open spec fn half_katakana_char(c: char) -> Seq<char> {
    match half_katakana_form(katakana_char(c)) {
        Some((letter, Some(mark))) => seq![letter, mark],
        Some((letter, None)) => seq![letter],
        None => seq![katakana_char(c)],
    }
}

/// A text in half-width katakana: each character's outcome, in order.
pub open spec fn half_katakana(s: Seq<char>) -> Seq<char>
    decreases s.len(),
{
    if s.len() == 0 {
        Seq::empty()
    } else {
        half_katakana(s.drop_last()) + half_katakana_char(s.last())
    }
}

/// The katakana of one character.
pub fn to_katakana_char(c: char) -> (out: char)
    ensures
        out == katakana_char(c),
{
    if ('ぁ' <= c && c <= 'ゖ') || c == 'ゝ' || c == 'ゞ' {
        match char::from_u32(c as u32 + 0x60) {
            Some(katakana) => katakana,
            None => c,
        }
    } else {
        c
    }
}

/// Turns the hiragana of a text into katakana.
pub fn to_katakana(s: &str) -> (out: String)
    ensures
        out@ == s@.map_values(|c: char| katakana_char(c)),
{
    let mut out = String::new();
    for c in it: s.chars()
        invariant
            it.seq() == s@,
            out@ == s@.take(it.index() as int).map_values(|c: char| katakana_char(c)),
    {
        out.push(to_katakana_char(c));
    }
    out
}

/// Looks the half-width form of a katakana letter or mark up: the letters
/// of the first five rows.
fn half_form_a_to_ta(c: char) -> (form: Option<(char, Option<char>)>)
    ensures
        ('ァ' <= c <= 'ド') ==> form == half_katakana_form(c),
        !('ァ' <= c <= 'ド') ==> form is None,
{
    match c {
        'ァ' => Some(('ｧ', None)),
        'ア' => Some(('ｱ', None)),
        'ィ' => Some(('ｨ', None)),
        'イ' => Some(('ｲ', None)),
        'ゥ' => Some(('ｩ', None)),
        'ウ' => Some(('ｳ', None)),
        'ェ' => Some(('ｪ', None)),
        'エ' => Some(('ｴ', None)),
        'ォ' => Some(('ｫ', None)),
        'オ' => Some(('ｵ', None)),
        'カ' => Some(('ｶ', None)),
        'ガ' => Some(('ｶ', Some('ﾞ'))),
        'キ' => Some(('ｷ', None)),
        'ギ' => Some(('ｷ', Some('ﾞ'))),
        'ク' => Some(('ｸ', None)),
        'グ' => Some(('ｸ', Some('ﾞ'))),
        'ケ' => Some(('ｹ', None)),
        'ゲ' => Some(('ｹ', Some('ﾞ'))),
        'コ' => Some(('ｺ', None)),
        'ゴ' => Some(('ｺ', Some('ﾞ'))),
        'サ' => Some(('ｻ', None)),
        'ザ' => Some(('ｻ', Some('ﾞ'))),
        'シ' => Some(('ｼ', None)),
        'ジ' => Some(('ｼ', Some('ﾞ'))),
        'ス' => Some(('ｽ', None)),
        'ズ' => Some(('ｽ', Some('ﾞ'))),
        'セ' => Some(('ｾ', None)),
        'ゼ' => Some(('ｾ', Some('ﾞ'))),
        'ソ' => Some(('ｿ', None)),
        'ゾ' => Some(('ｿ', Some('ﾞ'))),
        'タ' => Some(('ﾀ', None)),
        'ダ' => Some(('ﾀ', Some('ﾞ'))),
        'チ' => Some(('ﾁ', None)),
        'ヂ' => Some(('ﾁ', Some('ﾞ'))),
        'ッ' => Some(('ｯ', None)),
        'ツ' => Some(('ﾂ', None)),
        'ヅ' => Some(('ﾂ', Some('ﾞ'))),
        'テ' => Some(('ﾃ', None)),
        'デ' => Some(('ﾃ', Some('ﾞ'))),
        'ト' => Some(('ﾄ', None)),
        'ド' => Some(('ﾄ', Some('ﾞ'))),
        _ => None,
    }
}

/// The letters of the last five rows, and the marks.
fn half_form_na_to_marks(c: char) -> (form: Option<(char, Option<char>)>)
    ensures
        !('ァ' <= c <= 'ド') ==> form == half_katakana_form(c),
{
    match c {
        'ナ' => Some(('ﾅ', None)),
        'ニ' => Some(('ﾆ', None)),
        'ヌ' => Some(('ﾇ', None)),
        'ネ' => Some(('ﾈ', None)),
        'ノ' => Some(('ﾉ', None)),
        'ハ' => Some(('ﾊ', None)),
        'バ' => Some(('ﾊ', Some('ﾞ'))),
        'パ' => Some(('ﾊ', Some('ﾟ'))),
        'ヒ' => Some(('ﾋ', None)),
        'ビ' => Some(('ﾋ', Some('ﾞ'))),
        'ピ' => Some(('ﾋ', Some('ﾟ'))),
        'フ' => Some(('ﾌ', None)),
        'ブ' => Some(('ﾌ', Some('ﾞ'))),
        'プ' => Some(('ﾌ', Some('ﾟ'))),
        'ヘ' => Some(('ﾍ', None)),
        'ベ' => Some(('ﾍ', Some('ﾞ'))),
        'ペ' => Some(('ﾍ', Some('ﾟ'))),
        'ホ' => Some(('ﾎ', None)),
        'ボ' => Some(('ﾎ', Some('ﾞ'))),
        'ポ' => Some(('ﾎ', Some('ﾟ'))),
        'マ' => Some(('ﾏ', None)),
        'ミ' => Some(('ﾐ', None)),
        'ム' => Some(('ﾑ', None)),
        'メ' => Some(('ﾒ', None)),
        'モ' => Some(('ﾓ', None)),
        'ャ' => Some(('ｬ', None)),
        'ヤ' => Some(('ﾔ', None)),
        'ュ' => Some(('ｭ', None)),
        'ユ' => Some(('ﾕ', None)),
        'ョ' => Some(('ｮ', None)),
        'ヨ' => Some(('ﾖ', None)),
        'ラ' => Some(('ﾗ', None)),
        'リ' => Some(('ﾘ', None)),
        'ル' => Some(('ﾙ', None)),
        'レ' => Some(('ﾚ', None)),
        'ロ' => Some(('ﾛ', None)),
        'ワ' => Some(('ﾜ', None)),
        'ヲ' => Some(('ｦ', None)),
        'ン' => Some(('ﾝ', None)),
        'ヴ' => Some(('ｳ', Some('ﾞ'))),
        'ー' => Some(('ｰ', None)),
        '。' => Some(('｡', None)),
        '「' => Some(('｢', None)),
        '」' => Some(('｣', None)),
        '、' => Some(('､', None)),
        '・' => Some(('･', None)),
        '゛' => Some(('ﾞ', None)),
        '゜' => Some(('ﾟ', None)),
        _ => None,
    }
}

/// Looks the half-width form of a katakana letter or mark up.
pub fn half_katakana_lookup(c: char) -> (form: Option<(char, Option<char>)>)
    ensures
        form == half_katakana_form(c),
{
    if 'ァ' <= c && c <= 'ド' {
        half_form_a_to_ta(c)
    } else {
        half_form_na_to_marks(c)
    }
}

/// Turns the kana of a text into half-width katakana.
pub fn to_half_katakana(s: &str) -> (out: String)
    ensures
        out@ == half_katakana(s@),
{
    let mut out = String::new();
    for c in it: s.chars()
        invariant
            it.seq() == s@,
            out@ == half_katakana(s@.take(it.index() as int)),
    {
        proof {
            let i = it.index() as int;
            assert(s@.take(i + 1).drop_last() =~= s@.take(i));
            assert(s@.take(i + 1).last() == c);
        }
        let ghost before = out@;
        let katakana = to_katakana_char(c);
        match half_katakana_lookup(katakana) {
            Some((letter, mark)) => {
                out.push(letter);
                match mark {
                    Some(mark) => {
                        out.push(mark);
                        assert(out@ =~= before + seq![letter, mark]);
                    },
                    None => {
                        assert(out@ =~= before + seq![letter]);
                    },
                }
            },
            None => {
                out.push(katakana);
                assert(out@ =~= before + seq![katakana]);
            },
        }
    }
    assert(s@.take(s@.len() as int) =~= s@);
    out
}

} // verus!
