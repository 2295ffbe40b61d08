use ime_composition::text::{
    char_text, clone_counts, clone_texts, joined, decimal_text, digit_char, drop_back, drop_front,
    is_single_char, same_text, starts_with, strip_prefix, to_chars,
};
use ime_composition::text_util::{
    half_katakana_lookup, to_half_katakana, to_katakana, to_katakana_char,
};

#[test]
fn characters_of_a_text() {
    assert_eq!(to_chars("aあ😀"), vec!['a', 'あ', '😀']);
    assert_eq!(to_chars(""), Vec::<char>::new());
    assert_eq!(char_text('語'), "語");
    assert_eq!(joined("日本", "語"), "日本語");
    assert_eq!(joined("", ""), "");
}

#[test]
fn front_and_back_of_a_text() {
    assert_eq!(drop_front("にほんご", 0), "にほんご");
    assert_eq!(drop_front("にほんご", 2), "んご");
    assert_eq!(drop_front("にほんご", 4), "");
    assert_eq!(drop_front("にほんご", 9), "");
    assert_eq!(drop_front("", 1), "");
    assert_eq!(drop_back("にほんご"), "にほん");
    assert_eq!(drop_back("a"), "");
    assert_eq!(drop_back(""), "");
}

#[test]
fn prefixes_of_a_text() {
    assert!(starts_with("日本語", "日本"));
    assert!(starts_with("日本語", ""));
    assert!(starts_with("日本語", "日本語"));
    assert!(!starts_with("日本語", "本"));
    assert!(!starts_with("日本", "日本語"));
    assert_eq!(strip_prefix("日本語", "日本"), "語");
    assert_eq!(strip_prefix("日本語", "本"), "日本語");
    assert_eq!(strip_prefix("日本語", ""), "日本語");
    assert_eq!(strip_prefix("日本語", "日本語"), "");
}

#[test]
fn comparisons_of_texts() {
    assert!(same_text("0.1.1", "0.1.1"));
    assert!(!same_text("0.1.1", "0.1.0"));
    assert!(!same_text("0.1.1", "0.1"));
    assert!(same_text("", ""));
    assert!(is_single_char("~", '~'));
    assert!(!is_single_char("~~", '~'));
    assert!(!is_single_char("", '~'));
    assert!(!is_single_char("～", '~'));
}

#[test]
fn copies_of_lists() {
    let texts = vec!["a".to_string(), "".to_string(), "語".to_string()];
    assert_eq!(clone_texts(&texts), texts);
    assert_eq!(clone_counts(&vec![3, -1, 0]), vec![3, -1, 0]);
}

#[test]
fn decimal_notation_of_small_integers() {
    for value in i8::MIN..=i8::MAX {
        assert_eq!(decimal_text(value), value.to_string());
    }
    assert_eq!(decimal_text(0), "0");
    assert_eq!(decimal_text(-7), "-7");
    assert_eq!(decimal_text(100), "100");
}

#[test]
fn digit_of_a_number_key() {
    for value in 0..=9i8 {
        assert_eq!(digit_char(value), char::from_digit(value as u32, 10).unwrap());
    }
    assert_eq!(digit_char(10), '0');
    assert_eq!(digit_char(-1), '0');
}

#[test]
fn hiragana_becomes_katakana() {
    assert_eq!(to_katakana("にほんご"), "ニホンゴ");
    assert_eq!(to_katakana("ぁゖゝゞ"), "ァヶヽヾ");
    assert_eq!(to_katakana("カタカナabcー。漢"), "カタカナabcー。漢");
    assert_eq!(to_katakana_char('ゔ'), 'ヴ');
    assert_eq!(to_katakana_char('\u{3040}'), '\u{3040}');
    assert_eq!(to_katakana_char('\u{3097}'), '\u{3097}');
}

#[test]
fn kana_becomes_half_width_katakana() {
    assert_eq!(to_half_katakana("にほんご"), "ﾆﾎﾝｺﾞ");
    assert_eq!(to_half_katakana("ぱーてぃ、「ヴ」・。"), "ﾊﾟｰﾃｨ､｢ｳﾞ｣･｡");
    assert_eq!(to_half_katakana("abc漢ヰ"), "abc漢ヰ");
    assert_eq!(to_half_katakana("ゐ"), "ヰ");
    assert_eq!(
        to_half_katakana("アイウエオカキクケコサシスセソタチツテトナニヌネノハヒフヘホマミムメモヤユヨラリルレロワヲン"),
        "ｱｲｳｴｵｶｷｸｹｺｻｼｽｾｿﾀﾁﾂﾃﾄﾅﾆﾇﾈﾉﾊﾋﾌﾍﾎﾏﾐﾑﾒﾓﾔﾕﾖﾗﾘﾙﾚﾛﾜｦﾝ"
    );
    assert_eq!(
        to_half_katakana("ガギグゲゴザジズゼゾダヂヅデドバビブベボパピプペポ"),
        "ｶﾞｷﾞｸﾞｹﾞｺﾞｻﾞｼﾞｽﾞｾﾞｿﾞﾀﾞﾁﾞﾂﾞﾃﾞﾄﾞﾊﾞﾋﾞﾌﾞﾍﾞﾎﾞﾊﾟﾋﾟﾌﾟﾍﾟﾎﾟ"
    );
    assert_eq!(to_half_katakana("ァィゥェォッャュョ゛゜"), "ｧｨｩｪｫｯｬｭｮﾞﾟ");
    assert_eq!(half_katakana_lookup('ガ'), Some(('ｶ', Some('ﾞ'))));
    assert_eq!(half_katakana_lookup('ン'), Some(('ﾝ', None)));
    assert_eq!(half_katakana_lookup('a'), None);
}
