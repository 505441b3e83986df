use azookey_ime::chars::char_to_string;
use azookey_ime::chars::skip_chars;
use azookey_ime::chars::take_chars;
use azookey_ime::full_width::to_fullwidth;
use azookey_ime::full_width::to_halfwidth;
use azookey_ime::text_util::to_half_katakana;
use azookey_ime::text_util::to_hiragana;
use azookey_ime::text_util::to_katakana;

#[test]
fn fullwidth_maps_romaji_vowels_to_hiragana() {
    assert_eq!(to_fullwidth("a", false), "あ");
    assert_eq!(to_fullwidth("i", false), "い");
    assert_eq!(to_fullwidth("u", false), "う");
    assert_eq!(to_fullwidth("e", false), "え");
    assert_eq!(to_fullwidth("o", false), "お");
}

#[test]
fn fullwidth_maps_consonants_to_fullwidth_letters() {
    assert_eq!(to_fullwidth("k", false), "ｋ");
    assert_eq!(to_fullwidth("K1", false), "Ｋ１");
}

#[test]
fn fullwidth_kana_shaping_maps_punctuation_to_japanese() {
    assert_eq!(to_fullwidth("-", false), "ー");
    assert_eq!(to_fullwidth(",", false), "、");
    assert_eq!(to_fullwidth(".", false), "。");
    assert_eq!(to_fullwidth(" ", false), "\u{3000}");
}

#[test]
fn fullwidth_preserving_ascii_keeps_letters_as_letters() {
    assert_eq!(to_fullwidth("ka-1.", true), "ｋａ－１．");
    assert_eq!(to_fullwidth("a", true), "ａ");
}

#[test]
fn halfwidth_maps_fullwidth_forms_back() {
    assert_eq!(to_halfwidth("ＡＢＣ１２３"), "ABC123");
    assert_eq!(to_halfwidth("\u{3000}"), " ");
}

#[test]
fn fullwidth_then_halfwidth_is_identity_on_ascii() {
    let samples = ["hello, world-123.", "a quick brown fox!", "", "AEIOU aeiou"];
    for s in samples {
        assert_eq!(to_halfwidth(&to_fullwidth(s, false)), s);
        assert_eq!(to_halfwidth(&to_fullwidth(s, true)), s);
    }
}

#[test]
fn katakana_of_hiragana() {
    assert_eq!(to_katakana("あい"), "アイ");
    assert_eq!(to_katakana("こんにちは"), "コンニチハ");
    assert_eq!(to_katakana("カナmix"), "カナmix");
}

#[test]
fn hiragana_of_katakana() {
    assert_eq!(to_hiragana("アイ"), "あい");
    assert_eq!(to_hiragana("ヴ"), "ゔ");
}

#[test]
fn katakana_hiragana_round_trips() {
    let hira = "こんにちはがぱゔ";
    assert_eq!(to_hiragana(&to_katakana(hira)), hira);
    let kata = "コンニチハガパヴ";
    assert_eq!(to_katakana(&to_hiragana(kata)), kata);
}

#[test]
fn half_katakana_of_plain_hiragana() {
    assert_eq!(to_half_katakana("こんにちは"), "ｺﾝﾆﾁﾊ");
    assert_eq!(to_half_katakana("あい"), "ｱｲ");
}

#[test]
fn half_katakana_splits_voiced_letters() {
    assert_eq!(to_half_katakana("が"), "ｶﾞ");
    assert_eq!(to_half_katakana("ぱ"), "ﾊﾟ");
    assert_eq!(to_half_katakana("ゔ"), "ｳﾞ");
    assert_eq!(to_half_katakana("だじょーぶ"), "ﾀﾞｼﾞｮｰﾌﾞ");
}

#[test]
fn half_katakana_small_and_punctuation() {
    assert_eq!(to_half_katakana("っゃゅょ"), "ｯｬｭｮ");
    assert_eq!(to_half_katakana("、。「」・ー"), "､｡｢｣･ｰ");
}

#[test]
fn character_helpers_count_characters_not_bytes() {
    assert_eq!(take_chars("あいう", 2), "あい");
    assert_eq!(take_chars("あいう", 9), "あいう");
    assert_eq!(skip_chars("あいう", 1), "いう");
    assert_eq!(skip_chars("あいう", 9), "");
    assert_eq!(char_to_string('か'), "か");
}
