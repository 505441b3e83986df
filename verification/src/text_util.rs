//! Kana conversions: hiragana to katakana and back, and hiragana to
//! half-width katakana.
//!
//! Hiragana and katakana are parallel blocks at a fixed distance of 0x60,
//! so those two transforms are character-wise shifts and are mutually
//! inverse. Half-width katakana has no precomposed voiced letters: a voiced
//! hiragana letter becomes its base half-width letter followed by a voicing
//! mark, so that transform may emit two characters for one.

use vstd::prelude::*;

use crate::chars::char_from_u32;
use crate::chars::push_char;

verus! {

/// The katakana twin of a hiragana character; anything else is unchanged.
pub open spec fn katakana_char(c: char) -> char {
    let v = c as int;
    if 0x3041 <= v && v <= 0x3096 {
        (((v + 0x60) as u32) as char)
    } else {
        c
    }
}

/// The hiragana twin of a katakana character; anything else is unchanged.
pub open spec fn hiragana_char(c: char) -> char {
    let v = c as int;
    if 0x30a1 <= v && v <= 0x30f6 {
        (((v - 0x60) as u32) as char)
    } else {
        c
    }
}

pub open spec fn katakana_seq(s: Seq<char>) -> Seq<char> {
    s.map_values(|c: char| katakana_char(c))
}

pub open spec fn hiragana_seq(s: Seq<char>) -> Seq<char> {
    s.map_values(|c: char| hiragana_char(c))
}

fn katakana_char_exec(c: char) -> (r: char)
    ensures
        r == katakana_char(c),
{
    let v = c as u32;
    if 0x3041 <= v && v <= 0x3096 {
        char_from_u32(v + 0x60)
    } else {
        c
    }
}

fn hiragana_char_exec(c: char) -> (r: char)
    ensures
        r == hiragana_char(c),
{
    let v = c as u32;
    if 0x30a1 <= v && v <= 0x30f6 {
        char_from_u32(v - 0x60)
    } else {
        c
    }
}

/// Convert every hiragana character of a string to katakana.
pub fn to_katakana(s: &str) -> (r: String)
    ensures
        r@ == katakana_seq(s@),
{
    let n = s.unicode_len();
    let mut r = String::new();
    let mut i: usize = 0;
    while i < n
        invariant
            n == s@.len(),
            i <= n,
            r@.len() == i,
            forall|j: int| 0 <= j < i ==> r@[j] == katakana_char(s@[j]),
        decreases n - i,
    {
        let c = s.get_char(i);
        push_char(&mut r, katakana_char_exec(c));
        i = i + 1;
    }
    assert(r@ =~= katakana_seq(s@));
    r
}

/// Convert every katakana character of a string to hiragana.
pub fn to_hiragana(s: &str) -> (r: String)
    ensures
        r@ == hiragana_seq(s@),
{
    let n = s.unicode_len();
    let mut r = String::new();
    let mut i: usize = 0;
    while i < n
        invariant
            n == s@.len(),
            i <= n,
            r@.len() == i,
            forall|j: int| 0 <= j < i ==> r@[j] == hiragana_char(s@[j]),
        decreases n - i,
    {
        let c = s.get_char(i);
        push_char(&mut r, hiragana_char_exec(c));
        i = i + 1;
    }
    assert(r@ =~= hiragana_seq(s@));
    r
}

/// Katakana after hiragana is the identity on any character that is not
/// itself katakana (in particular on katakana text turned hiragana first).
pub proof fn lemma_katakana_hiragana_char(c: char)
    requires
        !(0x3041 <= c as int <= 0x3096),
    ensures
        katakana_char(hiragana_char(c)) == c,
{
}

/// Hiragana after katakana is the identity on any character that is not
/// itself katakana.
pub proof fn lemma_hiragana_katakana_char(c: char)
    requires
        !(0x30a1 <= c as int <= 0x30f6),
    ensures
        hiragana_char(katakana_char(c)) == c,
{
}

/// On katakana input (no hiragana characters), converting to hiragana and
/// back to katakana returns the original string.
pub proof fn lemma_katakana_hiragana(s: Seq<char>)
    requires
        forall|i: int| 0 <= i < s.len() ==> !(0x3041 <= (#[trigger] s[i]) as int <= 0x3096),
    ensures
        katakana_seq(hiragana_seq(s)) == s,
{
    assert forall|i: int| 0 <= i < s.len() implies katakana_seq(hiragana_seq(s))[i] == s[i] by {
        lemma_katakana_hiragana_char(s[i]);
    }
    assert(katakana_seq(hiragana_seq(s)) =~= s);
}

/// On hiragana input (no katakana characters), converting to katakana and
/// back to hiragana returns the original string.
pub proof fn lemma_hiragana_katakana(s: Seq<char>)
    requires
        forall|i: int| 0 <= i < s.len() ==> !(0x30a1 <= (#[trigger] s[i]) as int <= 0x30f6),
    ensures
        hiragana_seq(katakana_seq(s)) == s,
{
    assert forall|i: int| 0 <= i < s.len() implies hiragana_seq(katakana_seq(s))[i] == s[i] by {
        lemma_hiragana_katakana_char(s[i]);
    }
    assert(hiragana_seq(katakana_seq(s)) =~= s);
}

/// A voiced hiragana letter whose half-width form is its base letter
/// followed by the voicing mark.
pub open spec fn has_dakuten(v: int) -> bool {
    ||| (0x304c <= v <= 0x3062 && (v - 0x304c) % 2 == 0)  // が..ぢ
    ||| v == 0x3065 || v == 0x3067 || v == 0x3069  // づ で ど
    ||| (0x3070 <= v <= 0x307c && (v - 0x3070) % 3 == 0)  // ば び ぶ べ ぼ
}

/// A hiragana letter whose half-width form is its base letter followed by
/// the semi-voicing mark.
pub open spec fn has_handakuten(v: int) -> bool {
    0x3071 <= v <= 0x307d && (v - 0x3071) % 3 == 0  // ぱ ぴ ぷ ぺ ぽ
}

/// The half-width katakana twin of an unvoiced hiragana character;
/// anything off the table is unchanged.
pub open spec fn half_katakana_base(c: char) -> char {
    let v = c as int;
    if v == 0x3041 { 'ｧ' } else if v == 0x3042 { 'ｱ' }
    else if v == 0x3043 { 'ｨ' } else if v == 0x3044 { 'ｲ' }
    else if v == 0x3045 { 'ｩ' } else if v == 0x3046 { 'ｳ' }
    else if v == 0x3047 { 'ｪ' } else if v == 0x3048 { 'ｴ' }
    else if v == 0x3049 { 'ｫ' } else if v == 0x304a { 'ｵ' }
    else if v == 0x304b { 'ｶ' } else if v == 0x304d { 'ｷ' }
    else if v == 0x304f { 'ｸ' } else if v == 0x3051 { 'ｹ' }
    else if v == 0x3053 { 'ｺ' }
    else if v == 0x3055 { 'ｻ' } else if v == 0x3057 { 'ｼ' }
    else if v == 0x3059 { 'ｽ' } else if v == 0x305b { 'ｾ' }
    else if v == 0x305d { 'ｿ' }
    else if v == 0x305f { 'ﾀ' } else if v == 0x3061 { 'ﾁ' }
    else if v == 0x3063 { 'ｯ' } else if v == 0x3064 { 'ﾂ' }
    else if v == 0x3066 { 'ﾃ' } else if v == 0x3068 { 'ﾄ' }
    else if v == 0x306a { 'ﾅ' } else if v == 0x306b { 'ﾆ' }
    else if v == 0x306c { 'ﾇ' } else if v == 0x306d { 'ﾈ' }
    else if v == 0x306e { 'ﾉ' }
    else if v == 0x306f { 'ﾊ' } else if v == 0x3072 { 'ﾋ' }
    else if v == 0x3075 { 'ﾌ' } else if v == 0x3078 { 'ﾍ' }
    else if v == 0x307b { 'ﾎ' }
    else if v == 0x307e { 'ﾏ' } else if v == 0x307f { 'ﾐ' }
    else if v == 0x3080 { 'ﾑ' } else if v == 0x3081 { 'ﾒ' }
    else if v == 0x3082 { 'ﾓ' }
    else if v == 0x3083 { 'ｬ' } else if v == 0x3084 { 'ﾔ' }
    else if v == 0x3085 { 'ｭ' } else if v == 0x3086 { 'ﾕ' }
    else if v == 0x3087 { 'ｮ' } else if v == 0x3088 { 'ﾖ' }
    else if v == 0x3089 { 'ﾗ' } else if v == 0x308a { 'ﾘ' }
    else if v == 0x308b { 'ﾙ' } else if v == 0x308c { 'ﾚ' }
    else if v == 0x308d { 'ﾛ' }
    else if v == 0x308e { 'ﾜ' } else if v == 0x308f { 'ﾜ' }
    else if v == 0x3090 { 'ｲ' } else if v == 0x3091 { 'ｴ' }
    else if v == 0x3092 { 'ｦ' } else if v == 0x3093 { 'ﾝ' }
    else if v == 0x3095 { 'ｶ' } else if v == 0x3096 { 'ｹ' }
    else if v == 0x30fc { 'ｰ' }
    else if v == 0x3001 { '､' } else if v == 0x3002 { '｡' }
    else if v == 0x300c { '｢' } else if v == 0x300d { '｣' }
    else if v == 0x30fb { '･' }
    else { c }
}

/// The half-width katakana form of one hiragana character: one character
/// for unvoiced letters, base letter plus mark for voiced ones.
pub open spec fn half_katakana_char(c: char) -> Seq<char> {
    let v = c as int;
    if has_dakuten(v) {
        seq![half_katakana_base((((v - 1) as u32) as char)), 'ﾞ']
    } else if has_handakuten(v) {
        seq![half_katakana_base((((v - 2) as u32) as char)), 'ﾟ']
    } else if v == 0x3094 {  // ゔ
        seq!['ｳ', 'ﾞ']
    } else {
        seq![half_katakana_base(c)]
    }
}

pub open spec fn half_katakana_seq(s: Seq<char>) -> Seq<char>
    decreases s.len(),
{
    if s.len() == 0 {
        seq![]
    } else {
        half_katakana_char(s[0]) + half_katakana_seq(s.drop_first())
    }
}

proof fn lemma_half_katakana_seq_push(s: Seq<char>, c: char)
    ensures
        half_katakana_seq(s.push(c)) == half_katakana_seq(s) + half_katakana_char(c),
    decreases s.len(),
{
    if s.len() == 0 {
        assert(s.push(c).drop_first() =~= s);
        assert(half_katakana_seq(s.push(c)) =~= half_katakana_seq(s) + half_katakana_char(c));
    } else {
        assert(s.push(c).drop_first() =~= s.drop_first().push(c));
        lemma_half_katakana_seq_push(s.drop_first(), c);
        assert(half_katakana_seq(s.push(c)) =~= half_katakana_seq(s) + half_katakana_char(c));
    }
}

fn half_katakana_base_exec(c: char) -> (r: char)
    ensures
        r == half_katakana_base(c),
{
    let v = c as u32;
    if v == 0x3041 { 'ｧ' } else if v == 0x3042 { 'ｱ' }
    else if v == 0x3043 { 'ｨ' } else if v == 0x3044 { 'ｲ' }
    else if v == 0x3045 { 'ｩ' } else if v == 0x3046 { 'ｳ' }
    else if v == 0x3047 { 'ｪ' } else if v == 0x3048 { 'ｴ' }
    else if v == 0x3049 { 'ｫ' } else if v == 0x304a { 'ｵ' }
    else if v == 0x304b { 'ｶ' } else if v == 0x304d { 'ｷ' }
    else if v == 0x304f { 'ｸ' } else if v == 0x3051 { 'ｹ' }
    else if v == 0x3053 { 'ｺ' }
    else if v == 0x3055 { 'ｻ' } else if v == 0x3057 { 'ｼ' }
    else if v == 0x3059 { 'ｽ' } else if v == 0x305b { 'ｾ' }
    else if v == 0x305d { 'ｿ' }
    else if v == 0x305f { 'ﾀ' } else if v == 0x3061 { 'ﾁ' }
    else if v == 0x3063 { 'ｯ' } else if v == 0x3064 { 'ﾂ' }
    else if v == 0x3066 { 'ﾃ' } else if v == 0x3068 { 'ﾄ' }
    else if v == 0x306a { 'ﾅ' } else if v == 0x306b { 'ﾆ' }
    else if v == 0x306c { 'ﾇ' } else if v == 0x306d { 'ﾈ' }
    else if v == 0x306e { 'ﾉ' }
    else if v == 0x306f { 'ﾊ' } else if v == 0x3072 { 'ﾋ' }
    else if v == 0x3075 { 'ﾌ' } else if v == 0x3078 { 'ﾍ' }
    else if v == 0x307b { 'ﾎ' }
    else if v == 0x307e { 'ﾏ' } else if v == 0x307f { 'ﾐ' }
    else if v == 0x3080 { 'ﾑ' } else if v == 0x3081 { 'ﾒ' }
    else if v == 0x3082 { 'ﾓ' }
    else if v == 0x3083 { 'ｬ' } else if v == 0x3084 { 'ﾔ' }
    else if v == 0x3085 { 'ｭ' } else if v == 0x3086 { 'ﾕ' }
    else if v == 0x3087 { 'ｮ' } else if v == 0x3088 { 'ﾖ' }
    else if v == 0x3089 { 'ﾗ' } else if v == 0x308a { 'ﾘ' }
    else if v == 0x308b { 'ﾙ' } else if v == 0x308c { 'ﾚ' }
    else if v == 0x308d { 'ﾛ' }
    else if v == 0x308e { 'ﾜ' } else if v == 0x308f { 'ﾜ' }
    else if v == 0x3090 { 'ｲ' } else if v == 0x3091 { 'ｴ' }
    else if v == 0x3092 { 'ｦ' } else if v == 0x3093 { 'ﾝ' }
    else if v == 0x3095 { 'ｶ' } else if v == 0x3096 { 'ｹ' }
    else if v == 0x30fc { 'ｰ' }
    else if v == 0x3001 { '､' } else if v == 0x3002 { '｡' }
    else if v == 0x300c { '｢' } else if v == 0x300d { '｣' }
    else if v == 0x30fb { '･' }
    else { c }
}

/// Convert a hiragana string to half-width katakana; voiced letters come
/// out as a base letter followed by a voicing mark.
pub fn to_half_katakana(s: &str) -> (r: String)
    ensures
        r@ == half_katakana_seq(s@),
{
    let n = s.unicode_len();
    let mut r = String::new();
    let mut i: usize = 0;
    while i < n
        invariant
            n == s@.len(),
            i <= n,
            r@ == half_katakana_seq(s@.take(i as int)),
        decreases n - i,
    {
        let c = s.get_char(i);
        let v = c as u32;
        let dakuten = (0x304c <= v && v <= 0x3062 && (v - 0x304c) % 2 == 0) || v == 0x3065
            || v == 0x3067 || v == 0x3069 || (0x3070 <= v && v <= 0x307c && (v - 0x3070) % 3
            == 0);
        let handakuten = 0x3071 <= v && v <= 0x307d && (v - 0x3071) % 3 == 0;
        if dakuten {
            let base = char_from_u32(v - 1);
            push_char(&mut r, half_katakana_base_exec(base));
            push_char(&mut r, 'ﾞ');
        } else if handakuten {
            let base = char_from_u32(v - 2);
            push_char(&mut r, half_katakana_base_exec(base));
            push_char(&mut r, 'ﾟ');
        } else if v == 0x3094 {
            push_char(&mut r, 'ｳ');
            push_char(&mut r, 'ﾞ');
        } else {
            push_char(&mut r, half_katakana_base_exec(c));
        }
        proof {
            assert(s@.take(i + 1) =~= s@.take(i as int).push(s@[i as int]));
            lemma_half_katakana_seq_push(s@.take(i as int), s@[i as int]);
        }
        i = i + 1;
    }
    assert(s@.take(n as int) =~= s@);
    r
}

} // verus!
