//! Half-width / full-width conversion.
//!
//! Typed keys arrive as half-width ASCII. Before they are handed to the
//! conversion backend, or shown as full-width Latin text, they are shaped
//! character by character:
//!
//! * the romaji vowels `a i u e o` become the hiragana vowels (kana-mode
//!   shaping only, that is when `preserve_ascii_punct` is false);
//! * `-` `,` `.` become the Japanese long-vowel mark and punctuation
//!   (kana-mode shaping only);
//! * every other printable ASCII character moves to the full-width forms
//!   block (an offset of 0xFEE0), the space to the ideographic space.
//!
//! `to_halfwidth` inverts all of that, so the two transforms are mutually
//! inverse on ASCII input, whichever shaping was used.

use vstd::prelude::*;

use crate::chars::char_from_u32;
use crate::chars::push_char;

verus! {

/// The full-width shape of a single character.
pub open spec fn fullwidth_char(c: char, preserve_ascii_punct: bool) -> char {
    let v = c as int;
    if !preserve_ascii_punct && v == 0x61 {
        'あ'
    } else if !preserve_ascii_punct && v == 0x69 {
        'い'
    } else if !preserve_ascii_punct && v == 0x75 {
        'う'
    } else if !preserve_ascii_punct && v == 0x65 {
        'え'
    } else if !preserve_ascii_punct && v == 0x6f {
        'お'
    } else if !preserve_ascii_punct && v == 0x2d {
        'ー'
    } else if !preserve_ascii_punct && v == 0x2c {
        '、'
    } else if !preserve_ascii_punct && v == 0x2e {
        '。'
    } else if 0x21 <= v && v <= 0x7e {
        (((v + 0xfee0) as u32) as char)
    } else if v == 0x20 {
        '\u{3000}'
    } else {
        c
    }
}

/// The half-width shape of a single character: the inverse of
/// [`fullwidth_char`] wherever that function moved a character.
pub open spec fn halfwidth_char(c: char) -> char {
    let v = c as int;
    if v == 0x3042 {  // あ
        'a'
    } else if v == 0x3044 {  // い
        'i'
    } else if v == 0x3046 {  // う
        'u'
    } else if v == 0x3048 {  // え
        'e'
    } else if v == 0x304a {  // お
        'o'
    } else if v == 0x30fc {  // ー
        '-'
    } else if v == 0x3001 {  // 、
        ','
    } else if v == 0x3002 {  // 。
        '.'
    } else if 0xff01 <= v && v <= 0xff5e {
        (((v - 0xfee0) as u32) as char)
    } else if v == 0x3000 {
        ' '
    } else {
        c
    }
}

pub open spec fn fullwidth_seq(s: Seq<char>, preserve_ascii_punct: bool) -> Seq<char> {
    s.map_values(|c: char| fullwidth_char(c, preserve_ascii_punct))
}

pub open spec fn halfwidth_seq(s: Seq<char>) -> Seq<char> {
    s.map_values(|c: char| halfwidth_char(c))
}

fn fullwidth_char_exec(c: char, preserve_ascii_punct: bool) -> (r: char)
    ensures
        r == fullwidth_char(c, preserve_ascii_punct),
{
    let v = c as u32;
    if !preserve_ascii_punct && v == 0x61 {
        'あ'
    } else if !preserve_ascii_punct && v == 0x69 {
        'い'
    } else if !preserve_ascii_punct && v == 0x75 {
        'う'
    } else if !preserve_ascii_punct && v == 0x65 {
        'え'
    } else if !preserve_ascii_punct && v == 0x6f {
        'お'
    } else if !preserve_ascii_punct && v == 0x2d {
        'ー'
    } else if !preserve_ascii_punct && v == 0x2c {
        '、'
    } else if !preserve_ascii_punct && v == 0x2e {
        '。'
    } else if 0x21 <= v && v <= 0x7e {
        char_from_u32(v + 0xfee0)
    } else if v == 0x20 {
        '\u{3000}'
    } else {
        c
    }
}

fn halfwidth_char_exec(c: char) -> (r: char)
    ensures
        r == halfwidth_char(c),
{
    let v = c as u32;
    if v == 0x3042 {
        'a'
    } else if v == 0x3044 {
        'i'
    } else if v == 0x3046 {
        'u'
    } else if v == 0x3048 {
        'e'
    } else if v == 0x304a {
        'o'
    } else if v == 0x30fc {
        '-'
    } else if v == 0x3001 {
        ','
    } else if v == 0x3002 {
        '.'
    } else if 0xff01 <= v && v <= 0xff5e {
        char_from_u32(v - 0xfee0)
    } else if v == 0x3000 {
        ' '
    } else {
        c
    }
}

/// Shape a whole string to its full-width form, character by character.
pub fn to_fullwidth(s: &str, preserve_ascii_punct: bool) -> (r: String)
    ensures
        r@ == fullwidth_seq(s@, preserve_ascii_punct),
{
    let n = s.unicode_len();
    let mut r = String::new();
    let mut i: usize = 0;
    while i < n
        invariant
            n == s@.len(),
            i <= n,
            r@.len() == i,
            forall|j: int|
                0 <= j < i ==> r@[j] == fullwidth_char(s@[j], preserve_ascii_punct),
        decreases n - i,
    {
        let c = s.get_char(i);
        push_char(&mut r, fullwidth_char_exec(c, preserve_ascii_punct));
        i = i + 1;
    }
    assert(r@ =~= fullwidth_seq(s@, preserve_ascii_punct));
    r
}

/// Shape a whole string back to its half-width form, character by character.
pub fn to_halfwidth(s: &str) -> (r: String)
    ensures
        r@ == halfwidth_seq(s@),
{
    let n = s.unicode_len();
    let mut r = String::new();
    let mut i: usize = 0;
    while i < n
        invariant
            n == s@.len(),
            i <= n,
            r@.len() == i,
            forall|j: int| 0 <= j < i ==> r@[j] == halfwidth_char(s@[j]),
        decreases n - i,
    {
        let c = s.get_char(i);
        push_char(&mut r, halfwidth_char_exec(c));
        i = i + 1;
    }
    assert(r@ =~= halfwidth_seq(s@));
    r
}

/// Half-width after full-width is the identity on every ASCII character,
/// under either shaping.
pub proof fn lemma_halfwidth_fullwidth_char(c: char, preserve_ascii_punct: bool)
    requires
        c as int <= 0x7f,
    ensures
        halfwidth_char(fullwidth_char(c, preserve_ascii_punct)) == c,
{
}

/// Shaping an ASCII string to full width and back returns the original
/// string, under either shaping.
pub proof fn lemma_halfwidth_fullwidth(s: Seq<char>, preserve_ascii_punct: bool)
    requires
        forall|i: int| 0 <= i < s.len() ==> (s[i] as int) <= 0x7f,
    ensures
        halfwidth_seq(fullwidth_seq(s, preserve_ascii_punct)) == s,
{
    assert forall|i: int| 0 <= i < s.len() implies halfwidth_seq(
        fullwidth_seq(s, preserve_ascii_punct),
    )[i] == s[i] by {
        lemma_halfwidth_fullwidth_char(s[i], preserve_ascii_punct);
    }
    assert(halfwidth_seq(fullwidth_seq(s, preserve_ascii_punct)) =~= s);
}

} // verus!
