//! Character-level building blocks shared by the text transforms.
//!
//! The transforms work character by character: they read a `char`, compute
//! the code of its converted form, and turn that code back into a `char`.
//! The two conversions that Rust's standard library performs for us are
//! wrapped here with exact contracts.

use vstd::prelude::*;

verus! {

/// Relies on `char::from_u32`: it returns `Some` exactly for Unicode scalar
/// values, and the resulting character has the given code.
#[verifier::external_body]
pub(crate) fn char_from_u32(code: u32) -> (c: char)
    requires
        vstd::utf8::is_scalar(code),
    ensures
        c as u32 == code,
{
    char::from_u32(code).unwrap()
}

/// Relies on `String::push`: it appends exactly one character.
#[verifier::external_body]
pub(crate) fn push_char(s: &mut String, c: char)
    ensures
        final(s)@ == old(s)@.push(c),
{
    s.push(c);
}

/// The string of the first `n` characters of `s`; all of `s` when it is
/// shorter than that.
pub fn take_chars(s: &str, n: usize) -> (r: String)
    ensures
        r@ == if n <= s@.len() {
            s@.take(n as int)
        } else {
            s@
        },
{
    let len = s.unicode_len();
    let k = if n <= len {
        n
    } else {
        len
    };
    let mut r = String::new();
    let mut i: usize = 0;
    while i < k
        invariant
            k <= len,
            len == s@.len(),
            i <= k,
            r@.len() == i,
            forall|j: int| 0 <= j < i ==> r@[j] == s@[j],
        decreases k - i,
    {
        push_char(&mut r, s.get_char(i));
        i = i + 1;
    }
    proof {
        if n <= s@.len() {
            assert(r@ =~= s@.take(n as int));
        } else {
            assert(r@ =~= s@);
        }
    }
    r
}

/// The string of `s` without its first `n` characters; empty when `s` is
/// shorter than that.
pub fn skip_chars(s: &str, n: usize) -> (r: String)
    ensures
        r@ == if n <= s@.len() {
            s@.skip(n as int)
        } else {
            Seq::<char>::empty()
        },
{
    let len = s.unicode_len();
    let k = if n <= len {
        n
    } else {
        len
    };
    let mut r = String::new();
    let mut i: usize = k;
    while i < len
        invariant
            k <= len,
            len == s@.len(),
            k <= i <= len,
            r@.len() == i - k,
            forall|j: int| k <= j < i ==> r@[j - k] == s@[j],
        decreases len - i,
    {
        push_char(&mut r, s.get_char(i));
        i = i + 1;
    }
    proof {
        if n <= s@.len() {
            assert(r@ =~= s@.skip(n as int));
        } else {
            assert(r@ =~= Seq::<char>::empty());
        }
    }
    r
}

/// The one-character string holding `c`.
pub fn char_to_string(c: char) -> (s: String)
    ensures
        s@ == seq![c],
{
    let mut s = String::new();
    push_char(&mut s, c);
    proof {
        assert(s@ =~= seq![c]);
    }
    s
}

} // verus!
