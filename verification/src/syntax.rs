//! Paths, as `syn` reads them.
//!
//! Whether a text is a path takes the whole grammar of Rust's types to say,
//! so the library asks `syn`. Nothing is claimed of the answer; the
//! functions that ask say what holds whichever answer came back.
//!
//! `syn` does not return on every text: it stops the program on a literal
//! that it cannot read. A text is cut into tokens before `syn` reads it,
//! and the only literals that the library lets through are plain numbers,
//! which `syn` reads. Every other literal needs a character or a pattern
//! that [`askable`] leaves out: a string needs `"`, a character needs a
//! closing `'`, a comment that stands for a literal needs `/`, and a number
//! that is not plain runs into a letter or a `.`. Of a text that is not
//! askable the library gives the answer "no" itself.

use vstd::prelude::*;
use vstd::string::StrSliceExecFns;

verus! {

/// Whether `c` is one of the digits `0` to `9`.
pub open spec fn is_digit(c: char) -> bool {
    '0' <= c <= '9'
}

/// Whether `c` may begin a plain identifier: a letter of `a` to `z` or `A`
/// to `Z`, or `_`.
pub open spec fn is_word_start(c: char) -> bool {
    ('a' <= c <= 'z') || ('A' <= c <= 'Z') || c == '_'
}

/// Whether `c` may stand inside a plain identifier: a letter, a digit, or
/// `_`.
pub open spec fn is_word_char(c: char) -> bool {
    is_word_start(c) || is_digit(c)
}

/// Whether `c` is one of the 128 characters of ASCII.
pub open spec fn is_ascii_char(c: char) -> bool {
    c <= '\u{7f}'
}

/// Whether the character at index `i` of `text` belongs to a number: to a
/// run of letters, digits and `_` that begins with a digit.
pub open spec fn in_number(text: Seq<char>, i: int) -> bool
    decreases i,
{
    if i < 0 || i >= text.len() || !is_word_char(text[i]) {
        false
    } else if i > 0 && is_word_char(text[i - 1]) {
        in_number(text, i - 1)
    } else {
        is_digit(text[i])
    }
}

/// Whether the character at index `i` of `text` can belong to no literal
/// but a plain number:
/// - it is neither `"` nor `/`;
/// - where it is `'`, it begins a lifetime: no letter, digit or `_` stands
///   before it, and a letter or `_` after it;
/// - where it belongs to a number, it is a digit;
/// - where it follows a number, it is a character of ASCII other than
///   `.`.
pub open spec fn askable_at(text: Seq<char>, i: int) -> bool {
    &&& text[i] != '"'
    &&& text[i] != '/'
    &&& (text[i] == '\'' ==> (i == 0 || !is_word_char(text[i - 1])) && i + 1 < text.len()
        && is_word_start(text[i + 1]))
    &&& (in_number(text, i) ==> is_digit(text[i]))
    &&& (i > 0 && in_number(text, i - 1) && !is_word_char(text[i]) ==> text[i] != '.'
        && is_ascii_char(text[i]))
}

/// Whether `text` may be asked of `syn`: the only literals that it can
/// hold are plain numbers, runs of the digits `0` to `9`.
pub open spec fn askable(text: Seq<char>) -> bool {
    forall|i: int| 0 <= i < text.len() ==> #[trigger] askable_at(text, i)
}

/// Whether `text` may be asked of `syn`.
pub fn is_askable(text: &str) -> (yes: bool)
    ensures
        yes == askable(text@),
{
    let n = text.unicode_len();
    let mut after_word = false;
    let mut after_number = false;
    let mut i: usize = 0;
    while i < n
        invariant
            n == text@.len(),
            i <= n,
            after_word == (i > 0 && is_word_char(text@[i - 1])),
            after_number == (i > 0 && in_number(text@, i - 1)),
            forall|k: int| 0 <= k < i ==> #[trigger] askable_at(text@, k),
        decreases n - i,
    {
        let c = text.get_char(i);
        let digit = '0' <= c && c <= '9';
        let start = ('a' <= c && c <= 'z') || ('A' <= c && c <= 'Z') || c == '_';
        let word = start || digit;
        let number = word && (if after_word {
            after_number
        } else {
            digit
        });
        assert(number == in_number(text@, i as int));
        let mut fine = c != '"' && c != '/';
        if c == '\'' {
            fine = !after_word && n - i > 1;
            if fine {
                let next = text.get_char(i + 1);
                fine = ('a' <= next && next <= 'z') || ('A' <= next && next <= 'Z') || next
                    == '_';
            }
        }
        if number && !digit {
            fine = false;
        }
        if after_number && !word && (c == '.' || c > '\u{7f}') {
            fine = false;
        }
        if !fine {
            assert(!askable_at(text@, i as int));
            return false;
        }
        after_word = word;
        after_number = number;
        i = i + 1;
    }
    true
}

/// Asks `syn::parse_str::<syn::Path>` whether it reads the whole of `text`
/// as a path. The contract claims nothing of the answer. It leaves out the
/// texts that are not askable: on a literal that it cannot read, `syn`
/// panics.
#[verifier::external_body]
pub(crate) fn path_ok(text: &str) -> (ok: bool)
    requires
        askable(text@),
{
    syn::parse_str::<syn::Path>(text).is_ok()
}

/// Asks `syn::parse_str::<syn::ExprPath>` whether it reads the whole of
/// `text` as a path in expression position. The contract claims nothing of
/// the answer. It leaves out the texts that are not askable: on a literal
/// that it cannot read, `syn` panics.
#[verifier::external_body]
pub(crate) fn expr_path_ok(text: &str) -> (ok: bool)
    requires
        askable(text@),
{
    syn::parse_str::<syn::ExprPath>(text).is_ok()
}

/// Whether `text` is taken for a path, such as `a::b` or `::a::B<T>`. A text
/// that is not askable is not; of any other text `syn` decides.
pub fn check_path(text: &str) -> (ok: bool)
    ensures
        ok ==> askable(text@),
{
    if is_askable(text) {
        path_ok(text)
    } else {
        false
    }
}

/// Whether `text` is taken for a path in expression position, such as
/// `a::b`, `a::b::<T>` or `<T as Trait>::f`. A text that is not askable is
/// not; of any other text `syn` decides.
pub fn check_expr_path(text: &str) -> (ok: bool)
    ensures
        ok ==> askable(text@),
{
    if is_askable(text) {
        expr_path_ok(text)
    } else {
        false
    }
}

} // verus!
