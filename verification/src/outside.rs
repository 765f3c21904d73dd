//! Items of `proc_macro2` and of std that the library calls, with the
//! contracts that the rest of the crate relies on.

use proc_macro2::{LexError, Span, TokenStream};
use std::str::FromStr;
use vstd::prelude::*;

verus! {

/// A region of source code (`proc_macro2::Span`). Carried through
/// unchanged to mark where an error is reported.
#[verifier::external_type_specification]
#[verifier::external_body]
pub struct ExSpan(Span);

/// A sequence of tokens (`proc_macro2::TokenStream`). Opaque here.
#[verifier::external_type_specification]
#[verifier::external_body]
pub struct ExTokenStream(TokenStream);

/// The error `proc_macro2` reports when text does not lex into tokens.
#[verifier::external_type_specification]
#[verifier::external_body]
pub struct ExLexError(LexError);

/// What `str::to_lowercase` gives for a text.
pub uninterp spec fn lowercase(text: Seq<char>) -> Seq<char>;

/// What `str::parse::<usize>` gives for a text, its error taken as the
/// error's display text.
pub uninterp spec fn usize_parse(text: Seq<char>) -> Result<usize, Seq<char>>;

/// Whether a character is an ASCII decimal digit.
pub open spec fn is_digit(c: char) -> bool {
    '0' <= c && c <= '9'
}

/// Whether every character of a text is an ASCII decimal digit.
pub open spec fn all_digits(s: Seq<char>) -> bool {
    forall|i: int| 0 <= i < s.len() ==> is_digit(#[trigger] s[i])
}

/// The number that a text of decimal digits denotes.
pub open spec fn digits_value(s: Seq<char>) -> nat
    decreases s.len(),
{
    if s.len() == 0 {
        0
    } else {
        digits_value(s.drop_last()) * 10 + ((s.last() as int) - ('0' as int)) as nat
    }
}

/// Lexes text into tokens with `<proc_macro2::TokenStream as FromStr>::from_str`.
/// Nothing is stated of the outcome: the lexer is chosen when the code runs
/// (the compiler's inside a procedural macro, `proc_macro2`'s own elsewhere),
/// so whether a text lexes is not a function of the text alone, and the
/// tokens are opaque.
#[verifier::external_body]
pub(crate) fn lex_tokens(text: &str) -> (r: Result<TokenStream, LexError>)
{
    TokenStream::from_str(text)
}

/// Whether every character of a text is ASCII.
pub open spec fn is_ascii_text(s: Seq<char>) -> bool {
    forall|i: int| 0 <= i < s.len() ==> (#[trigger] s[i] as u32) < 128
}

/// The lowercase form of an ASCII character: `A`..`Z` become `a`..`z`,
/// every other character stays.
pub open spec fn ascii_lower_char(c: char) -> char {
    if 'A' <= c && c <= 'Z' {
        ((c as u32) + 32) as char
    } else {
        c
    }
}

/// The text with each ASCII capital letter lowercased.
pub open spec fn ascii_lowercase(s: Seq<char>) -> Seq<char> {
    Seq::new(s.len(), |i: int| ascii_lower_char(s[i]))
}

/// Lowercases a text with `str::to_lowercase`; the result is named
/// `lowercase`. Lowercase is defined by the Unicode property `Lowercase`,
/// under which, for ASCII text, exactly the capital letters `A`..`Z` change,
/// to `a`..`z`; this is stated for ASCII text.
#[verifier::external_body]
pub(crate) fn to_lowercase(text: &str) -> (r: String)
    ensures
        r@ == lowercase(text@),
        is_ascii_text(text@) ==> r@ == ascii_lowercase(text@),
{
    text.to_lowercase()
}

/// Parses a text as a `usize` with `str::parse::<usize>`, turning its error
/// into the error's display text. Its result is named `usize_parse`. Of a
/// text of decimal digits, std documents that it succeeds with the text's
/// value exactly when that value fits in a `usize`; of an empty text, that
/// it fails.
#[verifier::external_body]
pub(crate) fn parse_usize(text: &str) -> (r: Result<usize, String>)
    ensures
        match usize_parse(text@) {
            Ok(v) => r == Ok::<usize, String>(v),
            Err(m) => r matches Err(e) && e@ == m,
        },
        all_digits(text@) && text@.len() > 0 ==> (r is Ok <==> digits_value(text@)
            <= usize::MAX),
        all_digits(text@) ==> (r matches Ok(v) ==> v == digits_value(text@)),
        text@.len() == 0 ==> r is Err,
{
    match text.parse::<usize>() {
        Ok(v) => Ok(v),
        Err(e) => Err(e.to_string()),
    }
}

} // verus!
