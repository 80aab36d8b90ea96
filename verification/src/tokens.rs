//! Token representation and the classification of one whitespace-separated
//! word into a token.

use vstd::prelude::*;
use crate::errors::LexerError;
use crate::strutil::str_equal;

verus! {

/// The kinds of token the language knows.
#[derive(Debug, PartialEq, Eq, Structural, Clone, Copy)]
pub enum TokenKind {
    MAKEOP,
    ARITHOP,
    COMPOP,
    BOOLOP,
    DIRECTION,
    IDENT,
    IDENTREF,
    ADDASSIGN,
    NUM,
    IFSTMNT,
    WHILESTMNT,
    LPAREN,
    RPAREN,
    PENSTATUS,
    PENCOLOR,
    PENPOS,
    QUERY,
    PROCSTART,
    PROCEND,
    PROCNAME,
}

/// One token: its kind, its text (with any `"` or `:` prefix stripped), and
/// the source line it came from; the program numbers lines from 1.
#[derive(Debug, Clone)]
pub struct Token {
    pub kind: TokenKind,
    pub value: String,
    pub line: i32,
}

/// Whether `c` is alphanumeric in the Unicode sense, as
/// `char::is_alphanumeric` decides it.
pub uninterp spec fn char_alphanumeric(c: char) -> bool;

/// Whether `c` is alphabetic in the Unicode sense, as `char::is_alphabetic`
/// decides it.
pub uninterp spec fn char_alphabetic(c: char) -> bool;

/// Relies on `char::is_alphanumeric`: a pure classification of one
/// character by its Unicode properties.
#[verifier::external_body]
fn is_char_alphanumeric(c: char) -> (r: bool)
    ensures
        r == char_alphanumeric(c),
{
    c.is_alphanumeric()
}

/// Relies on `char::is_alphabetic`: a pure classification of one character
/// by its Unicode properties.
#[verifier::external_body]
fn is_char_alphabetic(c: char) -> (r: bool)
    ensures
        r == char_alphabetic(c),
{
    c.is_alphabetic()
}

/// A decimal digit.
pub open spec fn is_digit(c: char) -> bool {
    '0' <= c && c <= '9'
}

/// Every character of `s` is alphanumeric or an underscore: the shape of an
/// identifier body.
pub open spec fn ident_chars(s: Seq<char>) -> bool {
    forall|i: int| 0 <= i < s.len() ==> char_alphanumeric(#[trigger] s[i]) || s[i] == '_'
}

/// Every character of `s` is alphabetic: the shape of a bare procedure
/// name.
pub open spec fn alpha_chars(s: Seq<char>) -> bool {
    forall|i: int| 0 <= i < s.len() ==> char_alphabetic(#[trigger] s[i])
}

/// Accepts the rest of a mantissa from position `i`, given whether a digit
/// and a decimal point were already seen.
pub open spec fn mantissa_from(s: Seq<char>, i: int, seen_digit: bool, seen_dot: bool) -> bool
    decreases s.len() - i,
{
    if i < 0 || i >= s.len() {
        seen_digit
    } else if is_digit(s[i]) {
        mantissa_from(s, i + 1, true, seen_dot)
    } else if s[i] == '.' && !seen_dot {
        mantissa_from(s, i + 1, seen_digit, true)
    } else if (s[i] == 'e' || s[i] == 'E') && seen_digit {
        exponent_from(s, i + 1)
    } else {
        false
    }
}

/// Accepts an exponent part from position `i`: an optional sign, then at
/// least one digit.
pub open spec fn exponent_from(s: Seq<char>, i: int) -> bool {
    if 0 <= i < s.len() && (s[i] == '+' || s[i] == '-') {
        exponent_digits(s, i + 1, false)
    } else {
        exponent_digits(s, i, false)
    }
}

/// Accepts digits to the end of `s` from position `i`; at least one must
/// have been seen.
pub open spec fn exponent_digits(s: Seq<char>, i: int, seen_digit: bool) -> bool
    decreases s.len() - i,
{
    if i < 0 || i >= s.len() {
        seen_digit
    } else if is_digit(s[i]) {
        exponent_digits(s, i + 1, true)
    } else {
        false
    }
}

/// The grammar of a finite decimal literal: an optional sign, then digits
/// with at most one decimal point and at least one digit, then an optional
/// decimal exponent.
pub open spec fn is_decimal_literal(s: Seq<char>) -> bool {
    if s.len() > 0 && (s[0] == '+' || s[0] == '-') {
        mantissa_from(s, 1, false, false)
    } else {
        mantissa_from(s, 0, false, false)
    }
}

/// The character is one of the two given letter cases.
pub open spec fn either_case(c: char, lower: char, upper: char) -> bool {
    c == lower || c == upper
}

/// The word `inf` or `infinity`, in any letter case.
pub open spec fn is_inf_form(s: Seq<char>) -> bool {
    ||| (s.len() == 3 && either_case(s[0], 'i', 'I') && either_case(s[1], 'n', 'N')
        && either_case(s[2], 'f', 'F'))
    ||| (s.len() == 8 && either_case(s[0], 'i', 'I') && either_case(s[1], 'n', 'N')
        && either_case(s[2], 'f', 'F') && either_case(s[3], 'i', 'I') && either_case(
        s[4],
        'n',
        'N',
    ) && either_case(s[5], 'i', 'I') && either_case(s[6], 't', 'T') && either_case(
        s[7],
        'y',
        'Y',
    ))
}

/// The word `nan`, in any letter case.
pub open spec fn is_nan_form(s: Seq<char>) -> bool {
    s.len() == 3 && either_case(s[0], 'n', 'N') && either_case(s[1], 'a', 'A') && either_case(
        s[2],
        'n',
        'N',
    )
}

/// Splits a word-form literal — an optional sign, then `inf`, `infinity`
/// or `nan` in any letter case — into whether it is negative and whether
/// it names a NaN; anything else is no word-form literal.
pub open spec fn word_literal_parts(s: Seq<char>) -> Option<(bool, bool)> {
    let has_sign = s.len() > 0 && (s[0] == '+' || s[0] == '-');
    let neg = s.len() > 0 && s[0] == '-';
    let w = if has_sign {
        s.subrange(1, s.len() as int)
    } else {
        s
    };
    if is_inf_form(w) {
        Some((neg, false))
    } else if is_nan_form(w) {
        Some((neg, true))
    } else {
        None
    }
}

/// A word-form literal: a signed `inf`, `infinity` or `nan` in any letter
/// case.
pub open spec fn is_word_literal(s: Seq<char>) -> bool {
    word_literal_parts(s) is Some
}

/// The grammar of a numeric literal, as `f32`'s string parsing accepts it:
/// a finite decimal, or one of the word forms for infinities and NaNs.
pub open spec fn is_numeric_literal(s: Seq<char>) -> bool {
    is_decimal_literal(s) || is_word_literal(s)
}

fn check_digit(c: char) -> (r: bool)
    ensures
        r == is_digit(c),
{
    '0' <= c && c <= '9'
}

fn check_exponent_digits(s: &str, i: usize, seen_digit: bool) -> (r: bool)
    requires
        i <= s@.len(),
    ensures
        r == exponent_digits(s@, i as int, seen_digit),
    decreases s@.len() - i,
{
    if i >= s.unicode_len() {
        seen_digit
    } else {
        let c = s.get_char(i);
        if check_digit(c) {
            check_exponent_digits(s, i + 1, true)
        } else {
            false
        }
    }
}

fn check_exponent_from(s: &str, i: usize) -> (r: bool)
    requires
        i <= s@.len(),
    ensures
        r == exponent_from(s@, i as int),
{
    if i < s.unicode_len() {
        let c = s.get_char(i);
        if c == '+' || c == '-' {
            check_exponent_digits(s, i + 1, false)
        } else {
            check_exponent_digits(s, i, false)
        }
    } else {
        check_exponent_digits(s, i, false)
    }
}

fn check_mantissa_from(s: &str, i: usize, seen_digit: bool, seen_dot: bool) -> (r: bool)
    requires
        i <= s@.len(),
    ensures
        r == mantissa_from(s@, i as int, seen_digit, seen_dot),
    decreases s@.len() - i,
{
    if i >= s.unicode_len() {
        seen_digit
    } else {
        let c = s.get_char(i);
        if check_digit(c) {
            check_mantissa_from(s, i + 1, true, seen_dot)
        } else if c == '.' && !seen_dot {
            check_mantissa_from(s, i + 1, seen_digit, true)
        } else if (c == 'e' || c == 'E') && seen_digit {
            check_exponent_from(s, i + 1)
        } else {
            false
        }
    }
}

fn check_decimal_literal(s: &str) -> (r: bool)
    ensures
        r == is_decimal_literal(s@),
{
    if s.unicode_len() > 0 {
        let c = s.get_char(0);
        if c == '+' || c == '-' {
            return check_mantissa_from(s, 1, false, false);
        }
    }
    check_mantissa_from(s, 0, false, false)
}

fn check_inf_form(s: &str, from: usize) -> (r: bool)
    requires
        from <= s@.len(),
    ensures
        r == is_inf_form(s@.subrange(from as int, s@.len() as int)),
{
    let n = s.unicode_len();
    let ghost w = s@.subrange(from as int, s@.len() as int);
    if n - from == 3 {
        let c0 = s.get_char(from);
        let c1 = s.get_char(from + 1);
        let c2 = s.get_char(from + 2);
        proof {
            assert(w[0] == s@[from as int] && w[1] == s@[from + 1] && w[2] == s@[from + 2]);
        }
        (c0 == 'i' || c0 == 'I') && (c1 == 'n' || c1 == 'N') && (c2 == 'f' || c2 == 'F')
    } else if n - from == 8 {
        let c0 = s.get_char(from);
        let c1 = s.get_char(from + 1);
        let c2 = s.get_char(from + 2);
        let c3 = s.get_char(from + 3);
        let c4 = s.get_char(from + 4);
        let c5 = s.get_char(from + 5);
        let c6 = s.get_char(from + 6);
        let c7 = s.get_char(from + 7);
        proof {
            assert(w[0] == s@[from as int] && w[1] == s@[from + 1] && w[2] == s@[from + 2]
                && w[3] == s@[from + 3] && w[4] == s@[from + 4] && w[5] == s@[from + 5] && w[6]
                == s@[from + 6] && w[7] == s@[from + 7]);
        }
        (c0 == 'i' || c0 == 'I') && (c1 == 'n' || c1 == 'N') && (c2 == 'f' || c2 == 'F') && (c3
            == 'i' || c3 == 'I') && (c4 == 'n' || c4 == 'N') && (c5 == 'i' || c5 == 'I') && (c6
            == 't' || c6 == 'T') && (c7 == 'y' || c7 == 'Y')
    } else {
        false
    }
}

fn check_nan_form(s: &str, from: usize) -> (r: bool)
    requires
        from <= s@.len(),
    ensures
        r == is_nan_form(s@.subrange(from as int, s@.len() as int)),
{
    let n = s.unicode_len();
    let ghost w = s@.subrange(from as int, s@.len() as int);
    if n - from == 3 {
        let c0 = s.get_char(from);
        let c1 = s.get_char(from + 1);
        let c2 = s.get_char(from + 2);
        proof {
            assert(w[0] == s@[from as int] && w[1] == s@[from + 1] && w[2] == s@[from + 2]);
        }
        (c0 == 'n' || c0 == 'N') && (c1 == 'a' || c1 == 'A') && (c2 == 'n' || c2 == 'N')
    } else {
        false
    }
}

/// Splits a word-form literal into its sign and whether it names a NaN, or
/// reports that the text is no word-form literal.
pub fn check_word_literal(s: &str) -> (r: Option<(bool, bool)>)
    ensures
        r == word_literal_parts(s@),
{
    let n = s.unicode_len();
    let mut from: usize = 0;
    let mut neg = false;
    if n > 0 {
        let c = s.get_char(0);
        if c == '-' {
            neg = true;
            from = 1;
        } else if c == '+' {
            from = 1;
        }
    }
    proof {
        if from == 0 {
            assert(s@.subrange(0, s@.len() as int) =~= s@);
        }
    }
    if check_inf_form(s, from) {
        Some((neg, false))
    } else if check_nan_form(s, from) {
        Some((neg, true))
    } else {
        None
    }
}

/// Decides whether `s` matches the numeric-literal grammar.
pub fn check_numeric_literal(s: &str) -> (r: bool)
    ensures
        r == is_numeric_literal(s@),
{
    if check_decimal_literal(s) {
        true
    } else {
        match check_word_literal(s) {
            Some(_) => true,
            None => false,
        }
    }
}

fn check_ident_chars(s: &str, from: usize) -> (r: bool)
    requires
        from <= s@.len(),
    ensures
        r == ident_chars(s@.subrange(from as int, s@.len() as int)),
{
    let len = s.unicode_len();
    let mut i: usize = from;
    while i < len
        invariant
            from <= i <= len,
            len == s@.len(),
            forall|j: int|
                from <= j < i ==> char_alphanumeric(#[trigger] s@[j]) || s@[j] == '_',
        decreases len - i,
    {
        let c = s.get_char(i);
        if !is_char_alphanumeric(c) && c != '_' {
            proof {
                assert(s@.subrange(from as int, s@.len() as int)[i - from] == s@[i as int]);
            }
            return false;
        }
        i = i + 1;
    }
    proof {
        assert forall|j: int| 0 <= j < s@.len() - from implies char_alphanumeric(
            #[trigger] s@.subrange(from as int, s@.len() as int)[j],
        ) || s@.subrange(from as int, s@.len() as int)[j] == '_' by {
            assert(s@.subrange(from as int, s@.len() as int)[j] == s@[from + j]);
        }
    }
    true
}

fn check_alpha_chars(s: &str) -> (r: bool)
    ensures
        r == alpha_chars(s@),
{
    let len = s.unicode_len();
    let mut i: usize = 0;
    while i < len
        invariant
            i <= len,
            len == s@.len(),
            forall|j: int| 0 <= j < i ==> char_alphabetic(#[trigger] s@[j]),
        decreases len - i,
    {
        if !is_char_alphabetic(s.get_char(i)) {
            return false;
        }
        i = i + 1;
    }
    true
}

/// The fixed words of the language and the token kind each one carries.
pub open spec fn keyword_kind(s: Seq<char>) -> Option<TokenKind> {
    if s == "MAKE"@ {
        Some(TokenKind::MAKEOP)
    } else if s == "+"@ || s == "-"@ || s == "*"@ || s == "/"@ {
        Some(TokenKind::ARITHOP)
    } else if s == "EQ"@ || s == "NE"@ || s == "GT"@ || s == "LT"@ {
        Some(TokenKind::COMPOP)
    } else if s == "AND"@ || s == "OR"@ {
        Some(TokenKind::BOOLOP)
    } else if s == "ADDASSIGN"@ {
        Some(TokenKind::ADDASSIGN)
    } else if s == "FORWARD"@ || s == "BACK"@ || s == "RIGHT"@ || s == "LEFT"@ {
        Some(TokenKind::DIRECTION)
    } else if s == "PENUP"@ || s == "PENDOWN"@ {
        Some(TokenKind::PENSTATUS)
    } else if s == "SETPENCOLOR"@ {
        Some(TokenKind::PENCOLOR)
    } else if s == "SETX"@ || s == "SETY"@ || s == "TURN"@ || s == "SETHEADING"@ {
        Some(TokenKind::PENPOS)
    } else if s == "XCOR"@ || s == "YCOR"@ || s == "HEADING"@ || s == "COLOR"@ {
        Some(TokenKind::QUERY)
    } else if s == "IF"@ {
        Some(TokenKind::IFSTMNT)
    } else if s == "WHILE"@ {
        Some(TokenKind::WHILESTMNT)
    } else if s == "["@ {
        Some(TokenKind::LPAREN)
    } else if s == "]"@ {
        Some(TokenKind::RPAREN)
    } else if s == "TO"@ {
        Some(TokenKind::PROCSTART)
    } else if s == "END"@ {
        Some(TokenKind::PROCEND)
    } else {
        None
    }
}

/// How one word is classified: a keyword keeps its own text; a word with a
/// `"` prefix is a numeric literal or an identifier, with the prefix
/// stripped; a `:` prefix over identifier characters is an identifier
/// reference; a purely alphabetic word is a bare procedure name; anything
/// else is no token.
pub open spec fn classify(s: Seq<char>) -> Option<(TokenKind, Seq<char>)> {
    if keyword_kind(s) is Some {
        Some((keyword_kind(s)->Some_0, s))
    } else if s.len() > 0 && s[0] == '"' {
        let rest = s.subrange(1, s.len() as int);
        if is_numeric_literal(rest) {
            Some((TokenKind::NUM, rest))
        } else if ident_chars(rest) {
            Some((TokenKind::IDENT, rest))
        } else {
            None
        }
    } else if s.len() > 0 && s[0] == ':' && ident_chars(s.subrange(1, s.len() as int)) {
        Some((TokenKind::IDENTREF, s.subrange(1, s.len() as int)))
    } else if alpha_chars(s) {
        Some((TokenKind::PROCNAME, s))
    } else {
        None
    }
}

fn keyword_lookup(input: &str) -> (r: Option<TokenKind>)
    ensures
        r == keyword_kind(input@),
{
    if str_equal(input, "MAKE") {
        Some(TokenKind::MAKEOP)
    } else if str_equal(input, "+") || str_equal(input, "-") || str_equal(input, "*") || str_equal(
        input,
        "/",
    ) {
        Some(TokenKind::ARITHOP)
    } else if str_equal(input, "EQ") || str_equal(input, "NE") || str_equal(input, "GT")
        || str_equal(input, "LT") {
        Some(TokenKind::COMPOP)
    } else if str_equal(input, "AND") || str_equal(input, "OR") {
        Some(TokenKind::BOOLOP)
    } else if str_equal(input, "ADDASSIGN") {
        Some(TokenKind::ADDASSIGN)
    } else if str_equal(input, "FORWARD") || str_equal(input, "BACK") || str_equal(input, "RIGHT")
        || str_equal(input, "LEFT") {
        Some(TokenKind::DIRECTION)
    } else if str_equal(input, "PENUP") || str_equal(input, "PENDOWN") {
        Some(TokenKind::PENSTATUS)
    } else if str_equal(input, "SETPENCOLOR") {
        Some(TokenKind::PENCOLOR)
    } else if str_equal(input, "SETX") || str_equal(input, "SETY") || str_equal(input, "TURN")
        || str_equal(input, "SETHEADING") {
        Some(TokenKind::PENPOS)
    } else if str_equal(input, "XCOR") || str_equal(input, "YCOR") || str_equal(input, "HEADING")
        || str_equal(input, "COLOR") {
        Some(TokenKind::QUERY)
    } else if str_equal(input, "IF") {
        Some(TokenKind::IFSTMNT)
    } else if str_equal(input, "WHILE") {
        Some(TokenKind::WHILESTMNT)
    } else if str_equal(input, "[") {
        Some(TokenKind::LPAREN)
    } else if str_equal(input, "]") {
        Some(TokenKind::RPAREN)
    } else if str_equal(input, "TO") {
        Some(TokenKind::PROCSTART)
    } else if str_equal(input, "END") {
        Some(TokenKind::PROCEND)
    } else {
        None
    }
}

/// Converts one word of input into a token carrying `line_no`, or reports
/// it as invalid.
pub fn to_token(input: &str, line_no: i32) -> (r: Result<Token, LexerError>)
    ensures
        match classify(input@) {
            Some((k, v)) => r matches Ok(t) && t.kind == k && t.value@ == v && t.line == line_no,
            None => r matches Err(e) && (e matches LexerError::InvalidTokenError(m) && m@
                == input@),
        },
{
    if let Some(kind) = keyword_lookup(input) {
        return Ok(Token { kind, value: input.to_owned(), line: line_no });
    }
    let len = input.unicode_len();
    if len > 0 {
        let c0 = input.get_char(0);
        if c0 == '"' {
            let rest = input.substring_char(1, len);
            if check_numeric_literal(rest) {
                return Ok(Token { kind: TokenKind::NUM, value: rest.to_owned(), line: line_no });
            }
            if check_ident_chars(rest, 0) {
                proof {
                    assert(rest@.subrange(0, rest@.len() as int) =~= rest@);
                }
                return Ok(Token { kind: TokenKind::IDENT, value: rest.to_owned(), line: line_no });
            }
            return Err(LexerError::InvalidTokenError(input.to_owned()));
        }
        if c0 == ':' && check_ident_chars(input, 1) {
            let rest = input.substring_char(1, len);
            return Ok(Token { kind: TokenKind::IDENTREF, value: rest.to_owned(), line: line_no });
        }
    }
    if check_alpha_chars(input) {
        return Ok(Token { kind: TokenKind::PROCNAME, value: input.to_owned(), line: line_no });
    }
    Err(LexerError::InvalidTokenError(input.to_owned()))
}

} // verus!
