use logolang::tokens::{check_numeric_literal, to_token, Token, TokenKind};

fn kind_of(word: &str) -> TokenKind {
    to_token(word, 0).expect("token should classify").kind
}

fn value_of(word: &str) -> String {
    to_token(word, 0).expect("token should classify").value
}

#[test]
fn keywords_classify() {
    assert_eq!(kind_of("MAKE"), TokenKind::MAKEOP);
    assert_eq!(kind_of("+"), TokenKind::ARITHOP);
    assert_eq!(kind_of("-"), TokenKind::ARITHOP);
    assert_eq!(kind_of("*"), TokenKind::ARITHOP);
    assert_eq!(kind_of("/"), TokenKind::ARITHOP);
    assert_eq!(kind_of("EQ"), TokenKind::COMPOP);
    assert_eq!(kind_of("NE"), TokenKind::COMPOP);
    assert_eq!(kind_of("GT"), TokenKind::COMPOP);
    assert_eq!(kind_of("LT"), TokenKind::COMPOP);
    assert_eq!(kind_of("AND"), TokenKind::BOOLOP);
    assert_eq!(kind_of("OR"), TokenKind::BOOLOP);
    assert_eq!(kind_of("ADDASSIGN"), TokenKind::ADDASSIGN);
    assert_eq!(kind_of("FORWARD"), TokenKind::DIRECTION);
    assert_eq!(kind_of("BACK"), TokenKind::DIRECTION);
    assert_eq!(kind_of("LEFT"), TokenKind::DIRECTION);
    assert_eq!(kind_of("RIGHT"), TokenKind::DIRECTION);
    assert_eq!(kind_of("PENUP"), TokenKind::PENSTATUS);
    assert_eq!(kind_of("PENDOWN"), TokenKind::PENSTATUS);
    assert_eq!(kind_of("SETPENCOLOR"), TokenKind::PENCOLOR);
    assert_eq!(kind_of("SETX"), TokenKind::PENPOS);
    assert_eq!(kind_of("SETY"), TokenKind::PENPOS);
    assert_eq!(kind_of("TURN"), TokenKind::PENPOS);
    assert_eq!(kind_of("SETHEADING"), TokenKind::PENPOS);
    assert_eq!(kind_of("XCOR"), TokenKind::QUERY);
    assert_eq!(kind_of("YCOR"), TokenKind::QUERY);
    assert_eq!(kind_of("HEADING"), TokenKind::QUERY);
    assert_eq!(kind_of("COLOR"), TokenKind::QUERY);
    assert_eq!(kind_of("IF"), TokenKind::IFSTMNT);
    assert_eq!(kind_of("WHILE"), TokenKind::WHILESTMNT);
    assert_eq!(kind_of("["), TokenKind::LPAREN);
    assert_eq!(kind_of("]"), TokenKind::RPAREN);
    assert_eq!(kind_of("TO"), TokenKind::PROCSTART);
    assert_eq!(kind_of("END"), TokenKind::PROCEND);
}

#[test]
fn numbers_and_idents_strip_their_prefix() {
    assert_eq!(kind_of("\"3.5"), TokenKind::NUM);
    assert_eq!(value_of("\"3.5"), "3.5");
    assert_eq!(kind_of("\"x"), TokenKind::IDENT);
    assert_eq!(value_of("\"x"), "x");
    assert_eq!(kind_of(":count"), TokenKind::IDENTREF);
    assert_eq!(value_of(":count"), "count");
    assert_eq!(kind_of("square"), TokenKind::PROCNAME);
    assert_eq!(value_of("square"), "square");
}

#[test]
fn negative_and_exponent_numbers_classify() {
    assert_eq!(kind_of("\"-3"), TokenKind::NUM);
    assert_eq!(kind_of("\"+2.5"), TokenKind::NUM);
    assert_eq!(kind_of("\"1e5"), TokenKind::NUM);
    assert_eq!(kind_of("\"1.5E-3"), TokenKind::NUM);
    assert_eq!(kind_of("\".5"), TokenKind::NUM);
    assert_eq!(kind_of("\"5."), TokenKind::NUM);
}

#[test]
fn invalid_words_are_rejected() {
    assert!(to_token("\"2.5.3", 0).is_err());
    assert!(to_token("!!", 3).is_err());
    assert!(to_token(":a-b", 0).is_err());
}

#[test]
fn token_line_is_kept() {
    let t: Token = to_token("MAKE", 41).unwrap();
    assert_eq!(t.line, 41);
}

#[test]
fn numeric_literal_grammar() {
    assert!(check_numeric_literal("0"));
    assert!(check_numeric_literal("12.75"));
    assert!(check_numeric_literal("-0.5"));
    assert!(check_numeric_literal("+3"));
    assert!(check_numeric_literal(".5"));
    assert!(check_numeric_literal("5."));
    assert!(check_numeric_literal("2e10"));
    assert!(check_numeric_literal("2.5e-3"));
    assert!(!check_numeric_literal(""));
    assert!(!check_numeric_literal("."));
    assert!(!check_numeric_literal("+"));
    assert!(!check_numeric_literal("1e"));
    assert!(!check_numeric_literal("1.2.3"));
    assert!(!check_numeric_literal("abc"));
    assert!(!check_numeric_literal("1a"));
    assert!(check_numeric_literal("inf"));
    assert!(check_numeric_literal("INFINITY"));
    assert!(check_numeric_literal("-Inf"));
    assert!(check_numeric_literal("+nAn"));
    assert!(!check_numeric_literal("infinit"));
    assert!(!check_numeric_literal("n-an"));
}

#[test]
fn word_forms_of_floats_are_numbers() {
    // The word forms of `f32` parsing are numeric literals: any letter
    // case, with an optional sign.
    assert_eq!(kind_of("\"inf"), TokenKind::NUM);
    assert_eq!(kind_of("\"Infinity"), TokenKind::NUM);
    assert_eq!(kind_of("\"NAN"), TokenKind::NUM);
    assert_eq!(kind_of("\"-iNf"), TokenKind::NUM);
    assert_eq!(kind_of("\"+nan"), TokenKind::NUM);
    // Near misses stay identifiers.
    assert_eq!(kind_of("\"infin"), TokenKind::IDENT);
    assert_eq!(kind_of("\"inf3"), TokenKind::IDENT);
}

#[test]
fn lone_quote_is_an_empty_identifier() {
    let t = to_token("\"", 0).unwrap();
    assert_eq!(t.kind, TokenKind::IDENT);
    assert_eq!(t.value, "");
}
