use logolang::ast::{ArithOp, AstNode, CompOp, Direction, NodeType, PenPos, QueryKind};
use logolang::errors::ParserError;
use logolang::parser::Parser;
use logolang::tokens::{to_token, Token};

fn lex(src: &str) -> Vec<Token> {
    let mut out = Vec::new();
    for (line_no, line) in src.lines().enumerate() {
        if line.trim_start().starts_with("//") {
            continue;
        }
        for word in line.split_whitespace() {
            out.push(to_token(word, line_no as i32 + 1).expect("test program must tokenize"));
        }
    }
    out
}

fn parse_ok(src: &str) -> Vec<AstNode> {
    Parser::new().parse(lex(src)).expect("test program must parse")
}

fn parse_err(src: &str) -> ParserError {
    Parser::new().parse(lex(src)).expect_err("test program must be rejected")
}

#[test]
fn make_with_arithmetic_parses() {
    let ast = parse_ok("MAKE \"x + \"2 \"3");
    assert_eq!(ast.len(), 1);
    match &ast[0] {
        AstNode::MakeStmnt { var, expr, line } => {
            assert_eq!(var, "x");
            assert_eq!(*line, 1);
            match &**expr {
                AstNode::ArithExpr { operator, left, right, .. } => {
                    assert_eq!(*operator, ArithOp::ADD);
                    assert!(matches!(**left, AstNode::Num(_)));
                    assert!(matches!(**right, AstNode::Num(_)));
                }
                other => panic!("expected arithmetic expression, got {:?}", other),
            }
        }
        other => panic!("expected MAKE, got {:?}", other),
    }
}

#[test]
fn addassign_means_add_keyword() {
    // ADD is spelled `+` by the lexer; ADDASSIGN is its own statement.
    let ast = parse_ok("MAKE \"x \"1\nADDASSIGN \"x \"2");
    assert_eq!(ast.len(), 2);
    assert!(matches!(ast[1], AstNode::AddAssign { .. }));
}

#[test]
fn num_value_is_single_precision() {
    let ast = parse_ok("MAKE \"x \"2.5");
    match &ast[0] {
        AstNode::MakeStmnt { expr, .. } => match &**expr {
            AstNode::Num(bits) => assert_eq!(*bits, 2.5f32.to_bits()),
            other => panic!("expected number, got {:?}", other),
        },
        other => panic!("expected MAKE, got {:?}", other),
    }
}

#[test]
fn word_form_literals_parse_to_their_encodings() {
    let ast = parse_ok("MAKE \"a \"inf\nMAKE \"b \"-Infinity\nMAKE \"c \"nan\nMAKE \"d \"-NAN");
    let bits: Vec<u32> = ast
        .iter()
        .map(|n| match n {
            AstNode::MakeStmnt { expr, .. } => match &**expr {
                AstNode::Num(bits) => *bits,
                other => panic!("expected number, got {:?}", other),
            },
            other => panic!("expected MAKE, got {:?}", other),
        })
        .collect();
    assert_eq!(bits[0], "inf".parse::<f32>().unwrap().to_bits());
    assert_eq!(bits[1], "-Infinity".parse::<f32>().unwrap().to_bits());
    let c = f32::from_bits(bits[2]);
    assert!(c.is_nan() && !c.is_sign_negative());
    assert_eq!(bits[2], "nan".parse::<f32>().unwrap().to_bits());
    let d = f32::from_bits(bits[3]);
    assert!(d.is_nan() && d.is_sign_negative());
}

#[test]
fn shapes_follow_the_node_kind() {
    let ast = parse_ok("MAKE \"x EQ \"1 \"2");
    match &ast[0] {
        AstNode::MakeStmnt { expr, .. } => {
            assert!(expr.is_boolean());
            assert!(!expr.is_numeric());
            assert!(!expr.is_word());
        }
        other => panic!("expected MAKE, got {:?}", other),
    }
}

#[test]
fn make_requires_an_identifier() {
    let e = parse_err("MAKE \"5 \"3");
    assert!(matches!(e, ParserError::IncorrectArgType(..)), "got {:?}", e);
}

#[test]
fn arithmetic_rejects_word_operands() {
    let e = parse_err("MAKE \"x + \"w \"3");
    // The shape failure surfaces wrapped in the MAKE context line.
    assert!(matches!(e, ParserError::ParseError(..)), "got {:?}", e);
}

#[test]
fn top_level_arith_shape_failure_is_non_numeric() {
    let e = parse_err("+ \"w \"3");
    assert!(matches!(e, ParserError::NonNumericExpr(..)), "got {:?}", e);
}

#[test]
fn comparison_accepts_ambiguous_references() {
    // Two identifier references agree with every shape at parse time.
    let ast = parse_ok("MAKE \"r EQ :a :b");
    match &ast[0] {
        AstNode::MakeStmnt { expr, .. } => match &**expr {
            AstNode::CompExpr { operator, .. } => assert_eq!(*operator, CompOp::EQ),
            other => panic!("expected comparison, got {:?}", other),
        },
        other => panic!("expected MAKE, got {:?}", other),
    }
}

#[test]
fn comparison_rejects_disagreeing_shapes() {
    let e = parse_err("EQ \"1 \"w");
    assert!(matches!(e, ParserError::NonBooleanExpr(..)), "got {:?}", e);
}

#[test]
fn if_requires_boolean_condition() {
    let e = parse_err("IF \"5 [\nPENUP\n]");
    assert!(matches!(e, ParserError::NonBooleanExpr(..)), "got {:?}", e);
}

#[test]
fn if_requires_open_bracket() {
    let e = parse_err("IF EQ \"1 \"1 PENUP ]");
    assert!(matches!(e, ParserError::MissingParenthesis(..)), "got {:?}", e);
}

#[test]
fn while_missing_close_bracket_is_reported() {
    let e = parse_err("WHILE EQ \"1 \"1 [\nPENUP");
    assert!(matches!(e, ParserError::MissingParenthesis(..)), "got {:?}", e);
}

#[test]
fn while_parses_into_condition_and_body() {
    let ast = parse_ok("WHILE EQ \"1 \"2 [\nPENUP\nPENDOWN\n]");
    match &ast[0] {
        AstNode::WhileStmnt { condition, body, .. } => {
            assert!(matches!(**condition, AstNode::CompExpr { .. }));
            assert_eq!(body.len(), 2);
        }
        other => panic!("expected WHILE, got {:?}", other),
    }
}

#[test]
fn addassign_requires_identifier_target() {
    let e = parse_err("ADDASSIGN \"5 \"3");
    assert!(matches!(e, ParserError::InvalidAddAssign(..)), "got {:?}", e);
}

#[test]
fn pen_color_and_position_parse() {
    let ast = parse_ok("SETPENCOLOR \"7\nSETX \"5\nSETY \"6\nTURN \"90\nSETHEADING \"180");
    assert!(matches!(ast[0], AstNode::PenColorUpdate { .. }));
    assert!(matches!(
        ast[1],
        AstNode::PenPosUpdate { update_type: PenPos::SETX, .. }
    ));
    assert!(matches!(
        ast[2],
        AstNode::PenPosUpdate { update_type: PenPos::SETY, .. }
    ));
    assert!(matches!(
        ast[3],
        AstNode::PenPosUpdate { update_type: PenPos::TURN, .. }
    ));
    assert!(matches!(
        ast[4],
        AstNode::PenPosUpdate { update_type: PenPos::SETHEADING, .. }
    ));
}

#[test]
fn queries_parse_by_their_word() {
    let ast = parse_ok("MAKE \"a XCOR\nMAKE \"b YCOR\nMAKE \"c HEADING\nMAKE \"d COLOR");
    let kinds: Vec<QueryKind> = ast
        .iter()
        .map(|n| match n {
            AstNode::MakeStmnt { expr, .. } => match &**expr {
                AstNode::Query(q) => *q,
                other => panic!("expected query, got {:?}", other),
            },
            other => panic!("expected MAKE, got {:?}", other),
        })
        .collect();
    assert_eq!(
        kinds,
        vec![QueryKind::XCOR, QueryKind::YCOR, QueryKind::HEADING, QueryKind::COLOR]
    );
}

#[test]
fn extra_arguments_are_rejected() {
    let e = parse_err("PENUP \"5");
    // The extra-argument report is wrapped in the statement's context.
    assert!(matches!(e, ParserError::ParseError(..)), "got {:?}", e);
    let text = e.message();
    assert!(text.contains("Extra arguments"), "got {}", text);
    assert!(text.contains("\"5\""), "got {}", text);
}

#[test]
fn forward_requires_numeric_distance() {
    let e = parse_err("FORWARD EQ \"1 \"1");
    assert!(matches!(e, ParserError::NonNumericExpr(..)), "got {:?}", e);
}

#[test]
fn directions_parse() {
    let ast = parse_ok("FORWARD \"1\nBACK \"2\nLEFT \"3\nRIGHT \"4");
    let dirs: Vec<Direction> = ast
        .iter()
        .map(|n| match n {
            AstNode::DrawInstruction { direction, .. } => *direction,
            other => panic!("expected move, got {:?}", other),
        })
        .collect();
    assert_eq!(
        dirs,
        vec![Direction::FORWARD, Direction::BACK, Direction::LEFT, Direction::RIGHT]
    );
}

#[test]
fn procedure_definition_collects_parameters_and_body() {
    let ast = parse_ok("TO DOUBLE \"n MAKE \"n + :n :n END");
    match &ast[0] {
        AstNode::Procedure { name, body } => {
            assert_eq!(name, "DOUBLE");
            assert_eq!(body.len(), 1);
        }
        other => panic!("expected procedure, got {:?}", other),
    }
}

#[test]
fn procedure_call_binds_arguments_positionally() {
    let ast = parse_ok("TO PAIR \"a \"b\nPENUP\nEND\nPAIR \"1 \"2");
    match &ast[1] {
        AstNode::ProcedureRef { name_ref, args, .. } => {
            assert_eq!(name_ref, "PAIR");
            assert_eq!(args.len(), 2);
            match &args[0] {
                AstNode::MakeStmnt { var, .. } => assert_eq!(var, "a"),
                other => panic!("expected binding, got {:?}", other),
            }
            match &args[1] {
                AstNode::MakeStmnt { var, .. } => assert_eq!(var, "b"),
                other => panic!("expected binding, got {:?}", other),
            }
        }
        other => panic!("expected call, got {:?}", other),
    }
}

#[test]
fn calling_an_unknown_procedure_is_rejected() {
    let e = parse_err("SPIN \"5");
    assert!(matches!(e, ParserError::InvalidProcReference(..)), "got {:?}", e);
}

#[test]
fn procedure_without_end_is_rejected() {
    let e = parse_err("TO LOOP \"n PENUP");
    assert!(matches!(e, ParserError::MissingProcEnd(..)), "got {:?}", e);
}

#[test]
fn stray_bracket_is_an_invalid_token() {
    let e = parse_err("] PENUP");
    assert!(matches!(e, ParserError::InvalidToken(..)), "got {:?}", e);
}

#[test]
fn bare_identifier_is_a_word_literal() {
    let ast = parse_ok("\"hello");
    assert!(matches!(&ast[0], AstNode::Word(w) if w == "hello"));
}

#[test]
fn unexpected_end_of_input() {
    let e = parse_err("MAKE");
    assert!(matches!(e, ParserError::UnexpectedEnding), "got {:?}", e);
}

#[test]
fn error_lines_are_one_of_the_source() {
    let e = parse_err("PENUP\nMAKE \"5 \"3");
    match e {
        ParserError::IncorrectArgType(line, _) => assert_eq!(line, "2"),
        other => panic!("expected IncorrectArgType, got {:?}", other),
    }
}
