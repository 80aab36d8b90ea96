use logolang::ast::AstNode;
use logolang::errors::InterpreterError;
use logolang::interp::{Canvas, Interpreter, StepResult};
use logolang::parser::Parser;
use logolang::tokens::{to_token, Token};
use logolang::value::Value;

/// A canvas that records every call and answers with a simple convention:
/// heading 0 means increasing y, and each answer is `(x, y + length)` for
/// direction 0, `(x + length, y)` for 90, and so on in right angles.
struct SpyCanvas {
    draws: usize,
    fail_draws: bool,
}

impl SpyCanvas {
    fn new() -> Self {
        SpyCanvas { draws: 0, fail_draws: false }
    }

    fn endpoint(x: i32, y: i32, direction: i32, length: i32) -> (i32, i32) {
        match direction.rem_euclid(360) {
            0 => (x, y + length),
            90 => (x + length, y),
            180 => (x, y - length),
            270 => (x - length, y),
            _ => (x, y),
        }
    }
}

impl Canvas for SpyCanvas {
    fn draw_line(
        &mut self,
        x: i32,
        y: i32,
        direction: i32,
        length: i32,
        _color: u8,
    ) -> Result<(i32, i32), String> {
        self.draws += 1;
        if self.fail_draws {
            return Err(String::from("out of ink"));
        }
        Ok(Self::endpoint(x, y, direction, length))
    }

    fn project(&self, x: i32, y: i32, direction: i32, length: i32) -> (i32, i32) {
        // A `&self` method cannot count itself; the pen-down counter is
        // what the gating test observes.
        Self::endpoint(x, y, direction, length)
    }
}

fn lex(src: &str) -> Vec<Token> {
    let mut out = Vec::new();
    for (line_no, line) in src.lines().enumerate() {
        if line.trim_start().starts_with("//") {
            continue;
        }
        for word in line.split_whitespace() {
            out.push(to_token(word, line_no as i32 + 1).expect("test program must tokenize"));
        }
    }
    out
}

fn parse(src: &str) -> Vec<AstNode> {
    Parser::new().parse(lex(src)).expect("test program must parse")
}

fn run_ok(src: &str) -> Interpreter {
    let mut itp = Interpreter::new(0, 0);
    let mut canvas = SpyCanvas::new();
    let r = itp.run(parse(src), &mut canvas, 1_000_000);
    assert_eq!(r.expect("program must run"), StepResult::Done);
    itp
}

fn run_err(src: &str) -> InterpreterError {
    let mut itp = Interpreter::new(0, 0);
    let mut canvas = SpyCanvas::new();
    itp.run(parse(src), &mut canvas, 1_000_000).expect_err("program must fail")
}

fn float_var(itp: &Interpreter, name: &str) -> f32 {
    match itp.get_variable(name) {
        Some(Value::Float(bits)) => f32::from_bits(bits),
        other => panic!("expected {} to hold a number, got {:?}", name, other),
    }
}

#[test]
fn make_binds_the_sum() {
    let itp = run_ok("MAKE \"x + \"2 \"3");
    assert_eq!(itp.get_variable("x"), Some(Value::Float(5.0f32.to_bits())));
}

#[test]
fn arithmetic_matches_hardware_floats() {
    let itp = run_ok("MAKE \"a / \"1 \"3\nMAKE \"b * \"1.5 \"2.5\nMAKE \"c - \"1 \"0.1");
    assert_eq!(float_var(&itp, "a"), 1.0f32 / 3.0f32);
    assert_eq!(float_var(&itp, "b"), 1.5f32 * 2.5f32);
    assert_eq!(float_var(&itp, "c"), 1.0f32 - 0.1f32);
}

#[test]
fn add_assign_adds_in_place() {
    let itp = run_ok("MAKE \"x \"5\nADDASSIGN \"x \"3");
    assert_eq!(itp.get_variable("x"), Some(Value::Float(8.0f32.to_bits())));
}

#[test]
fn add_assign_unbound_name_fails() {
    let e = run_err("ADDASSIGN \"nope \"3");
    assert!(matches!(e, InterpreterError::InvalidVariableRef(..)), "got {:?}", e);
    assert!(e.message().contains("nope"));
}

#[test]
fn forward_moves_the_turtle_pen_up() {
    let mut itp = Interpreter::new(0, 0);
    let mut canvas = SpyCanvas::new();
    let r = itp.run(parse("FORWARD \"10"), &mut canvas, 1_000);
    assert_eq!(r.unwrap(), StepResult::Done);
    let (x, y) = itp.position();
    assert_eq!((f32::from_bits(x), f32::from_bits(y)), (0.0, 10.0));
    assert_eq!(canvas.draws, 0);
}

#[test]
fn forward_moves_the_turtle_pen_down() {
    let mut itp = Interpreter::new(0, 0);
    let mut canvas = SpyCanvas::new();
    let r = itp.run(parse("PENDOWN\nFORWARD \"10"), &mut canvas, 1_000);
    assert_eq!(r.unwrap(), StepResult::Done);
    let (x, y) = itp.position();
    assert_eq!((f32::from_bits(x), f32::from_bits(y)), (0.0, 10.0));
    assert_eq!(canvas.draws, 1);
}

#[test]
fn only_pen_down_draws() {
    let mut itp = Interpreter::new(0, 0);
    let mut canvas = SpyCanvas::new();
    let src = "FORWARD \"1\nPENDOWN\nFORWARD \"2\nFORWARD \"3\nPENUP\nFORWARD \"4";
    let r = itp.run(parse(src), &mut canvas, 10_000);
    assert_eq!(r.unwrap(), StepResult::Done);
    assert_eq!(canvas.draws, 2);
}

#[test]
fn directions_turn_relative_to_heading() {
    let itp = run_ok("RIGHT \"10\nMAKE \"x XCOR\nMAKE \"y YCOR");
    assert_eq!(float_var(&itp, "x"), 10.0);
    assert_eq!(float_var(&itp, "y"), 0.0);
}

#[test]
fn draw_failure_is_wrapped() {
    let mut itp = Interpreter::new(0, 0);
    let mut canvas = SpyCanvas::new();
    canvas.fail_draws = true;
    let e = itp
        .run(parse("PENDOWN\nFORWARD \"10"), &mut canvas, 1_000)
        .expect_err("the canvas refuses");
    match &e {
        InterpreterError::DrawLineError(what, reason) => {
            assert!(what.contains("Failed to draw line for direction FORWARD"), "got {}", what);
            assert_eq!(reason, "out of ink");
        }
        other => panic!("expected DrawLineError, got {:?}", other),
    }
}

#[test]
fn pen_color_rejects_out_of_range_and_fractions() {
    let e = run_err("SETPENCOLOR \"16");
    assert!(matches!(e, InterpreterError::InvalidPenColor(..)), "got {:?}", e);
    assert!(e.message().contains("is not a valid color"), "got {}", e.message());
    let e = run_err("SETPENCOLOR \"2.5");
    assert!(matches!(e, InterpreterError::InvalidPenColor(..)), "got {:?}", e);
    let e = run_err("SETPENCOLOR \"-1");
    assert!(matches!(e, InterpreterError::InvalidPenColor(..)), "got {:?}", e);
}

#[test]
fn pen_color_accepts_exact_codes() {
    let itp = run_ok("SETPENCOLOR \"7\nMAKE \"c COLOR");
    assert_eq!(itp.color_code(), 7);
    assert_eq!(itp.get_variable("c"), Some(Value::Float(7.0f32.to_bits())));
}

#[test]
fn eq_between_number_and_word_bindings_fails_at_run_time() {
    // The parser accepted both shape-ambiguous references; the evaluator
    // discovers the tag mismatch.
    let e = run_err("MAKE \"x \"5\nMAKE \"y \"hello\nMAKE \"r EQ :x :y");
    assert!(matches!(e, InterpreterError::InterpError(..)), "got {:?}", e);
    assert!(e.message().contains("do not have matching types"), "got {}", e.message());
}

#[test]
fn eq_same_tags_compares_values() {
    let itp = run_ok("MAKE \"a \"2\nMAKE \"b \"2\nMAKE \"r EQ :a :b\nMAKE \"s NE :a :b");
    assert_eq!(itp.get_variable("r"), Some(Value::Bool(true)));
    assert_eq!(itp.get_variable("s"), Some(Value::Bool(false)));
}

#[test]
fn words_compare_lexicographically() {
    let itp = run_ok("MAKE \"a \"abc\nMAKE \"b \"abd\nMAKE \"r LT :a :b\nMAKE \"s GT :a :b");
    assert_eq!(itp.get_variable("r"), Some(Value::Bool(true)));
    assert_eq!(itp.get_variable("s"), Some(Value::Bool(false)));
}

#[test]
fn infinite_and_nan_values_behave_as_floats() {
    let itp = run_ok(
        "MAKE \"x \"inf\nMAKE \"y + \"inf \"1\nMAKE \"r EQ \"nan \"nan\nMAKE \"s EQ \"0 \"-0\nMAKE \"t LT \"-inf \"1",
    );
    assert_eq!(float_var(&itp, "x"), f32::INFINITY);
    assert_eq!(float_var(&itp, "y"), f32::INFINITY);
    // A NaN equals nothing, the two zeroes equal each other.
    assert_eq!(itp.get_variable("r"), Some(Value::Bool(false)));
    assert_eq!(itp.get_variable("s"), Some(Value::Bool(true)));
    assert_eq!(itp.get_variable("t"), Some(Value::Bool(true)));
}

#[test]
fn boolean_operators_combine() {
    let itp = run_ok("MAKE \"r AND EQ \"1 \"1 EQ \"2 \"2\nMAKE \"s OR EQ \"1 \"2 EQ \"3 \"3");
    assert_eq!(itp.get_variable("r"), Some(Value::Bool(true)));
    assert_eq!(itp.get_variable("s"), Some(Value::Bool(true)));
}

#[test]
fn procedure_writes_into_the_global_namespace() {
    // The call leaves the outer `n` doubled: there is no scope isolation.
    let itp = run_ok("TO DOUBLE \"n MAKE \"n + :n :n END\nMAKE \"n \"5\nDOUBLE :n");
    assert_eq!(itp.get_variable("n"), Some(Value::Float(10.0f32.to_bits())));
}

#[test]
fn calling_an_undefined_procedure_fails_at_run_time() {
    // The definition sits in a branch that never runs, so the parser knows
    // the name but the body table stays empty at call time.
    let e = run_err("IF EQ \"1 \"2 [\nTO P\nPENUP\nEND\n]\nP");
    assert!(matches!(e, InterpreterError::InvalidProcedureRef(..)), "got {:?}", e);
}

#[test]
fn while_false_runs_zero_times() {
    let itp = run_ok("WHILE EQ \"1 \"2 [\nMAKE \"x \"1\n]");
    assert_eq!(itp.get_variable("x"), None);
}

#[test]
fn while_counts_to_five() {
    let itp = run_ok("MAKE \"i \"0\nWHILE LT :i \"5 [\nADDASSIGN \"i \"1\n]");
    assert_eq!(itp.get_variable("i"), Some(Value::Float(5.0f32.to_bits())));
}

#[test]
fn while_that_never_falsifies_keeps_running() {
    let mut itp = Interpreter::new(0, 0);
    let mut canvas = SpyCanvas::new();
    let src = "MAKE \"i \"0\nWHILE EQ \"1 \"1 [\nADDASSIGN \"i \"1\n]";
    let r = itp.run(parse(src), &mut canvas, 10_000);
    assert_eq!(r.unwrap(), StepResult::Running);
    assert!(!itp.done());
    assert!(float_var(&itp, "i") > 0.0);
    // Granting more steps still does not finish it.
    let r = itp.resume(&mut canvas, 10_000);
    assert_eq!(r.unwrap(), StepResult::Running);
}

#[test]
fn if_true_runs_body_once() {
    let itp = run_ok("MAKE \"x \"0\nIF EQ \"1 \"1 [\nADDASSIGN \"x \"1\n]\nIF EQ \"1 \"2 [\nADDASSIGN \"x \"1\n]");
    assert_eq!(itp.get_variable("x"), Some(Value::Float(1.0f32.to_bits())));
}

#[test]
fn set_position_and_queries() {
    let itp = run_ok("SETX \"3.5\nSETY \"-2\nSETHEADING \"90\nTURN \"30\nMAKE \"x XCOR\nMAKE \"y YCOR\nMAKE \"h HEADING");
    assert_eq!(float_var(&itp, "x"), 3.5);
    assert_eq!(float_var(&itp, "y"), -2.0);
    assert_eq!(float_var(&itp, "h"), 120.0);
}

#[test]
fn bare_word_statement_is_a_no_op() {
    let itp = run_ok("\"hello");
    assert_eq!(itp.get_variable("hello"), None);
}

#[test]
fn reading_an_unbound_reference_fails() {
    let e = run_err("MAKE \"x + :ghost \"1");
    // The unbound reference surfaces through the arithmetic context chain.
    assert!(matches!(e, InterpreterError::InterpError(..)), "got {:?}", e);
    assert!(e.message().contains("ghost"), "got {}", e.message());
}

#[test]
fn numeric_context_rejects_word_bindings() {
    let e = run_err("MAKE \"w \"word\nFORWARD :w");
    assert!(e.message().contains("not a float"), "got {}", e.message());
}

#[test]
fn turtle_starts_at_the_canvas_centre() {
    let itp = Interpreter::new(101, 50);
    let (x, y) = itp.position();
    assert_eq!(f32::from_bits(x), 101f32 / 2.0);
    assert_eq!(f32::from_bits(y), 25.0);
    assert_eq!(itp.color_code(), 7);
    assert!(!itp.pen_down());
}

#[test]
fn machine_can_be_driven_one_step_at_a_time() {
    let mut itp = Interpreter::new(0, 0);
    let mut canvas = SpyCanvas::new();
    itp.load(parse("MAKE \"x \"1\nMAKE \"y \"2"));
    assert!(!itp.done());
    let mut steps = 0usize;
    loop {
        match itp.step(&mut canvas) {
            Ok(StepResult::Done) => break,
            Ok(StepResult::Running) => steps += 1,
            Err(e) => panic!("unexpected failure: {:?}", e),
        }
        assert!(steps < 100, "the program should end quickly");
    }
    // Two statements and the closing of the program block.
    assert_eq!(steps, 3);
    assert!(itp.done());
    assert_eq!(itp.get_variable("y"), Some(Value::Float(2.0f32.to_bits())));
}

#[test]
fn a_budget_of_zero_steps_does_nothing() {
    let mut itp = Interpreter::new(0, 0);
    let mut canvas = SpyCanvas::new();
    let r = itp.run(parse("MAKE \"x \"1"), &mut canvas, 0);
    assert_eq!(r.unwrap(), StepResult::Running);
    assert_eq!(itp.get_variable("x"), None);
}

#[test]
fn if_body_failures_carry_the_enclosing_context() {
    let e = run_err("IF EQ \"1 \"1 [\nADDASSIGN \"ghost \"1\n]");
    let text = e.message();
    assert!(matches!(e, InterpreterError::InterpError(..)), "got {:?}", e);
    assert!(text.contains("Invalid IF statement condition."), "got {}", text);
    assert!(text.contains("ghost"), "got {}", text);
}

#[test]
fn while_body_failures_carry_the_enclosing_context() {
    let e = run_err("WHILE EQ \"1 \"1 [\nADDASSIGN \"ghost \"1\n]");
    let text = e.message();
    assert!(
        text.contains("Invalid expression in the body of the WHILE statement."),
        "got {}",
        text
    );
    assert!(text.contains("ghost"), "got {}", text);
}

#[test]
fn procedure_body_failures_name_the_procedure() {
    let e = run_err("TO P\nADDASSIGN \"ghost \"1\nEND\nP");
    let text = e.message();
    assert!(
        text.contains("Failed to evaluate body of procedure P."),
        "got {}",
        text
    );
    assert!(text.contains("ghost"), "got {}", text);
}

#[test]
fn argument_binding_failures_name_the_procedure() {
    let e = run_err("TO Q \"a\nPENUP\nEND\nQ + :ghost \"1");
    let text = e.message();
    assert!(
        text.contains("Failed to bind provided arguments to Q's parameters."),
        "got {}",
        text
    );
    assert!(text.contains("ghost"), "got {}", text);
}
