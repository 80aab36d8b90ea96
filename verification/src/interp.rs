//! The evaluator: a small-step machine over the statement tree.
//!
//! Expressions are evaluated by structural recursion, with a spec twin for
//! every executable function.  Statements run one at a time from an
//! explicit stack of open statement blocks, so that a `WHILE` whose
//! condition never falsifies simply keeps yielding steps; the caller
//! decides how many steps to spend.  Drawing goes through the [`Canvas`]
//! the caller supplies.

use vstd::prelude::*;
use std::rc::Rc;
use crate::ast::{ArithOp, AstNode, BoolOp, CompOp, Direction, PenPos, QueryKind, node_is_boolean, node_is_numeric, node_is_word, NodeType};
use crate::errors::{IErrV, InterpreterError, ierr_view, wrap_interp_error, wrap_interp_msg};
use crate::single::{add_bits, color_bits, color_code_of, decimal_of, div_bits, f_add, f_display, f_div, f_from_int, f_trunc_i32, find_color_code, int_bits_of, mul_bits, sub_bits, trunc_i32_of, color_code_bits};
use crate::strutil::{int_digits, int_to_string};
use crate::table::Table;
use crate::value::{Value, sv_eq, sv_gt, sv_lt, sv_same_tag, value_eq, value_gt, value_lt, value_same_tag};

verus! {

/// What the turtle draws on.  The real canvas is an image library in the
/// application; tests supply observers.  Nothing is assumed about either:
/// the machine's contracts say only that the returned coordinates become
/// the turtle's position.
pub trait Canvas {
    /// Draw a line from `(x, y)` towards `direction` (degrees, clockwise
    /// from up) of length `length` in the color with the given code,
    /// returning the end point, or a reason the line cannot be drawn.
    fn draw_line(&mut self, x: i32, y: i32, direction: i32, length: i32, color: u8) -> (r: Result<
        (i32, i32),
        String,
    >);

    /// Where the same line would end, without drawing it.
    fn project(&self, x: i32, y: i32, direction: i32, length: i32) -> (r: (i32, i32));
}

/// One open statement block: a shared body, the index of the next
/// statement to run in it, and the context line of the enclosing construct
/// with which a failure inside is wrapped on the way out.
pub enum Frame {
    Block { body: Rc<Vec<AstNode>>, next: usize, ctx: Option<String> },
    /// A procedure call whose argument bindings have run and whose body is
    /// looked up when this frame surfaces.
    Call { name: String, line: i32 },
}

/// Spec-level image of a frame.
pub enum FrameV {
    Block { body: Seq<AstNode>, next: int, ctx: Option<Seq<char>> },
    Call { name: Seq<char>, line: int },
}

/// The view of a frame.
pub open spec fn frame_view(f: Frame) -> FrameV {
    match f {
        Frame::Block { body, next, ctx } => FrameV::Block {
            body: body@,
            next: next as int,
            ctx: match ctx {
                Some(c) => Some(c@),
                None => None,
            },
        },
        Frame::Call { name, line } => FrameV::Call { name: name@, line: line as int },
    }
}

/// The view of a frame stack, element by element.
pub open spec fn frames_view(s: Seq<Frame>) -> Seq<FrameV>
    decreases s,
{
    if s.len() == 0 {
        Seq::empty()
    } else {
        frames_view(s.drop_last()).push(frame_view(s.last()))
    }
}

/// `frames_view` maps the stack element by element.
pub proof fn lemma_frames_view(s: Seq<Frame>)
    ensures
        frames_view(s).len() == s.len(),
        forall|i: int| 0 <= i < s.len() ==> frames_view(s)[i] == frame_view(#[trigger] s[i]),
    decreases s,
{
    if s.len() > 0 {
        lemma_frames_view(s.drop_last());
        assert forall|i: int| 0 <= i < s.len() implies frames_view(s)[i] == frame_view(
            #[trigger] s[i],
        ) by {
            if i < s.len() - 1 {
                assert(s.drop_last()[i] == s[i]);
            }
        }
    }
}

/// The whole machine, as the contracts see it: the flat variable
/// environment, the procedure bodies, the turtle, the pen, and the stack
/// of open blocks.
pub struct MachineV {
    pub env: Map<Seq<char>, Value>,
    pub procs: Map<Seq<char>, Rc<Vec<AstNode>>>,
    pub x: u32,
    pub y: u32,
    pub heading: u32,
    pub color: u8,
    pub pen: bool,
    pub stack: Seq<FrameV>,
}

/// Machine well-formedness: the pen color is one of the sixteen codes and
/// every open block's cursor is inside its body.
pub open spec fn mwf(m: MachineV) -> bool {
    &&& m.color < 16
    &&& forall|i: int|
        0 <= i < m.stack.len() ==> match #[trigger] m.stack[i] {
            FrameV::Block { body, next, .. } => 0 <= next <= body.len(),
            FrameV::Call { .. } => true,
        }
}

// The texts of operators and values inside error messages.
pub open spec fn arith_text(op: ArithOp) -> Seq<char> {
    match op {
        ArithOp::ADD => "+"@,
        ArithOp::SUB => "-"@,
        ArithOp::MUL => "*"@,
        ArithOp::DIV => "/"@,
    }
}

pub open spec fn comp_text(op: CompOp) -> Seq<char> {
    match op {
        CompOp::EQ => "EQ"@,
        CompOp::NE => "NE"@,
        CompOp::LT => "LT"@,
        CompOp::GT => "GT"@,
    }
}

pub open spec fn boolop_text(op: BoolOp) -> Seq<char> {
    match op {
        BoolOp::AND => "AND"@,
        BoolOp::OR => "OR"@,
    }
}

pub open spec fn dir_text(d: Direction) -> Seq<char> {
    match d {
        Direction::FORWARD => "FORWARD"@,
        Direction::BACK => "BACK"@,
        Direction::RIGHT => "RIGHT"@,
        Direction::LEFT => "LEFT"@,
    }
}

pub open spec fn penpos_text(p: PenPos) -> Seq<char> {
    match p {
        PenPos::SETX => "SETX"@,
        PenPos::SETY => "SETY"@,
        PenPos::SETHEADING => "SETHEADING"@,
        PenPos::TURN => "TURN"@,
    }
}

pub open spec fn bool_value_text(b: bool) -> Seq<char> {
    if b {
        "true"@
    } else {
        "false"@
    }
}

// The context lines and messages of the evaluator's failure reports.
pub open spec fn ictx_arg_to_op(line: int, which_second: bool, op: Seq<char>) -> Seq<char> {
    "[Line "@ + int_digits(line) + "]: Failed to evaluate "@ + (if which_second {
        "second"@
    } else {
        "first"@
    }) + " argument to operator '"@ + op
}

pub open spec fn ictx_passed_to(line: int, op: Seq<char>) -> Seq<char> {
    "[Line "@ + int_digits(line) + "]: Failed to evaluate expression passed to "@ + op
}

pub open spec fn ictx_arg_to(line: int, which_second: bool, op: Seq<char>) -> Seq<char> {
    "[Line "@ + int_digits(line) + "]: Failed to evaluate "@ + (if which_second {
        "second"@
    } else {
        "first"@
    }) + " argument to "@ + op
}

pub open spec fn imsg_not_float(line: int, var: Seq<char>, v: Value) -> Seq<char> {
    match v {
        Value::Bool(b) => "[Line "@ + int_digits(line) + "]: variable '"@ + var
            + "' is assigned to the boolean value "@ + bool_value_text(b) + ", not a float."@,
        Value::Word(w) => "[Line "@ + int_digits(line) + "]: variable '"@ + var
            + "' is assigned to the String value "@ + w@ + ", not a float."@,
        Value::Float(_) => Seq::empty(),
    }
}

pub open spec fn imsg_not_bool(line: int, var: Seq<char>, v: Value) -> Seq<char> {
    match v {
        Value::Float(b) => "[Line "@ + int_digits(line) + "]: variable '"@ + var
            + "' is assigned to the float value "@ + decimal_of(b) + ", not a bool."@,
        Value::Word(w) => "[Line "@ + int_digits(line) + "]: variable '"@ + var
            + "' is assigned to the String value "@ + w@ + ", not a bool."@,
        Value::Bool(_) => Seq::empty(),
    }
}

pub open spec fn imsg_not_numeric(line: int) -> Seq<char> {
    "[Line "@ + int_digits(line) + "]: expression does not evaluate to a number."@
}

pub open spec fn imsg_not_logic(line: int) -> Seq<char> {
    "[Line "@ + int_digits(line) + "]: expression does not evaluate to a truth value."@
}

pub open spec fn imsg_statement_arg(op: Seq<char>) -> Seq<char> {
    "First argument to "@ + op + " is a statement, and cannot be passed as an argument to "@ + op
}

pub open spec fn imsg_lt_gt_args(line: int) -> Seq<char> {
    "[Line "@ + int_digits(line) + "]: Arguments to LT operator must evaluate to numbers.\n"@
}

pub open spec fn imsg_mismatch(line: int, op: Seq<char>) -> Seq<char> {
    "[Line "@ + int_digits(line) + "]: Arguments to "@ + op + " do not have matching types"@
}

/// The current value of a state query.
pub open spec fn qval(m: MachineV, q: QueryKind) -> u32 {
    match q {
        QueryKind::XCOR => m.x,
        QueryKind::YCOR => m.y,
        QueryKind::HEADING => m.heading,
        QueryKind::COLOR => color_bits(m.color as int),
    }
}

/// Combines two numbers under an arithmetic operator.
pub open spec fn sp_arith_apply(op: ArithOp, a: u32, b: u32) -> u32 {
    match op {
        ArithOp::ADD => add_bits(a, b),
        ArithOp::SUB => sub_bits(a, b),
        ArithOp::MUL => mul_bits(a, b),
        ArithOp::DIV => div_bits(a, b),
    }
}

/// Compares two evaluated operands: their tags must agree, then the
/// operator's order applies.
pub open spec fn sp_comp_apply(op: CompOp, lv: Value, rv: Value, line: int) -> Result<
    bool,
    IErrV,
> {
    if !sv_same_tag(lv, rv) {
        Err(IErrV::TypeError(imsg_mismatch(line, comp_text(op))))
    } else {
        match op {
            CompOp::EQ => Ok(sv_eq(lv, rv)),
            CompOp::NE => Ok(!sv_eq(lv, rv)),
            CompOp::LT => Ok(sv_lt(lv, rv)),
            CompOp::GT => Ok(sv_gt(lv, rv)),
        }
    }
}

/// The value bound to `var`, or the failure naming it.
pub open spec fn sp_ident(m: MachineV, var: Seq<char>) -> Result<Value, IErrV> {
    if m.env.contains_key(var) {
        Ok(m.env[var])
    } else {
        Err(IErrV::InvalidVariableRef(var))
    }
}

/// Numeric evaluation: literals, arithmetic, queries, and identifier
/// references bound to numbers.
pub open spec fn sp_eval_num(m: MachineV, e: AstNode, line: int) -> Result<u32, IErrV>
    decreases e, 0int,
{
    match e {
        AstNode::Num(b) => Ok(b),
        AstNode::Query(q) => Ok(qval(m, q)),
        AstNode::IdentRef(var) => match sp_ident(m, var@) {
            Err(ev) => Err(ev),
            Ok(v) => match v {
                Value::Float(b) => Ok(b),
                _ => Err(IErrV::TypeError(imsg_not_float(line, var@, v))),
            },
        },
        AstNode::ArithExpr { operator, left, right, line: l2 } => {
            let line2 = l2 as int;
            let inner = {
                match sp_eval_num(m, *left, line2) {
                    Err(ev) => Err(
                        wrap_interp_msg(
                            ictx_arg_to_op(line2, false, arith_text(operator)),
                            ev,
                        ),
                    ),
                    Ok(a) => match sp_eval_num(m, *right, line2) {
                        Err(ev) => Err(
                            wrap_interp_msg(
                                ictx_arg_to_op(line2, true, arith_text(operator)),
                                ev,
                            ),
                        ),
                        Ok(b) => Ok(sp_arith_apply(operator, a, b)),
                    },
                }
            };
            match inner {
                Err(ev) => Err(
                    wrap_interp_msg(ictx_passed_to(line2, arith_text(operator)), ev),
                ),
                Ok(v) => Ok(v),
            }
        },
        _ => Err(IErrV::TypeError(imsg_not_numeric(line))),
    }
}

/// One operand of a comparison, evaluated by its own shape; failures carry
/// the side and operator.  A word-shaped operand always reports itself as
/// the first argument.
pub open spec fn sp_operand(
    m: MachineV,
    e: AstNode,
    line: int,
    op: Seq<char>,
    second: bool,
) -> Result<Value, IErrV>
    decreases e, 1int,
{
    if node_is_word(e) {
        match e {
            AstNode::Word(w) => Ok(Value::Word(w)),
            AstNode::IdentRef(var) => match sp_ident(m, var@) {
                Err(ev) => Err(wrap_interp_msg(ictx_arg_to(line, false, op), ev)),
                Ok(v) => Ok(v),
            },
            _ => Err(IErrV::TypeError(imsg_statement_arg(op))),
        }
    } else if node_is_numeric(e) {
        match sp_eval_num(m, e, line) {
            Err(ev) => Err(wrap_interp_msg(ictx_arg_to(line, second, op), ev)),
            Ok(b) => Ok(Value::Float(b)),
        }
    } else if node_is_boolean(e) {
        match sp_eval_logic(m, e, line) {
            Err(ev) => Err(wrap_interp_msg(ictx_arg_to(line, second, op), ev)),
            Ok(b) => Ok(Value::Bool(b)),
        }
    } else {
        Err(IErrV::TypeError(imsg_statement_arg(op)))
    }
}

/// Logic evaluation: comparisons, boolean expressions, and identifier
/// references bound to truth values.
pub open spec fn sp_eval_logic(m: MachineV, e: AstNode, line: int) -> Result<bool, IErrV>
    decreases e, 0int,
{
    match e {
        AstNode::IdentRef(var) => match sp_ident(m, var@) {
            Err(ev) => Err(
                wrap_interp_msg("Error evaluating numeric expression"@, ev),
            ),
            Ok(v) => match v {
                Value::Bool(b) => Ok(b),
                _ => Err(IErrV::TypeError(imsg_not_bool(line, var@, v))),
            },
        },
        AstNode::CompExpr { operator, left, right, line: l2 } => {
            let line2 = l2 as int;
            let inner = {
                if (operator == CompOp::LT || operator == CompOp::GT) && (!node_is_numeric(*left)
                    || !node_is_numeric(*right)) {
                    Err(IErrV::TypeError(imsg_lt_gt_args(line2)))
                } else {
                    match sp_operand(m, *left, line2, comp_text(operator), false) {
                        Err(ev) => Err(ev),
                        Ok(lv) => match sp_operand(m, *right, line2, comp_text(operator), true) {
                            Err(ev) => Err(ev),
                            Ok(rv) => sp_comp_apply(operator, lv, rv, line2),
                        },
                    }
                }
            };
            match inner {
                Err(ev) => Err(
                    wrap_interp_msg(ictx_passed_to(line2, comp_text(operator)), ev),
                ),
                Ok(v) => Ok(v),
            }
        },
        AstNode::BoolExpr { operator, left, right, line: l2 } => {
            let line2 = l2 as int;
            let inner = {
                match sp_eval_logic(m, *left, line2) {
                    Err(ev) => Err(
                        wrap_interp_msg(ictx_arg_to(line2, false, boolop_text(operator)), ev),
                    ),
                    Ok(a) => match sp_eval_logic(m, *right, line2) {
                        Err(ev) => Err(
                            wrap_interp_msg(
                                ictx_arg_to(line2, true, boolop_text(operator)),
                                ev,
                            ),
                        ),
                        Ok(b) => match operator {
                            BoolOp::AND => Ok(a && b),
                            BoolOp::OR => Ok(a || b),
                        },
                    },
                }
            };
            match inner {
                Err(ev) => Err(
                    wrap_interp_msg(ictx_passed_to(line2, boolop_text(operator)), ev),
                ),
                Ok(v) => Ok(v),
            }
        },
        _ => Err(IErrV::TypeError(imsg_not_logic(line))),
    }
}

/// A standalone arithmetic expression, as an expression statement
/// evaluates it: each operand numeric, no outer context.
pub open spec fn sp_arith(
    m: MachineV,
    op: ArithOp,
    l: AstNode,
    r: AstNode,
    line: int,
) -> Result<u32, IErrV> {
    match sp_eval_num(m, l, line) {
        Err(ev) => Err(wrap_interp_msg(ictx_arg_to_op(line, false, arith_text(op)), ev)),
        Ok(a) => match sp_eval_num(m, r, line) {
            Err(ev) => Err(wrap_interp_msg(ictx_arg_to_op(line, true, arith_text(op)), ev)),
            Ok(b) => Ok(sp_arith_apply(op, a, b)),
        },
    }
}

/// A standalone comparison, as an expression statement evaluates it.
pub open spec fn sp_comp(m: MachineV, op: CompOp, l: AstNode, r: AstNode, line: int) -> Result<
    bool,
    IErrV,
> {
    if (op == CompOp::LT || op == CompOp::GT) && (!node_is_numeric(l) || !node_is_numeric(r)) {
        Err(IErrV::TypeError(imsg_lt_gt_args(line)))
    } else {
        match sp_operand(m, l, line, comp_text(op), false) {
            Err(ev) => Err(ev),
            Ok(lv) => match sp_operand(m, r, line, comp_text(op), true) {
                Err(ev) => Err(ev),
                Ok(rv) => sp_comp_apply(op, lv, rv, line),
            },
        }
    }
}

/// A standalone boolean expression, as an expression statement evaluates
/// it.
pub open spec fn sp_bool(m: MachineV, op: BoolOp, l: AstNode, r: AstNode, line: int) -> Result<
    bool,
    IErrV,
> {
    match sp_eval_logic(m, l, line) {
        Err(ev) => Err(wrap_interp_msg(ictx_arg_to(line, false, boolop_text(op)), ev)),
        Ok(a) => match sp_eval_logic(m, r, line) {
            Err(ev) => Err(wrap_interp_msg(ictx_arg_to(line, true, boolop_text(op)), ev)),
            Ok(b) => match op {
                BoolOp::AND => Ok(a && b),
                BoolOp::OR => Ok(a || b),
            },
        },
    }
}


// Executable builders for the operator texts and failure messages.
fn arith_text_s(op: ArithOp) -> (r: &'static str)
    ensures
        r@ == arith_text(op),
{
    match op {
        ArithOp::ADD => "+",
        ArithOp::SUB => "-",
        ArithOp::MUL => "*",
        ArithOp::DIV => "/",
    }
}

fn comp_text_s(op: CompOp) -> (r: &'static str)
    ensures
        r@ == comp_text(op),
{
    match op {
        CompOp::EQ => "EQ",
        CompOp::NE => "NE",
        CompOp::LT => "LT",
        CompOp::GT => "GT",
    }
}

fn boolop_text_s(op: BoolOp) -> (r: &'static str)
    ensures
        r@ == boolop_text(op),
{
    match op {
        BoolOp::AND => "AND",
        BoolOp::OR => "OR",
    }
}

fn dir_text_s(d: Direction) -> (r: &'static str)
    ensures
        r@ == dir_text(d),
{
    match d {
        Direction::FORWARD => "FORWARD",
        Direction::BACK => "BACK",
        Direction::RIGHT => "RIGHT",
        Direction::LEFT => "LEFT",
    }
}

fn penpos_text_s(p: PenPos) -> (r: &'static str)
    ensures
        r@ == penpos_text(p),
{
    match p {
        PenPos::SETX => "SETX",
        PenPos::SETY => "SETY",
        PenPos::SETHEADING => "SETHEADING",
        PenPos::TURN => "TURN",
    }
}

fn ictx_arg_to_op_s(line: i32, second: bool, op: &str) -> (r: String)
    ensures
        r@ == ictx_arg_to_op(line as int, second, op@),
{
    let mut s = "[Line ".to_owned();
    s.append(int_to_string(line).as_str());
    s.append("]: Failed to evaluate ");
    if second {
        s.append("second");
    } else {
        s.append("first");
    }
    s.append(" argument to operator '");
    s.append(op);
    s
}

fn ictx_passed_to_s(line: i32, op: &str) -> (r: String)
    ensures
        r@ == ictx_passed_to(line as int, op@),
{
    let mut s = "[Line ".to_owned();
    s.append(int_to_string(line).as_str());
    s.append("]: Failed to evaluate expression passed to ");
    s.append(op);
    s
}

fn ictx_arg_to_s(line: i32, second: bool, op: &str) -> (r: String)
    ensures
        r@ == ictx_arg_to(line as int, second, op@),
{
    let mut s = "[Line ".to_owned();
    s.append(int_to_string(line).as_str());
    s.append("]: Failed to evaluate ");
    if second {
        s.append("second");
    } else {
        s.append("first");
    }
    s.append(" argument to ");
    s.append(op);
    s
}

fn imsg_not_float_s(line: i32, var: &str, v: &Value) -> (r: String)
    ensures
        r@ == imsg_not_float(line as int, var@, *v),
{
    match v {
        Value::Bool(b) => {
            let mut s = "[Line ".to_owned();
            s.append(int_to_string(line).as_str());
            s.append("]: variable '");
            s.append(var);
            s.append("' is assigned to the boolean value ");
            if *b {
                s.append("true");
            } else {
                s.append("false");
            }
            s.append(", not a float.");
            s
        },
        Value::Word(w) => {
            let mut s = "[Line ".to_owned();
            s.append(int_to_string(line).as_str());
            s.append("]: variable '");
            s.append(var);
            s.append("' is assigned to the String value ");
            s.append(w.as_str());
            s.append(", not a float.");
            s
        },
        Value::Float(_) => String::new(),
    }
}

fn imsg_not_bool_s(line: i32, var: &str, v: &Value) -> (r: String)
    ensures
        r@ == imsg_not_bool(line as int, var@, *v),
{
    match v {
        Value::Float(b) => {
            let mut s = "[Line ".to_owned();
            s.append(int_to_string(line).as_str());
            s.append("]: variable '");
            s.append(var);
            s.append("' is assigned to the float value ");
            s.append(f_display(*b).as_str());
            s.append(", not a bool.");
            s
        },
        Value::Word(w) => {
            let mut s = "[Line ".to_owned();
            s.append(int_to_string(line).as_str());
            s.append("]: variable '");
            s.append(var);
            s.append("' is assigned to the String value ");
            s.append(w.as_str());
            s.append(", not a bool.");
            s
        },
        Value::Bool(_) => String::new(),
    }
}

fn imsg_not_numeric_s(line: i32) -> (r: String)
    ensures
        r@ == imsg_not_numeric(line as int),
{
    let mut s = "[Line ".to_owned();
    s.append(int_to_string(line).as_str());
    s.append("]: expression does not evaluate to a number.");
    s
}

fn imsg_not_logic_s(line: i32) -> (r: String)
    ensures
        r@ == imsg_not_logic(line as int),
{
    let mut s = "[Line ".to_owned();
    s.append(int_to_string(line).as_str());
    s.append("]: expression does not evaluate to a truth value.");
    s
}

fn imsg_statement_arg_s(op: &str) -> (r: String)
    ensures
        r@ == imsg_statement_arg(op@),
{
    let mut s = "First argument to ".to_owned();
    s.append(op);
    s.append(" is a statement, and cannot be passed as an argument to ");
    s.append(op);
    s
}

fn imsg_lt_gt_args_s(line: i32) -> (r: String)
    ensures
        r@ == imsg_lt_gt_args(line as int),
{
    let mut s = "[Line ".to_owned();
    s.append(int_to_string(line).as_str());
    s.append("]: Arguments to LT operator must evaluate to numbers.\n");
    s
}

fn imsg_mismatch_s(line: i32, op: &str) -> (r: String)
    ensures
        r@ == imsg_mismatch(line as int, op@),
{
    let mut s = "[Line ".to_owned();
    s.append(int_to_string(line).as_str());
    s.append("]: Arguments to ");
    s.append(op);
    s.append(" do not have matching types");
    s
}

/// The tree-walking evaluator: the variable environment, the procedure
/// table, the turtle, and the stack of open statement blocks.
pub struct Interpreter {
    environment: Table<Value>,
    func_environment: Table<Rc<Vec<AstNode>>>,
    x: u32,
    y: u32,
    heading: u32,
    current_color: u8,
    currently_drawing: bool,
    stack: Vec<Frame>,
}

impl View for Interpreter {
    type V = MachineV;

    closed spec fn view(&self) -> MachineV {
        MachineV {
            env: self.environment@,
            procs: self.func_environment@,
            x: self.x,
            y: self.y,
            heading: self.heading,
            color: self.current_color,
            pen: self.currently_drawing,
            stack: frames_view(self.stack@),
        }
    }
}

impl Interpreter {
    /// Machine well-formedness, kept by every operation.
    pub open spec fn wf(&self) -> bool {
        mwf(self@)
    }

    /// A fresh interpreter for a canvas of the given pixel size: the
    /// turtle rests at the centre, heading up, pen up, color code 7.
    pub fn new(width: u32, height: u32) -> (r: Self)
        ensures
            r.wf(),
            r@.env == Map::<Seq<char>, Value>::empty(),
            r@.procs == Map::<Seq<char>, Rc<Vec<AstNode>>>::empty(),
            r@.x == div_bits(int_bits_of(width as i64), int_bits_of(2)),
            r@.y == div_bits(int_bits_of(height as i64), int_bits_of(2)),
            r@.heading == 0,
            r@.color == 7,
            !r@.pen,
            r@.stack === Seq::empty(),
    {
        let x = f_div(f_from_int(width as i64), f_from_int(2));
        let y = f_div(f_from_int(height as i64), f_from_int(2));
        let r = Interpreter {
            environment: Table::new(),
            func_environment: Table::new(),
            x,
            y,
            heading: 0,
            current_color: 7,
            currently_drawing: false,
            stack: Vec::new(),
        };
        proof {
            assert(r.stack@.len() == 0);
        }
        r
    }

    /// The value bound to an identifier.
    fn eval_ident_ref(&self, var: &String) -> (r: Result<&Value, InterpreterError>)
        ensures
            match r {
                Ok(v) => sp_ident(self@, var@) == Ok::<Value, IErrV>(*v),
                Err(e) => sp_ident(self@, var@) == Err::<Value, IErrV>(ierr_view(e)),
            },
    {
        match self.environment.get(var.as_str()) {
            Some(v) => Ok(v),
            None => Err(InterpreterError::InvalidVariableRef(var.clone())),
        }
    }

    /// A copy of the value bound to an identifier.
    fn eval_ident_ref_as_val(&self, var: &String) -> (r: Result<Value, InterpreterError>)
        ensures
            match r {
                Ok(v) => sp_ident(self@, var@) == Ok::<Value, IErrV>(v),
                Err(e) => sp_ident(self@, var@) == Err::<Value, IErrV>(ierr_view(e)),
            },
    {
        match self.eval_ident_ref(var) {
            Ok(v) => Ok(v.clone()),
            Err(e) => Err(e),
        }
    }

    /// The current value of a state query.
    fn query(&self, kind: &QueryKind) -> (r: u32)
        requires
            self.wf(),
        ensures
            r == qval(self@, *kind),
    {
        match kind {
            QueryKind::XCOR => self.x,
            QueryKind::YCOR => self.y,
            QueryKind::HEADING => self.heading,
            QueryKind::COLOR => color_code_bits(self.current_color),
        }
    }

    /// Evaluates a numeric expression to the bits of its value.
    fn eval_numeric_expression(&self, node: &AstNode, line: i32) -> (r: Result<
        u32,
        InterpreterError,
    >)
        requires
            self.wf(),
        ensures
            match r {
                Ok(b) => sp_eval_num(self@, *node, line as int) == Ok::<u32, IErrV>(b),
                Err(e) => sp_eval_num(self@, *node, line as int) == Err::<u32, IErrV>(
                    ierr_view(e),
                ),
            },
        decreases node, 0int,
    {
        match node {
            AstNode::Num(b) => Ok(*b),
            AstNode::Query(q) => Ok(self.query(q)),
            AstNode::IdentRef(var) => match self.eval_ident_ref(var) {
                Err(e) => Err(e),
                Ok(v) => match v {
                    Value::Float(b) => Ok(*b),
                    _ => Err(
                        InterpreterError::TypeError(imsg_not_float_s(line, var.as_str(), v)),
                    ),
                },
            },
            AstNode::ArithExpr { operator, left, right, line: l2 } => {
                let inner: Result<u32, InterpreterError> = {
                    match self.eval_numeric_expression(left, *l2) {
                        Err(e) => Err(
                            wrap_interp_error(
                                ictx_arg_to_op_s(*l2, false, arith_text_s(*operator)),
                                e,
                            ),
                        ),
                        Ok(a) => match self.eval_numeric_expression(right, *l2) {
                            Err(e) => Err(
                                wrap_interp_error(
                                    ictx_arg_to_op_s(*l2, true, arith_text_s(*operator)),
                                    e,
                                ),
                            ),
                            Ok(b) => match operator {
                                ArithOp::ADD => Ok(f_add(a, b)),
                                ArithOp::SUB => Ok(crate::single::f_sub(a, b)),
                                ArithOp::MUL => Ok(crate::single::f_mul(a, b)),
                                ArithOp::DIV => Ok(f_div(a, b)),
                            },
                        },
                    }
                };
                match inner {
                    Err(e) => Err(
                        wrap_interp_error(ictx_passed_to_s(*l2, arith_text_s(*operator)), e),
                    ),
                    Ok(v) => Ok(v),
                }
            },
            _ => Err(InterpreterError::TypeError(imsg_not_numeric_s(line))),
        }
    }

    /// Evaluates the two operands of an arithmetic expression and combines
    /// them.
    fn arith_expr(&self, operator: &ArithOp, left: &AstNode, right: &AstNode, line: i32) -> (r:
        Result<u32, InterpreterError>)
        requires
            self.wf(),
        ensures
            match r {
                Ok(b) => sp_arith(self@, *operator, *left, *right, line as int) == Ok::<
                    u32,
                    IErrV,
                >(b),
                Err(e) => sp_arith(self@, *operator, *left, *right, line as int) == Err::<
                    u32,
                    IErrV,
                >(ierr_view(e)),
            },
    {
        let a = match self.eval_numeric_expression(left, line) {
            Err(e) => {
                return Err(
                    wrap_interp_error(
                        ictx_arg_to_op_s(line, false, arith_text_s(*operator)),
                        e,
                    ),
                );
            },
            Ok(v) => v,
        };
        let b = match self.eval_numeric_expression(right, line) {
            Err(e) => {
                return Err(
                    wrap_interp_error(ictx_arg_to_op_s(line, true, arith_text_s(*operator)), e),
                );
            },
            Ok(v) => v,
        };
        match operator {
            ArithOp::ADD => Ok(f_add(a, b)),
            ArithOp::SUB => Ok(crate::single::f_sub(a, b)),
            ArithOp::MUL => Ok(crate::single::f_mul(a, b)),
            ArithOp::DIV => Ok(f_div(a, b)),
        }
    }

    /// Evaluates one operand of a comparison by its shape.
    fn eval_operand(&self, node: &AstNode, line: i32, op: &str, second: bool) -> (r: Result<
        Value,
        InterpreterError,
    >)
        requires
            self.wf(),
        ensures
            match r {
                Ok(v) => sp_operand(self@, *node, line as int, op@, second) == Ok::<
                    Value,
                    IErrV,
                >(v),
                Err(e) => sp_operand(self@, *node, line as int, op@, second) == Err::<
                    Value,
                    IErrV,
                >(ierr_view(e)),
            },
        decreases node, 1int,
    {
        if node.is_word() {
            match node {
                AstNode::Word(w) => Ok(Value::Word(w.clone())),
                AstNode::IdentRef(var) => match self.eval_ident_ref_as_val(var) {
                    Err(e) => Err(wrap_interp_error(ictx_arg_to_s(line, false, op), e)),
                    Ok(v) => Ok(v),
                },
                _ => Err(InterpreterError::TypeError(imsg_statement_arg_s(op))),
            }
        } else if node.is_numeric() {
            match self.eval_numeric_expression(node, line) {
                Err(e) => Err(wrap_interp_error(ictx_arg_to_s(line, second, op), e)),
                Ok(b) => Ok(Value::Float(b)),
            }
        } else if node.is_boolean() {
            match self.eval_logic_expression(node, line) {
                Err(e) => Err(wrap_interp_error(ictx_arg_to_s(line, second, op), e)),
                Ok(b) => Ok(Value::Bool(b)),
            }
        } else {
            Err(InterpreterError::TypeError(imsg_statement_arg_s(op)))
        }
    }

    /// Evaluates a logic expression to its truth value.
    fn eval_logic_expression(&self, node: &AstNode, line: i32) -> (r: Result<
        bool,
        InterpreterError,
    >)
        requires
            self.wf(),
        ensures
            match r {
                Ok(b) => sp_eval_logic(self@, *node, line as int) == Ok::<bool, IErrV>(b),
                Err(e) => sp_eval_logic(self@, *node, line as int) == Err::<bool, IErrV>(
                    ierr_view(e),
                ),
            },
        decreases node, 0int,
    {
        match node {
            AstNode::IdentRef(var) => match self.eval_ident_ref(var) {
                Err(e) => Err(
                    wrap_interp_error("Error evaluating numeric expression".to_owned(), e),
                ),
                Ok(v) => match v {
                    Value::Bool(b) => Ok(*b),
                    _ => Err(
                        InterpreterError::TypeError(imsg_not_bool_s(line, var.as_str(), v)),
                    ),
                },
            },
            AstNode::CompExpr { operator, left, right, line: l2 } => {
                let is_order = match operator {
                    CompOp::LT => true,
                    CompOp::GT => true,
                    _ => false,
                };
                let inner: Result<bool, InterpreterError> = {
                    if is_order && (!left.is_numeric() || !right.is_numeric()) {
                        Err(InterpreterError::TypeError(imsg_lt_gt_args_s(*l2)))
                    } else {
                        match self.eval_operand(left, *l2, comp_text_s(*operator), false) {
                            Err(e) => Err(e),
                            Ok(lv) => match self.eval_operand(
                                right,
                                *l2,
                                comp_text_s(*operator),
                                true,
                            ) {
                                Err(e) => Err(e),
                                Ok(rv) => if !value_same_tag(&lv, &rv) {
                                    Err(
                                        InterpreterError::TypeError(
                                            imsg_mismatch_s(*l2, comp_text_s(*operator)),
                                        ),
                                    )
                                } else {
                                    match operator {
                                        CompOp::EQ => Ok(value_eq(&lv, &rv)),
                                        CompOp::NE => Ok(!value_eq(&lv, &rv)),
                                        CompOp::LT => Ok(value_lt(&lv, &rv)),
                                        CompOp::GT => Ok(value_gt(&lv, &rv)),
                                    }
                                },
                            },
                        }
                    }
                };
                match inner {
                    Err(e) => Err(
                        wrap_interp_error(ictx_passed_to_s(*l2, comp_text_s(*operator)), e),
                    ),
                    Ok(v) => Ok(v),
                }
            },
            AstNode::BoolExpr { operator, left, right, line: l2 } => {
                let inner: Result<bool, InterpreterError> = {
                    match self.eval_logic_expression(left, *l2) {
                        Err(e) => Err(
                            wrap_interp_error(
                                ictx_arg_to_s(*l2, false, boolop_text_s(*operator)),
                                e,
                            ),
                        ),
                        Ok(a) => match self.eval_logic_expression(right, *l2) {
                            Err(e) => Err(
                                wrap_interp_error(
                                    ictx_arg_to_s(*l2, true, boolop_text_s(*operator)),
                                    e,
                                ),
                            ),
                            Ok(b) => match operator {
                                BoolOp::AND => Ok(a && b),
                                BoolOp::OR => Ok(a || b),
                            },
                        },
                    }
                };
                match inner {
                    Err(e) => Err(
                        wrap_interp_error(ictx_passed_to_s(*l2, boolop_text_s(*operator)), e),
                    ),
                    Ok(v) => Ok(v),
                }
            },
            _ => Err(InterpreterError::TypeError(imsg_not_logic_s(line))),
        }
    }

    /// Evaluates the two operands of a comparison and compares them; this
    /// is also how a standalone comparison statement runs.
    fn comp_expr(&self, operator: &CompOp, left: &AstNode, right: &AstNode, line: i32) -> (r:
        Result<bool, InterpreterError>)
        requires
            self.wf(),
        ensures
            match r {
                Ok(b) => sp_comp(self@, *operator, *left, *right, line as int) == Ok::<
                    bool,
                    IErrV,
                >(b),
                Err(e) => sp_comp(self@, *operator, *left, *right, line as int) == Err::<
                    bool,
                    IErrV,
                >(ierr_view(e)),
            },
    {
        let is_order = match operator {
            CompOp::LT => true,
            CompOp::GT => true,
            _ => false,
        };
        if is_order {
            proof {
                crate::parser::lemma_shape_view(*left);
            }
            if !left.is_numeric() || !right.is_numeric() {
                return Err(InterpreterError::TypeError(imsg_lt_gt_args_s(line)));
            }
        }
        let lv = match self.eval_operand(left, line, comp_text_s(*operator), false) {
            Err(e) => {
                return Err(e);
            },
            Ok(v) => v,
        };
        let rv = match self.eval_operand(right, line, comp_text_s(*operator), true) {
            Err(e) => {
                return Err(e);
            },
            Ok(v) => v,
        };
        if !value_same_tag(&lv, &rv) {
            return Err(
                InterpreterError::TypeError(imsg_mismatch_s(line, comp_text_s(*operator))),
            );
        }
        match operator {
            CompOp::EQ => Ok(value_eq(&lv, &rv)),
            CompOp::NE => Ok(!value_eq(&lv, &rv)),
            CompOp::LT => Ok(value_lt(&lv, &rv)),
            CompOp::GT => Ok(value_gt(&lv, &rv)),
        }
    }

    /// Evaluates the two operands of a boolean expression and combines
    /// them; this is also how a standalone boolean statement runs.
    fn bool_expr(&self, operator: &BoolOp, left: &AstNode, right: &AstNode, line: i32) -> (r:
        Result<bool, InterpreterError>)
        requires
            self.wf(),
        ensures
            match r {
                Ok(b) => sp_bool(self@, *operator, *left, *right, line as int) == Ok::<
                    bool,
                    IErrV,
                >(b),
                Err(e) => sp_bool(self@, *operator, *left, *right, line as int) == Err::<
                    bool,
                    IErrV,
                >(ierr_view(e)),
            },
    {
        let a = match self.eval_logic_expression(left, line) {
            Err(e) => {
                return Err(
                    wrap_interp_error(ictx_arg_to_s(line, false, boolop_text_s(*operator)), e),
                );
            },
            Ok(v) => v,
        };
        let b = match self.eval_logic_expression(right, line) {
            Err(e) => {
                return Err(
                    wrap_interp_error(ictx_arg_to_s(line, true, boolop_text_s(*operator)), e),
                );
            },
            Ok(v) => v,
        };
        match operator {
            BoolOp::AND => Ok(a && b),
            BoolOp::OR => Ok(a || b),
        }
    }
}


// The failure texts of the statement level.
pub open spec fn ictx_make_arith(line: int, var: Seq<char>) -> Seq<char> {
    "[Line "@ + int_digits(line)
        + "]: interp Invalid MAKE statement: Failed to evaluate expression passed to "@ + var
}

pub open spec fn ictx_make_ident(line: int, var: Seq<char>) -> Seq<char> {
    "[Line "@ + int_digits(line)
        + "]: Invalid MAKE statement: Failed to evaluate expression passed to "@ + var
}

pub open spec fn ictx_make_expr(line: int, op: Seq<char>) -> Seq<char> {
    "[Line "@ + int_digits(line) + "]: Failed to evaluate expression provided to "@ + op
}

pub open spec fn imsg_make_stmt(line: int) -> Seq<char> {
    "[Line "@ + int_digits(line) + "]: MAKE was given a statement instead of a value."@
}

pub open spec fn ictx_add_assign(var: Seq<char>) -> Seq<char> {
    "Invalid ADDASSIGN: Failed to add number to '"@ + var + "'\n"@
}

pub open spec fn imsg_missing_var(var: Seq<char>) -> Seq<char> {
    "Variable "@ + var + " does not exist."@
}

pub open spec fn imsg_add_assign_target(var: Seq<char>) -> Seq<char> {
    "ADDASSIGN target '"@ + var + "' is not bound to a float."@
}

pub open spec fn ictx_draw_eval(line: int, d: Direction) -> Seq<char> {
    "[Line "@ + int_digits(line) + "]: Invalid ADDASSIGN: Failed to add number to '"@ + dir_text(
        d,
    ) + "'\n"@
}

pub open spec fn imsg_draw_fail(line: int, d: Direction) -> Seq<char> {
    "[Line "@ + int_digits(line) + "]: Failed to draw line for direction "@ + dir_text(d)
        + " due to UNSVG error:"@
}

pub open spec fn imsg_proc_missing(line: int, name: Seq<char>) -> Seq<char> {
    "[Line "@ + int_digits(line) + "]: Referenced Procedure "@ + name + " does not exist."@
}

pub open spec fn ictx_pencolor(line: int) -> Seq<char> {
    "[Line "@ + int_digits(line) + "]: Invalid argument to PENCOLOR.\n"@
}

pub open spec fn ictx_penpos(line: int, p: PenPos) -> Seq<char> {
    "[Line "@ + int_digits(line) + "]: Invalid argument to "@ + penpos_text(p) + ".\n"@
}

pub open spec fn ictx_if_cond(line: int) -> Seq<char> {
    "[Line "@ + int_digits(line) + "]: Invalid IF statement condition.\n"@
}

pub open spec fn ictx_while_cond(line: int) -> Seq<char> {
    "[Line "@ + int_digits(line) + "]: Invalid WHILE statement condition.\n"@
}

pub open spec fn ictx_while_body(line: int) -> Seq<char> {
    "[Line "@ + int_digits(line) + "]: Invalid expression in the body of the WHILE statement.\n"@
}

pub open spec fn ictx_proc_args(line: int, name: Seq<char>) -> Seq<char> {
    "[Line "@ + int_digits(line) + "]: Failed to bind provided arguments to "@ + name
        + "'s parameters.\n"@
}

pub open spec fn ictx_proc_body(line: int, name: Seq<char>) -> Seq<char> {
    "[Line "@ + int_digits(line) + "]: Failed to evaluate body of procedure "@ + name + ".\n"@
}

/// The fixed heading offset of each move direction.
pub open spec fn dir_offset(d: Direction) -> i32 {
    match d {
        Direction::FORWARD => 0i32,
        Direction::BACK => 180i32,
        Direction::LEFT => 270i32,
        Direction::RIGHT => 90i32,
    }
}

/// The absolute direction a move instruction asks the canvas for: the
/// heading truncated to a whole number of degrees, plus the direction's
/// fixed offset.
pub open spec fn draw_direction(m: MachineV, d: Direction) -> i32 {
    trunc_i32_of(m.heading).wrapping_add(dir_offset(d))
}

/// What passed between the machine and the canvas during one step: nothing
/// was asked; a line was drawn from the given request and ended at a
/// point; drawing was refused; or the line was only projected, pen up.
pub enum CanvasEvent {
    Pure,
    Drawn { x: i32, y: i32, direction: i32, length: i32, color: u8, end_x: i32, end_y: i32 },
    DrawFailed { x: i32, y: i32, direction: i32, length: i32, color: u8, reason: Seq<char> },
    Projected { x: i32, y: i32, direction: i32, length: i32, end_x: i32, end_y: i32 },
}

/// What one step yields: the next machine, a failure that stops the run,
/// or the news that the program already ended.
pub enum StepV {
    SNext(MachineV),
    SStop(IErrV),
    SDone,
}

/// The machine with its top block's cursor moved past the current
/// statement.
pub open spec fn advance_top_v(m: MachineV) -> MachineV {
    match m.stack.last() {
        FrameV::Block { body, next, ctx } => MachineV {
            stack: m.stack.update(
                m.stack.len() - 1,
                FrameV::Block { body, next: next + 1, ctx },
            ),
            ..m
        },
        FrameV::Call { .. } => m,
    }
}

/// The machine with its top frame removed.
pub open spec fn pop_top_v(m: MachineV) -> MachineV {
    MachineV { stack: m.stack.drop_last(), ..m }
}

/// The machine with a new open block pushed, starting at its first
/// statement, wrapped in the given failure context.
pub open spec fn push_block_v(m: MachineV, body: Seq<AstNode>, ctx: Option<Seq<char>>) -> MachineV {
    MachineV { stack: m.stack.push(FrameV::Block { body, next: 0, ctx }), ..m }
}

/// Which canvas exchanges fit the machine's next step.  Only a move
/// instruction whose distance evaluates speaks to the canvas, and then the
/// request is fixed: the turtle's truncated coordinates, the truncated
/// heading plus the direction's offset, the truncated distance, and — when
/// a line is drawn — the current color code.  With the pen down the line
/// is drawn or refused; with the pen up it is only projected, and the
/// canvas cannot refuse a projection.
pub open spec fn ev_ok(m: MachineV, ev: CanvasEvent) -> bool {
    if m.stack.len() == 0 {
        ev is Pure
    } else {
        match m.stack.last() {
            FrameV::Call { .. } => ev is Pure,
            FrameV::Block { body, next, .. } => if next >= body.len() {
                ev is Pure
            } else {
                match body[next] {
                    AstNode::DrawInstruction { direction, num_pixels, line } => match sp_eval_num(
                        m,
                        *num_pixels,
                        line as int,
                    ) {
                        Err(_) => ev is Pure,
                        Ok(d) => if m.pen {
                            ||| (ev matches CanvasEvent::Drawn {
                                x,
                                y,
                                direction: dd,
                                length,
                                color,
                                ..
                            } && x == trunc_i32_of(m.x) && y == trunc_i32_of(m.y) && dd
                                == draw_direction(m, direction) && length == trunc_i32_of(d)
                                && color == m.color)
                            ||| (ev matches CanvasEvent::DrawFailed {
                                x,
                                y,
                                direction: dd,
                                length,
                                color,
                                ..
                            } && x == trunc_i32_of(m.x) && y == trunc_i32_of(m.y) && dd
                                == draw_direction(m, direction) && length == trunc_i32_of(d)
                                && color == m.color)
                        } else {
                            ev matches CanvasEvent::Projected { x, y, direction: dd, length, .. }
                                && x == trunc_i32_of(m.x) && y == trunc_i32_of(m.y) && dd
                                == draw_direction(m, direction) && length == trunc_i32_of(d)
                        },
                    },
                    _ => ev is Pure,
                }
            },
        }
    }
}

/// Wrapping a failure with one frame's context, where the frame carries
/// one.
pub open spec fn apply_frame_ctx(f: FrameV, e: IErrV) -> IErrV {
    match f {
        FrameV::Block { ctx: Some(c), .. } => wrap_interp_msg(c, e),
        _ => e,
    }
}

/// A failure wrapped with the context line of every open construct it
/// escapes, innermost first.
pub open spec fn wrap_stack(stack: Seq<FrameV>, e: IErrV) -> IErrV
    decreases stack.len(),
{
    if stack.len() == 0 {
        e
    } else {
        wrap_stack(stack.drop_last(), apply_frame_ctx(stack.last(), e))
    }
}

/// No open frame carries a failure context: the state of a program running
/// at the top level, outside every IF, WHILE and procedure.
pub open spec fn ctx_free(stack: Seq<FrameV>) -> bool {
    forall|i: int|
        0 <= i < stack.len() ==> match #[trigger] stack[i] {
            FrameV::Block { ctx, .. } => ctx is None,
            FrameV::Call { .. } => true,
        }
}

/// Where no frame carries a context, wrapping changes nothing.
pub proof fn lemma_wrap_stack_ctx_free(stack: Seq<FrameV>, e: IErrV)
    requires
        ctx_free(stack),
    ensures
        wrap_stack(stack, e) == e,
    decreases stack.len(),
{
    if stack.len() > 0 {
        assert(stack.last() == stack[stack.len() - 1]);
        lemma_wrap_stack_ctx_free(stack.drop_last(), e);
    }
}

/// One step of the machine: how the next statement (or the closing of a
/// finished block, or the body lookup of a call) transforms the whole
/// state, given the canvas's answer `ev`.
pub open spec fn sp_step(m: MachineV, ev: CanvasEvent) -> StepV {
    if m.stack.len() == 0 {
        StepV::SDone
    } else {
        match m.stack.last() {
            FrameV::Call { name, line } => {
                let m1 = pop_top_v(m);
                if m.procs.contains_key(name) {
                    StepV::SNext(
                        push_block_v(m1, m.procs[name]@, Some(ictx_proc_body(line, name))),
                    )
                } else {
                    StepV::SStop(
                        wrap_stack(
                            m.stack,
                            IErrV::InvalidProcedureRef(imsg_proc_missing(line, name)),
                        ),
                    )
                }
            },
            FrameV::Block { body, next, .. } => if next >= body.len() {
                StepV::SNext(pop_top_v(m))
            } else {
                match sp_step_stmt(m, body[next], ev) {
                    StepV::SStop(e) => StepV::SStop(wrap_stack(m.stack, e)),
                    other => other,
                }
            },
        }
    }
}

/// How one statement at the top of the stack transforms the machine.
#[verifier::opaque]
pub open spec fn sp_step_stmt(m: MachineV, e: AstNode, ev: CanvasEvent) -> StepV {
    let madv = advance_top_v(m);
    match e {
        AstNode::MakeStmnt { var, expr, line } => match sp_make_stmt_value(
            m,
            var@,
            *expr,
            line as int,
        ) {
            Ok(v) => StepV::SNext(MachineV { env: m.env.insert(var@, v), ..madv }),
            Err(ev2) => StepV::SStop(ev2),
        },
        AstNode::AddAssign { var_name, expr, line } => match sp_eval_num(
            m,
            *expr,
            line as int,
        ) {
            Err(ev2) => StepV::SStop(wrap_interp_msg(ictx_add_assign(var_name@), ev2)),
            Ok(d) => if !m.env.contains_key(var_name@) {
                StepV::SStop(IErrV::InvalidVariableRef(imsg_missing_var(var_name@)))
            } else {
                match m.env[var_name@] {
                    Value::Float(b) => StepV::SNext(
                        MachineV {
                            env: m.env.insert(var_name@, Value::Float(add_bits(b, d))),
                            ..madv
                        },
                    ),
                    _ => StepV::SStop(IErrV::TypeError(imsg_add_assign_target(var_name@))),
                }
            },
        },
        AstNode::DrawInstruction { direction, num_pixels, line } => match sp_eval_num(
            m,
            *num_pixels,
            line as int,
        ) {
            Err(ev2) => StepV::SStop(
                wrap_interp_msg(ictx_draw_eval(line as int, direction), ev2),
            ),
            Ok(_d) => match ev {
                CanvasEvent::DrawFailed { reason, .. } => StepV::SStop(
                    IErrV::DrawLineError(imsg_draw_fail(line as int, direction), reason),
                ),
                CanvasEvent::Drawn { end_x, end_y, .. } => StepV::SNext(
                    MachineV {
                        x: int_bits_of(end_x as i64),
                        y: int_bits_of(end_y as i64),
                        ..madv
                    },
                ),
                CanvasEvent::Projected { end_x, end_y, .. } => StepV::SNext(
                    MachineV {
                        x: int_bits_of(end_x as i64),
                        y: int_bits_of(end_y as i64),
                        ..madv
                    },
                ),
                CanvasEvent::Pure => StepV::SNext(madv),
            },
        },
        AstNode::IfStmnt { condition, body, line } => match sp_eval_logic(
            m,
            *condition,
            line as int,
        ) {
            Err(ev2) => StepV::SStop(wrap_interp_msg(ictx_if_cond(line as int), ev2)),
            Ok(true) => StepV::SNext(
                push_block_v(madv, body@, Some(ictx_if_cond(line as int))),
            ),
            Ok(false) => StepV::SNext(madv),
        },
        AstNode::WhileStmnt { condition, body, line } => match sp_eval_logic(
            m,
            *condition,
            line as int,
        ) {
            Err(ev2) => StepV::SStop(wrap_interp_msg(ictx_while_cond(line as int), ev2)),
            Ok(true) => StepV::SNext(
                push_block_v(m, body@, Some(ictx_while_body(line as int))),
            ),
            Ok(false) => StepV::SNext(madv),
        },
        AstNode::PenStatusUpdate(b) => StepV::SNext(MachineV { pen: b, ..madv }),
        AstNode::PenColorUpdate { color, line } => match sp_eval_num(m, *color, line as int) {
            Err(ev2) => StepV::SStop(wrap_interp_msg(ictx_pencolor(line as int), ev2)),
            Ok(v) => match color_code_of(v) {
                Some(c) => StepV::SNext(MachineV { color: c, ..madv }),
                None => StepV::SStop(IErrV::InvalidPenColor(decimal_of(v))),
            },
        },
        AstNode::PenPosUpdate { update_type, value, line } => match sp_eval_num(
            m,
            *value,
            line as int,
        ) {
            Err(ev2) => StepV::SStop(
                wrap_interp_msg(ictx_penpos(line as int, update_type), ev2),
            ),
            Ok(v) => match update_type {
                PenPos::SETX => StepV::SNext(MachineV { x: v, ..madv }),
                PenPos::SETY => StepV::SNext(MachineV { y: v, ..madv }),
                PenPos::SETHEADING => StepV::SNext(MachineV { heading: v, ..madv }),
                PenPos::TURN => StepV::SNext(
                    MachineV { heading: add_bits(m.heading, v), ..madv },
                ),
            },
        },
        AstNode::Procedure { name, body } => StepV::SNext(
            MachineV { procs: m.procs.insert(name@, body), ..madv },
        ),
        AstNode::ProcedureRef { name_ref, args, line } => StepV::SNext(
            MachineV {
                stack: madv.stack.push(
                    FrameV::Call { name: name_ref@, line: line as int },
                ).push(
                    FrameV::Block {
                        body: args@,
                        next: 0,
                        ctx: Some(ictx_proc_args(line as int, name_ref@)),
                    },
                ),
                ..madv
            },
        ),
        AstNode::ArithExpr { operator, left, right, line } => match sp_arith(
            m,
            operator,
            *left,
            *right,
            line as int,
        ) {
            Ok(_) => StepV::SNext(madv),
            Err(ev2) => StepV::SStop(ev2),
        },
        AstNode::CompExpr { operator, left, right, line } => match sp_comp(
            m,
            operator,
            *left,
            *right,
            line as int,
        ) {
            Ok(_) => StepV::SNext(madv),
            Err(ev2) => StepV::SStop(ev2),
        },
        AstNode::BoolExpr { operator, left, right, line } => match sp_bool(
            m,
            operator,
            *left,
            *right,
            line as int,
        ) {
            Ok(_) => StepV::SNext(madv),
            Err(ev2) => StepV::SStop(ev2),
        },
        // Bare word literals, literals, identifier references and queries
        // appearing as statements are no-ops.
        AstNode::Word(_) => StepV::SNext(madv),
        AstNode::Query(_) => StepV::SNext(madv),
        AstNode::IdentRef(_) => StepV::SNext(madv),
        AstNode::Num(_) => StepV::SNext(madv),
        AstNode::Ident { .. } => StepV::SNext(madv),
    }
}

/// The value a MAKE statement binds to `var`.
pub open spec fn sp_make_stmt_value(m: MachineV, var: Seq<char>, e: AstNode, line: int) -> Result<
    Value,
    IErrV,
> {
    match e {
        AstNode::ArithExpr { operator, left, right, line: l2 } => match sp_arith(
            m,
            operator,
            *left,
            *right,
            l2 as int,
        ) {
            Ok(b) => Ok(Value::Float(b)),
            Err(ev) => Err(wrap_interp_msg(ictx_make_arith(l2 as int, var), ev)),
        },
        AstNode::Query(q) => Ok(Value::Float(qval(m, q))),
        AstNode::IdentRef(v2) => match sp_ident(m, v2@) {
            Ok(v) => Ok(v),
            Err(ev) => Err(wrap_interp_msg(ictx_make_ident(line, v2@), ev)),
        },
        AstNode::Num(b) => Ok(Value::Float(b)),
        AstNode::CompExpr { operator, left, right, line: l2 } => match sp_comp(
            m,
            operator,
            *left,
            *right,
            l2 as int,
        ) {
            Ok(b) => Ok(Value::Bool(b)),
            Err(ev) => Err(
                wrap_interp_msg(ictx_make_expr(l2 as int, comp_text(operator)), ev),
            ),
        },
        AstNode::BoolExpr { operator, left, right, line: l2 } => match sp_bool(
            m,
            operator,
            *left,
            *right,
            l2 as int,
        ) {
            Ok(b) => Ok(Value::Bool(b)),
            Err(ev) => Err(
                wrap_interp_msg(ictx_make_expr(l2 as int, boolop_text(operator)), ev),
            ),
        },
        AstNode::Word(w) => Ok(Value::Word(w)),
        _ => Err(IErrV::TypeError(imsg_make_stmt(line))),
    }
}

/// `b` lies `k` machine steps after `a`, for some run of canvas answers.
pub open spec fn sp_reaches(a: MachineV, b: MachineV, k: nat) -> bool
    decreases k,
{
    if k == 0 {
        a == b
    } else {
        exists|ev: CanvasEvent, mm: MachineV|
            ev_ok(a, ev) && sp_step(a, ev) == StepV::SNext(mm) && sp_reaches(
                mm,
                b,
                (k - 1) as nat,
            )
    }
}

/// `b` lies some number of machine steps after `a`.
pub open spec fn reaches(a: MachineV, b: MachineV) -> bool {
    exists|k: nat| sp_reaches(a, b, k)
}

/// A reachable state followed by one more step is still reachable.
pub proof fn lemma_reaches_extend(a: MachineV, b: MachineV, k: nat, c: MachineV, ev: CanvasEvent)
    requires
        sp_reaches(a, b, k),
        ev_ok(b, ev),
        sp_step(b, ev) == StepV::SNext(c),
    ensures
        sp_reaches(a, c, k + 1),
    decreases k,
{
    if k == 0 {
        assert(sp_reaches(c, c, 0));
    } else {
        let (ev0, mm) = choose|ev0: CanvasEvent, mm: MachineV|
            ev_ok(a, ev0) && sp_step(a, ev0) == StepV::SNext(mm) && sp_reaches(
                mm,
                b,
                (k - 1) as nat,
            );
        lemma_reaches_extend(mm, b, (k - 1) as nat, c, ev);
    }
}

/// The machine a fresh program load yields: one open block over the whole
/// program.
pub open spec fn loaded(m: MachineV, prog: Seq<AstNode>) -> MachineV {
    MachineV { stack: seq![FrameV::Block { body: prog, next: 0, ctx: None }], ..m }
}

/// Whether the machine has more work.
#[derive(Debug, PartialEq, Eq, Structural, Clone, Copy)]
pub enum StepResult {
    Running,
    Done,
}


// Executable builders for the statement-level failure texts.
fn line_prefix(line: i32) -> (r: String)
    ensures
        r@ == "[Line "@ + int_digits(line as int),
{
    let mut s = "[Line ".to_owned();
    s.append(int_to_string(line).as_str());
    s
}

fn ictx_make_arith_s(line: i32, var: &str) -> (r: String)
    ensures
        r@ == ictx_make_arith(line as int, var@),
{
    let mut s = line_prefix(line);
    s.append("]: interp Invalid MAKE statement: Failed to evaluate expression passed to ");
    s.append(var);
    s
}

fn ictx_make_ident_s(line: i32, var: &str) -> (r: String)
    ensures
        r@ == ictx_make_ident(line as int, var@),
{
    let mut s = line_prefix(line);
    s.append("]: Invalid MAKE statement: Failed to evaluate expression passed to ");
    s.append(var);
    s
}

fn ictx_make_expr_s(line: i32, op: &str) -> (r: String)
    ensures
        r@ == ictx_make_expr(line as int, op@),
{
    let mut s = line_prefix(line);
    s.append("]: Failed to evaluate expression provided to ");
    s.append(op);
    s
}

fn imsg_make_stmt_s(line: i32) -> (r: String)
    ensures
        r@ == imsg_make_stmt(line as int),
{
    let mut s = line_prefix(line);
    s.append("]: MAKE was given a statement instead of a value.");
    s
}

fn ictx_add_assign_s2(var: &str) -> (r: String)
    ensures
        r@ == ictx_add_assign(var@),
{
    let mut s = "Invalid ADDASSIGN: Failed to add number to '".to_owned();
    s.append(var);
    s.append("'\n");
    s
}

fn imsg_missing_var_s(var: &str) -> (r: String)
    ensures
        r@ == imsg_missing_var(var@),
{
    let mut s = "Variable ".to_owned();
    s.append(var);
    s.append(" does not exist.");
    s
}

fn imsg_add_assign_target_s(var: &str) -> (r: String)
    ensures
        r@ == imsg_add_assign_target(var@),
{
    let mut s = "ADDASSIGN target '".to_owned();
    s.append(var);
    s.append("' is not bound to a float.");
    s
}

fn ictx_draw_eval_s(line: i32, d: Direction) -> (r: String)
    ensures
        r@ == ictx_draw_eval(line as int, d),
{
    let mut s = line_prefix(line);
    s.append("]: Invalid ADDASSIGN: Failed to add number to '");
    s.append(dir_text_s(d));
    s.append("'\n");
    s
}

fn imsg_draw_fail_s(line: i32, d: Direction) -> (r: String)
    ensures
        r@ == imsg_draw_fail(line as int, d),
{
    let mut s = line_prefix(line);
    s.append("]: Failed to draw line for direction ");
    s.append(dir_text_s(d));
    s.append(" due to UNSVG error:");
    s
}

fn imsg_proc_missing_s(line: i32, name: &str) -> (r: String)
    ensures
        r@ == imsg_proc_missing(line as int, name@),
{
    let mut s = line_prefix(line);
    s.append("]: Referenced Procedure ");
    s.append(name);
    s.append(" does not exist.");
    s
}

fn ictx_pencolor_s(line: i32) -> (r: String)
    ensures
        r@ == ictx_pencolor(line as int),
{
    let mut s = line_prefix(line);
    s.append("]: Invalid argument to PENCOLOR.\n");
    s
}

fn ictx_penpos_s(line: i32, p: PenPos) -> (r: String)
    ensures
        r@ == ictx_penpos(line as int, p),
{
    let mut s = line_prefix(line);
    s.append("]: Invalid argument to ");
    s.append(penpos_text_s(p));
    s.append(".\n");
    s
}

fn ictx_if_cond_s(line: i32) -> (r: String)
    ensures
        r@ == ictx_if_cond(line as int),
{
    let mut s = line_prefix(line);
    s.append("]: Invalid IF statement condition.\n");
    s
}

fn ictx_while_cond_s(line: i32) -> (r: String)
    ensures
        r@ == ictx_while_cond(line as int),
{
    let mut s = line_prefix(line);
    s.append("]: Invalid WHILE statement condition.\n");
    s
}

fn ictx_while_body_s(line: i32) -> (r: String)
    ensures
        r@ == ictx_while_body(line as int),
{
    let mut s = line_prefix(line);
    s.append("]: Invalid expression in the body of the WHILE statement.\n");
    s
}

fn ictx_proc_args_s(line: i32, name: &str) -> (r: String)
    ensures
        r@ == ictx_proc_args(line as int, name@),
{
    let mut s = line_prefix(line);
    s.append("]: Failed to bind provided arguments to ");
    s.append(name);
    s.append("'s parameters.\n");
    s
}

fn ictx_proc_body_s(line: i32, name: &str) -> (r: String)
    ensures
        r@ == ictx_proc_body(line as int, name@),
{
    let mut s = line_prefix(line);
    s.append("]: Failed to evaluate body of procedure ");
    s.append(name);
    s.append(".\n");
    s
}

fn wrap_error_from(stack: &Vec<Frame>, n: usize, e: InterpreterError) -> (r: InterpreterError)
    requires
        n <= stack@.len(),
    ensures
        ierr_view(r) == wrap_stack(frames_view(stack@).subrange(0, n as int), ierr_view(e)),
    decreases n,
{
    proof {
        lemma_frames_view(stack@);
    }
    if n == 0 {
        proof {
            assert(frames_view(stack@).subrange(0, 0) =~= Seq::<FrameV>::empty());
        }
        e
    } else {
        proof {
            assert(frames_view(stack@).subrange(0, n as int).drop_last() =~= frames_view(
                stack@,
            ).subrange(0, n - 1));
            assert(frames_view(stack@).subrange(0, n as int).last() == frame_view(
                stack@[n - 1],
            ));
        }
        let e2 = match &stack[n - 1] {
            Frame::Block { ctx: Some(c), .. } => wrap_interp_error(c.clone(), e),
            _ => e,
        };
        wrap_error_from(stack, n - 1, e2)
    }
}

impl Clone for Frame {
    /// A copy of the frame; bodies stay shared.
    fn clone(&self) -> (r: Self)
        ensures
            r == *self,
    {
        match self {
            Frame::Block { body, next, ctx } => Frame::Block {
                body: body.clone(),
                next: *next,
                ctx: match ctx {
                    Some(c) => Some(c.clone()),
                    None => None,
                },
            },
            Frame::Call { name, line } => Frame::Call { name: name.clone(), line: *line },
        }
    }
}


impl Interpreter {
    fn pop_frame(&mut self)
        requires
            old(self)@.stack.len() > 0,
    ensures
            final(self)@ == pop_top_v(old(self)@),
            old(self).wf() ==> final(self).wf(),
    {
        let ghost before = self.stack@;
        let _ = self.stack.pop();
        proof {
            assert(self.stack@ =~= before.drop_last());
            lemma_frames_view(before);
            lemma_frames_view(self.stack@);
            assert(frames_view(self.stack@) =~= frames_view(before).drop_last());
        }
    }

    fn push_block_frame(&mut self, body: Rc<Vec<AstNode>>, ctx: Option<String>)
        ensures
            final(self)@ == push_block_v(
                old(self)@,
                body@,
                match ctx {
                    Some(c) => Some(c@),
                    None => None,
                },
            ),
            old(self).wf() ==> final(self).wf(),
    {
        let ghost before = self.stack@;
        self.stack.push(Frame::Block { body, next: 0, ctx });
        proof {
            lemma_frames_view(before);
            lemma_frames_view(self.stack@);
            assert(self.stack@.drop_last() =~= before);
            assert(frames_view(self.stack@) =~= frames_view(before).push(
                frame_view(self.stack@.last()),
            ));
        }
    }

    fn push_call_frame(&mut self, name: String, line: i32)
        ensures
            final(self)@ == (MachineV {
                stack: old(self)@.stack.push(FrameV::Call { name: name@, line: line as int }),
                ..old(self)@
            }),
            old(self).wf() ==> final(self).wf(),
    {
        let ghost before = self.stack@;
        let ghost gname = name@;
        self.stack.push(Frame::Call { name, line });
        proof {
            lemma_frames_view(before);
            lemma_frames_view(self.stack@);
            assert(self.stack@.drop_last() =~= before);
            assert(frames_view(self.stack@) =~= frames_view(before).push(
                frame_view(self.stack@.last()),
            ));
        }
    }

    fn advance_top(&mut self)
        requires
            old(self)@.stack.len() > 0,
            old(self)@.stack.last() matches FrameV::Block { body, next, .. } && next < body.len(),
    ensures
            final(self)@ == advance_top_v(old(self)@),
            old(self).wf() ==> final(self).wf(),
    {
        let ghost before = self.stack@;
        proof {
            lemma_frames_view(before);
        }
        let fr = self.stack.pop();
        match fr {
            Some(Frame::Block { body, next, ctx }) => {
                proof {
                    assert(frame_view(before.last()) == frames_view(before).last());
                    assert(next < body@.len());
                }
                let blen = body.len();
                self.stack.push(Frame::Block { body, next: next + 1, ctx });
                proof {
                    lemma_frames_view(self.stack@);
                    assert(self.stack@.drop_last() =~= before.drop_last());
                    assert(frames_view(self.stack@) =~= frames_view(before).update(
                        frames_view(before).len() - 1,
                        frame_view(self.stack@.last()),
                    ));
                }
            },
            _ => {
                proof {
                    assert(false);
                }
            },
        }
    }

    /// Binds `var` to the value of `expr` in the flat environment,
    /// replacing any prior binding.
    fn make(&mut self, var: &String, expr: &AstNode, line: i32) -> (r: Result<
        (),
        InterpreterError,
    >)
        requires
            old(self).wf(),
        ensures
            final(self).wf(),
            match r {
                Ok(u) => sp_make_stmt_value(old(self)@, var@, *expr, line as int) matches Ok(v)
                    && final(self)@ == (MachineV {
                    env: old(self)@.env.insert(var@, v),
                    ..old(self)@
                }),
                Err(e) => sp_make_stmt_value(old(self)@, var@, *expr, line as int) == Err::<
                    Value,
                    IErrV,
                >(ierr_view(e)) && final(self)@ == old(self)@,
            },
    {
        let bound: Value = match expr {
            AstNode::ArithExpr { operator, left, right, line: l2 } => {
                match self.arith_expr(operator, left, right, *l2) {
                    Ok(b) => Value::Float(b),
                    Err(e) => {
                        return Err(
                            wrap_interp_error(ictx_make_arith_s(*l2, var.as_str()), e),
                        );
                    },
                }
            },
            AstNode::Query(q) => Value::Float(self.query(q)),
            AstNode::IdentRef(v2) => match self.eval_ident_ref_as_val(v2) {
                Ok(v) => v,
                Err(e) => {
                    return Err(wrap_interp_error(ictx_make_ident_s(line, v2.as_str()), e));
                },
            },
            AstNode::Num(b) => Value::Float(*b),
            AstNode::CompExpr { operator, left, right, line: l2 } => {
                match self.comp_expr(operator, left, right, *l2) {
                    Ok(b) => Value::Bool(b),
                    Err(e) => {
                        return Err(
                            wrap_interp_error(
                                ictx_make_expr_s(*l2, comp_text_s(*operator)),
                                e,
                            ),
                        );
                    },
                }
            },
            AstNode::BoolExpr { operator, left, right, line: l2 } => {
                match self.bool_expr(operator, left, right, *l2) {
                    Ok(b) => Value::Bool(b),
                    Err(e) => {
                        return Err(
                            wrap_interp_error(
                                ictx_make_expr_s(*l2, boolop_text_s(*operator)),
                                e,
                            ),
                        );
                    },
                }
            },
            AstNode::Word(w) => Value::Word(w.clone()),
            _ => {
                return Err(InterpreterError::TypeError(imsg_make_stmt_s(line)));
            },
        };
        self.environment.insert(var.clone(), bound);
        Ok(())
    }

    /// Adds the value of `expr` to the number already bound to `var_name`.
    fn add_assign(&mut self, var_name: &String, expr: &AstNode, line: i32) -> (r: Result<
        (),
        InterpreterError,
    >)
        requires
            old(self).wf(),
        ensures
            final(self).wf(),
            ({
                let ev = sp_eval_num(old(self)@, *expr, line as int);
                match r {
                    Ok(u) => ev matches Ok(d) && old(self)@.env.contains_key(var_name@) && (old(self)@.env[var_name@] matches Value::Float(b) && final(self)@ == (MachineV {
                        env: old(self)@.env.insert(var_name@, Value::Float(add_bits(b, d))),
                        ..old(self)@
                    })),
                    Err(e) => final(self)@ == old(self)@ && match ev {
                        Err(ev2) => ierr_view(e) == wrap_interp_msg(
                            ictx_add_assign(var_name@),
                            ev2,
                        ),
                        Ok(d) => if !old(self)@.env.contains_key(var_name@) {
                            ierr_view(e) == IErrV::InvalidVariableRef(
                                imsg_missing_var(var_name@),
                            )
                        } else {
                            !(old(self)@.env[var_name@] is Float) && ierr_view(e)
                                == IErrV::TypeError(imsg_add_assign_target(var_name@))
                        },
                    },
                }
            }),
    {
        let d = match self.eval_numeric_expression(expr, line) {
            Ok(d) => d,
            Err(e) => {
                return Err(wrap_interp_error(ictx_add_assign_s2(var_name.as_str()), e));
            },
        };
        let b = match self.environment.get(var_name.as_str()) {
            None => {
                return Err(
                    InterpreterError::InvalidVariableRef(imsg_missing_var_s(var_name.as_str())),
                );
            },
            Some(v) => match v {
                Value::Float(b) => *b,
                _ => {
                    return Err(
                        InterpreterError::TypeError(imsg_add_assign_target_s(var_name.as_str())),
                    );
                },
            },
        };
        self.environment.insert(var_name.clone(), Value::Float(f_add(b, d)));
        Ok(())
    }

    /// Turns drawing on or off.
    fn set_drawing_status(&mut self, new_drawing_status: bool)
        requires
            old(self).wf(),
        ensures
            final(self).wf(),
            final(self)@ == (MachineV { pen: new_drawing_status, ..old(self)@ }),
    {
        self.currently_drawing = new_drawing_status;
    }

    /// Sets the pen color from a numeric expression whose value must be
    /// exactly one of the sixteen color codes.
    fn set_pen_color(&mut self, value: &AstNode, line: i32) -> (r: Result<(), InterpreterError>)
        requires
            old(self).wf(),
        ensures
            final(self).wf(),
            ({
                let ev = sp_eval_num(old(self)@, *value, line as int);
                match r {
                    Ok(u) => ev matches Ok(v) && (color_code_of(v) matches Some(c) && final(self)@ == (MachineV { color: c, ..old(self)@ })),
                    Err(e) => final(self)@ == old(self)@ && match ev {
                        Err(ev2) => ierr_view(e) == wrap_interp_msg(
                            ictx_pencolor(line as int),
                            ev2,
                        ),
                        Ok(v) => color_code_of(v) is None && ierr_view(e)
                            == IErrV::InvalidPenColor(decimal_of(v)),
                    },
                }
            }),
    {
        let v = match self.eval_numeric_expression(value, line) {
            Ok(v) => v,
            Err(e) => {
                return Err(wrap_interp_error(ictx_pencolor_s(line), e));
            },
        };
        match find_color_code(v) {
            Some(c) => {
                proof {
                    crate::single::lemma_color_code_bound(v);
                }
                self.current_color = c;
                Ok(())
            },
            None => Err(InterpreterError::InvalidPenColor(f_display(v))),
        }
    }

    /// Sets the turtle's coordinate or heading from a numeric expression.
    fn set_position(&mut self, update_type: &PenPos, value: &AstNode, line: i32) -> (r: Result<
        (),
        InterpreterError,
    >)
        requires
            old(self).wf(),
        ensures
            final(self).wf(),
            ({
                let ev = sp_eval_num(old(self)@, *value, line as int);
                match r {
                    Ok(u) => ev matches Ok(v) && final(self)@ == (match *update_type {
                        PenPos::SETX => MachineV { x: v, ..old(self)@ },
                        PenPos::SETY => MachineV { y: v, ..old(self)@ },
                        PenPos::SETHEADING => MachineV { heading: v, ..old(self)@ },
                        PenPos::TURN => MachineV {
                            heading: add_bits(old(self)@.heading, v),
                            ..old(self)@
                        },
                    }),
                    Err(e) => final(self)@ == old(self)@ && (ev matches Err(ev2) && ierr_view(e)
                        == wrap_interp_msg(ictx_penpos(line as int, *update_type), ev2)),
                }
            }),
    {
        let v = match self.eval_numeric_expression(value, line) {
            Ok(v) => v,
            Err(e) => {
                return Err(wrap_interp_error(ictx_penpos_s(line, *update_type), e));
            },
        };
        match update_type {
            PenPos::SETX => self.x = v,
            PenPos::SETY => self.y = v,
            PenPos::SETHEADING => self.heading = v,
            PenPos::TURN => self.heading = f_add(self.heading, v),
        }
        Ok(())
    }

    /// Stores a procedure body under its name, replacing any prior body.
    fn create_procedure(&mut self, name: &String, body: &Rc<Vec<AstNode>>)
        requires
            old(self).wf(),
        ensures
            final(self).wf(),
            final(self)@ == (MachineV {
                procs: old(self)@.procs.insert(name@, *body),
                ..old(self)@
            }),
    {
        self.func_environment.insert(name.clone(), body.clone());
    }
}


impl Interpreter {
    /// Wraps a failure with the context line of every open construct on
    /// the stack, innermost first.
    fn wrap_stop(&self, e: InterpreterError) -> (r: InterpreterError)
        ensures
            ierr_view(r) == wrap_stack(self@.stack, ierr_view(e)),
    {
        let n = self.stack.len();
        proof {
            lemma_frames_view(self.stack@);
            assert(frames_view(self.stack@).subrange(0, n as int) =~= frames_view(self.stack@));
        }
        wrap_error_from(&self.stack, n, e)
    }

    /// Performs one step of the program: runs the next statement, closes a
    /// finished block, or enters a called procedure's body.  The result is
    /// exactly one allowed transition of the step relation `sp_step`; on a
    /// failure the machine is left as it was.
    #[verifier::rlimit(80)]
    pub fn step<C: Canvas>(&mut self, canvas: &mut C) -> (r: Result<
        StepResult,
        InterpreterError,
    >)
        requires
            old(self).wf(),
        ensures
            final(self).wf(),
            match r {
                Ok(StepResult::Done) => final(self)@ == old(self)@ && old(self)@.stack.len()
                    == 0,
                Ok(StepResult::Running) => exists|ev: CanvasEvent|
                    ev_ok(old(self)@, ev) && sp_step(old(self)@, ev) == StepV::SNext(
                        final(self)@,
                    ),
                Err(e) => final(self)@ == old(self)@ && exists|ev: CanvasEvent|
                    ev_ok(old(self)@, ev) && sp_step(old(self)@, ev) == StepV::SStop(
                        ierr_view(e),
                    ),
            },
    {
        let ghost m0 = self@;
        proof {
            reveal(sp_step_stmt);
            lemma_frames_view(self.stack@);
        }
        let slen = self.stack.len();
        if slen == 0 {
            return Ok(StepResult::Done);
        }
        let fr = self.stack[slen - 1].clone();
        proof {
            assert(frame_view(fr) == m0.stack.last());
        }
        match fr {
            Frame::Call { name, line } => {
                let body_opt: Option<Rc<Vec<AstNode>>> = match self.func_environment.get(
                    name.as_str(),
                ) {
                    Some(b) => Some(b.clone()),
                    None => None,
                };
                match body_opt {
                    Some(b) => {
                        self.pop_frame();
                        self.push_block_frame(b, Some(ictx_proc_body_s(line, name.as_str())));
                        proof {
                            assert(ev_ok(m0, CanvasEvent::Pure));
                            assert(sp_step(m0, CanvasEvent::Pure) == StepV::SNext(self@));
                        }
                        Ok(StepResult::Running)
                    },
                    None => {
                        let we = self.wrap_stop(
                            InterpreterError::InvalidProcedureRef(
                                imsg_proc_missing_s(line, name.as_str()),
                            ),
                        );
                        proof {
                            assert(ev_ok(m0, CanvasEvent::Pure));
                            assert(sp_step(m0, CanvasEvent::Pure) == StepV::SStop(
                                ierr_view(we),
                            ));
                        }
                        Err(we)
                    },
                }
            },
            Frame::Block { body, next, .. } => {
                let blen = body.len();
                if next >= blen {
                    self.pop_frame();
                    proof {
                        assert(ev_ok(m0, CanvasEvent::Pure));
                        assert(sp_step(m0, CanvasEvent::Pure) == StepV::SNext(self@));
                    }
                    return Ok(StepResult::Running);
                }
                let stmt = &(*body)[next];
                proof {
                    assert(*stmt == (m0.stack.last()->Block_body)[next as int]);
                }
                match stmt {
                    AstNode::MakeStmnt { var, expr, line } => {
                        match self.make(var, expr, *line) {
                            Err(e) => {
                                let we = self.wrap_stop(e);
                                proof {
                                    assert(ev_ok(m0, CanvasEvent::Pure));
                                    assert(sp_step(m0, CanvasEvent::Pure) == StepV::SStop(
                                        ierr_view(we),
                                    ));
                                }
                                Err(we)
                            },
                            Ok(_u) => {
                                self.advance_top();
                                proof {
                                    assert(ev_ok(m0, CanvasEvent::Pure));
                                    assert(sp_step(m0, CanvasEvent::Pure) == StepV::SNext(
                                        self@,
                                    ));
                                }
                                Ok(StepResult::Running)
                            },
                        }
                    },
                    AstNode::AddAssign { var_name, expr, line } => {
                        match self.add_assign(var_name, expr, *line) {
                            Err(e) => {
                                let we = self.wrap_stop(e);
                                proof {
                                    assert(ev_ok(m0, CanvasEvent::Pure));
                                    assert(sp_step(m0, CanvasEvent::Pure) == StepV::SStop(
                                        ierr_view(we),
                                    ));
                                }
                                Err(we)
                            },
                            Ok(_u) => {
                                self.advance_top();
                                proof {
                                    assert(ev_ok(m0, CanvasEvent::Pure));
                                    assert(sp_step(m0, CanvasEvent::Pure) == StepV::SNext(
                                        self@,
                                    ));
                                }
                                Ok(StepResult::Running)
                            },
                        }
                    },
                    AstNode::DrawInstruction { direction, num_pixels, line } => {
                        let d = match self.eval_numeric_expression(num_pixels, *line) {
                            Err(e) => {
                                let we = self.wrap_stop(
                                    wrap_interp_error(ictx_draw_eval_s(*line, *direction), e),
                                );
                                proof {
                                    assert(ev_ok(m0, CanvasEvent::Pure));
                                    assert(sp_step(m0, CanvasEvent::Pure) == StepV::SStop(
                                        ierr_view(we),
                                    ));
                                }
                                return Err(we);
                            },
                            Ok(d) => d,
                        };
                        let xi = f_trunc_i32(self.x);
                        let yi = f_trunc_i32(self.y);
                        let li = f_trunc_i32(d);
                        let off: i32 = match direction {
                            Direction::FORWARD => 0,
                            Direction::BACK => 180,
                            Direction::LEFT => 270,
                            Direction::RIGHT => 90,
                        };
                        let adj = f_trunc_i32(self.heading).wrapping_add(off);
                        if self.currently_drawing {
                            let color = self.current_color;
                            match canvas.draw_line(xi, yi, adj, li, color) {
                                Ok(pair) => {
                                    let ghost gev = CanvasEvent::Drawn {
                                        x: xi,
                                        y: yi,
                                        direction: adj,
                                        length: li,
                                        color,
                                        end_x: pair.0,
                                        end_y: pair.1,
                                    };
                                    self.x = f_from_int(pair.0 as i64);
                                    self.y = f_from_int(pair.1 as i64);
                                    self.advance_top();
                                    proof {
                                        assert(ev_ok(m0, gev));
                                        assert(sp_step(m0, gev) == StepV::SNext(self@));
                                    }
                                    Ok(StepResult::Running)
                                },
                                Err(emsg) => {
                                    let ghost gev = CanvasEvent::DrawFailed {
                                        x: xi,
                                        y: yi,
                                        direction: adj,
                                        length: li,
                                        color,
                                        reason: emsg@,
                                    };
                                    let we = self.wrap_stop(
                                        InterpreterError::DrawLineError(
                                            imsg_draw_fail_s(*line, *direction),
                                            emsg,
                                        ),
                                    );
                                    proof {
                                        assert(ev_ok(m0, gev));
                                        assert(sp_step(m0, gev) == StepV::SStop(ierr_view(we)));
                                    }
                                    Err(we)
                                },
                            }
                        } else {
                            let pair = canvas.project(xi, yi, adj, li);
                            let ghost gev = CanvasEvent::Projected {
                                x: xi,
                                y: yi,
                                direction: adj,
                                length: li,
                                end_x: pair.0,
                                end_y: pair.1,
                            };
                            self.x = f_from_int(pair.0 as i64);
                            self.y = f_from_int(pair.1 as i64);
                            self.advance_top();
                            proof {
                                assert(ev_ok(m0, gev));
                                assert(sp_step(m0, gev) == StepV::SNext(self@));
                            }
                            Ok(StepResult::Running)
                        }
                    },
                    AstNode::IfStmnt { condition, body: inner, line } => {
                        match self.eval_logic_expression(condition, *line) {
                            Err(e) => {
                                let we = self.wrap_stop(wrap_interp_error(ictx_if_cond_s(*line), e));
                                proof {
                                    assert(ev_ok(m0, CanvasEvent::Pure));
                                    assert(sp_step(m0, CanvasEvent::Pure) == StepV::SStop(
                                        ierr_view(we),
                                    ));
                                }
                                Err(we)
                            },
                            Ok(c) => {
                                self.advance_top();
                                if c {
                                    self.push_block_frame(
                                        inner.clone(),
                                        Some(ictx_if_cond_s(*line)),
                                    );
                                }
                                proof {
                                    assert(ev_ok(m0, CanvasEvent::Pure));
                                    assert(sp_step(m0, CanvasEvent::Pure) == StepV::SNext(
                                        self@,
                                    ));
                                }
                                Ok(StepResult::Running)
                            },
                        }
                    },
                    AstNode::WhileStmnt { condition, body: inner, line } => {
                        match self.eval_logic_expression(condition, *line) {
                            Err(e) => {
                                let we = self.wrap_stop(
                                    wrap_interp_error(ictx_while_cond_s(*line), e),
                                );
                                proof {
                                    assert(ev_ok(m0, CanvasEvent::Pure));
                                    assert(sp_step(m0, CanvasEvent::Pure) == StepV::SStop(
                                        ierr_view(we),
                                    ));
                                }
                                Err(we)
                            },
                            Ok(c) => {
                                if c {
                                    self.push_block_frame(
                                        inner.clone(),
                                        Some(ictx_while_body_s(*line)),
                                    );
                                } else {
                                    self.advance_top();
                                }
                                proof {
                                    assert(ev_ok(m0, CanvasEvent::Pure));
                                    assert(sp_step(m0, CanvasEvent::Pure) == StepV::SNext(
                                        self@,
                                    ));
                                }
                                Ok(StepResult::Running)
                            },
                        }
                    },
                    AstNode::PenStatusUpdate(b) => {
                        self.set_drawing_status(*b);
                        self.advance_top();
                        proof {
                            assert(ev_ok(m0, CanvasEvent::Pure));
                            assert(sp_step(m0, CanvasEvent::Pure) == StepV::SNext(self@));
                        }
                        Ok(StepResult::Running)
                    },
                    AstNode::PenColorUpdate { color, line } => {
                        match self.set_pen_color(color, *line) {
                            Err(e) => {
                                let we = self.wrap_stop(e);
                                proof {
                                    assert(ev_ok(m0, CanvasEvent::Pure));
                                    assert(sp_step(m0, CanvasEvent::Pure) == StepV::SStop(
                                        ierr_view(we),
                                    ));
                                }
                                Err(we)
                            },
                            Ok(_u) => {
                                self.advance_top();
                                proof {
                                    assert(ev_ok(m0, CanvasEvent::Pure));
                                    assert(sp_step(m0, CanvasEvent::Pure) == StepV::SNext(
                                        self@,
                                    ));
                                }
                                Ok(StepResult::Running)
                            },
                        }
                    },
                    AstNode::PenPosUpdate { update_type, value, line } => {
                        match self.set_position(update_type, value, *line) {
                            Err(e) => {
                                let we = self.wrap_stop(e);
                                proof {
                                    assert(ev_ok(m0, CanvasEvent::Pure));
                                    assert(sp_step(m0, CanvasEvent::Pure) == StepV::SStop(
                                        ierr_view(we),
                                    ));
                                }
                                Err(we)
                            },
                            Ok(_u) => {
                                self.advance_top();
                                proof {
                                    assert(ev_ok(m0, CanvasEvent::Pure));
                                    assert(sp_step(m0, CanvasEvent::Pure) == StepV::SNext(
                                        self@,
                                    ));
                                }
                                Ok(StepResult::Running)
                            },
                        }
                    },
                    AstNode::Procedure { name, body: inner } => {
                        self.create_procedure(name, inner);
                        self.advance_top();
                        proof {
                            assert(ev_ok(m0, CanvasEvent::Pure));
                            assert(sp_step(m0, CanvasEvent::Pure) == StepV::SNext(self@));
                        }
                        Ok(StepResult::Running)
                    },
                    AstNode::ProcedureRef { name_ref, args, line } => {
                        self.advance_top();
                        self.push_call_frame(name_ref.clone(), *line);
                        self.push_block_frame(
                            args.clone(),
                            Some(ictx_proc_args_s(*line, name_ref.as_str())),
                        );
                        proof {
                            assert(ev_ok(m0, CanvasEvent::Pure));
                            assert(sp_step(m0, CanvasEvent::Pure) == StepV::SNext(self@));
                        }
                        Ok(StepResult::Running)
                    },
                    AstNode::ArithExpr { operator, left, right, line } => {
                        match self.arith_expr(operator, left, right, *line) {
                            Err(e) => {
                                let we = self.wrap_stop(e);
                                proof {
                                    assert(ev_ok(m0, CanvasEvent::Pure));
                                    assert(sp_step(m0, CanvasEvent::Pure) == StepV::SStop(
                                        ierr_view(we),
                                    ));
                                }
                                Err(we)
                            },
                            Ok(_b) => {
                                self.advance_top();
                                proof {
                                    assert(ev_ok(m0, CanvasEvent::Pure));
                                    assert(sp_step(m0, CanvasEvent::Pure) == StepV::SNext(
                                        self@,
                                    ));
                                }
                                Ok(StepResult::Running)
                            },
                        }
                    },
                    AstNode::CompExpr { operator, left, right, line } => {
                        match self.comp_expr(operator, left, right, *line) {
                            Err(e) => {
                                let we = self.wrap_stop(e);
                                proof {
                                    assert(ev_ok(m0, CanvasEvent::Pure));
                                    assert(sp_step(m0, CanvasEvent::Pure) == StepV::SStop(
                                        ierr_view(we),
                                    ));
                                }
                                Err(we)
                            },
                            Ok(_b) => {
                                self.advance_top();
                                proof {
                                    assert(ev_ok(m0, CanvasEvent::Pure));
                                    assert(sp_step(m0, CanvasEvent::Pure) == StepV::SNext(
                                        self@,
                                    ));
                                }
                                Ok(StepResult::Running)
                            },
                        }
                    },
                    AstNode::BoolExpr { operator, left, right, line } => {
                        match self.bool_expr(operator, left, right, *line) {
                            Err(e) => {
                                let we = self.wrap_stop(e);
                                proof {
                                    assert(ev_ok(m0, CanvasEvent::Pure));
                                    assert(sp_step(m0, CanvasEvent::Pure) == StepV::SStop(
                                        ierr_view(we),
                                    ));
                                }
                                Err(we)
                            },
                            Ok(_b) => {
                                self.advance_top();
                                proof {
                                    assert(ev_ok(m0, CanvasEvent::Pure));
                                    assert(sp_step(m0, CanvasEvent::Pure) == StepV::SNext(
                                        self@,
                                    ));
                                }
                                Ok(StepResult::Running)
                            },
                        }
                    },
                    _ => {
                        // Bare literals, identifier references, standalone
                        // identifiers and queries are no-ops as statements.
                        self.advance_top();
                        proof {
                            assert(ev_ok(m0, CanvasEvent::Pure));
                            assert(sp_step(m0, CanvasEvent::Pure) == StepV::SNext(self@));
                        }
                        Ok(StepResult::Running)
                    },
                }
            },
        }
    }
}


impl Interpreter {
    /// Loads a program: the machine's stack becomes one open block over it.
    /// Any earlier program's remaining work is discarded.
    pub fn load(&mut self, ast: Vec<AstNode>)
        requires
            old(self).wf(),
        ensures
            final(self).wf(),
            final(self)@ == loaded(old(self)@, ast@),
    {
        let ghost before = self@;
        self.stack = Vec::new();
        proof {
            assert(self.stack@.len() == 0);
            assert(frames_view(self.stack@) =~= Seq::<FrameV>::empty());
        }
        self.push_block_frame(Rc::new(ast), None);
        proof {
            assert(self@.stack =~= seq![
                FrameV::Block { body: ast@, next: 0, ctx: None },
            ]);
        }
    }

    /// Runs up to `max_steps` steps of the loaded program.  On `Done` the
    /// program ended; on `Running` the budget ran out first; on a failure
    /// the machine stands at the failing statement.  Either way the final
    /// state is reachable from the starting one by the step relation.
    #[verifier::rlimit(100)]
    pub fn resume<C: Canvas>(&mut self, canvas: &mut C, max_steps: u64) -> (r: Result<
        StepResult,
        InterpreterError,
    >)
        requires
            old(self).wf(),
        ensures
            final(self).wf(),
            reaches(old(self)@, final(self)@),
            match r {
                Ok(StepResult::Done) => final(self)@.stack.len() == 0,
                Ok(StepResult::Running) => sp_reaches(old(self)@, final(self)@, max_steps as nat),
                Err(e) => exists|ev: CanvasEvent|
                    ev_ok(final(self)@, ev) && sp_step(final(self)@, ev) == StepV::SStop(
                        ierr_view(e),
                    ),
            },
    {
        let ghost start = self@;
        let ghost mut k: nat = 0nat;
        proof {
            assert(sp_reaches(start, self@, 0nat));
        }
        let mut i: u64 = 0;
        while i < max_steps
            invariant
                start == old(self)@,
                self.wf(),
                sp_reaches(start, self@, k),
                k == i,
                i <= max_steps,
            decreases max_steps - i,
        {
            let ghost before = self@;
            match self.step(canvas) {
                Ok(StepResult::Done) => {
                    proof {
                        assert(sp_reaches(start, self@, k));
                        assert(reaches(start, self@));
                    }
                    return Ok(StepResult::Done);
                },
                Ok(StepResult::Running) => {
                    proof {
                        let ev = choose|ev: CanvasEvent|
                            ev_ok(before, ev) && sp_step(before, ev) == StepV::SNext(self@);
                        lemma_reaches_extend(start, before, k, self@, ev);
                        k = k + 1;
                    }
                },
                Err(e) => {
                    proof {
                        assert(sp_reaches(start, self@, k));
                        assert(reaches(start, self@));
                    }
                    return Err(e);
                },
            }
            i = i + 1;
        }
        proof {
            assert(sp_reaches(start, self@, k));
            assert(reaches(start, self@));
        }
        Ok(StepResult::Running)
    }

    /// Loads and runs a program, spending at most `max_steps` steps.
    pub fn run<C: Canvas>(&mut self, ast: Vec<AstNode>, canvas: &mut C, max_steps: u64) -> (r:
        Result<StepResult, InterpreterError>)
        requires
            old(self).wf(),
        ensures
            final(self).wf(),
            reaches(loaded(old(self)@, ast@), final(self)@),
            match r {
                Ok(StepResult::Done) => final(self)@.stack.len() == 0,
                Ok(StepResult::Running) => sp_reaches(
                    loaded(old(self)@, ast@),
                    final(self)@,
                    max_steps as nat,
                ),
                Err(e) => exists|ev: CanvasEvent|
                    ev_ok(final(self)@, ev) && sp_step(final(self)@, ev) == StepV::SStop(
                        ierr_view(e),
                    ),
            },
    {
        self.load(ast);
        self.resume(canvas, max_steps)
    }

    /// The value bound to `name`, if any.
    pub fn get_variable(&self, name: &str) -> (r: Option<Value>)
        ensures
            match r {
                Some(v) => self@.env.contains_key(name@) && v == self@.env[name@],
                None => !self@.env.contains_key(name@),
            },
    {
        match self.environment.get(name) {
            Some(v) => Some(v.clone()),
            None => None,
        }
    }

    /// The turtle's position, as the bit patterns of two singles.
    pub fn position(&self) -> (r: (u32, u32))
        ensures
            r.0 == self@.x,
            r.1 == self@.y,
    {
        (self.x, self.y)
    }

    /// The turtle's heading, as the bit pattern of a single.
    pub fn heading_bits(&self) -> (r: u32)
        ensures
            r == self@.heading,
    {
        self.heading
    }

    /// The pen's color code.
    pub fn color_code(&self) -> (r: u8)
        ensures
            r == self@.color,
    {
        self.current_color
    }

    /// Whether the pen is down.
    pub fn pen_down(&self) -> (r: bool)
        ensures
            r == self@.pen,
    {
        self.currently_drawing
    }

    /// Whether the loaded program has no work left.
    pub fn done(&self) -> (r: bool)
        ensures
            r == (self@.stack.len() == 0),
    {
        proof {
            lemma_frames_view(self.stack@);
        }
        self.stack.len() == 0
    }
}

} // verus!
