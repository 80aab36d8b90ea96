//! General properties of the machine, stated and proved over the step
//! relation and the spec evaluator.

use vstd::prelude::*;
use crate::ast::{AstNode, CompOp, Direction, QueryKind};
use crate::errors::IErrV;
use crate::interp::{
    advance_top_v, CanvasEvent, ctx_free, dir_offset, draw_direction, ev_ok, FrameV,
    ictx_while_body, imsg_mismatch, imsg_missing_var, lemma_wrap_stack_ctx_free, MachineV,
    push_block_v, qval, sp_comp, sp_eval_logic, sp_eval_num, sp_make_stmt_value, sp_step,
    wrap_stack, StepV,
};
use crate::errors::PErrV;
use crate::parser::{sp_binary_build, PMap};
use crate::single::{
    color_bits, color_code_of, decimal_of, int_bits_of, lemma_color_codes_exact, trunc_i32_of,
};
use crate::strutil::int_digits;
use crate::tokens::{Token, TokenKind};
use crate::value::{sv_gt, sv_lt, Value};
use crate::ast::AstV;

verus! {

/// A `WHILE` whose condition is false from the start runs its body zero
/// times: the step skips past the statement, pushes nothing, and leaves
/// the environment, the procedures, the turtle and the pen untouched.
pub proof fn law_while_false_skips(m: MachineV, w: AstNode)
    requires
        m.stack.len() > 0,
        m.stack.last() matches FrameV::Block { body, next, .. } && 0 <= next < body.len()
            && body[next] == w,
        w matches AstNode::WhileStmnt { condition, body: wbody, line } && sp_eval_logic(
            m,
            *condition,
            line as int,
        ) == Ok::<bool, IErrV>(false),
    ensures
        sp_step(m, CanvasEvent::Pure) == StepV::SNext(advance_top_v(m)),
        advance_top_v(m).env == m.env,
        advance_top_v(m).procs == m.procs,
        advance_top_v(m).x == m.x,
        advance_top_v(m).y == m.y,
        advance_top_v(m).heading == m.heading,
        advance_top_v(m).color == m.color,
        advance_top_v(m).pen == m.pen,
        advance_top_v(m).stack.len() == m.stack.len(),
{
    reveal(crate::interp::sp_step_stmt);
}

/// A `WHILE` whose condition holds runs its body once and then faces the
/// same `WHILE` statement again: the body block is pushed and the cursor
/// does not move, so the condition is re-evaluated after each pass.
pub proof fn law_while_true_repeats(m: MachineV, w: AstNode)
    requires
        m.stack.len() > 0,
        m.stack.last() matches FrameV::Block { body, next, .. } && 0 <= next < body.len()
            && body[next] == w,
        w matches AstNode::WhileStmnt { condition, body: wbody, line } && sp_eval_logic(
            m,
            *condition,
            line as int,
        ) == Ok::<bool, IErrV>(true),
    ensures
        w matches AstNode::WhileStmnt { condition, body: wbody, line } ==> sp_step(
            m,
            CanvasEvent::Pure,
        ) == StepV::SNext(
            push_block_v(m, wbody@, Some(ictx_while_body(line as int))),
        ),
        push_block_v(
            m,
            w->WhileStmnt_body@,
            Some(ictx_while_body(w->WhileStmnt_line as int)),
        ).stack.last() == (FrameV::Block {
            body: w->WhileStmnt_body@,
            next: 0,
            ctx: Some(ictx_while_body(w->WhileStmnt_line as int)),
        }),
        push_block_v(
            m,
            w->WhileStmnt_body@,
            Some(ictx_while_body(w->WhileStmnt_line as int)),
        ).stack.drop_last() == m.stack,
{
    reveal(crate::interp::sp_step_stmt);
    assert(push_block_v(
        m,
        w->WhileStmnt_body@,
        Some(ictx_while_body(w->WhileStmnt_line as int)),
    ).stack.drop_last() =~= m.stack);
}

/// `ADDASSIGN` on a name with no binding fails with `InvalidVariableRef`
/// naming the variable, whenever its numeric argument itself evaluates;
/// outside every enclosing construct the error surfaces bare.
pub proof fn law_add_assign_unbound(m: MachineV, a: AstNode)
    requires
        m.stack.len() > 0,
        m.stack.last() matches FrameV::Block { body, next, .. } && 0 <= next < body.len()
            && body[next] == a,
        a matches AstNode::AddAssign { var_name, expr, line } && sp_eval_num(
            m,
            *expr,
            line as int,
        ) is Ok && !m.env.contains_key(var_name@),
    ensures
        a matches AstNode::AddAssign { var_name, expr, line } ==> sp_step(m, CanvasEvent::Pure)
            == StepV::SStop(
            wrap_stack(m.stack, IErrV::InvalidVariableRef(imsg_missing_var(var_name@))),
        ),
        a matches AstNode::AddAssign { var_name, expr, line } ==> (ctx_free(m.stack) ==> sp_step(
            m,
            CanvasEvent::Pure,
        ) == StepV::SStop(IErrV::InvalidVariableRef(imsg_missing_var(var_name@)))),
    decreases m.stack.len(),
{
    reveal(crate::interp::sp_step_stmt);
    if ctx_free(m.stack) {
        match a {
            AstNode::AddAssign { var_name, .. } => {
                lemma_wrap_stack_ctx_free(
                    m.stack,
                    IErrV::InvalidVariableRef(imsg_missing_var(var_name@)),
                );
            },
            _ => {},
        }
    }
}

/// `SETPENCOLOR` succeeds exactly when its numeric argument is IEEE-equal
/// to one of the sixteen integer color codes; then the code is adopted and
/// a `COLOR` query reads back that integer's encoding.  Any other value
/// fails with `InvalidPenColor` carrying the value's decimal rendering.
pub proof fn law_pen_color(m: MachineV, a: AstNode, v: u32)
    requires
        m.stack.len() > 0,
        m.stack.last() matches FrameV::Block { body, next, .. } && 0 <= next < body.len()
            && body[next] == a,
        a matches AstNode::PenColorUpdate { color, line } && sp_eval_num(m, *color, line as int)
            == Ok::<u32, IErrV>(v),
    ensures
        color_code_of(v) matches Some(c) ==> sp_step(m, CanvasEvent::Pure) == StepV::SNext(
            MachineV { color: c, ..advance_top_v(m) },
        ) && qval(MachineV { color: c, ..advance_top_v(m) }, QueryKind::COLOR) == color_bits(
            c as int,
        ),
        color_code_of(v) is None ==> sp_step(m, CanvasEvent::Pure) == StepV::SStop(
            wrap_stack(m.stack, IErrV::InvalidPenColor(decimal_of(v))),
        ),
        (color_code_of(v) is None && ctx_free(m.stack)) ==> sp_step(m, CanvasEvent::Pure)
            == StepV::SStop(IErrV::InvalidPenColor(decimal_of(v))),
{
    reveal(crate::interp::sp_step_stmt);
    if color_code_of(v) is None && ctx_free(m.stack) {
        lemma_wrap_stack_ctx_free(m.stack, IErrV::InvalidPenColor(decimal_of(v)));
    }
}

/// `SETPENCOLOR` on the encoding of a whole number in the sixteen codes
/// always succeeds and adopts exactly that code.
pub proof fn law_pen_color_accepts_codes(m: MachineV, a: AstNode, i: int)
    requires
        m.stack.len() > 0,
        m.stack.last() matches FrameV::Block { body, next, .. } && 0 <= next < body.len()
            && body[next] == a,
        a matches AstNode::PenColorUpdate { color, line } && sp_eval_num(m, *color, line as int)
            == Ok::<u32, IErrV>(color_bits(i)),
        0 <= i < 16,
    ensures
        sp_step(m, CanvasEvent::Pure) == StepV::SNext(
            MachineV { color: i as u8, ..advance_top_v(m) },
        ),
{
    reveal(crate::interp::sp_step_stmt);
    lemma_color_codes_exact(i);
}

/// The parser's two-layer looseness on comparisons: two identifier
/// references agree with every shape, so `EQ` over them is accepted and
/// the evaluator settles their tags at run time; operands whose shapes
/// definitely disagree — a number against a word — are rejected at parse
/// time.
pub proof fn law_comparison_shape_rule(
    op: Token,
    a: Seq<char>,
    b: Seq<char>,
    n: u32,
    w: Seq<char>,
    k: int,
    pm: PMap,
)
    requires
        op.kind == TokenKind::COMPOP,
        op.value@ == "EQ"@,
    ensures
        sp_binary_build(op, AstV::IdentRef(a), AstV::IdentRef(b), k, pm).0 == Ok::<
            AstV,
            PErrV,
        >(
            AstV::CompExpr {
                operator: CompOp::EQ,
                left: Box::new(AstV::IdentRef(a)),
                right: Box::new(AstV::IdentRef(b)),
                line: op.line as int,
            },
        ),
        sp_binary_build(op, AstV::Num(n), AstV::Word(w), k, pm).0 == Err::<AstV, PErrV>(
            PErrV::NonBooleanExpr(int_digits(op.line as int), op.value@),
        ),
{
}

/// `EQ` between an identifier bound to a number and one bound to a word
/// fails at run time with the mismatched-types error, although the parser
/// accepts the comparison: both operands are shape-ambiguous references.
pub proof fn law_eq_mixed_tags(m: MachineV, x: String, y: String, line: int)
    requires
        m.env.contains_key(x@),
        m.env[x@] is Float,
        m.env.contains_key(y@),
        m.env[y@] is Word,
    ensures
        sp_comp(m, CompOp::EQ, AstNode::IdentRef(x), AstNode::IdentRef(y), line) == Err::<
            bool,
            IErrV,
        >(IErrV::TypeError(imsg_mismatch(line, "EQ"@))),
{
}

/// A `MAKE` statement — including the synthesized argument bindings of a
/// procedure call — writes the one flat variable namespace, at any depth of
/// open blocks: there are no call frames with locals to isolate the caller.
pub proof fn law_make_writes_global(m: MachineV, a: AstNode, v: Value)
    requires
        m.stack.len() > 0,
        m.stack.last() matches FrameV::Block { body, next, .. } && 0 <= next < body.len()
            && body[next] == a,
        a matches AstNode::MakeStmnt { var, expr, line } && sp_make_stmt_value(
            m,
            var@,
            *expr,
            line as int,
        ) == Ok::<Value, IErrV>(v),
    ensures
        a matches AstNode::MakeStmnt { var, expr, line } ==> sp_step(m, CanvasEvent::Pure)
            == StepV::SNext(MachineV { env: m.env.insert(var@, v), ..advance_top_v(m) }),
{
    reveal(crate::interp::sp_step_stmt);
}

/// What a move instruction asks of the canvas, read off the allowed
/// events: the request is always the turtle's truncated coordinates, the
/// truncated heading plus the direction's fixed offset — FORWARD +0°,
/// BACK +180°, LEFT +270°, RIGHT +90° — and the truncated distance.  With
/// the pen down a line is drawn in the current color or refused; with the
/// pen up the line is only projected, and a projection cannot fail.
pub proof fn law_move_request(m: MachineV, a: AstNode, d: u32, ev: CanvasEvent)
    requires
        m.stack.len() > 0,
        m.stack.last() matches FrameV::Block { body, next, .. } && 0 <= next < body.len()
            && body[next] == a,
        a matches AstNode::DrawInstruction { direction, num_pixels, line } && sp_eval_num(
            m,
            *num_pixels,
            line as int,
        ) == Ok::<u32, IErrV>(d),
        ev_ok(m, ev),
    ensures
        dir_offset(Direction::FORWARD) == 0,
        dir_offset(Direction::BACK) == 180,
        dir_offset(Direction::LEFT) == 270,
        dir_offset(Direction::RIGHT) == 90,
        m.pen ==> !(ev is Projected) && !(ev is Pure),
        !m.pen ==> (ev is Projected),
        a matches AstNode::DrawInstruction { direction, .. } ==> match ev {
            CanvasEvent::Drawn { x, y, direction: dd, length, color, .. } => x == trunc_i32_of(
                m.x,
            ) && y == trunc_i32_of(m.y) && dd == draw_direction(m, direction) && length
                == trunc_i32_of(d) && color == m.color,
            CanvasEvent::DrawFailed { x, y, direction: dd, length, color, .. } => x
                == trunc_i32_of(m.x) && y == trunc_i32_of(m.y) && dd == draw_direction(
                m,
                direction,
            ) && length == trunc_i32_of(d) && color == m.color,
            CanvasEvent::Projected { x, y, direction: dd, length, .. } => x == trunc_i32_of(m.x)
                && y == trunc_i32_of(m.y) && dd == draw_direction(m, direction) && length
                == trunc_i32_of(d),
            CanvasEvent::Pure => false,
        },
{
}

/// A move instruction whose distance evaluates lands the turtle exactly on
/// the point the canvas answered, drawn or merely projected: position
/// updates do not depend on whether a line was drawn.
pub proof fn law_move_follows_canvas(m: MachineV, a: AstNode, nx: i32, ny: i32, ev: CanvasEvent)
    requires
        m.stack.len() > 0,
        m.stack.last() matches FrameV::Block { body, next, .. } && 0 <= next < body.len()
            && body[next] == a,
        a matches AstNode::DrawInstruction { direction, num_pixels, line } && sp_eval_num(
            m,
            *num_pixels,
            line as int,
        ) is Ok,
        (ev matches CanvasEvent::Drawn { end_x, end_y, .. } && end_x == nx && end_y == ny) || (
        ev matches CanvasEvent::Projected { end_x, end_y, .. } && end_x == nx && end_y == ny),
    ensures
        sp_step(m, ev) == StepV::SNext(
            MachineV { x: int_bits_of(nx as i64), y: int_bits_of(ny as i64), ..advance_top_v(m) },
        ),
{
    reveal(crate::interp::sp_step_stmt);
}

/// `GT` is `LT` with its operands swapped, on every pair of same-tagged
/// values: numbers by the IEEE order, truth values with `false` before
/// `true`, words by code point.
pub proof fn law_gt_is_swapped_lt(a: Value, b: Value)
    ensures
        sv_gt(a, b) == sv_lt(b, a),
{
}

} // verus!
