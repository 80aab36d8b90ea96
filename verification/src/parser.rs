//! The syntax analyzer: a recursive descent over the token stream.
//!
//! Every production is written twice: a spec function saying exactly which
//! tree, which error and which resting position a token stream yields, and
//! an executable twin proved equal to it.  The spec functions walk an index
//! into the token sequence; `adv` keeps every recursive call moving right so
//! that all of them terminate.

use vstd::prelude::*;
use std::rc::Rc;
use crate::ast::{
    ArithOp, AstNode, AstV, BoolOp, CompOp, Direction, NodeType, PenPos, QueryKind, ast_view,
    asts_view, lemma_asts_view, node_is_boolean, node_is_numeric, node_is_word,
};
use crate::errors::{PErrV, ParserError, perr_view, wrap_parse_error, wrap_parse_msg};
use crate::strutil::{int_digits, int_to_string, str_equal};
use crate::single::{numeric_value_of, parse_numeric_value};
use crate::tokens::{Token, TokenKind};

verus! {

/// The parser's record of procedure parameter lists: name to parameter
/// names, in declaration order.
pub type PMap = Map<Seq<char>, Seq<Seq<char>>>;

/// Clamps a claimed next position `j` into `(i, n]`, so that the measure of
/// the recursion visibly shrinks.  Whenever the executable parser supplies
/// `j`, it lies in the range already and the clamp changes nothing.
pub open spec fn adv(i: int, j: int, n: int) -> int {
    if i < j && j <= n {
        j
    } else if i + 1 <= n {
        i + 1
    } else {
        n
    }
}

/// A numeric-shaped tree, on the spec side.
pub open spec fn vnode_is_numeric(n: AstV) -> bool {
    n matches AstV::Num(_) || n matches AstV::ArithExpr { .. } || n matches AstV::Query(_)
        || n matches AstV::IdentRef(_)
}

/// A boolean-shaped tree, on the spec side.
pub open spec fn vnode_is_boolean(n: AstV) -> bool {
    n matches AstV::CompExpr { .. } || n matches AstV::BoolExpr { .. } || n matches AstV::IdentRef(
        _,
    )
}

/// A word-shaped tree, on the spec side.
pub open spec fn vnode_is_word(n: AstV) -> bool {
    n matches AstV::Word(_) || n matches AstV::IdentRef(_)
}

/// The shape of a node and the shape of its view agree.
pub proof fn lemma_shape_view(n: AstNode)
    ensures
        node_is_numeric(n) == vnode_is_numeric(ast_view(n)),
        node_is_boolean(n) == vnode_is_boolean(ast_view(n)),
        node_is_word(n) == vnode_is_word(ast_view(n)),
{
}

// The context lines each enclosing construct adds to an inner failure.
pub open spec fn ctx_make(l: int, var: Seq<char>) -> Seq<char> {
    "\t[Line "@ + int_digits(l)
        + "]: Invalid MAKE operation: Failed to parse expression provided to '"@ + var + "'"@
}

pub open spec fn ctx_binop_first(l: int, op: Seq<char>) -> Seq<char> {
    "[Line"@ + int_digits(l) + "]: The first argument to binary operator '"@ + op
        + "' is invalid."@
}

pub open spec fn ctx_binop_second(l: int, op: Seq<char>) -> Seq<char> {
    "[Line"@ + int_digits(l) + "]: The second argument to binary operator '"@ + op
        + "' is invalid"@
}

pub open spec fn ctx_extra(v: Seq<char>) -> Seq<char> {
    "Error parsing '"@ + v + "' expression"@
}

pub open spec fn ctx_if_while(l: int, name: Seq<char>) -> Seq<char> {
    "\t[Line "@ + int_digits(l) + "]: Invalid "@ + name
        + " statement: Failed to parse expression provided to "@ + name
}

pub open spec fn ctx_body(l: int, name: Seq<char>) -> Seq<char> {
    "\t[Line "@ + int_digits(l) + "]: Invalid expression found within "@ + name
        + " statement body."@
}

pub open spec fn ctx_add_assign(l: int, var: Seq<char>) -> Seq<char> {
    "\t[Line "@ + int_digits(l)
        + "]: Invalid ADDASSIGN operation: Failed to parse expression provided to '"@ + var + "'"@
}

pub open spec fn ctx_proc_body(l: int, name: Seq<char>) -> Seq<char> {
    "\t[Line "@ + int_digits(l) + "]: Invalid expression found within Procedure "@ + name
        + "'s body."@
}

pub open spec fn ctx_proc_arg(l: int, name: Seq<char>) -> Seq<char> {
    "\t[Line "@ + int_digits(l) + "]: Invalid argument provided to procedure '"@ + name + "'\n"@
}

pub open spec fn ctx_draw(l: int, dir: Seq<char>) -> Seq<char> {
    "\t[Line "@ + int_digits(l) + "]: Invalid argument to "@ + dir + "\n"@
}

/// The error for a token that no statement position accepts (a stray
/// bracket or procedure terminator), and for a token whose text is not one
/// its kind can carry.
pub open spec fn unexpected_token_err(tok: Token) -> PErrV {
    PErrV::InvalidToken(int_digits(tok.line as int), "Unexpected token: "@ + tok.value@)
}

/// What one production of the spec parser yields: the tree or the error,
/// the position after the consumed tokens, and the parameter-list table
/// after any definitions.
pub type SpOut = (Result<AstV, PErrV>, int, PMap);

/// Dispatch on the kind of the front token, as the tree of productions
/// does.
pub open spec fn sp_expr(t: Seq<Token>, i: int, pm: PMap) -> SpOut
    decreases t.len() - i, 1int,
{
    let n = t.len() as int;
    if i < 0 || i >= n {
        (Err(PErrV::UnexpectedEnding), i, pm)
    } else {
        match t[i].kind {
            TokenKind::ARITHOP => sp_binary_op(t, i, pm),
            TokenKind::COMPOP => sp_binary_op(t, i, pm),
            TokenKind::BOOLOP => sp_binary_op(t, i, pm),
            TokenKind::QUERY => sp_query(t, i, pm),
            TokenKind::IDENTREF => (
                Ok(AstV::IdentRef(t[i].value@)),
                i + 1,
                pm,
            ),
            TokenKind::MAKEOP => sp_make_op(t, i, pm),
            TokenKind::ADDASSIGN => sp_add_assign(t, i, pm),
            TokenKind::DIRECTION => sp_draw_line(t, i, pm),
            TokenKind::IFSTMNT => sp_if_while(t, i, pm),
            TokenKind::WHILESTMNT => sp_if_while(t, i, pm),
            TokenKind::PENSTATUS => sp_pen_status(t, i, pm),
            TokenKind::PENCOLOR => sp_pen_color(t, i, pm),
            TokenKind::PENPOS => sp_pen_pos(t, i, pm),
            TokenKind::PROCSTART => sp_procedure(t, i, pm),
            TokenKind::PROCNAME => sp_procedure_reference(t, i, pm),
            TokenKind::NUM => sp_num(t, i, pm),
            TokenKind::IDENT => (Ok(AstV::Word(t[i].value@)), i + 1, pm),
            _ => (Err(unexpected_token_err(t[i])), i, pm),
        }
    }
}

/// A numeric literal: the token's text as a single's bit pattern.
pub open spec fn sp_num(t: Seq<Token>, i: int, pm: PMap) -> SpOut {
    match numeric_value_of(t[i].value@) {
        Some(b) => (Ok(AstV::Num(b)), i + 1, pm),
        None => (
            Err(
                PErrV::InvalidToken(
                    int_digits(t[i].line as int),
                    "Invalid numeric literal: "@ + t[i].value@,
                ),
            ),
            i + 1,
            pm,
        ),
    }
}

/// A state query, by the token's own text.
pub open spec fn sp_query(t: Seq<Token>, i: int, pm: PMap) -> SpOut {
    let v = t[i].value@;
    if v == "XCOR"@ {
        (Ok(AstV::Query(QueryKind::XCOR)), i + 1, pm)
    } else if v == "YCOR"@ {
        (Ok(AstV::Query(QueryKind::YCOR)), i + 1, pm)
    } else if v == "HEADING"@ {
        (Ok(AstV::Query(QueryKind::HEADING)), i + 1, pm)
    } else if v == "COLOR"@ {
        (Ok(AstV::Query(QueryKind::COLOR)), i + 1, pm)
    } else {
        (Err(unexpected_token_err(t[i])), i + 1, pm)
    }
}

/// A MAKE statement: an identifier token, then an expression whose shape
/// can produce a value.
pub open spec fn sp_make_op(t: Seq<Token>, i: int, pm: PMap) -> SpOut
    decreases t.len() - i, 0int,
{
    let n = t.len() as int;
    if i + 1 >= n {
        (Err(PErrV::UnexpectedEnding), i + 1, pm)
    } else {
        let ident = t[i + 1];
        if ident.kind != TokenKind::IDENT {
            (
                Err(
                    PErrV::IncorrectArgType(
                        int_digits(t[i].line as int),
                        "Invalid MAKE expression. MAKE did not receive a variable, instead receieved: "@
                            + ident.value@ + "."@,
                    ),
                ),
                i + 2,
                pm,
            )
        } else {
            let (r1, j, pm1) = sp_expr(t, i + 2, pm);
            match r1 {
                Err(e) => (
                    Err(wrap_parse_msg(ctx_make(ident.line as int, ident.value@), e)),
                    j,
                    pm1,
                ),
                Ok(v) => if !vnode_is_numeric(v) && !vnode_is_boolean(v) && !vnode_is_word(v) {
                    (
                        Err(
                            PErrV::IncorrectArgType(
                                int_digits(ident.line as int),
                                "Invalid MAKE statement. "@ + ident.value@
                                    + " received an argument which does not return a float value or a boolean value."@,
                            ),
                        ),
                        j,
                        pm1,
                    )
                } else {
                    (
                        Ok(
                            AstV::MakeStmnt {
                                var: ident.value@,
                                expr: Box::new(v),
                                line: ident.line as int,
                            },
                        ),
                        j,
                        pm1,
                    )
                },
            }
        }
    }
}

/// A binary expression: the operator token, then two expressions whose
/// shapes the operator accepts.
pub open spec fn sp_binary_op(t: Seq<Token>, i: int, pm: PMap) -> SpOut
    decreases t.len() - i, 0int,
{
    let n = t.len() as int;
    if i >= n {
        (Err(PErrV::UnexpectedEnding), i, pm)
    } else {
    let op = t[i];
    let (r1, j0, pm1) = sp_expr(t, i + 1, pm);
    match r1 {
        Err(e) => (
            Err(wrap_parse_msg(ctx_binop_first(op.line as int, op.value@), e)),
            j0,
            pm1,
        ),
        Ok(left) => {
            let j = adv(i, j0, n);
            let (r2, k, pm2) = sp_expr(t, j, pm1);
            match r2 {
                Err(e) => (
                    Err(wrap_parse_msg(ctx_binop_second(op.line as int, op.value@), e)),
                    k,
                    pm2,
                ),
                Ok(right) => sp_binary_build(op, left, right, k, pm2),
            }
        },
    }
    }
}

/// Applies the operator's shape rule and builds the expression node.
pub open spec fn sp_binary_build(op: Token, left: AstV, right: AstV, k: int, pm: PMap) -> SpOut {
    if op.kind == TokenKind::ARITHOP {
        if !vnode_is_numeric(left) || !vnode_is_numeric(right) {
            (Err(PErrV::NonNumericExpr(int_digits(op.line as int), op.value@)), k, pm)
        } else if op.value@ == "+"@ {
            (Ok(mk_arith(ArithOp::ADD, left, right, op.line as int)), k, pm)
        } else if op.value@ == "-"@ {
            (Ok(mk_arith(ArithOp::SUB, left, right, op.line as int)), k, pm)
        } else if op.value@ == "*"@ {
            (Ok(mk_arith(ArithOp::MUL, left, right, op.line as int)), k, pm)
        } else if op.value@ == "/"@ {
            (Ok(mk_arith(ArithOp::DIV, left, right, op.line as int)), k, pm)
        } else {
            (Err(unexpected_token_err(op)), k, pm)
        }
    } else if op.kind == TokenKind::COMPOP {
        if !(vnode_is_boolean(left) && vnode_is_numeric(left)) && !(vnode_is_boolean(right)
            && vnode_is_numeric(right)) && (vnode_is_boolean(left) != vnode_is_boolean(right)
            || vnode_is_numeric(left) != vnode_is_numeric(right) || vnode_is_word(left)
            != vnode_is_word(right)) {
            (Err(PErrV::NonBooleanExpr(int_digits(op.line as int), op.value@)), k, pm)
        } else if op.value@ == "EQ"@ {
            (Ok(mk_comp(CompOp::EQ, left, right, op.line as int)), k, pm)
        } else if op.value@ == "NE"@ {
            (Ok(mk_comp(CompOp::NE, left, right, op.line as int)), k, pm)
        } else if op.value@ == "LT"@ {
            (Ok(mk_comp(CompOp::LT, left, right, op.line as int)), k, pm)
        } else if op.value@ == "GT"@ {
            (Ok(mk_comp(CompOp::GT, left, right, op.line as int)), k, pm)
        } else {
            (Err(unexpected_token_err(op)), k, pm)
        }
    } else {
        if !vnode_is_boolean(left) || !vnode_is_boolean(right) {
            (Err(PErrV::NonBooleanExpr(int_digits(op.line as int), op.value@)), k, pm)
        } else if op.value@ == "AND"@ {
            (Ok(mk_bool(BoolOp::AND, left, right, op.line as int)), k, pm)
        } else if op.value@ == "OR"@ {
            (Ok(mk_bool(BoolOp::OR, left, right, op.line as int)), k, pm)
        } else {
            (Err(unexpected_token_err(op)), k, pm)
        }
    }
}

pub open spec fn mk_arith(op: ArithOp, l: AstV, r: AstV, line: int) -> AstV {
    AstV::ArithExpr { operator: op, left: Box::new(l), right: Box::new(r), line }
}

pub open spec fn mk_comp(op: CompOp, l: AstV, r: AstV, line: int) -> AstV {
    AstV::CompExpr { operator: op, left: Box::new(l), right: Box::new(r), line }
}

pub open spec fn mk_bool(op: BoolOp, l: AstV, r: AstV, line: int) -> AstV {
    AstV::BoolExpr { operator: op, left: Box::new(l), right: Box::new(r), line }
}

/// The extra-argument sweep: the text of the offending tokens on `line`
/// from position `i`, each in quotes, joined by commas; whether there was
/// any; and the position after them.
pub open spec fn sp_extra_text(t: Seq<Token>, i: int, line: int) -> (Seq<char>, int, bool)
    decreases t.len() - i,
{
    let n = t.len() as int;
    if i < 0 || i >= n || t[i].line != line {
        (Seq::empty(), i, false)
    } else {
        let (rest, j, any) = sp_extra_text(t, i + 1, line);
        let cur = "\""@ + t[i].value@ + "\""@;
        if any {
            (cur + ", "@ + rest, j, true)
        } else {
            (cur, j, true)
        }
    }
}

/// Fails when any token is left on `line`: a statement got more arguments
/// than it expects.
pub open spec fn sp_extra(t: Seq<Token>, i: int, line: int) -> (Result<(), PErrV>, int) {
    let (txt, j, any) = sp_extra_text(t, i, line);
    if any {
        (Err(PErrV::ExtraArguments(int_digits(line), txt)), j)
    } else {
        (Ok(()), j)
    }
}

/// A pen position or orientation setter: one expression argument, then
/// nothing else on the line.
pub open spec fn sp_pen_pos(t: Seq<Token>, i: int, pm: PMap) -> SpOut
    decreases t.len() - i, 0int,
{
    let n = t.len() as int;
    if i >= n {
        (Err(PErrV::UnexpectedEnding), i, pm)
    } else {
    let tok = t[i];
    let (r1, j0, pm1) = sp_expr(t, i + 1, pm);
    match r1 {
        Err(e) => (Err(e), j0, pm1),
        Ok(v) => {
            let j = adv(i, j0, n);
            let (xr, k) = sp_extra(t, j, tok.line as int);
            match xr {
                Err(e) => (Err(wrap_parse_msg(ctx_extra(tok.value@), e)), k, pm1),
                Ok(_) => if tok.value@ == "SETX"@ {
                    (Ok(mk_pen_pos(PenPos::SETX, v, tok.line as int)), k, pm1)
                } else if tok.value@ == "SETY"@ {
                    (Ok(mk_pen_pos(PenPos::SETY, v, tok.line as int)), k, pm1)
                } else if tok.value@ == "TURN"@ {
                    (Ok(mk_pen_pos(PenPos::TURN, v, tok.line as int)), k, pm1)
                } else if tok.value@ == "SETHEADING"@ {
                    (Ok(mk_pen_pos(PenPos::SETHEADING, v, tok.line as int)), k, pm1)
                } else {
                    (Err(unexpected_token_err(tok)), k, pm1)
                },
            }
        },
    }
    }
}

pub open spec fn mk_pen_pos(u: PenPos, v: AstV, line: int) -> AstV {
    AstV::PenPosUpdate { update_type: u, value: Box::new(v), line }
}

/// PENUP or PENDOWN: no arguments on the line.
pub open spec fn sp_pen_status(t: Seq<Token>, i: int, pm: PMap) -> SpOut
    decreases t.len() - i, 0int,
{
    let tok = t[i];
    let (xr, k) = sp_extra(t, i + 1, tok.line as int);
    match xr {
        Err(e) => (Err(wrap_parse_msg(ctx_extra(tok.value@), e)), k, pm),
        Ok(_) => if tok.value@ == "PENUP"@ {
            (Ok(AstV::PenStatusUpdate(false)), k, pm)
        } else if tok.value@ == "PENDOWN"@ {
            (Ok(AstV::PenStatusUpdate(true)), k, pm)
        } else {
            (Err(unexpected_token_err(tok)), k, pm)
        },
    }
}

/// SETPENCOLOR: one expression argument, then nothing else on the line.
pub open spec fn sp_pen_color(t: Seq<Token>, i: int, pm: PMap) -> SpOut
    decreases t.len() - i, 0int,
{
    let n = t.len() as int;
    if i >= n {
        (Err(PErrV::UnexpectedEnding), i, pm)
    } else {
    let tok = t[i];
    let (r1, j0, pm1) = sp_expr(t, i + 1, pm);
    match r1 {
        Err(e) => (Err(e), j0, pm1),
        Ok(v) => {
            let j = adv(i, j0, n);
            let (xr, k) = sp_extra(t, j, tok.line as int);
            match xr {
                Err(e) => (Err(wrap_parse_msg(ctx_extra(tok.value@), e)), k, pm1),
                Ok(_) => (
                    Ok(AstV::PenColorUpdate { color: Box::new(v), line: tok.line as int }),
                    k,
                    pm1,
                ),
            }
        },
    }
    }
}

/// An IF or WHILE statement: a boolean-shaped condition, then a
/// bracket-delimited body.
pub open spec fn sp_if_while(t: Seq<Token>, i: int, pm: PMap) -> SpOut
    decreases t.len() - i, 0int,
{
    let n = t.len() as int;
    if i >= n {
        (Err(PErrV::UnexpectedEnding), i, pm)
    } else {
    let tok = t[i];
    let name: Seq<char> = if tok.kind == TokenKind::IFSTMNT {
        "IF"@
    } else {
        "WHILE"@
    };
    let (r1, j0, pm1) = sp_expr(t, i + 1, pm);
    match r1 {
        Err(e) => (Err(wrap_parse_msg(ctx_if_while(tok.line as int, name), e)), j0, pm1),
        Ok(cond) => if !vnode_is_boolean(cond) {
            (Err(PErrV::NonBooleanExpr(int_digits(tok.line as int), tok.value@)), j0, pm1)
        } else {
            let j = adv(i, j0, n);
            if j >= n {
                (Err(PErrV::UnexpectedEnding), j, pm1)
            } else {
                let lp = t[j];
                if lp.kind != TokenKind::LPAREN {
                    (
                        Err(
                            PErrV::MissingParenthesis(
                                int_digits(lp.line as int),
                                tok.value@,
                                "["@,
                                lp.value@,
                            ),
                        ),
                        j + 1,
                        pm1,
                    )
                } else {
                    let (br, k0, pm2) = sp_body(
                        t,
                        j + 1,
                        pm1,
                        TokenKind::RPAREN,
                        ctx_body(lp.line as int, name),
                    );
                    match br {
                        Err(e) => (Err(e), k0, pm2),
                        Ok(body) => {
                            let k = adv(j, k0, n);
                            if k >= n {
                                (
                                    Err(
                                        PErrV::MissingParenthesis(
                                            int_digits(lp.line as int),
                                            tok.value@,
                                            "]"@,
                                            "end of input"@,
                                        ),
                                    ),
                                    k,
                                    pm2,
                                )
                            } else if t[k].kind != TokenKind::RPAREN {
                                (
                                    Err(
                                        PErrV::MissingParenthesis(
                                            int_digits(t[k].line as int),
                                            tok.value@,
                                            "]"@,
                                            t[k].value@,
                                        ),
                                    ),
                                    k + 1,
                                    pm2,
                                )
                            } else if tok.kind == TokenKind::IFSTMNT {
                                (
                                    Ok(
                                        AstV::IfStmnt {
                                            condition: Box::new(cond),
                                            body,
                                            line: tok.line as int,
                                        },
                                    ),
                                    k + 1,
                                    pm2,
                                )
                            } else {
                                (
                                    Ok(
                                        AstV::WhileStmnt {
                                            condition: Box::new(cond),
                                            body,
                                            line: tok.line as int,
                                        },
                                    ),
                                    k + 1,
                                    pm2,
                                )
                            }
                        },
                    }
                }
            }
        },
    }
    }
}

/// A statement list running up to (but not consuming) the closing token
/// kind, or to the end of input.  A failure inside is wrapped with `ctx`.
pub open spec fn sp_body(t: Seq<Token>, i: int, pm: PMap, closer: TokenKind, ctx: Seq<char>) -> (
    Result<Seq<AstV>, PErrV>,
    int,
    PMap,
)
    decreases t.len() - i, 2int,
{
    let n = t.len() as int;
    if i < 0 || i >= n {
        (Ok(Seq::empty()), i, pm)
    } else if t[i].kind == closer {
        (Ok(Seq::empty()), i, pm)
    } else {
        let (r1, j0, pm1) = sp_expr(t, i, pm);
        match r1 {
            Err(e) => (Err(wrap_parse_msg(ctx, e)), j0, pm1),
            Ok(v) => {
                let j = adv(i, j0, n);
                let (rest, k, pm2) = sp_body(t, j, pm1, closer, ctx);
                match rest {
                    Err(e) => (Err(e), k, pm2),
                    Ok(vs) => (Ok(seq![v] + vs), k, pm2),
                }
            },
        }
    }
}

/// An ADDASSIGN statement: an identifier token, then a numeric-shaped
/// expression.
pub open spec fn sp_add_assign(t: Seq<Token>, i: int, pm: PMap) -> SpOut
    decreases t.len() - i, 0int,
{
    let n = t.len() as int;
    if i + 1 >= n {
        (Err(PErrV::UnexpectedEnding), i + 1, pm)
    } else {
        let var = t[i + 1];
        if var.kind != TokenKind::IDENT {
            (Err(PErrV::InvalidAddAssign(int_digits(var.line as int), var.value@)), i + 2, pm)
        } else {
            let (r1, j, pm1) = sp_expr(t, i + 2, pm);
            match r1 {
                Err(e) => (
                    Err(wrap_parse_msg(ctx_add_assign(var.line as int, var.value@), e)),
                    j,
                    pm1,
                ),
                Ok(v) => if !vnode_is_numeric(v) {
                    (Err(PErrV::NonNumericExpr(int_digits(var.line as int), var.value@)), j, pm1)
                } else {
                    (
                        Ok(
                            AstV::AddAssign {
                                var_name: var.value@,
                                expr: Box::new(v),
                                line: var.line as int,
                            },
                        ),
                        j,
                        pm1,
                    )
                },
            }
        }
    }
}

/// The consecutive identifier tokens from `i`: a procedure's parameter
/// names, and the position after them.
pub open spec fn sp_params(t: Seq<Token>, i: int) -> (Seq<Seq<char>>, int)
    decreases t.len() - i,
{
    let n = t.len() as int;
    if i < 0 || i >= n || t[i].kind != TokenKind::IDENT {
        (Seq::empty(), i)
    } else {
        let (rest, j) = sp_params(t, i + 1);
        (seq![t[i].value@] + rest, j)
    }
}

/// A procedure definition: TO, the name, the parameters, the body, END.
/// The parameter list is recorded in the table for later call sites.
pub open spec fn sp_procedure(t: Seq<Token>, i: int, pm: PMap) -> SpOut
    decreases t.len() - i, 0int,
{
    let n = t.len() as int;
    if i + 1 >= n {
        (Err(PErrV::UnexpectedEnding), i + 1, pm)
    } else {
        let name = t[i + 1];
        if name.kind != TokenKind::PROCNAME {
            (Err(PErrV::InvalidProcName(int_digits(name.line as int), name.value@)), i + 2, pm)
        } else {
            let (params, j0) = sp_params(t, i + 2);
            let j = adv(i + 1, j0, n);
            let (br, k0, pm1) = sp_body(
                t,
                j,
                pm,
                TokenKind::PROCEND,
                ctx_proc_body(name.line as int, name.value@),
            );
            match br {
                Err(e) => (Err(e), k0, pm1),
                Ok(body) => {
                    let k = adv(i + 1, k0, n);
                    if k >= n {
                        (
                            Err(
                                PErrV::MissingProcEnd(
                                    int_digits(name.line as int),
                                    "end of input"@,
                                ),
                            ),
                            k,
                            pm1,
                        )
                    } else {
                        (
                            Ok(AstV::Procedure { name: name.value@, body }),
                            k + 1,
                            pm1.insert(name.value@, params),
                        )
                    }
                },
            }
        }
    }
}

/// The argument bindings of a procedure call: one expression per parameter
/// in `params` from index `k` on, each becoming a MAKE of the parameter
/// name.
pub open spec fn sp_bindings(
    t: Seq<Token>,
    i: int,
    pm: PMap,
    params: Seq<Seq<char>>,
    k: int,
    line: int,
    name: Seq<char>,
) -> (Result<Seq<AstV>, PErrV>, int, PMap)
    decreases t.len() - i, 2int,
{
    let n = t.len() as int;
    if k < 0 || k >= params.len() {
        (Ok(Seq::empty()), i, pm)
    } else if i >= n {
        (Err(wrap_parse_msg(ctx_proc_arg(line, name), PErrV::UnexpectedEnding)), i, pm)
    } else {
        let (r1, j0, pm1) = sp_expr(t, i, pm);
        match r1 {
            Err(e) => (Err(wrap_parse_msg(ctx_proc_arg(line, name), e)), j0, pm1),
            Ok(v) => {
                let bind = AstV::MakeStmnt { var: params[k], expr: Box::new(v), line };
                let j = adv(i, j0, n);
                let (rest, m, pm2) = sp_bindings(t, j, pm1, params, k + 1, line, name);
                match rest {
                    Err(e) => (Err(e), m, pm2),
                    Ok(vs) => (Ok(seq![bind] + vs), m, pm2),
                }
            },
        }
    }
}

/// A procedure call: the recorded parameter list must exist, and one
/// argument expression is bound per parameter.
pub open spec fn sp_procedure_reference(t: Seq<Token>, i: int, pm: PMap) -> SpOut
    decreases t.len() - i, 0int,
{
    if i < 0 || i >= t.len() {
        (Err(PErrV::UnexpectedEnding), i, pm)
    } else {
    let name = t[i];
    if !pm.contains_key(name.value@) {
        (Err(PErrV::InvalidProcReference(int_digits(name.line as int), name.value@)), i + 1, pm)
    } else {
        let params = pm[name.value@];
        let (br, j, pm1) = sp_bindings(t, i + 1, pm, params, 0, name.line as int, name.value@);
        match br {
            Err(e) => (Err(e), j, pm1),
            Ok(args) => (
                Ok(AstV::ProcedureRef { name_ref: name.value@, args, line: name.line as int }),
                j,
                pm1,
            ),
        }
    }
    }
}

/// A move instruction: a numeric-shaped distance, then nothing else on the
/// line.
pub open spec fn sp_draw_line(t: Seq<Token>, i: int, pm: PMap) -> SpOut
    decreases t.len() - i, 0int,
{
    let n = t.len() as int;
    if i >= n {
        (Err(PErrV::UnexpectedEnding), i, pm)
    } else {
    let tok = t[i];
    let (r1, j0, pm1) = sp_expr(t, i + 1, pm);
    match r1 {
        Err(e) => (Err(wrap_parse_msg(ctx_draw(tok.line as int, tok.value@), e)), j0, pm1),
        Ok(v) => if !vnode_is_numeric(v) {
            (Err(PErrV::NonNumericExpr(int_digits(tok.line as int), tok.value@)), j0, pm1)
        } else {
            let j = adv(i, j0, n);
            let (xr, k) = sp_extra(t, j, tok.line as int);
            match xr {
                Err(e) => (Err(wrap_parse_msg(ctx_extra(tok.value@), e)), k, pm1),
                Ok(_) => if tok.value@ == "FORWARD"@ {
                    (Ok(mk_draw(Direction::FORWARD, v, tok.line as int)), k, pm1)
                } else if tok.value@ == "BACK"@ {
                    (Ok(mk_draw(Direction::BACK, v, tok.line as int)), k, pm1)
                } else if tok.value@ == "LEFT"@ {
                    (Ok(mk_draw(Direction::LEFT, v, tok.line as int)), k, pm1)
                } else if tok.value@ == "RIGHT"@ {
                    (Ok(mk_draw(Direction::RIGHT, v, tok.line as int)), k, pm1)
                } else {
                    (Err(unexpected_token_err(tok)), k, pm1)
                },
            }
        },
    }
    }
}

pub open spec fn mk_draw(d: Direction, v: AstV, line: int) -> AstV {
    AstV::DrawInstruction { direction: d, num_pixels: Box::new(v), line }
}

/// The whole program: statements until the tokens run out.
pub open spec fn sp_parse(t: Seq<Token>, i: int, pm: PMap) -> (Result<Seq<AstV>, PErrV>, int, PMap)
    decreases t.len() - i, 2int,
{
    let n = t.len() as int;
    if i < 0 || i >= n {
        (Ok(Seq::empty()), i, pm)
    } else {
        let (r1, j0, pm1) = sp_expr(t, i, pm);
        match r1 {
            Err(e) => (Err(e), j0, pm1),
            Ok(v) => {
                let j = adv(i, j0, n);
                let (rest, k, pm2) = sp_parse(t, j, pm1);
                match rest {
                    Err(e) => (Err(e), k, pm2),
                    Ok(vs) => (Ok(seq![v] + vs), k, pm2),
                }
            },
        }
    }
}


/// One production's outcome agrees with its spec twin: same tree (up to
/// view) or same error, same resting position, same table, and the
/// position moved right.
pub open spec fn out_ok(
    sp: SpOut,
    r: (Result<AstNode, ParserError>, usize),
    pm2: PMap,
    i: int,
    n: int,
) -> bool {
    &&& match r.0 {
        Ok(node) => sp.0 == Ok::<AstV, PErrV>(ast_view(node)) && r.1 as int == sp.1 && pm2 == sp.2,
        Err(e) => sp.0 == Err::<AstV, PErrV>(perr_view(e)),
    }
    &&& (r.0 is Ok ==> i < r.1 as int <= n)
}

/// The parameter-list table a sequence of recorded entries denotes: a later
/// entry for the same name wins, as insertion does.
pub open spec fn pm_view(m: Seq<(String, Rc<Vec<String>>)>) -> PMap
    decreases m.len(),
{
    if m.len() == 0 {
        Map::empty()
    } else {
        pm_view(m.drop_last()).insert(m.last().0@, m.last().1.deep_view())
    }
}

/// The syntax analyzer.  It consumes tokens strictly left to right and
/// keeps, across calls, the parameter-name list of every procedure it has
/// seen, so later call sites can bind arguments positionally.
pub struct Parser {
    proc_arg_map: Vec<(String, Rc<Vec<String>>)>,
}

impl View for Parser {
    type V = PMap;

    closed spec fn view(&self) -> PMap {
        pm_view(self.proc_arg_map@)
    }
}

impl Default for Parser {
    fn default() -> (r: Self)
        ensures
            r@ == PMap::empty(),
    {
        Self::new()
    }
}

fn pm_lookup_from(m: &Vec<(String, Rc<Vec<String>>)>, name: &str, n: usize) -> (r: Option<
    Rc<Vec<String>>,
>)
    requires
        n <= m@.len(),
    ensures
        match r {
            Some(v) => pm_view(m@.subrange(0, n as int)).contains_key(name@) && v.deep_view()
                == pm_view(m@.subrange(0, n as int))[name@],
            None => !pm_view(m@.subrange(0, n as int)).contains_key(name@),
        },
    decreases n,
{
    if n == 0 {
        proof {
            assert(m@.subrange(0, 0) =~= Seq::<(String, Rc<Vec<String>>)>::empty());
        }
        None
    } else {
        proof {
            assert(m@.subrange(0, n as int).drop_last() =~= m@.subrange(0, n - 1));
            assert(m@.subrange(0, n as int).last() == m@[n - 1]);
        }
        if str_equal(m[n - 1].0.as_str(), name) {
            Some(m[n - 1].1.clone())
        } else {
            pm_lookup_from(m, name, n - 1)
        }
    }
}

impl Parser {
    /// Returns a parser with no procedures recorded yet.
    pub fn new() -> (r: Self)
        ensures
            r@ == PMap::empty(),
    {
        let p = Parser { proc_arg_map: Vec::new() };
        proof {
            assert(p.proc_arg_map@.len() == 0);
        }
        p
    }

    fn pm_lookup(&self, name: &str) -> (r: Option<Rc<Vec<String>>>)
        ensures
            match r {
                Some(v) => self@.contains_key(name@) && v.deep_view() == self@[name@],
                None => !self@.contains_key(name@),
            },
    {
        let n = self.proc_arg_map.len();
        proof {
            assert(self.proc_arg_map@.subrange(0, n as int) =~= self.proc_arg_map@);
        }
        pm_lookup_from(&self.proc_arg_map, name, n)
    }

    fn pm_insert(&mut self, name: String, params: Rc<Vec<String>>)
        ensures
            final(self)@ == old(self)@.insert(name@, params.deep_view()),
    {
        let ghost before = self.proc_arg_map@;
        let ghost gname = name@;
        let ghost gparams = params.deep_view();
        self.proc_arg_map.push((name, params));
        proof {
            assert(self.proc_arg_map@.drop_last() =~= before);
            assert(self.proc_arg_map@.last().0@ == gname);
            assert(self.proc_arg_map@.last().1.deep_view() == gparams);
        }
    }

    /// Parses a token stream into the statement list of a program.
    /// The result is exactly what the spec parser says those tokens mean,
    /// starting from the parameter-list table this parser has accumulated.
    pub fn parse(&mut self, tokens: Vec<Token>) -> (r: Result<Vec<AstNode>, ParserError>)
        ensures
            match r {
                Ok(ast) => sp_parse(tokens@, 0, old(self)@).0 == Ok::<Seq<AstV>, PErrV>(
                    asts_view(ast@),
                ) && final(self)@ == sp_parse(tokens@, 0, old(self)@).2,
                Err(e) => sp_parse(tokens@, 0, old(self)@).0 == Err::<Seq<AstV>, PErrV>(
                    perr_view(e),
                ),
            },
    {
        let r = self.parse_from(&tokens, 0);
        r.0
    }

    fn parse_from(&mut self, t: &Vec<Token>, pos: usize) -> (r: (
        Result<Vec<AstNode>, ParserError>,
        usize,
    ))
        ensures
            match r.0 {
                Ok(ast) => sp_parse(t@, pos as int, old(self)@).0 == Ok::<Seq<AstV>, PErrV>(
                    asts_view(ast@),
                ) && final(self)@ == sp_parse(t@, pos as int, old(self)@).2,
                Err(e) => sp_parse(t@, pos as int, old(self)@).0 == Err::<Seq<AstV>, PErrV>(
                    perr_view(e),
                ),
            },
        decreases t@.len() - pos, 2int,
    {
        let n = t.len();
        if pos >= n {
            proof {
                assert(asts_view(Seq::<AstNode>::empty()) =~= Seq::<AstV>::empty());
            }
            return (Ok(Vec::new()), pos);
        }
        let (r1, j) = self.expr(t, pos);
        match r1 {
            Err(e) => (Err(e), j),
            Ok(node) => {
                proof {
                    assert(adv(pos as int, j as int, t@.len() as int) == j as int);
                }
                let (rest, k) = self.parse_from(t, j);
                match rest {
                    Err(e) => (Err(e), k),
                    Ok(mut vs) => {
                        let ghost tail = vs@;
                        vs.insert(0, node);
                        proof {
                            assert(vs@ =~= seq![node] + tail);
                            lemma_asts_view(vs@);
                            lemma_asts_view(tail);
                            assert forall|i: int|
                                0 <= i < asts_view(vs@).len() implies asts_view(vs@)[i] == (seq![
                                ast_view(node),
                            ] + asts_view(tail))[i] by {
                                if i == 0 {
                                    assert(vs@[0] == node);
                                } else {
                                    assert(vs@[i] == tail[i - 1]);
                                }
                            }
                            assert(asts_view(vs@) =~= seq![ast_view(node)] + asts_view(tail));
                        }
                        (Ok(vs), k)
                    },
                }
            },
        }
    }

    /// Parses one expression or statement, by the kind of the front token.
    fn expr(&mut self, t: &Vec<Token>, pos: usize) -> (r: (Result<AstNode, ParserError>, usize))
        ensures
            out_ok(
                sp_expr(t@, pos as int, old(self)@),
                r,
                final(self)@,
                pos as int,
                t@.len() as int,
            ),
        decreases t@.len() - pos, 1int,
    {
        let n = t.len();
        if pos >= n {
            return (Err(ParserError::UnexpectedEnding), pos);
        }
        match t[pos].kind {
            TokenKind::ARITHOP => self.binary_op(t, pos),
            TokenKind::COMPOP => self.binary_op(t, pos),
            TokenKind::BOOLOP => self.binary_op(t, pos),
            TokenKind::QUERY => self.query(t, pos),
            TokenKind::IDENTREF => self.ident_ref(t, pos),
            TokenKind::MAKEOP => self.make_op(t, pos),
            TokenKind::ADDASSIGN => self.add_assign(t, pos),
            TokenKind::DIRECTION => self.draw_line(t, pos),
            TokenKind::IFSTMNT => self.if_while_statement(t, pos),
            TokenKind::WHILESTMNT => self.if_while_statement(t, pos),
            TokenKind::PENSTATUS => self.pen_status_update(t, pos),
            TokenKind::PENCOLOR => self.pen_color_update(t, pos),
            TokenKind::PENPOS => self.pen_position_update(t, pos),
            TokenKind::PROCSTART => self.procedure(t, pos),
            TokenKind::PROCNAME => self.procedure_reference(t, pos),
            TokenKind::NUM => self.num(t, pos),
            TokenKind::IDENT => self.raw_string(t, pos),
            _ => (
                (
                    Err(unexpected_token_error(&t[pos])),
                    pos,
                )
            ),
        }
    }

    /// Parses a numeric literal token into a number node.
    fn num(&mut self, t: &Vec<Token>, pos: usize) -> (r: (Result<AstNode, ParserError>, usize))
        requires
            pos < t@.len(),
        ensures
            out_ok(
                sp_num(t@, pos as int, old(self)@),
                r,
                final(self)@,
                pos as int,
                t@.len() as int,
            ),
    {
        let n = t.len();
        match parse_numeric_value(t[pos].value.as_str()) {
            Some(b) => (Ok(AstNode::Num(b)), pos + 1),
            None => {
                let mut m = "Invalid numeric literal: ".to_owned();
                m.append(t[pos].value.as_str());
                (Err(ParserError::InvalidToken(int_to_string(t[pos].line), m)), pos + 1)
            },
        }
    }

    /// Parses an identifier reference token.
    fn ident_ref(&mut self, t: &Vec<Token>, pos: usize) -> (r: (
        Result<AstNode, ParserError>,
        usize,
    ))
        requires
            pos < t@.len(),
            t@[pos as int].kind == TokenKind::IDENTREF,
        ensures
            out_ok(
                sp_expr(t@, pos as int, old(self)@),
                r,
                final(self)@,
                pos as int,
                t@.len() as int,
            ),
    {
        let n = t.len();
        (Ok(AstNode::IdentRef(t[pos].value.clone())), pos + 1)
    }

    /// Parses a bare identifier token as a word literal.
    fn raw_string(&mut self, t: &Vec<Token>, pos: usize) -> (r: (
        Result<AstNode, ParserError>,
        usize,
    ))
        requires
            pos < t@.len(),
            t@[pos as int].kind == TokenKind::IDENT,
        ensures
            out_ok(
                sp_expr(t@, pos as int, old(self)@),
                r,
                final(self)@,
                pos as int,
                t@.len() as int,
            ),
    {
        let n = t.len();
        (Ok(AstNode::Word(t[pos].value.clone())), pos + 1)
    }

    /// Parses a query token.
    fn query(&mut self, t: &Vec<Token>, pos: usize) -> (r: (Result<AstNode, ParserError>, usize))
        requires
            pos < t@.len(),
        ensures
            out_ok(
                sp_query(t@, pos as int, old(self)@),
                r,
                final(self)@,
                pos as int,
                t@.len() as int,
            ),
    {
        let n = t.len();
        let v = t[pos].value.as_str();
        if str_equal(v, "XCOR") {
            (Ok(AstNode::Query(QueryKind::XCOR)), pos + 1)
        } else if str_equal(v, "YCOR") {
            (Ok(AstNode::Query(QueryKind::YCOR)), pos + 1)
        } else if str_equal(v, "HEADING") {
            (Ok(AstNode::Query(QueryKind::HEADING)), pos + 1)
        } else if str_equal(v, "COLOR") {
            (Ok(AstNode::Query(QueryKind::COLOR)), pos + 1)
        } else {
            (Err(unexpected_token_error(&t[pos])), pos + 1)
        }
    }

    /// Parses a MAKE statement.
    fn make_op(&mut self, t: &Vec<Token>, pos: usize) -> (r: (Result<AstNode, ParserError>, usize))
        requires
            pos < t@.len(),
        ensures
            out_ok(
                sp_make_op(t@, pos as int, old(self)@),
                r,
                final(self)@,
                pos as int,
                t@.len() as int,
            ),
        decreases t@.len() - pos, 0int,
    {
        let n = t.len();
        if pos + 1 >= n {
            return (Err(ParserError::UnexpectedEnding), pos + 1);
        }
        if t[pos + 1].kind != TokenKind::IDENT {
            let mut m =
                "Invalid MAKE expression. MAKE did not receive a variable, instead receieved: ".to_owned();
            m.append(t[pos + 1].value.as_str());
            m.append(".");
            return (
                (
                    Err(ParserError::IncorrectArgType(int_to_string(t[pos].line), m)),
                    pos + 2,
                )
            );
        }
        let (r1, j) = self.expr(t, pos + 2);
        match r1 {
            Err(e) => (
                (
                    Err(
                        wrap_parse_error(
                            ctx_make_s(t[pos + 1].line, t[pos + 1].value.as_str()),
                            e,
                        ),
                    ),
                    j,
                )
            ),
            Ok(node) => {
                proof {
                    lemma_shape_view(node);
                }
                if !node.is_numeric() && !node.is_boolean() && !node.is_word() {
                    let mut m = "Invalid MAKE statement. ".to_owned();
                    m.append(t[pos + 1].value.as_str());
                    m.append(
                        " received an argument which does not return a float value or a boolean value.",
                    );
                    (
                        Err(ParserError::IncorrectArgType(int_to_string(t[pos + 1].line), m)),
                        j,
                    )
                } else {
                    (
                        Ok(
                            AstNode::MakeStmnt {
                                var: t[pos + 1].value.clone(),
                                expr: Box::new(node),
                                line: t[pos + 1].line,
                            },
                        ),
                        j,
                    )
                }
            },
        }
    }

    /// Parses an arithmetic, comparison or boolean binary expression.
    fn binary_op(&mut self, t: &Vec<Token>, pos: usize) -> (r: (
        Result<AstNode, ParserError>,
        usize,
    ))
        requires
            pos < t@.len(),
        ensures
            out_ok(
                sp_binary_op(t@, pos as int, old(self)@),
                r,
                final(self)@,
                pos as int,
                t@.len() as int,
            ),
        decreases t@.len() - pos, 0int,
    {
        let n = t.len();
        let (r1, j) = self.expr(t, pos + 1);
        let left = match r1 {
            Err(e) => {
                return (
                    (
                        Err(
                            wrap_parse_error(
                                ctx_binop_first_s(t[pos].line, t[pos].value.as_str()),
                                e,
                            ),
                        ),
                        j,
                    )
                );
            },
            Ok(node) => node,
        };
        proof {
            assert(adv(pos + 1, j as int, t@.len() as int) == j as int);
        }
        let (r2, k) = self.expr(t, j);
        let right = match r2 {
            Err(e) => {
                return (
                    (
                        Err(
                            wrap_parse_error(
                                ctx_binop_second_s(t[pos].line, t[pos].value.as_str()),
                                e,
                            ),
                        ),
                        k,
                    )
                );
            },
            Ok(node) => node,
        };
        proof {
            lemma_shape_view(left);
            lemma_shape_view(right);
        }
        let v = t[pos].value.as_str();
        if t[pos].kind == TokenKind::ARITHOP {
            if !left.is_numeric() || !right.is_numeric() {
                return (
                    (
                        Err(
                            ParserError::NonNumericExpr(
                                int_to_string(t[pos].line),
                                t[pos].value.clone(),
                            ),
                        ),
                        k,
                    )
                );
            }
            let operator = if str_equal(v, "+") {
                ArithOp::ADD
            } else if str_equal(v, "-") {
                ArithOp::SUB
            } else if str_equal(v, "*") {
                ArithOp::MUL
            } else if str_equal(v, "/") {
                ArithOp::DIV
            } else {
                return ((Err(unexpected_token_error(&t[pos])), k));
            };
            (
                Ok(
                    AstNode::ArithExpr {
                        operator,
                        left: Box::new(left),
                        right: Box::new(right),
                        line: t[pos].line,
                    },
                ),
                k,
            )
        } else if t[pos].kind == TokenKind::COMPOP {
            if !(left.is_boolean() && left.is_numeric()) && !(right.is_boolean()
                && right.is_numeric()) && (left.is_boolean() != right.is_boolean()
                || left.is_numeric() != right.is_numeric() || left.is_word() != right.is_word()) {
                return (
                    (
                        Err(
                            ParserError::NonBooleanExpr(
                                int_to_string(t[pos].line),
                                t[pos].value.clone(),
                            ),
                        ),
                        k,
                    )
                );
            }
            let operator = if str_equal(v, "EQ") {
                CompOp::EQ
            } else if str_equal(v, "NE") {
                CompOp::NE
            } else if str_equal(v, "LT") {
                CompOp::LT
            } else if str_equal(v, "GT") {
                CompOp::GT
            } else {
                return ((Err(unexpected_token_error(&t[pos])), k));
            };
            (
                Ok(
                    AstNode::CompExpr {
                        operator,
                        left: Box::new(left),
                        right: Box::new(right),
                        line: t[pos].line,
                    },
                ),
                k,
            )
        } else {
            if !left.is_boolean() || !right.is_boolean() {
                return (
                    (
                        Err(
                            ParserError::NonBooleanExpr(
                                int_to_string(t[pos].line),
                                t[pos].value.clone(),
                            ),
                        ),
                        k,
                    )
                );
            }
            let operator = if str_equal(v, "AND") {
                BoolOp::AND
            } else if str_equal(v, "OR") {
                BoolOp::OR
            } else {
                return ((Err(unexpected_token_error(&t[pos])), k));
            };
            (
                Ok(
                    AstNode::BoolExpr {
                        operator,
                        left: Box::new(left),
                        right: Box::new(right),
                        line: t[pos].line,
                    },
                ),
                k,
            )
        }
    }

    /// Parses an ADDASSIGN statement.
    fn add_assign(&mut self, t: &Vec<Token>, pos: usize) -> (r: (
        Result<AstNode, ParserError>,
        usize,
    ))
        requires
            pos < t@.len(),
        ensures
            out_ok(
                sp_add_assign(t@, pos as int, old(self)@),
                r,
                final(self)@,
                pos as int,
                t@.len() as int,
            ),
        decreases t@.len() - pos, 0int,
    {
        let n = t.len();
        if pos + 1 >= n {
            return (Err(ParserError::UnexpectedEnding), pos + 1);
        }
        if t[pos + 1].kind != TokenKind::IDENT {
            return (
                (
                    Err(
                        ParserError::InvalidAddAssign(
                            int_to_string(t[pos + 1].line),
                            t[pos + 1].value.clone(),
                        ),
                    ),
                    pos + 2,
                )
            );
        }
        let (r1, j) = self.expr(t, pos + 2);
        match r1 {
            Err(e) => (
                (
                    Err(
                        wrap_parse_error(
                            ctx_add_assign_s(t[pos + 1].line, t[pos + 1].value.as_str()),
                            e,
                        ),
                    ),
                    j,
                )
            ),
            Ok(node) => {
                proof {
                    lemma_shape_view(node);
                }
                if !node.is_numeric() {
                    (
                        Err(
                            ParserError::NonNumericExpr(
                                int_to_string(t[pos + 1].line),
                                t[pos + 1].value.clone(),
                            ),
                        ),
                        j,
                    )
                } else {
                    (
                        Ok(
                            AstNode::AddAssign {
                                var_name: t[pos + 1].value.clone(),
                                expr: Box::new(node),
                                line: t[pos + 1].line,
                            },
                        ),
                        j,
                    )
                }
            },
        }
    }

    /// Parses a pen position or orientation setter.
    fn pen_position_update(&mut self, t: &Vec<Token>, pos: usize) -> (r: (
        Result<AstNode, ParserError>,
        usize,
    ))
        requires
            pos < t@.len(),
        ensures
            out_ok(
                sp_pen_pos(t@, pos as int, old(self)@),
                r,
                final(self)@,
                pos as int,
                t@.len() as int,
            ),
        decreases t@.len() - pos, 0int,
    {
        let n = t.len();
        let (r1, j) = self.expr(t, pos + 1);
        let val = match r1 {
            Err(e) => {
                return (Err(e), j);
            },
            Ok(node) => node,
        };
        proof {
            assert(adv(pos as int, j as int, t@.len() as int) == j as int);
        }
        let (xr, k) = check_extra_args(t, j, t[pos].line);
        match xr {
            Err(e) => (
                (Err(wrap_parse_error(ctx_extra_s(t[pos].value.as_str()), e)), k)
            ),
            Ok(_) => {
                let v = t[pos].value.as_str();
                let update_type = if str_equal(v, "SETX") {
                    PenPos::SETX
                } else if str_equal(v, "SETY") {
                    PenPos::SETY
                } else if str_equal(v, "TURN") {
                    PenPos::TURN
                } else if str_equal(v, "SETHEADING") {
                    PenPos::SETHEADING
                } else {
                    return ((Err(unexpected_token_error(&t[pos])), k));
                };
                (
                    Ok(
                        AstNode::PenPosUpdate {
                            update_type,
                            value: Box::new(val),
                            line: t[pos].line,
                        },
                    ),
                    k,
                )
            },
        }
    }

    /// Parses PENUP or PENDOWN.
    fn pen_status_update(&mut self, t: &Vec<Token>, pos: usize) -> (r: (
        Result<AstNode, ParserError>,
        usize,
    ))
        requires
            pos < t@.len(),
        ensures
            out_ok(
                sp_pen_status(t@, pos as int, old(self)@),
                r,
                final(self)@,
                pos as int,
                t@.len() as int,
            ),
    {
        let n = t.len();
        let (xr, k) = check_extra_args(t, pos + 1, t[pos].line);
        match xr {
            Err(e) => (
                (Err(wrap_parse_error(ctx_extra_s(t[pos].value.as_str()), e)), k)
            ),
            Ok(_) => {
                let v = t[pos].value.as_str();
                if str_equal(v, "PENUP") {
                    (Ok(AstNode::PenStatusUpdate(false)), k)
                } else if str_equal(v, "PENDOWN") {
                    (Ok(AstNode::PenStatusUpdate(true)), k)
                } else {
                    (Err(unexpected_token_error(&t[pos])), k)
                }
            },
        }
    }

    /// Parses SETPENCOLOR.
    fn pen_color_update(&mut self, t: &Vec<Token>, pos: usize) -> (r: (
        Result<AstNode, ParserError>,
        usize,
    ))
        requires
            pos < t@.len(),
        ensures
            out_ok(
                sp_pen_color(t@, pos as int, old(self)@),
                r,
                final(self)@,
                pos as int,
                t@.len() as int,
            ),
        decreases t@.len() - pos, 0int,
    {
        let n = t.len();
        let (r1, j) = self.expr(t, pos + 1);
        let val = match r1 {
            Err(e) => {
                return (Err(e), j);
            },
            Ok(node) => node,
        };
        proof {
            assert(adv(pos as int, j as int, t@.len() as int) == j as int);
        }
        let (xr, k) = check_extra_args(t, j, t[pos].line);
        match xr {
            Err(e) => (
                (Err(wrap_parse_error(ctx_extra_s(t[pos].value.as_str()), e)), k)
            ),
            Ok(_) => (
                (
                    Ok(AstNode::PenColorUpdate { color: Box::new(val), line: t[pos].line }),
                    k,
                )
            ),
        }
    }

    /// Parses an IF or WHILE statement with its bracketed body.
    fn if_while_statement(&mut self, t: &Vec<Token>, pos: usize) -> (r: (
        Result<AstNode, ParserError>,
        usize,
    ))
        requires
            pos < t@.len(),
        ensures
            out_ok(
                sp_if_while(t@, pos as int, old(self)@),
                r,
                final(self)@,
                pos as int,
                t@.len() as int,
            ),
        decreases t@.len() - pos, 0int,
    {
        let n = t.len();
        let is_if = t[pos].kind == TokenKind::IFSTMNT;
        let name: &str = if is_if {
            "IF"
        } else {
            "WHILE"
        };
        let (r1, j0) = self.expr(t, pos + 1);
        let cond = match r1 {
            Err(e) => {
                return (
                    (Err(wrap_parse_error(ctx_if_while_s(t[pos].line, name), e)), j0)
                );
            },
            Ok(node) => node,
        };
        proof {
            lemma_shape_view(cond);
        }
        if !cond.is_boolean() {
            return (
                (
                    Err(
                        ParserError::NonBooleanExpr(
                            int_to_string(t[pos].line),
                            t[pos].value.clone(),
                        ),
                    ),
                    j0,
                )
            );
        }
        proof {
            assert(adv(pos as int, j0 as int, t@.len() as int) == j0 as int);
        }
        if j0 >= n {
            return (Err(ParserError::UnexpectedEnding), j0);
        }
        if t[j0].kind != TokenKind::LPAREN {
            return (
                (
                    Err(
                        ParserError::MissingParenthesis(
                            int_to_string(t[j0].line),
                            t[pos].value.clone(),
                            "[".to_owned(),
                            t[j0].value.clone(),
                        ),
                    ),
                    j0 + 1,
                )
            );
        }
        let ctx = ctx_body_s(t[j0].line, name);
        let (br, k0) = self.body_until(t, j0 + 1, TokenKind::RPAREN, ctx.as_str());
        let body = match br {
            Err(e) => {
                return (Err(e), k0);
            },
            Ok(vs) => vs,
        };
        proof {
            assert(adv(j0 as int, k0 as int, t@.len() as int) == k0 as int);
        }
        if k0 >= n {
            return (
                (
                    Err(
                        ParserError::MissingParenthesis(
                            int_to_string(t[j0].line),
                            t[pos].value.clone(),
                            "]".to_owned(),
                            "end of input".to_owned(),
                        ),
                    ),
                    k0,
                )
            );
        }
        if t[k0].kind != TokenKind::RPAREN {
            return (
                (
                    Err(
                        ParserError::MissingParenthesis(
                            int_to_string(t[k0].line),
                            t[pos].value.clone(),
                            "]".to_owned(),
                            t[k0].value.clone(),
                        ),
                    ),
                    k0 + 1,
                )
            );
        }
        if is_if {
            (
                Ok(
                    AstNode::IfStmnt {
                        condition: Box::new(cond),
                        body: Rc::new(body),
                        line: t[pos].line,
                    },
                ),
                k0 + 1,
            )
        } else {
            (
                Ok(
                    AstNode::WhileStmnt {
                        condition: Box::new(cond),
                        body: Rc::new(body),
                        line: t[pos].line,
                    },
                ),
                k0 + 1,
            )
        }
    }

    /// Parses statements up to (without consuming) the closing token kind.
    fn body_until(&mut self, t: &Vec<Token>, pos: usize, closer: TokenKind, ctx: &str) -> (r: (
        Result<Vec<AstNode>, ParserError>,
        usize,
    ))
        requires
            pos <= t@.len(),
        ensures
            ({
                let (sr, sk, spm) = sp_body(t@, pos as int, old(self)@, closer, ctx@);
                &&& match r.0 {
                    Ok(vs) => sr == Ok::<Seq<AstV>, PErrV>(asts_view(vs@)) && r.1 as int == sk
                        && final(self)@ == spm,
                    Err(e) => sr == Err::<Seq<AstV>, PErrV>(perr_view(e)),
                }
                &&& (r.0 is Ok ==> pos <= r.1 && r.1 as int <= t@.len())
            }),
        decreases t@.len() - pos, 2int,
    {
        let n = t.len();
        if pos >= n {
            proof {
                assert(asts_view(Seq::<AstNode>::empty()) =~= Seq::<AstV>::empty());
            }
            return (Ok(Vec::new()), pos);
        }
        if t[pos].kind == closer {
            proof {
                assert(asts_view(Seq::<AstNode>::empty()) =~= Seq::<AstV>::empty());
            }
            return (Ok(Vec::new()), pos);
        }
        let (r1, j) = self.expr(t, pos);
        match r1 {
            Err(e) => (Err(wrap_parse_error(ctx.to_owned(), e)), j),
            Ok(node) => {
                proof {
                    assert(adv(pos as int, j as int, t@.len() as int) == j as int);
                }
                let (rest, k) = self.body_until(t, j, closer, ctx);
                match rest {
                    Err(e) => (Err(e), k),
                    Ok(mut vs) => {
                        let ghost tail = vs@;
                        vs.insert(0, node);
                        proof {
                            assert(vs@ =~= seq![node] + tail);
                            lemma_asts_view(vs@);
                            lemma_asts_view(tail);
                            assert forall|i: int|
                                0 <= i < asts_view(vs@).len() implies asts_view(vs@)[i] == (seq![
                                ast_view(node),
                            ] + asts_view(tail))[i] by {
                                if i == 0 {
                                    assert(vs@[0] == node);
                                } else {
                                    assert(vs@[i] == tail[i - 1]);
                                }
                            }
                            assert(asts_view(vs@) =~= seq![ast_view(node)] + asts_view(tail));
                        }
                        (Ok(vs), k)
                    },
                }
            },
        }
    }

    /// Parses a procedure definition and records its parameter list.
    pub fn procedure(&mut self, t: &Vec<Token>, pos: usize) -> (r: (
        Result<AstNode, ParserError>,
        usize,
    ))
        requires
            pos < t@.len(),
        ensures
            out_ok(
                sp_procedure(t@, pos as int, old(self)@),
                r,
                final(self)@,
                pos as int,
                t@.len() as int,
            ),
        decreases t@.len() - pos, 0int,
    {
        let n = t.len();
        if pos + 1 >= n {
            return (Err(ParserError::UnexpectedEnding), pos + 1);
        }
        if t[pos + 1].kind != TokenKind::PROCNAME {
            return (
                (
                    Err(
                        ParserError::InvalidProcName(
                            int_to_string(t[pos + 1].line),
                            t[pos + 1].value.clone(),
                        ),
                    ),
                    pos + 2,
                )
            );
        }
        let (params, j0) = collect_params(t, pos + 2);
        proof {
            assert(adv(pos + 1, j0 as int, t@.len() as int) == j0 as int);
        }
        let ctx = ctx_proc_body_s(t[pos + 1].line, t[pos + 1].value.as_str());
        let (br, k0) = self.body_until(t, j0, TokenKind::PROCEND, ctx.as_str());
        let body = match br {
            Err(e) => {
                return (Err(e), k0);
            },
            Ok(vs) => vs,
        };
        proof {
            assert(adv(pos + 1, k0 as int, t@.len() as int) == k0 as int);
        }
        if k0 >= n {
            return (
                (
                    Err(
                        ParserError::MissingProcEnd(
                            int_to_string(t[pos + 1].line),
                            "end of input".to_owned(),
                        ),
                    ),
                    k0,
                )
            );
        }
        self.pm_insert(t[pos + 1].value.clone(), Rc::new(params));
        (
            Ok(AstNode::Procedure { name: t[pos + 1].value.clone(), body: Rc::new(body) }),
            k0 + 1,
        )
    }

    /// Parses a procedure call, binding one argument per recorded
    /// parameter.
    pub fn procedure_reference(&mut self, t: &Vec<Token>, pos: usize) -> (r: (
        Result<AstNode, ParserError>,
        usize,
    ))
        requires
            pos < t@.len(),
        ensures
            out_ok(
                sp_procedure_reference(t@, pos as int, old(self)@),
                r,
                final(self)@,
                pos as int,
                t@.len() as int,
            ),
        decreases t@.len() - pos, 0int,
    {
        let n = t.len();
        let params = match self.pm_lookup(t[pos].value.as_str()) {
            None => {
                return (
                    (
                        Err(
                            ParserError::InvalidProcReference(
                                int_to_string(t[pos].line),
                                t[pos].value.clone(),
                            ),
                        ),
                        pos + 1,
                    )
                );
            },
            Some(p) => p,
        };
        let params_ref: &Vec<String> = &*params;
        let (br, j) = self.bindings(t, pos + 1, params_ref, 0, t[pos].line, t[pos].value.as_str());
        match br {
            Err(e) => (Err(e), j),
            Ok(args) => (
                (
                    Ok(
                        AstNode::ProcedureRef {
                            name_ref: t[pos].value.clone(),
                            args: Rc::new(args),
                            line: t[pos].line,
                        },
                    ),
                    j,
                )
            ),
        }
    }

    /// Parses the argument bindings of a procedure call from parameter `k`
    /// on.
    fn bindings(
        &mut self,
        t: &Vec<Token>,
        pos: usize,
        params: &Vec<String>,
        k: usize,
        line: i32,
        pname: &str,
    ) -> (r: (Result<Vec<AstNode>, ParserError>, usize))
        requires
            k <= params@.len(),
            pos <= t@.len(),
        ensures
            ({
                let (sr, sj, spm) = sp_bindings(
                    t@,
                    pos as int,
                    old(self)@,
                    params.deep_view(),
                    k as int,
                    line as int,
                    pname@,
                );
                &&& match r.0 {
                    Ok(vs) => sr == Ok::<Seq<AstV>, PErrV>(asts_view(vs@)) && r.1 as int == sj
                        && final(self)@ == spm,
                    Err(e) => sr == Err::<Seq<AstV>, PErrV>(perr_view(e)),
                }
                &&& (r.0 is Ok ==> pos <= r.1 && r.1 as int <= t@.len())
            }),
        decreases t@.len() - pos, 2int,
    {
        let n = t.len();
        if k >= params.len() {
            proof {
                assert(asts_view(Seq::<AstNode>::empty()) =~= Seq::<AstV>::empty());
            }
            return (Ok(Vec::new()), pos);
        }
        if pos >= n {
            return (
                (
                    Err(
                        wrap_parse_error(
                            ctx_proc_arg_s(line, pname),
                            ParserError::UnexpectedEnding,
                        ),
                    ),
                    pos,
                )
            );
        }
        let (r1, j) = self.expr(t, pos);
        match r1 {
            Err(e) => (Err(wrap_parse_error(ctx_proc_arg_s(line, pname), e)), j),
            Ok(node) => {
                let bind = AstNode::MakeStmnt {
                    var: params[k].clone(),
                    expr: Box::new(node),
                    line,
                };
                proof {
                    assert(adv(pos as int, j as int, t@.len() as int) == j as int);
                }
                let (rest, m) = self.bindings(t, j, params, k + 1, line, pname);
                match rest {
                    Err(e) => (Err(e), m),
                    Ok(mut vs) => {
                        let ghost tail = vs@;
                        vs.insert(0, bind);
                        proof {
                            assert(vs@ =~= seq![bind] + tail);
                            lemma_asts_view(vs@);
                            lemma_asts_view(tail);
                            assert(params.deep_view()[k as int] == params@[k as int]@);
                            assert forall|i: int|
                                0 <= i < asts_view(vs@).len() implies asts_view(vs@)[i] == (seq![
                                ast_view(bind),
                            ] + asts_view(tail))[i] by {
                                if i == 0 {
                                    assert(vs@[0] == bind);
                                } else {
                                    assert(vs@[i] == tail[i - 1]);
                                }
                            }
                            assert(asts_view(vs@) =~= seq![ast_view(bind)] + asts_view(tail));
                        }
                        (Ok(vs), m)
                    },
                }
            },
        }
    }

    /// Parses a move instruction.
    fn draw_line(&mut self, t: &Vec<Token>, pos: usize) -> (r: (
        Result<AstNode, ParserError>,
        usize,
    ))
        requires
            pos < t@.len(),
        ensures
            out_ok(
                sp_draw_line(t@, pos as int, old(self)@),
                r,
                final(self)@,
                pos as int,
                t@.len() as int,
            ),
        decreases t@.len() - pos, 0int,
    {
        let n = t.len();
        let (r1, j) = self.expr(t, pos + 1);
        let val = match r1 {
            Err(e) => {
                return (
                    (
                        Err(
                            wrap_parse_error(
                                ctx_draw_s(t[pos].line, t[pos].value.as_str()),
                                e,
                            ),
                        ),
                        j,
                    )
                );
            },
            Ok(node) => node,
        };
        proof {
            lemma_shape_view(val);
        }
        if !val.is_numeric() {
            return (
                (
                    Err(
                        ParserError::NonNumericExpr(
                            int_to_string(t[pos].line),
                            t[pos].value.clone(),
                        ),
                    ),
                    j,
                )
            );
        }
        proof {
            assert(adv(pos as int, j as int, t@.len() as int) == j as int);
        }
        let (xr, k) = check_extra_args(t, j, t[pos].line);
        match xr {
            Err(e) => (
                (Err(wrap_parse_error(ctx_extra_s(t[pos].value.as_str()), e)), k)
            ),
            Ok(_) => {
                let v = t[pos].value.as_str();
                let direction = if str_equal(v, "FORWARD") {
                    Direction::FORWARD
                } else if str_equal(v, "BACK") {
                    Direction::BACK
                } else if str_equal(v, "LEFT") {
                    Direction::LEFT
                } else if str_equal(v, "RIGHT") {
                    Direction::RIGHT
                } else {
                    return ((Err(unexpected_token_error(&t[pos])), k));
                };
                (
                    Ok(
                        AstNode::DrawInstruction {
                            direction,
                            num_pixels: Box::new(val),
                            line: t[pos].line,
                        },
                    ),
                    k,
                )
            },
        }
    }
}

/// Collects the consecutive identifier tokens from `pos`: a procedure's
/// parameter names.
fn collect_params(t: &Vec<Token>, pos: usize) -> (r: (Vec<String>, usize))
    requires
        pos <= t@.len(),
    ensures
        r.0.deep_view() == sp_params(t@, pos as int).0,
        r.1 as int == sp_params(t@, pos as int).1,
        pos <= r.1 <= t@.len(),
    decreases t@.len() - pos,
{
    let n = t.len();
    if pos >= n || t[pos].kind != TokenKind::IDENT {
        let empty: Vec<String> = Vec::new();
        proof {
            assert(empty.deep_view() =~= Seq::<Seq<char>>::empty());
        }
        return (empty, pos);
    }
    let (rest, j) = collect_params(t, pos + 1);
    let ghost tail = rest.deep_view();
    let ghost tailv = rest@;
    let mut vs = rest;
    vs.insert(0, t[pos].value.clone());
    proof {
        assert(vs.deep_view() =~= seq![t@[pos as int].value@] + tail) by {
            assert(vs@.len() == tailv.len() + 1);
            assert forall|i: int| 0 <= i < vs@.len() implies vs.deep_view()[i] == (seq![
                t@[pos as int].value@,
            ] + tail)[i] by {
                assert(vs.deep_view()[i] == vs@[i].deep_view());
                if i > 0 {
                    assert(vs@[i] == tailv[i - 1]);
                    assert(tail[i - 1] == tailv[i - 1].deep_view());
                }
            }
        }
    }
    (vs, j)
}

/// The extra-argument sweep: collects the text of the extra tokens on
/// `line`, quoted and comma-joined.
fn extra_text(t: &Vec<Token>, pos: usize, line: i32) -> (r: (String, usize, bool))
    requires
        pos <= t@.len(),
    ensures
        (r.0@, r.1 as int, r.2) == sp_extra_text(t@, pos as int, line as int),
        pos <= r.1 <= t@.len(),
    decreases t@.len() - pos,
{
    let n = t.len();
    if pos >= n || t[pos].line != line {
        let s = String::new();
        proof {
            assert(s@ =~= Seq::<char>::empty());
        }
        return (s, pos, false);
    }
    let (rest, j, any) = extra_text(t, pos + 1, line);
    let mut cur = "\"".to_owned();
    cur.append(t[pos].value.as_str());
    cur.append("\"");
    if any {
        cur.append(", ");
        cur.append(rest.as_str());
    }
    (cur, j, true)
}

/// Returns an error when a statement's line holds tokens beyond what it
/// expects, naming them all.
fn check_extra_args(t: &Vec<Token>, pos: usize, line: i32) -> (r: (
    Result<(), ParserError>,
    usize,
))
    requires
        pos <= t@.len(),
    ensures
        ({
            let (sr, sk) = sp_extra(t@, pos as int, line as int);
            &&& match r.0 {
                Ok(u) => sr is Ok && r.1 as int == sk,
                Err(e) => sr == Err::<(), PErrV>(perr_view(e)) && r.1 as int == sk,
            }
            &&& pos <= r.1 <= t@.len()
        }),
{
    let (txt, j, any) = extra_text(t, pos, line);
    if any {
        (Err(ParserError::ExtraArguments(int_to_string(line), txt)), j)
    } else {
        (Ok(()), j)
    }
}

// Executable builders for the context lines.
fn ctx_make_s(l: i32, var: &str) -> (r: String)
    ensures
        r@ == ctx_make(l as int, var@),
{
    let mut s = "\t[Line ".to_owned();
    s.append(int_to_string(l).as_str());
    s.append("]: Invalid MAKE operation: Failed to parse expression provided to '");
    s.append(var);
    s.append("'");
    s
}

fn ctx_binop_first_s(l: i32, op: &str) -> (r: String)
    ensures
        r@ == ctx_binop_first(l as int, op@),
{
    let mut s = "[Line".to_owned();
    s.append(int_to_string(l).as_str());
    s.append("]: The first argument to binary operator '");
    s.append(op);
    s.append("' is invalid.");
    s
}

fn ctx_binop_second_s(l: i32, op: &str) -> (r: String)
    ensures
        r@ == ctx_binop_second(l as int, op@),
{
    let mut s = "[Line".to_owned();
    s.append(int_to_string(l).as_str());
    s.append("]: The second argument to binary operator '");
    s.append(op);
    s.append("' is invalid");
    s
}

fn ctx_extra_s(v: &str) -> (r: String)
    ensures
        r@ == ctx_extra(v@),
{
    let mut s = "Error parsing '".to_owned();
    s.append(v);
    s.append("' expression");
    s
}

fn ctx_if_while_s(l: i32, name: &str) -> (r: String)
    ensures
        r@ == ctx_if_while(l as int, name@),
{
    let mut s = "\t[Line ".to_owned();
    s.append(int_to_string(l).as_str());
    s.append("]: Invalid ");
    s.append(name);
    s.append(" statement: Failed to parse expression provided to ");
    s.append(name);
    s
}

fn ctx_body_s(l: i32, name: &str) -> (r: String)
    ensures
        r@ == ctx_body(l as int, name@),
{
    let mut s = "\t[Line ".to_owned();
    s.append(int_to_string(l).as_str());
    s.append("]: Invalid expression found within ");
    s.append(name);
    s.append(" statement body.");
    s
}

fn ctx_add_assign_s(l: i32, var: &str) -> (r: String)
    ensures
        r@ == ctx_add_assign(l as int, var@),
{
    let mut s = "\t[Line ".to_owned();
    s.append(int_to_string(l).as_str());
    s.append("]: Invalid ADDASSIGN operation: Failed to parse expression provided to '");
    s.append(var);
    s.append("'");
    s
}

fn ctx_proc_body_s(l: i32, name: &str) -> (r: String)
    ensures
        r@ == ctx_proc_body(l as int, name@),
{
    let mut s = "\t[Line ".to_owned();
    s.append(int_to_string(l).as_str());
    s.append("]: Invalid expression found within Procedure ");
    s.append(name);
    s.append("'s body.");
    s
}

fn ctx_proc_arg_s(l: i32, name: &str) -> (r: String)
    ensures
        r@ == ctx_proc_arg(l as int, name@),
{
    let mut s = "\t[Line ".to_owned();
    s.append(int_to_string(l).as_str());
    s.append("]: Invalid argument provided to procedure '");
    s.append(name);
    s.append("'\n");
    s
}

fn ctx_draw_s(l: i32, dir: &str) -> (r: String)
    ensures
        r@ == ctx_draw(l as int, dir@),
{
    let mut s = "\t[Line ".to_owned();
    s.append(int_to_string(l).as_str());
    s.append("]: Invalid argument to ");
    s.append(dir);
    s.append("\n");
    s
}


/// Builds the error for a token no statement position accepts.
fn unexpected_token_error(tok: &Token) -> (r: ParserError)
    ensures
        perr_view(r) == unexpected_token_err(*tok),
{
    let mut m = "Unexpected token: ".to_owned();
    m.append(tok.value.as_str());
    ParserError::InvalidToken(int_to_string(tok.line), m)
}

} // verus!
