//! The abstract syntax tree the parser builds and the evaluator walks.

use vstd::prelude::*;
use std::rc::Rc;

verus! {

/// Arithmetic operators.
#[derive(Debug, PartialEq, Eq, Structural, Clone, Copy)]
pub enum ArithOp {
    ADD,
    SUB,
    MUL,
    DIV,
}

/// Comparison operators.
#[derive(Debug, PartialEq, Eq, Structural, Clone, Copy)]
pub enum CompOp {
    EQ,
    NE,
    LT,
    GT,
}

/// Boolean operators.
#[derive(Debug, PartialEq, Eq, Structural, Clone, Copy)]
pub enum BoolOp {
    AND,
    OR,
}

/// Drawing directions, relative to the turtle's heading.
#[derive(Debug, PartialEq, Eq, Structural, Clone, Copy)]
pub enum Direction {
    FORWARD,
    BACK,
    RIGHT,
    LEFT,
}

/// The four pen position and orientation setters.
#[derive(Debug, PartialEq, Eq, Structural, Clone, Copy)]
pub enum PenPos {
    SETX,
    SETY,
    SETHEADING,
    TURN,
}

/// The four state queries.
#[derive(Debug, PartialEq, Eq, Structural, Clone, Copy)]
pub enum QueryKind {
    XCOR,
    YCOR,
    HEADING,
    COLOR,
}

/// One node of the tree.  `line` is the 0-based source line of the token
/// that began the construct.  Statement bodies are shared, so a procedure
/// call can read its body while the tree stays intact.
#[derive(Debug)]
pub enum AstNode {
    /// A MAKE statement binding `var` to the value of `expr`.
    MakeStmnt { var: String, expr: Box<AstNode>, line: i32 },
    /// An arithmetic expression over two numeric operands.
    ArithExpr { operator: ArithOp, left: Box<AstNode>, right: Box<AstNode>, line: i32 },
    /// A comparison expression.
    CompExpr { operator: CompOp, left: Box<AstNode>, right: Box<AstNode>, line: i32 },
    /// A boolean expression over two boolean operands.
    BoolExpr { operator: BoolOp, left: Box<AstNode>, right: Box<AstNode>, line: i32 },
    /// A reference to the value bound to an identifier.
    IdentRef(String),
    /// An ADDASSIGN statement adding a number to an existing binding.
    AddAssign { var_name: String, expr: Box<AstNode>, line: i32 },
    /// An identifier that stands alone.
    Ident { var_name: String, line: i32 },
    /// A numeric literal, as the bit pattern of an IEEE single.
    Num(u32),
    /// An IF statement: a boolean condition and a body.
    IfStmnt { condition: Box<AstNode>, body: Rc<Vec<AstNode>>, line: i32 },
    /// A WHILE statement: a boolean condition and a body.
    WhileStmnt { condition: Box<AstNode>, body: Rc<Vec<AstNode>>, line: i32 },
    /// PENUP (false) or PENDOWN (true).
    PenStatusUpdate(bool),
    /// SETPENCOLOR with its numeric argument.
    PenColorUpdate { color: Box<AstNode>, line: i32 },
    /// SETX, SETY, SETHEADING or TURN with its numeric argument.
    PenPosUpdate { update_type: PenPos, value: Box<AstNode>, line: i32 },
    /// A state query.
    Query(QueryKind),
    /// A procedure definition: the body is stored under the name when the
    /// statement runs.
    Procedure { name: String, body: Rc<Vec<AstNode>> },
    /// A procedure call: `args` holds one synthesized MAKE statement per
    /// parameter, run before the stored body.
    ProcedureRef { name_ref: String, args: Rc<Vec<AstNode>>, line: i32 },
    /// A move of the turtle in a direction by a numeric distance.
    DrawInstruction { direction: Direction, num_pixels: Box<AstNode>, line: i32 },
    /// A bare word: a string literal.
    Word(String),
}

/// Spec-level image of [`AstNode`]: the same tree over character sequences,
/// with bodies as sequences.  The parser's contracts state which of these
/// trees a token stream yields.
pub enum AstV {
    MakeStmnt { var: Seq<char>, expr: Box<AstV>, line: int },
    ArithExpr { operator: ArithOp, left: Box<AstV>, right: Box<AstV>, line: int },
    CompExpr { operator: CompOp, left: Box<AstV>, right: Box<AstV>, line: int },
    BoolExpr { operator: BoolOp, left: Box<AstV>, right: Box<AstV>, line: int },
    IdentRef(Seq<char>),
    AddAssign { var_name: Seq<char>, expr: Box<AstV>, line: int },
    Ident { var_name: Seq<char>, line: int },
    Num(u32),
    IfStmnt { condition: Box<AstV>, body: Seq<AstV>, line: int },
    WhileStmnt { condition: Box<AstV>, body: Seq<AstV>, line: int },
    PenStatusUpdate(bool),
    PenColorUpdate { color: Box<AstV>, line: int },
    PenPosUpdate { update_type: PenPos, value: Box<AstV>, line: int },
    Query(QueryKind),
    Procedure { name: Seq<char>, body: Seq<AstV> },
    ProcedureRef { name_ref: Seq<char>, args: Seq<AstV>, line: int },
    DrawInstruction { direction: Direction, num_pixels: Box<AstV>, line: int },
    Word(Seq<char>),
}

/// The spec-level image of a node.
pub open spec fn ast_view(n: AstNode) -> AstV
    decreases n,
{
    match n {
        AstNode::MakeStmnt { var, expr, line } => AstV::MakeStmnt {
            var: var@,
            expr: Box::new(ast_view(*expr)),
            line: line as int,
        },
        AstNode::ArithExpr { operator, left, right, line } => AstV::ArithExpr {
            operator,
            left: Box::new(ast_view(*left)),
            right: Box::new(ast_view(*right)),
            line: line as int,
        },
        AstNode::CompExpr { operator, left, right, line } => AstV::CompExpr {
            operator,
            left: Box::new(ast_view(*left)),
            right: Box::new(ast_view(*right)),
            line: line as int,
        },
        AstNode::BoolExpr { operator, left, right, line } => AstV::BoolExpr {
            operator,
            left: Box::new(ast_view(*left)),
            right: Box::new(ast_view(*right)),
            line: line as int,
        },
        AstNode::IdentRef(s) => AstV::IdentRef(s@),
        AstNode::AddAssign { var_name, expr, line } => AstV::AddAssign {
            var_name: var_name@,
            expr: Box::new(ast_view(*expr)),
            line: line as int,
        },
        AstNode::Ident { var_name, line } => AstV::Ident {
            var_name: var_name@,
            line: line as int,
        },
        AstNode::Num(b) => AstV::Num(b),
        AstNode::IfStmnt { condition, body, line } => AstV::IfStmnt {
            condition: Box::new(ast_view(*condition)),
            body: asts_view(body@),
            line: line as int,
        },
        AstNode::WhileStmnt { condition, body, line } => AstV::WhileStmnt {
            condition: Box::new(ast_view(*condition)),
            body: asts_view(body@),
            line: line as int,
        },
        AstNode::PenStatusUpdate(b) => AstV::PenStatusUpdate(b),
        AstNode::PenColorUpdate { color, line } => AstV::PenColorUpdate {
            color: Box::new(ast_view(*color)),
            line: line as int,
        },
        AstNode::PenPosUpdate { update_type, value, line } => AstV::PenPosUpdate {
            update_type,
            value: Box::new(ast_view(*value)),
            line: line as int,
        },
        AstNode::Query(q) => AstV::Query(q),
        AstNode::Procedure { name, body } => AstV::Procedure {
            name: name@,
            body: asts_view(body@),
        },
        AstNode::ProcedureRef { name_ref, args, line } => AstV::ProcedureRef {
            name_ref: name_ref@,
            args: asts_view(args@),
            line: line as int,
        },
        AstNode::DrawInstruction { direction, num_pixels, line } => AstV::DrawInstruction {
            direction,
            num_pixels: Box::new(ast_view(*num_pixels)),
            line: line as int,
        },
        AstNode::Word(s) => AstV::Word(s@),
    }
}

/// The spec-level image of a statement list, element by element.
pub open spec fn asts_view(s: Seq<AstNode>) -> Seq<AstV>
    decreases s,
{
    if s.len() == 0 {
        Seq::empty()
    } else {
        asts_view(s.subrange(0, s.len() - 1)).push(ast_view(s[s.len() - 1]))
    }
}

/// `asts_view` maps the list element by element: it keeps the length and
/// views each position.
pub proof fn lemma_asts_view(s: Seq<AstNode>)
    ensures
        asts_view(s).len() == s.len(),
        forall|i: int| 0 <= i < s.len() ==> asts_view(s)[i] == ast_view(#[trigger] s[i]),
    decreases s,
{
    if s.len() > 0 {
        lemma_asts_view(s.subrange(0, s.len() - 1));
        assert forall|i: int| 0 <= i < s.len() implies asts_view(s)[i] == ast_view(
            #[trigger] s[i],
        ) by {
            if i < s.len() - 1 {
                assert(s.subrange(0, s.len() - 1)[i] == s[i]);
            }
        }
    }
}

/// A numeric-shaped node: one whose evaluation may yield a number.
pub open spec fn node_is_numeric(n: AstNode) -> bool {
    n matches AstNode::Num(_) || n matches AstNode::ArithExpr { .. } || n matches AstNode::Query(_)
        || n matches AstNode::IdentRef(_)
}

/// A boolean-shaped node: one whose evaluation may yield a truth value.
pub open spec fn node_is_boolean(n: AstNode) -> bool {
    n matches AstNode::CompExpr { .. } || n matches AstNode::BoolExpr { .. }
        || n matches AstNode::IdentRef(_)
}

/// A word-shaped node: one whose evaluation may yield a word.
pub open spec fn node_is_word(n: AstNode) -> bool {
    n matches AstNode::Word(_) || n matches AstNode::IdentRef(_)
}

/// The syntactic shape classification of nodes: numeric-, boolean- or
/// word-shaped.  An identifier reference is provisionally all three; the
/// evaluator settles its real type at run time.
pub trait NodeType {
    fn is_numeric(&self) -> bool {
        false
    }

    fn is_boolean(&self) -> bool {
        false
    }

    fn is_word(&self) -> bool {
        false
    }
}

impl NodeType for AstNode {
    fn is_numeric(&self) -> (r: bool)
        ensures
            r == node_is_numeric(*self),
    {
        match self {
            AstNode::Num(_) => true,
            AstNode::ArithExpr { .. } => true,
            AstNode::Query(_) => true,
            AstNode::IdentRef(_) => true,
            _ => false,
        }
    }

    fn is_boolean(&self) -> (r: bool)
        ensures
            r == node_is_boolean(*self),
    {
        match self {
            AstNode::CompExpr { .. } => true,
            AstNode::BoolExpr { .. } => true,
            AstNode::IdentRef(_) => true,
            _ => false,
        }
    }

    fn is_word(&self) -> (r: bool)
        ensures
            r == node_is_word(*self),
    {
        match self {
            AstNode::Word(_) => true,
            AstNode::IdentRef(_) => true,
            _ => false,
        }
    }
}

} // verus!
