//! Error types for every stage of the pipeline, with spec-level views used
//! by the contracts of the parser and the interpreter.

use vstd::prelude::*;

verus! {

/// The image file extension was not one the program can write.
#[derive(Debug)]
pub enum ImgFileError {
    UnsupportedFileExtension,
}

impl ImgFileError {
    /// The rendered text of this error.
    pub fn message(&self) -> (r: String)
        ensures
            r@ == "Provided image file extension is not supported, could not save image. Please use .svg or .png"@,
    {
        "Provided image file extension is not supported, could not save image. Please use .svg or .png".to_owned()
    }
}

/// The type of operating-system I/O failures, taken from std so that the
/// unverified reading layer can hand its failures through unchanged.
#[verifier::external_type_specification]
#[verifier::external_body]
pub struct ExIoError(std::io::Error);

/// Failures while turning raw text into tokens.
#[derive(Debug)]
pub enum LexerError {
    /// The input held a word that is no token of the language.
    InvalidTokenError(String),
    /// Reading the input failed.
    IoError(std::io::Error),
}

/// Syntactic failures discovered while building the tree.
///
/// Payload strings hold the 1-based source line (rendered in decimal) and a
/// short description, mirroring how each error site reports itself.
#[derive(Debug, PartialEq)]
pub enum ParserError {
    /// Wraps an inner error with one line of context from the enclosing
    /// construct.
    ParseError(String),
    UnexpectedEnding,
    NonNumericExpr(String, String),
    NonBooleanExpr(String, String),
    IncorrectArgType(String, String),
    InvalidToken(String, String),
    MissingParenthesis(String, String, String, String),
    InvalidAddAssign(String, String),
    InvalidProcName(String, String),
    MissingProcEnd(String, String),
    InvalidProcReference(String, String),
    /// A statement received more arguments on its line than it expects.
    ExtraArguments(String, String),
}

/// Spec-level image of [`ParserError`]: the same variants over character
/// sequences.
pub enum PErrV {
    ParseError(Seq<char>),
    UnexpectedEnding,
    NonNumericExpr(Seq<char>, Seq<char>),
    NonBooleanExpr(Seq<char>, Seq<char>),
    IncorrectArgType(Seq<char>, Seq<char>),
    InvalidToken(Seq<char>, Seq<char>),
    MissingParenthesis(Seq<char>, Seq<char>, Seq<char>, Seq<char>),
    InvalidAddAssign(Seq<char>, Seq<char>),
    InvalidProcName(Seq<char>, Seq<char>),
    MissingProcEnd(Seq<char>, Seq<char>),
    InvalidProcReference(Seq<char>, Seq<char>),
    ExtraArguments(Seq<char>, Seq<char>),
}

/// The view of a parser error: each payload string as its character
/// sequence.
pub open spec fn perr_view(e: ParserError) -> PErrV {
    match e {
        ParserError::ParseError(a) => PErrV::ParseError(a@),
        ParserError::UnexpectedEnding => PErrV::UnexpectedEnding,
        ParserError::NonNumericExpr(a, b) => PErrV::NonNumericExpr(a@, b@),
        ParserError::NonBooleanExpr(a, b) => PErrV::NonBooleanExpr(a@, b@),
        ParserError::IncorrectArgType(a, b) => PErrV::IncorrectArgType(a@, b@),
        ParserError::InvalidToken(a, b) => PErrV::InvalidToken(a@, b@),
        ParserError::MissingParenthesis(a, b, c, d) => PErrV::MissingParenthesis(a@, b@, c@, d@),
        ParserError::InvalidAddAssign(a, b) => PErrV::InvalidAddAssign(a@, b@),
        ParserError::InvalidProcName(a, b) => PErrV::InvalidProcName(a@, b@),
        ParserError::MissingProcEnd(a, b) => PErrV::MissingProcEnd(a@, b@),
        ParserError::InvalidProcReference(a, b) => PErrV::InvalidProcReference(a@, b@),
        ParserError::ExtraArguments(a, b) => PErrV::ExtraArguments(a@, b@),
    }
}

/// The rendered text of a parser error.
pub open spec fn perr_msg(e: PErrV) -> Seq<char> {
    match e {
        PErrV::ParseError(a) => a,
        PErrV::UnexpectedEnding => "Unexpected ending  while parsing program.\n"@,
        PErrV::NonNumericExpr(l, op) => "\t[Line "@ + l + "]: Arguments to '"@ + op
            + "' will not return a float. You must provide arguments which return a number\n"@,
        PErrV::NonBooleanExpr(l, op) => "\t[Line "@ + l + "]: Arguments to '"@ + op
            + "' will not return a boolean. You must provide arguments which return TRUE or FALSE\n"@,
        PErrV::IncorrectArgType(l, m) => "[Line "@ + l + "]: "@ + m + "\n"@,
        PErrV::InvalidToken(l, m) => "[Line "@ + l + "]: "@ + m + "\n"@,
        PErrV::MissingParenthesis(l, s, e, f) => "[Line "@ + l + "]: "@ + s
            + " statement is missing parenthesis: expected "@ + e + ", received "@ + f + ".\n"@,
        PErrV::InvalidAddAssign(l, v) => "[Line"@ + l
            + "]: Invalid ADDASSIGN operation. Expected identifier, received "@ + v + ".\n"@,
        PErrV::InvalidProcName(l, n) => "[Line "@ + l
            + "]: Invalid procedure name: Keywords and variables must not be used as procedure names, received: "@
            + n + ".\n"@,
        PErrV::MissingProcEnd(l, n) => "[Line "@ + l + "]: Invalid procedure: Expected END, received: "@
            + n + ".\n"@,
        PErrV::InvalidProcReference(l, n) => "[Line"@ + l + "]: Invalid procedure reference: "@ + n
            + " does not exist.\n"@,
        PErrV::ExtraArguments(l, a) => "[Line "@ + l + "]: Extra arguments provided: "@ + a + "\n"@,
    }
}

/// Wrapping an inner parser error with one line of context: the error
/// becomes a `ParseError` holding the context, a line break, and the inner
/// error's text.
pub open spec fn wrap_parse_msg(ctx: Seq<char>, inner: PErrV) -> PErrV {
    PErrV::ParseError(ctx + "\n"@ + perr_msg(inner))
}

impl ParserError {
    /// The rendered text of this error.
    pub fn message(&self) -> (r: String)
        ensures
            r@ == perr_msg(perr_view(*self)),
    {
        match self {
            ParserError::ParseError(a) => a.clone(),
            ParserError::UnexpectedEnding => "Unexpected ending  while parsing program.\n".to_owned(),
            ParserError::NonNumericExpr(l, op) => {
                let mut s = "\t[Line ".to_owned();
                s.append(l.as_str());
                s.append("]: Arguments to '");
                s.append(op.as_str());
                s.append("' will not return a float. You must provide arguments which return a number\n");
                s
            },
            ParserError::NonBooleanExpr(l, op) => {
                let mut s = "\t[Line ".to_owned();
                s.append(l.as_str());
                s.append("]: Arguments to '");
                s.append(op.as_str());
                s.append("' will not return a boolean. You must provide arguments which return TRUE or FALSE\n");
                s
            },
            ParserError::IncorrectArgType(l, m) => {
                let mut s = "[Line ".to_owned();
                s.append(l.as_str());
                s.append("]: ");
                s.append(m.as_str());
                s.append("\n");
                s
            },
            ParserError::InvalidToken(l, m) => {
                let mut s = "[Line ".to_owned();
                s.append(l.as_str());
                s.append("]: ");
                s.append(m.as_str());
                s.append("\n");
                s
            },
            ParserError::MissingParenthesis(l, st, e, f) => {
                let mut s = "[Line ".to_owned();
                s.append(l.as_str());
                s.append("]: ");
                s.append(st.as_str());
                s.append(" statement is missing parenthesis: expected ");
                s.append(e.as_str());
                s.append(", received ");
                s.append(f.as_str());
                s.append(".\n");
                s
            },
            ParserError::InvalidAddAssign(l, v) => {
                let mut s = "[Line".to_owned();
                s.append(l.as_str());
                s.append("]: Invalid ADDASSIGN operation. Expected identifier, received ");
                s.append(v.as_str());
                s.append(".\n");
                s
            },
            ParserError::InvalidProcName(l, n) => {
                let mut s = "[Line ".to_owned();
                s.append(l.as_str());
                s.append(
                    "]: Invalid procedure name: Keywords and variables must not be used as procedure names, received: ",
                );
                s.append(n.as_str());
                s.append(".\n");
                s
            },
            ParserError::MissingProcEnd(l, n) => {
                let mut s = "[Line ".to_owned();
                s.append(l.as_str());
                s.append("]: Invalid procedure: Expected END, received: ");
                s.append(n.as_str());
                s.append(".\n");
                s
            },
            ParserError::InvalidProcReference(l, n) => {
                let mut s = "[Line".to_owned();
                s.append(l.as_str());
                s.append("]: Invalid procedure reference: ");
                s.append(n.as_str());
                s.append(" does not exist.\n");
                s
            },
            ParserError::ExtraArguments(l, a) => {
                let mut s = "[Line ".to_owned();
                s.append(l.as_str());
                s.append("]: Extra arguments provided: ");
                s.append(a.as_str());
                s.append("\n");
                s
            },
        }
    }
}

/// Wraps `inner` with one line of context, as each enclosing construct of
/// the parser does on the way out.
pub fn wrap_parse_error(ctx: String, inner: ParserError) -> (r: ParserError)
    ensures
        perr_view(r) == wrap_parse_msg(ctx@, perr_view(inner)),
{
    let mut s = ctx;
    s.append("\n");
    s.append(inner.message().as_str());
    ParserError::ParseError(s)
}

/// Semantic failures discovered while the tree runs.
#[derive(Debug, PartialEq)]
pub enum InterpreterError {
    /// Wraps an inner error with one line of context from the enclosing
    /// construct.
    InterpError(String),
    TypeError(String),
    InvalidVariableRef(String),
    DrawLineError(String, String),
    InvalidPenColor(String),
    InvalidProcedureRef(String),
}

/// Spec-level image of [`InterpreterError`].
pub enum IErrV {
    InterpError(Seq<char>),
    TypeError(Seq<char>),
    InvalidVariableRef(Seq<char>),
    DrawLineError(Seq<char>, Seq<char>),
    InvalidPenColor(Seq<char>),
    InvalidProcedureRef(Seq<char>),
}

/// The view of an interpreter error.
pub open spec fn ierr_view(e: InterpreterError) -> IErrV {
    match e {
        InterpreterError::InterpError(a) => IErrV::InterpError(a@),
        InterpreterError::TypeError(a) => IErrV::TypeError(a@),
        InterpreterError::InvalidVariableRef(a) => IErrV::InvalidVariableRef(a@),
        InterpreterError::DrawLineError(a, b) => IErrV::DrawLineError(a@, b@),
        InterpreterError::InvalidPenColor(a) => IErrV::InvalidPenColor(a@),
        InterpreterError::InvalidProcedureRef(a) => IErrV::InvalidProcedureRef(a@),
    }
}

/// The rendered text of an interpreter error.
pub open spec fn ierr_msg(e: IErrV) -> Seq<char> {
    match e {
        IErrV::InterpError(a) => a,
        IErrV::TypeError(a) => "["@ + a,
        IErrV::InvalidVariableRef(a) => a,
        IErrV::DrawLineError(a, b) => a + " "@ + b,
        IErrV::InvalidPenColor(a) => a + " is not a valid color. Enter an integer between 0 and 15."@,
        IErrV::InvalidProcedureRef(a) => a,
    }
}

/// Wrapping an inner interpreter error with one line of context.
pub open spec fn wrap_interp_msg(ctx: Seq<char>, inner: IErrV) -> IErrV {
    IErrV::InterpError(ctx + "\n"@ + ierr_msg(inner))
}

impl InterpreterError {
    /// The rendered text of this error.
    pub fn message(&self) -> (r: String)
        ensures
            r@ == ierr_msg(ierr_view(*self)),
    {
        match self {
            InterpreterError::InterpError(a) => a.clone(),
            InterpreterError::TypeError(a) => {
                let mut s = "[".to_owned();
                s.append(a.as_str());
                s
            },
            InterpreterError::InvalidVariableRef(a) => a.clone(),
            InterpreterError::DrawLineError(a, b) => {
                let mut s = a.clone();
                s.append(" ");
                s.append(b.as_str());
                s
            },
            InterpreterError::InvalidPenColor(a) => {
                let mut s = a.clone();
                s.append(" is not a valid color. Enter an integer between 0 and 15.");
                s
            },
            InterpreterError::InvalidProcedureRef(a) => a.clone(),
        }
    }
}

/// Wraps `inner` with one line of context, as each enclosing construct of
/// the interpreter does on the way out.
pub fn wrap_interp_error(ctx: String, inner: InterpreterError) -> (r: InterpreterError)
    ensures
        ierr_view(r) == wrap_interp_msg(ctx@, ierr_view(inner)),
{
    let mut s = ctx;
    s.append("\n");
    s.append(inner.message().as_str());
    InterpreterError::InterpError(s)
}

} // verus!
