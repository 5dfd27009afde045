//! The error taxonomy: one tier per phase, composed into `LispError`.
use vstd::prelude::*;

verus! {

/// Failures of tokenizing source text.
#[derive(Debug, Clone, PartialEq)]
pub enum LexError {
    UnexpectedChar(char),
    UnterminatedString,
    InvalidToken(String),
}

/// Failures of building a value tree from tokens.
#[derive(Debug, Clone, PartialEq)]
pub enum ParseError {
    UnexpectedToken(String),
    UnexpectedEOF,
    InvalidSyntax(String),
}

/// Failures of evaluation.
#[derive(Debug, Clone, PartialEq)]
pub enum EvalError {
    UnboundSymbol(String),
    TypeError(String),
    ArgumentError(String),
    EvalPanic(String),
}

/// The mathematical model of an evaluation failure.
pub enum Fault {
    UnboundSymbol(Seq<char>),
    TypeError(Seq<char>),
    ArgumentError(Seq<char>),
    EvalPanic(Seq<char>),
}

impl EvalError {
    pub open spec fn view(&self) -> Fault {
        match self {
            EvalError::UnboundSymbol(s) => Fault::UnboundSymbol(s@),
            EvalError::TypeError(s) => Fault::TypeError(s@),
            EvalError::ArgumentError(s) => Fault::ArgumentError(s@),
            EvalError::EvalPanic(s) => Fault::EvalPanic(s@),
        }
    }
}

/// Any failure of the lex, parse and evaluate pipeline.
#[derive(Debug, Clone, PartialEq)]
pub enum LispError {
    Lex(LexError),
    Parse(ParseError),
    Eval(EvalError),
}

/// The text `Name(payload)`.
pub open spec fn tagged(name: Seq<char>, payload: Seq<char>) -> Seq<char> {
    name + seq!['('] + payload + seq![')']
}

/// The quoted, escaped form in which text is shown in error details.
pub uninterp spec fn debug_str(s: Seq<char>) -> Seq<char>;

/// The quoted, escaped form in which a character is shown in error details.
pub uninterp spec fn debug_char(c: char) -> Seq<char>;

/// Printable ASCII that needs no escape inside double quotes.
pub open spec fn plain_text(s: Seq<char>) -> bool {
    forall|i: int|
        0 <= i < s.len() ==> ' ' <= #[trigger] s[i] <= '~' && s[i] != '"' && s[i] != '\\'
}

/// Printable ASCII that needs no escape inside single quotes.
pub open spec fn plain_char(c: char) -> bool {
    ' ' <= c <= '~' && c != '\'' && c != '\\'
}

/// Relies on `str`'s `Debug` (through `format!`): the text in double quotes,
/// escaped; printable ASCII other than `"` and `\` stands for itself.
#[verifier::external_body]
fn quoted_text(s: &str) -> (r: String)
    ensures
        r@ == debug_str(s@),
        plain_text(s@) ==> r@ == seq!['"'] + s@ + seq!['"'],
{
    format!("{:?}", s)
}

/// Relies on `char`'s `Debug` (through `format!`): the character in single
/// quotes, escaped; printable ASCII other than `'` and `\` stands for itself.
#[verifier::external_body]
fn quoted_char(c: char) -> (r: String)
    ensures
        r@ == debug_char(c),
        plain_char(c) ==> r@ == seq!['\'', c, '\''],
{
    format!("{:?}", c)
}

pub open spec fn lex_error_text(e: LexError) -> Seq<char> {
    match e {
        LexError::UnexpectedChar(c) => tagged("UnexpectedChar"@, debug_char(c)),
        LexError::UnterminatedString => "UnterminatedString"@,
        LexError::InvalidToken(t) => tagged("InvalidToken"@, debug_str(t@)),
    }
}

pub open spec fn parse_error_text(e: ParseError) -> Seq<char> {
    match e {
        ParseError::UnexpectedToken(t) => tagged("UnexpectedToken"@, debug_str(t@)),
        ParseError::UnexpectedEOF => "UnexpectedEOF"@,
        ParseError::InvalidSyntax(t) => tagged("InvalidSyntax"@, debug_str(t@)),
    }
}

pub open spec fn fault_text(e: Fault) -> Seq<char> {
    match e {
        Fault::UnboundSymbol(t) => tagged("UnboundSymbol"@, debug_str(t)),
        Fault::TypeError(t) => tagged("TypeError"@, debug_str(t)),
        Fault::ArgumentError(t) => tagged("ArgumentError"@, debug_str(t)),
        Fault::EvalPanic(t) => tagged("EvalPanic"@, debug_str(t)),
    }
}

/// The details of the inner error, in the form `Kind("payload")`.
pub open spec fn inner_text(e: LispError) -> Seq<char> {
    match e {
        LispError::Lex(x) => lex_error_text(x),
        LispError::Parse(x) => parse_error_text(x),
        LispError::Eval(x) => fault_text(x@),
    }
}

/// The text of a failure: `Lexer error: `, `Parser error: ` or `Eval error: `,
/// then the details.
pub open spec fn error_text(e: LispError) -> Seq<char> {
    match e {
        LispError::Lex(_) => "Lexer error: "@ + inner_text(e),
        LispError::Parse(_) => "Parser error: "@ + inner_text(e),
        LispError::Eval(_) => "Eval error: "@ + inner_text(e),
    }
}

/// The line the read-loop shows for a failure: `<Phase> error: <details>`.
pub open spec fn loop_line_text(e: LispError) -> Seq<char> {
    match e {
        LispError::Lex(_) => "Lex error: "@ + inner_text(e),
        LispError::Parse(_) => "Parse error: "@ + inner_text(e),
        LispError::Eval(_) => "Eval error: "@ + inner_text(e),
    }
}

fn tagged_text(name: &str, payload: &str) -> (r: String)
    ensures
        r@ == tagged(name@, payload@),
{
    let mut out = String::from_str(name);
    proof {
        reveal_strlit("(");
        reveal_strlit(")");
    }
    out.append("(");
    out.append(payload);
    out.append(")");
    assert(out@ =~= tagged(name@, payload@));
    out
}

fn tagged_quoted(name: &str, payload: &str) -> (r: String)
    ensures
        r@ == tagged(name@, debug_str(payload@)),
{
    let q = quoted_text(payload);
    tagged_text(name, q.as_str())
}

impl EvalError {
    /// The details of the failure, `Kind("message")`.
    pub fn describe(&self) -> (r: String)
        ensures
            r@ == fault_text(self@),
    {
        match self {
            EvalError::UnboundSymbol(t) => tagged_quoted("UnboundSymbol", t.as_str()),
            EvalError::TypeError(t) => tagged_quoted("TypeError", t.as_str()),
            EvalError::ArgumentError(t) => tagged_quoted("ArgumentError", t.as_str()),
            EvalError::EvalPanic(t) => tagged_quoted("EvalPanic", t.as_str()),
        }
    }
}

impl LispError {
    /// The details of the inner error, `Kind("payload")`.
    pub fn details(&self) -> (r: String)
        ensures
            r@ == inner_text(*self),
    {
        match self {
            LispError::Lex(x) => match x {
                LexError::UnexpectedChar(c) => {
                    let q = quoted_char(*c);
                    tagged_text("UnexpectedChar", q.as_str())
                },
                LexError::UnterminatedString => String::from_str("UnterminatedString"),
                LexError::InvalidToken(t) => tagged_quoted("InvalidToken", t.as_str()),
            },
            LispError::Parse(x) => match x {
                ParseError::UnexpectedToken(t) => tagged_quoted("UnexpectedToken", t.as_str()),
                ParseError::UnexpectedEOF => String::from_str("UnexpectedEOF"),
                ParseError::InvalidSyntax(t) => tagged_quoted("InvalidSyntax", t.as_str()),
            },
            LispError::Eval(x) => x.describe(),
        }
    }

    /// The text of this failure: `Lexer error: `, `Parser error: ` or
    /// `Eval error: `, then the details.
    pub fn to_display(&self) -> (r: String)
        ensures
            r@ == error_text(*self),
    {
        let mut out = match self {
            LispError::Lex(_) => String::from_str("Lexer error: "),
            LispError::Parse(_) => String::from_str("Parser error: "),
            LispError::Eval(_) => String::from_str("Eval error: "),
        };
        let d = self.details();
        out.append(d.as_str());
        out
    }

    /// The line the read-loop shows for this failure: `Lex error: `,
    /// `Parse error: ` or `Eval error: `, then the details.
    pub fn loop_line(&self) -> (r: String)
        ensures
            r@ == loop_line_text(*self),
    {
        let mut out = match self {
            LispError::Lex(_) => String::from_str("Lex error: "),
            LispError::Parse(_) => String::from_str("Parse error: "),
            LispError::Eval(_) => String::from_str("Eval error: "),
        };
        let d = self.details();
        out.append(d.as_str());
        out
    }
}

} // verus!
