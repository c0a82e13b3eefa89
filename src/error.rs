use vstd::prelude::*;
use vstd::string::StringExecFns;

verus! {

/// The construct that a parser expected where it failed.
#[derive(Clone, Copy, Debug, PartialEq, Eq, Structural)]
pub enum Expected {
    LocationKeyword,
    NodeKeyword,
    AttrsKeyword,
    WhereKeyword,
    ImplKeyword,
    Ident,
    Type,
    Expr,
    Equals,
    Colon,
    Semicolon,
    Comma,
    Bar,
    Arrow,
    FatArrow,
    Generics,
    OpenBrace,
    EndOfInput,
}

/// A parse failure: the index of the offending token in the flattened input
/// (the input's length at its end) and what was expected there.
#[derive(Clone, Copy, Debug, PartialEq, Eq, Structural)]
pub struct SyntaxError {
    pub pos: usize,
    pub expected: Expected,
}

pub open spec fn fail<V>(pos: int, expected: Expected) -> Result<V, SyntaxError> {
    Err(SyntaxError { pos: pos as usize, expected })
}

/// The diagnostic text for each expected construct.
pub open spec fn message_of(e: Expected) -> Seq<char> {
    match e {
        Expected::LocationKeyword => "expected `location`"@,
        Expected::NodeKeyword => "expected `node`"@,
        Expected::AttrsKeyword => "expected `attrs`"@,
        Expected::WhereKeyword => "expected `where`"@,
        Expected::ImplKeyword => "expected `impl`"@,
        Expected::Ident => "expected identifier"@,
        Expected::Type => "expected type"@,
        Expected::Expr => "expected expression"@,
        Expected::Equals => "expected `=`"@,
        Expected::Colon => "expected `:`"@,
        Expected::Semicolon => "expected `;`"@,
        Expected::Comma => "expected `,`"@,
        Expected::Bar => "expected `|`"@,
        Expected::Arrow => "expected `->`"@,
        Expected::FatArrow => "expected `=>`"@,
        Expected::Generics => "expected generic parameters"@,
        Expected::OpenBrace => "expected `{`"@,
        Expected::EndOfInput => "unexpected token"@,
    }
}

impl SyntaxError {
    /// A short message for the diagnostic.
    pub fn message(&self) -> (r: String)
        ensures
            r@ == message_of(self.expected),
    {
        let s = match self.expected {
            Expected::LocationKeyword => "expected `location`",
            Expected::NodeKeyword => "expected `node`",
            Expected::AttrsKeyword => "expected `attrs`",
            Expected::WhereKeyword => "expected `where`",
            Expected::ImplKeyword => "expected `impl`",
            Expected::Ident => "expected identifier",
            Expected::Type => "expected type",
            Expected::Expr => "expected expression",
            Expected::Equals => "expected `=`",
            Expected::Colon => "expected `:`",
            Expected::Semicolon => "expected `;`",
            Expected::Comma => "expected `,`",
            Expected::Bar => "expected `|`",
            Expected::Arrow => "expected `->`",
            Expected::FatArrow => "expected `=>`",
            Expected::Generics => "expected generic parameters",
            Expected::OpenBrace => "expected `{`",
            Expected::EndOfInput => "unexpected token",
        };
        String::from_str(s)
    }
}

} // verus!
