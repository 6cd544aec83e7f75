//! The token tape that `jomini` makes of a document's bytes.

use vstd::prelude::*;

verus! {

/// One token of a tape, with the variants of `jomini::TextToken`.
///
/// `end` is the index of the `End` token that closes a container; the index
/// in an `End` token is that of the container it closes. An operator is held
/// by its symbol.
pub enum Token {
    Array { end: usize, mixed: bool },
    Object { end: usize, mixed: bool },
    MixedContainer,
    Unquoted(Seq<u8>),
    Quoted(Seq<u8>),
    Parameter(Seq<u8>),
    UndefinedParameter(Seq<u8>),
    Operator(Seq<char>),
    End(usize),
    Header(Seq<u8>),
}

/// The kind of a token and, for a container or its end, where its other end
/// lies.
#[derive(Debug, Clone, Copy, PartialEq, Eq)]
pub enum Shape {
    Array { end: usize, mixed: bool },
    Object { end: usize, mixed: bool },
    MixedContainer,
    Unquoted,
    Quoted,
    Parameter,
    UndefinedParameter,
    Operator,
    End(usize),
    Header,
}

impl Token {
    /// The token without the text it carries.
    pub open spec fn shape(self) -> Shape {
        match self {
            Token::Array { end, mixed } => Shape::Array { end, mixed },
            Token::Object { end, mixed } => Shape::Object { end, mixed },
            Token::MixedContainer => Shape::MixedContainer,
            Token::Unquoted(_) => Shape::Unquoted,
            Token::Quoted(_) => Shape::Quoted,
            Token::Parameter(_) => Shape::Parameter,
            Token::UndefinedParameter(_) => Shape::UndefinedParameter,
            Token::Operator(_) => Shape::Operator,
            Token::End(start) => Shape::End(start),
            Token::Header(_) => Shape::Header,
        }
    }

    /// The bytes of a token that carries a scalar.
    pub open spec fn scalar(self) -> Option<Seq<u8>> {
        match self {
            Token::Unquoted(bytes) => Some(bytes),
            Token::Quoted(bytes) => Some(bytes),
            Token::Parameter(bytes) => Some(bytes),
            Token::UndefinedParameter(bytes) => Some(bytes),
            Token::Header(bytes) => Some(bytes),
            _ => None,
        }
    }

    /// The symbol of an operator token.
    pub open spec fn symbol(self) -> Option<Seq<char>> {
        match self {
            Token::Operator(symbol) => Some(symbol),
            _ => None,
        }
    }
}

/// `jomini::TextTape`: the tokens of one parsed document.
#[verifier::external_type_specification]
#[verifier::external_body]
pub struct ExTextTape<'a>(jomini::TextTape<'a>);

/// The tokens that a tape holds, in order.
pub uninterp spec fn tape_tokens(tape: &jomini::TextTape<'_>) -> Seq<Token>;

/// What `jomini::TextTape::from_slice` makes of a document: its tokens, or
/// the message of the error that it reports.
pub uninterp spec fn tape_of(data: Seq<u8>) -> Result<Seq<Token>, Seq<char>>;

/// Calls `jomini::TextTape::from_slice`. The tape holds the tokens that
/// [`tape_of`] names for these bytes; where the parser refuses them, the
/// result is the text of its error.
#[verifier::external_body]
pub(crate) fn parse_tape<'a>(data: &'a [u8]) -> (r: Result<jomini::TextTape<'a>, String>)
    ensures
        match r {
            Ok(tape) => tape_of(data@) == Ok::<Seq<Token>, Seq<char>>(tape_tokens(&tape)),
            Err(message) => tape_of(data@) == Err::<Seq<Token>, Seq<char>>(message@),
        },
{
    jomini::TextTape::from_slice(data).map_err(|e| e.to_string())
}

/// Calls `jomini::TextTape::tokens` for the number of tokens.
#[verifier::external_body]
pub(crate) fn tape_len(tape: &jomini::TextTape<'_>) -> (r: usize)
    ensures
        r == tape_tokens(tape).len(),
{
    tape.tokens().len()
}

/// Reads the token at `index` from `jomini::TextTape::tokens` and tells its
/// variant, with the indices that a container or an `End` holds.
#[verifier::external_body]
pub(crate) fn tape_shape(tape: &jomini::TextTape<'_>, index: usize) -> (r: Shape)
    requires
        index < tape_tokens(tape).len(),
    ensures
        r == tape_tokens(tape)[index as int].shape(),
{
    match &tape.tokens()[index] {
        jomini::TextToken::Array { end, mixed } => Shape::Array { end: *end, mixed: *mixed },
        jomini::TextToken::Object { end, mixed } => Shape::Object { end: *end, mixed: *mixed },
        jomini::TextToken::MixedContainer => Shape::MixedContainer,
        jomini::TextToken::Unquoted(_) => Shape::Unquoted,
        jomini::TextToken::Quoted(_) => Shape::Quoted,
        jomini::TextToken::Parameter(_) => Shape::Parameter,
        jomini::TextToken::UndefinedParameter(_) => Shape::UndefinedParameter,
        jomini::TextToken::Operator(_) => Shape::Operator,
        jomini::TextToken::End(start) => Shape::End(*start),
        jomini::TextToken::Header(_) => Shape::Header,
    }
}

/// Calls `jomini::TextToken::as_scalar` on the token at `index`: the bytes of
/// a quoted or unquoted scalar, a parameter or a header, and nothing for any
/// other token.
#[verifier::external_body]
pub(crate) fn tape_scalar(tape: &jomini::TextTape<'_>, index: usize) -> (r: Option<Vec<u8>>)
    requires
        index < tape_tokens(tape).len(),
    ensures
        match r {
            Some(bytes) => tape_tokens(tape)[index as int].scalar() == Some(bytes@),
            None => tape_tokens(tape)[index as int].scalar() is None,
        },
{
    tape.tokens()[index].as_scalar().map(|s| s.as_bytes().to_vec())
}

/// Calls `jomini::text::Operator::symbol` on an operator token at `index`;
/// nothing for any other token.
#[verifier::external_body]
pub(crate) fn tape_operator(tape: &jomini::TextTape<'_>, index: usize) -> (r: Option<String>)
    requires
        index < tape_tokens(tape).len(),
    ensures
        match r {
            Some(symbol) => tape_tokens(tape)[index as int].symbol() == Some(symbol@),
            None => tape_tokens(tape)[index as int].symbol() is None,
        },
{
    match &tape.tokens()[index] {
        jomini::TextToken::Operator(op) => Some(op.symbol().to_string()),
        _ => None,
    }
}

} // verus!
