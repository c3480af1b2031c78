//! The grammar of the module attribute's arguments: `daemon = <bool>`.
use vstd::prelude::*;
use crate::text::str_eq;

verus! {

/// One token of the attribute's argument stream, as the compiler hands it over.
pub enum ArgToken {
    /// An identifier or keyword, by its text.
    Ident(String),
    /// A single punctuation character.
    Punct(char),
    /// A literal, by its source text.
    Literal(String),
    /// A delimited group of tokens.
    Group,
}

/// The parsed arguments of the module attribute.
pub struct CallbackArgs {
    pub daemon: bool,
}

/// Why the attribute's arguments do not parse.
#[derive(Debug, Clone, Copy, PartialEq, Eq, Structural)]
pub enum ArgsError {
    /// The first token is not the keyword `daemon`.
    ExpectedDaemon,
    /// The keyword is not followed by `=`.
    ExpectedEq,
    /// The `=` is not followed by `true` or `false`.
    ExpectedBool,
    /// Tokens remain after the boolean.
    UnexpectedToken,
}

/// The token is the identifier with the given text.
pub open spec fn is_ident(t: ArgToken, name: Seq<char>) -> bool {
    match t {
        ArgToken::Ident(s) => s@ == name,
        _ => false,
    }
}

/// The token is the punctuation character `c`.
pub open spec fn is_punct(t: ArgToken, c: char) -> bool {
    match t {
        ArgToken::Punct(p) => p == c,
        _ => false,
    }
}

/// What parsing the arguments from the start of the tokens gives: the keyword
/// `daemon`, then `=`, then the boolean literal `true` or `false`. Tokens after
/// these three are not read.
pub open spec fn spec_parse_callback_args(toks: Seq<ArgToken>) -> Result<bool, ArgsError> {
    if !(toks.len() >= 1 && is_ident(toks[0], "daemon"@)) {
        Err(ArgsError::ExpectedDaemon)
    } else if !(toks.len() >= 2 && is_punct(toks[1], '=')) {
        Err(ArgsError::ExpectedEq)
    } else if !(toks.len() >= 3 && (is_ident(toks[2], "true"@) || is_ident(toks[2], "false"@))) {
        Err(ArgsError::ExpectedBool)
    } else {
        Ok(is_ident(toks[2], "true"@))
    }
}

/// What parsing the whole argument stream of the attribute gives: the
/// arguments, and then nothing more.
pub open spec fn spec_parse_attribute_args(toks: Seq<ArgToken>) -> Result<bool, ArgsError> {
    match spec_parse_callback_args(toks) {
        Err(e) => Err(e),
        Ok(d) => if toks.len() > 3 {
            Err(ArgsError::UnexpectedToken)
        } else {
            Ok(d)
        },
    }
}

fn token_is_ident(t: &ArgToken, name: &str) -> (res: bool)
    ensures
        res == is_ident(*t, name@),
{
    match t {
        ArgToken::Ident(s) => str_eq(s.as_str(), name),
        _ => false,
    }
}

fn token_is_punct(t: &ArgToken, c: char) -> (res: bool)
    ensures
        res == is_punct(*t, c),
{
    match t {
        ArgToken::Punct(p) => *p == c,
        _ => false,
    }
}

impl CallbackArgs {
    /// Parses the attribute's arguments, `daemon = true` or `daemon = false`,
    /// from the start of the tokens. On success it has read exactly the first
    /// three tokens; what follows is left to the caller.
    pub fn parse(toks: &Vec<ArgToken>) -> (res: Result<CallbackArgs, ArgsError>)
        ensures
            match spec_parse_callback_args(toks@) {
                Ok(d) => res matches Ok(a) && a.daemon == d,
                Err(e) => res matches Err(e2) && e2 == e,
            },
    {
        if !(toks.len() >= 1 && token_is_ident(&toks[0], "daemon")) {
            return Err(ArgsError::ExpectedDaemon);
        }
        if !(toks.len() >= 2 && token_is_punct(&toks[1], '=')) {
            return Err(ArgsError::ExpectedEq);
        }
        if toks.len() < 3 {
            return Err(ArgsError::ExpectedBool);
        }
        let is_true = token_is_ident(&toks[2], "true");
        let is_false = token_is_ident(&toks[2], "false");
        if !(is_true || is_false) {
            return Err(ArgsError::ExpectedBool);
        }
        Ok(CallbackArgs { daemon: is_true })
    }
}

/// Parses the attribute's whole argument stream: the arguments, refusing any
/// token left after them.
pub fn parse_attribute_args(toks: &Vec<ArgToken>) -> (res: Result<CallbackArgs, ArgsError>)
    ensures
        match spec_parse_attribute_args(toks@) {
            Ok(d) => res matches Ok(a) && a.daemon == d,
            Err(e) => res matches Err(e2) && e2 == e,
        },
{
    let args = CallbackArgs::parse(toks)?;
    if toks.len() > 3 {
        return Err(ArgsError::UnexpectedToken);
    }
    Ok(args)
}

} // verus!
