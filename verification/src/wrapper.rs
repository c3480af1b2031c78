//! The return-value wrappers: how the value a mod function returns is handed
//! back to the game, and the expression that does it.
use vstd::prelude::*;
use crate::text::str_eq;

verus! {

/// The return types that a mod function may have, each with its own way back
/// to the game.
#[derive(Debug, Clone, Copy, PartialEq, Eq, Structural)]
pub enum ReturnKind {
    /// `bool`, returned as the integer 1 or 0.
    Bool,
    /// `*const c_char`, returned as a string.
    CharPtr,
    /// `c_float`.
    Float,
    /// `c_int`.
    Int,
    /// `idVec3`, returned as a vector.
    Vec3,
    /// `idEntity`.
    Entity,
}

/// The return kind registered under a type's name, if any.
pub open spec fn spec_return_kind_named(name: Seq<char>) -> Option<ReturnKind> {
    if name == "bool"@ {
        Some(ReturnKind::Bool)
    } else if name == "*const c_char"@ {
        Some(ReturnKind::CharPtr)
    } else if name == "c_float"@ {
        Some(ReturnKind::Float)
    } else if name == "c_int"@ {
        Some(ReturnKind::Int)
    } else if name == "idVec3"@ {
        Some(ReturnKind::Vec3)
    } else if name == "idEntity"@ {
        Some(ReturnKind::Entity)
    } else {
        None
    }
}

/// The text that stands before the returned value in the wrapping expression.
pub open spec fn spec_wrapper_prefix(kind: ReturnKind) -> Seq<char> {
    match kind {
        ReturnKind::Bool => "(TRM_SYSTEM.lock().unwrap().return_functions.as_ref().unwrap().return_int)(if "@,
        ReturnKind::CharPtr => "(TRM_SYSTEM.lock().unwrap().return_functions.as_ref().unwrap().return_string)("@,
        ReturnKind::Float => "(TRM_SYSTEM.lock().unwrap().return_functions.as_ref().unwrap().return_float)("@,
        ReturnKind::Int => "(TRM_SYSTEM.lock().unwrap().return_functions.as_ref().unwrap().return_int)("@,
        ReturnKind::Vec3 => "(TRM_SYSTEM.lock().unwrap().return_functions.as_ref().unwrap().return_vector)("@,
        ReturnKind::Entity => "(TRM_SYSTEM.lock().unwrap().return_functions.as_ref().unwrap().return_entity(("@,
    }
}

/// The text that stands after the returned value in the wrapping expression.
pub open spec fn spec_wrapper_suffix(kind: ReturnKind) -> Seq<char> {
    match kind {
        ReturnKind::Bool => " { 1 } else { 0 })"@,
        _ => ")"@,
    }
}

/// The source of the expression that hands the local `result` back to the game.
pub open spec fn spec_wrapper_source(kind: ReturnKind) -> Seq<char> {
    spec_wrapper_prefix(kind) + "result"@ + spec_wrapper_suffix(kind)
}

/// Looks up the return kind registered under a type's name.
pub fn return_kind_named(name: &str) -> (res: Option<ReturnKind>)
    ensures
        res == spec_return_kind_named(name@),
{
    if str_eq(name, "bool") {
        Some(ReturnKind::Bool)
    } else if str_eq(name, "*const c_char") {
        Some(ReturnKind::CharPtr)
    } else if str_eq(name, "c_float") {
        Some(ReturnKind::Float)
    } else if str_eq(name, "c_int") {
        Some(ReturnKind::Int)
    } else if str_eq(name, "idVec3") {
        Some(ReturnKind::Vec3)
    } else if str_eq(name, "idEntity") {
        Some(ReturnKind::Entity)
    } else {
        None
    }
}

/// The text before the returned value.
pub fn wrapper_prefix(kind: ReturnKind) -> (res: String)
    ensures
        res@ == spec_wrapper_prefix(kind),
{
    match kind {
        ReturnKind::Bool => String::from_str(
            "(TRM_SYSTEM.lock().unwrap().return_functions.as_ref().unwrap().return_int)(if ",
        ),
        ReturnKind::CharPtr => String::from_str(
            "(TRM_SYSTEM.lock().unwrap().return_functions.as_ref().unwrap().return_string)(",
        ),
        ReturnKind::Float => String::from_str(
            "(TRM_SYSTEM.lock().unwrap().return_functions.as_ref().unwrap().return_float)(",
        ),
        ReturnKind::Int => String::from_str(
            "(TRM_SYSTEM.lock().unwrap().return_functions.as_ref().unwrap().return_int)(",
        ),
        ReturnKind::Vec3 => String::from_str(
            "(TRM_SYSTEM.lock().unwrap().return_functions.as_ref().unwrap().return_vector)(",
        ),
        ReturnKind::Entity => String::from_str(
            "(TRM_SYSTEM.lock().unwrap().return_functions.as_ref().unwrap().return_entity((",
        ),
    }
}

/// The text after the returned value.
pub fn wrapper_suffix(kind: ReturnKind) -> (res: String)
    ensures
        res@ == spec_wrapper_suffix(kind),
{
    match kind {
        ReturnKind::Bool => String::from_str(" { 1 } else { 0 })"),
        _ => String::from_str(")"),
    }
}

/// The source of the wrapping expression: prefix, `result`, suffix.
pub fn wrapper_source(kind: ReturnKind) -> (res: String)
    ensures
        res@ == spec_wrapper_source(kind),
{
    let mut s = wrapper_prefix(kind);
    s.append("result");
    let suffix = wrapper_suffix(kind);
    s.append(suffix.as_str());
    s
}

/// Each kind's wrapper hands the result to its own return function of the
/// game: `bool` to `return_int` as 1 or 0, `*const c_char` to `return_string`,
/// `c_float` to `return_float`, `c_int` to `return_int`, `idVec3` to
/// `return_vector`, `idEntity` to `return_entity`.
pub proof fn law_wrapper_sources()
    ensures
        spec_wrapper_source(ReturnKind::Bool) == "(TRM_SYSTEM.lock().unwrap().return_functions.as_ref().unwrap().return_int)(if result { 1 } else { 0 })"@,
        spec_wrapper_source(ReturnKind::CharPtr) == "(TRM_SYSTEM.lock().unwrap().return_functions.as_ref().unwrap().return_string)(result)"@,
        spec_wrapper_source(ReturnKind::Float) == "(TRM_SYSTEM.lock().unwrap().return_functions.as_ref().unwrap().return_float)(result)"@,
        spec_wrapper_source(ReturnKind::Int) == "(TRM_SYSTEM.lock().unwrap().return_functions.as_ref().unwrap().return_int)(result)"@,
        spec_wrapper_source(ReturnKind::Vec3) == "(TRM_SYSTEM.lock().unwrap().return_functions.as_ref().unwrap().return_vector)(result)"@,
        spec_wrapper_source(ReturnKind::Entity) == "(TRM_SYSTEM.lock().unwrap().return_functions.as_ref().unwrap().return_entity((result)"@,
{
    reveal_strlit(" { 1 } else { 0 })");
    reveal_strlit("(TRM_SYSTEM.lock().unwrap().return_functions.as_ref().unwrap().return_entity((");
    reveal_strlit("(TRM_SYSTEM.lock().unwrap().return_functions.as_ref().unwrap().return_entity((result)");
    reveal_strlit("(TRM_SYSTEM.lock().unwrap().return_functions.as_ref().unwrap().return_float)(");
    reveal_strlit("(TRM_SYSTEM.lock().unwrap().return_functions.as_ref().unwrap().return_float)(result)");
    reveal_strlit("(TRM_SYSTEM.lock().unwrap().return_functions.as_ref().unwrap().return_int)(");
    reveal_strlit("(TRM_SYSTEM.lock().unwrap().return_functions.as_ref().unwrap().return_int)(if ");
    reveal_strlit("(TRM_SYSTEM.lock().unwrap().return_functions.as_ref().unwrap().return_int)(if result { 1 } else { 0 })");
    reveal_strlit("(TRM_SYSTEM.lock().unwrap().return_functions.as_ref().unwrap().return_int)(result)");
    reveal_strlit("(TRM_SYSTEM.lock().unwrap().return_functions.as_ref().unwrap().return_string)(");
    reveal_strlit("(TRM_SYSTEM.lock().unwrap().return_functions.as_ref().unwrap().return_string)(result)");
    reveal_strlit("(TRM_SYSTEM.lock().unwrap().return_functions.as_ref().unwrap().return_vector)(");
    reveal_strlit("(TRM_SYSTEM.lock().unwrap().return_functions.as_ref().unwrap().return_vector)(result)");
    reveal_strlit(")");
    reveal_strlit("result");
    assert(spec_wrapper_source(ReturnKind::Bool) =~= "(TRM_SYSTEM.lock().unwrap().return_functions.as_ref().unwrap().return_int)(if result { 1 } else { 0 })"@);
    assert(spec_wrapper_source(ReturnKind::CharPtr) =~= "(TRM_SYSTEM.lock().unwrap().return_functions.as_ref().unwrap().return_string)(result)"@);
    assert(spec_wrapper_source(ReturnKind::Float) =~= "(TRM_SYSTEM.lock().unwrap().return_functions.as_ref().unwrap().return_float)(result)"@);
    assert(spec_wrapper_source(ReturnKind::Int) =~= "(TRM_SYSTEM.lock().unwrap().return_functions.as_ref().unwrap().return_int)(result)"@);
    assert(spec_wrapper_source(ReturnKind::Vec3) =~= "(TRM_SYSTEM.lock().unwrap().return_functions.as_ref().unwrap().return_vector)(result)"@);
    assert(spec_wrapper_source(ReturnKind::Entity) =~= "(TRM_SYSTEM.lock().unwrap().return_functions.as_ref().unwrap().return_entity((result)"@);
}

/// Whether `syn` parses the text as one Rust expression.
pub uninterp spec fn parses_as_expr(source: Seq<char>) -> bool;

/// Calls `syn::parse_str::<syn::Expr>` on the text. Claimed: the call succeeds
/// exactly when `parses_as_expr` holds of the text; the parsed expression is
/// not kept.
#[verifier::external_body]
fn expr_parses(source: &str) -> (res: bool)
    ensures
        res == parses_as_expr(source@),
{
    syn::parse_str::<syn::Expr>(source).is_ok()
}

/// The expression that hands a function's result back to the game, by its
/// source text, which is known to parse as an expression.
pub struct ReturnWrapper {
    pub kind: ReturnKind,
    /// The expression's source text.
    pub source: String,
}

/// Completes a return wrapper from whether its source parsed: the wrapper
/// when it did, else the source that did not.
pub fn finish_return_wrapper(kind: ReturnKind, source: String, parsed: bool) -> (res: Result<
    ReturnWrapper,
    String,
>)
    ensures
        parsed ==> (res matches Ok(w) && w.kind == kind && w.source@ == source@),
        !parsed ==> (res matches Err(s) && s@ == source@),
{
    if parsed {
        Ok(ReturnWrapper { kind, source })
    } else {
        Err(source)
    }
}

/// Builds the return wrapper of a kind: its source text, checked to parse as
/// an expression. Fails, with the source, where the source does not parse.
pub fn return_wrapper(kind: ReturnKind) -> (res: Result<ReturnWrapper, String>)
    ensures
        parses_as_expr(spec_wrapper_source(kind)) ==> (res matches Ok(w) && w.kind == kind
            && w.source@ == spec_wrapper_source(kind)),
        !parses_as_expr(spec_wrapper_source(kind)) ==> (res matches Err(s) && s@
            == spec_wrapper_source(kind)),
{
    let source = wrapper_source(kind);
    let parsed = expr_parses(source.as_str());
    finish_return_wrapper(kind, source, parsed)
}

} // verus!
