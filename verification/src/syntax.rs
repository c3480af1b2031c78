//! Reading the module attribute's input: the parse with `syn`, and the
//! description of the parsed module as plain values, on which the rules of
//! `module` are proved.
use vstd::prelude::*;
use crate::args::ArgToken;
use crate::module::{
    FnDesc,
    ItemDesc,
    LibError,
    ModuleDesc,
    ModulePlan,
    PtrElem,
    ReturnDesc,
    TRMDefinition,
    TypePathDesc,
    defined_name,
    plan_matches,
    spec_defined_after,
    spec_lib_error,
    therustymod_lib,
};

verus! {

/// A stream of tokens as the compiler hands it over.
#[verifier::external_type_specification]
#[verifier::external_body]
pub struct ExTokenStream(proc_macro2::TokenStream);

/// A parsed `mod` item.
#[verifier::external_type_specification]
#[verifier::external_body]
pub struct ExItemMod(syn::ItemMod);

/// A parsed item of a module.
#[verifier::external_type_specification]
#[verifier::external_body]
pub struct ExItem(syn::Item);

/// A parsed function item.
#[verifier::external_type_specification]
#[verifier::external_body]
pub struct ExItemFn(syn::ItemFn);

/// A parsed type.
#[verifier::external_type_specification]
#[verifier::external_body]
pub struct ExType(syn::Type);

/// A parsed path type.
#[verifier::external_type_specification]
#[verifier::external_body]
pub struct ExTypePath(syn::TypePath);

/// A parsed raw pointer type.
#[verifier::external_type_specification]
#[verifier::external_body]
pub struct ExTypePtr(syn::TypePtr);

/// syn's parse error.
#[verifier::external_type_specification]
#[verifier::external_body]
pub struct ExSynError(syn::Error);

/// Which kind of item a parsed item is, as far as the rules tell kinds apart.
pub enum ItemShape<'a> {
    Use,
    Fn(&'a syn::ItemFn),
    Other,
}

/// Which kind of type a parsed type is, as far as the rules tell kinds apart.
pub enum TypeShape<'a> {
    Path(&'a syn::TypePath),
    Ptr(&'a syn::TypePtr),
    Other,
}

/// The kind of a parsed item, with the function where it is one.
pub enum ItemShapeOf {
    Use,
    Fn(syn::ItemFn),
    Other,
}

/// The kind of a parsed type, with the path or pointer type where it is one.
pub enum TypeShapeOf {
    Path(syn::TypePath),
    Ptr(syn::TypePtr),
    Other,
}

/// The text of a module's `ident` field.
pub uninterp spec fn mod_ident_text(m: syn::ItemMod) -> Seq<char>;

/// The items of a module's `content` field, where it has one.
pub uninterp spec fn mod_items(m: syn::ItemMod) -> Option<Seq<syn::Item>>;

/// The variant of a `syn::Item`: `Use`, `Fn` with its function, or another.
pub uninterp spec fn item_shape_of(it: syn::Item) -> ItemShapeOf;

/// The text of a function's `sig.ident` field.
pub uninterp spec fn fn_ident_text(f: syn::ItemFn) -> Seq<char>;

/// The length of a function's `attrs` field.
pub uninterp spec fn fn_attr_len(f: syn::ItemFn) -> usize;

/// The type in a function's `sig.output` field, where it names one.
pub uninterp spec fn fn_output_type(f: syn::ItemFn) -> Option<syn::Type>;

/// The variant of a `syn::Type`: `Path`, `Ptr`, or another.
pub uninterp spec fn type_shape_of(t: syn::Type) -> TypeShapeOf;

/// Whether a pointer type's `const_token` field is present.
pub uninterp spec fn ptr_const(p: syn::TypePtr) -> bool;

/// A pointer type's `elem` field.
pub uninterp spec fn ptr_elem_type(p: syn::TypePtr) -> syn::Type;

/// Whether a path type's `qself` field is present.
pub uninterp spec fn path_qself(p: syn::TypePath) -> bool;

/// Whether a path type's `path.leading_colon` field is present.
pub uninterp spec fn path_colon(p: syn::TypePath) -> bool;

/// The texts of a path type's segment names, in order.
pub uninterp spec fn path_segment_texts(p: syn::TypePath) -> Seq<Seq<char>>;

/// Calls `syn::parse2::<syn::ItemMod>` on the tokens. Nothing is claimed of
/// the result.
#[verifier::external_body]
fn parse_item_mod(input: proc_macro2::TokenStream) -> Result<syn::ItemMod, syn::Error> {
    syn::parse2::<syn::ItemMod>(input)
}

/// Reads the module's `ident` field, by `Ident::to_string`. Claimed: the
/// text is `mod_ident_text` of the module.
#[verifier::external_body]
fn mod_ident(m: &syn::ItemMod) -> (res: String)
    ensures
        res@ == mod_ident_text(*m),
{
    m.ident.to_string()
}

/// Reads the items of the module's `content` field. Claimed: they are
/// `mod_items` of the module.
#[verifier::external_body]
fn mod_content(m: &syn::ItemMod) -> (res: Option<&Vec<syn::Item>>)
    ensures
        match mod_items(*m) {
            None => res is None,
            Some(s) => res matches Some(v) && v@ == s,
        },
{
    m.content.as_ref().map(|(_, items)| items)
}

/// Tells the `syn::Item` variants `Use` and `Fn` from the others. Claimed:
/// the answer is `item_shape_of` of the item.
#[verifier::external_body]
fn item_shape(it: &syn::Item) -> (res: ItemShape<'_>)
    ensures
        match item_shape_of(*it) {
            ItemShapeOf::Use => res is Use,
            ItemShapeOf::Fn(f) => res matches ItemShape::Fn(g) && *g == f,
            ItemShapeOf::Other => res is Other,
        },
{
    match it {
        syn::Item::Use(_) => ItemShape::Use,
        syn::Item::Fn(f) => ItemShape::Fn(f),
        _ => ItemShape::Other,
    }
}

/// Reads the function's name, `sig.ident`, by `Ident::to_string`. Claimed:
/// the text is `fn_ident_text` of the function.
#[verifier::external_body]
fn fn_ident(f: &syn::ItemFn) -> (res: String)
    ensures
        res@ == fn_ident_text(*f),
{
    f.sig.ident.to_string()
}

/// Reads the length of the function's `attrs` field. Claimed: it is
/// `fn_attr_len` of the function.
#[verifier::external_body]
fn fn_attr_count(f: &syn::ItemFn) -> (res: usize)
    ensures
        res == fn_attr_len(*f),
{
    f.attrs.len()
}

/// Reads the type of the function's `sig.output` field. Claimed: it is
/// `fn_output_type` of the function.
#[verifier::external_body]
fn fn_output(f: &syn::ItemFn) -> (res: Option<&syn::Type>)
    ensures
        match fn_output_type(*f) {
            None => res is None,
            Some(t) => res matches Some(u) && *u == t,
        },
{
    match &f.sig.output {
        syn::ReturnType::Default => None,
        syn::ReturnType::Type(_, t) => Some(t.as_ref()),
    }
}

/// Tells the `syn::Type` variants `Path` and `Ptr` from the others. Claimed:
/// the answer is `type_shape_of` of the type.
#[verifier::external_body]
fn type_shape(t: &syn::Type) -> (res: TypeShape<'_>)
    ensures
        match type_shape_of(*t) {
            TypeShapeOf::Path(p) => res matches TypeShape::Path(q) && *q == p,
            TypeShapeOf::Ptr(p) => res matches TypeShape::Ptr(q) && *q == p,
            TypeShapeOf::Other => res is Other,
        },
{
    match t {
        syn::Type::Path(p) => TypeShape::Path(p),
        syn::Type::Ptr(p) => TypeShape::Ptr(p),
        _ => TypeShape::Other,
    }
}

/// Whether the pointer type's `const_token` field is present. Claimed: it is
/// `ptr_const` of the pointer type.
#[verifier::external_body]
fn ptr_is_const(p: &syn::TypePtr) -> (res: bool)
    ensures
        res == ptr_const(*p),
{
    p.const_token.is_some()
}

/// Reads the pointer type's `elem` field. Claimed: it is `ptr_elem_type` of
/// the pointer type.
#[verifier::external_body]
fn ptr_elem(p: &syn::TypePtr) -> (res: &syn::Type)
    ensures
        *res == ptr_elem_type(*p),
{
    p.elem.as_ref()
}

/// Whether the path type's `qself` field is present. Claimed: it is
/// `path_qself` of the path type.
#[verifier::external_body]
fn path_has_qself(p: &syn::TypePath) -> (res: bool)
    ensures
        res == path_qself(*p),
{
    p.qself.is_some()
}

/// Whether the path's `leading_colon` field is present. Claimed: it is
/// `path_colon` of the path type.
#[verifier::external_body]
fn path_leading_colon(p: &syn::TypePath) -> (res: bool)
    ensures
        res == path_colon(*p),
{
    p.path.leading_colon.is_some()
}

/// Reads the path's segment names, in order, by `Ident::to_string`. Claimed:
/// their texts are `path_segment_texts` of the path type.
#[verifier::external_body]
fn path_segment_names(p: &syn::TypePath) -> (res: Vec<String>)
    ensures
        res@.len() == path_segment_texts(*p).len(),
        forall|i: int| 0 <= i < res@.len() ==> #[trigger] res@[i]@ == path_segment_texts(*p)[i],
{
    p.path.segments.iter().map(|s| s.ident.to_string()).collect()
}

/// The description is that of the path type.
pub open spec fn describes_path(d: TypePathDesc, p: syn::TypePath) -> bool {
    &&& d.has_qself == path_qself(p)
    &&& d.leading_colon == path_colon(p)
    &&& d.segments@.len() == path_segment_texts(p).len()
    &&& forall|i: int|
        0 <= i < d.segments@.len() ==> #[trigger] d.segments@[i]@ == path_segment_texts(p)[i]
}

/// The description is that of the function's return type.
pub open spec fn describes_output(o: ReturnDesc, t: Option<syn::Type>) -> bool {
    match t {
        None => o is Default,
        Some(t) => match type_shape_of(t) {
            TypeShapeOf::Path(p) => o matches ReturnDesc::Path(d) && describes_path(d, p),
            TypeShapeOf::Ptr(p) => o matches ReturnDesc::Ptr { is_const, elem } && is_const
                == ptr_const(p) && match type_shape_of(ptr_elem_type(p)) {
                TypeShapeOf::Path(q) => elem matches PtrElem::Path(d) && describes_path(d, q),
                _ => elem is Other,
            },
            TypeShapeOf::Other => o is Other,
        },
    }
}

/// The description is that of the item.
pub open spec fn describes_item(d: ItemDesc, it: syn::Item) -> bool {
    match item_shape_of(it) {
        ItemShapeOf::Use => d is Use,
        ItemShapeOf::Fn(f) => d matches ItemDesc::Fn(fd) && fd.name@ == fn_ident_text(f)
            && fd.attr_count == fn_attr_len(f) && describes_output(fd.output, fn_output_type(f)),
        ItemShapeOf::Other => d is Other,
    }
}

/// The description is that of the module: its name and, item by item, its body.
pub open spec fn describes_module(d: ModuleDesc, m: syn::ItemMod) -> bool {
    &&& d.name@ == mod_ident_text(m)
    &&& match mod_items(m) {
        None => d.content is None,
        Some(items) => d.content matches Some(v) && v@.len() == items.len() && forall|i: int|
            0 <= i < items.len() ==> #[trigger] describes_item(v@[i], items[i]),
    }
}

fn describe_path(p: &syn::TypePath) -> (res: TypePathDesc)
    ensures
        describes_path(res, *p),
{
    TypePathDesc {
        has_qself: path_has_qself(p),
        leading_colon: path_leading_colon(p),
        segments: path_segment_names(p),
    }
}

fn describe_output(f: &syn::ItemFn) -> (res: ReturnDesc)
    ensures
        describes_output(res, fn_output_type(*f)),
{
    match fn_output(f) {
        None => ReturnDesc::Default,
        Some(t) => match type_shape(t) {
            TypeShape::Path(p) => ReturnDesc::Path(describe_path(p)),
            TypeShape::Ptr(p) => {
                let elem = match type_shape(ptr_elem(p)) {
                    TypeShape::Path(q) => PtrElem::Path(describe_path(q)),
                    _ => PtrElem::Other,
                };
                ReturnDesc::Ptr { is_const: ptr_is_const(p), elem }
            },
            TypeShape::Other => ReturnDesc::Other,
        },
    }
}

fn describe_item(it: &syn::Item) -> (res: ItemDesc)
    ensures
        describes_item(res, *it),
{
    match item_shape(it) {
        ItemShape::Use => ItemDesc::Use,
        ItemShape::Fn(f) => ItemDesc::Fn(
            FnDesc { name: fn_ident(f), attr_count: fn_attr_count(f), output: describe_output(f) },
        ),
        ItemShape::Other => ItemDesc::Other,
    }
}

/// Describes a parsed module as plain values: its name and, for a module with
/// a body, each item in order.
pub fn describe_module(m: &syn::ItemMod) -> (res: ModuleDesc)
    ensures
        describes_module(res, *m),
{
    let content = match mod_content(m) {
        None => None,
        Some(items) => {
            let mut descs: Vec<ItemDesc> = Vec::new();
            let n = items.len();
            let mut i: usize = 0;
            while i < n
                invariant
                    n == items.len(),
                    i <= n,
                    descs@.len() == i,
                    forall|k: int| 0 <= k < i ==> #[trigger] describes_item(descs@[k], items@[k]),
                decreases n - i,
            {
                descs.push(describe_item(&items[i]));
                i = i + 1;
            }
            Some(descs)
        },
    };
    ModuleDesc { name: mod_ident(m), content }
}

/// The module attribute on the tokens that the compiler hands over: parses
/// them as a module, describes it, and runs `therustymod_lib` on the
/// description. Gives the parse, the description, and the outcome.
pub fn therustymod_lib_tokens(
    definition: &mut Option<TRMDefinition>,
    args: &Vec<ArgToken>,
    input: proc_macro2::TokenStream,
) -> (res: (Result<syn::ItemMod, syn::Error>, Option<ModuleDesc>, Result<ModulePlan, LibError>))
    ensures
        res.0 is Ok <==> res.1 is Some,
        res.0 matches Ok(m) ==> (res.1 matches Some(d) && describes_module(d, m)),
        defined_name(*final(definition)) == spec_defined_after(
            defined_name(*old(definition)),
            args@,
            res.1,
        ),
        *old(definition) is Some ==> *final(definition) == *old(definition),
        (*old(definition) is None && *final(definition) is Some) ==> (*final(definition))->0.module_location@
            == Seq::<char>::empty(),
        match spec_lib_error(defined_name(*old(definition)), args@, res.1) {
            Some(e) => res.2 matches Err(e2) && e2 == e,
            None => res.2 matches Ok(p) && plan_matches(
                res.1->0.name@,
                res.1->0.content->0@,
                p,
            ),
        },
{
    let parsed = parse_item_mod(input);
    let module = match &parsed {
        Ok(m) => Some(describe_module(m)),
        Err(_) => None,
    };
    let outcome = therustymod_lib(definition, args, &module);
    (parsed, module, outcome)
}

} // verus!
