//! The rules by which the module attribute turns a mod's module into the
//! functions that the game calls: which items a module may hold, which
//! functions are exported and under what name, and how each result goes back.
use vstd::prelude::*;
use crate::args::{ArgToken, ArgsError, parse_attribute_args, spec_parse_attribute_args};
use crate::text::{contains_char, is_private_name, spec_is_private_name, str_eq};
use crate::wrapper::{
    ReturnKind,
    ReturnWrapper,
    parses_as_expr,
    return_kind_named,
    return_wrapper,
    spec_return_kind_named,
    spec_wrapper_source,
};

verus! {

/// A type written as a path, such as `c_int` or `std::os::raw::c_int`.
pub struct TypePathDesc {
    /// The path has a qualified self type, `<T as Trait>::..`.
    pub has_qself: bool,
    /// The path starts with `::`.
    pub leading_colon: bool,
    /// The names of the path's segments, generic arguments left out.
    pub segments: Vec<String>,
}

/// What a pointer return type points to.
pub enum PtrElem {
    Path(TypePathDesc),
    Other,
}

/// The return type of a function of the module.
pub enum ReturnDesc {
    /// No return type.
    Default,
    /// A path type.
    Path(TypePathDesc),
    /// A raw pointer type, `*const` when `is_const`.
    Ptr { is_const: bool, elem: PtrElem },
    /// Any other type.
    Other,
}

/// A function of the module.
pub struct FnDesc {
    pub name: String,
    /// How many attributes the function carries.
    pub attr_count: usize,
    pub output: ReturnDesc,
}

/// An item of the module.
pub enum ItemDesc {
    Use,
    Fn(FnDesc),
    Other,
}

/// The module that the attribute stands on.
pub struct ModuleDesc {
    pub name: String,
    /// The module's items; `None` for a module declared without a body.
    pub content: Option<Vec<ItemDesc>>,
}

/// Why a public function of the module cannot be exported.
#[derive(Debug, Clone, Copy, PartialEq, Eq, Structural)]
pub enum FnError {
    /// The function carries attributes.
    HasAttributes,
    /// The return type has a qualified self type.
    SelfReturnType,
    /// The return type's path starts with `::`.
    LeadingColon,
    /// The return type's path has more than one segment.
    MultiSegment,
    /// No return wrapper is registered for the return type.
    UnknownType,
    /// A pointer return type is not `*const`.
    NonConstPointer,
    /// A pointer return type points to something other than `c_char`.
    NotCharPointer,
    /// A pointer return type points to something that is not a path.
    UnknownPointerType,
    /// The return type is neither a path nor a pointer.
    UnknownReturnType,
    /// The symbol under which the function would be exported is not an
    /// identifier: it holds `#`, as the text of a raw identifier does.
    InvalidSymbol,
    /// The wrapping expression of this kind does not parse.
    WrapperParse(ReturnKind),
}

/// Why the module attribute refuses its input.
#[derive(Debug, Clone, Copy, PartialEq, Eq, Structural)]
pub enum LibError {
    /// The attribute's arguments do not parse.
    Args(ArgsError),
    /// The attribute does not stand on a module.
    InputNotModule,
    /// The attribute was used before in this crate.
    AlreadyDefined,
    /// The module has no body.
    MissingContent,
    /// The module holds an item that is neither a function nor a `use`.
    UnsupportedItem,
    /// `daemon` is true but the module has no `__run` function, or the converse.
    DaemonMismatch,
    /// The public function at this position of the module cannot be exported.
    Function { item: usize, reason: FnError },
}

/// A function that the module exports to the game.
pub struct ExportedFn {
    /// Its position among the module's items.
    pub item_index: usize,
    /// The symbol under which the game finds it.
    pub export_name: String,
    /// How its result goes back to the game; `None` where it returns nothing.
    pub wrapper: Option<ReturnWrapper>,
}

/// What the module attribute emits, decided.
pub struct ModulePlan {
    /// The positions of the module's `use` items, in order.
    pub use_items: Vec<usize>,
    /// The position of the `__run` function that runs as a daemon, if any.
    pub run_item: Option<usize>,
    /// The exported functions, in the module's order.
    pub exported: Vec<ExportedFn>,
}

/// The definition that the module attribute records for the crate.
pub struct TRMDefinition {
    pub module_name: String,
    pub module_location: String,
}

pub open spec fn is_use(it: ItemDesc) -> bool {
    it matches ItemDesc::Use
}

pub open spec fn is_other(it: ItemDesc) -> bool {
    it matches ItemDesc::Other
}

/// The item is the function `__run`.
pub open spec fn is_run(it: ItemDesc) -> bool {
    it matches ItemDesc::Fn(f) && f.name@ == "__run"@
}

/// The item is a function whose name does not begin with `_`.
pub open spec fn is_public_fn(it: ItemDesc) -> bool {
    it matches ItemDesc::Fn(f) && !spec_is_private_name(f.name@)
}

/// The name of a path type, where it is one plain segment.
pub open spec fn spec_path_name(p: TypePathDesc) -> Result<Seq<char>, FnError> {
    if p.has_qself {
        Err(FnError::SelfReturnType)
    } else if p.leading_colon {
        Err(FnError::LeadingColon)
    } else if p.segments@.len() != 1 {
        Err(FnError::MultiSegment)
    } else {
        Ok(p.segments@[0]@)
    }
}

/// The return kind of a return type: `None` for no return type.
pub open spec fn spec_output_kind(o: ReturnDesc) -> Result<Option<ReturnKind>, FnError> {
    match o {
        ReturnDesc::Default => Ok(None),
        ReturnDesc::Path(p) => match spec_path_name(p) {
            Err(e) => Err(e),
            Ok(n) => match spec_return_kind_named(n) {
                Some(k) => Ok(Some(k)),
                None => Err(FnError::UnknownType),
            },
        },
        ReturnDesc::Ptr { is_const, elem } => if !is_const {
            Err(FnError::NonConstPointer)
        } else {
            match elem {
                PtrElem::Path(p) => match spec_path_name(p) {
                    Err(e) => Err(e),
                    Ok(n) => if n == "c_char"@ {
                        Ok(Some(ReturnKind::CharPtr))
                    } else {
                        Err(FnError::NotCharPointer)
                    },
                },
                PtrElem::Other => Err(FnError::UnknownPointerType),
            }
        },
        ReturnDesc::Other => Err(FnError::UnknownReturnType),
    }
}

/// Whether a public function can be exported, and with which return kind.
pub open spec fn spec_fn_outcome(f: FnDesc) -> Result<Option<ReturnKind>, FnError> {
    if f.attr_count > 0 {
        Err(FnError::HasAttributes)
    } else {
        match spec_output_kind(f.output) {
            Err(e) => Err(e),
            Ok(None) => Ok(None),
            Ok(Some(k)) => if parses_as_expr(spec_wrapper_source(k)) {
                Ok(Some(k))
            } else {
                Err(FnError::WrapperParse(k))
            },
        }
    }
}

/// The symbol under which a function of a module is exported.
pub open spec fn spec_export_name(module: Seq<char>, name: Seq<char>) -> Seq<char> {
    "trm__usermod__"@ + module + "__"@ + name
}

/// No item before position `n` is `__run`.
pub open spec fn no_run_before(items: Seq<ItemDesc>, n: int) -> bool {
    forall|j: int| 0 <= j < n ==> !is_run(#[trigger] items[j])
}

/// Position `r` holds the first `__run` function.
pub open spec fn is_first_run(items: Seq<ItemDesc>, r: int) -> bool {
    0 <= r < items.len() && is_run(items[r]) && no_run_before(items, r)
}

pub open spec fn has_run(items: Seq<ItemDesc>) -> bool {
    exists|r: int| 0 <= r < items.len() && is_run(#[trigger] items[r])
}

/// How far the search for `__run` reads: to the first `__run`, or to the end.
pub open spec fn scan_end(items: Seq<ItemDesc>) -> int {
    if exists|r: int| is_first_run(items, r) {
        choose|r: int| is_first_run(items, r)
    } else {
        items.len() as int
    }
}

/// Some item before position `n` is neither a function nor a `use`.
pub open spec fn other_before(items: Seq<ItemDesc>, n: int) -> bool {
    exists|j: int| 0 <= j < n && j < items.len() && is_other(#[trigger] items[j])
}

/// Position `k` holds a public function that cannot be exported.
pub open spec fn fn_fails(items: Seq<ItemDesc>, k: int) -> bool {
    0 <= k < items.len() && is_public_fn(items[k]) && spec_fn_outcome(items[k]->Fn_0) is Err
}

/// Position `k` holds the first public function that cannot be exported.
pub open spec fn is_first_failing(items: Seq<ItemDesc>, k: int) -> bool {
    fn_fails(items, k) && forall|j: int| 0 <= j < k ==> !#[trigger] fn_fails(items, j)
}

/// An exported symbol is an identifier: it holds no `#`. (The names it is made
/// of are identifiers' texts, which hold `#` only as raw identifiers, `r#..`.)
pub open spec fn spec_valid_symbol(symbol: Seq<char>) -> bool {
    !symbol.contains('#')
}

/// Emitting the signatures fails at position `j`: an item that is neither a
/// function nor a `use`, or a public function whose symbol is no identifier.
pub open spec fn emit_fails(module: Seq<char>, items: Seq<ItemDesc>, j: int) -> bool {
    0 <= j < items.len() && (is_other(items[j]) || (is_public_fn(items[j]) && !spec_valid_symbol(
        spec_export_name(module, items[j]->Fn_0.name@),
    )))
}

/// Position `j` is the first at which emitting the signatures fails.
pub open spec fn is_first_emit_failure(module: Seq<char>, items: Seq<ItemDesc>, j: int) -> bool {
    emit_fails(module, items, j) && forall|i: int| 0 <= i < j ==> !#[trigger] emit_fails(
        module,
        items,
        i,
    )
}

/// The error with which a module body is refused, if any, for the given
/// module name and `daemon` argument.
pub open spec fn spec_plan_error(module: Seq<char>, daemon: bool, items: Seq<ItemDesc>) -> Option<
    LibError,
> {
    if other_before(items, scan_end(items)) {
        Some(LibError::UnsupportedItem)
    } else if daemon != has_run(items) {
        Some(LibError::DaemonMismatch)
    } else if exists|j: int| is_first_emit_failure(module, items, j) {
        let j = choose|j: int| is_first_emit_failure(module, items, j);
        if is_other(items[j]) {
            Some(LibError::UnsupportedItem)
        } else {
            Some(LibError::Function { item: j as usize, reason: FnError::InvalidSymbol })
        }
    } else if exists|k: int| is_first_failing(items, k) {
        let k = choose|k: int| is_first_failing(items, k);
        Some(LibError::Function { item: k as usize, reason: spec_fn_outcome(items[k]->Fn_0)->Err_0 })
    } else {
        None
    }
}

/// The positions of the `use` items among the first `n` items, in order.
pub open spec fn use_indices(items: Seq<ItemDesc>, n: int) -> Seq<usize>
    decreases n,
{
    if n <= 0 {
        Seq::empty()
    } else if is_use(items[n - 1]) {
        use_indices(items, n - 1).push((n - 1) as usize)
    } else {
        use_indices(items, n - 1)
    }
}

/// The positions of the public functions among the first `n` items, in order.
pub open spec fn public_indices(items: Seq<ItemDesc>, n: int) -> Seq<usize>
    decreases n,
{
    if n <= 0 {
        Seq::empty()
    } else if is_public_fn(items[n - 1]) {
        public_indices(items, n - 1).push((n - 1) as usize)
    } else {
        public_indices(items, n - 1)
    }
}

/// The wrapper matches the return kind that the function's outcome gives.
pub open spec fn wrapper_matches(w: Option<ReturnWrapper>, k: Option<ReturnKind>) -> bool {
    match k {
        None => w is None,
        Some(k) => w matches Some(w) && w.kind == k && w.source@ == spec_wrapper_source(k),
    }
}

/// The exported function stands for the public function at `idx`.
pub open spec fn exported_matches(
    module: Seq<char>,
    items: Seq<ItemDesc>,
    e: ExportedFn,
    idx: usize,
) -> bool {
    &&& e.item_index == idx
    &&& e.export_name@ == spec_export_name(module, items[idx as int]->Fn_0.name@)
    &&& spec_fn_outcome(items[idx as int]->Fn_0) matches Ok(k) && wrapper_matches(e.wrapper, k)
}

/// The plan is the one that the module's items call for.
pub open spec fn plan_matches(module: Seq<char>, items: Seq<ItemDesc>, plan: ModulePlan) -> bool {
    &&& plan.use_items@ == use_indices(items, items.len() as int)
    &&& plan.run_item == (if has_run(items) {
        Some(scan_end(items) as usize)
    } else {
        None::<usize>
    })
    &&& plan.exported@.len() == public_indices(items, items.len() as int).len()
    &&& forall|k: int|
        0 <= k < plan.exported@.len() ==> exported_matches(
            module,
            items,
            #[trigger] plan.exported@[k],
            public_indices(items, items.len() as int)[k],
        )
}

/// The name of a path type, where it is one plain segment.
fn path_name(p: &TypePathDesc) -> (res: Result<&String, FnError>)
    ensures
        match spec_path_name(*p) {
            Ok(n) => res matches Ok(s) && s@ == n,
            Err(e) => res matches Err(e2) && e2 == e,
        },
{
    if p.has_qself {
        Err(FnError::SelfReturnType)
    } else if p.leading_colon {
        Err(FnError::LeadingColon)
    } else if p.segments.len() != 1 {
        Err(FnError::MultiSegment)
    } else {
        Ok(&p.segments[0])
    }
}

/// The return kind of a return type.
pub fn output_kind(o: &ReturnDesc) -> (res: Result<Option<ReturnKind>, FnError>)
    ensures
        res == spec_output_kind(*o),
{
    match o {
        ReturnDesc::Default => Ok(None),
        ReturnDesc::Path(p) => {
            let n = path_name(p)?;
            match return_kind_named(n.as_str()) {
                Some(k) => Ok(Some(k)),
                None => Err(FnError::UnknownType),
            }
        },
        ReturnDesc::Ptr { is_const, elem } => {
            if !*is_const {
                return Err(FnError::NonConstPointer);
            }
            match elem {
                PtrElem::Path(p) => {
                    let n = path_name(p)?;
                    if str_eq(n.as_str(), "c_char") {
                        Ok(Some(ReturnKind::CharPtr))
                    } else {
                        Err(FnError::NotCharPointer)
                    }
                },
                PtrElem::Other => Err(FnError::UnknownPointerType),
            }
        },
        ReturnDesc::Other => Err(FnError::UnknownReturnType),
    }
}

/// Checks a public function of the module and builds the wrapper of its result.
pub fn check_fn(f: &FnDesc) -> (res: Result<Option<ReturnWrapper>, FnError>)
    ensures
        match spec_fn_outcome(*f) {
            Ok(k) => res matches Ok(w) && wrapper_matches(w, k),
            Err(e) => res matches Err(e2) && e2 == e,
        },
{
    if f.attr_count > 0 {
        return Err(FnError::HasAttributes);
    }
    match output_kind(&f.output)? {
        None => Ok(None),
        Some(k) => match return_wrapper(k) {
            Ok(w) => Ok(Some(w)),
            Err(_) => Err(FnError::WrapperParse(k)),
        },
    }
}

/// The symbol under which a function of a module is exported:
/// `trm__usermod__<module>__<function>`.
pub fn export_name(module: &str, name: &str) -> (res: String)
    ensures
        res@ == spec_export_name(module@, name@),
{
    let mut s = String::from_str("trm__usermod__");
    s.append(module);
    s.append("__");
    s.append(name);
    s
}

proof fn lemma_first_run_is_scan_end(items: Seq<ItemDesc>, r: int)
    requires
        is_first_run(items, r),
    ensures
        scan_end(items) == r,
        has_run(items),
{
    let c = choose|c: int| is_first_run(items, c);
    assert(is_first_run(items, c));
    if c < r {
        assert(!is_run(items[c]));
    } else if c > r {
        assert(!is_run(items[r]));
    }
}

proof fn lemma_no_run(items: Seq<ItemDesc>)
    requires
        no_run_before(items, items.len() as int),
    ensures
        scan_end(items) == items.len(),
        !has_run(items),
{
    assert(!exists|r: int| is_first_run(items, r)) by {
        if exists|r: int| is_first_run(items, r) {
            let r = choose|r: int| is_first_run(items, r);
            assert(!is_run(items[r]));
        }
    }
    assert(!has_run(items)) by {
        if has_run(items) {
            let r = choose|r: int| 0 <= r < items.len() && is_run(#[trigger] items[r]);
            assert(!is_run(items[r]));
        }
    }
}

proof fn lemma_scan_end_beyond(items: Seq<ItemDesc>, i: int)
    requires
        0 <= i < items.len(),
        no_run_before(items, i + 1),
    ensures
        scan_end(items) > i,
{
    if exists|r: int| is_first_run(items, r) {
        let r = choose|r: int| is_first_run(items, r);
        if r <= i {
            assert(!is_run(items[r]));
        }
    }
}

proof fn lemma_first_failing_chosen(items: Seq<ItemDesc>, k: int)
    requires
        is_first_failing(items, k),
    ensures
        (choose|c: int| is_first_failing(items, c)) == k,
{
    let c = choose|c: int| is_first_failing(items, c);
    assert(is_first_failing(items, c));
    if c < k {
        assert(!fn_fails(items, c));
    } else if c > k {
        assert(!fn_fails(items, k));
    }
}

/// Searches the module for its first `__run` function, refusing an item that
/// is neither a function nor a `use` met before it.
fn scan_for_run(items: &Vec<ItemDesc>) -> (res: Result<Option<usize>, LibError>)
    ensures
        other_before(items@, scan_end(items@)) ==> (res matches Err(e) && e
            == LibError::UnsupportedItem),
        !other_before(items@, scan_end(items@)) ==> (res matches Ok(r) && r == (if has_run(
            items@,
        ) {
            Some(scan_end(items@) as usize)
        } else {
            None::<usize>
        })),
{
    let n = items.len();
    let mut i: usize = 0;
    while i < n
        invariant
            n == items@.len(),
            i <= n,
            no_run_before(items@, i as int),
            !other_before(items@, i as int),
        decreases n - i,
    {
        match &items[i] {
            ItemDesc::Other => {
                proof {
                    assert(no_run_before(items@, i + 1));
                    lemma_scan_end_beyond(items@, i as int);
                    assert(is_other(items@[i as int]));
                }
                return Err(LibError::UnsupportedItem);
            },
            ItemDesc::Fn(f) => {
                if str_eq(f.name.as_str(), "__run") {
                    proof {
                        assert(is_first_run(items@, i as int));
                        lemma_first_run_is_scan_end(items@, i as int);
                    }
                    return Ok(Some(i));
                }
            },
            ItemDesc::Use => {},
        }
        proof {
            assert(!is_other(items@[i as int]));
        }
        i = i + 1;
    }
    proof {
        lemma_no_run(items@);
    }
    Ok(None)
}

proof fn lemma_first_emit_failure_chosen(module: Seq<char>, items: Seq<ItemDesc>, j: int)
    requires
        is_first_emit_failure(module, items, j),
    ensures
        (choose|c: int| is_first_emit_failure(module, items, c)) == j,
{
    let c = choose|c: int| is_first_emit_failure(module, items, c);
    assert(is_first_emit_failure(module, items, c));
    if c < j {
        assert(!emit_fails(module, items, c));
    } else if c > j {
        assert(!emit_fails(module, items, j));
    }
}

/// Walks the items as the emission of the signatures does, refusing the first
/// item that is neither a function nor a `use`, or the first public function
/// whose symbol is no identifier.
fn check_emission(module_name: &String, items: &Vec<ItemDesc>) -> (res: Result<(), LibError>)
    ensures
        (exists|j: int| is_first_emit_failure(module_name@, items@, j)) ==> ({
            let j = choose|j: int| is_first_emit_failure(module_name@, items@, j);
            if is_other(items@[j]) {
                res matches Err(e) && e == LibError::UnsupportedItem
            } else {
                res matches Err(e) && e == LibError::Function {
                    item: j as usize,
                    reason: FnError::InvalidSymbol,
                }
            }
        }),
        !(exists|j: int| is_first_emit_failure(module_name@, items@, j)) ==> (res is Ok
            && forall|j: int| 0 <= j < items@.len() ==> !#[trigger] emit_fails(module_name@, items@, j)),
{
    let n = items.len();
    let mut i: usize = 0;
    while i < n
        invariant
            n == items@.len(),
            i <= n,
            forall|j: int| 0 <= j < i ==> !#[trigger] emit_fails(module_name@, items@, j),
        decreases n - i,
    {
        match &items[i] {
            ItemDesc::Other => {
                proof {
                    assert(emit_fails(module_name@, items@, i as int));
                    assert(is_first_emit_failure(module_name@, items@, i as int));
                    lemma_first_emit_failure_chosen(module_name@, items@, i as int);
                }
                return Err(LibError::UnsupportedItem);
            },
            ItemDesc::Fn(f) => {
                if !is_private_name(f.name.as_str()) {
                    let symbol = export_name(module_name.as_str(), f.name.as_str());
                    if contains_char(symbol.as_str(), '#') {
                        proof {
                            assert(emit_fails(module_name@, items@, i as int));
                            assert(is_first_emit_failure(module_name@, items@, i as int));
                            lemma_first_emit_failure_chosen(module_name@, items@, i as int);
                        }
                        return Err(LibError::Function { item: i, reason: FnError::InvalidSymbol });
                    }
                }
            },
            ItemDesc::Use => {},
        }
        assert(!emit_fails(module_name@, items@, i as int));
        i = i + 1;
    }
    proof {
        if exists|j: int| is_first_emit_failure(module_name@, items@, j) {
            let j = choose|j: int| is_first_emit_failure(module_name@, items@, j);
            assert(!emit_fails(module_name@, items@, j));
        }
    }
    Ok(())
}

/// Decides what the module attribute emits for a module's items, given the
/// attribute's `daemon` argument: the `use` items kept, the `__run` function
/// that runs as a daemon, and each public function with its exported name and
/// return wrapper; or the first reason to refuse the module.
pub fn plan_module(daemon: bool, module_name: &String, items: &Vec<ItemDesc>) -> (res: Result<
    ModulePlan,
    LibError,
>)
    ensures
        match spec_plan_error(module_name@, daemon, items@) {
            Some(e) => res matches Err(e2) && e2 == e,
            None => res matches Ok(p) && plan_matches(module_name@, items@, p),
        },
{
    let run_item = scan_for_run(items)?;
    if daemon != run_item.is_some() {
        return Err(LibError::DaemonMismatch);
    }
    check_emission(module_name, items)?;
    let ghost gitems = items@;
    proof {
        assert forall|j: int| 0 <= j < items@.len() implies !is_other(#[trigger] gitems[j]) by {
            assert(!emit_fails(module_name@, gitems, j));
        }
    }
    let n = items.len();
    let mut use_items: Vec<usize> = Vec::new();
    let mut exported: Vec<ExportedFn> = Vec::new();
    let mut i: usize = 0;
    while i < n
        invariant
            n == items@.len(),
            gitems == items@,
            i <= n,
            !other_before(gitems, scan_end(gitems)),
            daemon == has_run(gitems),
            !other_before(gitems, n as int),
            !(exists|j: int| is_first_emit_failure(module_name@, gitems, j)),
            use_items@ == use_indices(gitems, i as int),
            exported@.len() == public_indices(gitems, i as int).len(),
            forall|k: int|
                0 <= k < exported@.len() ==> exported_matches(
                    module_name@,
                    gitems,
                    #[trigger] exported@[k],
                    public_indices(gitems, i as int)[k],
                ),
            forall|j: int| 0 <= j < i ==> !#[trigger] fn_fails(gitems, j),
        decreases n - i,
    {
        let ghost old_exported = exported@;
        match &items[i] {
            ItemDesc::Use => {
                use_items.push(i);
            },
            ItemDesc::Fn(f) => {
                if !is_private_name(f.name.as_str()) {
                    match check_fn(f) {
                        Err(e) => {
                            proof {
                                assert(fn_fails(gitems, i as int));
                                assert(is_first_failing(gitems, i as int));
                                lemma_first_failing_chosen(gitems, i as int);
                            }
                            return Err(LibError::Function { item: i, reason: e });
                        },
                        Ok(w) => {
                            let name = export_name(module_name.as_str(), f.name.as_str());
                            exported.push(ExportedFn { item_index: i, export_name: name, wrapper: w });
                            proof {
                                let pi = public_indices(gitems, i + 1);
                                assert(pi == public_indices(gitems, i as int).push(i));
                                assert forall|k: int| 0 <= k < exported@.len() implies
                                    exported_matches(module_name@, gitems, #[trigger] exported@[k], pi[k]) by {
                                    if k < old_exported.len() {
                                        assert(exported@[k] == old_exported[k]);
                                    }
                                }
                            }
                        },
                    }
                }
            },
            ItemDesc::Other => {
                assert(is_other(gitems[i as int]));
            },
        }
        proof {
            assert(!fn_fails(gitems, i as int));
        }
        i = i + 1;
    }
    proof {
        if exists|k: int| is_first_failing(gitems, k) {
            let k = choose|k: int| is_first_failing(gitems, k);
            assert(!fn_fails(gitems, k));
        }
    }
    Ok(ModulePlan { use_items, run_item, exported })
}

/// The module name that a definition records, if any.
pub open spec fn defined_name(def: Option<TRMDefinition>) -> Option<Seq<char>> {
    match def {
        Some(d) => Some(d.module_name@),
        None => None,
    }
}

/// The error with which the module attribute refuses its input, if any, given
/// the name already defined in the crate, the argument tokens and the module.
pub open spec fn spec_lib_error(
    defined: Option<Seq<char>>,
    args: Seq<ArgToken>,
    input: Option<ModuleDesc>,
) -> Option<LibError> {
    match spec_parse_attribute_args(args) {
        Err(e) => Some(LibError::Args(e)),
        Ok(daemon) => match input {
            None => Some(LibError::InputNotModule),
            Some(m) => if defined is Some {
                Some(LibError::AlreadyDefined)
            } else {
                match m.content {
                    None => Some(LibError::MissingContent),
                    Some(items) => spec_plan_error(m.name@, daemon, items@),
                }
            },
        },
    }
}

/// The name defined in the crate after the module attribute has run: the
/// module's, where none was defined and the arguments and module parsed.
pub open spec fn spec_defined_after(
    defined: Option<Seq<char>>,
    args: Seq<ArgToken>,
    input: Option<ModuleDesc>,
) -> Option<Seq<char>> {
    if defined is None && spec_parse_attribute_args(args) is Ok && input is Some {
        Some(input->0.name@)
    } else {
        defined
    }
}

/// The text that the module-name macro gives for a defined name.
pub open spec fn spec_module_name_text(defined: Option<Seq<char>>) -> Seq<char> {
    match defined {
        Some(n) => n,
        None => Seq::empty(),
    }
}

/// The module attribute: parses its arguments, records the module as the
/// crate's one definition, and decides what to emit for the module.
pub fn therustymod_lib(
    definition: &mut Option<TRMDefinition>,
    args: &Vec<ArgToken>,
    input: &Option<ModuleDesc>,
) -> (res: Result<ModulePlan, LibError>)
    ensures
        defined_name(*final(definition)) == spec_defined_after(
            defined_name(*old(definition)),
            args@,
            *input,
        ),
        *old(definition) is Some ==> *final(definition) == *old(definition),
        (*old(definition) is None && *final(definition) is Some) ==> (*final(definition))->0.module_location@
            == Seq::<char>::empty(),
        match spec_lib_error(defined_name(*old(definition)), args@, *input) {
            Some(e) => res matches Err(e2) && e2 == e,
            None => res matches Ok(p) && plan_matches(
                input->0.name@,
                input->0.content->0@,
                p,
            ),
        },
{
    let parsed = match parse_attribute_args(args) {
        Ok(a) => a,
        Err(e) => return Err(LibError::Args(e)),
    };
    let m = match input {
        Some(m) => m,
        None => return Err(LibError::InputNotModule),
    };
    if definition.is_some() {
        return Err(LibError::AlreadyDefined);
    }
    *definition = Some(
        TRMDefinition { module_name: m.name.clone(), module_location: String::new() },
    );
    match &m.content {
        None => Err(LibError::MissingContent),
        Some(items) => plan_module(parsed.daemon, &m.name, items),
    }
}

/// The module-name macro: the name of the module defined in the crate, or the
/// empty text where none is.
pub fn therustymod_module_name(definition: &Option<TRMDefinition>) -> (res: String)
    ensures
        res@ == spec_module_name_text(defined_name(*definition)),
{
    match definition {
        Some(d) => d.module_name.clone(),
        None => String::new(),
    }
}

/// Once a module is defined in the crate, every later use of the module
/// attribute is refused and leaves the definition as it was.
pub proof fn law_defined_once(name: Seq<char>, args: Seq<ArgToken>, input: Option<ModuleDesc>)
    ensures
        spec_defined_after(Some(name), args, input) == Some(name),
        spec_lib_error(Some(name), args, input) is Some,
{
}

/// After the module attribute has read its arguments and a module, the
/// module-name macro gives that module's name, whether or not the module was
/// then refused.
pub proof fn law_module_name_after_definition(args: Seq<ArgToken>, m: ModuleDesc)
    requires
        spec_parse_attribute_args(args) is Ok,
    ensures
        spec_module_name_text(spec_defined_after(None, args, Some(m))) == m.name@,
{
}

/// A module is accepted only where it runs as a daemon exactly when it has a
/// `__run` function, holds nothing but functions and `use` items, and each of
/// its public functions can be exported under a symbol that is an identifier.
pub proof fn law_accepted_module_shape(module: Seq<char>, daemon: bool, items: Seq<ItemDesc>)
    requires
        spec_plan_error(module, daemon, items) is None,
    ensures
        daemon == has_run(items),
        forall|j: int| 0 <= j < items.len() ==> !is_other(#[trigger] items[j]),
        forall|j: int| 0 <= j < items.len() && is_public_fn(#[trigger] items[j]) ==>
            spec_fn_outcome(items[j]->Fn_0) is Ok && spec_valid_symbol(
                spec_export_name(module, items[j]->Fn_0.name@),
            ),
{
    assert forall|j: int| 0 <= j < items.len() implies !emit_fails(module, items, j) by {
        if emit_fails(module, items, j) {
            lemma_some_emit_fails_first(module, items, j);
        }
    }
    assert forall|j: int| 0 <= j < items.len() implies !is_other(#[trigger] items[j]) by {
        assert(!emit_fails(module, items, j));
    }
    assert forall|j: int| 0 <= j < items.len() && is_public_fn(#[trigger] items[j]) implies
        spec_fn_outcome(items[j]->Fn_0) is Ok && spec_valid_symbol(
            spec_export_name(module, items[j]->Fn_0.name@),
        ) by {
        assert(!emit_fails(module, items, j));
        if spec_fn_outcome(items[j]->Fn_0) is Err {
            lemma_some_fails_first(items, j);
        }
    }
}

proof fn lemma_some_emit_fails_first(module: Seq<char>, items: Seq<ItemDesc>, j: int)
    requires
        emit_fails(module, items, j),
    ensures
        exists|k: int| is_first_emit_failure(module, items, k),
    decreases j,
{
    if forall|i: int| 0 <= i < j ==> !#[trigger] emit_fails(module, items, i) {
        assert(is_first_emit_failure(module, items, j));
    } else {
        let i = choose|i: int| 0 <= i < j && #[trigger] emit_fails(module, items, i);
        lemma_some_emit_fails_first(module, items, i);
    }
}

proof fn lemma_some_fails_first(items: Seq<ItemDesc>, j: int)
    requires
        fn_fails(items, j),
    ensures
        exists|k: int| is_first_failing(items, k),
    decreases j,
{
    if forall|i: int| 0 <= i < j ==> !#[trigger] fn_fails(items, i) {
        assert(is_first_failing(items, j));
    } else {
        let i = choose|i: int| 0 <= i < j && #[trigger] fn_fails(items, i);
        lemma_some_fails_first(items, i);
    }
}

/// Two functions of one module are exported under one symbol only if they
/// have one name.
pub proof fn law_export_names_distinct(module: Seq<char>, a: Seq<char>, b: Seq<char>)
    requires
        spec_export_name(module, a) == spec_export_name(module, b),
    ensures
        a == b,
{
    let pa = "trm__usermod__"@ + module + "__"@;
    let sa = spec_export_name(module, a);
    assert(sa == pa + a);
    assert(spec_export_name(module, b) == pa + b);
    assert(a.len() == b.len());
    assert(a =~= sa.subrange(pa.len() as int, sa.len() as int));
    assert(b =~= sa.subrange(pa.len() as int, sa.len() as int));
}

proof fn lemma_use_indices(items: Seq<ItemDesc>, n: int)
    requires
        0 <= n <= items.len(),
        items.len() <= usize::MAX,
    ensures
        forall|k: int|
            0 <= k < use_indices(items, n).len() ==> #[trigger] use_indices(items, n)[k] < n
                && is_use(items[use_indices(items, n)[k] as int]),
        forall|k1: int, k2: int|
            0 <= k1 < k2 < use_indices(items, n).len() ==> #[trigger] use_indices(items, n)[k1]
                < #[trigger] use_indices(items, n)[k2],
        forall|j: int|
            0 <= j < n && is_use(#[trigger] items[j]) ==> exists|k: int|
                0 <= k < use_indices(items, n).len() && use_indices(items, n)[k] == j,
    decreases n,
{
    if n > 0 {
        lemma_use_indices(items, n - 1);
        let prev = use_indices(items, n - 1);
        let cur = use_indices(items, n);
        if is_use(items[n - 1]) {
            assert(cur == prev.push((n - 1) as usize));
            assert forall|j: int| 0 <= j < n && is_use(#[trigger] items[j]) implies exists|k: int|
                0 <= k < cur.len() && cur[k] == j by {
                if j == n - 1 {
                    assert(cur[prev.len() as int] == j);
                } else {
                    let k = choose|k: int| 0 <= k < prev.len() && prev[k] == j;
                    assert(cur[k] == j);
                }
            }
        } else {
            assert(cur == prev);
        }
    }
}

proof fn lemma_public_indices(items: Seq<ItemDesc>, n: int)
    requires
        0 <= n <= items.len(),
        items.len() <= usize::MAX,
    ensures
        forall|k: int|
            0 <= k < public_indices(items, n).len() ==> #[trigger] public_indices(items, n)[k] < n
                && is_public_fn(items[public_indices(items, n)[k] as int]),
        forall|k1: int, k2: int|
            0 <= k1 < k2 < public_indices(items, n).len() ==> #[trigger] public_indices(items, n)[k1]
                < #[trigger] public_indices(items, n)[k2],
        forall|j: int|
            0 <= j < n && is_public_fn(#[trigger] items[j]) ==> exists|k: int|
                0 <= k < public_indices(items, n).len() && public_indices(items, n)[k] == j,
    decreases n,
{
    if n > 0 {
        lemma_public_indices(items, n - 1);
        let prev = public_indices(items, n - 1);
        let cur = public_indices(items, n);
        if is_public_fn(items[n - 1]) {
            assert(cur == prev.push((n - 1) as usize));
            assert forall|j: int| 0 <= j < n && is_public_fn(#[trigger] items[j]) implies exists|k: int|
                0 <= k < cur.len() && cur[k] == j by {
                if j == n - 1 {
                    assert(cur[prev.len() as int] == j);
                } else {
                    let k = choose|k: int| 0 <= k < prev.len() && prev[k] == j;
                    assert(cur[k] == j);
                }
            }
        } else {
            assert(cur == prev);
        }
    }
}

/// A return type that is a plain one-segment path gets the kind registered
/// under its name (`bool`, `c_int`, `c_float`, `idVec3`, `idEntity`); any other
/// name is unknown. A `*const` pointer to a plain `c_char` gets the string kind,
/// and to any other plain name is refused.
pub proof fn law_output_kind_by_name(p: TypePathDesc)
    requires
        !p.has_qself,
        !p.leading_colon,
        p.segments@.len() == 1,
    ensures
        p.segments@[0]@ == "bool"@ ==> spec_output_kind(ReturnDesc::Path(p)) == Ok::<
            Option<ReturnKind>,
            FnError,
        >(Some(ReturnKind::Bool)),
        p.segments@[0]@ == "c_int"@ ==> spec_output_kind(ReturnDesc::Path(p)) == Ok::<
            Option<ReturnKind>,
            FnError,
        >(Some(ReturnKind::Int)),
        p.segments@[0]@ == "c_float"@ ==> spec_output_kind(ReturnDesc::Path(p)) == Ok::<
            Option<ReturnKind>,
            FnError,
        >(Some(ReturnKind::Float)),
        p.segments@[0]@ == "idVec3"@ ==> spec_output_kind(ReturnDesc::Path(p)) == Ok::<
            Option<ReturnKind>,
            FnError,
        >(Some(ReturnKind::Vec3)),
        p.segments@[0]@ == "idEntity"@ ==> spec_output_kind(ReturnDesc::Path(p)) == Ok::<
            Option<ReturnKind>,
            FnError,
        >(Some(ReturnKind::Entity)),
        (p.segments@[0]@ != "bool"@ && p.segments@[0]@ != "c_int"@ && p.segments@[0]@
            != "c_float"@ && p.segments@[0]@ != "idVec3"@ && p.segments@[0]@ != "idEntity"@
            && p.segments@[0]@ != "*const c_char"@) ==> spec_output_kind(ReturnDesc::Path(p))
            == Err::<Option<ReturnKind>, FnError>(FnError::UnknownType),
        p.segments@[0]@ == "c_char"@ ==> spec_output_kind(
            ReturnDesc::Ptr { is_const: true, elem: PtrElem::Path(p) },
        ) == Ok::<Option<ReturnKind>, FnError>(Some(ReturnKind::CharPtr)),
        p.segments@[0]@ != "c_char"@ ==> spec_output_kind(
            ReturnDesc::Ptr { is_const: true, elem: PtrElem::Path(p) },
        ) == Err::<Option<ReturnKind>, FnError>(FnError::NotCharPointer),
{
    reveal_strlit("bool");
    reveal_strlit("c_int");
    reveal_strlit("c_float");
    reveal_strlit("idVec3");
    reveal_strlit("idEntity");
    reveal_strlit("*const c_char");
    reveal_strlit("c_char");
    assert("c_int"@ != "bool"@) by {
        assert("c_int"@[0] != "bool"@[0]);
    }
    assert("c_float"@ != "bool"@) by {
        assert("c_float"@[0] != "bool"@[0]);
    }
    assert("c_float"@ != "c_int"@) by {
        assert("c_float"@[2] != "c_int"@[2]);
    }
    assert("c_int"@ != "*const c_char"@) by {
        assert("c_int"@[0] != "*const c_char"@[0]);
    }
    assert("c_float"@ != "*const c_char"@) by {
        assert("c_float"@[0] != "*const c_char"@[0]);
    }    assert("idVec3"@ != "bool"@) by {
        assert("idVec3"@[0] != "bool"@[0]);
    }
    assert("idVec3"@ != "c_int"@) by {
        assert("idVec3"@[0] != "c_int"@[0]);
    }
    assert("idVec3"@ != "c_float"@) by {
        assert("idVec3"@[0] != "c_float"@[0]);
    }
    assert("idVec3"@ != "*const c_char"@) by {
        assert("idVec3"@[0] != "*const c_char"@[0]);
    }
    assert("idEntity"@ != "bool"@) by {
        assert("idEntity"@[0] != "bool"@[0]);
    }
    assert("idEntity"@ != "c_int"@) by {
        assert("idEntity"@[0] != "c_int"@[0]);
    }
    assert("idEntity"@ != "c_float"@) by {
        assert("idEntity"@[0] != "c_float"@[0]);
    }
    assert("idEntity"@ != "*const c_char"@) by {
        assert("idEntity"@[0] != "*const c_char"@[0]);
    }
    assert("idEntity"@ != "idVec3"@) by {
        assert("idEntity"@[2] != "idVec3"@[2]);
    }
}

/// The plan keeps exactly the module's `use` items: every kept position holds
/// a `use` item, the positions rise, and every `use` item is kept.
pub proof fn law_plan_keeps_use_items(module: Seq<char>, items: Seq<ItemDesc>, plan: ModulePlan)
    requires
        items.len() <= usize::MAX,
        plan_matches(module, items, plan),
    ensures
        forall|k: int|
            0 <= k < plan.use_items@.len() ==> #[trigger] plan.use_items@[k] < items.len()
                && (items[plan.use_items@[k] as int] matches ItemDesc::Use),
        forall|k1: int, k2: int|
            0 <= k1 < k2 < plan.use_items@.len() ==> #[trigger] plan.use_items@[k1]
                < #[trigger] plan.use_items@[k2],
        forall|j: int|
            0 <= j < items.len() && (#[trigger] items[j] matches ItemDesc::Use) ==> exists|k: int|
                0 <= k < plan.use_items@.len() && plan.use_items@[k] == j,
{
    lemma_use_indices(items, items.len() as int);
    assert forall|j: int|
        0 <= j < items.len() && (#[trigger] items[j] matches ItemDesc::Use) implies exists|k: int|
        0 <= k < plan.use_items@.len() && plan.use_items@[k] == j by {
        assert(is_use(items[j]));
    }
}

/// The plan exports exactly the module's functions whose names do not begin
/// with `_`, wherever they stand, in the module's order, each under the symbol
/// `trm__usermod__<module>__<function>`.
pub proof fn law_plan_exports_public_fns(module: Seq<char>, items: Seq<ItemDesc>, plan: ModulePlan)
    requires
        items.len() <= usize::MAX,
        plan_matches(module, items, plan),
    ensures
        forall|k: int|
            0 <= k < plan.exported@.len() ==> {
                let i = #[trigger] plan.exported@[k].item_index as int;
                &&& 0 <= i < items.len()
                &&& items[i] matches ItemDesc::Fn(f) && !(f.name@.len() > 0 && f.name@[0] == '_')
                    && plan.exported@[k].export_name@ == "trm__usermod__"@ + module + "__"@
                    + f.name@
            },
        forall|k1: int, k2: int|
            0 <= k1 < k2 < plan.exported@.len() ==> (#[trigger] plan.exported@[k1]).item_index
                < (#[trigger] plan.exported@[k2]).item_index,
        forall|j: int|
            0 <= j < items.len() && (#[trigger] items[j] matches ItemDesc::Fn(f) && !(f.name@.len()
                > 0 && f.name@[0] == '_')) ==> exists|k: int|
                0 <= k < plan.exported@.len() && plan.exported@[k].item_index == j,
{
    let pi = public_indices(items, items.len() as int);
    lemma_public_indices(items, items.len() as int);
    assert forall|k: int| 0 <= k < plan.exported@.len() implies #[trigger] plan.exported@[k].item_index
        == pi[k] by {
        assert(exported_matches(module, items, plan.exported@[k], pi[k]));
    }
    assert forall|k1: int, k2: int|
        0 <= k1 < k2 < plan.exported@.len() implies (#[trigger] plan.exported@[k1]).item_index
        < (#[trigger] plan.exported@[k2]).item_index by {
        assert(plan.exported@[k1].item_index == pi[k1]);
        assert(plan.exported@[k2].item_index == pi[k2]);
    }
    assert forall|j: int|
        0 <= j < items.len() && (#[trigger] items[j] matches ItemDesc::Fn(f) && !(f.name@.len() > 0
            && f.name@[0] == '_')) implies exists|k: int|
        0 <= k < plan.exported@.len() && plan.exported@[k].item_index == j by {
        assert(is_public_fn(items[j]));
        let k = choose|k: int| 0 <= k < pi.len() && pi[k] == j;
        assert(plan.exported@[k].item_index == pi[k]);
    }
}

/// The plan's daemon function is the module's first function named exactly
/// `__run`, and there is none where the module has no such function.
pub proof fn law_plan_run_item(module: Seq<char>, items: Seq<ItemDesc>, plan: ModulePlan)
    requires
        items.len() <= usize::MAX,
        plan_matches(module, items, plan),
    ensures
        plan.run_item matches Some(r) ==> {
            &&& r < items.len()
            &&& items[r as int] matches ItemDesc::Fn(f) && f.name@ == "__run"@
            &&& forall|j: int|
                0 <= j < r ==> !(#[trigger] items[j] matches ItemDesc::Fn(g) && g.name@ == "__run"@)
        },
        plan.run_item is None ==> forall|j: int|
            0 <= j < items.len() ==> !(#[trigger] items[j] matches ItemDesc::Fn(g) && g.name@
                == "__run"@),
{
    if has_run(items) {
        let r = choose|r: int| 0 <= r < items.len() && is_run(#[trigger] items[r]);
        lemma_run_has_first(items, r);
        let c = choose|c: int| is_first_run(items, c);
        lemma_first_run_is_scan_end(items, c);
        assert forall|j: int| 0 <= j < c implies !(#[trigger] items[j] matches ItemDesc::Fn(g)
            && g.name@ == "__run"@) by {
            assert(!is_run(items[j]));
        }
    } else {
        assert forall|j: int| 0 <= j < items.len() implies !(#[trigger] items[j] matches ItemDesc::Fn(
            g,
        ) && g.name@ == "__run"@) by {
            if items[j] matches ItemDesc::Fn(g) && g.name@ == "__run"@ {
                assert(is_run(items[j]));
            }
        }
    }
}

proof fn lemma_run_has_first(items: Seq<ItemDesc>, r: int)
    requires
        0 <= r < items.len(),
        is_run(items[r]),
    ensures
        exists|c: int| is_first_run(items, c),
    decreases r,
{
    if no_run_before(items, r) {
        assert(is_first_run(items, r));
    } else {
        let j = choose|j: int| 0 <= j < r && is_run(#[trigger] items[j]);
        lemma_run_has_first(items, j);
    }
}

/// A module is refused for its `daemon` argument exactly where the argument
/// disagrees with whether the module has a function named exactly `__run`;
/// where it agrees, that refusal never comes.
pub proof fn law_daemon_iff_run_fn(module: Seq<char>, daemon: bool, items: Seq<ItemDesc>)
    ensures
        has_run(items) <==> exists|j: int|
            0 <= j < items.len() && (#[trigger] items[j] matches ItemDesc::Fn(g) && g.name@
                == "__run"@),
        spec_plan_error(module, daemon, items) == Some(LibError::DaemonMismatch) ==> (daemon
            != exists|j: int|
            0 <= j < items.len() && (#[trigger] items[j] matches ItemDesc::Fn(g) && g.name@
                == "__run"@)),
        (daemon == exists|j: int|
            0 <= j < items.len() && (#[trigger] items[j] matches ItemDesc::Fn(g) && g.name@
                == "__run"@)) ==> spec_plan_error(module, daemon, items) != Some(
            LibError::DaemonMismatch,
        ),
{
    let named = exists|j: int|
        0 <= j < items.len() && (#[trigger] items[j] matches ItemDesc::Fn(g) && g.name@ == "__run"@);
    if has_run(items) {
        let r = choose|r: int| 0 <= r < items.len() && is_run(#[trigger] items[r]);
        assert(items[r] matches ItemDesc::Fn(g) && g.name@ == "__run"@);
    }
    if named {
        let j = choose|j: int|
            0 <= j < items.len() && (#[trigger] items[j] matches ItemDesc::Fn(g) && g.name@
                == "__run"@);
        assert(is_run(items[j]));
    }
    assert(has_run(items) == named);
    if daemon == named {
        assert(!(daemon != has_run(items)));
        if exists|j: int| is_first_emit_failure(module, items, j) {
            let j = choose|j: int| is_first_emit_failure(module, items, j);
            if is_other(items[j]) {
            } else {
            }
        }
    }
}

} // verus!
