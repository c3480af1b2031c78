use therustymod::syntax::therustymod_lib_tokens;
use therustymod::args::{ArgToken, ArgsError};
use therustymod::module::{
    check_fn, export_name, output_kind, plan_module, therustymod_lib, therustymod_module_name,
    FnDesc, FnError, ItemDesc, LibError, ModuleDesc, PtrElem, ReturnDesc, TRMDefinition,
    TypePathDesc,
};
use therustymod::wrapper::ReturnKind;

fn path(name: &str) -> TypePathDesc {
    TypePathDesc { has_qself: false, leading_colon: false, segments: vec![name.to_string()] }
}

fn func(name: &str, output: ReturnDesc) -> ItemDesc {
    ItemDesc::Fn(FnDesc { name: name.to_string(), attr_count: 0, output })
}

fn ret(name: &str) -> ReturnDesc {
    ReturnDesc::Path(path(name))
}

fn daemon_args(value: bool) -> Vec<ArgToken> {
    vec![
        ArgToken::Ident("daemon".to_string()),
        ArgToken::Punct('='),
        ArgToken::Ident(if value { "true" } else { "false" }.to_string()),
    ]
}

fn web_module() -> Vec<ItemDesc> {
    vec![
        ItemDesc::Use,
        func("__run", ReturnDesc::Default),
        func("init_mod_web_browser", ret("bool")),
        func("register_module", ret("c_int")),
        func("register_page", ReturnDesc::Default),
        func("_helper", ReturnDesc::Other),
        func("retrieve_drop", ReturnDesc::Ptr { is_const: true, elem: PtrElem::Path(path("c_char")) }),
    ]
}

#[test]
fn export_name_format() {
    assert_eq!(export_name("mod_web_browser", "register_page"), "trm__usermod__mod_web_browser__register_page");
    assert_eq!(export_name("", ""), "trm__usermod____");
}

#[test]
fn distinct_functions_get_distinct_symbols() {
    assert_ne!(export_name("m", "a_b"), export_name("m", "a"));
}

#[test]
fn plans_daemon_module() {
    let items = web_module();
    let plan = plan_module(true, &"mod_web_browser".to_string(), &items).ok().unwrap();
    assert_eq!(plan.use_items, vec![0]);
    assert_eq!(plan.run_item, Some(1));
    let idx: Vec<usize> = plan.exported.iter().map(|e| e.item_index).collect();
    assert_eq!(idx, vec![2, 3, 4, 6]);
    assert_eq!(plan.exported[0].export_name, "trm__usermod__mod_web_browser__init_mod_web_browser");
    assert_eq!(plan.exported[0].wrapper.as_ref().unwrap().kind, ReturnKind::Bool);
    assert_eq!(plan.exported[1].wrapper.as_ref().unwrap().kind, ReturnKind::Int);
    assert!(plan.exported[2].wrapper.is_none());
    assert_eq!(plan.exported[3].wrapper.as_ref().unwrap().kind, ReturnKind::CharPtr);
}

#[test]
fn plans_plain_module() {
    let items = vec![func("get", ret("c_float")), ItemDesc::Use, func("vec", ret("idVec3"))];
    let plan = plan_module(false, &"m".to_string(), &items).ok().unwrap();
    assert_eq!(plan.use_items, vec![1]);
    assert_eq!(plan.run_item, None);
    assert_eq!(plan.exported.len(), 2);
    assert_eq!(plan.exported[1].export_name, "trm__usermod__m__vec");
}

#[test]
fn first_run_is_chosen() {
    let items = vec![func("__run", ReturnDesc::Default), func("__run", ReturnDesc::Default)];
    let plan = plan_module(true, &"m".to_string(), &items).ok().unwrap();
    assert_eq!(plan.run_item, Some(0));
    assert!(plan.exported.is_empty());
}

#[test]
fn daemon_without_run_is_refused() {
    let items = vec![func("f", ReturnDesc::Default)];
    assert_eq!(plan_module(true, &"m".to_string(), &items).err(), Some(LibError::DaemonMismatch));
}

#[test]
fn run_without_daemon_is_refused() {
    let items = web_module();
    assert_eq!(plan_module(false, &"m".to_string(), &items).err(), Some(LibError::DaemonMismatch));
}

#[test]
fn other_item_before_run_precedes_daemon_check() {
    let items = vec![ItemDesc::Other, func("__run", ReturnDesc::Default)];
    assert_eq!(plan_module(false, &"m".to_string(), &items).err(), Some(LibError::UnsupportedItem));
}

#[test]
fn other_item_after_run_follows_daemon_check() {
    let items = vec![func("__run", ReturnDesc::Default), ItemDesc::Other];
    assert_eq!(plan_module(false, &"m".to_string(), &items).err(), Some(LibError::DaemonMismatch));
    assert_eq!(plan_module(true, &"m".to_string(), &items).err(), Some(LibError::UnsupportedItem));
}

#[test]
fn other_item_without_run() {
    let items = vec![func("f", ReturnDesc::Default), ItemDesc::Other];
    assert_eq!(plan_module(true, &"m".to_string(), &items).err(), Some(LibError::UnsupportedItem));
}

#[test]
fn function_with_attributes_is_refused() {
    let items = vec![
        func("ok", ReturnDesc::Default),
        ItemDesc::Fn(FnDesc { name: "f".to_string(), attr_count: 1, output: ret("what") }),
    ];
    assert_eq!(
        plan_module(false, &"m".to_string(), &items).err(),
        Some(LibError::Function { item: 1, reason: FnError::HasAttributes })
    );
}

#[test]
fn first_failing_function_is_reported() {
    let items = vec![
        func("a", ret("c_char")),
        func("b", ReturnDesc::Other),
    ];
    assert_eq!(
        plan_module(false, &"m".to_string(), &items).err(),
        Some(LibError::Function { item: 0, reason: FnError::UnknownType })
    );
}

#[test]
fn private_functions_are_not_checked() {
    let items = vec![func("_a", ReturnDesc::Other), func("b", ret("c_int"))];
    let plan = plan_module(false, &"m".to_string(), &items).ok().unwrap();
    assert_eq!(plan.exported.len(), 1);
    assert_eq!(plan.exported[0].item_index, 1);
}

#[test]
fn entity_return_is_refused() {
    let items = vec![func("e", ret("idEntity"))];
    assert_eq!(
        plan_module(false, &"m".to_string(), &items).err(),
        Some(LibError::Function { item: 0, reason: FnError::WrapperParse(ReturnKind::Entity) })
    );
}

#[test]
fn return_type_errors() {
    let q = ReturnDesc::Path(TypePathDesc { has_qself: true, leading_colon: true, segments: vec![] });
    assert_eq!(output_kind(&q), Err(FnError::SelfReturnType));
    let c = ReturnDesc::Path(TypePathDesc { has_qself: false, leading_colon: true, segments: vec!["bool".to_string()] });
    assert_eq!(output_kind(&c), Err(FnError::LeadingColon));
    let m = ReturnDesc::Path(TypePathDesc {
        has_qself: false,
        leading_colon: false,
        segments: vec!["std".to_string(), "bool".to_string()],
    });
    assert_eq!(output_kind(&m), Err(FnError::MultiSegment));
    assert_eq!(output_kind(&ret("u8")), Err(FnError::UnknownType));
    let mutp = ReturnDesc::Ptr { is_const: false, elem: PtrElem::Path(path("c_char")) };
    assert_eq!(output_kind(&mutp), Err(FnError::NonConstPointer));
    let other = ReturnDesc::Ptr { is_const: true, elem: PtrElem::Path(path("u8")) };
    assert_eq!(output_kind(&other), Err(FnError::NotCharPointer));
    let nested = ReturnDesc::Ptr { is_const: true, elem: PtrElem::Other };
    assert_eq!(output_kind(&nested), Err(FnError::UnknownPointerType));
    assert_eq!(output_kind(&ReturnDesc::Other), Err(FnError::UnknownReturnType));
    assert_eq!(output_kind(&ReturnDesc::Default), Ok(None));
    assert_eq!(output_kind(&ret("c_int")), Ok(Some(ReturnKind::Int)));
}

#[test]
fn check_fn_builds_wrapper() {
    let f = FnDesc { name: "f".to_string(), attr_count: 0, output: ret("bool") };
    let w = check_fn(&f).ok().unwrap().unwrap();
    assert_eq!(w.kind, ReturnKind::Bool);
}

#[test]
fn attribute_records_definition_once() {
    let mut definition: Option<TRMDefinition> = None;
    assert_eq!(therustymod_module_name(&definition), "");
    let module = Some(ModuleDesc { name: "mod_snd_generator".to_string(), content: Some(web_module()) });
    let plan = therustymod_lib(&mut definition, &daemon_args(true), &module).ok().unwrap();
    assert_eq!(plan.exported.len(), 4);
    assert_eq!(plan.exported[0].export_name, "trm__usermod__mod_snd_generator__init_mod_web_browser");
    assert_eq!(therustymod_module_name(&definition), "mod_snd_generator");
    assert_eq!(definition.as_ref().unwrap().module_location, "");
    let other = Some(ModuleDesc { name: "again".to_string(), content: Some(vec![]) });
    assert_eq!(
        therustymod_lib(&mut definition, &daemon_args(false), &other).err(),
        Some(LibError::AlreadyDefined)
    );
    assert_eq!(therustymod_module_name(&definition), "mod_snd_generator");
}

#[test]
fn argument_errors_come_first() {
    let mut definition: Option<TRMDefinition> = None;
    let bad = vec![ArgToken::Ident("daemon".to_string())];
    assert_eq!(
        therustymod_lib(&mut definition, &bad, &None).err(),
        Some(LibError::Args(ArgsError::ExpectedEq))
    );
    assert!(definition.is_none());
    assert_eq!(therustymod_lib(&mut definition, &daemon_args(true), &None).err(), Some(LibError::InputNotModule));
    assert!(definition.is_none());
}

#[test]
fn refused_module_still_defines_name() {
    let mut definition: Option<TRMDefinition> = None;
    let module = Some(ModuleDesc { name: "m".to_string(), content: None });
    assert_eq!(therustymod_lib(&mut definition, &daemon_args(false), &module).err(), Some(LibError::MissingContent));
    assert_eq!(therustymod_module_name(&definition), "m");
    let module = Some(ModuleDesc { name: "n".to_string(), content: Some(vec![]) });
    assert_eq!(therustymod_lib(&mut definition, &daemon_args(false), &module).err(), Some(LibError::AlreadyDefined));
}

#[test]
fn empty_module_without_daemon() {
    let mut definition: Option<TRMDefinition> = None;
    let module = Some(ModuleDesc { name: "m".to_string(), content: Some(vec![]) });
    let plan = therustymod_lib(&mut definition, &daemon_args(false), &module).ok().unwrap();
    assert!(plan.use_items.is_empty() && plan.exported.is_empty() && plan.run_item.is_none());
}

#[test]
fn attribute_on_tokens() {
    let mut definition: Option<TRMDefinition> = None;
    let input: proc_macro2::TokenStream = "mod mod_web_browser { use std::ffi::CStr; async fn __run() {} fn init() -> bool { true } fn count() -> c_int { 1 } fn name() -> *const c_char { std::ptr::null() } fn _private() -> u8 { 0 } }"
        .parse()
        .unwrap();
    let (parsed, module, outcome) = therustymod_lib_tokens(&mut definition, &daemon_args(true), input);
    assert!(parsed.is_ok());
    let module = module.unwrap();
    assert_eq!(module.name, "mod_web_browser");
    assert_eq!(module.content.as_ref().unwrap().len(), 6);
    let plan = outcome.ok().unwrap();
    assert_eq!(plan.use_items, vec![0]);
    assert_eq!(plan.run_item, Some(1));
    let names: Vec<&str> = plan.exported.iter().map(|e| e.export_name.as_str()).collect();
    assert_eq!(
        names,
        vec![
            "trm__usermod__mod_web_browser__init",
            "trm__usermod__mod_web_browser__count",
            "trm__usermod__mod_web_browser__name",
        ]
    );
    assert_eq!(plan.exported[2].wrapper.as_ref().unwrap().kind, ReturnKind::CharPtr);
    assert_eq!(therustymod_module_name(&definition), "mod_web_browser");
}

#[test]
fn tokens_that_are_not_a_module() {
    let mut definition: Option<TRMDefinition> = None;
    let input: proc_macro2::TokenStream = "fn f() {}".parse().unwrap();
    let (parsed, module, outcome) = therustymod_lib_tokens(&mut definition, &daemon_args(true), input);
    assert!(parsed.is_err());
    assert!(module.is_none());
    assert_eq!(outcome.err(), Some(LibError::InputNotModule));
    assert!(definition.is_none());
}

#[test]
fn tokens_with_unsupported_items_and_types() {
    let mut definition: Option<TRMDefinition> = None;
    let input: proc_macro2::TokenStream = "mod m { struct S; }".parse().unwrap();
    let (_, _, outcome) = therustymod_lib_tokens(&mut definition, &daemon_args(false), input);
    assert_eq!(outcome.err(), Some(LibError::UnsupportedItem));
    let mut definition: Option<TRMDefinition> = None;
    let input: proc_macro2::TokenStream =
        "mod m { fn a() -> std::os::raw::c_int { 0 } }".parse().unwrap();
    let (_, module, outcome) = therustymod_lib_tokens(&mut definition, &daemon_args(false), input);
    match &module.unwrap().content.unwrap()[0] {
        ItemDesc::Fn(f) => match &f.output {
            ReturnDesc::Path(p) => assert_eq!(p.segments, vec!["std", "os", "raw", "c_int"]),
            _ => panic!("expected a path return type"),
        },
        _ => panic!("expected a function"),
    }
    assert_eq!(outcome.err(), Some(LibError::Function { item: 0, reason: FnError::MultiSegment }));
    let mut definition: Option<TRMDefinition> = None;
    let input: proc_macro2::TokenStream = "mod m { #[inline] fn a() {} fn b() -> *mut c_char { 0 } }".parse().unwrap();
    let (_, _, outcome) = therustymod_lib_tokens(&mut definition, &daemon_args(false), input);
    assert_eq!(outcome.err(), Some(LibError::Function { item: 0, reason: FnError::HasAttributes }));
    let mut definition: Option<TRMDefinition> = None;
    let input: proc_macro2::TokenStream = "mod m { fn b() -> *mut c_char { 0 } }".parse().unwrap();
    let (_, _, outcome) = therustymod_lib_tokens(&mut definition, &daemon_args(false), input);
    assert_eq!(outcome.err(), Some(LibError::Function { item: 0, reason: FnError::NonConstPointer }));
    let mut definition: Option<TRMDefinition> = None;
    let input: proc_macro2::TokenStream = "mod m;".parse().unwrap();
    let (_, _, outcome) = therustymod_lib_tokens(&mut definition, &daemon_args(false), input);
    assert_eq!(outcome.err(), Some(LibError::MissingContent));
}

#[test]
fn raw_identifier_symbol_is_refused() {
    let items = vec![
        func("__run", ReturnDesc::Default),
        func("a", ReturnDesc::Default),
        func("r#b", ReturnDesc::Other),
        ItemDesc::Other,
    ];
    assert_eq!(
        plan_module(true, &"m".to_string(), &items).err(),
        Some(LibError::Function { item: 2, reason: FnError::InvalidSymbol })
    );
    // Without `__run`, the search for it meets the other item first.
    let items = vec![func("r#b", ReturnDesc::Default), ItemDesc::Other];
    assert_eq!(plan_module(false, &"m".to_string(), &items).err(), Some(LibError::UnsupportedItem));
    let items = vec![ItemDesc::Other, func("r#b", ReturnDesc::Default)];
    assert_eq!(plan_module(false, &"m".to_string(), &items).err(), Some(LibError::UnsupportedItem));
    let items = vec![func("a", ReturnDesc::Default)];
    assert_eq!(
        plan_module(false, &"r#m".to_string(), &items).err(),
        Some(LibError::Function { item: 0, reason: FnError::InvalidSymbol })
    );
    let items = vec![func("_r", ReturnDesc::Default)];
    assert!(plan_module(false, &"r#m".to_string(), &items).is_ok());
}

#[test]
fn raw_identifier_from_tokens() {
    let mut definition: Option<TRMDefinition> = None;
    let input: proc_macro2::TokenStream = "mod m { fn r#type() {} }".parse().unwrap();
    let (_, module, outcome) = therustymod_lib_tokens(&mut definition, &daemon_args(false), input);
    match &module.unwrap().content.unwrap()[0] {
        ItemDesc::Fn(f) => assert_eq!(f.name, "r#type"),
        _ => panic!("expected a function"),
    }
    assert_eq!(outcome.err(), Some(LibError::Function { item: 0, reason: FnError::InvalidSymbol }));
}
