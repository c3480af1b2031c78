use therustymod::wrapper::{
    return_kind_named, return_wrapper, wrapper_prefix, wrapper_source, wrapper_suffix,
    finish_return_wrapper, ReturnKind,
};

#[test]
fn registered_type_names() {
    assert_eq!(return_kind_named("bool"), Some(ReturnKind::Bool));
    assert_eq!(return_kind_named("*const c_char"), Some(ReturnKind::CharPtr));
    assert_eq!(return_kind_named("c_float"), Some(ReturnKind::Float));
    assert_eq!(return_kind_named("c_int"), Some(ReturnKind::Int));
    assert_eq!(return_kind_named("idVec3"), Some(ReturnKind::Vec3));
    assert_eq!(return_kind_named("idEntity"), Some(ReturnKind::Entity));
    assert_eq!(return_kind_named("c_char"), None);
    assert_eq!(return_kind_named("i32"), None);
    assert_eq!(return_kind_named(""), None);
}

#[test]
fn bool_wrapper_source() {
    assert_eq!(
        wrapper_source(ReturnKind::Bool),
        "(TRM_SYSTEM.lock().unwrap().return_functions.as_ref().unwrap().return_int)(if result { 1 } else { 0 })"
    );
}

#[test]
fn int_wrapper_source() {
    assert_eq!(
        wrapper_source(ReturnKind::Int),
        "(TRM_SYSTEM.lock().unwrap().return_functions.as_ref().unwrap().return_int)(result)"
    );
    assert_eq!(wrapper_suffix(ReturnKind::Int), ")");
    assert!(wrapper_prefix(ReturnKind::Vec3).ends_with("return_vector)("));
}

#[test]
fn wrappers_that_parse() {
    for kind in [ReturnKind::Bool, ReturnKind::CharPtr, ReturnKind::Float, ReturnKind::Int, ReturnKind::Vec3] {
        let w = return_wrapper(kind).ok().unwrap();
        assert_eq!(w.kind, kind);
        assert_eq!(w.source, wrapper_source(kind));
        assert!(syn::parse_str::<syn::Expr>(&w.source).is_ok());
    }
}

#[test]
fn entity_wrapper_does_not_parse() {
    // Its parentheses do not balance.
    let err = return_wrapper(ReturnKind::Entity).err().unwrap();
    assert_eq!(err, wrapper_source(ReturnKind::Entity));
}

#[test]
fn finishing_a_wrapper() {
    let w = finish_return_wrapper(ReturnKind::Float, "f(result)".to_string(), true).ok().unwrap();
    assert_eq!(w.kind, ReturnKind::Float);
    assert_eq!(w.source, "f(result)");
    let e = finish_return_wrapper(ReturnKind::Float, "f(".to_string(), false).err().unwrap();
    assert_eq!(e, "f(");
}
