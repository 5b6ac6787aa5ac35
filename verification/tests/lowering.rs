use tsbind::decl::{
    Accessibility, ClassMember, ClassShape, ForeignDecl, MethodKind, TyElem, decl_to_items,
};
use tsbind::diag::{Diag, LowerError};
use tsbind::item::{BindingItem, TargetItem};
use tsbind::ty::{FPat, FnShape, ForeignType, Keyword, Prim, TypeRep};
use tsbind::tymap::ts_type_to_type;
use tsbind::util::sanitize_sym;

fn kw(k: Keyword) -> ForeignType {
    ForeignType::Keyword(k)
}

#[test]
fn sanitizes_casing_and_keywords() {
    assert_eq!(sanitize_sym("fooBar"), "fooBar");
    assert_eq!(sanitize_sym("URL"), "URL");
    assert_eq!(sanitize_sym("HTMLElement"), "HtmlElement");
    assert_eq!(sanitize_sym("type"), "r#type");
    assert_eq!(sanitize_sym("self"), "self_rs");
    assert_eq!(sanitize_sym("super"), "super_rs");
    assert_eq!(sanitize_sym("crate"), "crate_rs");
}

#[test]
fn maps_primitive_keywords() {
    let mut diags: Vec<Diag> = Vec::new();
    assert!(matches!(
        ts_type_to_type(&kw(Keyword::Num), &mut diags),
        Ok(TypeRep::Prim(Prim::F64))
    ));
    assert!(matches!(
        ts_type_to_type(&kw(Keyword::Boolean), &mut diags),
        Ok(TypeRep::Prim(Prim::Bool))
    ));
    assert!(matches!(
        ts_type_to_type(&kw(Keyword::Str), &mut diags),
        Ok(TypeRep::Prim(Prim::Str))
    ));
    assert!(matches!(ts_type_to_type(&kw(Keyword::Any), &mut diags), Ok(TypeRep::JsValue)));
    assert!(matches!(
        ts_type_to_type(&kw(Keyword::BigInt), &mut diags),
        Err(LowerError::UnsupportedKeyword)
    ));
    assert!(diags.is_empty());
}

#[test]
fn maps_array_and_optional() {
    let mut diags: Vec<Diag> = Vec::new();
    let t = ForeignType::ArrayType(Box::new(kw(Keyword::Num)));
    match ts_type_to_type(&t, &mut diags) {
        Ok(TypeRep::BoxedSlice(inner)) => {
            assert!(matches!(*inner, TypeRep::Prim(Prim::F64)));
        }
        other => panic!("unexpected mapping: {other:?}"),
    }
    let u = ForeignType::UnionType(vec![kw(Keyword::Str), kw(Keyword::Undefined)]);
    match ts_type_to_type(&u, &mut diags) {
        Ok(TypeRep::Opt(inner)) => {
            assert!(matches!(*inner, TypeRep::Prim(Prim::Str)));
        }
        other => panic!("unexpected mapping: {other:?}"),
    }
    assert!(diags.is_empty());
}

#[test]
fn wide_union_is_dynamic_with_diagnostic() {
    let mut diags: Vec<Diag> = Vec::new();
    let u = ForeignType::UnionType(vec![
        ForeignType::TypeRef { name: vec!["SomeUnknownUnion".to_string()], type_args: vec![] },
        kw(Keyword::Num),
        kw(Keyword::Str),
    ]);
    assert!(matches!(ts_type_to_type(&u, &mut diags), Ok(TypeRep::JsValue)));
    assert_eq!(diags.len(), 1);
    assert!(matches!(diags[0], Diag::UnionShape));
}

#[test]
fn class_with_constructor_and_method() {
    // class Foo { constructor(x: number); bar(): string; }
    let decl = ForeignDecl::ClassDecl {
        name: "Foo".to_string(),
        class: ClassShape {
            super_ident: None,
            type_params: vec![],
            body: vec![
                ClassMember::Ctor {
                    accessibility: None,
                    key: Some("constructor".to_string()),
                    params: vec![FPat::Ident {
                        name: "x".to_string(),
                        optional: false,
                        ann: Some(kw(Keyword::Num)),
                    }],
                },
                ClassMember::Method {
                    accessibility: None,
                    key: Some("bar".to_string()),
                    kind: MethodKind::MethodK,
                    is_static: false,
                    function: FnShape {
                        params: vec![],
                        type_params: vec![],
                        return_type: Some(kw(Keyword::Str)),
                    },
                },
            ],
        },
    };
    let mut diags: Vec<Diag> = Vec::new();
    let items = decl_to_items(&decl, &mut diags).expect("class lowers");
    assert_eq!(items.len(), 3);
    match &items[0] {
        BindingItem::Opaque(o) => {
            assert_eq!(o.name, "Foo");
            assert_eq!(o.js_name.as_deref(), Some("Foo"));
            assert!(o.extends.is_none());
        }
        other => panic!("expected opaque handle, got {other:?}"),
    }
    match &items[1] {
        BindingItem::Func(f) => {
            assert_eq!(f.name, "new");
            assert!(f.attrs.ctor);
            assert_eq!(f.params.len(), 1);
            assert_eq!(f.params[0].name, "x");
            assert!(matches!(f.params[0].ty, TypeRep::Prim(Prim::F64)));
            match &f.ret {
                Some(TypeRep::Path(segs)) => assert_eq!(segs, &vec!["Foo".to_string()]),
                other => panic!("expected class handle return, got {other:?}"),
            }
        }
        other => panic!("expected constructor binding, got {other:?}"),
    }
    match &items[2] {
        BindingItem::Func(f) => {
            assert_eq!(f.name, "bar");
            assert!(f.attrs.method && !f.attrs.getter && !f.attrs.setter);
            assert_eq!(f.js_name.as_deref(), Some("bar"));
            assert_eq!(f.params.len(), 1);
            assert_eq!(f.params[0].name, "this");
            match &f.params[0].ty {
                TypeRep::Ref(inner) => match inner.as_ref() {
                    TypeRep::Path(segs) => assert_eq!(segs, &vec!["Foo".to_string()]),
                    other => panic!("expected receiver path, got {other:?}"),
                },
                other => panic!("expected receiver reference, got {other:?}"),
            }
            assert!(matches!(f.ret, Some(TypeRep::Prim(Prim::Str))));
        }
        other => panic!("expected method binding, got {other:?}"),
    }
    assert!(diags.is_empty());
}

#[test]
fn alias_with_optional_readonly_property() {
    // type T = { readonly x?: number };
    let decl = ForeignDecl::AliasDecl {
        name: "T".to_string(),
        type_params: vec![],
        members: Some(vec![TyElem::PropSig {
            key: Some("x".to_string()),
            has_params: false,
            is_optional: true,
            ann: Some(kw(Keyword::Num)),
            type_params: vec![],
        }]),
    };
    let mut diags: Vec<Diag> = Vec::new();
    let items = decl_to_items(&decl, &mut diags).expect("alias lowers");
    assert_eq!(items.len(), 2);
    match &items[1] {
        BindingItem::Func(f) => {
            assert_eq!(f.name, "x");
            match &f.ret {
                Some(TypeRep::Opt(inner)) => {
                    assert!(matches!(**inner, TypeRep::Prim(Prim::F64)));
                }
                other => panic!("expected optional accessor, got {other:?}"),
            }
        }
        other => panic!("expected accessor binding, got {other:?}"),
    }
}

#[test]
fn void_function_has_no_return_type() {
    // function f(): void {}
    let decl = ForeignDecl::FnDeclF {
        name: "f".to_string(),
        function: FnShape {
            params: vec![],
            type_params: vec![],
            return_type: Some(kw(Keyword::Void)),
        },
    };
    let mut diags: Vec<Diag> = Vec::new();
    let items = decl_to_items(&decl, &mut diags).expect("function lowers");
    assert_eq!(items.len(), 1);
    match &items[0] {
        BindingItem::Func(f) => {
            assert_eq!(f.name, "f");
            assert!(f.ret.is_none());
            assert!(!f.attrs.ctor && !f.attrs.method);
        }
        other => panic!("expected function binding, got {other:?}"),
    }
}

#[test]
fn private_method_is_skipped() {
    // class C { private m(): void; m(): void; } lowers the public one only.
    let mk_m = |acc: Option<Accessibility>| ClassMember::Method {
        accessibility: acc,
        key: Some("m".to_string()),
        kind: MethodKind::MethodK,
        is_static: false,
        function: FnShape { params: vec![], type_params: vec![], return_type: None },
    };
    let decl = ForeignDecl::ClassDecl {
        name: "C".to_string(),
        class: ClassShape {
            super_ident: None,
            type_params: vec![],
            body: vec![mk_m(Some(Accessibility::PrivateAcc)), mk_m(None)],
        },
    };
    let mut diags: Vec<Diag> = Vec::new();
    let items = decl_to_items(&decl, &mut diags).expect("class lowers");
    assert_eq!(items.len(), 2);
    match &items[1] {
        BindingItem::Func(f) => assert_eq!(f.name, "m"),
        other => panic!("expected the public method, got {other:?}"),
    }
}

#[test]
fn enum_declaration_is_fatal() {
    let decl = ForeignDecl::EnumDeclF { name: "E".to_string() };
    let mut diags: Vec<Diag> = Vec::new();
    assert!(matches!(decl_to_items(&decl, &mut diags), Err(LowerError::EnumDecl)));
}

#[test]
fn parenthesized_types_unwrap() {
    let mut diags: Vec<Diag> = Vec::new();
    let t = ForeignType::ParenType(Box::new(kw(Keyword::Num)));
    assert!(matches!(ts_type_to_type(&t, &mut diags), Ok(TypeRep::Prim(Prim::F64))));
    assert!(diags.is_empty());
}

#[test]
fn function_types_carry_their_return() {
    let mut diags: Vec<Diag> = Vec::new();
    let t = ForeignType::FnType {
        params: vec![FPat::Ident {
            name: "x".to_string(),
            optional: false,
            ann: Some(kw(Keyword::Num)),
        }],
        type_params: vec![],
        ret_ty: Some(Box::new(kw(Keyword::Str))),
    };
    match ts_type_to_type(&t, &mut diags) {
        Ok(TypeRep::Ref(inner)) => match *inner {
            TypeRep::Callable(params, ret) => {
                assert_eq!(params.len(), 1);
                assert!(matches!(params[0], TypeRep::Prim(Prim::F64)));
                match ret {
                    Some(r) => assert!(matches!(*r, TypeRep::Prim(Prim::Str))),
                    None => panic!("expected a callable return type"),
                }
            }
            other => panic!("expected a callable, got {other:?}"),
        },
        other => panic!("expected a borrowed callable, got {other:?}"),
    }
    let v = ForeignType::FnType {
        params: vec![],
        type_params: vec![],
        ret_ty: Some(Box::new(kw(Keyword::Void))),
    };
    match ts_type_to_type(&v, &mut diags) {
        Ok(TypeRep::Ref(inner)) => match *inner {
            TypeRep::Callable(params, ret) => {
                assert!(params.is_empty());
                assert!(ret.is_none());
            }
            other => panic!("expected a callable, got {other:?}"),
        },
        other => panic!("expected a borrowed callable, got {other:?}"),
    }
    assert!(diags.is_empty());
}

#[test]
fn statics_record_the_raw_declared_name() {
    let decl = ForeignDecl::VarDeclF {
        decls: vec![FPat::Ident {
            name: "self".to_string(),
            optional: false,
            ann: Some(kw(Keyword::Num)),
        }],
    };
    let mut diags: Vec<Diag> = Vec::new();
    let items = decl_to_items(&decl, &mut diags).expect("variable lowers");
    assert_eq!(items.len(), 1);
    match &items[0] {
        BindingItem::Static(s) => {
            assert_eq!(s.name, "self_rs");
            assert_eq!(s.js_name.as_deref(), Some("self"));
            assert!(matches!(s.ty, TypeRep::Prim(Prim::F64)));
        }
        other => panic!("expected a static binding, got {other:?}"),
    }
}
