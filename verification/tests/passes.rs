use tsbind::abi::{WasmAbify, wasm_abi_member};
use tsbind::clean::BindingsCleaner;
use tsbind::collide::{ModuleBindingsCleaner, dedupe_bindings};
use tsbind::erase::ByeByeGenerics;
use tsbind::item::{BindingItem, FnAttrs, ItemFn, Param};
use tsbind::ty::{Prim, TypeRep};
use tsbind::item::{SysCrate, TargetItem};
use tsbind::module::{add_sys_uses, collect_pubs};
use tsbind::util::{import_prefix_to_idents, PathSeg, u64_to_dec};

fn named(n: &str) -> TypeRep {
    TypeRep::Path(vec![n.to_string()])
}

fn free_fn(name: &str, ret: TypeRep) -> ItemFn {
    ItemFn {
        name: name.to_string(),
        js_name: None,
        attrs: FnAttrs {
            ctor: false,
            method: false,
            getter: false,
            setter: false,
            static_of: None,
        },
        params: Vec::new(),
        ret: Some(ret),
        ns: Vec::new(),
    }
}

#[test]
fn erases_bare_generic_references() {
    let gens = ByeByeGenerics::new(&vec!["T".to_string()]);
    let erased = gens.erase_type(&TypeRep::BoxedSlice(Box::new(named("T"))));
    match erased {
        TypeRep::BoxedSlice(inner) => assert!(matches!(*inner, TypeRep::JsValue)),
        other => panic!("unexpected erasure result: {other:?}"),
    }
    let kept = gens.erase_type(&named("U"));
    assert!(matches!(kept, TypeRep::Path(_)));
}

#[test]
fn cleanup_flattens_doubled_optionals() {
    let cleaner = BindingsCleaner;
    let t = TypeRep::Opt(Box::new(TypeRep::Opt(Box::new(TypeRep::Prim(Prim::F64)))));
    match cleaner.clean_type(&t) {
        TypeRep::Opt(inner) => assert!(matches!(*inner, TypeRep::Prim(Prim::F64))),
        other => panic!("unexpected cleanup result: {other:?}"),
    }
    let u = TypeRep::Opt(Box::new(TypeRep::JsValue));
    assert!(matches!(cleaner.clean_type(&u), TypeRep::JsValue));
    let s = named("ReadyState");
    assert!(matches!(cleaner.clean_type(&s), TypeRep::Prim(Prim::Str)));
}

#[test]
fn legalization_closes_the_signature_set() {
    let customs = vec!["Foo".to_string()];
    assert!(wasm_abi_member(&TypeRep::Prim(Prim::F64), &customs));
    assert!(wasm_abi_member(&named("Foo"), &customs));
    assert!(wasm_abi_member(&named("AbortSignal"), &customs));
    assert!(wasm_abi_member(&TypeRep::Ref(Box::new(named("Foo"))), &customs));
    assert!(wasm_abi_member(
        &TypeRep::Opt(Box::new(TypeRep::BoxedSlice(Box::new(TypeRep::Prim(Prim::F64))))),
        &customs
    ));
    assert!(!wasm_abi_member(&TypeRep::BoxedSlice(Box::new(TypeRep::Prim(Prim::Str))), &customs));
    assert!(!wasm_abi_member(&named("Bar"), &customs));

    let abify = WasmAbify { customs };
    let kept = abify.legalize_type(named("Foo"));
    assert!(matches!(kept, TypeRep::Path(_)));
    let dropped = abify.legalize_type(named("Bar"));
    assert!(matches!(dropped, TypeRep::JsValue));
    let callable = abify.legalize_type(TypeRep::Ref(Box::new(TypeRep::Callable(vec![], None))));
    assert!(matches!(callable, TypeRep::Ref(_)));
}

#[test]
fn collisions_gain_decimal_suffixes_in_encounter_order() {
    let items = vec![
        BindingItem::Func(free_fn("m", named("A"))),
        BindingItem::Func(free_fn("m", named("A"))),
        BindingItem::Func(free_fn("m", named("A"))),
    ];
    let out = dedupe_bindings(items);
    let names: Vec<&str> = out
        .iter()
        .map(|b| match b {
            BindingItem::Func(f) => f.name.as_str(),
            _ => panic!("unexpected item"),
        })
        .collect();
    assert_eq!(names, vec!["m", "m_1", "m_2"]);
}

#[test]
fn distinct_owners_do_not_collide() {
    // class A { m(): A; } class A2 { m(): A; } keep both `m`s.
    let with_this = |class: &str| {
        let mut f = free_fn("m", named("A"));
        f.attrs.method = true;
        f.params.push(Param {
            name: "this".to_string(),
            ty: TypeRep::Ref(Box::new(named(class))),
        });
        f
    };
    let items = vec![
        BindingItem::Func(with_this("A")),
        BindingItem::Func(with_this("A2")),
    ];
    let out = dedupe_bindings(items);
    for b in &out {
        match b {
            BindingItem::Func(f) => assert_eq!(f.name, "m"),
            _ => panic!("unexpected item"),
        }
    }
}

#[test]
fn self_references_resolve_to_the_owner() {
    let mut f = free_fn("m", named("Self"));
    f.attrs.method = true;
    f.params.insert(
        0,
        Param { name: "this".to_string(), ty: TypeRep::Ref(Box::new(named("A"))) },
    );
    let mut cleaner = ModuleBindingsCleaner::new();
    let out = cleaner.visit_foreign_item(BindingItem::Func(f));
    match out {
        BindingItem::Func(g) => match &g.ret {
            Some(TypeRep::Path(segs)) => assert_eq!(segs, &vec!["A".to_string()]),
            other => panic!("expected the owner's name, got {other:?}"),
        },
        other => panic!("unexpected item: {other:?}"),
    }
}

#[test]
fn relative_import_paths_route_upward() {
    let segs = import_prefix_to_idents("../util.js");
    assert_eq!(segs.len(), 3);
    assert!(matches!(segs[0], PathSeg::Up));
    assert!(matches!(segs[1], PathSeg::Up));
    match &segs[2] {
        PathSeg::Named(n) => assert_eq!(n, "utilMod"),
        other => panic!("expected a named scope, got {other:?}"),
    }
    let again = import_prefix_to_idents("../../a");
    assert_eq!(again.len(), 4);
    assert!(matches!(again[2], PathSeg::Up));
}

#[test]
fn decimal_suffix_digits() {
    assert_eq!(u64_to_dec(0), "0");
    assert_eq!(u64_to_dec(7), "7");
    assert_eq!(u64_to_dec(120), "120");
}

#[test]
fn collects_pub_names_and_synthesizes_known_imports() {
    let mut handle = free_fn("take", named("Foo"));
    handle.params.push(tsbind::item::Param {
        name: "sig".to_string(),
        ty: TypeRep::Ref(Box::new(named("AbortSignal"))),
    });
    handle.params.push(tsbind::item::Param {
        name: "buf".to_string(),
        ty: named("Uint8Array"),
    });
    let items = vec![TargetItem::ForeignMod(vec![
        BindingItem::Opaque(tsbind::item::ItemOpaque {
            name: "Foo".to_string(),
            js_name: Some("Foo".to_string()),
            extends: None,
            ns: Vec::new(),
        }),
        BindingItem::Func(handle),
    ])];
    let pubs = collect_pubs(&items);
    assert_eq!(pubs, vec!["Foo".to_string(), "take".to_string()]);
    let sys = add_sys_uses(&items, &pubs);
    assert_eq!(sys.len(), 2);
    assert!(matches!(sys[0].lib, SysCrate::WebSys));
    assert_eq!(sys[0].name, "AbortSignal");
    assert!(matches!(sys[1].lib, SysCrate::JsSys));
    assert_eq!(sys[1].name, "Uint8Array");
}
