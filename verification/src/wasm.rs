use vstd::prelude::*;

use crate::item::{BindingItem, BindingItemV, ItemFn, ItemFnV};
use crate::ty::{TypeRep, TypeRepV, ty_view, view_strings, clone_strings};
use crate::util::str_eq;

verus! {

/// The dynamic value type of the call boundary.
pub fn js_value() -> (r: TypeRep)
    ensures
        ty_view(r) == TypeRepV::JsValue,
{
    TypeRep::JsValue
}

/// The owner a function binding is disambiguated under: the type it is a
/// static member of, the type its constructor returns, or the type of its
/// receiver parameter; a free function has none.
pub open spec fn spec_method_of(f: ItemFnV) -> Option<Seq<Seq<char>>> {
    if f.attrs.static_of is Some {
        Option::Some(seq![f.attrs.static_of->0])
    } else if f.attrs.ctor && f.ret matches Option::Some(TypeRepV::Path(p)) {
        Option::Some(f.ret->0->Path_0)
    } else if f.params.len() > 0 && f.params[0].name == "this"@ && (f.params[0].ty matches
    TypeRepV::Ref(inner) && (*inner matches TypeRepV::Path(p))) {
        Option::Some(f.params[0].ty->Ref_0->Path_0)
    } else {
        Option::None
    }
}

/// Computes the owning type's path for a function binding, if it has one.
pub fn method_of(f: &ItemFn) -> (r: Option<Vec<String>>)
    ensures
        match r {
            Option::Some(p) => spec_method_of(f@) == Option::Some(view_strings(p@)),
            Option::None => spec_method_of(f@) is None,
        },
{
    match &f.attrs.static_of {
        Option::Some(c) => {
            let segs: Vec<String> = vec![c.clone()];
            proof {
                assert(view_strings(segs@) =~~= seq![c@]);
            }
            return Option::Some(segs);
        },
        Option::None => {},
    }
    if f.attrs.ctor {
        match &f.ret {
            Option::Some(TypeRep::Path(p)) => {
                proof {
                    assert(f@.ret == Option::Some(ty_view(f.ret->0)));
                }
                return Option::Some(clone_strings(p));
            },
            _ => {},
        }
    }
    proof {
        match &f.ret {
            Option::Some(t0) => {
                lemma_ty_view_shapes(*t0);
            },
            Option::None => {},
        }
    }
    if f.params.len() > 0 {
        let p0 = &f.params[0];
        if str_eq(p0.name.as_str(), "this") {
            match &p0.ty {
                TypeRep::Ref(inner) => match &**inner {
                    TypeRep::Path(p) => {
                        proof {
                            assert(crate::item::params_view(f.params@)[0] == f.params@[0]@);
                            assert(ty_view(**inner) == TypeRepV::Path(view_strings(p@)));
                            assert(ty_view(p0.ty) == TypeRepV::Ref(Box::new(ty_view(**inner))));
                        }
                        return Option::Some(clone_strings(p));
                    },
                    _ => {},
                },
                _ => {},
            }
        }
        proof {
            assert(crate::item::params_view(f.params@)[0] == f.params@[0]@);
            lemma_ty_view_shapes(p0.ty);
        }
    }
    proof {
        assert(crate::item::params_view(f.params@).len() == f.params@.len());
    }
    Option::None
}

/// How the view mirrors the shape of a type: the facts the owner-key
/// computation needs to invert it.
proof fn lemma_ty_view_shapes(t: TypeRep)
    ensures
        (ty_view(t) is Path) == (t is Path),
        (ty_view(t) is Ref) == (t is Ref),
        t is Ref ==> ((*ty_view(t)->Ref_0 is Path) == (*t->Ref_0 is Path)),
    decreases t,
{
    match t {
        TypeRep::Ref(b) => {
            lemma_ty_view_shapes(*b);
            assert(ty_view(t) == TypeRepV::Ref(Box::new(ty_view(*b))));
        },
        _ => {},
    }
}

/// The recorded superclass of an opaque type binding, if any.
pub open spec fn spec_extends(b: BindingItemV) -> Option<Seq<char>> {
    match b {
        BindingItemV::Opaque(o) => o.extends,
        _ => Option::None,
    }
}

/// Reads the extends-relation off a binding item.
pub fn extends(b: &BindingItem) -> (r: Option<&String>)
    ensures
        match r {
            Option::Some(s) => spec_extends(b@) == Option::Some(s@),
            Option::None => spec_extends(b@) is None,
        },
{
    match b {
        BindingItem::Opaque(o) => match &o.extends {
            Option::Some(s) => Option::Some(s),
            Option::None => Option::None,
        },
        _ => Option::None,
    }
}

} // verus!
