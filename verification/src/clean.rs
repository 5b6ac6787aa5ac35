use vstd::prelude::*;

use crate::catalog::{is_known_string_type, known_string_type};
use crate::item::{
    BindingItem, BindingItemV, ItemFn, ItemFnV, Param, ParamV, TargetItem, TargetItemV,
    bindings_view, params_view, targets_view, opt_ty_view,
};
use crate::ty::{Prim, TypeRep, TypeRepV, clone_strings, lemma_tys_view, ty_view, tys_view,
    view_strings};

verus! {

broadcast use {crate::ty::lemma_tys_view, crate::item::lemma_targets_view};

// ---------------------------------------------------------------------------
// The cleanup rewrite on one type.
// ---------------------------------------------------------------------------

/// The binding cleanup rewrite: an optional of an optional or of the
/// dynamic value type loses its outer wrapper, and a known external
/// string-enum-like type becomes the owned string type.
pub open spec fn spec_clean(t: TypeRepV) -> TypeRepV
    decreases t, 1int,
{
    match t {
        TypeRepV::Opt(i) => match *i {
            TypeRepV::Opt(i2) => TypeRepV::Opt(Box::new(spec_clean(*i2))),
            TypeRepV::JsValue => TypeRepV::JsValue,
            _ => TypeRepV::Opt(Box::new(spec_clean(*i))),
        },
        TypeRepV::Path(segs) => if segs.len() == 1 && known_string_type(segs[0]) {
            TypeRepV::Prim(Prim::Str)
        } else {
            TypeRepV::Path(segs)
        },
        TypeRepV::Ref(i) => TypeRepV::Ref(Box::new(spec_clean(*i))),
        TypeRepV::BoxedSlice(i) => TypeRepV::BoxedSlice(Box::new(spec_clean(*i))),
        TypeRepV::Tup(ts) => TypeRepV::Tup(spec_clean_seq(ts)),
        TypeRepV::Callable(ts, rt) => TypeRepV::Callable(
            spec_clean_seq(ts),
            match rt {
                Option::Some(b) => Option::Some(Box::new(spec_clean(*b))),
                Option::None => Option::None,
            },
        ),
        TypeRepV::Prim(p) => TypeRepV::Prim(p),
        TypeRepV::JsValue => TypeRepV::JsValue,
    }
}

pub open spec fn spec_clean_seq(ts: Seq<TypeRepV>) -> Seq<TypeRepV>
    decreases ts, 0int,
{
    if ts.len() == 0 {
        Seq::empty()
    } else {
        seq![spec_clean(ts[0])] + spec_clean_seq(ts.subrange(1, ts.len() as int))
    }
}

pub broadcast proof fn lemma_spec_clean_seq(ts: Seq<TypeRepV>)
    ensures
        (#[trigger] spec_clean_seq(ts)).len() == ts.len(),
        forall|i: int| 0 <= i < ts.len() ==> spec_clean_seq(ts)[i] == spec_clean(ts[i]),
    decreases ts.len(),
{
    if ts.len() > 0 {
        lemma_spec_clean_seq(ts.subrange(1, ts.len() as int));
    }
}

/// The cleanup rewrite on a whole function binding, on a parameter, and on
/// the item lists of a composed unit.
pub open spec fn spec_clean_param(p: ParamV) -> ParamV {
    ParamV { name: p.name, ty: spec_clean(p.ty) }
}

pub open spec fn spec_clean_fn(f: ItemFnV) -> ItemFnV {
    ItemFnV {
        params: Seq::new(f.params.len(), |i: int| spec_clean_param(f.params[i])),
        ret: match f.ret {
            Option::Some(t) => Option::Some(spec_clean(t)),
            Option::None => Option::None,
        },
        ..f
    }
}

pub open spec fn spec_clean_binding(b: BindingItemV) -> BindingItemV {
    match b {
        BindingItemV::Func(f) => BindingItemV::Func(spec_clean_fn(f)),
        BindingItemV::Static(s) => BindingItemV::Static(
            crate::item::ItemStaticV { ty: spec_clean(s.ty), ..s },
        ),
        BindingItemV::Opaque(o) => BindingItemV::Opaque(o),
    }
}

pub open spec fn spec_clean_bindings(items: Seq<BindingItemV>) -> Seq<BindingItemV> {
    Seq::new(items.len(), |i: int| spec_clean_binding(items[i]))
}

pub open spec fn spec_clean_target(t: TargetItemV) -> TargetItemV
    decreases t, 1int,
{
    match t {
        TargetItemV::ForeignMod(items) => TargetItemV::ForeignMod(spec_clean_bindings(items)),
        TargetItemV::Mod { name, items } => TargetItemV::Mod {
            name,
            items: spec_clean_targets(items),
        },
        other => other,
    }
}

pub open spec fn spec_clean_targets(ts: Seq<TargetItemV>) -> Seq<TargetItemV>
    decreases ts, 0int,
{
    if ts.len() == 0 {
        Seq::empty()
    } else {
        seq![spec_clean_target(ts[0])] + spec_clean_targets(ts.subrange(1, ts.len() as int))
    }
}

pub broadcast proof fn lemma_spec_clean_targets(ts: Seq<TargetItemV>)
    ensures
        (#[trigger] spec_clean_targets(ts)).len() == ts.len(),
        forall|i: int| 0 <= i < ts.len() ==> spec_clean_targets(ts)[i] == spec_clean_target(ts[i]),
    decreases ts.len(),
{
    if ts.len() > 0 {
        lemma_spec_clean_targets(ts.subrange(1, ts.len() as int));
    }
}

// ---------------------------------------------------------------------------
// The executable pass.
// ---------------------------------------------------------------------------

/// The binding cleanup pass: flattens a doubled optional, makes an
/// optional dynamic value plain, and replaces known external
/// string-enum-like types with the owned string type.
pub struct BindingsCleaner;

impl BindingsCleaner {
    /// The cleanup rewrite, applied to one type.
    pub fn clean_type(&self, t: &TypeRep) -> (r: TypeRep)
        ensures
            ty_view(r) == spec_clean(ty_view(*t)),
        decreases *t,
    {
        match t {
            TypeRep::Opt(i) => match &**i {
                TypeRep::Opt(i2) => {
                    let c = self.clean_type(i2);
                    proof {
                        assert(ty_view(*t) == TypeRepV::Opt(Box::new(ty_view(**i))));
                        assert(ty_view(**i) == TypeRepV::Opt(Box::new(ty_view(**i2))));
                    }
                    TypeRep::Opt(Box::new(c))
                },
                TypeRep::JsValue => {
                    proof {
                        assert(ty_view(*t) == TypeRepV::Opt(Box::new(ty_view(**i))));
                    }
                    TypeRep::JsValue
                },
                _ => {
                    let c = self.clean_type(i);
                    proof {
                        assert(ty_view(*t) == TypeRepV::Opt(Box::new(ty_view(**i))));
                        crate::clean::lemma_ty_view_not_opt(&**i);
                    }
                    TypeRep::Opt(Box::new(c))
                },
            },
            TypeRep::Path(segs) => {
                if segs.len() == 1 && is_known_string_type(segs[0].as_str()) {
                    proof {
                        assert(view_strings(segs@)[0] == segs@[0]@);
                    }
                    TypeRep::Prim(Prim::Str)
                } else {
                    proof {
                        if segs@.len() == 1 {
                            assert(view_strings(segs@)[0] == segs@[0]@);
                        }
                        assert(view_strings(segs@).len() == segs@.len());
                    }
                    TypeRep::Path(clone_strings(segs))
                }
            },
            TypeRep::Ref(i) => TypeRep::Ref(Box::new(self.clean_type(i))),
            TypeRep::BoxedSlice(i) => TypeRep::BoxedSlice(Box::new(self.clean_type(i))),
            TypeRep::Tup(ts) => TypeRep::Tup(self.clean_types(ts)),
            TypeRep::Callable(ts, rt) => {
                let cts = self.clean_types(ts);
                let crt = self.clean_opt_box(rt);
                proof {
                    assert(ty_view(*t) == TypeRepV::Callable(
                        tys_view(ts@),
                        crate::ty::opt_box_ty_view(*rt),
                    ));
                }
                TypeRep::Callable(cts, crt)
            },
            TypeRep::Prim(p) => TypeRep::Prim(*p),
            TypeRep::JsValue => TypeRep::JsValue,
        }
    }

    fn clean_opt_box(&self, rt: &Option<Box<TypeRep>>) -> (r: Option<Box<TypeRep>>)
        ensures
            crate::ty::opt_box_ty_view(r) == (match crate::ty::opt_box_ty_view(*rt) {
                Option::Some(b) => Option::Some(Box::new(spec_clean(*b))),
                Option::None => Option::<Box<TypeRepV>>::None,
            }),
        decreases *rt,
    {
        match rt {
            Option::Some(b) => {
                let c = self.clean_type(b);
                let ghost cv = ty_view(c);
                let out = Option::Some(Box::new(c));
                proof {
                    assert(crate::ty::opt_box_ty_view(*rt) == Option::Some(
                        Box::new(ty_view(**b)),
                    ));
                    assert(crate::ty::opt_box_ty_view(out) == Option::Some(Box::new(cv)));
                }
                out
            },
            Option::None => Option::None,
        }
    }

    fn clean_types(&self, ts: &Vec<TypeRep>) -> (r: Vec<TypeRep>)
        ensures
            tys_view(r@) == spec_clean_seq(tys_view(ts@)),
        decreases *ts,
    {
        broadcast use lemma_spec_clean_seq;

        let mut out: Vec<TypeRep> = Vec::new();
        let mut i: usize = 0;
        while i < ts.len()
            invariant
                i <= ts@.len(),
                out@.len() == i,
                forall|j: int| 0 <= j < i ==> tys_view(out@)[j] == spec_clean(tys_view(ts@)[j]),
            decreases ts@.len() - i,
        {
            let c = self.clean_type(&ts[i]);
            let ghost prev = out@;
            out.push(c);
            i = i + 1;
            proof {
                assert forall|j: int| 0 <= j < i implies tys_view(out@)[j] == spec_clean(
                    tys_view(ts@)[j],
                ) by {
                    assert(tys_view(out@)[j] == ty_view(out@[j]));
                    if j < i - 1 {
                        assert(out@[j] == prev[j]);
                        assert(tys_view(prev)[j] == ty_view(prev[j]));
                    } else {
                        assert(out@[j] == c);
                    }
                }
            }
        }
        proof {
            assert(tys_view(out@) =~~= spec_clean_seq(tys_view(ts@)));
        }
        out
    }

    /// The cleanup rewrite, applied to every type of one binding item.
    pub fn clean_binding(&self, b: &BindingItem) -> (r: BindingItem)
        ensures
            r@ == spec_clean_binding(b@),
    {
        match b {
            BindingItem::Func(f) => {
                let mut params: Vec<Param> = Vec::new();
                let ghost oldps = params_view(f.params@);
                let mut i: usize = 0;
                while i < f.params.len()
                    invariant
                        oldps == params_view(f.params@),
                        i <= f.params@.len(),
                        params@.len() == i,
                        forall|j: int| 0 <= j < i ==> params_view(params@)[j] == spec_clean_param(
                            oldps[j],
                        ),
                    decreases f.params@.len() - i,
                {
                    let p = &f.params[i];
                    let np = Param { name: p.name.clone(), ty: self.clean_type(&p.ty) };
                    let ghost npv = np@;
                    let ghost prev = params@;
                    params.push(np);
                    i = i + 1;
                    proof {
                        assert(params_view(f.params@)[i - 1] == f.params@[i - 1]@);
                        assert forall|j: int| 0 <= j < i implies params_view(params@)[j]
                            == spec_clean_param(oldps[j]) by {
                            if j < i - 1 {
                                assert(params@[j] == prev[j]);
                                assert(params_view(prev)[j] == spec_clean_param(oldps[j]));
                            } else {
                                assert(params@[j] == np);
                            }
                        }
                    }
                }
                let ret = match &f.ret {
                    Option::Some(t) => Option::Some(self.clean_type(t)),
                    Option::None => Option::None,
                };
                let out = ItemFn {
                    name: f.name.clone(),
                    js_name: crate::item::clone_opt_string(&f.js_name),
                    attrs: crate::item::clone_attrs(&f.attrs),
                    params,
                    ret,
                    ns: clone_strings(&f.ns),
                };
                proof {
                    assert(params_view(out.params@) =~~= spec_clean_fn(f@).params);
                    assert(out@ == spec_clean_fn(f@));
                }
                BindingItem::Func(out)
            },
            BindingItem::Static(s) => {
                let ty = self.clean_type(&s.ty);
                BindingItem::Static(
                    crate::item::ItemStatic {
                        name: s.name.clone(),
                        js_name: crate::item::clone_opt_string(&s.js_name),
                        ty,
                        ns: clone_strings(&s.ns),
                    },
                )
            },
            BindingItem::Opaque(o) => BindingItem::Opaque(crate::item::clone_opaque(o)),
        }
    }

    fn clean_bindings(&self, items: &Vec<BindingItem>) -> (r: Vec<BindingItem>)
        ensures
            bindings_view(r@) == spec_clean_bindings(bindings_view(items@)),
    {
        let mut out: Vec<BindingItem> = Vec::new();
        let mut i: usize = 0;
        while i < items.len()
            invariant
                i <= items@.len(),
                out@.len() == i,
                forall|j: int| 0 <= j < i ==> bindings_view(out@)[j] == spec_clean_binding(
                    bindings_view(items@)[j],
                ),
            decreases items@.len() - i,
        {
            let c = self.clean_binding(&items[i]);
            let ghost cv = c@;
            let ghost prev = out@;
            out.push(c);
            i = i + 1;
            proof {
                assert(bindings_view(items@)[i - 1] == items@[i - 1]@);
                assert forall|j: int| 0 <= j < i implies bindings_view(out@)[j]
                    == spec_clean_binding(bindings_view(items@)[j]) by {
                    assert(bindings_view(out@)[j] == out@[j]@);
                    if j < i - 1 {
                        assert(out@[j] == prev[j]);
                        assert(bindings_view(prev)[j] == prev[j]@);
                    } else {
                        assert(out@[j] == c);
                    }
                }
            }
        }
        proof {
            assert(bindings_view(out@).len() == out@.len());
            assert(bindings_view(items@).len() == items@.len());
            assert(bindings_view(out@) =~~= spec_clean_bindings(bindings_view(items@)));
        }
        out
    }

    /// The cleanup rewrite, applied to one item of the output tree.
    pub fn clean_target(&self, t: &TargetItem) -> (r: TargetItem)
        ensures
            crate::item::target_view(r) == spec_clean_target(crate::item::target_view(*t)),
        decreases *t,
    {
        match t {
            TargetItem::ForeignMod(items) => TargetItem::ForeignMod(self.clean_bindings(items)),
            TargetItem::Mod { name, items } => TargetItem::Mod {
                name: name.clone(),
                items: self.clean_targets(items),
            },
            TargetItem::UsePrelude => TargetItem::UsePrelude,
            TargetItem::UseSuperGlob => TargetItem::UseSuperGlob,
            TargetItem::UseAlias(u) => TargetItem::UseAlias(crate::item::clone_use_alias(u)),
            TargetItem::SysUse(su) => TargetItem::SysUse(crate::item::clone_sys_use(su)),
        }
    }

    /// The cleanup rewrite over all items of a composed unit, nested scopes
    /// included.
    pub fn clean_targets(&self, items: &Vec<TargetItem>) -> (r: Vec<TargetItem>)
        ensures
            targets_view(r@) == spec_clean_targets(targets_view(items@)),
        decreases *items,
    {
        broadcast use lemma_spec_clean_targets;

        let mut out: Vec<TargetItem> = Vec::new();
        let mut i: usize = 0;
        while i < items.len()
            invariant
                i <= items@.len(),
                out@.len() == i,
                forall|j: int| 0 <= j < i ==> targets_view(out@)[j] == spec_clean_target(
                    targets_view(items@)[j],
                ),
            decreases items@.len() - i,
        {
            let c = self.clean_target(&items[i]);
            let ghost cv = crate::item::target_view(c);
            let ghost prev = out@;
            out.push(c);
            i = i + 1;
            proof {
                assert forall|j: int| 0 <= j < i implies targets_view(out@)[j]
                    == spec_clean_target(targets_view(items@)[j]) by {
                    assert(targets_view(out@)[j] == crate::item::target_view(out@[j]));
                    if j < i - 1 {
                        assert(out@[j] == prev[j]);
                        assert(targets_view(prev)[j] == crate::item::target_view(prev[j]));
                    } else {
                        assert(out@[j] == c);
                    }
                }
            }
        }
        proof {
            assert(targets_view(out@) =~~= spec_clean_targets(targets_view(items@)));
        }
        out
    }
}


/// How the view mirrors the shape of a type, for the optional-flattening
/// step.
pub proof fn lemma_ty_view_not_opt(t: &TypeRep)
    ensures
        (ty_view(*t) is Opt) == (*t is Opt),
        (ty_view(*t) is JsValue) == (*t is JsValue),
{
    match t {
        TypeRep::Prim(p) => {},
        TypeRep::JsValue => {},
        TypeRep::Path(segs) => {},
        TypeRep::Ref(t0) => {},
        TypeRep::Opt(t0) => {},
        TypeRep::BoxedSlice(t0) => {},
        TypeRep::Tup(ts) => {},
        TypeRep::Callable(ts, rt) => {},
    }
}

} // verus!
