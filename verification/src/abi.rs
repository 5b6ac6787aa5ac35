use vstd::prelude::*;

use crate::catalog::{is_known_catalog_type, known_catalog_type};
use crate::item::{
    BindingItem, BindingItemV, ItemFn, ItemFnV, Param, ParamV, TargetItem, TargetItemV,
    bindings_view, params_view, targets_view,
};
use crate::ty::{Prim, TypeRep, TypeRepV, clone_strings, ty_view, tys_view, view_strings};
use crate::util::str_eq;

verus! {

broadcast use {crate::ty::lemma_tys_view, crate::item::lemma_targets_view};

// ---------------------------------------------------------------------------
// The closed boundary-safe type set.
// ---------------------------------------------------------------------------

/// The primitives whose boxed slices cross the boundary: the fixed-width
/// numerics. Character, boolean, unit and string are not sliceable.
pub open spec fn sliceable_prim(p: Prim) -> bool {
    match p {
        Prim::I32 | Prim::Isize | Prim::I64 | Prim::U32 | Prim::Usize | Prim::U64 | Prim::F32
            | Prim::F64 => true,
        _ => false,
    }
}

/// A base member of the boundary-safe set: a primitive, or a bare name from
/// the known-type catalogs or from the unit's own declared types.
pub open spec fn abi_base(t: TypeRepV, customs: Seq<Seq<char>>) -> bool {
    match t {
        TypeRepV::Prim(p) => true,
        TypeRepV::Path(segs) => segs.len() == 1 && (known_catalog_type(segs[0])
            || customs.contains(segs[0])),
        _ => false,
    }
}

/// A base member whose boxed slice is also boundary-safe.
pub open spec fn abi_slice_base(t: TypeRepV, customs: Seq<Seq<char>>) -> bool {
    match t {
        TypeRepV::Prim(p) => sliceable_prim(p),
        TypeRepV::Path(segs) => segs.len() == 1 && (known_catalog_type(segs[0])
            || customs.contains(segs[0])),
        _ => false,
    }
}

/// Membership in the closed boundary-safe type set: the base members, the
/// dynamic value type, and the closure of the base under reference,
/// optional, boxed slice and optional-of-boxed-slice (slices of sliceable
/// bases only).
pub open spec fn abi_legal(t: TypeRepV, customs: Seq<Seq<char>>) -> bool {
    ||| abi_base(t, customs)
    ||| t is JsValue
    ||| (t matches TypeRepV::Ref(i) && abi_base(*i, customs))
    ||| (t matches TypeRepV::Opt(i) && abi_base(*i, customs))
    ||| (t matches TypeRepV::Opt(i) && (*i matches TypeRepV::BoxedSlice(i2) && abi_slice_base(
        *i2,
        customs,
    )))
    ||| (t matches TypeRepV::BoxedSlice(i) && abi_slice_base(*i, customs))
}

/// A borrowed callable, which is always legal at the boundary.
pub open spec fn is_callable_ref(t: TypeRepV) -> bool {
    t matches TypeRepV::Ref(i) && *i is Callable
}

/// What legalization guarantees of every emitted signature type.
pub open spec fn abi_ok(t: TypeRepV, customs: Seq<Seq<char>>) -> bool {
    abi_legal(t, customs) || is_callable_ref(t)
}

/// The legalization rewrite on one signature type: a callable reference and
/// any member of the closed set stay; everything else becomes the dynamic
/// value type.
pub open spec fn spec_legalize(t: TypeRepV, customs: Seq<Seq<char>>) -> TypeRepV {
    if is_callable_ref(t) || abi_legal(t, customs) {
        t
    } else {
        TypeRepV::JsValue
    }
}

/// Every legalized type is boundary-safe.
pub proof fn lemma_legalize_ok(t: TypeRepV, customs: Seq<Seq<char>>)
    ensures
        abi_ok(spec_legalize(t, customs), customs),
{
}

/// Legalizing twice is legalizing once; with the cleanup and mapping passes
/// deterministic, running the type pipeline again on its own output changes
/// nothing.
pub proof fn lemma_legalize_idempotent(t: TypeRepV, customs: Seq<Seq<char>>)
    ensures
        spec_legalize(spec_legalize(t, customs), customs) == spec_legalize(t, customs),
{
}

// ---------------------------------------------------------------------------
// The executable pass.
// ---------------------------------------------------------------------------

fn contains_name(customs: &Vec<String>, s: &String) -> (r: bool)
    ensures
        r == view_strings(customs@).contains(s@),
{
    let mut i: usize = 0;
    while i < customs.len()
        invariant
            i <= customs@.len(),
            forall|j: int| 0 <= j < i ==> view_strings(customs@)[j] != s@,
        decreases customs@.len() - i,
    {
        if str_eq(customs[i].as_str(), s.as_str()) {
            proof {
                assert(view_strings(customs@)[i as int] == s@);
            }
            return true;
        }
        proof {
            assert(view_strings(customs@)[i as int] == customs@[i as int]@);
        }
        i = i + 1;
    }
    false
}

/// Whether a type is a base member of the boundary-safe set; `slice` asks
/// for the sliceable bases instead.
fn abi_base_member(t: &TypeRep, customs: &Vec<String>, slice: bool) -> (r: bool)
    ensures
        !slice ==> r == abi_base(ty_view(*t), view_strings(customs@)),
        slice ==> r == abi_slice_base(ty_view(*t), view_strings(customs@)),
{
    match t {
        TypeRep::Prim(p) => {
            if slice {
                match p {
                    Prim::I32 | Prim::Isize | Prim::I64 | Prim::U32 | Prim::Usize | Prim::U64
                        | Prim::F32 | Prim::F64 => true,
                    _ => false,
                }
            } else {
                true
            }
        },
        TypeRep::Path(segs) => {
            if segs.len() == 1 {
                proof {
                    assert(view_strings(segs@)[0] == segs@[0]@);
                }
                is_known_catalog_type(segs[0].as_str()) || contains_name(customs, &segs[0])
            } else {
                proof {
                    assert(view_strings(segs@).len() == segs@.len());
                }
                false
            }
        },
        _ => false,
    }
}

/// Membership in the closed boundary-safe type set.
pub fn wasm_abi_member(t: &TypeRep, customs: &Vec<String>) -> (r: bool)
    ensures
        r == abi_legal(ty_view(*t), view_strings(customs@)),
{
    if abi_base_member(t, customs, false) {
        return true;
    }
    match t {
        TypeRep::JsValue => true,
        TypeRep::Ref(i) => {
            let b = abi_base_member(i, customs, false);
            proof {
                assert(ty_view(*t) == TypeRepV::Ref(Box::new(ty_view(**i))));
            }
            b
        },
        TypeRep::Opt(i) => {
            proof {
                assert(ty_view(*t) == TypeRepV::Opt(Box::new(ty_view(**i))));
            }
            if abi_base_member(i, customs, false) {
                true
            } else {
                match &**i {
                    TypeRep::BoxedSlice(i2) => {
                        let b = abi_base_member(i2, customs, true);
                        proof {
                            assert(ty_view(**i) == TypeRepV::BoxedSlice(
                                Box::new(ty_view(**i2)),
                            ));
                        }
                        b
                    },
                    _ => {
                        proof {
                            lemma_shape_boxed(&**i);
                        }
                        false
                    },
                }
            }
        },
        TypeRep::BoxedSlice(i) => {
            let b = abi_base_member(i, customs, true);
            proof {
                assert(ty_view(*t) == TypeRepV::BoxedSlice(Box::new(ty_view(**i))));
            }
            b
        },
        _ => {
            proof {
                lemma_shape_all(t);
            }
            false
        },
    }
}

proof fn lemma_shape_boxed(t: &TypeRep)
    ensures
        (ty_view(*t) is BoxedSlice) == (*t is BoxedSlice),
{
    match t {
        TypeRep::Prim(p) => {},
        TypeRep::JsValue => {},
        TypeRep::Path(segs) => {},
        TypeRep::Ref(t0) => {},
        TypeRep::Opt(t0) => {},
        TypeRep::BoxedSlice(t0) => {},
        TypeRep::Tup(ts) => {},
        TypeRep::Callable(ts, rt) => {},
    }
}

proof fn lemma_shape_all(t: &TypeRep)
    ensures
        (ty_view(*t) is JsValue) == (*t is JsValue),
        (ty_view(*t) is Ref) == (*t is Ref),
        (ty_view(*t) is Opt) == (*t is Opt),
        (ty_view(*t) is BoxedSlice) == (*t is BoxedSlice),
        (ty_view(*t) is Callable) == (*t is Callable),
{
    match t {
        TypeRep::Prim(p) => {},
        TypeRep::JsValue => {},
        TypeRep::Path(segs) => {},
        TypeRep::Ref(t0) => {},
        TypeRep::Opt(t0) => {},
        TypeRep::BoxedSlice(t0) => {},
        TypeRep::Tup(ts) => {},
        TypeRep::Callable(ts, rt) => {},
    }
}

/// The legalization pass: makes every signature adhere to the call
/// boundary's representable set, given the names declared by the unit
/// itself.
pub struct WasmAbify {
    pub customs: Vec<String>,
}

impl WasmAbify {
    pub open spec fn customs_view(&self) -> Seq<Seq<char>> {
        view_strings(self.customs@)
    }

    /// The legalization rewrite, applied to one signature type.
    pub fn legalize_type(&self, t: TypeRep) -> (r: TypeRep)
        ensures
            ty_view(r) == spec_legalize(ty_view(t), self.customs_view()),
    {
        let callable = match &t {
            TypeRep::Ref(i) => match &**i {
                TypeRep::Callable(ps, rt) => true,
                _ => false,
            },
            _ => false,
        };
        proof {
            match &t {
                TypeRep::Ref(i) => {
                    assert(ty_view(t) == TypeRepV::Ref(Box::new(ty_view(**i))));
                    lemma_shape_all(&**i);
                },
                _ => {
                    lemma_shape_all(&t);
                },
            }
            assert(callable == is_callable_ref(ty_view(t)));
        }
        if callable {
            t
        } else if wasm_abi_member(&t, &self.customs) {
            t
        } else {
            TypeRep::JsValue
        }
    }

    /// The legalization rewrite over one binding item's signature.
    pub fn legalize_binding(&self, b: &BindingItem) -> (r: BindingItem)
        ensures
            r@ == spec_legalize_binding(b@, self.customs_view()),
    {
        match b {
            BindingItem::Func(f) => {
                let ghost fv = f@;
                let mut params: Vec<Param> = Vec::new();
                let ghost oldps = params_view(f.params@);
                let mut i: usize = 0;
                while i < f.params.len()
                    invariant
                        oldps == params_view(f.params@),
                        i <= f.params@.len(),
                        params@.len() == i,
                        forall|j: int| 0 <= j < i ==> params_view(params@)[j]
                            == spec_legalize_param(oldps[j], self.customs_view()),
                    decreases f.params@.len() - i,
                {
                    let p = &f.params[i];
                    let nt = self.legalize_type(clone_type_here(&p.ty));
                    let np = Param { name: p.name.clone(), ty: nt };
                    let ghost prev = params@;
                    params.push(np);
                    i = i + 1;
                    proof {
                        assert(params_view(f.params@)[i - 1] == f.params@[i - 1]@);
                        assert forall|j: int| 0 <= j < i implies params_view(params@)[j]
                            == spec_legalize_param(oldps[j], self.customs_view()) by {
                            assert(params_view(params@)[j] == params@[j]@);
                            if j < i - 1 {
                                assert(params@[j] == prev[j]);
                                assert(params_view(prev)[j] == prev[j]@);
                            } else {
                                assert(params@[j] == np);
                            }
                        }
                    }
                }
                let ret = match &f.ret {
                    Option::Some(t) => Option::Some(self.legalize_type(clone_type_here(t))),
                    Option::None => Option::None,
                };
                let out = ItemFn {
                    name: f.name.clone(),
                    js_name: crate::item::clone_opt_string(&f.js_name),
                    attrs: crate::item::clone_attrs(&f.attrs),
                    params,
                    ret,
                    ns: clone_strings(&f.ns),
                };
                proof {
                    assert(params_view(out.params@) =~~= spec_legalize_fn(
                        fv,
                        self.customs_view(),
                    ).params);
                    assert(out@ == spec_legalize_fn(fv, self.customs_view()));
                }
                BindingItem::Func(out)
            },
            BindingItem::Static(st) => {
                let ghost sv = st@;
                let ty = self.legalize_type(clone_type_here(&st.ty));
                let out = crate::item::ItemStatic {
                    name: st.name.clone(),
                    js_name: crate::item::clone_opt_string(&st.js_name),
                    ty,
                    ns: clone_strings(&st.ns),
                };
                proof {
                    assert(out@ == crate::item::ItemStaticV {
                        ty: spec_legalize(sv.ty, self.customs_view()),
                        ..sv
                    });
                }
                BindingItem::Static(out)
            },
            BindingItem::Opaque(o) => BindingItem::Opaque(crate::item::clone_opaque(o)),
        }
    }

    fn legalize_bindings(&self, items: &Vec<BindingItem>) -> (r: Vec<BindingItem>)
        ensures
            bindings_view(r@) == spec_legalize_bindings(bindings_view(items@), self.customs_view()),
    {
        let mut out: Vec<BindingItem> = Vec::new();
        let mut i: usize = 0;
        while i < items.len()
            invariant
                i <= items@.len(),
                out@.len() == i,
                forall|j: int| 0 <= j < i ==> bindings_view(out@)[j] == spec_legalize_binding(
                    bindings_view(items@)[j],
                    self.customs_view(),
                ),
            decreases items@.len() - i,
        {
            let nb = self.legalize_binding(&items[i]);
            let ghost prev = out@;
            out.push(nb);
            i = i + 1;
            proof {
                assert(bindings_view(items@)[i - 1] == items@[i - 1]@);
                assert forall|j: int| 0 <= j < i implies bindings_view(out@)[j]
                    == spec_legalize_binding(
                    bindings_view(items@)[j],
                    self.customs_view(),
                ) by {
                    assert(bindings_view(out@)[j] == out@[j]@);
                    if j < i - 1 {
                        assert(out@[j] == prev[j]);
                        assert(bindings_view(prev)[j] == prev[j]@);
                    } else {
                        assert(out@[j] == nb);
                    }
                }
            }
        }
        proof {
            assert(bindings_view(out@).len() == out@.len());
            assert(bindings_view(items@).len() == items@.len());
            assert(bindings_view(out@) =~~= spec_legalize_bindings(
                bindings_view(items@),
                self.customs_view(),
            ));
        }
        out
    }

    /// The legalization rewrite, applied to one item of the output tree.
    pub fn legalize_target(&self, t: &TargetItem) -> (r: TargetItem)
        ensures
            crate::item::target_view(r) == spec_legalize_target(
                crate::item::target_view(*t),
                self.customs_view(),
            ),
        decreases *t,
    {
        match t {
            TargetItem::ForeignMod(items) => TargetItem::ForeignMod(self.legalize_bindings(items)),
            TargetItem::Mod { name, items } => TargetItem::Mod {
                name: name.clone(),
                items: self.legalize_targets(items),
            },
            TargetItem::UsePrelude => TargetItem::UsePrelude,
            TargetItem::UseSuperGlob => TargetItem::UseSuperGlob,
            TargetItem::UseAlias(u) => TargetItem::UseAlias(crate::item::clone_use_alias(u)),
            TargetItem::SysUse(su) => TargetItem::SysUse(crate::item::clone_sys_use(su)),
        }
    }

    /// The legalization pass over all items of a composed unit, nested
    /// scopes included: after it, every emitted signature type belongs to
    /// the boundary-safe set or is a borrowed callable.
    pub fn legalize_targets(&self, items: &Vec<TargetItem>) -> (r: Vec<TargetItem>)
        ensures
            targets_view(r@) == spec_legalize_targets(targets_view(items@), self.customs_view()),
        decreases *items,
    {
        broadcast use lemma_spec_legalize_targets;

        let mut out: Vec<TargetItem> = Vec::new();
        let mut i: usize = 0;
        while i < items.len()
            invariant
                i <= items@.len(),
                out@.len() == i,
                forall|j: int| 0 <= j < i ==> targets_view(out@)[j] == spec_legalize_target(
                    targets_view(items@)[j],
                    self.customs_view(),
                ),
            decreases items@.len() - i,
        {
            let c = self.legalize_target(&items[i]);
            let ghost prev = out@;
            out.push(c);
            i = i + 1;
            proof {
                assert forall|j: int| 0 <= j < i implies targets_view(out@)[j]
                    == spec_legalize_target(
                    targets_view(items@)[j],
                    self.customs_view(),
                ) by {
                    assert(targets_view(out@)[j] == crate::item::target_view(out@[j]));
                    if j < i - 1 {
                        assert(out@[j] == prev[j]);
                        assert(targets_view(prev)[j] == crate::item::target_view(prev[j]));
                    } else {
                        assert(out@[j] == c);
                    }
                }
            }
        }
        proof {
            assert(targets_view(out@) =~~= spec_legalize_targets(
                targets_view(items@),
                self.customs_view(),
            ));
        }
        out
    }
}

/// A fresh copy of a parameter list.
pub fn clone_params(ps: &Vec<Param>) -> (r: Vec<Param>)
    ensures
        params_view(r@) == params_view(ps@),
{
    let mut out: Vec<Param> = Vec::new();
    let mut i: usize = 0;
    while i < ps.len()
        invariant
            i <= ps@.len(),
            out@.len() == i,
            forall|j: int| 0 <= j < i ==> params_view(out@)[j] == params_view(ps@)[j],
        decreases ps@.len() - i,
    {
        let p = &ps[i];
        let np = Param { name: p.name.clone(), ty: clone_type_here(&p.ty) };
        let ghost prev = out@;
        out.push(np);
        i = i + 1;
        proof {
            assert(params_view(ps@)[i - 1] == ps@[i - 1]@);
            assert forall|j: int| 0 <= j < i implies params_view(out@)[j] == params_view(
                ps@,
            )[j] by {
                assert(params_view(out@)[j] == out@[j]@);
                if j < i - 1 {
                    assert(out@[j] == prev[j]);
                    assert(params_view(prev)[j] == prev[j]@);
                }
            }
        }
    }
    proof {
        assert(params_view(out@) =~~= params_view(ps@));
    }
    out
}

fn clone_opt_box_ty(rt: &Option<Box<TypeRep>>) -> (r: Option<Box<TypeRep>>)
    ensures
        crate::ty::opt_box_ty_view(r) == crate::ty::opt_box_ty_view(*rt),
    decreases *rt,
{
    match rt {
        Option::Some(b) => {
            let c = clone_type_here(b);
            let ghost cv = ty_view(c);
            let out = Option::Some(Box::new(c));
            proof {
                assert(crate::ty::opt_box_ty_view(*rt) == Option::Some(Box::new(ty_view(**b))));
                assert(crate::ty::opt_box_ty_view(out) == Option::Some(Box::new(cv)));
            }
            out
        },
        Option::None => Option::None,
    }
}

/// A fresh copy of a type.
pub fn clone_type_here(t: &TypeRep) -> (r: TypeRep)
    ensures
        ty_view(r) == ty_view(*t),
    decreases *t,
{
    match t {
        TypeRep::Prim(p) => TypeRep::Prim(*p),
        TypeRep::JsValue => TypeRep::JsValue,
        TypeRep::Path(segs) => TypeRep::Path(clone_strings(segs)),
        TypeRep::Ref(i) => TypeRep::Ref(Box::new(clone_type_here(i))),
        TypeRep::Opt(i) => TypeRep::Opt(Box::new(clone_type_here(i))),
        TypeRep::BoxedSlice(i) => TypeRep::BoxedSlice(Box::new(clone_type_here(i))),
        TypeRep::Tup(ts) => TypeRep::Tup(clone_types_here(ts)),
        TypeRep::Callable(ts, rt) => {
            let cts = clone_types_here(ts);
            let crt = clone_opt_box_ty(rt);
            proof {
                assert(ty_view(*t) == TypeRepV::Callable(
                    tys_view(ts@),
                    crate::ty::opt_box_ty_view(*rt),
                ));
            }
            TypeRep::Callable(cts, crt)
        },
    }
}

fn clone_types_here(ts: &Vec<TypeRep>) -> (r: Vec<TypeRep>)
    ensures
        tys_view(r@) == tys_view(ts@),
    decreases *ts,
{
    let mut out: Vec<TypeRep> = Vec::new();
    let mut i: usize = 0;
    while i < ts.len()
        invariant
            i <= ts@.len(),
            out@.len() == i,
            forall|j: int| 0 <= j < i ==> tys_view(out@)[j] == tys_view(ts@)[j],
        decreases ts@.len() - i,
    {
        let c = clone_type_here(&ts[i]);
        let ghost prev = out@;
        out.push(c);
        i = i + 1;
        proof {
            assert forall|j: int| 0 <= j < i implies tys_view(out@)[j] == tys_view(ts@)[j] by {
                assert(tys_view(out@)[j] == ty_view(out@[j]));
                if j < i - 1 {
                    assert(out@[j] == prev[j]);
                    assert(tys_view(prev)[j] == ty_view(prev[j]));
                } else {
                    assert(out@[j] == c);
                }
            }
        }
    }
    proof {
        assert(tys_view(out@) =~~= tys_view(ts@));
    }
    out
}

/// The legalization rewrite on a parameter, a function, a binding item, and
/// the item lists of a composed unit.
pub open spec fn spec_legalize_param(p: ParamV, customs: Seq<Seq<char>>) -> ParamV {
    ParamV { name: p.name, ty: spec_legalize(p.ty, customs) }
}

pub open spec fn spec_legalize_fn(f: ItemFnV, customs: Seq<Seq<char>>) -> ItemFnV {
    ItemFnV {
        params: Seq::new(f.params.len(), |i: int| spec_legalize_param(f.params[i], customs)),
        ret: match f.ret {
            Option::Some(t) => Option::Some(spec_legalize(t, customs)),
            Option::None => Option::None,
        },
        ..f
    }
}

pub open spec fn spec_legalize_bindings(items: Seq<BindingItemV>, customs: Seq<Seq<char>>) -> Seq<
    BindingItemV,
> {
    Seq::new(items.len(), |i: int| spec_legalize_binding(items[i], customs))
}

pub open spec fn spec_legalize_binding(b: BindingItemV, customs: Seq<Seq<char>>) -> BindingItemV {
    match b {
        BindingItemV::Func(f) => BindingItemV::Func(spec_legalize_fn(f, customs)),
        BindingItemV::Static(s) => BindingItemV::Static(
            crate::item::ItemStaticV { ty: spec_legalize(s.ty, customs), ..s },
        ),
        BindingItemV::Opaque(o) => BindingItemV::Opaque(o),
    }
}


pub open spec fn spec_legalize_target(t: TargetItemV, customs: Seq<Seq<char>>) -> TargetItemV
    decreases t, 1int,
{
    match t {
        TargetItemV::ForeignMod(items) => TargetItemV::ForeignMod(
            spec_legalize_bindings(items, customs),
        ),
        TargetItemV::Mod { name, items } => TargetItemV::Mod {
            name,
            items: spec_legalize_targets(items, customs),
        },
        other => other,
    }
}

pub open spec fn spec_legalize_targets(ts: Seq<TargetItemV>, customs: Seq<Seq<char>>) -> Seq<
    TargetItemV,
>
    decreases ts, 0int,
{
    if ts.len() == 0 {
        Seq::empty()
    } else {
        seq![spec_legalize_target(ts[0], customs)] + spec_legalize_targets(
            ts.subrange(1, ts.len() as int),
            customs,
        )
    }
}

pub broadcast proof fn lemma_spec_legalize_targets(ts: Seq<TargetItemV>, customs: Seq<Seq<char>>)
    ensures
        (#[trigger] spec_legalize_targets(ts, customs)).len() == ts.len(),
        forall|i: int| 0 <= i < ts.len() ==> spec_legalize_targets(ts, customs)[i]
            == spec_legalize_target(ts[i], customs),
    decreases ts.len(),
{
    if ts.len() > 0 {
        lemma_spec_legalize_targets(ts.subrange(1, ts.len() as int), customs);
    }
}

// ---------------------------------------------------------------------------
// The closure property of legalized output.
// ---------------------------------------------------------------------------

/// Every parameter and return type of the binding is boundary-safe.
pub open spec fn binding_abi_ok(b: BindingItemV, customs: Seq<Seq<char>>) -> bool {
    match b {
        BindingItemV::Func(f) => {
            &&& forall|i: int| 0 <= i < f.params.len() ==> abi_ok(
                #[trigger] f.params[i].ty,
                customs,
            )
            &&& (f.ret matches Option::Some(t) ==> abi_ok(t, customs))
        },
        BindingItemV::Static(s) => abi_ok(s.ty, customs),
        BindingItemV::Opaque(o) => true,
    }
}

pub open spec fn bindings_abi_ok(items: Seq<BindingItemV>, customs: Seq<Seq<char>>) -> bool {
    forall|i: int| 0 <= i < items.len() ==> binding_abi_ok(#[trigger] items[i], customs)
}

/// Every signature type of the composed unit is boundary-safe, nested
/// scopes included.
pub open spec fn targets_abi_ok(ts: Seq<TargetItemV>, customs: Seq<Seq<char>>) -> bool
    decreases ts,
{
    forall|i: int| 0 <= i < ts.len() ==> target_abi_ok(#[trigger] ts[i], customs)
}

pub open spec fn target_abi_ok(t: TargetItemV, customs: Seq<Seq<char>>) -> bool
    decreases t, 1int,
{
    match t {
        TargetItemV::ForeignMod(items) => bindings_abi_ok(items, customs),
        TargetItemV::Mod { name, items } => targets_abi_ok_seq(items, customs),
        _ => true,
    }
}

pub open spec fn targets_abi_ok_seq(ts: Seq<TargetItemV>, customs: Seq<Seq<char>>) -> bool
    decreases ts, 0int,
{
    forall|i: int| 0 <= i < ts.len() ==> target_abi_ok(#[trigger] ts[i], customs)
}

/// The closure property: after legalization, every parameter and return
/// type of every emitted function and static binding is a member of the
/// boundary-safe closed set, or a borrowed callable.
pub proof fn lemma_legalize_closure(ts: Seq<TargetItemV>, customs: Seq<Seq<char>>)
    ensures
        targets_abi_ok_seq(spec_legalize_targets(ts, customs), customs),
    decreases ts, 2int,
{
    broadcast use lemma_spec_legalize_targets;

    assert forall|i: int| 0 <= i < ts.len() implies target_abi_ok(
        #[trigger] spec_legalize_targets(ts, customs)[i],
        customs,
    ) by {
        lemma_legalize_closure_target(ts[i], customs);
    }
}

pub proof fn lemma_legalize_closure_target(t: TargetItemV, customs: Seq<Seq<char>>)
    ensures
        target_abi_ok(spec_legalize_target(t, customs), customs),
    decreases t, 3int,
{
    match t {
        TargetItemV::ForeignMod(items) => {
            assert forall|i: int|
                0 <= i < spec_legalize_bindings(items, customs).len() implies binding_abi_ok(
                #[trigger] spec_legalize_bindings(items, customs)[i],
                customs,
            ) by {
                let b = items[i];
                assert(spec_legalize_bindings(items, customs)[i] == spec_legalize_binding(
                    b,
                    customs,
                ));
                match b {
                    BindingItemV::Func(f) => {
                        let g = spec_legalize_fn(f, customs);
                        assert forall|k: int| 0 <= k < g.params.len() implies abi_ok(
                            #[trigger] g.params[k].ty,
                            customs,
                        ) by {
                            assert(g.params[k] == spec_legalize_param(f.params[k], customs));
                        }
                    },
                    _ => {},
                }
            }
        },
        TargetItemV::Mod { name, items } => {
            lemma_legalize_closure(items, customs);
        },
        _ => {},
    }
}

} // verus!
