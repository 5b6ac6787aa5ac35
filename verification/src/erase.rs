use vstd::prelude::*;

use crate::ty::{TypeRep, TypeRepV, ty_view, tys_view, lemma_tys_view, view_strings};
use crate::util::{spec_sanitize, sanitize_sym, str_eq, valid_source_name};

verus! {

broadcast use crate::ty::lemma_tys_view;

/// A bare (single-segment, argument-free) reference to one of the names in
/// scope: exactly what the erasure pass rewrites.
pub open spec fn is_bare_ref_in(scope: Seq<Seq<char>>, t: TypeRepV) -> bool {
    match t {
        TypeRepV::Path(segs) => segs.len() == 1 && scope.contains(segs[0]),
        _ => false,
    }
}

/// The generics-erasure rewrite: every bare reference to an in-scope type
/// parameter becomes the dynamic value type, recursively through every
/// wrapper.
pub open spec fn spec_erase(scope: Seq<Seq<char>>, t: TypeRepV) -> TypeRepV
    decreases t,
{
    match t {
        TypeRepV::Prim(p) => TypeRepV::Prim(p),
        TypeRepV::JsValue => TypeRepV::JsValue,
        TypeRepV::Path(segs) => if segs.len() == 1 && scope.contains(segs[0]) {
            TypeRepV::JsValue
        } else {
            TypeRepV::Path(segs)
        },
        TypeRepV::Ref(t0) => TypeRepV::Ref(Box::new(spec_erase(scope, *t0))),
        TypeRepV::Opt(t0) => TypeRepV::Opt(Box::new(spec_erase(scope, *t0))),
        TypeRepV::BoxedSlice(t0) => TypeRepV::BoxedSlice(Box::new(spec_erase(scope, *t0))),
        TypeRepV::Tup(ts) => TypeRepV::Tup(spec_erase_seq(scope, ts)),
        TypeRepV::Callable(ts, rt) => TypeRepV::Callable(
            spec_erase_seq(scope, ts),
            match rt {
                Option::Some(b) => Option::Some(Box::new(spec_erase(scope, *b))),
                Option::None => Option::None,
            },
        ),
    }
}

pub open spec fn spec_erase_seq(scope: Seq<Seq<char>>, ts: Seq<TypeRepV>) -> Seq<TypeRepV>
    decreases ts,
{
    if ts.len() == 0 {
        Seq::empty()
    } else {
        seq![spec_erase(scope, ts[0])] + spec_erase_seq(scope, ts.subrange(1, ts.len() as int))
    }
}

pub broadcast proof fn lemma_spec_erase_seq(scope: Seq<Seq<char>>, ts: Seq<TypeRepV>)
    ensures
        (#[trigger] spec_erase_seq(scope, ts)).len() == ts.len(),
        forall|i: int| 0 <= i < ts.len() ==> spec_erase_seq(scope, ts)[i] == spec_erase(
            scope,
            ts[i],
        ),
    decreases ts.len(),
{
    if ts.len() > 0 {
        lemma_spec_erase_seq(scope, ts.subrange(1, ts.len() as int));
    }
}

/// No bare reference to an in-scope name occurs anywhere in the type.
pub open spec fn no_bare_refs(scope: Seq<Seq<char>>, t: TypeRepV) -> bool
    decreases t,
{
    match t {
        TypeRepV::Path(segs) => !(segs.len() == 1 && scope.contains(segs[0])),
        TypeRepV::Ref(t0) => no_bare_refs(scope, *t0),
        TypeRepV::Opt(t0) => no_bare_refs(scope, *t0),
        TypeRepV::BoxedSlice(t0) => no_bare_refs(scope, *t0),
        TypeRepV::Tup(ts) => no_bare_refs_seq(scope, ts),
        TypeRepV::Callable(ts, rt) => no_bare_refs_seq(scope, ts) && (match rt {
            Option::Some(b) => no_bare_refs(scope, *b),
            Option::None => true,
        }),
        _ => true,
    }
}

pub open spec fn no_bare_refs_seq(scope: Seq<Seq<char>>, ts: Seq<TypeRepV>) -> bool
    decreases ts,
{
    forall|i: int| 0 <= i < ts.len() ==> no_bare_refs(scope, #[trigger] ts[i])
}

/// Erasure is total: after the rewrite, nothing in the type refers to a name
/// of the scope any more.
pub proof fn lemma_erase_total(scope: Seq<Seq<char>>, t: TypeRepV)
    ensures
        no_bare_refs(scope, spec_erase(scope, t)),
    decreases t,
{
    match t {
        TypeRepV::Ref(t0) => lemma_erase_total(scope, *t0),
        TypeRepV::Opt(t0) => lemma_erase_total(scope, *t0),
        TypeRepV::BoxedSlice(t0) => lemma_erase_total(scope, *t0),
        TypeRepV::Tup(ts) => lemma_erase_total_seq(scope, ts),
        TypeRepV::Callable(ts, rt) => {
            lemma_erase_total_seq(scope, ts);
            match rt {
                Option::Some(b) => lemma_erase_total(scope, *b),
                Option::None => {},
            }
        },
        _ => {},
    }
}

pub proof fn lemma_erase_total_seq(scope: Seq<Seq<char>>, ts: Seq<TypeRepV>)
    ensures
        no_bare_refs_seq(scope, spec_erase_seq(scope, ts)),
    decreases ts,
{
    broadcast use lemma_spec_erase_seq;

    assert forall|i: int| 0 <= i < spec_erase_seq(scope, ts).len() implies no_bare_refs(
        scope,
        #[trigger] spec_erase_seq(scope, ts)[i],
    ) by {
        lemma_erase_total(scope, ts[i]);
    }
}

/// A type already free of in-scope bare references is left unchanged by the
/// rewrite.
pub proof fn lemma_erase_noop(scope: Seq<Seq<char>>, t: TypeRepV)
    requires
        no_bare_refs(scope, t),
    ensures
        spec_erase(scope, t) == t,
    decreases t,
{
    match t {
        TypeRepV::Ref(t0) => lemma_erase_noop(scope, *t0),
        TypeRepV::Opt(t0) => lemma_erase_noop(scope, *t0),
        TypeRepV::BoxedSlice(t0) => lemma_erase_noop(scope, *t0),
        TypeRepV::Tup(ts) => {
            lemma_erase_noop_seq(scope, ts);
            assert(spec_erase(scope, t) == TypeRepV::Tup(spec_erase_seq(scope, ts)));
        },
        TypeRepV::Callable(ts, rt) => {
            lemma_erase_noop_seq(scope, ts);
            match rt {
                Option::Some(b) => lemma_erase_noop(scope, *b),
                Option::None => {},
            }
        },
        _ => {},
    }
}

pub proof fn lemma_erase_noop_seq(scope: Seq<Seq<char>>, ts: Seq<TypeRepV>)
    requires
        no_bare_refs_seq(scope, ts),
    ensures
        spec_erase_seq(scope, ts) == ts,
    decreases ts,
{
    broadcast use lemma_spec_erase_seq;

    assert forall|i: int| 0 <= i < ts.len() implies #[trigger] spec_erase_seq(scope, ts)[i]
        == ts[i] by {
        lemma_erase_noop(scope, ts[i]);
    }
    assert(spec_erase_seq(scope, ts) =~~= ts);
}

/// Erasing twice is erasing once.
pub proof fn lemma_erase_idempotent(scope: Seq<Seq<char>>, t: TypeRepV)
    ensures
        spec_erase(scope, spec_erase(scope, t)) == spec_erase(scope, t),
{
    lemma_erase_total(scope, t);
    lemma_erase_noop(scope, spec_erase(scope, t));
}

// ---------------------------------------------------------------------------
// The executable pass.
// ---------------------------------------------------------------------------

/// The set of locally bound type-parameter names whose bare references are
/// to be erased; consumed during lowering and never emitted.
#[derive(Debug)]
pub struct ByeByeGenerics(pub Vec<String>);

/// The scope that a list of raw type-parameter names induces: each name
/// sanitized.
pub open spec fn spec_scope_of(tps: Seq<Seq<char>>) -> Seq<Seq<char>> {
    tps.map(|i: int, n: Seq<char>| spec_sanitize(n))
}

impl ByeByeGenerics {
    pub open spec fn scope(&self) -> Seq<Seq<char>> {
        view_strings(self.0@)
    }

    /// The scope of a declaration's type parameters.
    pub fn new(type_params: &Vec<String>) -> (r: Self)
        requires
            crate::ty::valid_names(view_strings(type_params@)),
        ensures
            r.scope() == spec_scope_of(view_strings(type_params@)),
    {
        let mut names: Vec<String> = Vec::new();
        let mut i: usize = 0;
        while i < type_params.len()
            invariant
                crate::ty::valid_names(view_strings(type_params@)),
                i <= type_params@.len(),
                names@.len() == i,
                view_strings(names@) =~~= spec_scope_of(view_strings(type_params@)).subrange(
                    0,
                    i as int,
                ),
            decreases type_params@.len() - i,
        {
            proof {
                assert(view_strings(type_params@)[i as int] == type_params@[i as int]@);
            }
            let n = sanitize_sym(type_params[i].as_str());
            names.push(n);
            i = i + 1;
        }
        proof {
            assert(view_strings(names@) =~~= spec_scope_of(view_strings(type_params@)));
        }
        ByeByeGenerics(names)
    }

    /// The composition of this scope with an enclosing one.
    pub fn join(self, other: &ByeByeGenerics) -> (r: Self)
        ensures
            r.scope() == self.scope() + other.scope(),
    {
        let mut names = self.0;
        let ghost orig = view_strings(names@);
        let mut i: usize = 0;
        while i < other.0.len()
            invariant
                i <= other.0@.len(),
                names@.len() == orig.len() + i,
                view_strings(names@) =~~= orig + view_strings(other.0@).subrange(0, i as int),
            decreases other.0@.len() - i,
        {
            let ghost prev = names@;
            let x = other.0[i].clone();
            proof {
                assert(x@ == view_strings(other.0@)[i as int]);
            }
            names.push(x);
            i = i + 1;
            proof {
                let rhs = orig + view_strings(other.0@).subrange(0, i as int);
                assert(names@.len() == prev.len() + 1);
                assert(view_strings(names@).len() == names@.len());
                assert(rhs.len() == names@.len());
                assert forall|k: int| 0 <= k < names@.len() implies view_strings(names@)[k]
                    == rhs[k] by {
                    assert(view_strings(names@)[k] == names@[k]@);
                    if k < prev.len() {
                        assert(names@[k] == prev[k]);
                        assert(view_strings(prev)[k] == prev[k]@);
                        assert(view_strings(prev)[k] == (orig + view_strings(other.0@).subrange(
                            0,
                            i - 1,
                        ))[k]);
                    } else {
                        assert(names@[k] == x);
                    }
                }
                assert(view_strings(names@) =~~= rhs);
            }
        }
        proof {
            assert(view_strings(names@) =~~= orig + view_strings(other.0@));
        }
        ByeByeGenerics(names)
    }

    fn scope_has(&self, s: &String) -> (r: bool)
        ensures
            r == self.scope().contains(s@),
    {
        let mut i: usize = 0;
        while i < self.0.len()
            invariant
                i <= self.0@.len(),
                forall|j: int| 0 <= j < i ==> self.scope()[j] != s@,
            decreases self.0@.len() - i,
        {
            if str_eq(self.0[i].as_str(), s.as_str()) {
                proof {
                    assert(self.scope()[i as int] == s@);
                }
                return true;
            }
            i = i + 1;
        }
        false
    }

    /// The erasure rewrite, applied to one type.
    pub fn erase_type(&self, t: &TypeRep) -> (r: TypeRep)
        ensures
            ty_view(r) == spec_erase(self.scope(), ty_view(*t)),
        decreases *t,
    {
        match t {
            TypeRep::Prim(p) => TypeRep::Prim(*p),
            TypeRep::JsValue => TypeRep::JsValue,
            TypeRep::Path(segs) => {
                if segs.len() == 1 && self.scope_has(&segs[0]) {
                    proof {
                        assert(view_strings(segs@)[0] == segs@[0]@);
                        assert(view_strings(segs@) =~~= seq![segs@[0]@]);
                    }
                    TypeRep::JsValue
                } else {
                    proof {
                        if segs@.len() == 1 {
                            assert(view_strings(segs@) =~~= seq![segs@[0]@]);
                        }
                    }
                    TypeRep::Path(crate::ty::clone_strings(segs))
                }
            },
            TypeRep::Ref(t0) => TypeRep::Ref(Box::new(self.erase_type(t0))),
            TypeRep::Opt(t0) => TypeRep::Opt(Box::new(self.erase_type(t0))),
            TypeRep::BoxedSlice(t0) => TypeRep::BoxedSlice(Box::new(self.erase_type(t0))),
            TypeRep::Tup(ts) => TypeRep::Tup(self.erase_types(ts)),
            TypeRep::Callable(ts, rt) => {
                let ets = self.erase_types(ts);
                let ert = self.erase_opt_box(rt);
                proof {
                    assert(ty_view(*t) == TypeRepV::Callable(
                        tys_view(ts@),
                        crate::ty::opt_box_ty_view(*rt),
                    ));
                }
                TypeRep::Callable(ets, ert)
            },
        }
    }

    fn erase_opt_box(&self, rt: &Option<Box<TypeRep>>) -> (r: Option<Box<TypeRep>>)
        ensures
            crate::ty::opt_box_ty_view(r) == (match crate::ty::opt_box_ty_view(*rt) {
                Option::Some(b) => Option::Some(Box::new(spec_erase(self.scope(), *b))),
                Option::None => Option::<Box<TypeRepV>>::None,
            }),
        decreases *rt,
    {
        match rt {
            Option::Some(b) => {
                let c = self.erase_type(b);
                let ghost cv = ty_view(c);
                let out = Option::Some(Box::new(c));
                proof {
                    assert(crate::ty::opt_box_ty_view(*rt) == Option::Some(
                        Box::new(ty_view(**b)),
                    ));
                    assert(crate::ty::opt_box_ty_view(out) == Option::Some(Box::new(cv)));
                }
                out
            },
            Option::None => Option::None,
        }
    }

    /// The erasure rewrite, applied to each type of a list.
    pub fn erase_types(&self, ts: &Vec<TypeRep>) -> (r: Vec<TypeRep>)
        ensures
            tys_view(r@) == spec_erase_seq(self.scope(), tys_view(ts@)),
        decreases *ts,
    {
        broadcast use lemma_spec_erase_seq;

        let mut out: Vec<TypeRep> = Vec::new();
        let mut i: usize = 0;
        while i < ts.len()
            invariant
                i <= ts@.len(),
                out@.len() == i,
                forall|j: int| 0 <= j < i ==> tys_view(out@)[j] == spec_erase(
                    self.scope(),
                    tys_view(ts@)[j],
                ),
            decreases ts@.len() - i,
        {
            let e = self.erase_type(&ts[i]);
            let ghost prev = out@;
            out.push(e);
            i = i + 1;
            proof {
                assert(tys_view(ts@).len() == ts@.len());
                assert(ty_view(e) == spec_erase(self.scope(), ty_view(ts@[i - 1])));
                assert forall|j: int| 0 <= j < i implies tys_view(out@)[j] == spec_erase(
                    self.scope(),
                    tys_view(ts@)[j],
                ) by {
                    assert(tys_view(out@)[j] == ty_view(out@[j]));
                    if j < i - 1 {
                        assert(out@[j] == prev[j]);
                        assert(tys_view(prev)[j] == ty_view(prev[j]));
                    } else {
                        assert(out@[j] == e);
                    }
                }
            }
        }
        proof {
            assert(tys_view(out@) =~~= spec_erase_seq(self.scope(), tys_view(ts@)));
        }
        out
    }
}

/// The erasure rewrite on a parameter, a whole function binding, and a
/// list of binding items.
pub open spec fn spec_erase_binding(scope: Seq<Seq<char>>, b: crate::item::BindingItemV) -> crate::item::BindingItemV {
    match b {
        crate::item::BindingItemV::Func(f) => crate::item::BindingItemV::Func(
            crate::item::ItemFnV {
                params: Seq::new(
                    f.params.len(),
                    |i: int| crate::item::ParamV {
                        name: f.params[i].name,
                        ty: spec_erase(scope, f.params[i].ty),
                    },
                ),
                ret: match f.ret {
                    Option::Some(t) => Option::Some(spec_erase(scope, t)),
                    Option::None => Option::None,
                },
                ..f
            },
        ),
        crate::item::BindingItemV::Static(s) => crate::item::BindingItemV::Static(
            crate::item::ItemStaticV { ty: spec_erase(scope, s.ty), ..s },
        ),
        crate::item::BindingItemV::Opaque(o) => crate::item::BindingItemV::Opaque(o),
    }
}

impl ByeByeGenerics {
    /// The erasure rewrite, applied to a parameter list.
    pub fn erase_params(&self, ps: &Vec<crate::item::Param>) -> (r: Vec<crate::item::Param>)
        ensures
            crate::item::params_view(r@) == Seq::new(
                crate::item::params_view(ps@).len(),
                |i: int| crate::item::ParamV {
                    name: crate::item::params_view(ps@)[i].name,
                    ty: spec_erase(self.scope(), crate::item::params_view(ps@)[i].ty),
                },
            ),
    {
        let ghost oldps = crate::item::params_view(ps@);
        let mut out: Vec<crate::item::Param> = Vec::new();
        let mut i: usize = 0;
        while i < ps.len()
            invariant
                oldps == crate::item::params_view(ps@),
                i <= ps@.len(),
                out@.len() == i,
                forall|j: int| 0 <= j < i ==> crate::item::params_view(out@)[j]
                    == (crate::item::ParamV {
                    name: oldps[j].name,
                    ty: spec_erase(self.scope(), oldps[j].ty),
                }),
            decreases ps@.len() - i,
        {
            let p = &ps[i];
            let np = crate::item::Param { name: p.name.clone(), ty: self.erase_type(&p.ty) };
            let ghost prev = out@;
            out.push(np);
            i = i + 1;
            proof {
                assert(crate::item::params_view(ps@)[i - 1] == ps@[i - 1]@);
                assert forall|j: int| 0 <= j < i implies crate::item::params_view(out@)[j]
                    == (crate::item::ParamV {
                    name: oldps[j].name,
                    ty: spec_erase(self.scope(), oldps[j].ty),
                }) by {
                    assert(crate::item::params_view(out@)[j] == out@[j]@);
                    if j < i - 1 {
                        assert(out@[j] == prev[j]);
                        assert(crate::item::params_view(prev)[j] == prev[j]@);
                    } else {
                        assert(out@[j] == np);
                    }
                }
            }
        }
        proof {
            assert(crate::item::params_view(out@) =~~= Seq::new(
                oldps.len(),
                |i: int| crate::item::ParamV {
                    name: oldps[i].name,
                    ty: spec_erase(self.scope(), oldps[i].ty),
                },
            ));
        }
        out
    }

    /// The erasure rewrite, applied to every type of one binding item.
    pub fn erase_binding(&self, b: &crate::item::BindingItem) -> (r: crate::item::BindingItem)
        ensures
            r@ == spec_erase_binding(self.scope(), b@),
    {
        match b {
            crate::item::BindingItem::Func(f) => {
                let ghost fv = f@;
                let mut params: Vec<crate::item::Param> = Vec::new();
                let ghost oldps = crate::item::params_view(f.params@);
                let mut i: usize = 0;
                while i < f.params.len()
                    invariant
                        oldps == crate::item::params_view(f.params@),
                        i <= f.params@.len(),
                        params@.len() == i,
                        forall|j: int| 0 <= j < i ==> crate::item::params_view(params@)[j]
                            == (crate::item::ParamV {
                            name: oldps[j].name,
                            ty: spec_erase(self.scope(), oldps[j].ty),
                        }),
                    decreases f.params@.len() - i,
                {
                    let p = &f.params[i];
                    let np = crate::item::Param {
                        name: p.name.clone(),
                        ty: self.erase_type(&p.ty),
                    };
                    let ghost prev = params@;
                    params.push(np);
                    i = i + 1;
                    proof {
                        assert(crate::item::params_view(f.params@)[i - 1] == f.params@[i - 1]@);
                        assert forall|j: int| 0 <= j < i implies crate::item::params_view(
                            params@,
                        )[j] == (crate::item::ParamV {
                            name: oldps[j].name,
                            ty: spec_erase(self.scope(), oldps[j].ty),
                        }) by {
                            assert(crate::item::params_view(params@)[j] == params@[j]@);
                            if j < i - 1 {
                                assert(params@[j] == prev[j]);
                                assert(crate::item::params_view(prev)[j] == prev[j]@);
                            } else {
                                assert(params@[j] == np);
                            }
                        }
                    }
                }
                let ret = match &f.ret {
                    Option::Some(t) => Option::Some(self.erase_type(t)),
                    Option::None => Option::None,
                };
                let out = crate::item::ItemFn {
                    name: f.name.clone(),
                    js_name: crate::item::clone_opt_string(&f.js_name),
                    attrs: crate::item::clone_attrs(&f.attrs),
                    params,
                    ret,
                    ns: crate::ty::clone_strings(&f.ns),
                };
                proof {
                    assert(crate::item::params_view(out.params@) =~~= spec_erase_binding(
                        self.scope(),
                        crate::item::BindingItemV::Func(fv),
                    )->Func_0.params);
                    assert(out@ == spec_erase_binding(
                        self.scope(),
                        crate::item::BindingItemV::Func(fv),
                    )->Func_0);
                }
                crate::item::BindingItem::Func(out)
            },
            crate::item::BindingItem::Static(st) => {
                let ghost sv = st@;
                let out = crate::item::ItemStatic {
                    name: st.name.clone(),
                    js_name: crate::item::clone_opt_string(&st.js_name),
                    ty: self.erase_type(&st.ty),
                    ns: crate::ty::clone_strings(&st.ns),
                };
                proof {
                    assert(out@ == crate::item::ItemStaticV {
                        ty: spec_erase(self.scope(), sv.ty),
                        ..sv
                    });
                }
                crate::item::BindingItem::Static(out)
            },
            crate::item::BindingItem::Opaque(o) => crate::item::BindingItem::Opaque(
                crate::item::clone_opaque(o),
            ),
        }
    }
}

} // verus!
