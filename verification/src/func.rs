use vstd::prelude::*;

use crate::diag::{Diag, DiagV, LowerError, view_diags};
use crate::erase::{ByeByeGenerics, spec_erase, spec_scope_of};
use crate::item::{ItemFn, ItemFnV, Param, ParamV, free_fn_attrs, params_view};
use crate::pat::{pat_to_pat_type, spec_pat_to_param};
use crate::ty::{
    FPat, FPatV, FnShape, FnShapeV, ForeignType, ForeignTypeV, Keyword, TypeRepV, fnshape_wf,
    fpat_view, fpats_view, ft_view, ft_wf, lemma_fpats_view, ty_view, view_strings,
};
use crate::tymap::{spec_map_type, ts_type_to_type};

verus! {

broadcast use crate::ty::lemma_fpats_view;

/// Lowers the parameter patterns from position `i` on, accumulating the
/// parameters and the diagnostics; the first fatal error aborts the rest.
pub open spec fn spec_params_fold(ps: Seq<FPatV>, i: int, acc: Seq<ParamV>) -> (Result<
    Seq<ParamV>,
    LowerError,
>, Seq<DiagV>)
    decreases ps.len() - i,
{
    if i < 0 || i >= ps.len() {
        (Ok(acc), Seq::empty())
    } else {
        let (r0, d0) = spec_pat_to_param(ps[i]);
        match r0 {
            Err(e) => (Err(e), d0),
            Ok(pm) => {
                let (rr, dr) = spec_params_fold(ps, i + 1, acc.push(pm));
                (rr, d0 + dr)
            },
        }
    }
}

/// Whether the declared return type is the void keyword, which in return
/// position means an absent return type.
pub open spec fn is_void_ty(t: ForeignTypeV) -> bool {
    t == ForeignTypeV::Keyword(Keyword::Void)
}

/// The emitted return type: absent when nothing or void is declared, the
/// mapped type otherwise.
pub open spec fn spec_ret_of(rt: Option<Box<ForeignTypeV>>) -> (Result<
    Option<TypeRepV>,
    LowerError,
>, Seq<DiagV>) {
    match rt {
        Option::None => (Ok(Option::None), Seq::empty()),
        Option::Some(t) => if is_void_ty(*t) {
            (Ok(Option::None), Seq::empty())
        } else {
            let (r0, d0) = spec_map_type(*t);
            match r0 {
                Ok(v) => (Ok(Option::Some(v)), d0),
                Err(e) => (Err(e), d0),
            }
        },
    }
}

/// Every parameter with its type put through the generics-erasure rewrite.
pub open spec fn spec_erase_params(scope: Seq<Seq<char>>, ps: Seq<ParamV>) -> Seq<ParamV> {
    Seq::new(ps.len(), |i: int| ParamV { name: ps[i].name, ty: spec_erase(scope, ps[i].ty) })
}

pub open spec fn spec_erase_ret(scope: Seq<Seq<char>>, ret: Option<TypeRepV>) -> Option<
    TypeRepV,
> {
    match ret {
        Option::Some(t) => Option::Some(spec_erase(scope, t)),
        Option::None => Option::None,
    }
}

/// The signature of a foreign function under the given target name: lowered
/// parameters, the mapped return type, and the function's own type
/// parameters erased from both.
pub open spec fn spec_function_signature(name: Seq<char>, f: FnShapeV) -> (Result<
    ItemFnV,
    LowerError,
>, Seq<DiagV>) {
    let (pr, pd) = spec_params_fold(f.params, 0, Seq::empty());
    match pr {
        Err(e) => (Err(e), pd),
        Ok(ps) => {
            let (rr, rd) = spec_ret_of(f.return_type);
            match rr {
                Err(e) => (Err(e), pd + rd),
                Ok(ret) => {
                    let scope = spec_scope_of(f.type_params);
                    (
                        Ok(
                            ItemFnV {
                                name: name,
                                js_name: Option::None,
                                attrs: free_fn_attrs(),
                                params: spec_erase_params(scope, ps),
                                ret: spec_erase_ret(scope, ret),
                                ns: Seq::empty(),
                            },
                        ),
                        pd + rd,
                    )
                },
            }
        },
    }
}

/// Builds the signature of a foreign function as a free-standing binding.
pub fn function_signature(name: String, f: &FnShape, diags: &mut Vec<Diag>) -> (r: Result<
    ItemFn,
    LowerError,
>)
    requires
        fnshape_wf(f@),
    ensures
        ({
            let (sr, sd) = spec_function_signature(name@, f@);
            &&& view_diags(final(diags)@) == view_diags(old(diags)@) + sd
            &&& match r {
                Ok(g) => sr == Ok::<_, LowerError>(g@),
                Err(e) => sr == Err::<ItemFnV, _>(e),
            }
        }),
{
    let ghost namev = name@;
    let ghost fv = f@;
    let ghost psv = fpats_view(f.params@);
    let ghost base = view_diags(diags@);
    let ghost mut emitted: Seq<DiagV> = Seq::empty();
    let mut params: Vec<Param> = Vec::new();
    let mut i: usize = 0;
    proof {
        assert(base + emitted =~~= base);
        assert(params_view(params@) =~~= Seq::<ParamV>::empty());
    }
    while i < f.params.len()
        invariant
            psv == fpats_view(f.params@),
            crate::ty::fpats_wf(psv),
            i <= f.params@.len(),
            params@.len() == i,
            base == view_diags(old(diags)@),
            view_diags(diags@) == base + emitted,
            spec_params_fold(psv, 0, Seq::empty()).0 == spec_params_fold(
                psv,
                i as int,
                params_view(params@),
            ).0,
            spec_params_fold(psv, 0, Seq::empty()).1 == emitted + spec_params_fold(
                psv,
                i as int,
                params_view(params@),
            ).1,
        decreases f.params@.len() - i,
    {
        let ghost acc = params_view(params@);
        proof {
            lemma_fpats_view(f.params@);
            assert(psv[i as int] == fpat_view(f.params@[i as int]));
            assert(crate::ty::fpat_wf(psv[i as int]));
        }
        let ghost (r0, d0) = spec_pat_to_param(psv[i as int]);
        let m = pat_to_pat_type(&f.params[i], diags);
        match m {
            Ok(pm) => {
                let ghost pmv = pm@;
                params.push(pm);
                proof {
                    emitted = emitted + d0;
                    assert(params_view(params@) =~~= acc.push(pmv));
                    assert(view_diags(diags@) =~~= base + emitted);
                    assert((emitted.subrange(0, emitted.len() - d0.len()) + (d0
                        + spec_params_fold(psv, i + 1, acc.push(pmv)).1)) =~~= emitted
                        + spec_params_fold(psv, i + 1, acc.push(pmv)).1);
                }
                i = i + 1;
            },
            Err(e) => {
                proof {
                    assert(spec_params_fold(psv, i as int, acc) == (
                        Err::<Seq<ParamV>, LowerError>(e),
                        d0,
                    ));
                    assert(view_diags(diags@) =~~= base + (emitted + d0));
                    assert(spec_params_fold(psv, 0, Seq::empty()).1 =~~= emitted + d0);
                }
                return Err(e);
            },
        }
    }
    proof {
        assert(spec_params_fold(psv, i as int, params_view(params@)) == (
            Ok::<Seq<ParamV>, LowerError>(params_view(params@)),
            Seq::<DiagV>::empty(),
        ));
        assert(emitted + Seq::<DiagV>::empty() =~~= emitted);
    }
    let ghost psout = params_view(params@);
    let ret: Option<crate::ty::TypeRep> = match &f.return_type {
        Option::None => Option::None,
        Option::Some(rt) => {
            proof {
                assert(fv.return_type == Option::Some(Box::new(ft_view(*rt))));
            }
            let is_void = match rt {
                ForeignType::Keyword(k) => match k {
                    Keyword::Void => true,
                    _ => false,
                },
                _ => false,
            };
            proof {
                assert(is_void == is_void_ty(ft_view(*rt)));
            }
            if is_void {
                Option::None
            } else {
                proof {
                    assert(crate::ty::opt_ft_wf(fv.return_type));
                    assert(ft_wf(ft_view(*rt)));
                }
                let ghost (r0, d0) = spec_map_type(ft_view(*rt));
                let m = ts_type_to_type(rt, diags);
                match m {
                    Ok(t) => {
                        proof {
                            emitted = emitted + d0;
                            assert(view_diags(diags@) =~~= base + emitted);
                        }
                        Option::Some(t)
                    },
                    Err(e) => {
                        proof {
                            assert(view_diags(diags@) =~~= base + (emitted + d0));
                            assert(spec_function_signature(namev, fv).1 =~~= emitted + d0);
                        }
                        return Err(e);
                    },
                }
            }
        },
    };
    let ghost retv = crate::item::opt_ty_view(ret);
    proof {
        assert(spec_ret_of(fv.return_type).0 == Ok::<Option<TypeRepV>, LowerError>(retv));
        assert(spec_function_signature(namev, fv).1 =~~= emitted);
    }
    let gen = ByeByeGenerics::new(&f.type_params);
    let mut eparams: Vec<Param> = Vec::new();
    let mut i: usize = 0;
    while i < params.len()
        invariant
            gen.scope() == spec_scope_of(fv.type_params),
            psout == params_view(params@),
            i <= params@.len(),
            eparams@.len() == i,
            forall|j: int| 0 <= j < i ==> params_view(eparams@)[j] == spec_erase_params(
                gen.scope(),
                psout,
            )[j],
        decreases params@.len() - i,
    {
        let p = &params[i];
        let ety = gen.erase_type(&p.ty);
        let ghost prev = eparams@;
        let np = Param { name: p.name.clone(), ty: ety };
        let ghost npv = np@;
        eparams.push(np);
        i = i + 1;
        proof {
            assert(params_view(params@)[i - 1] == params@[i - 1]@);
            assert forall|j: int| 0 <= j < i implies params_view(eparams@)[j] == spec_erase_params(
                gen.scope(),
                psout,
            )[j] by {
                if j < i - 1 {
                    assert(eparams@[j] == prev[j]);
                    assert(params_view(prev)[j] == spec_erase_params(gen.scope(), psout)[j]);
                } else {
                    assert(eparams@[j] == np);
                }
            }
        }
    }
    proof {
        assert(params_view(eparams@) =~~= spec_erase_params(gen.scope(), psout));
    }
    let eret: Option<crate::ty::TypeRep> = match &ret {
        Option::Some(t) => Option::Some(gen.erase_type(t)),
        Option::None => Option::None,
    };
    proof {
        assert(crate::item::opt_ty_view(eret) == spec_erase_ret(gen.scope(), retv));
    }
    let out = ItemFn {
        name,
        js_name: Option::None,
        attrs: crate::item::FnAttrs {
            ctor: false,
            method: false,
            getter: false,
            setter: false,
            static_of: Option::None,
        },
        params: eparams,
        ret: eret,
        ns: Vec::new(),
    };
    proof {
        assert(view_strings(out.ns@) =~~= Seq::<Seq<char>>::empty());
        assert(out@.attrs == free_fn_attrs());
    }
    Ok(out)
}

} // verus!
