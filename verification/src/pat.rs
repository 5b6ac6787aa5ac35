use vstd::prelude::*;

use crate::diag::{Diag, DiagV, LowerError, view_diags};
use crate::item::{Param, ParamV};
use crate::ty::{FPat, FPatV, ForeignTypeV, TypeRepV, fpat_view, fpat_wf, ft_view, ft_wf, ty_view};
use crate::tymap::{spec_map_type, ts_type_to_type};
use crate::util::{sanitize_sym, spec_sanitize};

verus! {

/// Lowering one binding pattern to a named, typed parameter: an identifier
/// keeps its sanitized name and mapped annotation (the dynamic value type if
/// it has none), wrapped in the optional type if it is optional; a rest
/// pattern lowers as its argument; destructuring patterns have no lowering.
pub open spec fn spec_pat_to_param(p: FPatV) -> (Result<ParamV, LowerError>, Seq<DiagV>)
    decreases p,
{
    match p {
        FPatV::Ident { name, optional, ann } => {
            let (tr, ds) = match ann {
                Option::Some(t) => spec_map_type(*t),
                Option::None => (Ok(TypeRepV::JsValue), Seq::empty()),
            };
            match tr {
                Ok(t) => (
                    Ok(
                        ParamV {
                            name: spec_sanitize(name),
                            ty: if optional {
                                TypeRepV::Opt(Box::new(t))
                            } else {
                                t
                            },
                        },
                    ),
                    ds,
                ),
                Err(e) => (Err(e), ds),
            }
        },
        FPatV::Rest { arg, ann } => spec_pat_to_param(*arg),
        _ => (Err(LowerError::UnsupportedPattern), Seq::empty()),
    }
}

/// Lowers a binding pattern to a parameter.
pub fn pat_to_pat_type(p: &FPat, diags: &mut Vec<Diag>) -> (r: Result<Param, LowerError>)
    requires
        fpat_wf(fpat_view(*p)),
    ensures
        ({
            let (sr, sd) = spec_pat_to_param(fpat_view(*p));
            &&& view_diags(final(diags)@) == view_diags(old(diags)@) + sd
            &&& match r {
                Ok(pm) => sr == Ok::<_, LowerError>(pm@),
                Err(e) => sr == Err::<ParamV, _>(e),
            }
        }),
    decreases *p,
{
    let ghost base = view_diags(diags@);
    proof {
        assert(base + Seq::<DiagV>::empty() =~~= base);
    }
    match p {
        FPat::Ident { name, optional, ann } => {
            proof {
                assert(fpat_view(*p) == FPatV::Ident {
                    name: name@,
                    optional: *optional,
                    ann: crate::ty::opt_ft_view(*ann),
                });
            }
            let t = match ann {
                Option::Some(t0) => {
                    proof {
                        assert(crate::ty::opt_ft_view(*ann) == Option::Some(
                            Box::new(ft_view(*t0)),
                        ));
                        assert(crate::ty::opt_ft_wf(crate::ty::opt_ft_view(*ann)));
                        assert(crate::ty::opt_ft_wf(Option::Some(Box::new(ft_view(*t0)))));
                        assert(*Box::new(ft_view(*t0)) == ft_view(*t0));
                        assert(ft_wf(ft_view(*t0)));
                    }
                    let m = ts_type_to_type(t0, diags);
                    match m {
                        Ok(t) => t,
                        Err(e) => {
                            return Err(e);
                        },
                    }
                },
                Option::None => crate::wasm::js_value(),
            };
            let pname = sanitize_sym(name.as_str());
            let ty = if *optional {
                crate::ty::TypeRep::Opt(Box::new(t))
            } else {
                t
            };
            Ok(Param { name: pname, ty })
        },
        FPat::Rest { arg, ann } => pat_to_pat_type(arg, diags),
        FPat::ArrayPat { ann } => Err(LowerError::UnsupportedPattern),
        FPat::ObjectPat { ann } => Err(LowerError::UnsupportedPattern),
        FPat::AssignPat => Err(LowerError::UnsupportedPattern),
        FPat::InvalidPat => Err(LowerError::UnsupportedPattern),
        FPat::ExprPat => Err(LowerError::UnsupportedPattern),
    }
}

/// Lowers each pattern of a parameter list, in order, stopping at the
/// first fatal error.
pub fn lower_params(params: &Vec<FPat>, diags: &mut Vec<Diag>) -> (r: Result<
    Vec<Param>,
    LowerError,
>)
    requires
        crate::ty::fpats_wf(crate::ty::fpats_view(params@)),
    ensures
        ({
            let (sr, sd) = crate::func::spec_params_fold(
                crate::ty::fpats_view(params@),
                0,
                Seq::empty(),
            );
            &&& view_diags(final(diags)@) == view_diags(old(diags)@) + sd
            &&& match r {
                Ok(ps) => sr == Ok::<_, LowerError>(crate::item::params_view(ps@)),
                Err(e) => sr == Err::<Seq<ParamV>, _>(e),
            }
        }),
{
    let ghost psv = crate::ty::fpats_view(params@);
    let ghost base = view_diags(diags@);
    let ghost mut emitted: Seq<DiagV> = Seq::empty();
    let mut out: Vec<Param> = Vec::new();
    let mut i: usize = 0;
    proof {
        assert(base + emitted =~~= base);
        assert(crate::item::params_view(out@) =~~= Seq::<ParamV>::empty());
    }
    while i < params.len()
        invariant
            psv == crate::ty::fpats_view(params@),
            crate::ty::fpats_wf(psv),
            i <= params@.len(),
            out@.len() == i,
            base == view_diags(old(diags)@),
            view_diags(diags@) == base + emitted,
            crate::func::spec_params_fold(psv, 0, Seq::empty()).0
                == crate::func::spec_params_fold(
                psv,
                i as int,
                crate::item::params_view(out@),
            ).0,
            crate::func::spec_params_fold(psv, 0, Seq::empty()).1 == emitted
                + crate::func::spec_params_fold(psv, i as int, crate::item::params_view(out@)).1,
        decreases params@.len() - i,
    {
        let ghost acc = crate::item::params_view(out@);
        proof {
            crate::ty::lemma_fpats_view(params@);
            assert(psv[i as int] == fpat_view(params@[i as int]));
            assert(fpat_wf(psv[i as int]));
        }
        let ghost (r0, d0) = spec_pat_to_param(psv[i as int]);
        let m = pat_to_pat_type(&params[i], diags);
        match m {
            Ok(pm) => {
                let ghost pmv = pm@;
                out.push(pm);
                proof {
                    emitted = emitted + d0;
                    assert(crate::item::params_view(out@) =~~= acc.push(pmv));
                    assert(view_diags(diags@) =~~= base + emitted);
                    assert((emitted.subrange(0, emitted.len() - d0.len()) + (d0
                        + crate::func::spec_params_fold(psv, i + 1, acc.push(pmv)).1)) =~~= emitted
                        + crate::func::spec_params_fold(psv, i + 1, acc.push(pmv)).1);
                }
                i = i + 1;
            },
            Err(e) => {
                proof {
                    assert(crate::func::spec_params_fold(psv, i as int, acc) == (
                        Err::<Seq<ParamV>, LowerError>(e),
                        d0,
                    ));
                    assert(view_diags(diags@) =~~= base + (emitted + d0));
                    assert(crate::func::spec_params_fold(psv, 0, Seq::empty()).1 =~~= emitted
                        + d0);
                }
                return Err(e);
            },
        }
    }
    proof {
        crate::ty::lemma_fpats_view(params@);
        assert(crate::func::spec_params_fold(psv, i as int, crate::item::params_view(out@)) == (
            Ok::<Seq<ParamV>, LowerError>(crate::item::params_view(out@)),
            Seq::<DiagV>::empty(),
        ));
        assert(emitted + Seq::<DiagV>::empty() =~~= emitted);
    }
    Ok(out)
}

} // verus!
