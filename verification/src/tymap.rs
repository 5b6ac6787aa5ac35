use vstd::prelude::*;

use crate::diag::{Diag, DiagV, LowerError, view_diags};
use crate::erase::{ByeByeGenerics, spec_erase, spec_erase_seq, spec_scope_of};
use crate::ty::{
    FPat, FPatV, ForeignType, ForeignTypeV, Keyword, Prim, TypeRep, TypeRepV, ft_view, ft_wf,
    fpat_view, fpat_wf, fpats_view, fpats_wf, fts_view, fts_wf, lemma_fpats_view, lemma_fts_view,
    lemma_tys_view, starts_with_dot, ty_view, tys_view, valid_names, view_strings,
};
use crate::util::{
    PathSeg, PathSegV, import_prefix_to_idents, sanitize_sym, spec_import_prefix, spec_sanitize,
    str_eq, valid_source_name, view_segs,
};

verus! {

broadcast use {crate::ty::lemma_tys_view, crate::ty::lemma_fts_view, crate::ty::lemma_fpats_view};

// ---------------------------------------------------------------------------
// The mathematical model of the type mapping engine.
// ---------------------------------------------------------------------------

/// Appending `Mod` to a valid source name gives a valid source name.
pub proof fn lemma_mod_suffix_valid(seg: Seq<char>)
    requires
        valid_source_name(seg),
    ensures
        valid_source_name(seg + "Mod"@),
{
    reveal_strlit("Mod");
    reveal_strlit("Self");
    reveal_strlit("_");
    let s = seg + "Mod"@;
    assert(s[0] == seg[0]);
    assert forall|i: int| 0 <= i < s.len() implies crate::util::is_ident_c(#[trigger] s[i]) by {
        if i < seg.len() {
            assert(s[i] == seg[i]);
        } else {
            assert(s[i] == "Mod"@[i - seg.len()]);
        }
    }
    if s == "Self"@ {
        assert(s.len() == 4);
        assert(seg.len() == 1);
        assert(s[1] == "Mod"@[0]);
        assert(s[1] == "Self"@[1]);
        assert(false);
    }
    if s == "_"@ {
        assert(s.len() == 1);
        assert(false);
    }
}

/// The emitted path of a qualified name: every outer segment becomes a
/// namespace-scope name (`Mod`-suffixed, sanitized), the innermost segment
/// the sanitized leaf type name.
pub open spec fn spec_qual_path(name: Seq<Seq<char>>) -> Seq<Seq<char>> {
    Seq::new(
        name.len(),
        |i: int|
            if i < name.len() - 1 {
                spec_sanitize(name[i] + "Mod"@)
            } else {
                spec_sanitize(name[i])
            },
    )
}

/// The string a scope-path segment contributes to an emitted type path.
pub open spec fn seg_string(s: PathSegV) -> Seq<char> {
    match s {
        PathSegV::Up => "super"@,
        PathSegV::SelfScope => "self"@,
        PathSegV::Named(n) => n,
    }
}

/// The emitted path of a relative import type: the import's scope path,
/// then the sanitized qualifier.
pub open spec fn spec_import_type_path(src: Seq<char>, qualifier: Seq<char>) -> Seq<Seq<char>> {
    let pref = spec_import_prefix(src);
    Seq::new(
        pref.len() + 1,
        |i: int|
            if i < pref.len() {
                seg_string(pref[i])
            } else {
                spec_sanitize(qualifier)
            },
    )
}

/// The type annotation a function-type parameter carries, if any.
pub open spec fn fpat_ann(p: FPatV) -> Option<Box<ForeignTypeV>> {
    match p {
        FPatV::Ident { name, optional, ann } => ann,
        FPatV::Rest { arg, ann } => ann,
        FPatV::ArrayPat { ann } => ann,
        FPatV::ObjectPat { ann } => ann,
        _ => Option::None,
    }
}

/// Whether a union's second member makes it an optional type: it must be the
/// `undefined` or `null` keyword.
pub open spec fn is_null_or_undefined(t: ForeignTypeV) -> bool {
    match t {
        ForeignTypeV::Keyword(k) => k == Keyword::Undefined || k == Keyword::Null,
        _ => false,
    }
}

/// The result of mapping one foreign type: the target type or the fatal
/// error, and the diagnostics emitted along the way.
pub open spec fn spec_map_type(t: ForeignTypeV) -> (Result<TypeRepV, LowerError>, Seq<DiagV>)
    decreases t, 0int, 0int,
{
    match t {
        ForeignTypeV::Keyword(k) => match k {
            Keyword::Any | Keyword::Unknown | Keyword::Null | Keyword::Undefined | Keyword::Never
                | Keyword::ObjectKw => (Ok(TypeRepV::JsValue), Seq::empty()),
            Keyword::Num => (Ok(TypeRepV::Prim(Prim::F64)), Seq::empty()),
            Keyword::Boolean => (Ok(TypeRepV::Prim(Prim::Bool)), Seq::empty()),
            Keyword::Str => (Ok(TypeRepV::Prim(Prim::Str)), Seq::empty()),
            Keyword::Void => (Ok(TypeRepV::Prim(Prim::Unit)), Seq::empty()),
            Keyword::BigInt | Keyword::Symbol | Keyword::Intrinsic => (
                Err(LowerError::UnsupportedKeyword),
                Seq::empty(),
            ),
        },
        ForeignTypeV::FnType { params, type_params, ret_ty } => {
            let (r, ds) = spec_map_fn_inputs(params, 0, Seq::empty());
            match r {
                Err(e) => (Err(e), ds),
                Ok(inputs) => {
                    let (rr, rd): (Result<Option<TypeRepV>, LowerError>, Seq<DiagV>) = match ret_ty {
                        Option::None => (Ok(Option::None), Seq::empty()),
                        Option::Some(b) => if *b == ForeignTypeV::Keyword(Keyword::Void) {
                            (Ok(Option::None), Seq::empty())
                        } else {
                            let (r0, d0) = spec_map_type(*b);
                            match r0 {
                                Ok(v) => (Ok(Option::Some(v)), d0),
                                Err(e) => (Err(e), d0),
                            }
                        },
                    };
                    match rr {
                        Err(e) => (Err(e), ds + rd),
                        Ok(ret) => {
                            let scope = spec_scope_of(type_params);
                            (
                                Ok(
                                    TypeRepV::Ref(
                                        Box::new(
                                            TypeRepV::Callable(
                                                spec_erase_seq(scope, inputs),
                                                match ret {
                                                    Option::Some(v) => Option::Some(
                                                        Box::new(spec_erase(scope, v)),
                                                    ),
                                                    Option::None => Option::None,
                                                },
                                            ),
                                        ),
                                    ),
                                ),
                                ds + rd,
                            )
                        },
                    }
                },
            }
        },
        ForeignTypeV::CtorType => (Err(LowerError::CtorType), Seq::empty()),
        ForeignTypeV::TypeRef { name, type_args } => {
            if name.len() > 1 {
                (Ok(TypeRepV::Path(spec_qual_path(name))), Seq::empty())
            } else {
                let ident = spec_sanitize(name[0]);
                if type_args.len() > 0 {
                    let (r, ds) = spec_map_types(type_args, 0, Seq::empty());
                    match r {
                        Ok(args) => if ident == "Array"@ {
                            (Ok(TypeRepV::BoxedSlice(Box::new(args[0]))), ds)
                        } else {
                            (Ok(TypeRepV::Path(seq![ident])), ds)
                        },
                        Err(e) => (Err(e), ds),
                    }
                } else {
                    (Ok(TypeRepV::Path(seq![ident])), Seq::empty())
                }
            }
        },
        ForeignTypeV::TypeQuery | ForeignTypeV::IndexedAccess | ForeignTypeV::InferType
            | ForeignTypeV::RestType | ForeignTypeV::Predicate | ForeignTypeV::Conditional
            | ForeignTypeV::TypeOperator | ForeignTypeV::MappedType => (
            Err(LowerError::UnsupportedType),
            Seq::empty(),
        ),
        ForeignTypeV::TypeLit => (Ok(TypeRepV::JsValue), seq![DiagV::TypeLiteral]),
        ForeignTypeV::LitType => (Ok(TypeRepV::JsValue), seq![DiagV::LitType]),
        ForeignTypeV::ArrayType(t0) => {
            let (r, ds) = spec_map_type(*t0);
            match r {
                Ok(v) => (Ok(TypeRepV::BoxedSlice(Box::new(v))), ds),
                Err(e) => (Err(e), ds),
            }
        },
        ForeignTypeV::OptionalType(t0) => {
            let (r, ds) = spec_map_type(*t0);
            match r {
                Ok(v) => (Ok(TypeRepV::Opt(Box::new(v))), ds),
                Err(e) => (Err(e), ds),
            }
        },
        ForeignTypeV::UnionType(ts) => {
            if ts.len() == 2 && is_null_or_undefined(ts[1]) {
                let (r, ds) = spec_map_type(ts[0]);
                match r {
                    Ok(v) => (Ok(TypeRepV::Opt(Box::new(v))), ds),
                    Err(e) => (Err(e), ds),
                }
            } else {
                (Ok(TypeRepV::JsValue), seq![DiagV::UnionShape])
            }
        },
        ForeignTypeV::IntersectionType(ts) => {
            if ts.len() > 0 {
                spec_map_type(ts[0])
            } else {
                (Ok(TypeRepV::JsValue), seq![DiagV::EmptyIntersection])
            }
        },
        ForeignTypeV::ParenType(t0) => spec_map_type(*t0),
        ForeignTypeV::TupleType(ts) => {
            let (r, ds) = spec_map_types(ts, 0, Seq::empty());
            match r {
                Ok(vs) => (Ok(TypeRepV::Tup(vs)), ds),
                Err(e) => (Err(e), ds),
            }
        },
        ForeignTypeV::ImportType { src, qualifier } => {
            if !starts_with_dot(src) {
                (Ok(TypeRepV::JsValue), seq![DiagV::NonRelativeImport])
            } else {
                (Ok(TypeRepV::Path(spec_import_type_path(src, qualifier))), Seq::empty())
            }
        },
        ForeignTypeV::ThisType => (Ok(TypeRepV::Path(seq!["Self"@])), Seq::empty()),
    }
}

/// Maps the types of a list from position `i` on, accumulating results and
/// diagnostics; the first fatal error aborts the rest.
pub open spec fn spec_map_types(ts: Seq<ForeignTypeV>, i: int, acc: Seq<TypeRepV>) -> (Result<
    Seq<TypeRepV>,
    LowerError,
>, Seq<DiagV>)
    decreases ts, ts.len() - i, 0int,
{
    if i < 0 || i >= ts.len() {
        (Ok(acc), Seq::empty())
    } else {
        let (r0, d0) = spec_map_type(ts[i]);
        match r0 {
            Err(e) => (Err(e), d0),
            Ok(v) => {
                let (rr, dr) = spec_map_types(ts, i + 1, acc.push(v));
                (rr, d0 + dr)
            },
        }
    }
}

/// Maps the annotated types of a function type's parameters from position
/// `i` on; a parameter without an annotation contributes the dynamic value
/// type.
pub open spec fn spec_map_fn_inputs(ps: Seq<FPatV>, i: int, acc: Seq<TypeRepV>) -> (Result<
    Seq<TypeRepV>,
    LowerError,
>, Seq<DiagV>)
    decreases ps, ps.len() - i, 0int,
{
    if i < 0 || i >= ps.len() {
        (Ok(acc), Seq::empty())
    } else {
        match fpat_ann(ps[i]) {
            Option::None => {
                let (rr, dr) = spec_map_fn_inputs(ps, i + 1, acc.push(TypeRepV::JsValue));
                (rr, dr)
            },
            Option::Some(t0) => {
                let (r0, d0) = spec_map_type(*t0);
                match r0 {
                    Err(e) => (Err(e), d0),
                    Ok(v) => {
                        let (rr, dr) = spec_map_fn_inputs(ps, i + 1, acc.push(v));
                        (rr, d0 + dr)
                    },
                }
            },
        }
    }
}

/// The view of an executable mapping result.
pub open spec fn res_view(r: Result<TypeRep, LowerError>) -> Result<TypeRepV, LowerError> {
    match r {
        Ok(t) => Ok(ty_view(t)),
        Err(e) => Err(e),
    }
}

/// A successful list mapping yields one target type per input type.
pub proof fn lemma_spec_map_types_len(ts: Seq<ForeignTypeV>, i: int, acc: Seq<TypeRepV>)
    requires
        0 <= i <= ts.len(),
        spec_map_types(ts, i, acc).0 is Ok,
    ensures
        spec_map_types(ts, i, acc).0 == Ok::<_, LowerError>(spec_map_types(ts, i, acc).0->Ok_0),
        spec_map_types(ts, i, acc).0->Ok_0.len() == acc.len() + ts.len() - i,
    decreases ts.len() - i,
{
    if i < ts.len() {
        let (r0, d0) = spec_map_type(ts[i]);
        match r0 {
            Ok(v) => {
                lemma_spec_map_types_len(ts, i + 1, acc.push(v));
            },
            Err(e) => {},
        }
    }
}

// ---------------------------------------------------------------------------
// The executable engine.
// ---------------------------------------------------------------------------

/// Records one diagnostic.
pub fn push_diag(diags: &mut Vec<Diag>, d: Diag)
    ensures
        view_diags(final(diags)@) == view_diags(old(diags)@).push(d@),
{
    let ghost prev = diags@;
    let ghost dv = d@;
    diags.push(d);
    proof {
        assert forall|j: int| 0 <= j < diags@.len() implies view_diags(diags@)[j] == view_diags(
            prev,
        ).push(dv)[j] by {
            if j < prev.len() {
                assert(diags@[j] == prev[j]);
            } else {
                assert(view_diags(diags@)[j] == dv);
            }
        }
        assert(view_diags(diags@) =~~= view_diags(prev).push(dv));
    }
}

fn qual_path_strings(name: &Vec<String>) -> (r: Vec<String>)
    requires
        name@.len() >= 1,
        valid_names(view_strings(name@)),
    ensures
        view_strings(r@) == spec_qual_path(view_strings(name@)),
{
    let n = name.len();
    let mut out: Vec<String> = Vec::new();
    let mut i: usize = 0;
    while i < n
        invariant
            n == name@.len(),
            valid_names(view_strings(name@)),
            i <= n,
            out@.len() == i,
            forall|j: int| 0 <= j < i ==> view_strings(out@)[j] == spec_qual_path(
                view_strings(name@),
            )[j],
        decreases n - i,
    {
        proof {
            assert(view_strings(name@)[i as int] == name@[i as int]@);
        }
        let s = if i < n - 1 {
            let m = name[i].clone().concat("Mod");
            proof {
                lemma_mod_suffix_valid(name@[i as int]@);
            }
            sanitize_sym(m.as_str())
        } else {
            sanitize_sym(name[i].as_str())
        };
        let ghost prev = out@;
        out.push(s);
        i = i + 1;
        proof {
            assert forall|j: int| 0 <= j < i implies view_strings(out@)[j] == spec_qual_path(
                view_strings(name@),
            )[j] by {
                if j < i - 1 {
                    assert(out@[j] == prev[j]);
                    assert(view_strings(prev)[j] == spec_qual_path(view_strings(name@))[j]);
                } else {
                    assert(out@[j] == s);
                }
            }
        }
    }
    proof {
        assert(view_strings(out@) =~~= spec_qual_path(view_strings(name@)));
    }
    out
}

fn import_type_path(src: &String, qualifier: &String) -> (r: Vec<String>)
    requires
        crate::util::valid_import_path(src@),
        valid_source_name(qualifier@),
    ensures
        view_strings(r@) == spec_import_type_path(src@, qualifier@),
{
    let pref = import_prefix_to_idents(src.as_str());
    let ghost prefv = spec_import_prefix(src@);
    let mut out: Vec<String> = Vec::new();
    let mut i: usize = 0;
    while i < pref.len()
        invariant
            view_segs(pref@) == prefv,
            pref@.len() == prefv.len(),
            i <= pref@.len(),
            out@.len() == i,
            forall|j: int| 0 <= j < i ==> view_strings(out@)[j] == seg_string(prefv[j]),
        decreases pref@.len() - i,
    {
        proof {
            assert(view_segs(pref@)[i as int] == pref@[i as int]@);
        }
        let s: String = match &pref[i] {
            PathSeg::Up => {
                let s = chars_to_string_lit("super");
                s
            },
            PathSeg::SelfScope => {
                let s = chars_to_string_lit("self");
                s
            },
            PathSeg::Named(n) => n.clone(),
        };
        let ghost prev = out@;
        out.push(s);
        i = i + 1;
        proof {
            assert forall|j: int| 0 <= j < i implies view_strings(out@)[j] == seg_string(
                prefv[j],
            ) by {
                if j < i - 1 {
                    assert(out@[j] == prev[j]);
                    assert(view_strings(prev)[j] == seg_string(prefv[j]));
                } else {
                    assert(out@[j] == s);
                }
            }
        }
    }
    let ghost prev = out@;
    let q = sanitize_sym(qualifier.as_str());
    out.push(q);
    proof {
        assert forall|j: int| 0 <= j < out@.len() implies view_strings(out@)[j]
            == spec_import_type_path(src@, qualifier@)[j] by {
            if j < prev.len() {
                assert(out@[j] == prev[j]);
                assert(view_strings(prev)[j] == seg_string(prefv[j]));
            } else {
                assert(out@[j] == q);
            }
        }
        assert(view_strings(out@) =~~= spec_import_type_path(src@, qualifier@));
    }
    out
}

/// A fresh owned copy of a string literal.
fn chars_to_string_lit(s: &str) -> (r: String)
    ensures
        r@ == s@,
{
    let v = crate::util::str_chars(s);
    crate::util::chars_to_string(&v)
}

/// Maps every type of a list, in order, stopping at the first fatal error.
pub fn map_type_list(ts: &Vec<ForeignType>, diags: &mut Vec<Diag>) -> (r: Result<
    Vec<TypeRep>,
    LowerError,
>)
    requires
        fts_wf(fts_view(ts@)),
    ensures
        ({
            let (sr, sd) = spec_map_types(fts_view(ts@), 0, Seq::empty());
            &&& view_diags(final(diags)@) == view_diags(old(diags)@) + sd
            &&& match r {
                Ok(vs) => sr == Ok::<_, LowerError>(tys_view(vs@)),
                Err(e) => sr == Err::<Seq<TypeRepV>, _>(e),
            }
        }),
    decreases *ts,
{
    let ghost tsv = fts_view(ts@);
    let ghost base = view_diags(diags@);
    let ghost mut emitted: Seq<DiagV> = Seq::empty();
    let mut out: Vec<TypeRep> = Vec::new();
    let mut i: usize = 0;
    proof {
        assert(base + emitted =~~= base);
        assert(tys_view(out@) =~~= Seq::<TypeRepV>::empty());
    }
    while i < ts.len()
        invariant
            tsv == fts_view(ts@),
            fts_wf(tsv),
            i <= ts@.len(),
            out@.len() == i,
            base == view_diags(old(diags)@),
            view_diags(diags@) == base + emitted,
            spec_map_types(tsv, 0, Seq::empty()).0 == spec_map_types(
                tsv,
                i as int,
                tys_view(out@),
            ).0,
            spec_map_types(tsv, 0, Seq::empty()).1 == emitted + spec_map_types(
                tsv,
                i as int,
                tys_view(out@),
            ).1,
        decreases ts@.len() - i,
    {
        let ghost acc = tys_view(out@);
        proof {
            lemma_fts_view(ts@);
            assert(tsv[i as int] == ft_view(ts@[i as int]));
            assert(ft_wf(tsv[i as int]));
        }
        let ghost (r0, d0) = spec_map_type(tsv[i as int]);
        let m = ts_type_to_type(&ts[i], diags);
        match m {
            Ok(v) => {
                out.push(v);
                proof {
                    emitted = emitted + d0;
                    assert(tys_view(out@) =~~= acc.push(ty_view(v)));
                    assert(view_diags(diags@) =~~= base + emitted);
                    assert(spec_map_types(tsv, i as int, acc).0 == spec_map_types(
                        tsv,
                        i + 1,
                        acc.push(ty_view(v)),
                    ).0);
                    assert(emitted + spec_map_types(tsv, i + 1, acc.push(ty_view(v))).1 =~~= (
                    emitted.subrange(0, emitted.len() - d0.len()) + (d0 + spec_map_types(
                        tsv,
                        i + 1,
                        acc.push(ty_view(v)),
                    ).1)));
                }
                i = i + 1;
            },
            Err(e) => {
                proof {
                    assert(spec_map_types(tsv, i as int, acc) == (
                        Err::<Seq<TypeRepV>, LowerError>(e),
                        d0,
                    ));
                    assert(view_diags(diags@) =~~= base + (emitted + d0));
                    assert(spec_map_types(tsv, 0, Seq::empty()).1 =~~= emitted + d0);
                }
                return Err(e);
            },
        }
    }
    proof {
        assert(spec_map_types(tsv, i as int, tys_view(out@)) == (
            Ok::<Seq<TypeRepV>, LowerError>(tys_view(out@)),
            Seq::<DiagV>::empty(),
        ));
        assert(emitted + Seq::<DiagV>::empty() =~~= emitted);
    }
    Ok(out)
}

/// The annotation of a parameter pattern, as the mapping engine reads it.
fn fpat_ann_get(p: &FPat) -> (r: &Option<ForeignType>)
    ensures
        crate::ty::opt_ft_view(*r) == fpat_ann(fpat_view(*p)),
        fpat_wf(fpat_view(*p)) ==> crate::ty::opt_ft_wf(crate::ty::opt_ft_view(*r)),
        *r is Some ==> decreases_to!(*p => *r),
{
    match p {
        FPat::Ident { name, optional, ann } => ann,
        FPat::Rest { arg, ann } => ann,
        FPat::ArrayPat { ann } => ann,
        FPat::ObjectPat { ann } => ann,
        FPat::AssignPat => &Option::None,
        FPat::InvalidPat => &Option::None,
        FPat::ExprPat => &Option::None,
    }
}

/// Maps the annotated types of a function type's parameters; a parameter
/// without an annotation crosses the boundary as a dynamic value.
fn map_fn_inputs(ps: &Vec<FPat>, diags: &mut Vec<Diag>) -> (r: Result<Vec<TypeRep>, LowerError>)
    requires
        fpats_wf(fpats_view(ps@)),
    ensures
        ({
            let (sr, sd) = spec_map_fn_inputs(fpats_view(ps@), 0, Seq::empty());
            &&& view_diags(final(diags)@) == view_diags(old(diags)@) + sd
            &&& match r {
                Ok(vs) => sr == Ok::<_, LowerError>(tys_view(vs@)),
                Err(e) => sr == Err::<Seq<TypeRepV>, _>(e),
            }
        }),
    decreases *ps,
{
    let ghost psv = fpats_view(ps@);
    let ghost base = view_diags(diags@);
    let ghost mut emitted: Seq<DiagV> = Seq::empty();
    let mut out: Vec<TypeRep> = Vec::new();
    let mut i: usize = 0;
    proof {
        assert(base + emitted =~~= base);
        assert(tys_view(out@) =~~= Seq::<TypeRepV>::empty());
    }
    while i < ps.len()
        invariant
            psv == fpats_view(ps@),
            fpats_wf(psv),
            i <= ps@.len(),
            out@.len() == i,
            base == view_diags(old(diags)@),
            view_diags(diags@) == base + emitted,
            spec_map_fn_inputs(psv, 0, Seq::empty()).0 == spec_map_fn_inputs(
                psv,
                i as int,
                tys_view(out@),
            ).0,
            spec_map_fn_inputs(psv, 0, Seq::empty()).1 == emitted + spec_map_fn_inputs(
                psv,
                i as int,
                tys_view(out@),
            ).1,
        decreases ps@.len() - i,
    {
        let ghost acc = tys_view(out@);
        proof {
            lemma_fpats_view(ps@);
            assert(psv[i as int] == fpat_view(ps@[i as int]));
            assert(fpat_wf(psv[i as int]));
        }
        let ann = fpat_ann_get(&ps[i]);
        proof {
            assert(psv[i as int] == fpat_view(ps@[i as int]));
            match ann {
                Option::Some(t0) => {
                    assert(fpat_ann(psv[i as int]) == Option::Some(Box::new(ft_view(*t0))));
                    assert(ft_wf(ft_view(*t0)));
                },
                Option::None => {
                    assert(fpat_ann(psv[i as int]) is None);
                },
            }
        }
        match ann {
            Option::Some(t0) => {
                let ghost (r0, d0) = spec_map_type(ft_view(*t0));
                proof {
                    assert(decreases_to!(ps@[i as int] => *ann));
                    assert(decreases_to!(*ps => *t0));
                }
                let m = ts_type_to_type(t0, diags);
                match m {
                    Ok(v) => {
                        out.push(v);
                        proof {
                            emitted = emitted + d0;
                            assert(tys_view(out@) =~~= acc.push(ty_view(v)));
                            assert(view_diags(diags@) =~~= base + emitted);
                            assert(emitted + spec_map_fn_inputs(psv, i + 1, acc.push(ty_view(v))).1
                                =~~= (emitted.subrange(0, emitted.len() - d0.len()) + (d0
                            + spec_map_fn_inputs(psv, i + 1, acc.push(ty_view(v))).1)));
                        }
                        i = i + 1;
                    },
                    Err(e) => {
                        proof {
                            assert(spec_map_fn_inputs(psv, i as int, acc) == (
                                Err::<Seq<TypeRepV>, LowerError>(e),
                                d0,
                            ));
                            assert(view_diags(diags@) =~~= base + (emitted + d0));
                            assert(spec_map_fn_inputs(psv, 0, Seq::empty()).1 =~~= emitted + d0);
                        }
                        return Err(e);
                    },
                }
            },
            Option::None => {
                out.push(TypeRep::JsValue);
                proof {
                    assert(tys_view(out@) =~~= acc.push(TypeRepV::JsValue));
                }
                i = i + 1;
            },
        }
    }
    proof {
        assert(spec_map_fn_inputs(psv, i as int, tys_view(out@)) == (
            Ok::<Seq<TypeRepV>, LowerError>(tys_view(out@)),
            Seq::<DiagV>::empty(),
        ));
        assert(emitted + Seq::<DiagV>::empty() =~~= emitted);
    }
    Ok(out)
}

/// Maps one foreign type expression onto the target's representable type
/// set, total over the supported grammar: constructs outside scope either
/// fall back to the dynamic value type with a diagnostic, or abort the
/// enclosing declaration with a fatal error.
pub fn ts_type_to_type(t: &ForeignType, diags: &mut Vec<Diag>) -> (r: Result<TypeRep, LowerError>)
    requires
        ft_wf(ft_view(*t)),
    ensures
        ({
            let (sr, sd) = spec_map_type(ft_view(*t));
            &&& view_diags(final(diags)@) == view_diags(old(diags)@) + sd
            &&& res_view(r) == sr
        }),
    decreases *t,
{
    let ghost tv = ft_view(*t);
    let ghost base = view_diags(diags@);
    proof {
        assert(base + Seq::<DiagV>::empty() =~~= base);
    }
    match t {
        ForeignType::Keyword(k) => match k {
            Keyword::Any | Keyword::Unknown | Keyword::Null | Keyword::Undefined | Keyword::Never
                | Keyword::ObjectKw => Ok(TypeRep::JsValue),
            Keyword::Num => {
                proof {
                    assert(*t == ForeignType::Keyword(Keyword::Num));
                    assert(tv == ForeignTypeV::Keyword(Keyword::Num));
                    assert(spec_map_type(tv).0 == Ok::<TypeRepV, LowerError>(
                        TypeRepV::Prim(Prim::F64),
                    ));
                    assert(spec_map_type(tv).1 == Seq::<DiagV>::empty());
                    assert(view_diags(diags@) == base + spec_map_type(tv).1);
                }
                Ok(TypeRep::Prim(Prim::F64))
            },
            Keyword::Boolean => Ok(TypeRep::Prim(Prim::Bool)),
            Keyword::Str => Ok(TypeRep::Prim(Prim::Str)),
            Keyword::Void => Ok(TypeRep::Prim(Prim::Unit)),
            Keyword::BigInt | Keyword::Symbol | Keyword::Intrinsic => Err(
                LowerError::UnsupportedKeyword,
            ),
        },
        ForeignType::FnType { params, type_params, ret_ty } => {
            proof {
                assert(tv == ForeignTypeV::FnType {
                    params: fpats_view(params@),
                    type_params: view_strings(type_params@),
                    ret_ty: crate::ty::opt_box_ft_view(*ret_ty),
                });
            }
            let m = map_fn_inputs(params, diags);
            let inputs = match m {
                Ok(inputs) => inputs,
                Err(e) => {
                    return Err(e);
                },
            };
            let ghost ds = spec_map_fn_inputs(fpats_view(params@), 0, Seq::empty()).1;
            let ret: Option<TypeRep> = match ret_ty {
                Option::None => Option::None,
                Option::Some(b) => {
                    proof {
                        assert(crate::ty::opt_box_ft_view(*ret_ty) == Option::Some(
                            Box::new(ft_view(**b)),
                        ));
                    }
                    let is_void = match &**b {
                        ForeignType::Keyword(k) => match k {
                            Keyword::Void => true,
                            _ => false,
                        },
                        _ => false,
                    };
                    proof {
                        assert(is_void == (ft_view(**b) == ForeignTypeV::Keyword(Keyword::Void)));
                    }
                    if is_void {
                        Option::None
                    } else {
                        proof {
                            assert(crate::ty::opt_ft_wf(crate::ty::opt_box_ft_view(*ret_ty)));
                            assert(*Box::new(ft_view(**b)) == ft_view(**b));
                            assert(ft_wf(ft_view(**b)));
                        }
                        let ghost (r0, d0) = spec_map_type(ft_view(**b));
                        let m2 = ts_type_to_type(b, diags);
                        match m2 {
                            Ok(v) => {
                                proof {
                                    assert(view_diags(diags@) =~~= base + (ds + d0));
                                }
                                Option::Some(v)
                            },
                            Err(e) => {
                                proof {
                                    assert(view_diags(diags@) =~~= base + (ds + d0));
                                    assert(spec_map_type(tv).1 =~~= ds + d0);
                                }
                                return Err(e);
                            },
                        }
                    }
                },
            };
            let gen = ByeByeGenerics::new(type_params);
            let erased = gen.erase_types(&inputs);
            proof {
                assert(tys_view(erased@) == spec_erase_seq(
                    spec_scope_of(view_strings(type_params@)),
                    tys_view(inputs@),
                ));
            }
            let ghost retv = crate::item::opt_ty_view(ret);
            let eret: Option<Box<TypeRep>> = match ret {
                Option::Some(v) => Option::Some(Box::new(gen.erase_type(&v))),
                Option::None => Option::None,
            };
            proof {
                assert(crate::ty::opt_box_ty_view(eret) == (match retv {
                    Option::Some(v) => Option::Some(
                        Box::new(spec_erase(gen.scope(), v)),
                    ),
                    Option::None => Option::<Box<TypeRepV>>::None,
                }));
            }
            let inner = TypeRep::Callable(erased, eret);
            let ghost innerv = ty_view(inner);
            let res = TypeRep::Ref(Box::new(inner));
            proof {
                assert(ty_view(res) == TypeRepV::Ref(Box::new(innerv)));
            }
            Ok(res)
        },
        ForeignType::CtorType => Err(LowerError::CtorType),
        ForeignType::TypeRef { name, type_args } => {
            if name.len() > 1 {
                let segs = qual_path_strings(name);
                Ok(TypeRep::Path(segs))
            } else {
                proof {
                    assert(view_strings(name@)[0] == name@[0]@);
                }
                let ident = sanitize_sym(name[0].as_str());
                if type_args.len() > 0 {
                    let m = map_type_list(type_args, diags);
                    match m {
                        Ok(args) => {
                            if str_eq(ident.as_str(), "Array") {
                                proof {
                                    lemma_spec_map_types_len(
                                        fts_view(type_args@),
                                        0,
                                        Seq::empty(),
                                    );
                                }
                                let mut args = args;
                                let first = args.remove(0);
                                Ok(TypeRep::BoxedSlice(Box::new(first)))
                            } else {
                                let segs: Vec<String> = vec![ident];
                                proof {
                                    assert(view_strings(segs@) =~~= seq![
                                        spec_sanitize(name@[0]@),
                                    ]);
                                }
                                Ok(TypeRep::Path(segs))
                            }
                        },
                        Err(e) => Err(e),
                    }
                } else {
                    let segs: Vec<String> = vec![ident];
                    proof {
                        assert(view_strings(segs@) =~~= seq![spec_sanitize(name@[0]@)]);
                    }
                    Ok(TypeRep::Path(segs))
                }
            }
        },
        ForeignType::TypeQuery | ForeignType::IndexedAccess | ForeignType::InferType
            | ForeignType::RestType | ForeignType::Predicate | ForeignType::Conditional
            | ForeignType::TypeOperator | ForeignType::MappedType => Err(
            LowerError::UnsupportedType,
        ),
        ForeignType::TypeLit => {
            push_diag(diags, Diag::TypeLiteral);
            proof {
                assert(base.push(DiagV::TypeLiteral) =~~= base + seq![DiagV::TypeLiteral]);
            }
            Ok(TypeRep::JsValue)
        },
        ForeignType::LitType => {
            push_diag(diags, Diag::LitType);
            proof {
                assert(base.push(DiagV::LitType) =~~= base + seq![DiagV::LitType]);
            }
            Ok(TypeRep::JsValue)
        },
        ForeignType::ArrayType(t0) => {
            let m = ts_type_to_type(t0, diags);
            match m {
                Ok(v) => Ok(TypeRep::BoxedSlice(Box::new(v))),
                Err(e) => Err(e),
            }
        },
        ForeignType::OptionalType(t0) => {
            let m = ts_type_to_type(t0, diags);
            match m {
                Ok(v) => Ok(TypeRep::Opt(Box::new(v))),
                Err(e) => Err(e),
            }
        },
        ForeignType::UnionType(ts) => {
            let opt_shape = if ts.len() == 2 {
                match &ts[1] {
                    ForeignType::Keyword(k) => match k {
                        Keyword::Undefined | Keyword::Null => true,
                        _ => false,
                    },
                    _ => false,
                }
            } else {
                false
            };
            proof {
                lemma_fts_view(ts@);
                let tss = tv->UnionType_0;
                assert(tss == fts_view(ts@));
                assert(tss.len() == ts@.len());
                if ts@.len() == 2 {
                    assert(tss[1] == ft_view(ts@[1]));
                    assert(opt_shape == is_null_or_undefined(tss[1]));
                }
            }
            if opt_shape {
                proof {
                    lemma_fts_view(ts@);
                    assert(fts_view(ts@)[0] == ft_view(ts@[0]));
                    assert(ft_view(*t) == ForeignTypeV::UnionType(fts_view(ts@)));
                    assert(ft_wf(ForeignTypeV::UnionType(fts_view(ts@))));
                    assert(fts_wf(fts_view(ts@)));
                    assert(ft_wf(fts_view(ts@)[0]));
                }
                let m = ts_type_to_type(&ts[0], diags);
                match m {
                    Ok(v) => Ok(TypeRep::Opt(Box::new(v))),
                    Err(e) => Err(e),
                }
            } else {
                push_diag(diags, Diag::UnionShape);
                proof {
                    assert(base.push(DiagV::UnionShape) =~~= base + seq![DiagV::UnionShape]);
                }
                Ok(TypeRep::JsValue)
            }
        },
        ForeignType::IntersectionType(ts) => {
            if ts.len() > 0 {
                proof {
                    lemma_fts_view(ts@);
                    assert(fts_view(ts@)[0] == ft_view(ts@[0]));
                    assert(ft_view(*t) == ForeignTypeV::IntersectionType(fts_view(ts@)));
                    assert(ft_wf(ForeignTypeV::IntersectionType(fts_view(ts@))));
                    assert(fts_wf(fts_view(ts@)));
                    assert(ft_wf(fts_view(ts@)[0]));
                }
                let m = ts_type_to_type(&ts[0], diags);
                m
            } else {
                push_diag(diags, Diag::EmptyIntersection);
                proof {
                    assert(base.push(DiagV::EmptyIntersection) =~~= base + seq![
                        DiagV::EmptyIntersection,
                    ]);
                }
                Ok(TypeRep::JsValue)
            }
        },
        ForeignType::ParenType(t0) => {
            proof {
                assert(tv == ForeignTypeV::ParenType(Box::new(ft_view(**t0))));
                assert(*Box::new(ft_view(**t0)) == ft_view(**t0));
                assert(ft_wf(ft_view(**t0)));
            }
            ts_type_to_type(t0, diags)
        },
        ForeignType::TupleType(ts) => {
            let m = map_type_list(ts, diags);
            match m {
                Ok(vs) => Ok(TypeRep::Tup(vs)),
                Err(e) => Err(e),
            }
        },
        ForeignType::ImportType { src, qualifier } => {
            let relative = if src.unicode_len() > 0 {
                let c = src.as_str().get_char(0);
                c == '.'
            } else {
                false
            };
            proof {
                assert(relative == starts_with_dot(src@));
            }
            if !relative {
                push_diag(diags, Diag::NonRelativeImport);
                proof {
                    assert(base.push(DiagV::NonRelativeImport) =~~= base + seq![
                        DiagV::NonRelativeImport,
                    ]);
                }
                Ok(TypeRep::JsValue)
            } else {
                let segs = import_type_path(src, qualifier);
                Ok(TypeRep::Path(segs))
            }
        },
        ForeignType::ThisType => {
            let s = chars_to_string_lit("Self");
            let segs: Vec<String> = vec![s];
            proof {
                assert(view_strings(segs@) =~~= seq!["Self"@]);
            }
            Ok(TypeRep::Path(segs))
        },
    }
}

} // verus!
