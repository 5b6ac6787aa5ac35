use vstd::prelude::*;

use crate::util::{valid_source_name, valid_import_path};

verus! {

/// Primitive types of the target language that may appear in a binding
/// signature.
#[derive(Clone, Copy, Debug, PartialEq, Eq, Structural)]
pub enum Prim {
    I32,
    Isize,
    I64,
    U32,
    Usize,
    U64,
    F32,
    F64,
    Bool,
    Char,
    Unit,
    Str,
}

/// A type expression of the target language, as it appears in an emitted
/// binding signature.
#[derive(Debug)]
pub enum TypeRep {
    /// A primitive of the target language.
    Prim(Prim),
    /// The dynamic value type: the universal escape hatch for anything the
    /// boundary cannot represent precisely.
    JsValue,
    /// A (possibly module-qualified) named type; the segments run outer to
    /// inner and carry no generic arguments.
    Path(Vec<String>),
    /// A shared reference.
    Ref(Box<TypeRep>),
    /// The optional wrapper of the target language.
    Opt(Box<TypeRep>),
    /// A boxed slice.
    BoxedSlice(Box<TypeRep>),
    /// A tuple of types, in order.
    Tup(Vec<TypeRep>),
    /// A borrowed callable with the given parameter types and optional
    /// return type.
    Callable(Vec<TypeRep>, Option<Box<TypeRep>>),
}

/// Mathematical model of [`TypeRep`].
pub enum TypeRepV {
    Prim(Prim),
    JsValue,
    Path(Seq<Seq<char>>),
    Ref(Box<TypeRepV>),
    Opt(Box<TypeRepV>),
    BoxedSlice(Box<TypeRepV>),
    Tup(Seq<TypeRepV>),
    Callable(Seq<TypeRepV>, Option<Box<TypeRepV>>),
}

pub open spec fn view_strings(v: Seq<String>) -> Seq<Seq<char>> {
    v.map(|i: int, s: String| s@)
}

pub open spec fn tys_view(ts: Seq<TypeRep>) -> Seq<TypeRepV>
    decreases ts,
{
    if ts.len() == 0 {
        Seq::empty()
    } else {
        seq![ty_view(ts[0])] + tys_view(ts.subrange(1, ts.len() as int))
    }
}

pub open spec fn ty_view(t: TypeRep) -> TypeRepV
    decreases t,
{
    match t {
        TypeRep::Prim(p) => TypeRepV::Prim(p),
        TypeRep::JsValue => TypeRepV::JsValue,
        TypeRep::Path(segs) => TypeRepV::Path(view_strings(segs@)),
        TypeRep::Ref(t0) => TypeRepV::Ref(Box::new(ty_view(*t0))),
        TypeRep::Opt(t0) => TypeRepV::Opt(Box::new(ty_view(*t0))),
        TypeRep::BoxedSlice(t0) => TypeRepV::BoxedSlice(Box::new(ty_view(*t0))),
        TypeRep::Tup(ts) => TypeRepV::Tup(tys_view(ts@)),
        TypeRep::Callable(ts, rt) => TypeRepV::Callable(tys_view(ts@), opt_box_ty_view(rt)),
    }
}

pub open spec fn opt_box_ty_view(t: Option<Box<TypeRep>>) -> Option<Box<TypeRepV>>
    decreases t,
{
    match t {
        Option::Some(b) => Option::Some(Box::new(ty_view(*b))),
        Option::None => Option::None,
    }
}

impl View for TypeRep {
    type V = TypeRepV;

    open spec fn view(&self) -> TypeRepV {
        ty_view(*self)
    }
}

/// A fresh copy of a list of names.
pub fn clone_strings(v: &Vec<String>) -> (r: Vec<String>)
    ensures
        view_strings(r@) == view_strings(v@),
{
    let mut out: Vec<String> = Vec::new();
    let mut i: usize = 0;
    while i < v.len()
        invariant
            i <= v@.len(),
            out@.len() == i,
            view_strings(out@) =~~= view_strings(v@).subrange(0, i as int),
        decreases v@.len() - i,
    {
        out.push(v[i].clone());
        i = i + 1;
        proof {
            assert(view_strings(out@) =~~= view_strings(v@).subrange(0, i as int));
        }
    }
    proof {
        assert(view_strings(out@) =~~= view_strings(v@));
    }
    out
}

/// Facts every use of [`tys_view`] needs: it maps [`ty_view`] over the
/// elements.
pub broadcast proof fn lemma_tys_view(ts: Seq<TypeRep>)
    ensures
        (#[trigger] tys_view(ts)).len() == ts.len(),
        forall|i: int| 0 <= i < ts.len() ==> tys_view(ts)[i] == ty_view(ts[i]),
    decreases ts.len(),
{
    if ts.len() > 0 {
        lemma_tys_view(ts.subrange(1, ts.len() as int));
    }
}

// ---------------------------------------------------------------------------
// The foreign type grammar, as the external parser hands it over.
// ---------------------------------------------------------------------------

/// A primitive keyword of the foreign type system.
#[derive(Debug, Clone, Copy, PartialEq, Eq, Structural)]
pub enum Keyword {
    Any,
    Unknown,
    Null,
    Undefined,
    Never,
    ObjectKw,
    Num,
    Boolean,
    Str,
    Void,
    BigInt,
    Symbol,
    Intrinsic,
}

/// A binding pattern, as it appears in parameter position or as the name of
/// a variable declarator.
#[derive(Debug)]
pub enum FPat {
    /// A plain identifier, possibly optional, with an optional type
    /// annotation.
    Ident { name: String, optional: bool, ann: Option<ForeignType> },
    /// A rest parameter.
    Rest { arg: Box<FPat>, ann: Option<ForeignType> },
    /// An array destructuring pattern.
    ArrayPat { ann: Option<ForeignType> },
    /// An object destructuring pattern.
    ObjectPat { ann: Option<ForeignType> },
    /// A pattern with a default value.
    AssignPat,
    /// A pattern the parser could not make sense of.
    InvalidPat,
    /// An expression in pattern position.
    ExprPat,
}

/// A type expression of the foreign type system.
#[derive(Debug)]
pub enum ForeignType {
    Keyword(Keyword),
    /// A function type, with its parameters and declared return type.
    FnType { params: Vec<FPat>, type_params: Vec<String>, ret_ty: Option<Box<ForeignType>> },
    /// A constructor type.
    CtorType,
    /// A reference to a named type: the name's segments run outer to inner,
    /// and generic arguments are never reified in the output.
    TypeRef { name: Vec<String>, type_args: Vec<ForeignType> },
    TypeQuery,
    /// An inline object type literal.
    TypeLit,
    LitType,
    IndexedAccess,
    InferType,
    RestType,
    Predicate,
    Conditional,
    TypeOperator,
    MappedType,
    ArrayType(Box<ForeignType>),
    OptionalType(Box<ForeignType>),
    UnionType(Vec<ForeignType>),
    IntersectionType(Vec<ForeignType>),
    ParenType(Box<ForeignType>),
    TupleType(Vec<ForeignType>),
    /// A type imported from another unit, `import("./x").T`.
    ImportType { src: String, qualifier: String },
    ThisType,
}

/// Mathematical model of [`FPat`].
pub enum FPatV {
    Ident { name: Seq<char>, optional: bool, ann: Option<Box<ForeignTypeV>> },
    Rest { arg: Box<FPatV>, ann: Option<Box<ForeignTypeV>> },
    ArrayPat { ann: Option<Box<ForeignTypeV>> },
    ObjectPat { ann: Option<Box<ForeignTypeV>> },
    AssignPat,
    InvalidPat,
    ExprPat,
}

/// Mathematical model of [`ForeignType`].
pub enum ForeignTypeV {
    Keyword(Keyword),
    FnType { params: Seq<FPatV>, type_params: Seq<Seq<char>>, ret_ty: Option<Box<ForeignTypeV>> },
    CtorType,
    TypeRef { name: Seq<Seq<char>>, type_args: Seq<ForeignTypeV> },
    TypeQuery,
    TypeLit,
    LitType,
    IndexedAccess,
    InferType,
    RestType,
    Predicate,
    Conditional,
    TypeOperator,
    MappedType,
    ArrayType(Box<ForeignTypeV>),
    OptionalType(Box<ForeignTypeV>),
    UnionType(Seq<ForeignTypeV>),
    IntersectionType(Seq<ForeignTypeV>),
    ParenType(Box<ForeignTypeV>),
    TupleType(Seq<ForeignTypeV>),
    ImportType { src: Seq<char>, qualifier: Seq<char> },
    ThisType,
}

pub open spec fn opt_ft_view(t: Option<ForeignType>) -> Option<Box<ForeignTypeV>>
    decreases t,
{
    match t {
        Option::Some(t0) => Option::Some(Box::new(ft_view(t0))),
        Option::None => Option::None,
    }
}

pub open spec fn opt_box_ft_view(t: Option<Box<ForeignType>>) -> Option<Box<ForeignTypeV>>
    decreases t,
{
    match t {
        Option::Some(b) => Option::Some(Box::new(ft_view(*b))),
        Option::None => Option::None,
    }
}

pub open spec fn fpat_view(p: FPat) -> FPatV
    decreases p,
{
    match p {
        FPat::Ident { name, optional, ann } => FPatV::Ident {
            name: name@,
            optional,
            ann: opt_ft_view(ann),
        },
        FPat::Rest { arg, ann } => FPatV::Rest {
            arg: Box::new(fpat_view(*arg)),
            ann: opt_ft_view(ann),
        },
        FPat::ArrayPat { ann } => FPatV::ArrayPat { ann: opt_ft_view(ann) },
        FPat::ObjectPat { ann } => FPatV::ObjectPat { ann: opt_ft_view(ann) },
        FPat::AssignPat => FPatV::AssignPat,
        FPat::InvalidPat => FPatV::InvalidPat,
        FPat::ExprPat => FPatV::ExprPat,
    }
}

pub open spec fn fpats_view(ps: Seq<FPat>) -> Seq<FPatV>
    decreases ps,
{
    if ps.len() == 0 {
        Seq::empty()
    } else {
        seq![fpat_view(ps[0])] + fpats_view(ps.subrange(1, ps.len() as int))
    }
}

pub open spec fn ft_view(t: ForeignType) -> ForeignTypeV
    decreases t,
{
    match t {
        ForeignType::Keyword(k) => ForeignTypeV::Keyword(k),
        ForeignType::FnType { params, type_params, ret_ty } => ForeignTypeV::FnType {
            params: fpats_view(params@),
            type_params: crate::ty::view_strings(type_params@),
            ret_ty: opt_box_ft_view(ret_ty),
        },
        ForeignType::CtorType => ForeignTypeV::CtorType,
        ForeignType::TypeRef { name, type_args } => ForeignTypeV::TypeRef {
            name: crate::ty::view_strings(name@),
            type_args: fts_view(type_args@),
        },
        ForeignType::TypeQuery => ForeignTypeV::TypeQuery,
        ForeignType::TypeLit => ForeignTypeV::TypeLit,
        ForeignType::LitType => ForeignTypeV::LitType,
        ForeignType::IndexedAccess => ForeignTypeV::IndexedAccess,
        ForeignType::InferType => ForeignTypeV::InferType,
        ForeignType::RestType => ForeignTypeV::RestType,
        ForeignType::Predicate => ForeignTypeV::Predicate,
        ForeignType::Conditional => ForeignTypeV::Conditional,
        ForeignType::TypeOperator => ForeignTypeV::TypeOperator,
        ForeignType::MappedType => ForeignTypeV::MappedType,
        ForeignType::ArrayType(t0) => ForeignTypeV::ArrayType(Box::new(ft_view(*t0))),
        ForeignType::OptionalType(t0) => ForeignTypeV::OptionalType(Box::new(ft_view(*t0))),
        ForeignType::UnionType(ts) => ForeignTypeV::UnionType(fts_view(ts@)),
        ForeignType::IntersectionType(ts) => ForeignTypeV::IntersectionType(fts_view(ts@)),
        ForeignType::ParenType(t0) => ForeignTypeV::ParenType(Box::new(ft_view(*t0))),
        ForeignType::TupleType(ts) => ForeignTypeV::TupleType(fts_view(ts@)),
        ForeignType::ImportType { src, qualifier } => ForeignTypeV::ImportType {
            src: src@,
            qualifier: qualifier@,
        },
        ForeignType::ThisType => ForeignTypeV::ThisType,
    }
}

pub open spec fn fts_view(ts: Seq<ForeignType>) -> Seq<ForeignTypeV>
    decreases ts,
{
    if ts.len() == 0 {
        Seq::empty()
    } else {
        seq![ft_view(ts[0])] + fts_view(ts.subrange(1, ts.len() as int))
    }
}

impl View for ForeignType {
    type V = ForeignTypeV;

    open spec fn view(&self) -> ForeignTypeV {
        ft_view(*self)
    }
}

impl View for FPat {
    type V = FPatV;

    open spec fn view(&self) -> FPatV {
        fpat_view(*self)
    }
}

pub broadcast proof fn lemma_fts_view(ts: Seq<ForeignType>)
    ensures
        (#[trigger] fts_view(ts)).len() == ts.len(),
        forall|i: int| 0 <= i < ts.len() ==> fts_view(ts)[i] == ft_view(ts[i]),
    decreases ts.len(),
{
    if ts.len() > 0 {
        lemma_fts_view(ts.subrange(1, ts.len() as int));
    }
}

pub broadcast proof fn lemma_fpats_view(ps: Seq<FPat>)
    ensures
        (#[trigger] fpats_view(ps)).len() == ps.len(),
        forall|i: int| 0 <= i < ps.len() ==> fpats_view(ps)[i] == fpat_view(ps[i]),
    decreases ps.len(),
{
    if ps.len() > 0 {
        lemma_fpats_view(ps.subrange(1, ps.len() as int));
    }
}

/// The shape of a foreign function: parameters, locally bound type
/// parameters, and the declared return type. Bodies never cross the
/// boundary.
#[derive(Debug)]
pub struct FnShape {
    pub params: Vec<FPat>,
    pub type_params: Vec<String>,
    pub return_type: Option<ForeignType>,
}

pub struct FnShapeV {
    pub params: Seq<FPatV>,
    pub type_params: Seq<Seq<char>>,
    pub return_type: Option<Box<ForeignTypeV>>,
}

impl View for FnShape {
    type V = FnShapeV;

    open spec fn view(&self) -> FnShapeV {
        FnShapeV {
            params: fpats_view(self.params@),
            type_params: view_strings(self.type_params@),
            return_type: opt_ft_view(self.return_type),
        }
    }
}

// ---------------------------------------------------------------------------
// Well-formed inputs: every raw name that will be sanitized is a name the
// sanitizer accepts, so that lowering never meets an identifier it cannot
// emit.
// ---------------------------------------------------------------------------

pub open spec fn valid_names(ns: Seq<Seq<char>>) -> bool {
    forall|i: int| 0 <= i < ns.len() ==> valid_source_name(#[trigger] ns[i])
}

pub open spec fn starts_with_dot(s: Seq<char>) -> bool {
    s.len() > 0 && s[0] == '.'
}

pub open spec fn opt_ft_wf(t: Option<Box<ForeignTypeV>>) -> bool
    decreases t,
{
    match t {
        Option::Some(t0) => ft_wf(*t0),
        Option::None => true,
    }
}

pub open spec fn fpat_wf(p: FPatV) -> bool
    decreases p,
{
    match p {
        FPatV::Ident { name, optional, ann } => valid_source_name(name) && opt_ft_wf(ann),
        FPatV::Rest { arg, ann } => fpat_wf(*arg) && opt_ft_wf(ann),
        FPatV::ArrayPat { ann } => opt_ft_wf(ann),
        FPatV::ObjectPat { ann } => opt_ft_wf(ann),
        _ => true,
    }
}

pub open spec fn fpats_wf(ps: Seq<FPatV>) -> bool
    decreases ps,
{
    forall|i: int| 0 <= i < ps.len() ==> fpat_wf(#[trigger] ps[i])
}

pub open spec fn fts_wf(ts: Seq<ForeignTypeV>) -> bool
    decreases ts,
{
    forall|i: int| 0 <= i < ts.len() ==> ft_wf(#[trigger] ts[i])
}

pub open spec fn ft_wf(t: ForeignTypeV) -> bool
    decreases t,
{
    match t {
        ForeignTypeV::FnType { params, type_params, ret_ty } => fpats_wf(params) && valid_names(
            type_params,
        ) && opt_ft_wf(ret_ty),
        ForeignTypeV::TypeRef { name, type_args } => name.len() >= 1 && valid_names(name) && fts_wf(
            type_args,
        ),
        ForeignTypeV::ArrayType(t0) => ft_wf(*t0),
        ForeignTypeV::OptionalType(t0) => ft_wf(*t0),
        ForeignTypeV::UnionType(ts) => fts_wf(ts),
        ForeignTypeV::IntersectionType(ts) => fts_wf(ts),
        ForeignTypeV::ParenType(t0) => ft_wf(*t0),
        ForeignTypeV::TupleType(ts) => fts_wf(ts),
        ForeignTypeV::ImportType { src, qualifier } => starts_with_dot(src) ==> (valid_import_path(
            src,
        ) && valid_source_name(qualifier)),
        _ => true,
    }
}

/// A well-formed function shape.
pub open spec fn fnshape_wf(f: FnShapeV) -> bool {
    fpats_wf(f.params) && valid_names(f.type_params) && opt_ft_wf(f.return_type)
}

} // verus!
