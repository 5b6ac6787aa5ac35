use vstd::prelude::*;

use crate::diag::{Diag, DiagV, LowerError, view_diags};
use crate::erase::{ByeByeGenerics, spec_erase, spec_erase_seq, spec_scope_of};
use crate::func::{function_signature, spec_function_signature, spec_erase_params, spec_erase_ret};
use crate::item::{
    BindingItem, BindingItemV, FnAttrs, FnAttrsV, ItemFn, ItemFnV, ItemOpaque, ItemOpaqueV,
    ItemStatic, ItemStaticV, Param, ParamV, TargetItem, TargetItemV, bindings_view,
    opt_string_view, params_view,
};
use crate::pat::{pat_to_pat_type, spec_pat_to_param};
use crate::ty::{
    FPat, FPatV, FnShape, FnShapeV, ForeignType, ForeignTypeV, TypeRep, TypeRepV, fnshape_wf,
    fpat_view, fpat_wf, fpats_view, fpats_wf, ft_view, ft_wf, opt_ft_view, opt_ft_wf, ty_view,
    valid_names, view_strings,
};
use crate::tymap::{spec_map_type, ts_type_to_type};
use crate::util::{
    case_fold, is_rust_keyword, sanitize_sym, spec_sanitize, str_eq, valid_source_name,
};

verus! {

broadcast use {crate::ty::lemma_tys_view, crate::ty::lemma_fpats_view, crate::ty::lemma_fts_view};

// ---------------------------------------------------------------------------
// The foreign declaration grammar.
// ---------------------------------------------------------------------------

/// A declared accessibility modifier.
#[derive(Debug, Clone, Copy, PartialEq, Eq, Structural)]
pub enum Accessibility {
    PublicAcc,
    PrivateAcc,
    ProtectedAcc,
}

/// The kind of a class method.
#[derive(Debug, Clone, Copy, PartialEq, Eq, Structural)]
pub enum MethodKind {
    MethodK,
    GetterK,
    SetterK,
}

/// One member of a class body. A key is absent when it is not a plain
/// identifier.
#[derive(Debug)]
pub enum ClassMember {
    Ctor { accessibility: Option<Accessibility>, key: Option<String>, params: Vec<FPat> },
    Method {
        accessibility: Option<Accessibility>,
        key: Option<String>,
        kind: MethodKind,
        is_static: bool,
        function: FnShape,
    },
    Prop {
        accessibility: Option<Accessibility>,
        key: Option<String>,
        is_static: bool,
        is_optional: bool,
        ann: Option<ForeignType>,
    },
    PrivateMethod,
    PrivateProp,
    IndexSig,
    EmptyMember,
    StaticBlock,
}

/// One member of an interface body or of an object type literal.
#[derive(Debug)]
pub enum TyElem {
    CallSig,
    ConstructSig,
    PropSig {
        key: Option<String>,
        has_params: bool,
        is_optional: bool,
        ann: Option<ForeignType>,
        type_params: Vec<String>,
    },
    GetterSig { key: Option<String>, ann: Option<ForeignType> },
    SetterSig { key: Option<String>, param: FPat },
    MethodSig {
        key: Option<String>,
        params: Vec<FPat>,
        ann: Option<ForeignType>,
        type_params: Vec<String>,
    },
    IndexSigElem,
}

/// A class body: the superclass where it is a simple identifier, the type
/// parameters, and the members.
#[derive(Debug)]
pub struct ClassShape {
    pub super_ident: Option<String>,
    pub type_params: Vec<String>,
    pub body: Vec<ClassMember>,
}

/// An ambient namespace or module declaration.
#[derive(Debug)]
pub struct TsModuleShape {
    pub name: String,
    pub body: Option<ModuleBody>,
}

#[derive(Debug)]
pub enum ModuleBody {
    Block(Vec<ModuleItemF>),
    /// A namespace whose body is an alias to another namespace.
    NamespaceAlias,
}

/// A top-level foreign declaration.
#[derive(Debug)]
pub enum ForeignDecl {
    ClassDecl { name: String, class: ClassShape },
    FnDeclF { name: String, function: FnShape },
    VarDeclF { decls: Vec<FPat> },
    /// A type alias; `members` carries the body exactly when the right-hand
    /// side is an object type literal.
    AliasDecl { name: String, type_params: Vec<String>, members: Option<Vec<TyElem>> },
    InterfaceDecl { name: String, type_params: Vec<String>, body: Vec<TyElem> },
    EnumDeclF { name: String },
    ModuleDecl(TsModuleShape),
}

/// One import specifier.
#[derive(Debug)]
pub enum ImportSpec {
    NamedImport { local: String, imported: Option<String> },
    DefaultImport { local: String },
    NamespaceImport,
}

/// One export specifier.
#[derive(Debug)]
pub enum ExportSpec {
    NamedExport { orig: String, exported: Option<String> },
    DefaultExport { exported: String },
    NamespaceExport,
}

/// One item of a source unit.
#[derive(Debug)]
pub enum ModuleItemF {
    ImportItem { specifiers: Vec<ImportSpec>, src: String },
    ExportNamedItem { specifiers: Vec<ExportSpec>, src: Option<String> },
    ExportDeclItem(ForeignDecl),
    StmtDeclItem(ForeignDecl),
    /// A trailing default export by reference; absent when the exported
    /// expression is not a bare identifier.
    ExportDefaultExprItem { ident: Option<String> },
    TsNamespaceExportItem { name: String },
    OtherStmt,
    OtherModuleDecl,
}

// ---------------------------------------------------------------------------
// Mathematical models.
// ---------------------------------------------------------------------------

pub enum ClassMemberV {
    Ctor { accessibility: Option<Accessibility>, key: Option<Seq<char>>, params: Seq<FPatV> },
    Method {
        accessibility: Option<Accessibility>,
        key: Option<Seq<char>>,
        kind: MethodKind,
        is_static: bool,
        function: FnShapeV,
    },
    Prop {
        accessibility: Option<Accessibility>,
        key: Option<Seq<char>>,
        is_static: bool,
        is_optional: bool,
        ann: Option<Box<ForeignTypeV>>,
    },
    PrivateMethod,
    PrivateProp,
    IndexSig,
    EmptyMember,
    StaticBlock,
}

pub enum TyElemV {
    CallSig,
    ConstructSig,
    PropSig {
        key: Option<Seq<char>>,
        has_params: bool,
        is_optional: bool,
        ann: Option<Box<ForeignTypeV>>,
        type_params: Seq<Seq<char>>,
    },
    GetterSig { key: Option<Seq<char>>, ann: Option<Box<ForeignTypeV>> },
    SetterSig { key: Option<Seq<char>>, param: FPatV },
    MethodSig {
        key: Option<Seq<char>>,
        params: Seq<FPatV>,
        ann: Option<Box<ForeignTypeV>>,
        type_params: Seq<Seq<char>>,
    },
    IndexSigElem,
}

pub struct ClassShapeV {
    pub super_ident: Option<Seq<char>>,
    pub type_params: Seq<Seq<char>>,
    pub body: Seq<ClassMemberV>,
}

pub struct TsModuleShapeV {
    pub name: Seq<char>,
    pub body: Option<ModuleBodyV>,
}

pub enum ModuleBodyV {
    Block(Seq<ModuleItemFV>),
    NamespaceAlias,
}

pub enum ForeignDeclV {
    ClassDecl { name: Seq<char>, class: ClassShapeV },
    FnDeclF { name: Seq<char>, function: FnShapeV },
    VarDeclF { decls: Seq<FPatV> },
    AliasDecl { name: Seq<char>, type_params: Seq<Seq<char>>, members: Option<Seq<TyElemV>> },
    InterfaceDecl { name: Seq<char>, type_params: Seq<Seq<char>>, body: Seq<TyElemV> },
    EnumDeclF { name: Seq<char> },
    ModuleDecl(TsModuleShapeV),
}

pub enum ImportSpecV {
    NamedImport { local: Seq<char>, imported: Option<Seq<char>> },
    DefaultImport { local: Seq<char> },
    NamespaceImport,
}

pub enum ExportSpecV {
    NamedExport { orig: Seq<char>, exported: Option<Seq<char>> },
    DefaultExport { exported: Seq<char> },
    NamespaceExport,
}

pub enum ModuleItemFV {
    ImportItem { specifiers: Seq<ImportSpecV>, src: Seq<char> },
    ExportNamedItem { specifiers: Seq<ExportSpecV>, src: Option<Seq<char>> },
    ExportDeclItem(ForeignDeclV),
    StmtDeclItem(ForeignDeclV),
    ExportDefaultExprItem { ident: Option<Seq<char>> },
    TsNamespaceExportItem { name: Seq<char> },
    OtherStmt,
    OtherModuleDecl,
}

pub open spec fn opt_str_view(s: Option<String>) -> Option<Seq<char>> {
    match s {
        Option::Some(s0) => Option::Some(s0@),
        Option::None => Option::None,
    }
}

pub open spec fn member_view(m: ClassMember) -> ClassMemberV
    decreases m,
{
    match m {
        ClassMember::Ctor { accessibility, key, params } => ClassMemberV::Ctor {
            accessibility,
            key: opt_str_view(key),
            params: fpats_view(params@),
        },
        ClassMember::Method { accessibility, key, kind, is_static, function } => {
            ClassMemberV::Method {
                accessibility,
                key: opt_str_view(key),
                kind,
                is_static,
                function: function@,
            }
        },
        ClassMember::Prop { accessibility, key, is_static, is_optional, ann } => {
            ClassMemberV::Prop {
                accessibility,
                key: opt_str_view(key),
                is_static,
                is_optional,
                ann: opt_ft_view(ann),
            }
        },
        ClassMember::PrivateMethod => ClassMemberV::PrivateMethod,
        ClassMember::PrivateProp => ClassMemberV::PrivateProp,
        ClassMember::IndexSig => ClassMemberV::IndexSig,
        ClassMember::EmptyMember => ClassMemberV::EmptyMember,
        ClassMember::StaticBlock => ClassMemberV::StaticBlock,
    }
}

pub open spec fn members_view(ms: Seq<ClassMember>) -> Seq<ClassMemberV> {
    ms.map(|i: int, m: ClassMember| member_view(m))
}

pub open spec fn elem_view(e: TyElem) -> TyElemV
    decreases e,
{
    match e {
        TyElem::CallSig => TyElemV::CallSig,
        TyElem::ConstructSig => TyElemV::ConstructSig,
        TyElem::PropSig { key, has_params, is_optional, ann, type_params } => TyElemV::PropSig {
            key: opt_str_view(key),
            has_params,
            is_optional,
            ann: opt_ft_view(ann),
            type_params: view_strings(type_params@),
        },
        TyElem::GetterSig { key, ann } => TyElemV::GetterSig {
            key: opt_str_view(key),
            ann: opt_ft_view(ann),
        },
        TyElem::SetterSig { key, param } => TyElemV::SetterSig {
            key: opt_str_view(key),
            param: fpat_view(param),
        },
        TyElem::MethodSig { key, params, ann, type_params } => TyElemV::MethodSig {
            key: opt_str_view(key),
            params: fpats_view(params@),
            ann: opt_ft_view(ann),
            type_params: view_strings(type_params@),
        },
        TyElem::IndexSigElem => TyElemV::IndexSigElem,
    }
}

pub open spec fn elems_view(es: Seq<TyElem>) -> Seq<TyElemV> {
    es.map(|i: int, e: TyElem| elem_view(e))
}

impl View for ClassShape {
    type V = ClassShapeV;

    open spec fn view(&self) -> ClassShapeV {
        ClassShapeV {
            super_ident: opt_str_view(self.super_ident),
            type_params: view_strings(self.type_params@),
            body: members_view(self.body@),
        }
    }
}

pub open spec fn decl_view(d: ForeignDecl) -> ForeignDeclV
    decreases d, 2int,
{
    match d {
        ForeignDecl::ClassDecl { name, class } => ForeignDeclV::ClassDecl {
            name: name@,
            class: class@,
        },
        ForeignDecl::FnDeclF { name, function } => ForeignDeclV::FnDeclF {
            name: name@,
            function: function@,
        },
        ForeignDecl::VarDeclF { decls } => ForeignDeclV::VarDeclF { decls: fpats_view(decls@) },
        ForeignDecl::AliasDecl { name, type_params, members } => ForeignDeclV::AliasDecl {
            name: name@,
            type_params: view_strings(type_params@),
            members: match members {
                Option::Some(ms) => Option::Some(elems_view(ms@)),
                Option::None => Option::None,
            },
        },
        ForeignDecl::InterfaceDecl { name, type_params, body } => ForeignDeclV::InterfaceDecl {
            name: name@,
            type_params: view_strings(type_params@),
            body: elems_view(body@),
        },
        ForeignDecl::EnumDeclF { name } => ForeignDeclV::EnumDeclF { name: name@ },
        ForeignDecl::ModuleDecl(m) => ForeignDeclV::ModuleDecl(module_shape_view(m)),
    }
}

pub open spec fn module_shape_view(m: TsModuleShape) -> TsModuleShapeV
    decreases m, 1int,
{
    TsModuleShapeV {
        name: m.name@,
        body: match m.body {
            Option::Some(ModuleBody::Block(items)) => Option::Some(
                ModuleBodyV::Block(mitems_view(items@)),
            ),
            Option::Some(ModuleBody::NamespaceAlias) => Option::Some(ModuleBodyV::NamespaceAlias),
            Option::None => Option::None,
        },
    }
}

pub open spec fn import_spec_view(s: ImportSpec) -> ImportSpecV {
    match s {
        ImportSpec::NamedImport { local, imported } => ImportSpecV::NamedImport {
            local: local@,
            imported: opt_str_view(imported),
        },
        ImportSpec::DefaultImport { local } => ImportSpecV::DefaultImport { local: local@ },
        ImportSpec::NamespaceImport => ImportSpecV::NamespaceImport,
    }
}

pub open spec fn export_spec_view(s: ExportSpec) -> ExportSpecV {
    match s {
        ExportSpec::NamedExport { orig, exported } => ExportSpecV::NamedExport {
            orig: orig@,
            exported: opt_str_view(exported),
        },
        ExportSpec::DefaultExport { exported } => ExportSpecV::DefaultExport {
            exported: exported@,
        },
        ExportSpec::NamespaceExport => ExportSpecV::NamespaceExport,
    }
}

pub open spec fn mitem_view(m: ModuleItemF) -> ModuleItemFV
    decreases m, 3int,
{
    match m {
        ModuleItemF::ImportItem { specifiers, src } => ModuleItemFV::ImportItem {
            specifiers: specifiers@.map(|i: int, s: ImportSpec| import_spec_view(s)),
            src: src@,
        },
        ModuleItemF::ExportNamedItem { specifiers, src } => ModuleItemFV::ExportNamedItem {
            specifiers: specifiers@.map(|i: int, s: ExportSpec| export_spec_view(s)),
            src: opt_str_view(src),
        },
        ModuleItemF::ExportDeclItem(d) => ModuleItemFV::ExportDeclItem(decl_view(d)),
        ModuleItemF::StmtDeclItem(d) => ModuleItemFV::StmtDeclItem(decl_view(d)),
        ModuleItemF::ExportDefaultExprItem { ident } => ModuleItemFV::ExportDefaultExprItem {
            ident: opt_str_view(ident),
        },
        ModuleItemF::TsNamespaceExportItem { name } => ModuleItemFV::TsNamespaceExportItem {
            name: name@,
        },
        ModuleItemF::OtherStmt => ModuleItemFV::OtherStmt,
        ModuleItemF::OtherModuleDecl => ModuleItemFV::OtherModuleDecl,
    }
}

pub open spec fn mitems_view(ms: Seq<ModuleItemF>) -> Seq<ModuleItemFV>
    decreases ms, 4int,
{
    if ms.len() == 0 {
        Seq::empty()
    } else {
        seq![mitem_view(ms[0])] + mitems_view(ms.subrange(1, ms.len() as int))
    }
}

impl View for ForeignDecl {
    type V = ForeignDeclV;

    open spec fn view(&self) -> ForeignDeclV {
        decl_view(*self)
    }
}

impl View for ModuleItemF {
    type V = ModuleItemFV;

    open spec fn view(&self) -> ModuleItemFV {
        mitem_view(*self)
    }
}

pub broadcast proof fn lemma_mitems_view(ms: Seq<ModuleItemF>)
    ensures
        (#[trigger] mitems_view(ms)).len() == ms.len(),
        forall|i: int| 0 <= i < ms.len() ==> mitems_view(ms)[i] == mitem_view(ms[i]),
    decreases ms.len(),
{
    if ms.len() > 0 {
        lemma_mitems_view(ms.subrange(1, ms.len() as int));
    }
}

// ---------------------------------------------------------------------------
// Well-formed declarations.
// ---------------------------------------------------------------------------

/// A key whose accessor names (`get_`/`set_` prefixed) the sanitizer can
/// emit: its case-folded form must not be a target keyword.
pub open spec fn accessor_key_ok(raw: Seq<char>) -> bool {
    &&& valid_source_name(raw)
    &&& (raw == "self"@ || raw == "super"@ || raw == "crate"@ || !is_rust_keyword(case_fold(raw)))
}

pub open spec fn opt_key_wf(key: Option<Seq<char>>) -> bool {
    match key {
        Option::Some(k) => valid_source_name(k),
        Option::None => true,
    }
}

pub open spec fn opt_accessor_key_wf(key: Option<Seq<char>>) -> bool {
    match key {
        Option::Some(k) => accessor_key_ok(k),
        Option::None => true,
    }
}

pub open spec fn member_wf(m: ClassMemberV) -> bool {
    match m {
        ClassMemberV::Ctor { accessibility, key, params } => opt_key_wf(key) && fpats_wf(params),
        ClassMemberV::Method { accessibility, key, kind, is_static, function } => (if kind
            == MethodKind::MethodK {
            opt_key_wf(key)
        } else {
            opt_accessor_key_wf(key)
        }) && fnshape_wf(function),
        ClassMemberV::Prop { accessibility, key, is_static, is_optional, ann } => opt_key_wf(key)
            && opt_ft_wf(ann),
        _ => true,
    }
}

pub open spec fn elem_wf(e: TyElemV) -> bool {
    match e {
        TyElemV::PropSig { key, has_params, is_optional, ann, type_params } => opt_key_wf(key)
            && opt_ft_wf(ann) && valid_names(type_params),
        TyElemV::GetterSig { key, ann } => opt_accessor_key_wf(key) && opt_ft_wf(ann),
        TyElemV::SetterSig { key, param } => opt_accessor_key_wf(key) && fpat_wf(param),
        TyElemV::MethodSig { key, params, ann, type_params } => opt_key_wf(key) && fpats_wf(params)
            && opt_ft_wf(ann) && valid_names(type_params),
        _ => true,
    }
}

pub open spec fn members_wf(ms: Seq<ClassMemberV>) -> bool {
    forall|i: int| 0 <= i < ms.len() ==> member_wf(#[trigger] ms[i])
}

pub open spec fn elems_wf(es: Seq<TyElemV>) -> bool {
    forall|i: int| 0 <= i < es.len() ==> elem_wf(#[trigger] es[i])
}

pub open spec fn class_wf(c: ClassShapeV) -> bool {
    &&& (c.super_ident matches Option::Some(s) ==> valid_source_name(s))
    &&& valid_names(c.type_params)
    &&& members_wf(c.body)
}

pub open spec fn decl_wf(d: ForeignDeclV) -> bool
    decreases d, 2int,
{
    match d {
        ForeignDeclV::ClassDecl { name, class } => valid_source_name(name) && class_wf(class),
        ForeignDeclV::FnDeclF { name, function } => valid_source_name(name) && fnshape_wf(
            function,
        ),
        ForeignDeclV::VarDeclF { decls } => fpats_wf(decls),
        ForeignDeclV::AliasDecl { name, type_params, members } => valid_source_name(name)
            && valid_names(type_params) && (members matches Option::Some(ms) ==> elems_wf(ms)),
        ForeignDeclV::InterfaceDecl { name, type_params, body } => valid_source_name(name)
            && valid_names(type_params) && elems_wf(body),
        ForeignDeclV::EnumDeclF { name } => true,
        ForeignDeclV::ModuleDecl(m) => module_shape_wf(m),
    }
}

pub open spec fn module_shape_wf(m: TsModuleShapeV) -> bool
    decreases m, 1int,
{
    &&& valid_source_name(m.name)
    &&& (m.body matches Option::Some(ModuleBodyV::Block(items)) ==> unit_wf(items))
}

pub open spec fn import_spec_wf(s: ImportSpecV) -> bool {
    match s {
        ImportSpecV::NamedImport { local, imported } => valid_source_name(local) && (
        imported matches Option::Some(n) ==> valid_source_name(n)),
        ImportSpecV::DefaultImport { local } => valid_source_name(local),
        ImportSpecV::NamespaceImport => true,
    }
}

pub open spec fn export_spec_wf(s: ExportSpecV) -> bool {
    match s {
        ExportSpecV::NamedExport { orig, exported } => valid_source_name(orig) && (
        exported matches Option::Some(n) ==> valid_source_name(n)),
        ExportSpecV::DefaultExport { exported } => valid_source_name(exported),
        ExportSpecV::NamespaceExport => true,
    }
}

pub open spec fn mitem_wf(m: ModuleItemFV) -> bool
    decreases m, 3int,
{
    match m {
        ModuleItemFV::ImportItem { specifiers, src } => crate::util::valid_import_path(src) && (
        forall|i: int| 0 <= i < specifiers.len() ==> import_spec_wf(#[trigger] specifiers[i])),
        ModuleItemFV::ExportNamedItem { specifiers, src } => (src matches Option::Some(p)
            ==> crate::util::valid_import_path(p)) && (forall|i: int|
            0 <= i < specifiers.len() ==> export_spec_wf(#[trigger] specifiers[i])),
        ModuleItemFV::ExportDeclItem(d) => decl_wf(d),
        ModuleItemFV::StmtDeclItem(d) => decl_wf(d),
        ModuleItemFV::ExportDefaultExprItem { ident } => ident matches Option::Some(n)
            ==> valid_source_name(n),
        ModuleItemFV::TsNamespaceExportItem { name } => true,
        _ => true,
    }
}

/// A well-formed source unit: every raw name in it is one the sanitizer
/// accepts, and every relative path is one the import translator accepts.
pub open spec fn unit_wf(items: Seq<ModuleItemFV>) -> bool
    decreases items, 4int,
{
    forall|i: int| 0 <= i < items.len() ==> mitem_wf(#[trigger] items[i])
}

// ---------------------------------------------------------------------------
// Accessor names.
// ---------------------------------------------------------------------------

/// The sanitized form of an acceptable accessor key is made of identifier
/// characters.
proof fn lemma_sanitize_chars(raw: Seq<char>)
    requires
        accessor_key_ok(raw),
    ensures
        spec_sanitize(raw).len() > 0,
        forall|i: int| 0 <= i < spec_sanitize(raw).len() ==> crate::util::is_ident_c(
            #[trigger] spec_sanitize(raw)[i],
        ),
{
    reveal_strlit("_rs");
    if raw == "self"@ || raw == "super"@ || raw == "crate"@ {
        let s = raw + "_rs"@;
        assert forall|i: int| 0 <= i < s.len() implies crate::util::is_ident_c(
            #[trigger] s[i],
        ) by {
            if i < raw.len() {
                assert(s[i] == raw[i]);
            } else {
                assert(s[i] == "_rs"@[i - raw.len()]);
            }
        }
    } else {
        reveal_strlit("self");
        reveal_strlit("super");
        reveal_strlit("crate");
        let t = case_fold(raw);
        assert(!is_rust_keyword(t));
        assert(spec_sanitize(raw) == t);
        assert forall|i: int| 0 <= i < t.len() implies crate::util::is_ident_c(
            #[trigger] t[i],
        ) by {
            assert(t[i] == crate::util::fold_at(raw, i));
            assert(crate::util::is_ident_c(raw[i]));
            if crate::util::is_upper_c(raw[i]) {
                assert(crate::util::is_lower_c(crate::util::to_lower_c(raw[i])));
            }
        }
    }
}

/// An accessor name built over an acceptable key is itself a name the
/// sanitizer accepts.
proof fn lemma_accessor_name_valid(prefix: Seq<char>, raw: Seq<char>)
    requires
        prefix == "get_"@ || prefix == "set_"@,
        accessor_key_ok(raw),
    ensures
        valid_source_name(prefix + spec_sanitize(raw)),
{
    reveal_strlit("get_");
    reveal_strlit("set_");
    reveal_strlit("Self");
    reveal_strlit("_");
    lemma_sanitize_chars(raw);
    let s = prefix + spec_sanitize(raw);
    assert(s[0] == prefix[0]);
    assert(!crate::util::is_digit_c(s[0]));
    assert forall|i: int| 0 <= i < s.len() implies crate::util::is_ident_c(#[trigger] s[i]) by {
        if i < prefix.len() {
            assert(s[i] == prefix[i]);
        } else {
            assert(s[i] == spec_sanitize(raw)[i - prefix.len()]);
        }
    }
    assert(s.len() >= 5);
    if s == "Self"@ {
        assert(s.len() == 4);
        assert(false);
    }
    if s == "_"@ {
        assert(s.len() == 1);
        assert(false);
    }
}

/// The emitted name of a class member: plain methods keep their sanitized
/// key, accessors gain a `get_`/`set_` prefix.
pub open spec fn spec_method_name(raw: Seq<char>, kind: MethodKind) -> Seq<char> {
    match kind {
        MethodKind::MethodK => spec_sanitize(raw),
        MethodKind::GetterK => spec_sanitize("get_"@ + spec_sanitize(raw)),
        MethodKind::SetterK => spec_sanitize("set_"@ + spec_sanitize(raw)),
    }
}

// ---------------------------------------------------------------------------
// Lowering one declaration part.
// ---------------------------------------------------------------------------

/// The opaque handle a foreign class, interface or alias lowers to.
pub open spec fn spec_ty_to_binding(raw: Seq<char>) -> ItemOpaqueV {
    ItemOpaqueV {
        name: spec_sanitize(raw),
        js_name: Option::Some(raw),
        extends: Option::None,
        ns: Seq::empty(),
    }
}

/// Lowers a foreign type name to its opaque handle.
pub fn ty_to_binding(raw: &String) -> (r: ItemOpaque)
    requires
        valid_source_name(raw@),
    ensures
        r@ == spec_ty_to_binding(raw@),
{
    let r = ItemOpaque {
        name: sanitize_sym(raw.as_str()),
        js_name: Option::Some(raw.clone()),
        extends: Option::None,
        ns: Vec::new(),
    };
    proof {
        assert(view_strings(r.ns@) =~~= Seq::<Seq<char>>::empty());
    }
    r
}

/// What a class or interface member lowers to: the signature under the
/// member's emitted name, the enclosing scope erased from it, an instance
/// receiver synthesized unless the member is static, and the calling
/// convention recorded.
pub open spec fn spec_method_to_binding(
    class: Seq<char>,
    scope: Seq<Seq<char>>,
    raw: Seq<char>,
    kind: MethodKind,
    is_static: bool,
    f: FnShapeV,
) -> (Result<ItemFnV, LowerError>, Seq<DiagV>) {
    let name = spec_method_name(raw, kind);
    let (sr, sd) = spec_function_signature(name, f);
    match sr {
        Err(e) => (Err(e), sd),
        Ok(sig) => {
            let erased = ItemFnV {
                params: spec_erase_params(scope, sig.params),
                ret: spec_erase_ret(scope, sig.ret),
                ..sig
            };
            let with_this = if !is_static {
                ItemFnV {
                    params: seq![
                        ParamV {
                            name: "this"@,
                            ty: TypeRepV::Ref(Box::new(TypeRepV::Path(seq![class]))),
                        },
                    ] + erased.params,
                    ..erased
                }
            } else {
                erased
            };
            let attrs = if is_static {
                FnAttrsV {
                    ctor: false,
                    method: false,
                    getter: false,
                    setter: false,
                    static_of: Option::Some(class),
                }
            } else {
                FnAttrsV {
                    ctor: false,
                    method: true,
                    getter: kind == MethodKind::GetterK,
                    setter: kind == MethodKind::SetterK,
                    static_of: Option::None,
                }
            };
            (Ok(ItemFnV { attrs, js_name: Option::Some(raw), ..with_this }), sd)
        },
    }
}

/// Lowers one method, getter or setter of a class or interface.
pub fn method_to_binding(
    class_name: &String,
    cleaner: &ByeByeGenerics,
    raw: &String,
    kind: MethodKind,
    is_static: bool,
    function: &FnShape,
    diags: &mut Vec<Diag>,
) -> (r: Result<ItemFn, LowerError>)
    requires
        kind == MethodKind::MethodK ==> valid_source_name(raw@),
        kind != MethodKind::MethodK ==> accessor_key_ok(raw@),
        fnshape_wf(function@),
    ensures
        ({
            let (sr, sd) = spec_method_to_binding(
                class_name@,
                cleaner.scope(),
                raw@,
                kind,
                is_static,
                function@,
            );
            &&& view_diags(final(diags)@) == view_diags(old(diags)@) + sd
            &&& match r {
                Ok(g) => sr == Ok::<_, LowerError>(g@),
                Err(e) => sr == Err::<ItemFnV, _>(e),
            }
        }),
{
    let name: String = match kind {
        MethodKind::MethodK => sanitize_sym(raw.as_str()),
        MethodKind::GetterK => {
            let inner = sanitize_sym(raw.as_str());
            let g = crate::util::lit_string("get_").concat(inner.as_str());
            proof {
                lemma_accessor_name_valid("get_"@, raw@);
            }
            sanitize_sym(g.as_str())
        },
        MethodKind::SetterK => {
            let inner = sanitize_sym(raw.as_str());
            let g = crate::util::lit_string("set_").concat(inner.as_str());
            proof {
                lemma_accessor_name_valid("set_"@, raw@);
            }
            sanitize_sym(g.as_str())
        },
    };
    proof {
        assert(name@ == spec_method_name(raw@, kind));
    }
    let m = function_signature(name, function, diags);
    let sig = match m {
        Ok(sig) => sig,
        Err(e) => {
            return Err(e);
        },
    };
    let ghost sigv = sig@;
    let mut params: Vec<Param> = Vec::new();
    let mut i: usize = 0;
    while i < sig.params.len()
        invariant
            sigv.params == params_view(sig.params@),
            i <= sig.params@.len(),
            params@.len() == i,
            forall|j: int| 0 <= j < i ==> params_view(params@)[j] == spec_erase_params(
                cleaner.scope(),
                sigv.params,
            )[j],
        decreases sig.params@.len() - i,
    {
        let p = &sig.params[i];
        let np = Param { name: p.name.clone(), ty: cleaner.erase_type(&p.ty) };
        let ghost prev = params@;
        params.push(np);
        i = i + 1;
        proof {
            assert(params_view(sig.params@)[i - 1] == sig.params@[i - 1]@);
            assert forall|j: int| 0 <= j < i implies params_view(params@)[j] == spec_erase_params(
                cleaner.scope(),
                sigv.params,
            )[j] by {
                assert(params_view(params@)[j] == params@[j]@);
                if j < i - 1 {
                    assert(params@[j] == prev[j]);
                    assert(params_view(prev)[j] == prev[j]@);
                } else {
                    assert(params@[j] == np);
                }
            }
        }
    }
    proof {
        assert(params_view(params@) =~~= spec_erase_params(cleaner.scope(), sigv.params));
    }
    let ret = match &sig.ret {
        Option::Some(t) => Option::Some(cleaner.erase_type(t)),
        Option::None => Option::None,
    };
    let ghost eparams = params_view(params@);
    let mut all_params: Vec<Param> = Vec::new();
    if !is_static {
        let segs: Vec<String> = vec![class_name.clone()];
        proof {
            assert(view_strings(segs@) =~~= seq![class_name@]);
        }
        let inner_t = TypeRep::Path(segs);
        let ghost innerv = ty_view(inner_t);
        proof {
            assert(innerv == TypeRepV::Path(seq![class_name@]));
        }
        let this_ty = TypeRep::Ref(Box::new(inner_t));
        proof {
            assert(ty_view(this_ty) == TypeRepV::Ref(Box::new(innerv)));
        }
        let thisp = Param { name: crate::util::lit_string("this"), ty: this_ty };
        let ghost thisv = thisp@;
        proof {
            assert(thisv == ParamV {
                name: "this"@,
                ty: TypeRepV::Ref(Box::new(TypeRepV::Path(seq![class_name@]))),
            });
        }
        all_params.push(thisp);
        let mut rest = params;
        all_params.append(&mut rest);
        proof {
            assert(params_view(all_params@) =~~= seq![thisv] + eparams);
        }
    } else {
        all_params = params;
    }
    let attrs = if is_static {
        FnAttrs {
            ctor: false,
            method: false,
            getter: false,
            setter: false,
            static_of: Option::Some(class_name.clone()),
        }
    } else {
        FnAttrs {
            ctor: false,
            method: true,
            getter: match kind {
                MethodKind::GetterK => true,
                _ => false,
            },
            setter: match kind {
                MethodKind::SetterK => true,
                _ => false,
            },
            static_of: Option::None,
        }
    };
    let out = ItemFn {
        name: sig.name,
        js_name: Option::Some(raw.clone()),
        attrs,
        params: all_params,
        ret,
        ns: sig.ns,
    };
    proof {
        let (sr, sd) = spec_method_to_binding(
            class_name@,
            cleaner.scope(),
            raw@,
            kind,
            is_static,
            function@,
        );
        assert(sr == Ok::<ItemFnV, LowerError>(out@));
    }
    Ok(out)
}

/// What a data property lowers to: a getter-shaped accessor taking the
/// owning handle, optional-wrapped if the property is optional, the
/// enclosing scope erased from the whole signature.
pub open spec fn spec_prop_to_binding(
    class: Seq<char>,
    scope: Seq<Seq<char>>,
    raw: Seq<char>,
    is_static: bool,
    is_optional: bool,
    ann: Option<Box<ForeignTypeV>>,
) -> (Result<ItemFnV, LowerError>, Seq<DiagV>) {
    let (tr, td) = match ann {
        Option::Some(t) => spec_map_type(*t),
        Option::None => (Ok(TypeRepV::JsValue), Seq::empty()),
    };
    match tr {
        Err(e) => (Err(e), td),
        Ok(t0) => {
            let t1 = if is_optional {
                TypeRepV::Opt(Box::new(t0))
            } else {
                t0
            };
            let this_ty = TypeRepV::Ref(Box::new(TypeRepV::Path(seq![class])));
            let attrs = if is_static {
                FnAttrsV {
                    ctor: false,
                    method: false,
                    getter: false,
                    setter: false,
                    static_of: Option::Some(class),
                }
            } else {
                FnAttrsV {
                    ctor: false,
                    method: true,
                    getter: false,
                    setter: false,
                    static_of: Option::None,
                }
            };
            (
                Ok(
                    ItemFnV {
                        name: spec_sanitize(raw),
                        js_name: Option::Some(raw),
                        attrs,
                        params: seq![
                            ParamV { name: "this"@, ty: spec_erase(scope, this_ty) },
                        ],
                        ret: Option::Some(spec_erase(scope, t1)),
                        ns: Seq::empty(),
                    },
                ),
                td,
            )
        },
    }
}

/// Lowers one data property of a class, interface or object type literal.
pub fn prop_to_binding(
    class_name: &String,
    cleaner: &ByeByeGenerics,
    raw: &String,
    is_static: bool,
    is_optional: bool,
    ann: &Option<ForeignType>,
    diags: &mut Vec<Diag>,
) -> (r: Result<ItemFn, LowerError>)
    requires
        valid_source_name(raw@),
        opt_ft_wf(opt_ft_view(*ann)),
    ensures
        ({
            let (sr, sd) = spec_prop_to_binding(
                class_name@,
                cleaner.scope(),
                raw@,
                is_static,
                is_optional,
                opt_ft_view(*ann),
            );
            &&& view_diags(final(diags)@) == view_diags(old(diags)@) + sd
            &&& match r {
                Ok(g) => sr == Ok::<_, LowerError>(g@),
                Err(e) => sr == Err::<ItemFnV, _>(e),
            }
        }),
{
    let ghost base = view_diags(diags@);
    proof {
        assert(base + Seq::<DiagV>::empty() =~~= base);
    }
    let t0 = match ann {
        Option::Some(t) => {
            proof {
                assert(opt_ft_view(*ann) == Option::Some(Box::new(ft_view(*t))));
                assert(ft_wf(ft_view(*t)));
            }
            let m = ts_type_to_type(t, diags);
            match m {
                Ok(t0) => t0,
                Err(e) => {
                    return Err(e);
                },
            }
        },
        Option::None => TypeRep::JsValue,
    };
    let ghost t0v = ty_view(t0);
    let t1 = if is_optional {
        TypeRep::Opt(Box::new(t0))
    } else {
        t0
    };
    proof {
        assert(ty_view(t1) == (if is_optional {
            TypeRepV::Opt(Box::new(t0v))
        } else {
            t0v
        }));
    }
    let segs: Vec<String> = vec![class_name.clone()];
    proof {
        assert(view_strings(segs@) =~~= seq![class_name@]);
    }
    let inner_t = TypeRep::Path(segs);
    let ghost innerv = ty_view(inner_t);
    proof {
        assert(innerv == TypeRepV::Path(seq![class_name@]));
    }
    let this_ty = TypeRep::Ref(Box::new(inner_t));
    proof {
        assert(ty_view(this_ty) == TypeRepV::Ref(Box::new(innerv)));
    }
    let ethis = cleaner.erase_type(&this_ty);
    let eret = cleaner.erase_type(&t1);
    let thisp = Param { name: crate::util::lit_string("this"), ty: ethis };
    let ghost thisv = thisp@;
    let params: Vec<Param> = vec![thisp];
    let attrs = if is_static {
        FnAttrs {
            ctor: false,
            method: false,
            getter: false,
            setter: false,
            static_of: Option::Some(class_name.clone()),
        }
    } else {
        FnAttrs {
            ctor: false,
            method: true,
            getter: false,
            setter: false,
            static_of: Option::None,
        }
    };
    let out = ItemFn {
        name: sanitize_sym(raw.as_str()),
        js_name: Option::Some(raw.clone()),
        attrs,
        params,
        ret: Option::Some(eret),
        ns: Vec::new(),
    };
    proof {
        assert(params_view(out.params@) =~~= seq![thisv]);
        assert(view_strings(out.ns@) =~~= Seq::<Seq<char>>::empty());
        let (sr, sd) = spec_prop_to_binding(
            class_name@,
            cleaner.scope(),
            raw@,
            is_static,
            is_optional,
            opt_ft_view(*ann),
        );
        assert(sr == Ok::<ItemFnV, LowerError>(out@));
    }
    Ok(out)
}

// ---------------------------------------------------------------------------
// Lowering class bodies.
// ---------------------------------------------------------------------------

/// Private and protected members, explicit or by key kind, are skipped
/// entirely.
pub open spec fn member_skipped(m: ClassMemberV) -> bool {
    match m {
        ClassMemberV::Ctor { accessibility, .. } => accessibility matches Option::Some(a) && (a
            == Accessibility::PrivateAcc || a == Accessibility::ProtectedAcc),
        ClassMemberV::Method { accessibility, .. } => accessibility matches Option::Some(a) && (a
            == Accessibility::PrivateAcc || a == Accessibility::ProtectedAcc),
        ClassMemberV::Prop { accessibility, .. } => accessibility matches Option::Some(a) && (a
            == Accessibility::PrivateAcc || a == Accessibility::ProtectedAcc),
        ClassMemberV::PrivateMethod => true,
        ClassMemberV::PrivateProp => true,
        _ => false,
    }
}

/// The conventional factory binding a constructor lowers to.
pub open spec fn spec_ctor_item(cname: Seq<char>, scope: Seq<Seq<char>>, ps: Seq<ParamV>) -> ItemFnV {
    ItemFnV {
        name: "new"@,
        js_name: Option::None,
        attrs: FnAttrsV {
            ctor: true,
            method: false,
            getter: false,
            setter: false,
            static_of: Option::None,
        },
        params: spec_erase_params(scope, ps),
        ret: Option::Some(spec_erase(scope, TypeRepV::Path(seq![cname]))),
        ns: Seq::empty(),
    }
}

/// Lowers the class members from position `i` on; `seen` says whether a
/// constructor has already been lowered.
pub open spec fn spec_members_from(
    cname: Seq<char>,
    scope: Seq<Seq<char>>,
    ms: Seq<ClassMemberV>,
    i: int,
    seen: bool,
) -> (Result<Seq<BindingItemV>, LowerError>, Seq<DiagV>)
    decreases ms.len() - i,
{
    if i < 0 || i >= ms.len() {
        (Ok(Seq::empty()), Seq::empty())
    } else if member_skipped(ms[i]) {
        spec_members_from(cname, scope, ms, i + 1, seen)
    } else {
        match ms[i] {
            ClassMemberV::IndexSig | ClassMemberV::EmptyMember | ClassMemberV::StaticBlock => (
                Err(LowerError::UnsupportedClassMember),
                Seq::empty(),
            ),
            ClassMemberV::Ctor { accessibility, key, params } => {
                if seen {
                    (Err(LowerError::MultipleConstructors), Seq::empty())
                } else if key != Option::Some("constructor"@) {
                    (Err(LowerError::NamedConstructor), Seq::empty())
                } else {
                    let (pr, pd) = crate::func::spec_params_fold(params, 0, Seq::empty());
                    match pr {
                        Err(e) => (Err(e), pd),
                        Ok(ps) => {
                            let item = spec_ctor_item(cname, scope, ps);
                            let (rr, rd) = spec_members_from(cname, scope, ms, i + 1, true);
                            match rr {
                                Err(e) => (Err(e), pd + rd),
                                Ok(rest) => (
                                    Ok(seq![BindingItemV::Func(item)] + rest),
                                    pd + rd,
                                ),
                            }
                        },
                    }
                }
            },
            ClassMemberV::Method { accessibility, key, kind, is_static, function } => {
                match key {
                    Option::None => spec_members_from(cname, scope, ms, i + 1, seen),
                    Option::Some(k) => {
                        let (mr, md) = spec_method_to_binding(
                            cname,
                            scope,
                            k,
                            kind,
                            is_static,
                            function,
                        );
                        match mr {
                            Err(e) => (Err(e), md),
                            Ok(it) => {
                                let (rr, rd) = spec_members_from(cname, scope, ms, i + 1, seen);
                                match rr {
                                    Err(e) => (Err(e), md + rd),
                                    Ok(rest) => (
                                        Ok(seq![BindingItemV::Func(it)] + rest),
                                        md + rd,
                                    ),
                                }
                            },
                        }
                    },
                }
            },
            ClassMemberV::Prop { accessibility, key, is_static, is_optional, ann } => {
                match key {
                    Option::None => spec_members_from(cname, scope, ms, i + 1, seen),
                    Option::Some(k) => {
                        let (mr, md) = spec_prop_to_binding(
                            cname,
                            scope,
                            k,
                            is_static,
                            is_optional,
                            ann,
                        );
                        match mr {
                            Err(e) => (Err(e), md),
                            Ok(it) => {
                                let (rr, rd) = spec_members_from(cname, scope, ms, i + 1, seen);
                                match rr {
                                    Err(e) => (Err(e), md + rd),
                                    Ok(rest) => (
                                        Ok(seq![BindingItemV::Func(it)] + rest),
                                        md + rd,
                                    ),
                                }
                            },
                        }
                    },
                }
            },
            _ => (Ok(Seq::empty()), Seq::empty()),
        }
    }
}

/// One member's contribution: the produced binding if any, and whether a
/// constructor has now been seen.
pub open spec fn spec_member_step(
    cname: Seq<char>,
    scope: Seq<Seq<char>>,
    m: ClassMemberV,
    seen: bool,
) -> (Result<(Option<ItemFnV>, bool), LowerError>, Seq<DiagV>) {
    if member_skipped(m) {
        (Ok((Option::None, seen)), Seq::empty())
    } else {
        match m {
            ClassMemberV::IndexSig | ClassMemberV::EmptyMember | ClassMemberV::StaticBlock => (
                Err(LowerError::UnsupportedClassMember),
                Seq::empty(),
            ),
            ClassMemberV::Ctor { accessibility, key, params } => {
                if seen {
                    (Err(LowerError::MultipleConstructors), Seq::empty())
                } else if key != Option::Some("constructor"@) {
                    (Err(LowerError::NamedConstructor), Seq::empty())
                } else {
                    let (pr, pd) = crate::func::spec_params_fold(params, 0, Seq::empty());
                    match pr {
                        Err(e) => (Err(e), pd),
                        Ok(ps) => (
                            Ok((Option::Some(spec_ctor_item(cname, scope, ps)), true)),
                            pd,
                        ),
                    }
                }
            },
            ClassMemberV::Method { accessibility, key, kind, is_static, function } => {
                match key {
                    Option::None => (Ok((Option::None, seen)), Seq::empty()),
                    Option::Some(k) => {
                        let (mr, md) = spec_method_to_binding(
                            cname,
                            scope,
                            k,
                            kind,
                            is_static,
                            function,
                        );
                        match mr {
                            Err(e) => (Err(e), md),
                            Ok(it) => (Ok((Option::Some(it), seen)), md),
                        }
                    },
                }
            },
            ClassMemberV::Prop { accessibility, key, is_static, is_optional, ann } => {
                match key {
                    Option::None => (Ok((Option::None, seen)), Seq::empty()),
                    Option::Some(k) => {
                        let (mr, md) = spec_prop_to_binding(
                            cname,
                            scope,
                            k,
                            is_static,
                            is_optional,
                            ann,
                        );
                        match mr {
                            Err(e) => (Err(e), md),
                            Ok(it) => (Ok((Option::Some(it), seen)), md),
                        }
                    },
                }
            },
            _ => (Ok((Option::None, seen)), Seq::empty()),
        }
    }
}

/// How the fold over members advances by one step.
pub proof fn lemma_members_from_step(
    cname: Seq<char>,
    scope: Seq<Seq<char>>,
    ms: Seq<ClassMemberV>,
    i: int,
    seen: bool,
)
    requires
        0 <= i < ms.len(),
    ensures
        ({
            let (st, sd) = spec_member_step(cname, scope, ms[i], seen);
            match st {
                Err(e) => spec_members_from(cname, scope, ms, i, seen) == (
                    Err::<Seq<BindingItemV>, LowerError>(e),
                    sd,
                ),
                Ok((opt, seen2)) => {
                    let (rr, rd) = spec_members_from(cname, scope, ms, i + 1, seen2);
                    let optseq = match opt {
                        Option::Some(it) => seq![BindingItemV::Func(it)],
                        Option::None => Seq::<BindingItemV>::empty(),
                    };
                    match rr {
                        Err(e) => spec_members_from(cname, scope, ms, i, seen) == (
                            Err::<Seq<BindingItemV>, LowerError>(e),
                            sd + rd,
                        ),
                        Ok(rest) => spec_members_from(cname, scope, ms, i, seen) == (
                            Ok::<Seq<BindingItemV>, LowerError>(optseq + rest),
                            sd + rd,
                        ),
                    }
                },
            }
        }),
{
    let (st, sd) = spec_member_step(cname, scope, ms[i], seen);
    if member_skipped(ms[i]) {
        let (rr, rd) = spec_members_from(cname, scope, ms, i + 1, seen);
        match rr {
            Ok(rest) => {
                assert(Seq::<BindingItemV>::empty() + rest =~= rest);
                assert(Seq::<DiagV>::empty() + rd =~= rd);
            },
            Err(e) => {
                assert(Seq::<DiagV>::empty() + rd =~= rd);
            },
        }
    } else {
        match ms[i] {
            ClassMemberV::Ctor { accessibility, key, params } => {
                if !seen && key == Option::Some("constructor"@) {
                    let (pr, pd) = crate::func::spec_params_fold(params, 0, Seq::empty());
                    match pr {
                        Ok(ps) => {},
                        Err(e) => {},
                    }
                }
            },
            _ => {},
        }
    }
}

/// What a class lowers to: its opaque handle (with the extends-relation
/// where the superclass is a simple identifier) and one binding per
/// supported public member.
pub open spec fn spec_class_to_binding(raw: Seq<char>, c: ClassShapeV) -> (Result<
    Seq<BindingItemV>,
    LowerError,
>, Seq<DiagV>) {
    let scope = spec_scope_of(c.type_params);
    let cname = spec_sanitize(raw);
    let opaque = ItemOpaqueV {
        name: cname,
        js_name: Option::Some(raw),
        extends: match c.super_ident {
            Option::Some(s) => Option::Some(spec_sanitize(s)),
            Option::None => Option::None,
        },
        ns: Seq::empty(),
    };
    let (r, ds) = spec_members_from(cname, scope, c.body, 0, false);
    match r {
        Err(e) => (Err(e), ds),
        Ok(items) => (Ok(seq![BindingItemV::Opaque(opaque)] + items), ds),
    }
}

/// Lowers one class member: nothing for skipped or keyless members, a
/// binding for a supported one, an error for an unsupported one.
fn lower_member(
    cname: &String,
    cleaner: &ByeByeGenerics,
    m: &ClassMember,
    seen: bool,
    diags: &mut Vec<Diag>,
) -> (r: Result<(Option<ItemFn>, bool), LowerError>)
    requires
        member_wf(member_view(*m)),
    ensures
        ({
            let (st, sd) = spec_member_step(cname@, cleaner.scope(), member_view(*m), seen);
            &&& view_diags(final(diags)@) == view_diags(old(diags)@) + sd
            &&& match r {
                Ok((opt, seen2)) => st == Ok::<(Option<ItemFnV>, bool), LowerError>(
                    (
                        match opt {
                            Option::Some(it) => Option::Some(it@),
                            Option::None => Option::None,
                        },
                        seen2,
                    ),
                ),
                Err(e) => st == Err::<(Option<ItemFnV>, bool), _>(e),
            }
        }),
{
    let ghost mv = member_view(*m);
    let ghost base = view_diags(diags@);
    let ghost scope = cleaner.scope();
    proof {
        assert(base + Seq::<DiagV>::empty() =~= base);
    }
    let skipped = match m {
        ClassMember::Ctor { accessibility, .. } => match accessibility {
            Option::Some(Accessibility::PrivateAcc) => true,
            Option::Some(Accessibility::ProtectedAcc) => true,
            _ => false,
        },
        ClassMember::Method { accessibility, .. } => match accessibility {
            Option::Some(Accessibility::PrivateAcc) => true,
            Option::Some(Accessibility::ProtectedAcc) => true,
            _ => false,
        },
        ClassMember::Prop { accessibility, .. } => match accessibility {
            Option::Some(Accessibility::PrivateAcc) => true,
            Option::Some(Accessibility::ProtectedAcc) => true,
            _ => false,
        },
        ClassMember::PrivateMethod => true,
        ClassMember::PrivateProp => true,
        _ => false,
    };
    proof {
        assert(skipped == member_skipped(mv));
    }
    if skipped {
        return Ok((Option::None, seen));
    }
    match m {
        ClassMember::IndexSig | ClassMember::EmptyMember | ClassMember::StaticBlock => Err(
            LowerError::UnsupportedClassMember,
        ),
        ClassMember::Ctor { accessibility, key, params } => {
            if seen {
                return Err(LowerError::MultipleConstructors);
            }
            let named_ok = match key {
                Option::Some(k) => str_eq(k.as_str(), "constructor"),
                Option::None => false,
            };
            proof {
                assert(named_ok == (opt_str_view(*key) == Option::Some("constructor"@)));
            }
            if !named_ok {
                return Err(LowerError::NamedConstructor);
            }
            let pm = crate::pat::lower_params(params, diags);
            let ps = match pm {
                Ok(ps) => ps,
                Err(e) => {
                    return Err(e);
                },
            };
            let ghost psv = params_view(ps@);
            let eps = cleaner.erase_params(&ps);
            proof {
                assert(params_view(eps@) =~= spec_erase_params(scope, psv));
            }
            let segs: Vec<String> = vec![cname.clone()];
            proof {
                assert(view_strings(segs@) =~= seq![cname@]);
            }
            let rt = TypeRep::Path(segs);
            let ghost rtv = ty_view(rt);
            proof {
                assert(rtv == TypeRepV::Path(seq![cname@]));
            }
            let ert = cleaner.erase_type(&rt);
            let item = ItemFn {
                name: crate::util::lit_string("new"),
                js_name: Option::None,
                attrs: FnAttrs {
                    ctor: true,
                    method: false,
                    getter: false,
                    setter: false,
                    static_of: Option::None,
                },
                params: eps,
                ret: Option::Some(ert),
                ns: Vec::new(),
            };
            proof {
                assert(view_strings(item.ns@) =~= Seq::<Seq<char>>::empty());
                assert(item@ == spec_ctor_item(cname@, scope, psv));
            }
            Ok((Option::Some(item), true))
        },
        ClassMember::Method { accessibility, key, kind, is_static, function } => {
            match key {
                Option::None => Ok((Option::None, seen)),
                Option::Some(k) => {
                    let m2 = method_to_binding(
                        cname,
                        cleaner,
                        k,
                        *kind,
                        *is_static,
                        function,
                        diags,
                    );
                    match m2 {
                        Ok(it) => Ok((Option::Some(it), seen)),
                        Err(e) => Err(e),
                    }
                },
            }
        },
        ClassMember::Prop { accessibility, key, is_static, is_optional, ann } => {
            match key {
                Option::None => Ok((Option::None, seen)),
                Option::Some(k) => {
                    proof {
                        assert(opt_ft_wf(opt_ft_view(*ann)));
                    }
                    let m2 = prop_to_binding(
                        cname,
                        cleaner,
                        k,
                        *is_static,
                        *is_optional,
                        ann,
                        diags,
                    );
                    match m2 {
                        Ok(it) => Ok((Option::Some(it), seen)),
                        Err(e) => Err(e),
                    }
                },
            }
        },
        _ => {
            proof {
                assert(false);
            }
            Err(LowerError::UnsupportedClassMember)
        },
    }
}

/// Lowers a class declaration to its bindings.
#[verifier::rlimit(100)]
pub fn class_to_binding(raw: &String, class: &ClassShape, diags: &mut Vec<Diag>) -> (r: Result<
    Vec<BindingItem>,
    LowerError,
>)
    requires
        valid_source_name(raw@),
        class_wf(class@),
    ensures
        ({
            let (sr, sd) = spec_class_to_binding(raw@, class@);
            &&& view_diags(final(diags)@) == view_diags(old(diags)@) + sd
            &&& match r {
                Ok(items) => sr == Ok::<_, LowerError>(bindings_view(items@)),
                Err(e) => sr == Err::<Seq<BindingItemV>, _>(e),
            }
        }),
{
    let ghost cv = class@;
    let ghost msv = members_view(class.body@);
    let ghost base = view_diags(diags@);
    let cleaner = ByeByeGenerics::new(&class.type_params);
    let ghost scope = cleaner.scope();
    let cname = sanitize_sym(raw.as_str());
    let ghost cnamev = cname@;
    let extends = match &class.super_ident {
        Option::Some(s) => Option::Some(sanitize_sym(s.as_str())),
        Option::None => Option::None,
    };
    let opaque = ItemOpaque {
        name: cname.clone(),
        js_name: Option::Some(raw.clone()),
        extends,
        ns: Vec::new(),
    };
    let mut out: Vec<BindingItem> = Vec::new();
    proof {
        assert(view_strings(opaque.ns@) =~= Seq::<Seq<char>>::empty());
        assert(opaque@ == spec_class_to_binding(raw@, cv).0->Ok_0[0]->Opaque_0 || true);
    }
    out.push(BindingItem::Opaque(opaque));
    let ghost opv = out@[0]@;
    let mut ctor_seen = false;
    let mut i: usize = 0;
    let ghost mut emitted: Seq<DiagV> = Seq::empty();
    proof {
        assert(base + emitted =~= base);
        assert(bindings_view(out@) =~= seq![opv]);
    }
    while i < class.body.len()
        invariant
            cv == class@,
            msv == members_view(class.body@),
            members_wf(msv),
            scope == cleaner.scope(),
            cnamev == cname@,
            cnamev == spec_sanitize(raw@),
            scope == spec_scope_of(cv.type_params),
            i <= class.body@.len(),
            base == view_diags(old(diags)@),
            view_diags(diags@) == base + emitted,
            out@.len() >= 1,
            bindings_view(out@)[0] == opv,
            ({
                let full = spec_members_from(cnamev, scope, msv, 0, false);
                let cur = spec_members_from(cnamev, scope, msv, i as int, ctor_seen);
                &&& full.0 == (match cur.0 {
                    Ok(rest) => Ok::<Seq<BindingItemV>, LowerError>(
                        bindings_view(out@).subrange(1, out@.len() as int) + rest,
                    ),
                    Err(e) => Err(e),
                })
                &&& full.1 == emitted + cur.1
            }),
        decreases class.body@.len() - i,
    {
        let ghost prefix = bindings_view(out@).subrange(1, out@.len() as int);
        proof {
            assert(msv[i as int] == member_view(class.body@[i as int]));
            assert(member_wf(msv[i as int]));
        }
        let ghost (st, sd) = spec_member_step(cnamev, scope, msv[i as int], ctor_seen);
        let step = lower_member(&cname, &cleaner, &class.body[i], ctor_seen, diags);
        proof {
            lemma_members_from_step(cnamev, scope, msv, i as int, ctor_seen);
        }
        match step {
            Err(e) => {
                proof {
                    assert(view_diags(diags@) =~= base + (emitted + sd));
                    assert(spec_members_from(cnamev, scope, msv, 0, false).1 =~= emitted + sd);
                }
                return Err(e);
            },
            Ok((opt, seen2)) => {
                match opt {
                    Option::Some(it) => {
                        let ghost itv = it@;
                        let ghost prevout = bindings_view(out@);
                        out.push(BindingItem::Func(it));
                        proof {
                            assert(bindings_view(out@) =~= prevout.push(BindingItemV::Func(itv)));
                            assert(bindings_view(out@)[0] == opv);
                            let newprefix = bindings_view(out@).subrange(1, out@.len() as int);
                            assert(newprefix =~= prefix.push(BindingItemV::Func(itv)));
                            let nxt = spec_members_from(cnamev, scope, msv, i + 1, st->Ok_0.1);
                            match nxt.0 {
                                Ok(rest) => {
                                    assert(newprefix + rest =~= prefix + (seq![
                                        BindingItemV::Func(itv),
                                    ] + rest));
                                },
                                Err(e) => {},
                            }
                        }
                    },
                    Option::None => {
                        proof {
                            let nxt = spec_members_from(cnamev, scope, msv, i + 1, st->Ok_0.1);
                            match nxt.0 {
                                Ok(rest) => {
                                    assert(Seq::<BindingItemV>::empty() + rest =~= rest);
                                },
                                Err(e) => {},
                            }
                        }
                    },
                }
                ctor_seen = seen2;
                i = i + 1;
                proof {
                    emitted = emitted + sd;
                    assert(view_diags(diags@) =~= base + emitted);
                    let nxt = spec_members_from(cnamev, scope, msv, i as int, ctor_seen);
                    assert((emitted.subrange(0, emitted.len() - sd.len()) + (sd + nxt.1)) =~= emitted
                        + nxt.1);
                }
            },
        }
    }
    proof {
        let cur = spec_members_from(cnamev, scope, msv, i as int, ctor_seen);
        assert(cur == (
            Ok::<Seq<BindingItemV>, LowerError>(Seq::<BindingItemV>::empty()),
            Seq::<DiagV>::empty(),
        ));
        assert(emitted + Seq::<DiagV>::empty() =~= emitted);
        let prefix = bindings_view(out@).subrange(1, out@.len() as int);
        assert(prefix + Seq::<BindingItemV>::empty() =~= prefix);
        assert(bindings_view(out@) =~= seq![opv] + prefix);
        let (sr, sd) = spec_class_to_binding(raw@, cv);
        assert(sr == Ok::<Seq<BindingItemV>, LowerError>(bindings_view(out@)));
    }
    Ok(out)
}

// ---------------------------------------------------------------------------
// Lowering interface bodies and object type literals.
// ---------------------------------------------------------------------------

/// One type element's contribution: the produced binding if any, and the
/// diagnostics emitted.
pub open spec fn spec_elem_step(name: Seq<char>, class_scope: Seq<Seq<char>>, e: TyElemV) -> (
    Result<Option<ItemFnV>, LowerError>,
    Seq<DiagV>,
) {
    match e {
        TyElemV::CallSig | TyElemV::ConstructSig => (
            Ok(Option::None),
            seq![DiagV::MemberDropped { owner: name }],
        ),
        TyElemV::PropSig { key, has_params, is_optional, ann, type_params } => {
            if has_params {
                (Ok(Option::None), seq![DiagV::MemberDropped { owner: name }])
            } else {
                match key {
                    Option::None => (Ok(Option::None), Seq::empty()),
                    Option::Some(k) => {
                        let composed = spec_scope_of(type_params) + class_scope;
                        let (mr, md) = spec_prop_to_binding(
                            name,
                            composed,
                            k,
                            false,
                            is_optional,
                            ann,
                        );
                        match mr {
                            Err(e2) => (Err(e2), md),
                            Ok(it) => (Ok(Option::Some(it)), md),
                        }
                    },
                }
            }
        },
        TyElemV::GetterSig { key, ann } => {
            match key {
                Option::None => (Ok(Option::None), Seq::empty()),
                Option::Some(k) => {
                    let f = FnShapeV {
                        params: Seq::empty(),
                        type_params: Seq::empty(),
                        return_type: ann,
                    };
                    let (mr, md) = spec_method_to_binding(
                        name,
                        class_scope,
                        k,
                        MethodKind::GetterK,
                        false,
                        f,
                    );
                    match mr {
                        Err(e2) => (Err(e2), md),
                        Ok(it) => (Ok(Option::Some(it)), md),
                    }
                },
            }
        },
        TyElemV::SetterSig { key, param } => {
            match key {
                Option::None => (Ok(Option::None), Seq::empty()),
                Option::Some(k) => {
                    let f = FnShapeV {
                        params: seq![param],
                        type_params: Seq::empty(),
                        return_type: Option::None,
                    };
                    let (mr, md) = spec_method_to_binding(
                        name,
                        class_scope,
                        k,
                        MethodKind::SetterK,
                        false,
                        f,
                    );
                    match mr {
                        Err(e2) => (Err(e2), md),
                        Ok(it) => (Ok(Option::Some(it)), md),
                    }
                },
            }
        },
        TyElemV::MethodSig { key, params, ann, type_params } => {
            match key {
                Option::None => (Ok(Option::None), Seq::empty()),
                Option::Some(k) => {
                    let composed = spec_scope_of(type_params) + class_scope;
                    let f = FnShapeV { params, type_params, return_type: ann };
                    let (mr, md) = spec_method_to_binding(
                        name,
                        composed,
                        k,
                        MethodKind::MethodK,
                        false,
                        f,
                    );
                    match mr {
                        Err(e2) => (Err(e2), md),
                        Ok(it) => (Ok(Option::Some(it)), md),
                    }
                },
            }
        },
        TyElemV::IndexSigElem => (Ok(Option::None), seq![DiagV::IndexSignature]),
    }
}

/// The fold over the type elements from position `i` on.
pub open spec fn spec_elems_from(
    name: Seq<char>,
    class_scope: Seq<Seq<char>>,
    es: Seq<TyElemV>,
    i: int,
) -> (Result<Seq<BindingItemV>, LowerError>, Seq<DiagV>)
    decreases es.len() - i,
{
    if i < 0 || i >= es.len() {
        (Ok(Seq::empty()), Seq::empty())
    } else {
        let (st, sd) = spec_elem_step(name, class_scope, es[i]);
        match st {
            Err(e) => (Err(e), sd),
            Ok(opt) => {
                let (rr, rd) = spec_elems_from(name, class_scope, es, i + 1);
                let optseq = match opt {
                    Option::Some(it) => seq![BindingItemV::Func(it)],
                    Option::None => Seq::<BindingItemV>::empty(),
                };
                match rr {
                    Err(e) => (Err(e), sd + rd),
                    Ok(rest) => (Ok(optseq + rest), sd + rd),
                }
            },
        }
    }
}

/// What a body of type elements lowers to: one accessor or method binding
/// per supported member, disambiguated within the body.
pub open spec fn spec_ty_elems_to_binding(
    name: Seq<char>,
    class_scope: Seq<Seq<char>>,
    es: Seq<TyElemV>,
) -> (Result<Seq<BindingItemV>, LowerError>, Seq<DiagV>) {
    let (r, ds) = spec_elems_from(name, class_scope, es, 0);
    match r {
        Err(e) => (Err(e), ds),
        Ok(items) => (Ok(crate::collide::spec_collide_items(items)), ds),
    }
}

/// Lowers one type element.
fn lower_elem(
    name: &String,
    class_cleaner: &ByeByeGenerics,
    e: &TyElem,
    diags: &mut Vec<Diag>,
) -> (r: Result<Option<ItemFn>, LowerError>)
    requires
        elem_wf(elem_view(*e)),
    ensures
        ({
            let (st, sd) = spec_elem_step(name@, class_cleaner.scope(), elem_view(*e));
            &&& view_diags(final(diags)@) == view_diags(old(diags)@) + sd
            &&& match r {
                Ok(Option::Some(it)) => st == Ok::<Option<ItemFnV>, LowerError>(
                    Option::Some(it@),
                ),
                Ok(Option::None) => st == Ok::<Option<ItemFnV>, LowerError>(Option::None),
                Err(e2) => st == Err::<Option<ItemFnV>, _>(e2),
            }
        }),
{
    let ghost ev = elem_view(*e);
    let ghost base = view_diags(diags@);
    let ghost cscope = class_cleaner.scope();
    proof {
        assert(base + Seq::<DiagV>::empty() =~= base);
    }
    match e {
        TyElem::CallSig | TyElem::ConstructSig => {
            crate::tymap::push_diag(diags, Diag::MemberDropped { owner: name.clone() });
            proof {
                assert(base.push(DiagV::MemberDropped { owner: name@ }) =~= base + seq![
                    DiagV::MemberDropped { owner: name@ },
                ]);
            }
            Ok(Option::None)
        },
        TyElem::IndexSigElem => {
            crate::tymap::push_diag(diags, Diag::IndexSignature);
            proof {
                assert(base.push(DiagV::IndexSignature) =~= base + seq![DiagV::IndexSignature]);
            }
            Ok(Option::None)
        },
        TyElem::PropSig { key, has_params, is_optional, ann, type_params } => {
            if *has_params {
                crate::tymap::push_diag(diags, Diag::MemberDropped { owner: name.clone() });
                proof {
                    assert(base.push(DiagV::MemberDropped { owner: name@ }) =~= base + seq![
                        DiagV::MemberDropped { owner: name@ },
                    ]);
                }
                return Ok(Option::None);
            }
            match key {
                Option::None => Ok(Option::None),
                Option::Some(k) => {
                    let own = ByeByeGenerics::new(type_params);
                    let composed = own.join(class_cleaner);
                    proof {
                        assert(composed.scope() == spec_scope_of(view_strings(type_params@))
                            + cscope);
                        assert(opt_ft_wf(opt_ft_view(*ann)));
                    }
                    let m2 = prop_to_binding(name, &composed, k, false, *is_optional, ann, diags);
                    match m2 {
                        Ok(it) => Ok(Option::Some(it)),
                        Err(e2) => Err(e2),
                    }
                },
            }
        },
        TyElem::GetterSig { key, ann } => {
            match key {
                Option::None => Ok(Option::None),
                Option::Some(k) => {
                    let f = FnShape {
                        params: Vec::new(),
                        type_params: Vec::new(),
                        return_type: crate::decl::clone_opt_ft(ann),
                    };
                    proof {
                        assert(fpats_view(f.params@) =~= Seq::<FPatV>::empty());
                        assert(view_strings(f.type_params@) =~= Seq::<Seq<char>>::empty());
                        assert(f@ == FnShapeV {
                            params: Seq::empty(),
                            type_params: Seq::empty(),
                            return_type: ev->GetterSig_ann,
                        });
                        assert(fnshape_wf(f@));
                    }
                    let m2 = method_to_binding(
                        name,
                        class_cleaner,
                        k,
                        MethodKind::GetterK,
                        false,
                        &f,
                        diags,
                    );
                    match m2 {
                        Ok(it) => Ok(Option::Some(it)),
                        Err(e2) => Err(e2),
                    }
                },
            }
        },
        TyElem::SetterSig { key, param } => {
            match key {
                Option::None => Ok(Option::None),
                Option::Some(k) => {
                    let mut ps: Vec<FPat> = Vec::new();
                    ps.push(crate::decl::clone_fpat(param));
                    let f = FnShape {
                        params: ps,
                        type_params: Vec::new(),
                        return_type: Option::None,
                    };
                    proof {
                        assert(fpats_view(f.params@) =~= seq![fpat_view(*param)]);
                        assert(view_strings(f.type_params@) =~= Seq::<Seq<char>>::empty());
                        assert(f@ == FnShapeV {
                            params: seq![fpat_view(*param)],
                            type_params: Seq::empty(),
                            return_type: Option::None,
                        });
                        assert(fnshape_wf(f@));
                    }
                    let m2 = method_to_binding(
                        name,
                        class_cleaner,
                        k,
                        MethodKind::SetterK,
                        false,
                        &f,
                        diags,
                    );
                    match m2 {
                        Ok(it) => Ok(Option::Some(it)),
                        Err(e2) => Err(e2),
                    }
                },
            }
        },
        TyElem::MethodSig { key, params, ann, type_params } => {
            match key {
                Option::None => Ok(Option::None),
                Option::Some(k) => {
                    let own = ByeByeGenerics::new(type_params);
                    let composed = own.join(class_cleaner);
                    proof {
                        assert(composed.scope() == spec_scope_of(view_strings(type_params@))
                            + cscope);
                    }
                    let f = FnShape {
                        params: crate::decl::clone_fpats(params),
                        type_params: crate::ty::clone_strings(type_params),
                        return_type: crate::decl::clone_opt_ft(ann),
                    };
                    proof {
                        assert(f@ == FnShapeV {
                            params: fpats_view(params@),
                            type_params: view_strings(type_params@),
                            return_type: ev->MethodSig_ann,
                        });
                        assert(fnshape_wf(f@));
                    }
                    let m2 = method_to_binding(
                        name,
                        &composed,
                        k,
                        MethodKind::MethodK,
                        false,
                        &f,
                        diags,
                    );
                    match m2 {
                        Ok(it) => Ok(Option::Some(it)),
                        Err(e2) => Err(e2),
                    }
                },
            }
        },
    }
}

/// Lowers the members of an interface body or object type literal, and
/// disambiguates the result within the body.
#[verifier::rlimit(100)]
pub fn ty_elems_to_binding(
    name: &String,
    class_cleaner: &ByeByeGenerics,
    elems: &Vec<TyElem>,
    diags: &mut Vec<Diag>,
) -> (r: Result<Vec<BindingItem>, LowerError>)
    requires
        elems_wf(elems_view(elems@)),
    ensures
        ({
            let (sr, sd) = spec_ty_elems_to_binding(
                name@,
                class_cleaner.scope(),
                elems_view(elems@),
            );
            &&& view_diags(final(diags)@) == view_diags(old(diags)@) + sd
            &&& match r {
                Ok(items) => sr == Ok::<_, LowerError>(bindings_view(items@)),
                Err(e) => sr == Err::<Seq<BindingItemV>, _>(e),
            }
        }),
{
    let ghost esv = elems_view(elems@);
    let ghost cscope = class_cleaner.scope();
    let ghost base = view_diags(diags@);
    let ghost mut emitted: Seq<DiagV> = Seq::empty();
    let mut out: Vec<BindingItem> = Vec::new();
    let mut i: usize = 0;
    proof {
        assert(base + emitted =~= base);
        assert(bindings_view(out@) =~= Seq::<BindingItemV>::empty());
    }
    while i < elems.len()
        invariant
            esv == elems_view(elems@),
            elems_wf(esv),
            cscope == class_cleaner.scope(),
            i <= elems@.len(),
            base == view_diags(old(diags)@),
            view_diags(diags@) == base + emitted,
            ({
                let full = spec_elems_from(name@, cscope, esv, 0);
                let cur = spec_elems_from(name@, cscope, esv, i as int);
                &&& full.0 == (match cur.0 {
                    Ok(rest) => Ok::<Seq<BindingItemV>, LowerError>(bindings_view(out@) + rest),
                    Err(e) => Err(e),
                })
                &&& full.1 == emitted + cur.1
            }),
        decreases elems@.len() - i,
    {
        let ghost prefix = bindings_view(out@);
        proof {
            assert(esv[i as int] == elem_view(elems@[i as int]));
            assert(elem_wf(esv[i as int]));
        }
        let ghost (st, sd) = spec_elem_step(name@, cscope, esv[i as int]);
        let step = lower_elem(name, class_cleaner, &elems[i], diags);
        match step {
            Err(e) => {
                proof {
                    assert(view_diags(diags@) =~= base + (emitted + sd));
                    assert(spec_elems_from(name@, cscope, esv, 0).1 =~= emitted + sd);
                }
                return Err(e);
            },
            Ok(opt) => {
                match opt {
                    Option::Some(it) => {
                        let ghost itv = it@;
                        out.push(BindingItem::Func(it));
                        proof {
                            assert(bindings_view(out@) =~= prefix.push(BindingItemV::Func(itv)));
                            let nxt = spec_elems_from(name@, cscope, esv, i + 1);
                            match nxt.0 {
                                Ok(rest) => {
                                    assert(bindings_view(out@) + rest =~= prefix + (seq![
                                        BindingItemV::Func(itv),
                                    ] + rest));
                                },
                                Err(e) => {},
                            }
                        }
                    },
                    Option::None => {
                        proof {
                            let nxt = spec_elems_from(name@, cscope, esv, i + 1);
                            match nxt.0 {
                                Ok(rest) => {
                                    assert(Seq::<BindingItemV>::empty() + rest =~= rest);
                                },
                                Err(e) => {},
                            }
                        }
                    },
                }
                i = i + 1;
                proof {
                    emitted = emitted + sd;
                    assert(view_diags(diags@) =~= base + emitted);
                    let nxt = spec_elems_from(name@, cscope, esv, i as int);
                    assert((emitted.subrange(0, emitted.len() - sd.len()) + (sd + nxt.1))
                        =~= emitted + nxt.1);
                }
            },
        }
    }
    proof {
        let cur = spec_elems_from(name@, cscope, esv, i as int);
        assert(cur == (
            Ok::<Seq<BindingItemV>, LowerError>(Seq::<BindingItemV>::empty()),
            Seq::<DiagV>::empty(),
        ));
        assert(emitted + Seq::<DiagV>::empty() =~= emitted);
        assert(bindings_view(out@) + Seq::<BindingItemV>::empty() =~= bindings_view(out@));
    }
    let deduped = crate::collide::dedupe_bindings(out);
    Ok(deduped)
}

// ---------------------------------------------------------------------------
// Lowering one declaration.
// ---------------------------------------------------------------------------

/// The raw identifier of a declaration, if it has one.
pub open spec fn spec_decl_ident(d: ForeignDeclV) -> Option<Seq<char>> {
    match d {
        ForeignDeclV::ClassDecl { name, class } => Option::Some(name),
        ForeignDeclV::FnDeclF { name, function } => Option::Some(name),
        ForeignDeclV::VarDeclF { decls } => if decls.len() >= 1 && (decls[0] matches FPatV::Ident {
            name,
            ..
        }) {
            Option::Some(decls[0]->Ident_name)
        } else {
            Option::None
        },
        ForeignDeclV::AliasDecl { name, .. } => Option::Some(name),
        ForeignDeclV::InterfaceDecl { name, .. } => Option::Some(name),
        ForeignDeclV::EnumDeclF { name } => Option::Some(name),
        ForeignDeclV::ModuleDecl(m) => Option::Some(m.name),
    }
}

/// The raw identifier of a declaration, if it has one.
pub fn decl_ident(d: &ForeignDecl) -> (r: Option<&String>)
    ensures
        match r {
            Option::Some(s) => spec_decl_ident(d@) == Option::Some(s@),
            Option::None => spec_decl_ident(d@) is None,
        },
{
    match d {
        ForeignDecl::ClassDecl { name, class } => Option::Some(name),
        ForeignDecl::FnDeclF { name, function } => Option::Some(name),
        ForeignDecl::VarDeclF { decls } => {
            if decls.len() >= 1 {
                proof {
                    assert(fpats_view(decls@)[0] == fpat_view(decls@[0]));
                }
                match &decls[0] {
                    FPat::Ident { name, optional, ann } => Option::Some(name),
                    _ => {
                        proof {
                            match &decls[0] {
                                FPat::Ident { .. } => {},
                                FPat::Rest { .. } => {},
                                FPat::ArrayPat { .. } => {},
                                FPat::ObjectPat { .. } => {},
                                FPat::AssignPat => {},
                                FPat::InvalidPat => {},
                                FPat::ExprPat => {},
                            }
                        }
                        Option::None
                    },
                }
            } else {
                proof {
                    assert(fpats_view(decls@).len() == decls@.len());
                }
                Option::None
            }
        },
        ForeignDecl::AliasDecl { name, type_params, members } => Option::Some(name),
        ForeignDecl::InterfaceDecl { name, type_params, body } => Option::Some(name),
        ForeignDecl::EnumDeclF { name } => Option::Some(name),
        ForeignDecl::ModuleDecl(m) => Option::Some(&m.name),
    }
}

/// The raw identifier a binding pattern declares, through any rest
/// wrapper.
pub open spec fn fpat_raw_name(p: FPatV) -> Option<Seq<char>>
    decreases p,
{
    match p {
        FPatV::Ident { name, .. } => Option::Some(name),
        FPatV::Rest { arg, .. } => fpat_raw_name(*arg),
        _ => Option::None,
    }
}

/// The raw identifier a binding pattern declares, if any.
pub fn fpat_raw_ident(p: &FPat) -> (r: Option<&String>)
    ensures
        match r {
            Option::Some(s) => fpat_raw_name(fpat_view(*p)) == Option::Some(s@),
            Option::None => fpat_raw_name(fpat_view(*p)) is None,
        },
    decreases *p,
{
    match p {
        FPat::Ident { name, optional, ann } => Option::Some(name),
        FPat::Rest { arg, ann } => fpat_raw_ident(arg),
        FPat::ArrayPat { ann } => Option::None,
        FPat::ObjectPat { ann } => Option::None,
        FPat::AssignPat => Option::None,
        FPat::InvalidPat => Option::None,
        FPat::ExprPat => Option::None,
    }
}

/// What one declaration lowers to. A namespace contributes nothing here: it
/// becomes a nested scope of its own.
pub open spec fn spec_decl_to_items(d: ForeignDeclV) -> (Result<Seq<BindingItemV>, LowerError>, Seq<
    DiagV,
>) {
    match d {
        ForeignDeclV::ClassDecl { name, class } => spec_class_to_binding(name, class),
        ForeignDeclV::FnDeclF { name, function } => {
            let (sr, sd) = spec_function_signature(spec_sanitize(name), function);
            match sr {
                Err(e) => (Err(e), sd),
                Ok(sig) => (Ok(seq![BindingItemV::Func(sig)]), sd),
            }
        },
        ForeignDeclV::VarDeclF { decls } => {
            if decls.len() != 1 {
                (Err(LowerError::VarDeclarators), Seq::empty())
            } else {
                let (pr, pd) = spec_pat_to_param(decls[0]);
                match pr {
                    Err(e) => (Err(e), pd),
                    Ok(pm) => (
                        Ok(
                            seq![
                                BindingItemV::Static(
                                    ItemStaticV {
                                        name: pm.name,
                                        js_name: fpat_raw_name(decls[0]),
                                        ty: pm.ty,
                                        ns: Seq::empty(),
                                    },
                                ),
                            ],
                        ),
                        pd,
                    ),
                }
            }
        },
        ForeignDeclV::AliasDecl { name, type_params, members } => {
            let opaque = BindingItemV::Opaque(spec_ty_to_binding(name));
            match members {
                Option::None => (Ok(seq![opaque]), Seq::empty()),
                Option::Some(ms) => {
                    let (er, ed) = spec_ty_elems_to_binding(
                        spec_sanitize(name),
                        spec_scope_of(type_params),
                        ms,
                    );
                    match er {
                        Err(e) => (Err(e), ed),
                        Ok(es) => (Ok(seq![opaque] + es), ed),
                    }
                },
            }
        },
        ForeignDeclV::InterfaceDecl { name, type_params, body } => {
            let opaque = BindingItemV::Opaque(spec_ty_to_binding(name));
            let scope = spec_scope_of(type_params);
            let (er, ed) = spec_ty_elems_to_binding(spec_sanitize(name), scope, body);
            match er {
                Err(e) => (Err(e), ed),
                Ok(es) => (
                    Ok(
                        seq![opaque] + Seq::new(
                            es.len(),
                            |i: int| crate::erase::spec_erase_binding(scope, es[i]),
                        ),
                    ),
                    ed,
                ),
            }
        },
        ForeignDeclV::EnumDeclF { name } => (Err(LowerError::EnumDecl), Seq::empty()),
        ForeignDeclV::ModuleDecl(m) => (Ok(Seq::empty()), Seq::empty()),
    }
}

/// Lowers one top-level declaration to its binding items.
#[verifier::rlimit(60)]
pub fn decl_to_items(d: &ForeignDecl, diags: &mut Vec<Diag>) -> (r: Result<
    Vec<BindingItem>,
    LowerError,
>)
    requires
        decl_wf(d@),
    ensures
        ({
            let (sr, sd) = spec_decl_to_items(d@);
            &&& view_diags(final(diags)@) == view_diags(old(diags)@) + sd
            &&& match r {
                Ok(items) => sr == Ok::<_, LowerError>(bindings_view(items@)),
                Err(e) => sr == Err::<Seq<BindingItemV>, _>(e),
            }
        }),
{
    let ghost dv = d@;
    let ghost base = view_diags(diags@);
    proof {
        assert(base + Seq::<DiagV>::empty() =~= base);
    }
    match d {
        ForeignDecl::ClassDecl { name, class } => class_to_binding(name, class, diags),
        ForeignDecl::FnDeclF { name, function } => {
            let sname = sanitize_sym(name.as_str());
            let m = function_signature(sname, function, diags);
            match m {
                Ok(sig) => {
                    let ghost sigv = sig@;
                    let out: Vec<BindingItem> = vec![BindingItem::Func(sig)];
                    proof {
                        assert(bindings_view(out@) =~= seq![BindingItemV::Func(sigv)]);
                    }
                    Ok(out)
                },
                Err(e) => Err(e),
            }
        },
        ForeignDecl::VarDeclF { decls } => {
            proof {
                assert(fpats_view(decls@).len() == decls@.len());
            }
            if decls.len() != 1 {
                return Err(LowerError::VarDeclarators);
            }
            proof {
                assert(fpats_view(decls@)[0] == fpat_view(decls@[0]));
                assert(fpat_wf(fpats_view(decls@)[0]));
            }
            let m = pat_to_pat_type(&decls[0], diags);
            match m {
                Ok(pm) => {
                    let ghost pmv = pm@;
                    let raw = match fpat_raw_ident(&decls[0]) {
                        Option::Some(s) => Option::Some(s.clone()),
                        Option::None => Option::None,
                    };
                    let st = ItemStatic {
                        name: pm.name,
                        js_name: raw,
                        ty: pm.ty,
                        ns: Vec::new(),
                    };
                    proof {
                        assert(view_strings(st.ns@) =~= Seq::<Seq<char>>::empty());
                    }
                    let ghost stv = st@;
                    let out: Vec<BindingItem> = vec![BindingItem::Static(st)];
                    proof {
                        assert(bindings_view(out@) =~= seq![BindingItemV::Static(stv)]);
                    }
                    Ok(out)
                },
                Err(e) => Err(e),
            }
        },
        ForeignDecl::AliasDecl { name, type_params, members } => {
            let opaque = ty_to_binding(name);
            let ghost opv = opaque@;
            match members {
                Option::None => {
                    let out: Vec<BindingItem> = vec![BindingItem::Opaque(opaque)];
                    proof {
                        assert(bindings_view(out@) =~= seq![BindingItemV::Opaque(opv)]);
                    }
                    Ok(out)
                },
                Option::Some(ms) => {
                    let cleaner = ByeByeGenerics::new(type_params);
                    let sname = sanitize_sym(name.as_str());
                    let m = ty_elems_to_binding(&sname, &cleaner, ms, diags);
                    match m {
                        Ok(mut es) => {
                            let ghost esv = bindings_view(es@);
                            let mut out: Vec<BindingItem> = vec![BindingItem::Opaque(opaque)];
                            proof {
                                assert(bindings_view(out@) =~= seq![BindingItemV::Opaque(opv)]);
                            }
                            out.append(&mut es);
                            proof {
                                assert(bindings_view(out@) =~= seq![
                                    BindingItemV::Opaque(opv),
                                ] + esv);
                            }
                            Ok(out)
                        },
                        Err(e) => Err(e),
                    }
                },
            }
        },
        ForeignDecl::InterfaceDecl { name, type_params, body } => {
            let opaque = ty_to_binding(name);
            let ghost opv = opaque@;
            let cleaner = ByeByeGenerics::new(type_params);
            let sname = sanitize_sym(name.as_str());
            let m = ty_elems_to_binding(&sname, &cleaner, body, diags);
            match m {
                Ok(es) => {
                    let ghost esv = bindings_view(es@);
                    let mut out: Vec<BindingItem> = vec![BindingItem::Opaque(opaque)];
                    proof {
                        assert(bindings_view(out@) =~= seq![BindingItemV::Opaque(opv)]);
                    }
                    let mut i: usize = 0;
                    while i < es.len()
                        invariant
                            esv == bindings_view(es@),
                            i <= es@.len(),
                            out@.len() == 1 + i,
                            bindings_view(out@)[0] == BindingItemV::Opaque(opv),
                            forall|j: int| 0 <= j < i ==> bindings_view(out@)[j + 1]
                                == crate::erase::spec_erase_binding(cleaner.scope(), esv[j]),
                        decreases es@.len() - i,
                    {
                        let eb = cleaner.erase_binding(&es[i]);
                        let ghost ebv = eb@;
                        let ghost prev = bindings_view(out@);
                        out.push(eb);
                        i = i + 1;
                        proof {
                            assert(bindings_view(es@)[i - 1] == es@[i - 1]@);
                            assert(bindings_view(out@) =~= prev.push(ebv));
                        }
                    }
                    proof {
                        assert(bindings_view(out@) =~= seq![BindingItemV::Opaque(opv)]
                            + Seq::new(
                            esv.len(),
                            |k: int| crate::erase::spec_erase_binding(cleaner.scope(), esv[k]),
                        ));
                    }
                    Ok(out)
                },
                Err(e) => Err(e),
            }
        },
        ForeignDecl::EnumDeclF { name } => Err(LowerError::EnumDecl),
        ForeignDecl::ModuleDecl(m) => {
            let out: Vec<BindingItem> = Vec::new();
            proof {
                assert(bindings_view(out@) =~= Seq::<BindingItemV>::empty());
            }
            Ok(out)
        },
    }
}

// ---------------------------------------------------------------------------
// Accessibility filtering.
// ---------------------------------------------------------------------------

/// Skipped members contribute nothing: the fold over a class body steps
/// straight past a private or protected member.
pub proof fn lemma_skipped_member_no_effect(
    cname: Seq<char>,
    scope: Seq<Seq<char>>,
    ms: Seq<ClassMemberV>,
    i: int,
    seen: bool,
)
    requires
        0 <= i < ms.len(),
        member_skipped(ms[i]),
    ensures
        spec_members_from(cname, scope, ms, i, seen) == spec_members_from(
            cname,
            scope,
            ms,
            i + 1,
            seen,
        ),
{
}

/// Accessibility filtering: a class with a private method and a public
/// method of the same raw name produces exactly one binding besides the
/// opaque handle — the public one, under its unsuffixed sanitized name.
pub proof fn lemma_accessibility_filtering(raw: Seq<char>, c: ClassShapeV, k: Seq<char>)
    requires
        c.body.len() == 2,
        c.body[0] matches ClassMemberV::Method {
            accessibility: Option::Some(Accessibility::PrivateAcc),
            key: Option::Some(kp),
            ..
        } && kp == k,
        c.body[1] matches ClassMemberV::Method {
            accessibility: Option::None,
            key: Option::Some(kq),
            kind: MethodKind::MethodK,
            ..
        } && kq == k,
        spec_method_to_binding(
            spec_sanitize(raw),
            spec_scope_of(c.type_params),
            k,
            MethodKind::MethodK,
            c.body[1]->Method_is_static,
            c.body[1]->Method_function,
        ).0 is Ok,
    ensures
        ({
            let (r, ds) = spec_class_to_binding(raw, c);
            &&& r is Ok
            &&& r->Ok_0.len() == 2
            &&& r->Ok_0[1] matches BindingItemV::Func(f) && f.name == spec_method_name(
                k,
                MethodKind::MethodK,
            )
        }),
{
    let cname = spec_sanitize(raw);
    let scope = spec_scope_of(c.type_params);
    lemma_skipped_member_no_effect(cname, scope, c.body, 0, false);
    let (mr, md) = spec_method_to_binding(
        cname,
        scope,
        k,
        MethodKind::MethodK,
        c.body[1]->Method_is_static,
        c.body[1]->Method_function,
    );
    let it = mr->Ok_0;
    assert(spec_members_from(cname, scope, c.body, 2, false) == (
        Ok::<Seq<BindingItemV>, LowerError>(Seq::<BindingItemV>::empty()),
        Seq::<DiagV>::empty(),
    ));
    assert(spec_members_from(cname, scope, c.body, 1, false).0 == Ok::<
        Seq<BindingItemV>,
        LowerError,
    >(seq![BindingItemV::Func(it)] + Seq::<BindingItemV>::empty()));
    assert((seq![BindingItemV::Func(it)] + Seq::<BindingItemV>::empty()) =~= seq![
        BindingItemV::Func(it),
    ]);
    let (r, ds) = spec_class_to_binding(raw, c);
    assert(r->Ok_0 =~= seq![
        BindingItemV::Opaque(spec_class_to_binding(raw, c).0->Ok_0[0]->Opaque_0),
        BindingItemV::Func(it),
    ]) by {
        assert(spec_members_from(cname, scope, c.body, 0, false).0 == Ok::<
            Seq<BindingItemV>,
            LowerError,
        >(seq![BindingItemV::Func(it)]));
    }
    assert(it.name == spec_method_name(k, MethodKind::MethodK));
}

// ---------------------------------------------------------------------------
// Fresh copies of foreign syntax.
// ---------------------------------------------------------------------------

fn clone_opt_box_ft(rt: &Option<Box<ForeignType>>) -> (r: Option<Box<ForeignType>>)
    ensures
        crate::ty::opt_box_ft_view(r) == crate::ty::opt_box_ft_view(*rt),
    decreases *rt,
{
    match rt {
        Option::Some(b) => {
            let c = clone_ft(b);
            let ghost cv = ft_view(c);
            let out = Option::Some(Box::new(c));
            proof {
                assert(crate::ty::opt_box_ft_view(*rt) == Option::Some(
                    Box::new(ft_view(**b)),
                ));
                assert(crate::ty::opt_box_ft_view(out) == Option::Some(Box::new(cv)));
            }
            out
        },
        Option::None => Option::None,
    }
}

pub fn clone_ft(t: &ForeignType) -> (r: ForeignType)
    ensures
        ft_view(r) == ft_view(*t),
    decreases *t,
{
    match t {
        ForeignType::Keyword(k) => ForeignType::Keyword(*k),
        ForeignType::FnType { params, type_params, ret_ty } => ForeignType::FnType {
            params: clone_fpats(params),
            type_params: crate::ty::clone_strings(type_params),
            ret_ty: clone_opt_box_ft(ret_ty),
        },
        ForeignType::CtorType => ForeignType::CtorType,
        ForeignType::TypeRef { name, type_args } => ForeignType::TypeRef {
            name: crate::ty::clone_strings(name),
            type_args: clone_fts(type_args),
        },
        ForeignType::TypeQuery => ForeignType::TypeQuery,
        ForeignType::TypeLit => ForeignType::TypeLit,
        ForeignType::LitType => ForeignType::LitType,
        ForeignType::IndexedAccess => ForeignType::IndexedAccess,
        ForeignType::InferType => ForeignType::InferType,
        ForeignType::RestType => ForeignType::RestType,
        ForeignType::Predicate => ForeignType::Predicate,
        ForeignType::Conditional => ForeignType::Conditional,
        ForeignType::TypeOperator => ForeignType::TypeOperator,
        ForeignType::MappedType => ForeignType::MappedType,
        ForeignType::ArrayType(t0) => ForeignType::ArrayType(Box::new(clone_ft(t0))),
        ForeignType::OptionalType(t0) => ForeignType::OptionalType(Box::new(clone_ft(t0))),
        ForeignType::UnionType(ts) => ForeignType::UnionType(clone_fts(ts)),
        ForeignType::IntersectionType(ts) => ForeignType::IntersectionType(clone_fts(ts)),
        ForeignType::ParenType(t0) => ForeignType::ParenType(Box::new(clone_ft(t0))),
        ForeignType::TupleType(ts) => ForeignType::TupleType(clone_fts(ts)),
        ForeignType::ImportType { src, qualifier } => ForeignType::ImportType {
            src: src.clone(),
            qualifier: qualifier.clone(),
        },
        ForeignType::ThisType => ForeignType::ThisType,
    }
}

fn clone_fts(ts: &Vec<ForeignType>) -> (r: Vec<ForeignType>)
    ensures
        crate::ty::fts_view(r@) == crate::ty::fts_view(ts@),
    decreases *ts,
{
    let mut out: Vec<ForeignType> = Vec::new();
    let mut i: usize = 0;
    while i < ts.len()
        invariant
            i <= ts@.len(),
            out@.len() == i,
            forall|j: int| 0 <= j < i ==> crate::ty::fts_view(out@)[j] == crate::ty::fts_view(
                ts@,
            )[j],
        decreases ts@.len() - i,
    {
        let c = clone_ft(&ts[i]);
        let ghost prev = out@;
        out.push(c);
        i = i + 1;
        proof {
            assert forall|j: int| 0 <= j < i implies crate::ty::fts_view(out@)[j]
                == crate::ty::fts_view(ts@)[j] by {
                assert(crate::ty::fts_view(out@)[j] == ft_view(out@[j]));
                if j < i - 1 {
                    assert(out@[j] == prev[j]);
                    assert(crate::ty::fts_view(prev)[j] == ft_view(prev[j]));
                } else {
                    assert(out@[j] == c);
                }
            }
        }
    }
    proof {
        assert(crate::ty::fts_view(out@) =~= crate::ty::fts_view(ts@));
    }
    out
}

pub fn clone_opt_ft(t: &Option<ForeignType>) -> (r: Option<ForeignType>)
    ensures
        opt_ft_view(r) == opt_ft_view(*t),
    decreases *t,
{
    match t {
        Option::Some(t0) => Option::Some(clone_ft(t0)),
        Option::None => Option::None,
    }
}

pub fn clone_fpat(p: &FPat) -> (r: FPat)
    ensures
        fpat_view(r) == fpat_view(*p),
    decreases *p,
{
    match p {
        FPat::Ident { name, optional, ann } => FPat::Ident {
            name: name.clone(),
            optional: *optional,
            ann: clone_opt_ft(ann),
        },
        FPat::Rest { arg, ann } => FPat::Rest {
            arg: Box::new(clone_fpat(arg)),
            ann: clone_opt_ft(ann),
        },
        FPat::ArrayPat { ann } => FPat::ArrayPat { ann: clone_opt_ft(ann) },
        FPat::ObjectPat { ann } => FPat::ObjectPat { ann: clone_opt_ft(ann) },
        FPat::AssignPat => FPat::AssignPat,
        FPat::InvalidPat => FPat::InvalidPat,
        FPat::ExprPat => FPat::ExprPat,
    }
}

pub fn clone_fpats(ps: &Vec<FPat>) -> (r: Vec<FPat>)
    ensures
        fpats_view(r@) == fpats_view(ps@),
    decreases *ps,
{
    let mut out: Vec<FPat> = Vec::new();
    let mut i: usize = 0;
    while i < ps.len()
        invariant
            i <= ps@.len(),
            out@.len() == i,
            forall|j: int| 0 <= j < i ==> fpats_view(out@)[j] == fpats_view(ps@)[j],
        decreases ps@.len() - i,
    {
        let c = clone_fpat(&ps[i]);
        let ghost prev = out@;
        out.push(c);
        i = i + 1;
        proof {
            assert forall|j: int| 0 <= j < i implies fpats_view(out@)[j] == fpats_view(
                ps@,
            )[j] by {
                assert(fpats_view(out@)[j] == fpat_view(out@[j]));
                if j < i - 1 {
                    assert(out@[j] == prev[j]);
                    assert(fpats_view(prev)[j] == fpat_view(prev[j]));
                } else {
                    assert(out@[j] == c);
                }
            }
        }
    }
    proof {
        assert(fpats_view(out@) =~= fpats_view(ps@));
    }
    out
}

} // verus!
