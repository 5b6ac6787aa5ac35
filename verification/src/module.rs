use vstd::prelude::*;

use crate::decl::{
    ExportSpec, ExportSpecV, ImportSpec, ImportSpecV, ModuleItemF, ModuleItemFV, export_spec_view,
    import_spec_view, mitem_view, mitems_view, lemma_mitems_view, mitem_wf, unit_wf,
};
use crate::ty::{view_strings, TypeRep, TypeRepV};
use crate::diag::{Diag, DiagV, LowerError, view_diags};
use crate::item::{
    TargetItem, TargetItemV, UseAlias, UseAliasV, UseLeaf, UseLeafV, leaves_view, targets_view,
};
use crate::util::{
    PathSeg, PathSegV, import_prefix_to_idents, lit_string, sanitize_sym, spec_import_prefix,
    spec_sanitize, str_eq, valid_source_name, view_segs,
};

verus! {

broadcast use {crate::decl::lemma_mitems_view, crate::item::lemma_targets_view};

// ---------------------------------------------------------------------------
// The import/export translator.
// ---------------------------------------------------------------------------

/// The re-export leaves of an import statement's specifiers from position
/// `i` on; namespace-wildcard imports are dropped.
pub open spec fn spec_import_leaves(specs: Seq<ImportSpecV>, i: int) -> Seq<UseLeafV>
    decreases specs.len() - i,
{
    if i < 0 || i >= specs.len() {
        Seq::empty()
    } else {
        let rest = spec_import_leaves(specs, i + 1);
        match specs[i] {
            ImportSpecV::NamedImport { local, imported } => {
                let leaf = match imported {
                    Option::Some(imp) => UseLeafV {
                        name: spec_sanitize(local),
                        rename: Option::Some(spec_sanitize(imp)),
                    },
                    Option::None => UseLeafV { name: spec_sanitize(local), rename: Option::None },
                };
                seq![leaf] + rest
            },
            ImportSpecV::DefaultImport { local } => {
                seq![
                    UseLeafV { name: "default"@, rename: Option::Some(spec_sanitize(local)) },
                ] + rest
            },
            ImportSpecV::NamespaceImport => rest,
        }
    }
}

/// The re-export leaves of a named export's specifiers from position `i`
/// on; a namespace specifier has no lowering.
pub open spec fn spec_export_leaves(specs: Seq<ExportSpecV>, i: int) -> Result<
    Seq<UseLeafV>,
    LowerError,
>
    decreases specs.len() - i,
{
    if i < 0 || i >= specs.len() {
        Ok(Seq::empty())
    } else {
        match specs[i] {
            ExportSpecV::NamespaceExport => Err(LowerError::NamespaceExportSpecifier),
            ExportSpecV::NamedExport { orig, exported } => {
                let leaf = match exported {
                    Option::Some(ex) => UseLeafV {
                        name: spec_sanitize(orig),
                        rename: Option::Some(spec_sanitize(ex)),
                    },
                    Option::None => UseLeafV { name: spec_sanitize(orig), rename: Option::None },
                };
                match spec_export_leaves(specs, i + 1) {
                    Err(e) => Err(e),
                    Ok(rest) => Ok(seq![leaf] + rest),
                }
            },
            ExportSpecV::DefaultExport { exported } => {
                let leaf = UseLeafV {
                    name: "default"@,
                    rename: Option::Some(spec_sanitize(exported)),
                };
                match spec_export_leaves(specs, i + 1) {
                    Err(e) => Err(e),
                    Ok(rest) => Ok(seq![leaf] + rest),
                }
            },
        }
    }
}

/// The re-export aliases of the source unit's import and export
/// statements, in order.
pub open spec fn spec_imports_to_uses(items: Seq<ModuleItemFV>, i: int) -> Result<
    Seq<UseAliasV>,
    LowerError,
>
    decreases items.len() - i,
{
    if i < 0 || i >= items.len() {
        Ok(Seq::empty())
    } else {
        match items[i] {
            ModuleItemFV::ImportItem { specifiers, src } => {
                let leaves = spec_import_leaves(specifiers, 0);
                if leaves.len() == 0 {
                    spec_imports_to_uses(items, i + 1)
                } else {
                    let u = UseAliasV { prefix: spec_import_prefix(src), leaves };
                    match spec_imports_to_uses(items, i + 1) {
                        Err(e) => Err(e),
                        Ok(rest) => Ok(seq![u] + rest),
                    }
                }
            },
            ModuleItemFV::ExportDefaultExprItem { ident } => {
                match ident {
                    Option::None => Err(LowerError::DefaultExportExpr),
                    Option::Some(n) => {
                        let u = UseAliasV {
                            prefix: seq![PathSegV::SelfScope],
                            leaves: seq![
                                UseLeafV {
                                    name: spec_sanitize(n),
                                    rename: Option::Some("default"@),
                                },
                            ],
                        };
                        match spec_imports_to_uses(items, i + 1) {
                            Err(e) => Err(e),
                            Ok(rest) => Ok(seq![u] + rest),
                        }
                    },
                }
            },
            ModuleItemFV::ExportNamedItem { specifiers, src } => {
                let prefix = match src {
                    Option::Some(p) => spec_import_prefix(p),
                    Option::None => seq![PathSegV::SelfScope],
                };
                match spec_export_leaves(specifiers, 0) {
                    Err(e) => Err(e),
                    Ok(leaves) => {
                        if leaves.len() == 0 {
                            Err(LowerError::EmptyExportSpecifiers)
                        } else {
                            let u = UseAliasV { prefix, leaves };
                            match spec_imports_to_uses(items, i + 1) {
                                Err(e) => Err(e),
                                Ok(rest) => Ok(seq![u] + rest),
                            }
                        }
                    },
                }
            },
            _ => spec_imports_to_uses(items, i + 1),
        }
    }
}

fn import_leaves(specs: &Vec<ImportSpec>) -> (r: Vec<UseLeaf>)
    requires
        forall|j: int| 0 <= j < specs@.len() ==> crate::decl::import_spec_wf(
            #[trigger] import_spec_view(specs@[j]),
        ),
    ensures
        leaves_view(r@) == spec_import_leaves(
            specs@.map(|k: int, s: ImportSpec| import_spec_view(s)),
            0,
        ),
{
    let ghost sv = specs@.map(|k: int, s: ImportSpec| import_spec_view(s));
    let mut out: Vec<UseLeaf> = Vec::new();
    let mut i: usize = 0;
    proof {
        assert(leaves_view(out@) =~= Seq::<UseLeafV>::empty());
    }
    while i < specs.len()
        invariant
            sv == specs@.map(|k: int, s: ImportSpec| import_spec_view(s)),
            forall|j: int| 0 <= j < sv.len() ==> crate::decl::import_spec_wf(#[trigger] sv[j]),
            i <= specs@.len(),
            spec_import_leaves(sv, 0) == leaves_view(out@) + spec_import_leaves(sv, i as int),
        decreases specs@.len() - i,
    {
        let ghost prefix = leaves_view(out@);
        proof {
            assert(sv[i as int] == import_spec_view(specs@[i as int]));
            assert(crate::decl::import_spec_wf(sv[i as int]));
        }
        match &specs[i] {
            ImportSpec::NamedImport { local, imported } => {
                let leaf = match imported {
                    Option::Some(imp) => UseLeaf {
                        name: sanitize_sym(local.as_str()),
                        rename: Option::Some(sanitize_sym(imp.as_str())),
                    },
                    Option::None => UseLeaf {
                        name: sanitize_sym(local.as_str()),
                        rename: Option::None,
                    },
                };
                let ghost lv = leaf@;
                out.push(leaf);
                proof {
                    assert(leaves_view(out@) =~= prefix.push(lv));
                    assert(prefix.push(lv) + spec_import_leaves(sv, i + 1) =~= prefix + (seq![lv]
                        + spec_import_leaves(sv, i + 1)));
                }
            },
            ImportSpec::DefaultImport { local } => {
                let leaf = UseLeaf {
                    name: lit_string("default"),
                    rename: Option::Some(sanitize_sym(local.as_str())),
                };
                let ghost lv = leaf@;
                out.push(leaf);
                proof {
                    assert(leaves_view(out@) =~= prefix.push(lv));
                    assert(prefix.push(lv) + spec_import_leaves(sv, i + 1) =~= prefix + (seq![lv]
                        + spec_import_leaves(sv, i + 1)));
                }
            },
            ImportSpec::NamespaceImport => {},
        }
        i = i + 1;
    }
    proof {
        assert(spec_import_leaves(sv, i as int) =~= Seq::<UseLeafV>::empty());
        assert(leaves_view(out@) + Seq::<UseLeafV>::empty() =~= leaves_view(out@));
    }
    out
}

fn export_leaves(specs: &Vec<ExportSpec>) -> (r: Result<Vec<UseLeaf>, LowerError>)
    requires
        forall|j: int| 0 <= j < specs@.len() ==> crate::decl::export_spec_wf(
            #[trigger] export_spec_view(specs@[j]),
        ),
    ensures
        ({
            let sv = specs@.map(|k: int, s: ExportSpec| export_spec_view(s));
            match r {
                Ok(ls) => spec_export_leaves(sv, 0) == Ok::<Seq<UseLeafV>, LowerError>(
                    leaves_view(ls@),
                ),
                Err(e) => spec_export_leaves(sv, 0) == Err::<Seq<UseLeafV>, _>(e),
            }
        }),
{
    let ghost sv = specs@.map(|k: int, s: ExportSpec| export_spec_view(s));
    let mut out: Vec<UseLeaf> = Vec::new();
    let mut i: usize = 0;
    proof {
        assert(leaves_view(out@) =~= Seq::<UseLeafV>::empty());
    }
    while i < specs.len()
        invariant
            sv == specs@.map(|k: int, s: ExportSpec| export_spec_view(s)),
            forall|j: int| 0 <= j < sv.len() ==> crate::decl::export_spec_wf(#[trigger] sv[j]),
            i <= specs@.len(),
            spec_export_leaves(sv, 0) == (match spec_export_leaves(sv, i as int) {
                Ok(rest) => Ok::<Seq<UseLeafV>, LowerError>(leaves_view(out@) + rest),
                Err(e) => Err(e),
            }),
        decreases specs@.len() - i,
    {
        let ghost prefix = leaves_view(out@);
        proof {
            assert(sv[i as int] == export_spec_view(specs@[i as int]));
            assert(crate::decl::export_spec_wf(sv[i as int]));
        }
        match &specs[i] {
            ExportSpec::NamespaceExport => {
                return Err(LowerError::NamespaceExportSpecifier);
            },
            ExportSpec::NamedExport { orig, exported } => {
                let leaf = match exported {
                    Option::Some(ex) => UseLeaf {
                        name: sanitize_sym(orig.as_str()),
                        rename: Option::Some(sanitize_sym(ex.as_str())),
                    },
                    Option::None => UseLeaf {
                        name: sanitize_sym(orig.as_str()),
                        rename: Option::None,
                    },
                };
                let ghost lv = leaf@;
                out.push(leaf);
                proof {
                    assert(leaves_view(out@) =~= prefix.push(lv));
                    match spec_export_leaves(sv, i + 1) {
                        Ok(rest) => {
                            assert(prefix.push(lv) + rest =~= prefix + (seq![lv] + rest));
                        },
                        Err(e) => {},
                    }
                }
            },
            ExportSpec::DefaultExport { exported } => {
                let leaf = UseLeaf {
                    name: lit_string("default"),
                    rename: Option::Some(sanitize_sym(exported.as_str())),
                };
                let ghost lv = leaf@;
                out.push(leaf);
                proof {
                    assert(leaves_view(out@) =~= prefix.push(lv));
                    match spec_export_leaves(sv, i + 1) {
                        Ok(rest) => {
                            assert(prefix.push(lv) + rest =~= prefix + (seq![lv] + rest));
                        },
                        Err(e) => {},
                    }
                }
            },
        }
        i = i + 1;
    }
    proof {
        assert(spec_export_leaves(sv, i as int) == Ok::<Seq<UseLeafV>, LowerError>(
            Seq::<UseLeafV>::empty(),
        ));
        assert(leaves_view(out@) + Seq::<UseLeafV>::empty() =~= leaves_view(out@));
    }
    Ok(out)
}

/// Converts the unit's import and export statements into re-export
/// aliases with relative-path routing.
pub fn imports_to_uses(body: &Vec<ModuleItemF>, diags: &mut Vec<Diag>) -> (r: Result<
    Vec<UseAlias>,
    LowerError,
>)
    requires
        unit_wf(mitems_view(body@)),
    ensures
        view_diags(final(diags)@) == view_diags(old(diags)@),
        ({
            let bv = mitems_view(body@);
            match r {
                Ok(us) => spec_imports_to_uses(bv, 0) == Ok::<Seq<UseAliasV>, LowerError>(
                    us@.map(|k: int, u: UseAlias| u@),
                ),
                Err(e) => spec_imports_to_uses(bv, 0) == Err::<Seq<UseAliasV>, _>(e),
            }
        }),
{
    let ghost bv = mitems_view(body@);
    let mut out: Vec<UseAlias> = Vec::new();
    let mut i: usize = 0;
    proof {
        assert(out@.map(|k: int, u: UseAlias| u@) =~= Seq::<UseAliasV>::empty());
    }
    while i < body.len()
        invariant
            bv == mitems_view(body@),
            unit_wf(bv),
            i <= body@.len(),
            view_diags(diags@) == view_diags(old(diags)@),
            spec_imports_to_uses(bv, 0) == (match spec_imports_to_uses(bv, i as int) {
                Ok(rest) => Ok::<Seq<UseAliasV>, LowerError>(
                    out@.map(|k: int, u: UseAlias| u@) + rest,
                ),
                Err(e) => Err(e),
            }),
        decreases body@.len() - i,
    {
        let ghost prefix = out@.map(|k: int, u: UseAlias| u@);
        proof {
            assert(bv[i as int] == mitem_view(body@[i as int]));
            assert(mitem_wf(bv[i as int]));
        }
        match &body[i] {
            ModuleItemF::ImportItem { specifiers, src } => {
                proof {
                    assert(bv[i as int] == ModuleItemFV::ImportItem {
                        specifiers: specifiers@.map(|k: int, s: ImportSpec| import_spec_view(s)),
                        src: src@,
                    });
                }
                proof {
                    assert forall|j: int| 0 <= j < specifiers@.len() implies
                        crate::decl::import_spec_wf(
                        #[trigger] import_spec_view(specifiers@[j]),
                    ) by {
                        let mv = specifiers@.map(|k: int, s: ImportSpec| import_spec_view(s));
                        assert(mv[j] == import_spec_view(specifiers@[j]));
                        assert(crate::decl::import_spec_wf(mv[j]));
                    }
                }
                let leaves = import_leaves(specifiers);
                if leaves.len() > 0 {
                    proof {
                        assert(leaves_view(leaves@).len() == leaves@.len());
                    }
                    let pref = import_prefix_to_idents(src.as_str());
                    let u = UseAlias { prefix: pref, leaves };
                    let ghost uv = u@;
                    out.push(u);
                    proof {
                        assert(out@.map(|k: int, x: UseAlias| x@) =~= prefix.push(uv));
                        match spec_imports_to_uses(bv, i + 1) {
                            Ok(rest) => {
                                assert(prefix.push(uv) + rest =~= prefix + (seq![uv] + rest));
                            },
                            Err(e) => {},
                        }
                    }
                } else {
                    proof {
                        assert(leaves_view(leaves@).len() == leaves@.len());
                    }
                }
            },
            ModuleItemF::ExportDefaultExprItem { ident } => {
                match ident {
                    Option::None => {
                        return Err(LowerError::DefaultExportExpr);
                    },
                    Option::Some(n) => {
                        let mut prefv: Vec<PathSeg> = Vec::new();
                        prefv.push(PathSeg::SelfScope);
                        let leaf = UseLeaf {
                            name: sanitize_sym(n.as_str()),
                            rename: Option::Some(lit_string("default")),
                        };
                        let ghost lv = leaf@;
                        let mut ls: Vec<UseLeaf> = Vec::new();
                        ls.push(leaf);
                        let u = UseAlias { prefix: prefv, leaves: ls };
                        let ghost uv = u@;
                        proof {
                            assert(view_segs(u.prefix@) =~= seq![PathSegV::SelfScope]);
                            assert(leaves_view(u.leaves@) =~= seq![lv]);
                        }
                        out.push(u);
                        proof {
                            assert(out@.map(|k: int, x: UseAlias| x@) =~= prefix.push(uv));
                            match spec_imports_to_uses(bv, i + 1) {
                                Ok(rest) => {
                                    assert(prefix.push(uv) + rest =~= prefix + (seq![uv]
                                        + rest));
                                },
                                Err(e) => {},
                            }
                        }
                    },
                }
            },
            ModuleItemF::ExportNamedItem { specifiers, src } => {
                proof {
                    assert(bv[i as int] == ModuleItemFV::ExportNamedItem {
                        specifiers: specifiers@.map(|k: int, s: ExportSpec| export_spec_view(s)),
                        src: crate::decl::opt_str_view(*src),
                    });
                }
                proof {
                    assert forall|j: int| 0 <= j < specifiers@.len() implies
                        crate::decl::export_spec_wf(
                        #[trigger] export_spec_view(specifiers@[j]),
                    ) by {
                        let mv = specifiers@.map(|k: int, s: ExportSpec| export_spec_view(s));
                        assert(mv[j] == export_spec_view(specifiers@[j]));
                        assert(crate::decl::export_spec_wf(mv[j]));
                    }
                }
                let m = export_leaves(specifiers);
                let leaves = match m {
                    Ok(ls) => ls,
                    Err(e) => {
                        return Err(e);
                    },
                };
                proof {
                    assert(leaves_view(leaves@).len() == leaves@.len());
                }
                if leaves.len() == 0 {
                    return Err(LowerError::EmptyExportSpecifiers);
                }
                let pref: Vec<PathSeg> = match src {
                    Option::Some(p) => import_prefix_to_idents(p.as_str()),
                    Option::None => {
                        let mut v: Vec<PathSeg> = Vec::new();
                        v.push(PathSeg::SelfScope);
                        proof {
                            assert(view_segs(v@) =~= seq![PathSegV::SelfScope]);
                        }
                        v
                    },
                };
                let u = UseAlias { prefix: pref, leaves };
                let ghost uv = u@;
                out.push(u);
                proof {
                    assert(out@.map(|k: int, x: UseAlias| x@) =~= prefix.push(uv));
                    match spec_imports_to_uses(bv, i + 1) {
                        Ok(rest) => {
                            assert(prefix.push(uv) + rest =~= prefix + (seq![uv] + rest));
                        },
                        Err(e) => {},
                    }
                }
            },
            _ => {},
        }
        i = i + 1;
    }
    proof {
        assert(spec_imports_to_uses(bv, i as int) == Ok::<Seq<UseAliasV>, LowerError>(
            Seq::<UseAliasV>::empty(),
        ));
        assert(out@.map(|k: int, u: UseAlias| u@) + Seq::<UseAliasV>::empty() =~= out@.map(
            |k: int, u: UseAlias| u@,
        ));
    }
    Ok(out)
}

// ---------------------------------------------------------------------------
// Namespace routing.
// ---------------------------------------------------------------------------

/// One namespace segment prepended to a binding's lookup path.
pub open spec fn spec_apply_ns_binding(seg: Seq<char>, b: crate::item::BindingItemV) -> crate::item::BindingItemV {
    match b {
        crate::item::BindingItemV::Func(f) => crate::item::BindingItemV::Func(
            crate::item::ItemFnV { ns: seq![seg] + f.ns, ..f },
        ),
        crate::item::BindingItemV::Static(s) => crate::item::BindingItemV::Static(
            crate::item::ItemStaticV { ns: seq![seg] + s.ns, ..s },
        ),
        crate::item::BindingItemV::Opaque(o) => crate::item::BindingItemV::Opaque(
            crate::item::ItemOpaqueV { ns: seq![seg] + o.ns, ..o },
        ),
    }
}

pub open spec fn spec_apply_ns_target(seg: Seq<char>, t: TargetItemV) -> TargetItemV
    decreases t, 1int,
{
    match t {
        TargetItemV::ForeignMod(items) => TargetItemV::ForeignMod(
            Seq::new(items.len(), |i: int| spec_apply_ns_binding(seg, items[i])),
        ),
        TargetItemV::Mod { name, items } => TargetItemV::Mod {
            name,
            items: spec_apply_ns_targets(seg, items),
        },
        other => other,
    }
}

pub open spec fn spec_apply_ns_targets(seg: Seq<char>, ts: Seq<TargetItemV>) -> Seq<TargetItemV>
    decreases ts, 0int,
{
    if ts.len() == 0 {
        Seq::empty()
    } else {
        seq![spec_apply_ns_target(seg, ts[0])] + spec_apply_ns_targets(
            seg,
            ts.subrange(1, ts.len() as int),
        )
    }
}

pub broadcast proof fn lemma_spec_apply_ns_targets(seg: Seq<char>, ts: Seq<TargetItemV>)
    ensures
        (#[trigger] spec_apply_ns_targets(seg, ts)).len() == ts.len(),
        forall|i: int| 0 <= i < ts.len() ==> spec_apply_ns_targets(seg, ts)[i]
            == spec_apply_ns_target(seg, ts[i]),
    decreases ts.len(),
{
    if ts.len() > 0 {
        lemma_spec_apply_ns_targets(seg, ts.subrange(1, ts.len() as int));
    }
}

fn apply_ns_binding(seg: &String, b: &crate::item::BindingItem) -> (r: crate::item::BindingItem)
    ensures
        r@ == spec_apply_ns_binding(seg@, b@),
{
    match b {
        crate::item::BindingItem::Func(f) => {
            let mut ns: Vec<String> = Vec::new();
            ns.push(seg.clone());
            let mut rest = crate::ty::clone_strings(&f.ns);
            ns.append(&mut rest);
            proof {
                assert(crate::ty::view_strings(ns@) =~= seq![seg@] + crate::ty::view_strings(
                    f.ns@,
                ));
            }
            let out = crate::item::ItemFn {
                name: f.name.clone(),
                js_name: crate::item::clone_opt_string(&f.js_name),
                attrs: crate::item::clone_attrs(&f.attrs),
                params: crate::abi::clone_params(&f.params),
                ret: match &f.ret {
                    Option::Some(t) => Option::Some(crate::abi::clone_type_here(t)),
                    Option::None => Option::None,
                },
                ns,
            };
            proof {
                assert(out@ == spec_apply_ns_binding(seg@, b@)->Func_0);
            }
            crate::item::BindingItem::Func(out)
        },
        crate::item::BindingItem::Static(s) => {
            let mut ns: Vec<String> = Vec::new();
            ns.push(seg.clone());
            let mut rest = crate::ty::clone_strings(&s.ns);
            ns.append(&mut rest);
            proof {
                assert(crate::ty::view_strings(ns@) =~= seq![seg@] + crate::ty::view_strings(
                    s.ns@,
                ));
            }
            crate::item::BindingItem::Static(
                crate::item::ItemStatic {
                    name: s.name.clone(),
                    js_name: crate::item::clone_opt_string(&s.js_name),
                    ty: crate::abi::clone_type_here(&s.ty),
                    ns,
                },
            )
        },
        crate::item::BindingItem::Opaque(o) => {
            let mut ns: Vec<String> = Vec::new();
            ns.push(seg.clone());
            let mut rest = crate::ty::clone_strings(&o.ns);
            ns.append(&mut rest);
            proof {
                assert(crate::ty::view_strings(ns@) =~= seq![seg@] + crate::ty::view_strings(
                    o.ns@,
                ));
            }
            crate::item::BindingItem::Opaque(
                crate::item::ItemOpaque {
                    name: o.name.clone(),
                    js_name: crate::item::clone_opt_string(&o.js_name),
                    extends: crate::item::clone_opt_string(&o.extends),
                    ns,
                },
            )
        },
    }
}

/// Tags every binding of the composed items with the namespace segment,
/// prepended to its lookup path.
fn apply_ns_targets(seg: &String, items: &Vec<TargetItem>) -> (r: Vec<TargetItem>)
    ensures
        targets_view(r@) == spec_apply_ns_targets(seg@, targets_view(items@)),
    decreases *items,
{
    broadcast use lemma_spec_apply_ns_targets;

    let mut out: Vec<TargetItem> = Vec::new();
    let mut i: usize = 0;
    while i < items.len()
        invariant
            i <= items@.len(),
            out@.len() == i,
            forall|j: int| 0 <= j < i ==> targets_view(out@)[j] == spec_apply_ns_target(
                seg@,
                targets_view(items@)[j],
            ),
        decreases items@.len() - i,
    {
        let c = apply_ns_target(seg, &items[i]);
        let ghost prev = out@;
        out.push(c);
        i = i + 1;
        proof {
            assert forall|j: int| 0 <= j < i implies targets_view(out@)[j] == spec_apply_ns_target(
                seg@,
                targets_view(items@)[j],
            ) by {
                assert(targets_view(out@)[j] == crate::item::target_view(out@[j]));
                if j < i - 1 {
                    assert(out@[j] == prev[j]);
                    assert(targets_view(prev)[j] == crate::item::target_view(prev[j]));
                } else {
                    assert(out@[j] == c);
                }
            }
        }
    }
    proof {
        assert(targets_view(out@) =~= spec_apply_ns_targets(seg@, targets_view(items@)));
    }
    out
}

fn apply_ns_target(seg: &String, t: &TargetItem) -> (r: TargetItem)
    ensures
        crate::item::target_view(r) == spec_apply_ns_target(seg@, crate::item::target_view(*t)),
    decreases *t,
{
    match t {
        TargetItem::ForeignMod(items) => {
            let mut out: Vec<crate::item::BindingItem> = Vec::new();
            let mut i: usize = 0;
            while i < items.len()
                invariant
                    i <= items@.len(),
                    out@.len() == i,
                    forall|j: int| 0 <= j < i ==> crate::item::bindings_view(out@)[j]
                        == spec_apply_ns_binding(seg@, crate::item::bindings_view(items@)[j]),
                decreases items@.len() - i,
            {
                let c = apply_ns_binding(seg, &items[i]);
                let ghost cv = c@;
                let ghost prev = out@;
                out.push(c);
                i = i + 1;
                proof {
                    assert(crate::item::bindings_view(items@)[i - 1] == items@[i - 1]@);
                    assert forall|j: int| 0 <= j < i implies crate::item::bindings_view(out@)[j]
                        == spec_apply_ns_binding(
                        seg@,
                        crate::item::bindings_view(items@)[j],
                    ) by {
                        assert(crate::item::bindings_view(out@)[j] == out@[j]@);
                        if j < i - 1 {
                            assert(out@[j] == prev[j]);
                            assert(crate::item::bindings_view(prev)[j] == prev[j]@);
                        } else {
                            assert(out@[j] == c);
                        }
                    }
                }
            }
            proof {
                assert(crate::item::bindings_view(out@) =~= Seq::new(
                    crate::item::bindings_view(items@).len(),
                    |i: int| spec_apply_ns_binding(seg@, crate::item::bindings_view(items@)[i]),
                ));
            }
            TargetItem::ForeignMod(out)
        },
        TargetItem::Mod { name, items } => TargetItem::Mod {
            name: name.clone(),
            items: apply_ns_targets(seg, items),
        },
        TargetItem::UsePrelude => TargetItem::UsePrelude,
        TargetItem::UseSuperGlob => TargetItem::UseSuperGlob,
        TargetItem::UseAlias(u) => TargetItem::UseAlias(crate::item::clone_use_alias(u)),
        TargetItem::SysUse(su) => TargetItem::SysUse(crate::item::clone_sys_use(su)),
    }
}

// ---------------------------------------------------------------------------
// The module / namespace composer.
// ---------------------------------------------------------------------------

/// The state the composer accumulates over one source unit: the foreign
/// items lowered so far, the nested scopes discovered, the trailing default
/// export, the recorded unexported declarations, and any enclosing
/// namespace export.
#[verifier::ext_equal]
pub struct MabStateV {
    pub fitems: Seq<crate::item::BindingItemV>,
    pub mods: Seq<TargetItemV>,
    pub dflt: Option<Seq<char>>,
    pub declared: Seq<(Seq<char>, crate::decl::ForeignDeclV)>,
    pub enclosing: Option<Seq<char>>,
}

pub open spec fn mab_state0() -> MabStateV {
    MabStateV {
        fitems: Seq::empty(),
        mods: Seq::empty(),
        dflt: Option::None,
        declared: Seq::empty(),
        enclosing: Option::None,
    }
}

/// One recorded unexported declaration: its raw name and its position in
/// the unit.
pub struct DeclEntry {
    pub key: String,
    pub idx: usize,
}

/// The recorded declarations, as the composer's model sees them.
pub open spec fn declared_view(ds: Seq<DeclEntry>, bv: Seq<ModuleItemFV>) -> Seq<
    (Seq<char>, crate::decl::ForeignDeclV),
> {
    Seq::new(ds.len(), |j: int| (ds[j].key@, bv[ds[j].idx as int]->StmtDeclItem_0))
}

/// The recorded entries all point at recorded statement declarations.
pub open spec fn declared_ok(ds: Seq<DeclEntry>, bv: Seq<ModuleItemFV>) -> bool {
    forall|j: int|
        0 <= j < ds.len() ==> (#[trigger] ds[j]).idx < bv.len() && bv[ds[j].idx as int]
            is StmtDeclItem && crate::decl::spec_decl_ident(bv[ds[j].idx as int]->StmtDeclItem_0)
            == Option::Some(ds[j].key@)
}

/// The composer's state, as its model sees it.
pub open spec fn mk_state(
    fitems: Seq<crate::item::BindingItem>,
    mods: Seq<TargetItem>,
    dflt: Option<String>,
    ds: Seq<DeclEntry>,
    enclosing: Option<String>,
    bv: Seq<ModuleItemFV>,
) -> MabStateV {
    MabStateV {
        fitems: crate::item::bindings_view(fitems),
        mods: targets_view(mods),
        dflt: crate::decl::opt_str_view(dflt),
        declared: declared_view(ds, bv),
        enclosing: crate::decl::opt_str_view(enclosing),
    }
}


/// The last-recorded declaration under a raw name.
pub open spec fn declared_lookup(
    ds: Seq<(Seq<char>, crate::decl::ForeignDeclV)>,
    n: Seq<char>,
) -> Option<crate::decl::ForeignDeclV>
    decreases ds.len(),
{
    if ds.len() == 0 {
        Option::None
    } else if ds.last().0 == n {
        Option::Some(ds.last().1)
    } else {
        declared_lookup(ds.drop_last(), n)
    }
}

/// The composer's walk over the unit's items from position `i` on. At the
/// top level (no namespace), plain statement declarations are only
/// recorded, for default-export resolution; inside a namespace everything
/// is lowered as if exported.
pub open spec fn spec_mab_fold(
    items: Seq<ModuleItemFV>,
    i: int,
    ns: Option<Seq<char>>,
    st: MabStateV,
) -> (Result<MabStateV, LowerError>, Seq<DiagV>)
    decreases items, 1int, items.len() - i,
{
    if i < 0 || i >= items.len() {
        (Ok(st), Seq::empty())
    } else {
        match items[i] {
            ModuleItemFV::StmtDeclItem(d) => {
                if ns is None {
                    let st1 = match crate::decl::spec_decl_ident(d) {
                        Option::Some(n) => MabStateV { declared: st.declared.push((n, d)), ..st },
                        Option::None => st,
                    };
                    spec_mab_fold(items, i + 1, ns, st1)
                } else {
                    let (hr, hd) = spec_handle_decl(d);
                    match hr {
                        Err(e) => (Err(e), hd),
                        Ok(bm) => {
                            let st1 = MabStateV {
                                fitems: st.fitems + bm.0,
                                mods: st.mods + bm.1,
                                ..st
                            };
                            let (rr, rd) = spec_mab_fold(items, i + 1, ns, st1);
                            (rr, hd + rd)
                        },
                    }
                }
            },
            ModuleItemFV::ExportDeclItem(d) => {
                let (hr, hd) = spec_handle_decl(d);
                match hr {
                    Err(e) => (Err(e), hd),
                    Ok(bm) => {
                        let st1 = MabStateV {
                            fitems: st.fitems + bm.0,
                            mods: st.mods + bm.1,
                            ..st
                        };
                        let (rr, rd) = spec_mab_fold(items, i + 1, ns, st1);
                        (rr, hd + rd)
                    },
                }
            },
            ModuleItemFV::ExportDefaultExprItem { ident } => {
                if ns is None {
                    spec_mab_fold(items, i + 1, ns, MabStateV { dflt: ident, ..st })
                } else {
                    spec_mab_fold(items, i + 1, ns, st)
                }
            },
            ModuleItemFV::TsNamespaceExportItem { name } => {
                spec_mab_fold(items, i + 1, ns, MabStateV { enclosing: Option::Some(name), ..st })
            },
            ModuleItemFV::OtherStmt => {
                let (rr, rd) = spec_mab_fold(items, i + 1, ns, st);
                (rr, seq![DiagV::NonDeclStatement] + rd)
            },
            _ => spec_mab_fold(items, i + 1, ns, st),
        }
    }
}

/// What one source unit composes to: its nested scopes, then (if any
/// foreign items were produced) the scope opener and one attributed
/// foreign block with collisions resolved, the whole routed under the
/// namespace segment or the enclosing namespace export, if either is
/// there.
pub open spec fn spec_module_as_binding(items: Seq<ModuleItemFV>, ns: Option<Seq<char>>) -> (
    Result<Seq<TargetItemV>, LowerError>,
    Seq<DiagV>,
)
    decreases items, 2int, 0int,
{
    let (fr, fd) = spec_mab_fold(items, 0, ns, mab_state0());
    match fr {
        Err(e) => (Err(e), fd),
        Ok(st) => {
            let resolved = match st.dflt {
                Option::Some(n) => declared_lookup(st.declared, n),
                Option::None => Option::None,
            };
            let (fr2, dd) = match resolved {
                Option::Some(d) => {
                    let (ir, id) = crate::decl::spec_decl_to_items(d);
                    match ir {
                        Err(e) => (Err(e), id),
                        Ok(bs) => (Ok(st.fitems + bs), id),
                    }
                },
                Option::None => (Ok(st.fitems), Seq::empty()),
            };
            match fr2 {
                Err(e) => (Err(e), fd + dd),
                Ok(fitems2) => {
                    let deduped = crate::collide::spec_collide_items(fitems2);
                    let blocks: Seq<TargetItemV> = if fitems2.len() > 0 {
                        seq![
                            if ns is Some {
                                TargetItemV::UseSuperGlob
                            } else {
                                TargetItemV::UsePrelude
                            },
                            TargetItemV::ForeignMod(deduped),
                        ]
                    } else {
                        Seq::empty()
                    };
                    let all = st.mods + blocks;
                    let ns_eff: Option<Seq<char>> = if ns is Some {
                        ns
                    } else {
                        st.enclosing
                    };
                    let routed = match ns_eff {
                        Option::Some(seg) => spec_apply_ns_targets(seg, all),
                        Option::None => all,
                    };
                    (Ok(routed), fd + dd)
                },
            }
        },
    }
}

/// What an ambient namespace or module declaration composes to: a nested
/// scope holding its composed body, or nothing for a bodiless or aliasing
/// namespace.
pub open spec fn spec_ts_module(m: crate::decl::TsModuleShapeV) -> (Result<
    Option<TargetItemV>,
    LowerError,
>, Seq<DiagV>)
    decreases m, 3int, 0int,
{
    match m.body {
        Option::None => (Ok(Option::None), Seq::empty()),
        Option::Some(crate::decl::ModuleBodyV::NamespaceAlias) => (
            Ok(Option::None),
            seq![DiagV::NamespaceAlias { name: spec_sanitize(m.name) }],
        ),
        Option::Some(crate::decl::ModuleBodyV::Block(body)) => {
            let (rr, rd) = spec_module_as_binding(body, Option::Some(m.name));
            match rr {
                Err(e) => (Err(e), rd),
                Ok(ts) => (
                    Ok(
                        Option::Some(
                            TargetItemV::Mod {
                                name: spec_sanitize(m.name) + "Mod"@,
                                items: ts,
                            },
                        ),
                    ),
                    rd,
                ),
            }
        },
    }
}


/// What one lowered declaration contributes to the composer's state: new
/// foreign items, possibly a nested scope, and diagnostics.
pub open spec fn spec_handle_decl(d: crate::decl::ForeignDeclV) -> (Result<
    (Seq<crate::item::BindingItemV>, Seq<TargetItemV>),
    LowerError,
>, Seq<DiagV>)
    decreases d, 0int, 0int,
{
    match d {
        crate::decl::ForeignDeclV::ModuleDecl(tsm) => {
            let (mr, md) = spec_ts_module(tsm);
            match mr {
                Err(e) => (Err(e), md),
                Ok(opt) => (
                    Ok(
                        (
                            Seq::empty(),
                            match opt {
                                Option::Some(t) => seq![t],
                                Option::None => Seq::empty(),
                            },
                        ),
                    ),
                    md,
                ),
            }
        },
        _ => {
            let (ir, id) = crate::decl::spec_decl_to_items(d);
            match ir {
                Err(e) => (Err(e), id),
                Ok(bs) => (Ok((bs, Seq::empty())), id),
            }
        },
    }
}

// ---------------------------------------------------------------------------
// The export-name collector.
// ---------------------------------------------------------------------------

/// The name one binding item exports.
pub open spec fn spec_item_pub_name(b: crate::item::BindingItemV) -> Seq<char> {
    match b {
        crate::item::BindingItemV::Opaque(o) => o.name,
        crate::item::BindingItemV::Func(f) => f.name,
        crate::item::BindingItemV::Static(s) => s.name,
    }
}

/// The name one re-export leaf brings into scope: its rename where it has
/// one, its own name otherwise.
pub open spec fn spec_leaf_pub_name(l: UseLeafV) -> Seq<char> {
    match l.rename {
        Option::Some(r) => r,
        Option::None => l.name,
    }
}

pub open spec fn spec_leaves_pub_names(ls: Seq<UseLeafV>) -> Seq<Seq<char>> {
    Seq::new(ls.len(), |i: int| spec_leaf_pub_name(ls[i]))
}

/// The names one composed item exports: the attribute-machinery import
/// brings its own crate name into scope, a re-export alias its leaves, a
/// synthesized import its type, a foreign block every binding, a nested
/// scope everything inside it.
pub open spec fn spec_collect_target(t: TargetItemV) -> Seq<Seq<char>>
    decreases t, 1int,
{
    match t {
        TargetItemV::UsePrelude => seq!["wasm_bindgen"@],
        TargetItemV::UseSuperGlob => Seq::empty(),
        TargetItemV::UseAlias(u) => spec_leaves_pub_names(u.leaves),
        TargetItemV::SysUse(su) => seq![su.name],
        TargetItemV::ForeignMod(items) => Seq::new(
            items.len(),
            |i: int| spec_item_pub_name(items[i]),
        ),
        TargetItemV::Mod { name, items } => spec_collect_from(items, 0),
    }
}

pub open spec fn spec_collect_from(ts: Seq<TargetItemV>, i: int) -> Seq<Seq<char>>
    decreases ts, 0int, ts.len() - i,
{
    if i < 0 || i >= ts.len() {
        Seq::empty()
    } else {
        spec_collect_target(ts[i]) + spec_collect_from(ts, i + 1)
    }
}

/// All the names a composed unit exports, in traversal order.
pub open spec fn spec_collect_pubs(ts: Seq<TargetItemV>) -> Seq<Seq<char>> {
    spec_collect_from(ts, 0)
}

fn collect_target(t: &TargetItem, out: &mut Vec<String>)
    ensures
        view_strings(final(out)@) == view_strings(old(out)@) + spec_collect_target(
            crate::item::target_view(*t),
        ),
    decreases *t, 1int,
{
    let ghost base = view_strings(out@);
    match t {
        TargetItem::UsePrelude => {
            out.push(lit_string("wasm_bindgen"));
            proof {
                assert(view_strings(out@) =~= base + seq!["wasm_bindgen"@]);
            }
        },
        TargetItem::UseSuperGlob => {
            proof {
                assert(view_strings(out@) =~= base + Seq::<Seq<char>>::empty());
            }
        },
        TargetItem::UseAlias(u) => {
            let mut i: usize = 0;
            while i < u.leaves.len()
                invariant
                    i <= u.leaves@.len(),
                    view_strings(out@) == base + spec_leaves_pub_names(
                        leaves_view(u.leaves@),
                    ).take(i as int),
                decreases u.leaves@.len() - i,
            {
                let ghost prev = view_strings(out@);
                let l = &u.leaves[i];
                proof {
                    assert(leaves_view(u.leaves@)[i as int] == u.leaves@[i as int]@);
                }
                let n = match &l.rename {
                    Option::Some(r) => r.clone(),
                    Option::None => l.name.clone(),
                };
                out.push(n);
                i = i + 1;
                proof {
                    assert(view_strings(out@) =~= prev.push(
                        spec_leaf_pub_name(leaves_view(u.leaves@)[i - 1]),
                    ));
                    assert(view_strings(out@) =~= base + spec_leaves_pub_names(
                        leaves_view(u.leaves@),
                    ).take(i as int));
                }
            }
            proof {
                assert(spec_leaves_pub_names(leaves_view(u.leaves@)).take(i as int)
                    =~= spec_leaves_pub_names(leaves_view(u.leaves@)));
            }
        },
        TargetItem::SysUse(su) => {
            out.push(su.name.clone());
            proof {
                assert(view_strings(out@) =~= base + seq![su.name@]);
            }
        },
        TargetItem::ForeignMod(items) => {
            let mut i: usize = 0;
            while i < items.len()
                invariant
                    i <= items@.len(),
                    view_strings(out@) == base + Seq::new(
                        crate::item::bindings_view(items@).len(),
                        |k: int| spec_item_pub_name(crate::item::bindings_view(items@)[k]),
                    ).take(i as int),
                decreases items@.len() - i,
            {
                let ghost prev = view_strings(out@);
                proof {
                    assert(crate::item::bindings_view(items@)[i as int] == items@[i as int]@);
                }
                let n = match &items[i] {
                    crate::item::BindingItem::Opaque(o) => o.name.clone(),
                    crate::item::BindingItem::Func(f) => f.name.clone(),
                    crate::item::BindingItem::Static(s) => s.name.clone(),
                };
                out.push(n);
                i = i + 1;
                proof {
                    assert(view_strings(out@) =~= prev.push(
                        spec_item_pub_name(crate::item::bindings_view(items@)[i - 1]),
                    ));
                    assert(view_strings(out@) =~= base + Seq::new(
                        crate::item::bindings_view(items@).len(),
                        |k: int| spec_item_pub_name(crate::item::bindings_view(items@)[k]),
                    ).take(i as int));
                }
            }
            proof {
                let names = Seq::new(
                    crate::item::bindings_view(items@).len(),
                    |k: int| spec_item_pub_name(crate::item::bindings_view(items@)[k]),
                );
                assert(names.take(i as int) =~= names);
            }
        },
        TargetItem::Mod { name, items } => {
            collect_targets_into(items, out);
        },
    }
}

fn collect_targets_into(ts: &Vec<TargetItem>, out: &mut Vec<String>)
    ensures
        view_strings(final(out)@) == view_strings(old(out)@) + spec_collect_from(
            targets_view(ts@),
            0,
        ),
    decreases *ts, 2int,
{
    let ghost base = view_strings(out@);
    let ghost tsv = targets_view(ts@);
    let mut i: usize = 0;
    proof {
        assert(base + Seq::<Seq<char>>::empty() =~= base);
    }
    while i < ts.len()
        invariant
            tsv == targets_view(ts@),
            i <= ts@.len(),
            spec_collect_from(tsv, 0) == (view_strings(out@).skip(base.len() as int))
                + spec_collect_from(tsv, i as int),
            view_strings(out@).take(base.len() as int) == base,
            view_strings(out@).len() >= base.len(),
        decreases ts@.len() - i,
    {
        let ghost prev = view_strings(out@);
        proof {
            assert(tsv[i as int] == crate::item::target_view(ts@[i as int]));
        }
        collect_target(&ts[i], out);
        i = i + 1;
        proof {
            assert(view_strings(out@) =~= prev + spec_collect_target(tsv[i - 1]));
            assert(view_strings(out@).take(base.len() as int) =~= base);
            assert(view_strings(out@).skip(base.len() as int) =~= prev.skip(base.len() as int)
                + spec_collect_target(tsv[i - 1]));
            assert((prev.skip(base.len() as int) + spec_collect_target(tsv[i - 1]))
                + spec_collect_from(tsv, i as int) =~= prev.skip(base.len() as int) + (
            spec_collect_target(tsv[i - 1]) + spec_collect_from(tsv, i as int)));
        }
    }
    proof {
        assert(spec_collect_from(tsv, i as int) =~= Seq::<Seq<char>>::empty());
        assert(view_strings(out@).skip(base.len() as int) + Seq::<Seq<char>>::empty()
            =~= view_strings(out@).skip(base.len() as int));
        assert(view_strings(out@) =~= base + view_strings(out@).skip(base.len() as int));
    }
}

/// Collects all the names exported by a composed unit, in traversal order.
pub fn collect_pubs(items: &Vec<TargetItem>) -> (r: Vec<String>)
    ensures
        view_strings(r@) == spec_collect_pubs(targets_view(items@)),
{
    let mut out: Vec<String> = Vec::new();
    proof {
        assert(view_strings(out@) =~= Seq::<Seq<char>>::empty());
    }
    collect_targets_into(items, &mut out);
    proof {
        assert(Seq::<Seq<char>>::empty() + spec_collect_pubs(targets_view(items@))
            =~= spec_collect_pubs(targets_view(items@)));
    }
    out
}

// ---------------------------------------------------------------------------
// The known-catalog import synthesizer.
// ---------------------------------------------------------------------------

/// The bare single-segment type names a signature type refers to, in
/// traversal order.
pub open spec fn ty_sys_names(t: TypeRepV) -> Seq<Seq<char>>
    decreases t, 0int,
{
    match t {
        TypeRepV::Path(segs) => if segs.len() == 1 {
            seq![segs[0]]
        } else {
            Seq::empty()
        },
        TypeRepV::Ref(i) => ty_sys_names(*i),
        TypeRepV::Opt(i) => ty_sys_names(*i),
        TypeRepV::BoxedSlice(i) => ty_sys_names(*i),
        TypeRepV::Tup(ts) => tys_sys_names(ts, 0),
        TypeRepV::Callable(ts, rt) => tys_sys_names(ts, 0) + (match rt {
            Option::Some(b) => ty_sys_names(*b),
            Option::None => Seq::empty(),
        }),
        _ => Seq::empty(),
    }
}

pub open spec fn tys_sys_names(ts: Seq<TypeRepV>, i: int) -> Seq<Seq<char>>
    decreases ts, 1int, ts.len() - i,
{
    if i < 0 || i >= ts.len() {
        Seq::empty()
    } else {
        ty_sys_names(ts[i]) + tys_sys_names(ts, i + 1)
    }
}

/// The bare type names one binding item refers to: its parameter and return
/// types, its static's type, or its recorded superclass.
pub open spec fn binding_sys_names(b: crate::item::BindingItemV) -> Seq<Seq<char>> {
    match b {
        crate::item::BindingItemV::Func(f) => params_sys_names(f.params, 0) + (match f.ret {
            Option::Some(t) => ty_sys_names(t),
            Option::None => Seq::empty(),
        }),
        crate::item::BindingItemV::Static(s) => ty_sys_names(s.ty),
        crate::item::BindingItemV::Opaque(o) => match o.extends {
            Option::Some(n) => seq![n],
            Option::None => Seq::empty(),
        },
    }
}

pub open spec fn params_sys_names(ps: Seq<crate::item::ParamV>, i: int) -> Seq<Seq<char>>
    decreases ps.len() - i,
{
    if i < 0 || i >= ps.len() {
        Seq::empty()
    } else {
        ty_sys_names(ps[i].ty) + params_sys_names(ps, i + 1)
    }
}

pub open spec fn target_sys_names(t: TargetItemV) -> Seq<Seq<char>>
    decreases t, 1int, 0int,
{
    match t {
        TargetItemV::ForeignMod(items) => bindings_sys_names(items, 0),
        TargetItemV::Mod { name, items } => targets_sys_from(items, 0),
        _ => Seq::empty(),
    }
}

pub open spec fn bindings_sys_names(items: Seq<crate::item::BindingItemV>, i: int) -> Seq<
    Seq<char>,
>
    decreases items, 0int, items.len() - i,
{
    if i < 0 || i >= items.len() {
        Seq::empty()
    } else {
        binding_sys_names(items[i]) + bindings_sys_names(items, i + 1)
    }
}

pub open spec fn targets_sys_from(ts: Seq<TargetItemV>, i: int) -> Seq<Seq<char>>
    decreases ts, 2int, ts.len() - i,
{
    if i < 0 || i >= ts.len() {
        Seq::empty()
    } else {
        target_sys_names(ts[i]) + targets_sys_from(ts, i + 1)
    }
}

pub open spec fn sys_uses_view(v: Seq<crate::item::SysUse>) -> Seq<crate::item::SysUseV> {
    v.map(|i: int, u: crate::item::SysUse| u@)
}

pub open spec fn push_absent(acc: Seq<crate::item::SysUseV>, u: crate::item::SysUseV) -> Seq<
    crate::item::SysUseV,
> {
    if acc.contains(u) {
        acc
    } else {
        acc.push(u)
    }
}

/// What one referenced name adds: nothing if the unit exports it itself or
/// no catalog knows it, else one synthesized import, at most once; the
/// document-library catalog takes precedence over the base-library catalog.
pub open spec fn spec_sys_step(
    n: Seq<char>,
    pubs: Seq<Seq<char>>,
    acc: Seq<crate::item::SysUseV>,
) -> Seq<crate::item::SysUseV> {
    if !pubs.contains(n) {
        if crate::catalog::known_web_type(n) {
            push_absent(acc, crate::item::SysUseV { lib: crate::item::SysCrate::WebSys, name: n })
        } else if crate::catalog::known_js_type(n) {
            push_absent(acc, crate::item::SysUseV { lib: crate::item::SysCrate::JsSys, name: n })
        } else {
            acc
        }
    } else {
        acc
    }
}

/// The synthesized imports for the referenced names from position `i` on.
pub open spec fn spec_sys_fold(
    names: Seq<Seq<char>>,
    pubs: Seq<Seq<char>>,
    i: int,
    acc: Seq<crate::item::SysUseV>,
) -> Seq<crate::item::SysUseV>
    decreases names.len() - i,
{
    if i < 0 || i >= names.len() {
        acc
    } else {
        spec_sys_fold(names, pubs, i + 1, spec_sys_step(names[i], pubs, acc))
    }
}

pub open spec fn spec_add_sys_uses(ts: Seq<TargetItemV>, pubs: Seq<Seq<char>>) -> Seq<
    crate::item::SysUseV,
> {
    spec_sys_fold(targets_sys_from(ts, 0), pubs, 0, Seq::empty())
}

fn ty_sys_into(t: &TypeRep, out: &mut Vec<String>)
    ensures
        view_strings(final(out)@) == view_strings(old(out)@) + ty_sys_names(
            crate::ty::ty_view(*t),
        ),
    decreases *t, 0int,
{
    let ghost base = view_strings(out@);
    match t {
        TypeRep::Path(segs) => {
            if segs.len() == 1 {
                proof {
                    assert(view_strings(segs@)[0] == segs@[0]@);
                }
                out.push(segs[0].clone());
                proof {
                    assert(view_strings(out@) =~= base + seq![segs@[0]@]);
                }
            } else {
                proof {
                    assert(view_strings(segs@).len() == segs@.len());
                    assert(view_strings(out@) =~= base + Seq::<Seq<char>>::empty());
                }
            }
        },
        TypeRep::Ref(i) => {
            ty_sys_into(i, out);
            proof {
                assert(crate::ty::ty_view(*t) == TypeRepV::Ref(
                    Box::new(crate::ty::ty_view(**i)),
                ));
            }
        },
        TypeRep::Opt(i) => {
            ty_sys_into(i, out);
            proof {
                assert(crate::ty::ty_view(*t) == TypeRepV::Opt(
                    Box::new(crate::ty::ty_view(**i)),
                ));
            }
        },
        TypeRep::BoxedSlice(i) => {
            ty_sys_into(i, out);
            proof {
                assert(crate::ty::ty_view(*t) == TypeRepV::BoxedSlice(
                    Box::new(crate::ty::ty_view(**i)),
                ));
            }
        },
        TypeRep::Tup(ts) => {
            tys_sys_into(ts, out);
            proof {
                assert(crate::ty::ty_view(*t) == TypeRepV::Tup(crate::ty::tys_view(ts@)));
            }
        },
        TypeRep::Callable(ts, rt) => {
            tys_sys_into(ts, out);
            match rt {
                Option::Some(b) => {
                    let ghost mid = view_strings(out@);
                    ty_sys_into(b, out);
                    proof {
                        assert(view_strings(out@) =~= (base + tys_sys_names(
                            crate::ty::tys_view(ts@),
                            0,
                        )) + ty_sys_names(crate::ty::ty_view(**b)));
                        assert(view_strings(out@) =~= base + (tys_sys_names(
                            crate::ty::tys_view(ts@),
                            0,
                        ) + ty_sys_names(crate::ty::ty_view(**b))));
                        assert(crate::ty::ty_view(*t) == TypeRepV::Callable(
                            crate::ty::tys_view(ts@),
                            crate::ty::opt_box_ty_view(*rt),
                        ));
                    }
                },
                Option::None => {
                    proof {
                        assert(crate::ty::ty_view(*t) == TypeRepV::Callable(
                            crate::ty::tys_view(ts@),
                            crate::ty::opt_box_ty_view(*rt),
                        ));
                        assert(tys_sys_names(crate::ty::tys_view(ts@), 0)
                            + Seq::<Seq<char>>::empty() =~= tys_sys_names(
                            crate::ty::tys_view(ts@),
                            0,
                        ));
                    }
                },
            }
        },
        TypeRep::Prim(p) => {
            proof {
                assert(view_strings(out@) =~= base + Seq::<Seq<char>>::empty());
            }
        },
        TypeRep::JsValue => {
            proof {
                assert(view_strings(out@) =~= base + Seq::<Seq<char>>::empty());
            }
        },
    }
}

fn tys_sys_into(ts: &Vec<TypeRep>, out: &mut Vec<String>)
    ensures
        view_strings(final(out)@) == view_strings(old(out)@) + tys_sys_names(
            crate::ty::tys_view(ts@),
            0,
        ),
    decreases *ts, 1int,
{
    broadcast use crate::ty::lemma_tys_view;

    let ghost base = view_strings(out@);
    let ghost tsv = crate::ty::tys_view(ts@);
    let mut i: usize = 0;
    proof {
        assert(base + Seq::<Seq<char>>::empty() =~= base);
    }
    while i < ts.len()
        invariant
            tsv == crate::ty::tys_view(ts@),
            i <= ts@.len(),
            tys_sys_names(tsv, 0) == (view_strings(out@).skip(base.len() as int))
                + tys_sys_names(tsv, i as int),
            view_strings(out@).take(base.len() as int) == base,
            view_strings(out@).len() >= base.len(),
        decreases ts@.len() - i,
    {
        let ghost prev = view_strings(out@);
        proof {
            crate::ty::lemma_tys_view(ts@);
            assert(tsv[i as int] == crate::ty::ty_view(ts@[i as int]));
        }
        ty_sys_into(&ts[i], out);
        i = i + 1;
        proof {
            assert(view_strings(out@) =~= prev + ty_sys_names(tsv[i - 1]));
            assert(view_strings(out@).take(base.len() as int) =~= base);
            assert(view_strings(out@).skip(base.len() as int) =~= prev.skip(base.len() as int)
                + ty_sys_names(tsv[i - 1]));
            assert((prev.skip(base.len() as int) + ty_sys_names(tsv[i - 1])) + tys_sys_names(
                tsv,
                i as int,
            ) =~= prev.skip(base.len() as int) + (ty_sys_names(tsv[i - 1]) + tys_sys_names(
                tsv,
                i as int,
            )));
        }
    }
    proof {
        assert(tys_sys_names(tsv, i as int) =~= Seq::<Seq<char>>::empty());
        assert(view_strings(out@).skip(base.len() as int) + Seq::<Seq<char>>::empty()
            =~= view_strings(out@).skip(base.len() as int));
        assert(view_strings(out@) =~= base + view_strings(out@).skip(base.len() as int));
    }
}

fn binding_sys_into(b: &crate::item::BindingItem, out: &mut Vec<String>)
    ensures
        view_strings(final(out)@) == view_strings(old(out)@) + binding_sys_names(b@),
{
    let ghost base = view_strings(out@);
    match b {
        crate::item::BindingItem::Func(f) => {
            let ghost psv = crate::item::params_view(f.params@);
            let mut i: usize = 0;
            proof {
                assert(base + Seq::<Seq<char>>::empty() =~= base);
            }
            while i < f.params.len()
                invariant
                    psv == crate::item::params_view(f.params@),
                    i <= f.params@.len(),
                    params_sys_names(psv, 0) == (view_strings(out@).skip(base.len() as int))
                        + params_sys_names(psv, i as int),
                    view_strings(out@).take(base.len() as int) == base,
                    view_strings(out@).len() >= base.len(),
                decreases f.params@.len() - i,
            {
                let ghost prev = view_strings(out@);
                proof {
                    assert(psv[i as int] == f.params@[i as int]@);
                }
                ty_sys_into(&f.params[i].ty, out);
                i = i + 1;
                proof {
                    assert(view_strings(out@) =~= prev + ty_sys_names(psv[i - 1].ty));
                    assert(view_strings(out@).take(base.len() as int) =~= base);
                    assert(view_strings(out@).skip(base.len() as int) =~= prev.skip(
                        base.len() as int,
                    ) + ty_sys_names(psv[i - 1].ty));
                    assert((prev.skip(base.len() as int) + ty_sys_names(psv[i - 1].ty))
                        + params_sys_names(psv, i as int) =~= prev.skip(base.len() as int) + (
                    ty_sys_names(psv[i - 1].ty) + params_sys_names(psv, i as int)));
                }
            }
            proof {
                assert(params_sys_names(psv, i as int) =~= Seq::<Seq<char>>::empty());
                assert(view_strings(out@).skip(base.len() as int) + Seq::<Seq<char>>::empty()
                    =~= view_strings(out@).skip(base.len() as int));
            }
            let ghost mid = view_strings(out@);
            match &f.ret {
                Option::Some(t) => {
                    ty_sys_into(t, out);
                    proof {
                        assert(view_strings(out@) =~= mid + ty_sys_names(
                            crate::ty::ty_view(*t),
                        ));
                    }
                },
                Option::None => {
                    proof {
                        assert(mid + Seq::<Seq<char>>::empty() =~= mid);
                    }
                },
            }
            proof {
                assert(mid =~= base + params_sys_names(psv, 0));
                assert(view_strings(out@) =~= base + binding_sys_names(b@));
            }
        },
        crate::item::BindingItem::Static(s) => {
            ty_sys_into(&s.ty, out);
        },
        crate::item::BindingItem::Opaque(o) => {
            match &o.extends {
                Option::Some(n) => {
                    out.push(n.clone());
                    proof {
                        assert(view_strings(out@) =~= base + seq![n@]);
                    }
                },
                Option::None => {
                    proof {
                        assert(view_strings(out@) =~= base + Seq::<Seq<char>>::empty());
                    }
                },
            }
        },
    }
}

fn target_sys_into(t: &TargetItem, out: &mut Vec<String>)
    ensures
        view_strings(final(out)@) == view_strings(old(out)@) + target_sys_names(
            crate::item::target_view(*t),
        ),
    decreases *t, 1int,
{
    let ghost base = view_strings(out@);
    match t {
        TargetItem::ForeignMod(items) => {
            let ghost isv = crate::item::bindings_view(items@);
            let mut i: usize = 0;
            proof {
                assert(base + Seq::<Seq<char>>::empty() =~= base);
            }
            while i < items.len()
                invariant
                    isv == crate::item::bindings_view(items@),
                    i <= items@.len(),
                    bindings_sys_names(isv, 0) == (view_strings(out@).skip(base.len() as int))
                        + bindings_sys_names(isv, i as int),
                    view_strings(out@).take(base.len() as int) == base,
                    view_strings(out@).len() >= base.len(),
                decreases items@.len() - i,
            {
                let ghost prev = view_strings(out@);
                proof {
                    assert(isv[i as int] == items@[i as int]@);
                }
                binding_sys_into(&items[i], out);
                i = i + 1;
                proof {
                    assert(view_strings(out@) =~= prev + binding_sys_names(isv[i - 1]));
                    assert(view_strings(out@).take(base.len() as int) =~= base);
                    assert(view_strings(out@).skip(base.len() as int) =~= prev.skip(
                        base.len() as int,
                    ) + binding_sys_names(isv[i - 1]));
                    assert((prev.skip(base.len() as int) + binding_sys_names(isv[i - 1]))
                        + bindings_sys_names(isv, i as int) =~= prev.skip(base.len() as int) + (
                    binding_sys_names(isv[i - 1]) + bindings_sys_names(isv, i as int)));
                }
            }
            proof {
                assert(bindings_sys_names(isv, i as int) =~= Seq::<Seq<char>>::empty());
                assert(view_strings(out@).skip(base.len() as int) + Seq::<Seq<char>>::empty()
                    =~= view_strings(out@).skip(base.len() as int));
                assert(view_strings(out@) =~= base + view_strings(out@).skip(
                    base.len() as int,
                ));
            }
        },
        TargetItem::Mod { name, items } => {
            targets_sys_into(items, out);
        },
        _ => {
            proof {
                assert(view_strings(out@) =~= base + Seq::<Seq<char>>::empty());
            }
        },
    }
}

fn targets_sys_into(ts: &Vec<TargetItem>, out: &mut Vec<String>)
    ensures
        view_strings(final(out)@) == view_strings(old(out)@) + targets_sys_from(
            targets_view(ts@),
            0,
        ),
    decreases *ts, 2int,
{
    let ghost base = view_strings(out@);
    let ghost tsv = targets_view(ts@);
    let mut i: usize = 0;
    proof {
        assert(base + Seq::<Seq<char>>::empty() =~= base);
    }
    while i < ts.len()
        invariant
            tsv == targets_view(ts@),
            i <= ts@.len(),
            targets_sys_from(tsv, 0) == (view_strings(out@).skip(base.len() as int))
                + targets_sys_from(tsv, i as int),
            view_strings(out@).take(base.len() as int) == base,
            view_strings(out@).len() >= base.len(),
        decreases ts@.len() - i,
    {
        let ghost prev = view_strings(out@);
        proof {
            assert(tsv[i as int] == crate::item::target_view(ts@[i as int]));
        }
        target_sys_into(&ts[i], out);
        i = i + 1;
        proof {
            assert(view_strings(out@) =~= prev + target_sys_names(tsv[i - 1]));
            assert(view_strings(out@).take(base.len() as int) =~= base);
            assert(view_strings(out@).skip(base.len() as int) =~= prev.skip(base.len() as int)
                + target_sys_names(tsv[i - 1]));
            assert((prev.skip(base.len() as int) + target_sys_names(tsv[i - 1]))
                + targets_sys_from(tsv, i as int) =~= prev.skip(base.len() as int) + (
            target_sys_names(tsv[i - 1]) + targets_sys_from(tsv, i as int)));
        }
    }
    proof {
        assert(targets_sys_from(tsv, i as int) =~= Seq::<Seq<char>>::empty());
        assert(view_strings(out@).skip(base.len() as int) + Seq::<Seq<char>>::empty()
            =~= view_strings(out@).skip(base.len() as int));
        assert(view_strings(out@) =~= base + view_strings(out@).skip(base.len() as int));
    }
}

fn contains_sys_use(v: &Vec<crate::item::SysUse>, lib: crate::item::SysCrate, n: &String) -> (r:
    bool)
    ensures
        r == sys_uses_view(v@).contains(crate::item::SysUseV { lib, name: n@ }),
{
    let mut i: usize = 0;
    while i < v.len()
        invariant
            i <= v@.len(),
            forall|j: int| 0 <= j < i ==> sys_uses_view(v@)[j] != (crate::item::SysUseV {
                lib,
                name: n@,
            }),
        decreases v@.len() - i,
    {
        proof {
            assert(sys_uses_view(v@)[i as int] == v@[i as int]@);
        }
        let e = &v[i];
        if e.lib == lib && str_eq(e.name.as_str(), n.as_str()) {
            return true;
        }
        i = i + 1;
    }
    false
}

/// Synthesizes the imports for every referenced known-catalog external type
/// the unit does not export itself, each once, in first-reference order.
pub fn add_sys_uses(items: &Vec<TargetItem>, pubs: &Vec<String>) -> (r: Vec<
    crate::item::SysUse,
>)
    ensures
        sys_uses_view(r@) == spec_add_sys_uses(targets_view(items@), view_strings(pubs@)),
{
    let mut names: Vec<String> = Vec::new();
    proof {
        assert(view_strings(names@) =~= Seq::<Seq<char>>::empty());
    }
    targets_sys_into(items, &mut names);
    let ghost nv = view_strings(names@);
    proof {
        assert(Seq::<Seq<char>>::empty() + targets_sys_from(targets_view(items@), 0)
            =~= targets_sys_from(targets_view(items@), 0));
        assert(nv == targets_sys_from(targets_view(items@), 0));
    }
    let ghost pv = view_strings(pubs@);
    let mut out: Vec<crate::item::SysUse> = Vec::new();
    let mut i: usize = 0;
    proof {
        assert(sys_uses_view(out@) =~= Seq::<crate::item::SysUseV>::empty());
    }
    while i < names.len()
        invariant
            nv == view_strings(names@),
            pv == view_strings(pubs@),
            i <= names@.len(),
            spec_sys_fold(nv, pv, 0, Seq::empty()) == spec_sys_fold(
                nv,
                pv,
                i as int,
                sys_uses_view(out@),
            ),
        decreases names@.len() - i,
    {
        proof {
            assert(nv[i as int] == names@[i as int]@);
        }
        sys_step(&names[i], pubs, &mut out);
        i = i + 1;
    }
    proof {
        assert(spec_sys_fold(nv, pv, i as int, sys_uses_view(out@)) == sys_uses_view(out@));
    }
    out
}

/// Applies one referenced name to the synthesized-import accumulator.
fn sys_step(n: &String, pubs: &Vec<String>, out: &mut Vec<crate::item::SysUse>)
    ensures
        sys_uses_view(final(out)@) == spec_sys_step(
            n@,
            view_strings(pubs@),
            sys_uses_view(old(out)@),
        ),
{
    let ghost acc = sys_uses_view(out@);
    let in_pubs = contains_pub(pubs, n);
    if !in_pubs {
        if crate::catalog::is_known_web_type(n.as_str()) {
            if !contains_sys_use(out, crate::item::SysCrate::WebSys, n) {
                let u = crate::item::SysUse {
                    lib: crate::item::SysCrate::WebSys,
                    name: n.clone(),
                };
                let ghost uv = u@;
                out.push(u);
                proof {
                    assert(sys_uses_view(out@) =~= acc.push(uv));
                    assert(sys_uses_view(out@) =~= push_absent(acc, uv));
                }
            } else {
                proof {
                    assert(sys_uses_view(out@) =~= push_absent(
                        acc,
                        crate::item::SysUseV {
                            lib: crate::item::SysCrate::WebSys,
                            name: n@,
                        },
                    ));
                }
            }
        } else if crate::catalog::is_known_js_type(n.as_str()) {
            if !contains_sys_use(out, crate::item::SysCrate::JsSys, n) {
                let u = crate::item::SysUse {
                    lib: crate::item::SysCrate::JsSys,
                    name: n.clone(),
                };
                let ghost uv = u@;
                out.push(u);
                proof {
                    assert(sys_uses_view(out@) =~= acc.push(uv));
                    assert(sys_uses_view(out@) =~= push_absent(acc, uv));
                }
            } else {
                proof {
                    assert(sys_uses_view(out@) =~= push_absent(
                        acc,
                        crate::item::SysUseV {
                            lib: crate::item::SysCrate::JsSys,
                            name: n@,
                        },
                    ));
                }
            }
        }
    }
}

fn contains_pub(pubs: &Vec<String>, s: &String) -> (r: bool)
    ensures
        r == view_strings(pubs@).contains(s@),
{
    let mut i: usize = 0;
    while i < pubs.len()
        invariant
            i <= pubs@.len(),
            forall|j: int| 0 <= j < i ==> view_strings(pubs@)[j] != s@,
        decreases pubs@.len() - i,
    {
        proof {
            assert(view_strings(pubs@)[i as int] == pubs@[i as int]@);
        }
        if str_eq(pubs[i].as_str(), s.as_str()) {
            return true;
        }
        i = i + 1;
    }
    false
}

} // verus!
