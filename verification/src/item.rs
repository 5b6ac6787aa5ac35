use vstd::prelude::*;

use crate::ty::{TypeRep, TypeRepV, ty_view, view_strings};
use crate::util::{PathSeg, PathSegV, view_segs};

verus! {

pub open spec fn opt_string_view(s: Option<String>) -> Option<Seq<char>> {
    match s {
        Option::Some(s0) => Option::Some(s0@),
        Option::None => Option::None,
    }
}

pub open spec fn opt_ty_view(t: Option<TypeRep>) -> Option<TypeRepV> {
    match t {
        Option::Some(t0) => Option::Some(ty_view(t0)),
        Option::None => Option::None,
    }
}

// ---------------------------------------------------------------------------
// Binding items: the emitted foreign-interface surface.
// ---------------------------------------------------------------------------

/// The calling-convention attributes of an emitted function binding.
#[derive(Debug)]
pub struct FnAttrs {
    /// A constructor of the owning type.
    pub ctor: bool,
    /// An instance method (also set on instance accessors).
    pub method: bool,
    /// A getter accessor.
    pub getter: bool,
    /// A setter accessor.
    pub setter: bool,
    /// The type this binding is a static member of, if any.
    pub static_of: Option<String>,
}

pub struct FnAttrsV {
    pub ctor: bool,
    pub method: bool,
    pub getter: bool,
    pub setter: bool,
    pub static_of: Option<Seq<char>>,
}

impl View for FnAttrs {
    type V = FnAttrsV;

    open spec fn view(&self) -> FnAttrsV {
        FnAttrsV {
            ctor: self.ctor,
            method: self.method,
            getter: self.getter,
            setter: self.setter,
            static_of: opt_string_view(self.static_of),
        }
    }
}

/// The attributes of an item that is none of constructor, method or static
/// member: a free function.
pub open spec fn free_fn_attrs() -> FnAttrsV {
    FnAttrsV { ctor: false, method: false, getter: false, setter: false, static_of: Option::None }
}

/// One parameter of an emitted function binding.
#[derive(Debug)]
pub struct Param {
    pub name: String,
    pub ty: TypeRep,
}

pub struct ParamV {
    pub name: Seq<char>,
    pub ty: TypeRepV,
}

impl View for Param {
    type V = ParamV;

    open spec fn view(&self) -> ParamV {
        ParamV { name: self.name@, ty: ty_view(self.ty) }
    }
}

pub open spec fn params_view(ps: Seq<Param>) -> Seq<ParamV> {
    ps.map(|i: int, p: Param| p@)
}

/// An emitted function binding.
#[derive(Debug)]
pub struct ItemFn {
    /// The sanitized, collision-resolved target name.
    pub name: String,
    /// The foreign declared name, where one is recorded.
    pub js_name: Option<String>,
    pub attrs: FnAttrs,
    pub params: Vec<Param>,
    /// The return type; absent for a void-returning function.
    pub ret: Option<TypeRep>,
    /// The namespace lookup path, outermost segment first.
    pub ns: Vec<String>,
}

pub struct ItemFnV {
    pub name: Seq<char>,
    pub js_name: Option<Seq<char>>,
    pub attrs: FnAttrsV,
    pub params: Seq<ParamV>,
    pub ret: Option<TypeRepV>,
    pub ns: Seq<Seq<char>>,
}

impl View for ItemFn {
    type V = ItemFnV;

    open spec fn view(&self) -> ItemFnV {
        ItemFnV {
            name: self.name@,
            js_name: opt_string_view(self.js_name),
            attrs: self.attrs@,
            params: params_view(self.params@),
            ret: opt_ty_view(self.ret),
            ns: view_strings(self.ns@),
        }
    }
}

/// An emitted static binding.
#[derive(Debug)]
pub struct ItemStatic {
    pub name: String,
    pub js_name: Option<String>,
    pub ty: TypeRep,
    pub ns: Vec<String>,
}

pub struct ItemStaticV {
    pub name: Seq<char>,
    pub js_name: Option<Seq<char>>,
    pub ty: TypeRepV,
    pub ns: Seq<Seq<char>>,
}

impl View for ItemStatic {
    type V = ItemStaticV;

    open spec fn view(&self) -> ItemStaticV {
        ItemStaticV {
            name: self.name@,
            js_name: opt_string_view(self.js_name),
            ty: ty_view(self.ty),
            ns: view_strings(self.ns@),
        }
    }
}

/// An emitted opaque type binding: a foreign class, interface or alias as an
/// opaque handle.
#[derive(Debug)]
pub struct ItemOpaque {
    pub name: String,
    pub js_name: Option<String>,
    /// The superclass, where the extends-relation could be recorded.
    pub extends: Option<String>,
    pub ns: Vec<String>,
}

pub struct ItemOpaqueV {
    pub name: Seq<char>,
    pub js_name: Option<Seq<char>>,
    pub extends: Option<Seq<char>>,
    pub ns: Seq<Seq<char>>,
}

impl View for ItemOpaque {
    type V = ItemOpaqueV;

    open spec fn view(&self) -> ItemOpaqueV {
        ItemOpaqueV {
            name: self.name@,
            js_name: opt_string_view(self.js_name),
            extends: opt_string_view(self.extends),
            ns: view_strings(self.ns@),
        }
    }
}

/// One emitted unit of foreign-interface surface.
#[derive(Debug)]
pub enum BindingItem {
    Opaque(ItemOpaque),
    Func(ItemFn),
    Static(ItemStatic),
}

pub enum BindingItemV {
    Opaque(ItemOpaqueV),
    Func(ItemFnV),
    Static(ItemStaticV),
}

impl View for BindingItem {
    type V = BindingItemV;

    open spec fn view(&self) -> BindingItemV {
        match self {
            BindingItem::Opaque(o) => BindingItemV::Opaque(o@),
            BindingItem::Func(f) => BindingItemV::Func(f@),
            BindingItem::Static(s) => BindingItemV::Static(s@),
        }
    }
}

pub open spec fn bindings_view(items: Seq<BindingItem>) -> Seq<BindingItemV> {
    items.map(|i: int, b: BindingItem| b@)
}

// ---------------------------------------------------------------------------
// Target items: the structured output tree of one composed source unit.
// ---------------------------------------------------------------------------

/// One leaf of a re-export alias: a name, possibly renamed.
#[derive(Debug)]
pub struct UseLeaf {
    pub name: String,
    pub rename: Option<String>,
}

pub struct UseLeafV {
    pub name: Seq<char>,
    pub rename: Option<Seq<char>>,
}

impl View for UseLeaf {
    type V = UseLeafV;

    open spec fn view(&self) -> UseLeafV {
        UseLeafV { name: self.name@, rename: opt_string_view(self.rename) }
    }
}

pub open spec fn leaves_view(ls: Seq<UseLeaf>) -> Seq<UseLeafV> {
    ls.map(|i: int, l: UseLeaf| l@)
}

/// A re-export alias statement: a scope path prefix and the imported leaves.
#[derive(Debug)]
pub struct UseAlias {
    pub prefix: Vec<PathSeg>,
    pub leaves: Vec<UseLeaf>,
}

pub struct UseAliasV {
    pub prefix: Seq<PathSegV>,
    pub leaves: Seq<UseLeafV>,
}

impl View for UseAlias {
    type V = UseAliasV;

    open spec fn view(&self) -> UseAliasV {
        UseAliasV { prefix: view_segs(self.prefix@), leaves: leaves_view(self.leaves@) }
    }
}

/// The known host binding library a synthesized import refers to.
#[derive(Debug, Clone, Copy, PartialEq, Eq, Structural)]
pub enum SysCrate {
    /// The library binding the document environment.
    WebSys,
    /// The library binding the base environment.
    JsSys,
}

/// A synthesized import of a known-catalog external type.
#[derive(Debug)]
pub struct SysUse {
    pub lib: SysCrate,
    pub name: String,
}

pub struct SysUseV {
    pub lib: SysCrate,
    pub name: Seq<char>,
}

impl View for SysUse {
    type V = SysUseV;

    open spec fn view(&self) -> SysUseV {
        SysUseV { lib: self.lib, name: self.name@ }
    }
}

/// One item of the structured output tree handed to the external printer.
#[derive(Debug)]
pub enum TargetItem {
    /// The import of the attribute machinery, opening a module-level binding
    /// scope.
    UsePrelude,
    /// The glob import of the enclosing scope, opening a namespace-level
    /// binding scope.
    UseSuperGlob,
    /// A re-export alias.
    UseAlias(UseAlias),
    /// A synthesized import of a known external type.
    SysUse(SysUse),
    /// An attributed foreign-interface block.
    ForeignMod(Vec<BindingItem>),
    /// A nested scope for an ambient namespace.
    Mod { name: String, items: Vec<TargetItem> },
}

pub enum TargetItemV {
    UsePrelude,
    UseSuperGlob,
    UseAlias(UseAliasV),
    SysUse(SysUseV),
    ForeignMod(Seq<BindingItemV>),
    Mod { name: Seq<char>, items: Seq<TargetItemV> },
}

pub open spec fn target_view(t: TargetItem) -> TargetItemV
    decreases t,
{
    match t {
        TargetItem::UsePrelude => TargetItemV::UsePrelude,
        TargetItem::UseSuperGlob => TargetItemV::UseSuperGlob,
        TargetItem::UseAlias(u) => TargetItemV::UseAlias(u@),
        TargetItem::SysUse(s) => TargetItemV::SysUse(s@),
        TargetItem::ForeignMod(items) => TargetItemV::ForeignMod(bindings_view(items@)),
        TargetItem::Mod { name, items } => TargetItemV::Mod {
            name: name@,
            items: targets_view(items@),
        },
    }
}

pub open spec fn targets_view(ts: Seq<TargetItem>) -> Seq<TargetItemV>
    decreases ts,
{
    if ts.len() == 0 {
        Seq::empty()
    } else {
        seq![target_view(ts[0])] + targets_view(ts.subrange(1, ts.len() as int))
    }
}

impl View for TargetItem {
    type V = TargetItemV;

    open spec fn view(&self) -> TargetItemV {
        target_view(*self)
    }
}

pub broadcast proof fn lemma_targets_view(ts: Seq<TargetItem>)
    ensures
        (#[trigger] targets_view(ts)).len() == ts.len(),
        forall|i: int| 0 <= i < ts.len() ==> targets_view(ts)[i] == target_view(ts[i]),
    decreases ts.len(),
{
    if ts.len() > 0 {
        lemma_targets_view(ts.subrange(1, ts.len() as int));
    }
}


// ---------------------------------------------------------------------------
// Fresh copies, with their views preserved.
// ---------------------------------------------------------------------------

pub fn clone_opt_string(o: &Option<String>) -> (r: Option<String>)
    ensures
        opt_string_view(r) == opt_string_view(*o),
{
    match o {
        Option::Some(s) => Option::Some(s.clone()),
        Option::None => Option::None,
    }
}

pub fn clone_attrs(a: &FnAttrs) -> (r: FnAttrs)
    ensures
        r@ == a@,
{
    FnAttrs {
        ctor: a.ctor,
        method: a.method,
        getter: a.getter,
        setter: a.setter,
        static_of: clone_opt_string(&a.static_of),
    }
}

pub fn clone_opaque(o: &ItemOpaque) -> (r: ItemOpaque)
    ensures
        r@ == o@,
{
    ItemOpaque {
        name: o.name.clone(),
        js_name: clone_opt_string(&o.js_name),
        extends: clone_opt_string(&o.extends),
        ns: crate::ty::clone_strings(&o.ns),
    }
}

pub fn clone_segs(v: &Vec<PathSeg>) -> (r: Vec<PathSeg>)
    ensures
        view_segs(r@) == view_segs(v@),
{
    let mut out: Vec<PathSeg> = Vec::new();
    let mut i: usize = 0;
    while i < v.len()
        invariant
            i <= v@.len(),
            out@.len() == i,
            forall|j: int| 0 <= j < i ==> view_segs(out@)[j] == view_segs(v@)[j],
        decreases v@.len() - i,
    {
        let c = match &v[i] {
            PathSeg::Up => PathSeg::Up,
            PathSeg::SelfScope => PathSeg::SelfScope,
            PathSeg::Named(n) => PathSeg::Named(n.clone()),
        };
        let ghost prev = out@;
        out.push(c);
        i = i + 1;
        proof {
            assert forall|j: int| 0 <= j < i implies view_segs(out@)[j] == view_segs(v@)[j] by {
                assert(view_segs(out@)[j] == out@[j]@);
                assert(view_segs(v@)[j] == v@[j]@);
                if j < i - 1 {
                    assert(out@[j] == prev[j]);
                    assert(view_segs(prev)[j] == prev[j]@);
                }
            }
        }
    }
    proof {
        assert(view_segs(out@) =~~= view_segs(v@));
    }
    out
}

pub fn clone_use_alias(u: &UseAlias) -> (r: UseAlias)
    ensures
        r@ == u@,
{
    let prefix = clone_segs(&u.prefix);
    let mut leaves: Vec<UseLeaf> = Vec::new();
    let mut i: usize = 0;
    while i < u.leaves.len()
        invariant
            i <= u.leaves@.len(),
            leaves@.len() == i,
            forall|j: int| 0 <= j < i ==> leaves_view(leaves@)[j] == leaves_view(u.leaves@)[j],
        decreases u.leaves@.len() - i,
    {
        let l = &u.leaves[i];
        let c = UseLeaf { name: l.name.clone(), rename: clone_opt_string(&l.rename) };
        let ghost prev = leaves@;
        leaves.push(c);
        i = i + 1;
        proof {
            assert forall|j: int| 0 <= j < i implies leaves_view(leaves@)[j] == leaves_view(
                u.leaves@,
            )[j] by {
                assert(leaves_view(leaves@)[j] == leaves@[j]@);
                assert(leaves_view(u.leaves@)[j] == u.leaves@[j]@);
                if j < i - 1 {
                    assert(leaves@[j] == prev[j]);
                    assert(leaves_view(prev)[j] == prev[j]@);
                }
            }
        }
    }
    let out = UseAlias { prefix, leaves };
    proof {
        assert(leaves_view(out.leaves@) =~~= leaves_view(u.leaves@));
        assert(out@ == u@);
    }
    out
}

pub fn clone_sys_use(su: &SysUse) -> (r: SysUse)
    ensures
        r@ == su@,
{
    SysUse { lib: su.lib, name: su.name.clone() }
}

} // verus!
