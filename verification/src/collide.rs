use vstd::prelude::*;

use crate::abi::clone_type_here;
use crate::item::{
    BindingItem, BindingItemV, ItemFn, ItemFnV, Param, ParamV, bindings_view, params_view,
};
use crate::ty::{TypeRep, TypeRepV, ty_view, view_strings};
use crate::util::{str_eq, suffixed_name, u128_to_dec, dec_digits, lemma_suffixed_name_injective,
    lemma_suffixed_name_ne_base};
use crate::wasm::{method_of, spec_method_of};

verus! {

broadcast use crate::ty::lemma_tys_view;

// ---------------------------------------------------------------------------
// The disambiguation registry.
// ---------------------------------------------------------------------------

/// The disambiguation scope of a binding: the free-function namespace, or a
/// specific owning type's path.
pub type OwnerV = Option<Seq<Seq<char>>>;

/// One registry entry: an owner and the names already taken under it.
pub struct OwnerNames {
    pub owner: Option<Vec<String>>,
    pub names: Vec<String>,
}

pub open spec fn owner_view(o: Option<Vec<String>>) -> OwnerV {
    match o {
        Option::Some(p) => Option::Some(view_strings(p@)),
        Option::None => Option::None,
    }
}

pub type RegV = Seq<(OwnerV, Seq<Seq<char>>)>;

pub open spec fn reg_view(reg: Seq<OwnerNames>) -> RegV {
    reg.map(|i: int, e: OwnerNames| (owner_view(e.owner), view_strings(e.names@)))
}

/// The names taken under an owner: those of its first registry entry.
pub open spec fn reg_lookup(reg: RegV, o: OwnerV) -> Seq<Seq<char>>
    decreases reg.len(),
{
    if reg.len() == 0 {
        Seq::empty()
    } else if reg[0].0 == o {
        reg[0].1
    } else {
        reg_lookup(reg.subrange(1, reg.len() as int), o)
    }
}

/// The registry with one more name taken under an owner.
pub open spec fn reg_insert(reg: RegV, o: OwnerV, n: Seq<char>) -> RegV
    decreases reg.len(),
{
    if reg.len() == 0 {
        seq![(o, seq![n])]
    } else if reg[0].0 == o {
        seq![(reg[0].0, reg[0].1.push(n))] + reg.subrange(1, reg.len() as int)
    } else {
        seq![reg[0]] + reg_insert(reg.subrange(1, reg.len() as int), o, n)
    }
}

pub open spec fn distinct_names(s: Seq<Seq<char>>) -> bool {
    forall|i: int, j: int| 0 <= i < j < s.len() ==> s[i] != s[j]
}

/// A well-formed registry: under every owner the taken names are pairwise
/// distinct.
pub open spec fn reg_wf(reg: RegV) -> bool {
    forall|o: OwnerV| distinct_names(#[trigger] reg_lookup(reg, o))
}

/// What an insert does to every lookup.
pub proof fn lemma_reg_insert(reg: RegV, o: OwnerV, n: Seq<char>)
    ensures
        reg_lookup(reg_insert(reg, o, n), o) == reg_lookup(reg, o).push(n),
        forall|o2: OwnerV| o2 != o ==> #[trigger] reg_lookup(reg_insert(reg, o, n), o2)
            == reg_lookup(reg, o2),
    decreases reg.len(),
{
    let reg1 = reg_insert(reg, o, n);
    if reg.len() == 0 {
        assert(reg1 == seq![(o, seq![n])]);
        assert(reg_lookup(reg1, o) == seq![n]);
        assert(reg_lookup(reg, o).push(n) =~~= seq![n]);
        assert forall|o2: OwnerV| o2 != o implies #[trigger] reg_lookup(reg1, o2) == reg_lookup(
            reg,
            o2,
        ) by {
            assert(reg_lookup(reg1, o2) == reg_lookup(reg1.subrange(1, 1), o2));
            assert(reg1.subrange(1, 1) =~~= Seq::<(OwnerV, Seq<Seq<char>>)>::empty());
        }
    } else if reg[0].0 == o {
        let rest = reg.subrange(1, reg.len() as int);
        assert(reg1 == seq![(reg[0].0, reg[0].1.push(n))] + rest);
        assert(reg1[0].0 == o);
        assert(reg_lookup(reg1, o) == reg[0].1.push(n));
        assert forall|o2: OwnerV| o2 != o implies #[trigger] reg_lookup(reg1, o2) == reg_lookup(
            reg,
            o2,
        ) by {
            assert(reg1.subrange(1, reg1.len() as int) =~~= rest);
        }
    } else {
        let rest = reg.subrange(1, reg.len() as int);
        lemma_reg_insert(rest, o, n);
        assert(reg1 == seq![reg[0]] + reg_insert(rest, o, n));
        assert(reg1[0] == reg[0]);
        assert(reg1.subrange(1, reg1.len() as int) =~~= reg_insert(rest, o, n));
        assert(reg_lookup(reg1, o) == reg_lookup(reg_insert(rest, o, n), o));
        assert forall|o2: OwnerV| o2 != o implies #[trigger] reg_lookup(reg1, o2) == reg_lookup(
            reg,
            o2,
        ) by {
            if reg[0].0 == o2 {
            } else {
                assert(reg_lookup(reg1, o2) == reg_lookup(reg_insert(rest, o, n), o2));
            }
        }
    }
}

// ---------------------------------------------------------------------------
// Picking the first free name.
// ---------------------------------------------------------------------------

/// The first counter whose suffixed name is not yet taken, within the given
/// fuel.
pub open spec fn first_free_ctr(used: Seq<Seq<char>>, base: Seq<char>, c: nat, fuel: nat) -> nat
    decreases fuel,
{
    if fuel == 0 {
        c
    } else if !used.contains(suffixed_name(base, c)) {
        c
    } else {
        first_free_ctr(used, base, (c + 1) as nat, (fuel - 1) as nat)
    }
}

/// The name an item ends with: its own if still free, else the first free
/// suffixed variant.
pub open spec fn pick_name(used: Seq<Seq<char>>, base: Seq<char>) -> Seq<char> {
    if !used.contains(base) {
        base
    } else {
        suffixed_name(base, first_free_ctr(used, base, 1, (used.len() + 1) as nat))
    }
}

/// With distinct taken names, the candidates seen before position `c` fill
/// distinct slots, so the scan never runs out of fuel: the picked name is
/// free.
proof fn lemma_ffc_free(used: Seq<Seq<char>>, base: Seq<char>, c: nat, fuel: nat)
    requires
        distinct_names(used),
        c >= 1,
        fuel + c == used.len() + 2,
        forall|j: nat| 1 <= j < c ==> used.contains(#[trigger] suffixed_name(base, j)),
    ensures
        !used.contains(suffixed_name(base, first_free_ctr(used, base, c, fuel))),
    decreases fuel,
{
    lemma_candidates_bound(used, base, c);
    assert(c <= used.len() + 1);
    assert(fuel >= 1);
    if !used.contains(suffixed_name(base, c)) {
    } else {
        lemma_ffc_free(used, base, (c + 1) as nat, (fuel - 1) as nat);
    }
}

/// Pigeonhole: the distinct suffixed candidates `1 .. c` all taken in a
/// duplicate-free list bound `c`.
proof fn lemma_candidates_bound(used: Seq<Seq<char>>, base: Seq<char>, c: nat)
    requires
        distinct_names(used),
        c >= 1,
        forall|j: nat| 1 <= j < c ==> used.contains(#[trigger] suffixed_name(base, j)),
    ensures
        c <= used.len() + 1,
{
    let cands = Seq::new((c - 1) as nat, |i: int| suffixed_name(base, (i + 1) as nat));
    assert forall|i: int, j: int| 0 <= i < j < cands.len() implies cands[i] != cands[j] by {
        if cands[i] == cands[j] {
            lemma_suffixed_name_injective(base, (i + 1) as nat, (j + 1) as nat);
        }
    }
    assert(cands.no_duplicates());
    cands.unique_seq_to_set();
    used.lemma_cardinality_of_set();
    assert forall|x: Seq<char>| cands.to_set().contains(x) implies used.to_set().contains(x) by {
        let i = choose|i: int| 0 <= i < cands.len() && cands[i] == x;
        assert(used.contains(cands[i]));
        let k = choose|k: int| 0 <= k < used.len() && used[k] == x;
    }
    assert(cands.to_set().subset_of(used.to_set()));
    vstd::set_lib::lemma_len_subset(cands.to_set(), used.to_set());
}

/// The picked name is free of the taken names.
pub proof fn lemma_pick_name_free(used: Seq<Seq<char>>, base: Seq<char>)
    requires
        distinct_names(used),
    ensures
        !used.contains(pick_name(used, base)),
{
    if used.contains(base) {
        assert(forall|j: nat| 1 <= j < 1 ==> used.contains(#[trigger] suffixed_name(base, j)));
        lemma_ffc_free(used, base, 1, (used.len() + 1) as nat);
    }
}

// ---------------------------------------------------------------------------
// The pass itself, one item at a time.
// ---------------------------------------------------------------------------

/// A bare self-reference, to be resolved to the owning type's concrete
/// name.
pub open spec fn is_self_path(t: TypeRepV) -> bool {
    t == TypeRepV::Path(seq!["Self"@])
}

pub open spec fn replace_self_top(cls: TypeRepV, t: TypeRepV) -> TypeRepV {
    if is_self_path(t) {
        cls
    } else {
        t
    }
}

/// Resolving self-references: where the first parameter is a reference to
/// the owning type, every whole parameter or return type that is a bare
/// self-reference becomes that type.
pub open spec fn spec_self_fix(f: ItemFnV) -> ItemFnV {
    if f.params.len() > 0 && f.params[0].ty matches TypeRepV::Ref(cls) {
        let c = *f.params[0].ty->Ref_0;
        ItemFnV {
            params: Seq::new(
                f.params.len(),
                |i: int| ParamV { name: f.params[i].name, ty: replace_self_top(c, f.params[i].ty) },
            ),
            ret: match f.ret {
                Option::Some(t) => Option::Some(replace_self_top(c, t)),
                Option::None => Option::None,
            },
            ..f
        }
    } else {
        f
    }
}

/// One step of collision resolution: self-references resolved, then the
/// sanitized name disambiguated under the item's owner. Opaque types take
/// no part.
pub open spec fn spec_collide_step(b: BindingItemV, reg: RegV) -> (BindingItemV, RegV) {
    match b {
        BindingItemV::Opaque(o) => (b, reg),
        BindingItemV::Func(f) => {
            let f1 = spec_self_fix(f);
            let owner = spec_method_of(f1);
            let used = reg_lookup(reg, owner);
            let n = pick_name(used, f1.name);
            (
                BindingItemV::Func(ItemFnV { name: n, ..f1 }),
                reg_insert(reg, owner, n),
            )
        },
        BindingItemV::Static(s) => {
            let used = reg_lookup(reg, Option::None);
            let n = pick_name(used, s.name);
            (
                BindingItemV::Static(crate::item::ItemStaticV { name: n, ..s }),
                reg_insert(reg, Option::None, n),
            )
        },
    }
}

/// The pass over the items from position `i` on.
pub open spec fn spec_collide_from(items: Seq<BindingItemV>, i: int, reg: RegV) -> (Seq<
    BindingItemV,
>, RegV)
    decreases items.len() - i,
{
    if i < 0 || i >= items.len() {
        (Seq::empty(), reg)
    } else {
        let (b, reg1) = spec_collide_step(items[i], reg);
        let (rest, reg2) = spec_collide_from(items, i + 1, reg1);
        (seq![b] + rest, reg2)
    }
}

/// The collision-resolution pass over one composed block's binding items.
pub open spec fn spec_collide_items(items: Seq<BindingItemV>) -> Seq<BindingItemV> {
    spec_collide_from(items, 0, Seq::empty()).0
}

// ---------------------------------------------------------------------------
// The collision invariant.
// ---------------------------------------------------------------------------

/// Whether the item takes part in disambiguation: functions and statics do,
/// opaque types do not.
pub open spec fn item_is_named(b: BindingItemV) -> bool {
    b is Func || b is Static
}

pub open spec fn item_name(b: BindingItemV) -> Seq<char> {
    match b {
        BindingItemV::Func(f) => f.name,
        BindingItemV::Static(s) => s.name,
        BindingItemV::Opaque(o) => o.name,
    }
}

/// The disambiguation scope of an item after the pass.
pub open spec fn item_owner(b: BindingItemV) -> OwnerV {
    match b {
        BindingItemV::Func(f) => spec_method_of(f),
        _ => Option::None,
    }
}

proof fn lemma_prefix_contains(pre: Seq<Seq<char>>, whole: Seq<Seq<char>>, x: Seq<char>)
    requires
        pre.is_prefix_of(whole),
        pre.contains(x),
    ensures
        whole.contains(x),
{
    let i = choose|i: int| 0 <= i < pre.len() && pre[i] == x;
    assert(whole[i] == x);
}

/// The inductive heart of the collision invariant: starting from any
/// well-formed registry, the pass keeps the registry well-formed, only adds
/// taken names, emits names fresh of the starting registry, and emits
/// pairwise-distinct names per owner.
proof fn lemma_collide_from_distinct(items: Seq<BindingItemV>, i: int, reg: RegV)
    requires
        reg_wf(reg),
        0 <= i <= items.len(),
    ensures
        ({
            let (out, regf) = spec_collide_from(items, i, reg);
            &&& out.len() == items.len() - i
            &&& reg_wf(regf)
            &&& forall|o: OwnerV| (#[trigger] reg_lookup(reg, o)).is_prefix_of(
                reg_lookup(regf, o),
            )
            &&& forall|k: int| 0 <= k < out.len() && item_is_named(#[trigger] out[k])
                ==> !reg_lookup(reg, item_owner(out[k])).contains(item_name(out[k]))
            &&& forall|k1: int, k2: int|
                0 <= k1 < k2 < out.len() && item_is_named(#[trigger] out[k1]) && item_is_named(
                    #[trigger] out[k2],
                ) && item_owner(out[k1]) == item_owner(out[k2]) ==> item_name(out[k1])
                    != item_name(out[k2])
        }),
    decreases items.len() - i,
{
    if i >= items.len() {
        let (out, regf) = spec_collide_from(items, i, reg);
        assert forall|o: OwnerV| (#[trigger] reg_lookup(reg, o)).is_prefix_of(
            reg_lookup(regf, o),
        ) by {
            assert(reg_lookup(reg, o) =~~= reg_lookup(regf, o));
        }
    } else {
        let b = items[i];
        let (b1, reg1) = spec_collide_step(b, reg);
        let (rest, regf) = spec_collide_from(items, i + 1, reg1);
        let (out, _) = spec_collide_from(items, i, reg);
        assert(out == seq![b1] + rest);
        match b {
            BindingItemV::Opaque(o) => {
                lemma_collide_from_distinct(items, i + 1, reg);
                assert(!item_is_named(b1));
            },
            _ => {
                let f1owner = item_owner(b1);
                let base = match b {
                    BindingItemV::Func(f) => spec_self_fix(f).name,
                    BindingItemV::Static(s) => s.name,
                    BindingItemV::Opaque(o) => o.name,
                };
                let owner = match b {
                    BindingItemV::Func(f) => spec_method_of(spec_self_fix(f)),
                    _ => Option::None,
                };
                let used = reg_lookup(reg, owner);
                let n1 = pick_name(used, base);
                assert(item_name(b1) == n1);
                assert(item_owner(b1) == owner) by {
                    match b {
                        BindingItemV::Func(f) => {
                            let f1 = spec_self_fix(f);
                            assert(b1 == BindingItemV::Func(ItemFnV { name: n1, ..f1 }));
                            let g = ItemFnV { name: n1, ..f1 };
                            assert(g.attrs == f1.attrs && g.ret == f1.ret && g.params
                                == f1.params);
                            assert(spec_method_of(g) == spec_method_of(f1));
                        },
                        _ => {},
                    }
                }
                assert(distinct_names(used));
                lemma_pick_name_free(used, base);
                assert(!used.contains(n1));
                lemma_reg_insert(reg, owner, n1);
                assert(reg1 == reg_insert(reg, owner, n1));
                assert(reg_lookup(reg1, owner) == used.push(n1));
                assert(reg_wf(reg1)) by {
                    assert forall|o: OwnerV| distinct_names(#[trigger] reg_lookup(reg1, o)) by {
                        if o == owner {
                            assert(distinct_names(reg_lookup(reg, o)));
                            let s = used.push(n1);
                            assert forall|a: int, c: int| 0 <= a < c < s.len() implies s[a]
                                != s[c] by {
                                if c == s.len() - 1 {
                                    assert(s[c] == n1);
                                    assert(s[a] == used[a]);
                                    assert(used.contains(used[a]));
                                } else {
                                    assert(s[a] == used[a] && s[c] == used[c]);
                                }
                            }
                        } else {
                            assert(reg_lookup(reg1, o) == reg_lookup(reg, o));
                        }
                    }
                }
                lemma_collide_from_distinct(items, i + 1, reg1);
                assert forall|o: OwnerV| (#[trigger] reg_lookup(reg, o)).is_prefix_of(
                    reg_lookup(regf, o),
                ) by {
                    assert(reg_lookup(reg1, o).is_prefix_of(reg_lookup(regf, o)));
                    if o == owner {
                        assert(reg_lookup(reg, o).is_prefix_of(reg_lookup(reg1, o)));
                    } else {
                        assert(reg_lookup(reg1, o) == reg_lookup(reg, o));
                    }
                    assert forall|q: int| 0 <= q < reg_lookup(reg, o).len() implies reg_lookup(
                        reg,
                        o,
                    )[q] == reg_lookup(regf, o)[q] by {
                        assert(reg_lookup(reg, o)[q] == reg_lookup(reg1, o)[q]);
                    }
                }
                assert forall|k: int| 0 <= k < out.len() && item_is_named(#[trigger] out[k])
                    implies !reg_lookup(reg, item_owner(out[k])).contains(
                    item_name(out[k]),
                ) by {
                    if k == 0 {
                        assert(out[0] == b1);
                    } else {
                        assert(out[k] == rest[k - 1]);
                        let ko = item_owner(out[k]);
                        assert(!reg_lookup(reg1, ko).contains(item_name(out[k])));
                        if reg_lookup(reg, ko).contains(item_name(out[k])) {
                            if ko == owner {
                                assert(reg_lookup(reg1, ko) == reg_lookup(reg, ko).push(n1));
                                let q = choose|q: int|
                                    0 <= q < reg_lookup(reg, ko).len() && reg_lookup(reg, ko)[q]
                                        == item_name(out[k]);
                                assert(reg_lookup(reg1, ko)[q] == item_name(out[k]));
                            } else {
                                assert(reg_lookup(reg1, ko) == reg_lookup(reg, ko));
                            }
                            assert(false);
                        }
                    }
                }
                assert forall|k1: int, k2: int|
                    0 <= k1 < k2 < out.len() && item_is_named(#[trigger] out[k1])
                        && item_is_named(#[trigger] out[k2]) && item_owner(out[k1]) == item_owner(
                        out[k2],
                    ) implies item_name(out[k1]) != item_name(out[k2]) by {
                    if k1 == 0 {
                        assert(out[0] == b1);
                        assert(out[k2] == rest[k2 - 1]);
                        if item_owner(out[k2]) == owner && item_name(out[k2]) == n1 {
                            assert(!reg_lookup(reg1, owner).contains(item_name(out[k2])));
                            assert(reg_lookup(reg1, owner) == used.push(n1));
                            assert(used.push(n1)[used.len() as int] == n1);
                            assert(reg_lookup(reg1, owner).contains(n1));
                            assert(false);
                        }
                    } else {
                        assert(out[k1] == rest[k1 - 1]);
                        assert(out[k2] == rest[k2 - 1]);
                    }
                }
            },
        }
    }
}

/// The collision invariant: after resolution, all function and static
/// bindings sharing an owner carry pairwise-distinct names.
pub proof fn lemma_collision_invariant(items: Seq<BindingItemV>)
    ensures
        ({
            let out = spec_collide_items(items);
            forall|k1: int, k2: int|
                0 <= k1 < k2 < out.len() && item_is_named(#[trigger] out[k1]) && item_is_named(
                    #[trigger] out[k2],
                ) && item_owner(out[k1]) == item_owner(out[k2]) ==> item_name(out[k1])
                    != item_name(out[k2])
        }),
{
    let reg0: RegV = Seq::empty();
    assert forall|o: OwnerV| distinct_names(#[trigger] reg_lookup(reg0, o)) by {
        assert(reg_lookup(reg0, o) == Seq::<Seq<char>>::empty());
    }
    lemma_collide_from_distinct(items, 0, reg0);
}

// ---------------------------------------------------------------------------
// The executable pass.
// ---------------------------------------------------------------------------

fn strings_eq(a: &Vec<String>, b: &Vec<String>) -> (r: bool)
    ensures
        r == (view_strings(a@) == view_strings(b@)),
{
    if a.len() != b.len() {
        proof {
            assert(view_strings(a@).len() == a@.len());
            assert(view_strings(b@).len() == b@.len());
        }
        return false;
    }
    let mut i: usize = 0;
    while i < a.len()
        invariant
            a@.len() == b@.len(),
            i <= a@.len(),
            forall|j: int| 0 <= j < i ==> view_strings(a@)[j] == view_strings(b@)[j],
        decreases a@.len() - i,
    {
        proof {
            assert(view_strings(a@)[i as int] == a@[i as int]@);
            assert(view_strings(b@)[i as int] == b@[i as int]@);
        }
        if !str_eq(a[i].as_str(), b[i].as_str()) {
            return false;
        }
        i = i + 1;
    }
    proof {
        assert(view_strings(a@) =~~= view_strings(b@));
    }
    true
}

fn owner_eq(a: &Option<Vec<String>>, b: &Option<Vec<String>>) -> (r: bool)
    ensures
        r == (owner_view(*a) == owner_view(*b)),
{
    match (a, b) {
        (Option::Some(p), Option::Some(q)) => strings_eq(p, q),
        (Option::None, Option::None) => true,
        _ => false,
    }
}

fn contains_string(v: &Vec<String>, s: &String) -> (r: bool)
    ensures
        r == view_strings(v@).contains(s@),
{
    let mut i: usize = 0;
    while i < v.len()
        invariant
            i <= v@.len(),
            forall|j: int| 0 <= j < i ==> view_strings(v@)[j] != s@,
        decreases v@.len() - i,
    {
        proof {
            assert(view_strings(v@)[i as int] == v@[i as int]@);
        }
        if str_eq(v[i].as_str(), s.as_str()) {
            return true;
        }
        i = i + 1;
    }
    false
}

/// Scans for the first free name: the base itself, else the base with the
/// first free decimal suffix.
fn pick_free_name(used: &Vec<String>, base: &String) -> (r: String)
    requires
        distinct_names(view_strings(used@)),
    ensures
        r@ == pick_name(view_strings(used@), base@),
{
    let ghost usedv = view_strings(used@);
    if !contains_string(used, base) {
        return base.clone();
    }
    let mut c: u128 = 1;
    let ghost fuel0 = (usedv.len() + 1) as nat;
    loop
        invariant
            usedv == view_strings(used@),
            fuel0 == (usedv.len() + 1) as nat,
            distinct_names(usedv),
            1 <= c,
            c <= usedv.len() + 1,
            forall|j: nat| 1 <= j < c ==> usedv.contains(#[trigger] suffixed_name(base@, j)),
            first_free_ctr(usedv, base@, 1, fuel0) == first_free_ctr(
                usedv,
                base@,
                c as nat,
                (fuel0 + 1 - c) as nat,
            ),
            usedv.contains(base@),
        decreases usedv.len() + 1 - c,
    {
        let dec = u128_to_dec(c);
        let cand = base.clone().concat("_").concat(dec.as_str());
        proof {
            assert(cand@ =~~= suffixed_name(base@, c as nat));
        }
        if !contains_string(used, &cand) {
            proof {
                assert((fuel0 + 1 - c) as nat >= 1);
                assert(first_free_ctr(usedv, base@, c as nat, (fuel0 + 1 - c) as nat)
                    == c as nat);
            }
            return cand;
        }
        proof {
            vstd::std_specs::vec::axiom_spec_len(used);
            lemma_candidates_bound(usedv, base@, (c + 1) as nat);
            assert((fuel0 + 1 - c) as nat >= 1);
            assert(first_free_ctr(usedv, base@, c as nat, (fuel0 + 1 - c) as nat)
                == first_free_ctr(usedv, base@, (c + 1) as nat, (fuel0 - c) as nat));
        }
        c = c + 1;
    }
}

fn is_self_path_exec(t: &TypeRep) -> (r: bool)
    ensures
        r == is_self_path(ty_view(*t)),
{
    match t {
        TypeRep::Path(segs) => {
            if segs.len() == 1 {
                proof {
                    assert(view_strings(segs@)[0] == segs@[0]@);
                }
                let r = str_eq(segs[0].as_str(), "Self");
                proof {
                    if r {
                        assert(view_strings(segs@) =~~= seq!["Self"@]);
                    } else {
                        if ty_view(*t) == TypeRepV::Path(seq!["Self"@]) {
                            assert(view_strings(segs@)[0] == "Self"@);
                        }
                    }
                }
                r
            } else {
                proof {
                    assert(view_strings(segs@).len() == segs@.len());
                }
                false
            }
        },
        _ => {
            proof {
                match t {
                    TypeRep::Prim(p) => {},
                    TypeRep::JsValue => {},
                    TypeRep::Path(segs) => {},
                    TypeRep::Ref(t0) => {},
                    TypeRep::Opt(t0) => {},
                    TypeRep::BoxedSlice(t0) => {},
                    TypeRep::Tup(ts) => {},
                    TypeRep::Callable(ts, rt) => {},
                }
            }
            false
        },
    }
}

/// Resolves self-references against the receiver's type.
fn self_fix(f: ItemFn) -> (r: ItemFn)
    ensures
        r@ == spec_self_fix(f@),
{
    let ghost fv = f@;
    let has_recv = if f.params.len() > 0 {
        match &f.params[0].ty {
            TypeRep::Ref(inner) => true,
            _ => false,
        }
    } else {
        false
    };
    proof {
        if f.params@.len() > 0 {
            assert(params_view(f.params@)[0] == f.params@[0]@);
            match &f.params[0].ty {
                TypeRep::Ref(inner) => {
                    assert(ty_view(f.params@[0].ty) == TypeRepV::Ref(
                        Box::new(ty_view(**inner)),
                    ));
                },
                _ => {
                    crate::collide::lemma_shape_ref(&f.params[0].ty);
                },
            }
        }
        assert(params_view(f.params@).len() == f.params@.len());
        assert(has_recv == (fv.params.len() > 0 && fv.params[0].ty is Ref));
    }
    if !has_recv {
        return f;
    }
    let cls: TypeRep = match &f.params[0].ty {
        TypeRep::Ref(inner) => clone_type_here(inner),
        _ => TypeRep::JsValue,
    };
    proof {
        assert(ty_view(cls) == *fv.params[0].ty->Ref_0);
    }
    let mut params: Vec<Param> = Vec::new();
    let mut i: usize = 0;
    while i < f.params.len()
        invariant
            fv == f@,
            fv.params.len() > 0 && fv.params[0].ty is Ref,
            ty_view(cls) == *fv.params[0].ty->Ref_0,
            i <= f.params@.len(),
            params@.len() == i,
            forall|j: int| 0 <= j < i ==> params_view(params@)[j] == spec_self_fix(fv).params[j],
        decreases f.params@.len() - i,
    {
        let p = &f.params[i];
        let ty = if is_self_path_exec(&p.ty) {
            clone_type_here(&cls)
        } else {
            clone_type_here(&p.ty)
        };
        let np = Param { name: p.name.clone(), ty };
        let ghost prev = params@;
        params.push(np);
        i = i + 1;
        proof {
            assert(params_view(f.params@)[i - 1] == f.params@[i - 1]@);
            assert forall|j: int| 0 <= j < i implies params_view(params@)[j] == spec_self_fix(
                fv,
            ).params[j] by {
                assert(params_view(params@)[j] == params@[j]@);
                if j < i - 1 {
                    assert(params@[j] == prev[j]);
                    assert(params_view(prev)[j] == prev[j]@);
                } else {
                    assert(params@[j] == np);
                }
            }
        }
    }
    let ret = match &f.ret {
        Option::Some(t) => {
            if is_self_path_exec(t) {
                Option::Some(clone_type_here(&cls))
            } else {
                Option::Some(clone_type_here(t))
            }
        },
        Option::None => Option::None,
    };
    let out = ItemFn {
        name: f.name,
        js_name: f.js_name,
        attrs: f.attrs,
        params,
        ret,
        ns: f.ns,
    };
    proof {
        assert(params_view(out.params@) =~~= spec_self_fix(fv).params);
        assert(out@ == spec_self_fix(fv));
    }
    out
}

pub proof fn lemma_shape_ref(t: &TypeRep)
    ensures
        (ty_view(*t) is Ref) == (*t is Ref),
{
    match t {
        TypeRep::Prim(p) => {},
        TypeRep::JsValue => {},
        TypeRep::Path(segs) => {},
        TypeRep::Ref(t0) => {},
        TypeRep::Opt(t0) => {},
        TypeRep::BoxedSlice(t0) => {},
        TypeRep::Tup(ts) => {},
        TypeRep::Callable(ts, rt) => {},
    }
}

proof fn lemma_reg_lookup_index(reg: RegV, o: OwnerV, idx: int)
    requires
        0 <= idx < reg.len(),
        reg[idx].0 == o,
        forall|j: int| 0 <= j < idx ==> (#[trigger] reg[j]).0 != o,
    ensures
        reg_lookup(reg, o) == reg[idx].1,
    decreases idx,
{
    if idx > 0 {
        let rest = reg.subrange(1, reg.len() as int);
        lemma_reg_lookup_index(rest, o, idx - 1);
    }
}

proof fn lemma_reg_lookup_absent(reg: RegV, o: OwnerV)
    requires
        forall|j: int| 0 <= j < reg.len() ==> (#[trigger] reg[j]).0 != o,
    ensures
        reg_lookup(reg, o) == Seq::<Seq<char>>::empty(),
    decreases reg.len(),
{
    if reg.len() > 0 {
        let rest = reg.subrange(1, reg.len() as int);
        lemma_reg_lookup_absent(rest, o);
    }
}

proof fn lemma_reg_insert_index(reg: RegV, o: OwnerV, n: Seq<char>, idx: int)
    requires
        0 <= idx < reg.len(),
        reg[idx].0 == o,
        forall|j: int| 0 <= j < idx ==> (#[trigger] reg[j]).0 != o,
    ensures
        reg_insert(reg, o, n) == reg.update(idx, (o, reg[idx].1.push(n))),
    decreases idx,
{
    let rest = reg.subrange(1, reg.len() as int);
    if idx == 0 {
        assert(reg_insert(reg, o, n) == seq![(reg[0].0, reg[0].1.push(n))] + rest);
        assert(reg_insert(reg, o, n) =~~= reg.update(0, (o, reg[0].1.push(n))));
    } else {
        lemma_reg_insert_index(rest, o, n, idx - 1);
        assert(reg_insert(reg, o, n) == seq![reg[0]] + rest.update(idx - 1, (o, reg[idx].1.push(n))));
        assert(reg_insert(reg, o, n) =~~= reg.update(idx, (o, reg[idx].1.push(n))));
    }
}

proof fn lemma_reg_insert_absent(reg: RegV, o: OwnerV, n: Seq<char>)
    requires
        forall|j: int| 0 <= j < reg.len() ==> (#[trigger] reg[j]).0 != o,
    ensures
        reg_insert(reg, o, n) == reg.push((o, seq![n])),
    decreases reg.len(),
{
    if reg.len() == 0 {
        assert(reg_insert(reg, o, n) =~~= reg.push((o, seq![n])));
    } else {
        let rest = reg.subrange(1, reg.len() as int);
        lemma_reg_insert_absent(rest, o, n);
        assert(reg_insert(reg, o, n) == seq![reg[0]] + rest.push((o, seq![n])));
        assert(reg_insert(reg, o, n) =~~= reg.push((o, seq![n])));
    }
}

/// The collision resolver: a stateful pass over one composed block's
/// binding items, keyed by owner; same-name bindings under one owner gain
/// the first free decimal suffix, and self-references are resolved to the
/// owning type's concrete name.
pub struct ModuleBindingsCleaner {
    pub reg: Vec<OwnerNames>,
}

impl ModuleBindingsCleaner {
    pub open spec fn regv(&self) -> RegV {
        reg_view(self.reg@)
    }

    pub open spec fn wf(&self) -> bool {
        reg_wf(self.regv())
    }

    pub fn new() -> (r: Self)
        ensures
            r.wf(),
            r.regv() == Seq::<(OwnerV, Seq<Seq<char>>)>::empty(),
    {
        let r = ModuleBindingsCleaner { reg: Vec::new() };
        proof {
            assert(r.regv() =~~= Seq::<(OwnerV, Seq<Seq<char>>)>::empty());
            assert forall|o: OwnerV| distinct_names(#[trigger] reg_lookup(r.regv(), o)) by {
                assert(reg_lookup(r.regv(), o) == Seq::<Seq<char>>::empty());
            }
        }
        r
    }

    fn find_entry(&self, owner: &Option<Vec<String>>) -> (r: Option<usize>)
        ensures
            match r {
                Option::Some(idx) => idx < self.reg@.len() && self.regv()[idx as int].0
                    == owner_view(*owner) && (forall|j: int|
                    0 <= j < idx ==> (#[trigger] self.regv()[j]).0 != owner_view(*owner)),
                Option::None => forall|j: int|
                    0 <= j < self.reg@.len() ==> (#[trigger] self.regv()[j]).0 != owner_view(
                        *owner,
                    ),
            },
    {
        let mut i: usize = 0;
        while i < self.reg.len()
            invariant
                i <= self.reg@.len(),
                forall|j: int| 0 <= j < i ==> (#[trigger] self.regv()[j]).0 != owner_view(*owner),
            decreases self.reg@.len() - i,
        {
            proof {
                assert(self.regv()[i as int] == (
                    owner_view(self.reg@[i as int].owner),
                    view_strings(self.reg@[i as int].names@),
                ));
            }
            if owner_eq(&self.reg[i].owner, owner) {
                return Option::Some(i);
            }
            i = i + 1;
        }
        Option::None
    }

    /// Registers `name` as taken under `owner`.
    fn register(&mut self, owner: Option<Vec<String>>, idx: Option<usize>, name: &String)
        requires
            match idx {
                Option::Some(i) => i < old(self).reg@.len() && old(self).regv()[i as int].0
                    == owner_view(owner) && (forall|j: int|
                    0 <= j < i ==> (#[trigger] old(self).regv()[j]).0 != owner_view(owner)),
                Option::None => forall|j: int|
                    0 <= j < old(self).reg@.len() ==> (#[trigger] old(self).regv()[j]).0
                        != owner_view(owner),
            },
        ensures
            final(self).regv() == reg_insert(old(self).regv(), owner_view(owner), name@),
    {
        let ghost regv0 = self.regv();
        let ghost ov = owner_view(owner);
        match idx {
            Option::Some(i) => {
                let mut e = self.reg.remove(i);
                e.names.push(name.clone());
                let ghost ev = (owner_view(e.owner), view_strings(e.names@));
                proof {
                    assert(view_strings(e.names@) =~~= regv0[i as int].1.push(name@));
                    assert(ev == (ov, regv0[i as int].1.push(name@)));
                }
                self.reg.insert(i, e);
                proof {
                    lemma_reg_insert_index(regv0, ov, name@, i as int);
                    assert(self.regv() =~~= regv0.update(i as int, (ov, regv0[i as int].1.push(
                        name@,
                    ))));
                }
            },
            Option::None => {
                let names: Vec<String> = vec![name.clone()];
                proof {
                    assert(view_strings(names@) =~~= seq![name@]);
                }
                self.reg.push(OwnerNames { owner, names });
                proof {
                    lemma_reg_insert_absent(regv0, ov, name@);
                    assert(self.regv() =~~= regv0.push((ov, seq![name@])));
                }
            },
        }
    }

    /// One step of the pass: resolves self-references and disambiguates the
    /// item's name under its owner.
    pub fn visit_foreign_item(&mut self, b: BindingItem) -> (r: BindingItem)
        requires
            old(self).wf(),
        ensures
            final(self).wf(),
            ({
                let (sb, sreg) = spec_collide_step(b@, old(self).regv());
                r@ == sb && final(self).regv() == sreg
            }),
    {
        let ghost regv0 = self.regv();
        match b {
            BindingItem::Opaque(o) => BindingItem::Opaque(o),
            BindingItem::Func(f) => {
                let ghost fv = f@;
                let f1 = self_fix(f);
                let owner = method_of(&f1);
                let ghost ov = spec_method_of(f1@);
                proof {
                    assert(owner_view(owner) == ov);
                }
                let idx = self.find_entry(&owner);
                let name = match idx {
                    Option::Some(i) => {
                        proof {
                            lemma_reg_lookup_index(regv0, ov, i as int);
                            assert(regv0[i as int] == (
                                owner_view(self.reg@[i as int].owner),
                                view_strings(self.reg@[i as int].names@),
                            ));
                            assert(distinct_names(reg_lookup(regv0, ov)));
                        }
                        pick_free_name(&self.reg[i].names, &f1.name)
                    },
                    Option::None => {
                        proof {
                            lemma_reg_lookup_absent(regv0, ov);
                            assert(!reg_lookup(regv0, ov).contains(f1.name@));
                        }
                        f1.name.clone()
                    },
                };
                self.register(owner, idx, &name);
                let out = ItemFn {
                    name,
                    js_name: f1.js_name,
                    attrs: f1.attrs,
                    params: f1.params,
                    ret: f1.ret,
                    ns: f1.ns,
                };
                proof {
                    let f1v = spec_self_fix(fv);
                    assert(out@ == ItemFnV { name: out.name@, ..f1v });
                    assert(spec_method_of(out@) == spec_method_of(f1v));
                    assert(self.wf()) by {
                        lemma_reg_insert(regv0, ov, out.name@);
                        assert forall|o2: OwnerV| distinct_names(
                            #[trigger] reg_lookup(self.regv(), o2),
                        ) by {
                            if o2 == ov {
                                let used = reg_lookup(regv0, ov);
                                lemma_pick_name_free(used, f1v.name);
                                let s = used.push(out.name@);
                                assert(distinct_names(used));
                                assert forall|a: int, c: int| 0 <= a < c < s.len() implies s[a]
                                    != s[c] by {
                                    if c == s.len() - 1 {
                                        assert(s[a] == used[a]);
                                        assert(used.contains(used[a]));
                                    } else {
                                        assert(s[a] == used[a] && s[c] == used[c]);
                                    }
                                }
                            } else {
                                assert(reg_lookup(self.regv(), o2) == reg_lookup(regv0, o2));
                            }
                        }
                    }
                }
                BindingItem::Func(out)
            },
            BindingItem::Static(st) => {
                let ghost sv = st@;
                let owner: Option<Vec<String>> = Option::None;
                let idx = self.find_entry(&owner);
                let name = match idx {
                    Option::Some(i) => {
                        proof {
                            lemma_reg_lookup_index(regv0, Option::None, i as int);
                            assert(regv0[i as int] == (
                                owner_view(self.reg@[i as int].owner),
                                view_strings(self.reg@[i as int].names@),
                            ));
                            assert(distinct_names(reg_lookup(regv0, Option::None)));
                        }
                        pick_free_name(&self.reg[i].names, &st.name)
                    },
                    Option::None => {
                        proof {
                            lemma_reg_lookup_absent(regv0, Option::None);
                            assert(!reg_lookup(regv0, Option::None).contains(st.name@));
                        }
                        st.name.clone()
                    },
                };
                self.register(owner, idx, &name);
                let out = crate::item::ItemStatic {
                    name,
                    js_name: st.js_name,
                    ty: st.ty,
                    ns: st.ns,
                };
                proof {
                    assert(out@ == crate::item::ItemStaticV { name: out.name@, ..sv });
                    assert(self.wf()) by {
                        lemma_reg_insert(regv0, Option::None, out.name@);
                        assert forall|o2: OwnerV| distinct_names(
                            #[trigger] reg_lookup(self.regv(), o2),
                        ) by {
                            if o2 == Option::<Seq<Seq<char>>>::None {
                                let used = reg_lookup(regv0, Option::None);
                                lemma_pick_name_free(used, sv.name);
                                let s = used.push(out.name@);
                                assert forall|a: int, c: int| 0 <= a < c < s.len() implies s[a]
                                    != s[c] by {
                                    if c == s.len() - 1 {
                                        assert(s[a] == used[a]);
                                        assert(used.contains(used[a]));
                                    } else {
                                        assert(s[a] == used[a] && s[c] == used[c]);
                                    }
                                }
                            } else {
                                assert(reg_lookup(self.regv(), o2) == reg_lookup(regv0, o2));
                            }
                        }
                    }
                }
                BindingItem::Static(out)
            },
        }
    }
}

/// The collision-resolution pass over a block's items, in encounter order.
pub fn dedupe_bindings(items: Vec<BindingItem>) -> (r: Vec<BindingItem>)
    ensures
        bindings_view(r@) == spec_collide_items(bindings_view(items@)),
{
    let ghost orig = bindings_view(items@);
    let mut cleaner = ModuleBindingsCleaner::new();
    let mut items = items;
    let mut out: Vec<BindingItem> = Vec::new();
    proof {
        assert(bindings_view(items@).len() == items@.len());
        assert(bindings_view(out@) =~~= Seq::<BindingItemV>::empty());
    }
    while items.len() > 0
        invariant
            cleaner.wf(),
            out@.len() + items@.len() == orig.len(),
            forall|j: int| 0 <= j < items@.len() ==> #[trigger] bindings_view(items@)[j] == orig[
                out@.len() + j
            ],
            spec_collide_from(orig, 0, Seq::empty()).0 == bindings_view(out@)
                + spec_collide_from(orig, out@.len() as int, cleaner.regv()).0,
            spec_collide_from(orig, 0, Seq::empty()).1 == spec_collide_from(
                orig,
                out@.len() as int,
                cleaner.regv(),
            ).1,
        decreases items@.len(),
    {
        let ghost pre_items = items@;
        let ghost k = out@.len() as int;
        let ghost reg_before = cleaner.regv();
        let b = items.remove(0);
        proof {
            assert(bindings_view(pre_items)[0] == pre_items[0]@);
            assert(b@ == orig[k]);
            assert forall|j: int| 0 <= j < items@.len() implies #[trigger] bindings_view(
                items@,
            )[j] == orig[out@.len() + 1 + j] by {
                assert(items@[j] == pre_items[j + 1]);
                assert(bindings_view(items@)[j] == items@[j]@);
                assert(bindings_view(pre_items)[j + 1] == pre_items[j + 1]@);
            }
        }
        let nb = cleaner.visit_foreign_item(b);
        let ghost prev = out@;
        out.push(nb);
        proof {
            let (sb, sreg) = spec_collide_step(orig[k], reg_before);
            assert(nb@ == sb && cleaner.regv() == sreg);
            assert(spec_collide_from(orig, k, reg_before).0 == seq![sb] + spec_collide_from(
                orig,
                k + 1,
                sreg,
            ).0);
            assert(bindings_view(out@) =~~= bindings_view(prev).push(nb@));
            assert(bindings_view(out@) + spec_collide_from(orig, k + 1, sreg).0
                =~~= bindings_view(prev) + (seq![sb] + spec_collide_from(orig, k + 1, sreg).0));
        }
    }
    proof {
        assert(spec_collide_from(orig, out@.len() as int, cleaner.regv()).0
            =~~= Seq::<BindingItemV>::empty());
        assert(bindings_view(out@) =~~= bindings_view(out@) + Seq::<BindingItemV>::empty());
    }
    out
}

} // verus!
