//! The crusade derivation engine.
//!
//! A canonical unit's weapon lists and upgrade list are turned into the
//! crusade-mode weapon lists: repeated identical upgrades are grouped
//! (`group_upgrades`), each group is matched against weapon identity and
//! applied (`apply_groups`), charge references are re-linked through the
//! rename map, and the rank is recomputed from experience.

use vstd::prelude::*;

use crate::abilities::WeaponAbility;
use crate::abilities::WeaponAbilityView;
use crate::crusade_data::mod_changes;
use crate::crusade_data::mod_eq;
use crate::crusade_data::rank_for_exp;
use crate::crusade_data::spec_rank_for_exp;
use crate::crusade_data::CrusadeRank;
use crate::crusade_data::CrusadeUpgrade;
use crate::crusade_data::CrusadeUpgradeView;
use crate::crusade_data::WeaponMod;
use crate::crusade_data::WeaponModChange;
use crate::crusade_data::WeaponModView;
use crate::index::ref_id_eq;
use crate::index::WeaponReference;
use crate::index::WeaponReferenceView;
use crate::unit::Unit;
use crate::unit::UnitView;
use crate::variable_val::spec_add_one;
use crate::weapon::ChargeLevels;
use crate::weapon::ChargeLevelsView;
use crate::weapon::Weapon;
use crate::weapon::WeaponView;

verus! {

/// Credits one more application of `m` to the matching group of `acc`: the
/// first group equal to `m` (as [`mod_eq`]) has its multiplicity raised, and
/// a fresh group is appended when none matches.
pub open spec fn bump_mod(acc: Seq<(usize, WeaponModView)>, m: WeaponModView) -> Seq<
    (usize, WeaponModView),
>
    decreases acc.len(),
{
    if acc.len() == 0 {
        seq![(1usize, m)]
    } else if mod_eq(acc.first().1, m) {
        seq![(((acc.first().0 + 1) as usize), acc.first().1)] + acc.drop_first()
    } else {
        seq![acc.first()] + bump_mod(acc.drop_first(), m)
    }
}

/// The grouped weapon modifications of an upgrade list: targeted weapon
/// modifications only, each with the number of times it was applied, in the
/// order their first applications appear.
pub open spec fn group_upgrades(ups: Seq<CrusadeUpgradeView>) -> Seq<(usize, WeaponModView)>
    decreases ups.len(),
{
    if ups.len() == 0 {
        Seq::<(usize, WeaponModView)>::empty()
    } else {
        let pre = group_upgrades(ups.drop_last());
        match ups.last() {
            CrusadeUpgradeView::WeaponMod(m) => if m.target is Some {
                bump_mod(pre, m)
            } else {
                pre
            },
            _ => pre,
        }
    }
}

/// When the groups before `j` do not match `m` and the group at `j` does,
/// bumping raises the multiplicity at `j` and changes nothing else.
proof fn lemma_bump_found(acc: Seq<(usize, WeaponModView)>, m: WeaponModView, j: int)
    requires
        0 <= j < acc.len(),
        forall|l: int| 0 <= l < j ==> !mod_eq(#[trigger] acc[l].1, m),
        mod_eq(acc[j].1, m),
    ensures
        bump_mod(acc, m) == acc.update(j, (((acc[j].0 + 1) as usize), acc[j].1)),
    decreases acc.len(),
{
    if j == 0 {
        assert(bump_mod(acc, m) =~= acc.update(0, (((acc[0].0 + 1) as usize), acc[0].1)));
    } else {
        let t = acc.drop_first();
        assert(forall|l: int| 0 <= l < j - 1 ==> !mod_eq(#[trigger] t[l].1, m));
        lemma_bump_found(t, m, j - 1);
        assert(bump_mod(acc, m) =~= acc.update(j, (((acc[j].0 + 1) as usize), acc[j].1)));
    }
}

/// When no group matches `m`, bumping appends a fresh group of one.
proof fn lemma_bump_missing(acc: Seq<(usize, WeaponModView)>, m: WeaponModView)
    requires
        forall|l: int| 0 <= l < acc.len() ==> !mod_eq(#[trigger] acc[l].1, m),
    ensures
        bump_mod(acc, m) == acc.push((1usize, m)),
    decreases acc.len(),
{
    if acc.len() == 0 {
        assert(bump_mod(acc, m) =~= acc.push((1usize, m)));
    } else {
        lemma_bump_missing(acc.drop_first(), m);
        assert(bump_mod(acc, m) =~= acc.push((1usize, m)));
    }
}

/// How many upgrades of the list are targeted weapon modifications equal
/// (as [`mod_eq`]) to `m`.
pub open spec fn count_applications(ups: Seq<CrusadeUpgradeView>, m: WeaponModView) -> int
    decreases ups.len(),
{
    if ups.len() == 0 {
        0
    } else {
        count_applications(ups.drop_last(), m) + (match ups.last() {
            CrusadeUpgradeView::WeaponMod(m2) => if m2.target is Some && mod_eq(m2, m) {
                1int
            } else {
                0int
            },
            _ => 0int,
        })
    }
}

/// The total multiplicity the groups give to modifications equal to `m`.
pub open spec fn class_multiplicity(groups: Seq<(usize, WeaponModView)>, m: WeaponModView) -> int
    decreases groups.len(),
{
    if groups.len() == 0 {
        0
    } else {
        (if mod_eq(groups.first().1, m) {
            groups.first().0 as int
        } else {
            0int
        }) + class_multiplicity(groups.drop_first(), m)
    }
}

/// Bumping raises no multiplicity above `bound + 1` when none exceeded
/// `bound` before.
proof fn lemma_bump_counts(acc: Seq<(usize, WeaponModView)>, m: WeaponModView, bound: int)
    requires
        0 <= bound < usize::MAX,
        forall|k: int| 0 <= k < acc.len() ==> #[trigger] acc[k].0 <= bound,
    ensures
        forall|k: int|
            0 <= k < bump_mod(acc, m).len() ==> #[trigger] bump_mod(acc, m)[k].0 <= bound + 1,
    decreases acc.len(),
{
    let b = bump_mod(acc, m);
    if acc.len() == 0 {
        assert(b[0].0 <= bound + 1);
    } else if mod_eq(acc.first().1, m) {
        assert(forall|k: int| 0 <= k < b.len() ==> b[k] == #[trigger] b[k]);
        assert(b[0].0 <= bound + 1);
        assert(forall|k: int| 1 <= k < b.len() ==> #[trigger] b[k].0 == acc[k].0);
    } else {
        lemma_bump_counts(acc.drop_first(), m, bound);
        let t = bump_mod(acc.drop_first(), m);
        assert(b[0].0 == acc[0].0);
        assert(forall|k: int| 1 <= k < b.len() ==> #[trigger] b[k].0 == t[k - 1].0);
    }
}

/// A group's multiplicity never exceeds the number of upgrades grouped.
proof fn lemma_group_counts(ups: Seq<CrusadeUpgradeView>)
    requires
        ups.len() <= usize::MAX,
    ensures
        forall|k: int|
            0 <= k < group_upgrades(ups).len() ==> #[trigger] group_upgrades(ups)[k].0
                <= ups.len(),
    decreases ups.len(),
{
    if ups.len() == 0 {
    } else {
        lemma_group_counts(ups.drop_last());
        match ups.last() {
            CrusadeUpgradeView::WeaponMod(m) => {
                if m.target is Some {
                    if ups.len() == 1 {
                        assert(group_upgrades(ups.drop_last()) =~= Seq::<(
                            usize,
                            WeaponModView,
                        )>::empty());
                        assert(bump_mod(group_upgrades(ups.drop_last()), m) =~= seq![(1usize, m)]);
                    } else {
                        lemma_bump_counts(group_upgrades(ups.drop_last()), m, ups.len() - 1);
                    }
                }
            },
            _ => {},
        }
    }
}

/// Bumping credits one more application to exactly the class of the bumped
/// modification.
proof fn lemma_bump_class(
    acc: Seq<(usize, WeaponModView)>,
    m2: WeaponModView,
    m: WeaponModView,
)
    requires
        forall|k: int| 0 <= k < acc.len() ==> #[trigger] acc[k].0 < usize::MAX,
    ensures
        class_multiplicity(bump_mod(acc, m2), m) == class_multiplicity(acc, m) + (if mod_eq(
            m2,
            m,
        ) {
            1int
        } else {
            0int
        }),
    decreases acc.len(),
{
    let b = bump_mod(acc, m2);
    if acc.len() == 0 {
        assert(b.drop_first() =~= Seq::<(usize, WeaponModView)>::empty());
        assert(class_multiplicity(Seq::<(usize, WeaponModView)>::empty(), m) == 0);
        assert(class_multiplicity(b, m) == (if mod_eq(m2, m) {
            1int
        } else {
            0int
        }));
    } else if mod_eq(acc.first().1, m2) {
        let f = acc.first();
        assert(mod_eq(f.1, m) == mod_eq(m2, m));
        assert(b.first() == (((f.0 + 1) as usize), f.1));
        assert(b.drop_first() =~= acc.drop_first());
        assert((f.0 + 1) as usize == f.0 + 1);
        assert(class_multiplicity(b, m) == (if mod_eq(f.1, m) {
            f.0 + 1int
        } else {
            0int
        }) + class_multiplicity(acc.drop_first(), m));
        assert(class_multiplicity(acc, m) == (if mod_eq(f.1, m) {
            f.0 as int
        } else {
            0int
        }) + class_multiplicity(acc.drop_first(), m));
    } else {
        lemma_bump_class(acc.drop_first(), m2, m);
        assert(b.first() == acc.first());
        assert(b.drop_first() =~= bump_mod(acc.drop_first(), m2));
        assert(class_multiplicity(b, m) == (if mod_eq(acc.first().1, m) {
            acc.first().0 as int
        } else {
            0int
        }) + class_multiplicity(bump_mod(acc.drop_first(), m2), m));
    }
}

/// Grouping keeps per-class totals: for every modification `m`, the
/// multiplicities of the groups equal to `m` sum to the number of targeted
/// applications of `m` in the upgrade list.
pub proof fn lemma_grouping_counts_applications(ups: Seq<CrusadeUpgradeView>, m: WeaponModView)
    requires
        ups.len() <= usize::MAX,
    ensures
        class_multiplicity(group_upgrades(ups), m) == count_applications(ups, m),
    decreases ups.len(),
{
    if ups.len() == 0 {
    } else {
        lemma_grouping_counts_applications(ups.drop_last(), m);
        match ups.last() {
            CrusadeUpgradeView::WeaponMod(m2) => {
                if m2.target is Some {
                    lemma_group_counts(ups.drop_last());
                    lemma_bump_class(group_upgrades(ups.drop_last()), m2, m);
                }
            },
            _ => {},
        }
    }
}

/// Two modifications with the same name and target whose two changed fields
/// are swapped are equal.
pub proof fn lemma_mod_eq_swapped(a: WeaponModView, b: WeaponModView)
    requires
        b.name == a.name,
        b.target == a.target,
        b.change_one == a.change_two,
        b.change_two == a.change_one,
    ensures
        mod_eq(a, b),
{
}

/// Two targeted weapon modifications that are equal as [`mod_eq`] group
/// into a single entry of multiplicity two.
pub proof fn lemma_group_pair_combines(m1: WeaponModView, m2: WeaponModView)
    requires
        m1.target is Some,
        m2.target is Some,
        mod_eq(m1, m2),
    ensures
        group_upgrades(
            seq![CrusadeUpgradeView::WeaponMod(m1), CrusadeUpgradeView::WeaponMod(m2)],
        ) == seq![(2usize, m1)],
{
    let ups = seq![CrusadeUpgradeView::WeaponMod(m1), CrusadeUpgradeView::WeaponMod(m2)];
    assert(ups.drop_last() =~= seq![CrusadeUpgradeView::WeaponMod(m1)]);
    let one = seq![CrusadeUpgradeView::WeaponMod(m1)];
    assert(one.drop_last() =~= Seq::<CrusadeUpgradeView>::empty());
    assert(group_upgrades(one.drop_last()) =~= Seq::<(usize, WeaponModView)>::empty());
    assert(group_upgrades(one) =~= seq![(1usize, m1)]);
    assert(group_upgrades(ups) =~= bump_mod(seq![(1usize, m1)], m2));
    assert(bump_mod(seq![(1usize, m1)], m2) =~= seq![(2usize, m1)]);
}

/// Groups the targeted weapon modifications of an upgrade list: repeated
/// equal modifications accumulate a multiplicity rather than appearing
/// twice, in first-application order.
pub fn group_weapon_mods(upgrades: &Vec<CrusadeUpgrade>) -> (r: Vec<(usize, WeaponMod)>)
    ensures
        r.deep_view() == group_upgrades(upgrades.deep_view()),
        forall|k: int| 0 <= k < r@.len() ==> #[trigger] r@[k].0 <= upgrades@.len(),
{
    let ghost ups = upgrades.deep_view();
    let n = upgrades.len();
    let mut r: Vec<(usize, WeaponMod)> = Vec::new();
    let mut i: usize = 0;
    while i < n
        invariant
            0 <= i <= n,
            n == upgrades.len(),
            ups == upgrades.deep_view(),
            r.deep_view() == group_upgrades(ups.take(i as int)),
            forall|k: int| 0 <= k < r@.len() ==> #[trigger] r@[k].0 <= i,
        decreases n - i,
    {
        proof {
            assert(ups.take(i + 1).drop_last() =~= ups.take(i as int));
            assert(ups.take(i + 1).last() == ups[i as int]);
        }
        match &upgrades[i] {
            CrusadeUpgrade::WeaponMod(weapon_mod) => {
                if weapon_mod.target.is_some() {
                    let ghost mv = weapon_mod.deep_view();
                    let ghost before = r.deep_view();
                    let rlen = r.len();
                    let mut j: usize = 0;
                    let mut found: bool = false;
                    while j < rlen
                        invariant_except_break
                            0 <= j <= rlen,
                            rlen == r@.len(),
                            !found,
                            forall|l: int| 0 <= l < j ==> !mod_eq(#[trigger] before[l].1, mv),
                            r.deep_view() == before,
                            mv == weapon_mod.deep_view(),
                            forall|k: int| 0 <= k < r@.len() ==> #[trigger] r@[k].0 <= i,
                            i < n,
                        ensures
                            rlen == before.len(),
                            mv == weapon_mod.deep_view(),
                            found ==> r.deep_view() == bump_mod(before, mv),
                            !found ==> r.deep_view() == before && forall|l: int|
                                0 <= l < rlen ==> !mod_eq(#[trigger] before[l].1, mv),
                            forall|k: int| 0 <= k < r@.len() ==> #[trigger] r@[k].0 <= i + 1,
                        decreases rlen - j,
                    {
                        if &r[j].1 == weapon_mod {
                            let c = r[j].0;
                            let kept = r[j].1.clone();
                            r.set(j, (c + 1, kept));
                            found = true;
                            proof {
                                lemma_bump_found(before, mv, j as int);
                                assert(r.deep_view() =~= bump_mod(before, mv));
                            }
                            break;
                        }
                        j = j + 1;
                    }
                    if !found {
                        r.push((1, weapon_mod.clone()));
                        proof {
                            lemma_bump_missing(before, mv);
                            assert(r.deep_view() =~= bump_mod(before, mv));
                        }
                    }
                }
            },
            _ => {},
        }
        i = i + 1;
    }
    proof {
        assert(ups.take(n as int) =~= ups);
    }
    r
}

/// The rename map recorded while deriving: for a parent weapon's position,
/// the name its upgraded entry took.
pub type RenameMap = Seq<(bool, usize, Seq<char>)>;

/// The recorded name for position `(ranged, id)`, if any.
pub open spec fn names_get(names: RenameMap, ranged: bool, id: usize) -> Option<Seq<char>>
    decreases names.len(),
{
    if names.len() == 0 {
        None
    } else if names.first().0 == ranged && names.first().1 == id {
        Some(names.first().2)
    } else {
        names_get(names.drop_first(), ranged, id)
    }
}

/// The map with `(ranged, id)` bound to `name`, replacing an earlier
/// binding of the same position.
pub open spec fn names_put(names: RenameMap, ranged: bool, id: usize, name: Seq<char>) -> RenameMap
    decreases names.len(),
{
    if names.len() == 0 {
        seq![(ranged, id, name)]
    } else if names.first().0 == ranged && names.first().1 == id {
        seq![(ranged, id, name)] + names.drop_first()
    } else {
        seq![names.first()] + names_put(names.drop_first(), ranged, id, name)
    }
}

/// When the entries before `j` have another position and the one at `j` has
/// this one, the lookup returns the entry at `j`.
proof fn lemma_names_get_found(names: RenameMap, ranged: bool, id: usize, j: int)
    requires
        0 <= j < names.len(),
        forall|l: int| 0 <= l < j ==> !((#[trigger] names[l]).0 == ranged && names[l].1 == id),
        names[j].0 == ranged && names[j].1 == id,
    ensures
        names_get(names, ranged, id) == Some(names[j].2),
    decreases j,
{
    if j == 0 {
    } else {
        let t = names.drop_first();
        assert(forall|l: int| 0 <= l < j - 1 ==> !((#[trigger] t[l]).0 == ranged && t[l].1 == id));
        lemma_names_get_found(t, ranged, id, j - 1);
    }
}

/// When no entry has this position, the lookup returns nothing.
proof fn lemma_names_get_missing(names: RenameMap, ranged: bool, id: usize)
    requires
        forall|l: int|
            0 <= l < names.len() ==> !((#[trigger] names[l]).0 == ranged && names[l].1 == id),
    ensures
        names_get(names, ranged, id) is None,
    decreases names.len(),
{
    if names.len() == 0 {
    } else {
        lemma_names_get_missing(names.drop_first(), ranged, id);
    }
}

/// When the entries before `j` have another position and the one at `j` has
/// this one, the insertion replaces the entry at `j`.
proof fn lemma_names_put_found(names: RenameMap, ranged: bool, id: usize, name: Seq<char>, j: int)
    requires
        0 <= j < names.len(),
        forall|l: int| 0 <= l < j ==> !((#[trigger] names[l]).0 == ranged && names[l].1 == id),
        names[j].0 == ranged && names[j].1 == id,
    ensures
        names_put(names, ranged, id, name) == names.update(j, (ranged, id, name)),
    decreases j,
{
    if j == 0 {
        assert(names_put(names, ranged, id, name) =~= names.update(0, (ranged, id, name)));
    } else {
        let t = names.drop_first();
        assert(forall|l: int| 0 <= l < j - 1 ==> !((#[trigger] t[l]).0 == ranged && t[l].1 == id));
        lemma_names_put_found(t, ranged, id, name, j - 1);
        assert(names_put(names, ranged, id, name) =~= names.update(j, (ranged, id, name)));
    }
}

/// When no entry has this position, the insertion appends a new entry.
proof fn lemma_names_put_missing(names: RenameMap, ranged: bool, id: usize, name: Seq<char>)
    requires
        forall|l: int|
            0 <= l < names.len() ==> !((#[trigger] names[l]).0 == ranged && names[l].1 == id),
    ensures
        names_put(names, ranged, id, name) == names.push((ranged, id, name)),
    decreases names.len(),
{
    if names.len() == 0 {
        assert(names_put(names, ranged, id, name) =~= names.push((ranged, id, name)));
    } else {
        lemma_names_put_missing(names.drop_first(), ranged, id, name);
        assert(names_put(names, ranged, id, name) =~= names.push((ranged, id, name)));
    }
}

/// The recorded name for position `(ranged, id)`, cloned out of the map.
fn names_lookup(names: &Vec<(bool, usize, String)>, ranged: bool, id: usize) -> (r: Option<String>)
    ensures
        match r {
            Some(n) => names_get(names.deep_view(), ranged, id) == Some(n@),
            None => names_get(names.deep_view(), ranged, id) is None,
        },
{
    let ghost nv = names.deep_view();
    let n = names.len();
    let mut i: usize = 0;
    while i < n
        invariant
            0 <= i <= n,
            n == names@.len(),
            nv == names.deep_view(),
            forall|l: int| 0 <= l < i ==> !((#[trigger] nv[l]).0 == ranged && nv[l].1 == id),
        decreases n - i,
    {
        if names[i].0 == ranged && names[i].1 == id {
            proof {
                lemma_names_get_found(nv, ranged, id, i as int);
            }
            return Some(names[i].2.clone());
        }
        i = i + 1;
    }
    proof {
        lemma_names_get_missing(nv, ranged, id);
    }
    None
}

/// Binds `(ranged, id)` to `name` in the map, replacing an earlier binding
/// of the same position.
fn names_insert(names: &mut Vec<(bool, usize, String)>, ranged: bool, id: usize, name: String)
    ensures
        final(names).deep_view() == names_put(old(names).deep_view(), ranged, id, name@),
{
    let ghost nv = names.deep_view();
    let n = names.len();
    let mut at: Option<usize> = None;
    let mut i: usize = 0;
    while i < n
        invariant_except_break
            0 <= i <= n,
            n == names@.len(),
            nv == names.deep_view(),
            at is None,
            forall|l: int| 0 <= l < i ==> !((#[trigger] nv[l]).0 == ranged && nv[l].1 == id),
        ensures
            nv == names.deep_view(),
            n == names@.len(),
            match at {
                Some(j) => j < n && nv[j as int].0 == ranged && nv[j as int].1 == id && forall|
                    l: int,
                |
                    0 <= l < j ==> !((#[trigger] nv[l]).0 == ranged && nv[l].1 == id),
                None => forall|l: int|
                    0 <= l < n ==> !((#[trigger] nv[l]).0 == ranged && nv[l].1 == id),
            },
        decreases n - i,
    {
        if names[i].0 == ranged && names[i].1 == id {
            at = Some(i);
            break;
        }
        i = i + 1;
    }
    match at {
        Some(j) => {
            names.set(j, (ranged, id, name));
            proof {
                lemma_names_put_found(nv, ranged, id, name@, j as int);
                assert(names.deep_view() =~= names_put(nv, ranged, id, name@));
            }
        },
        None => {
            names.push((ranged, id, name));
            proof {
                lemma_names_put_missing(nv, ranged, id, name@);
                assert(names.deep_view() =~= names_put(nv, ranged, id, name@));
            }
        },
    }
}

/// One AP step away from zero: the magnitude grows in the stored sign
/// convention, saturating at the type bounds.
pub open spec fn spec_step_ap(ap: i32) -> i32 {
    if ap <= 0 {
        if ap == i32::MIN {
            ap
        } else {
            (ap - 1) as i32
        }
    } else {
        if ap == i32::MAX {
            ap
        } else {
            (ap + 1) as i32
        }
    }
}

/// A child's stale parent reference re-pointed at the parent's recorded new
/// name; parents and standalone weapons are unchanged.
pub open spec fn relink_charge(charge: ChargeLevelsView, names: RenameMap) -> ChargeLevelsView {
    match charge {
        ChargeLevelsView::Standalone => ChargeLevelsView::Standalone,
        ChargeLevelsView::Parent(n) => ChargeLevelsView::Parent(n),
        ChargeLevelsView::Child(pref, n) => match names_get(names, pref.ranged, pref.id) {
            Some(new_name) => ChargeLevelsView::Child(
                WeaponReferenceView { name: new_name, ranged: pref.ranged, id: pref.id },
                n,
            ),
            None => ChargeLevelsView::Child(pref, n),
        },
    }
}

/// Whether an upgrade's target matches the weapon at `(ranged, index)`:
/// directly by position, or through the weapon's charge reference to a
/// matching parent.
pub open spec fn mod_matches_weapon(
    m: WeaponModView,
    w: WeaponView,
    ranged: bool,
    index: usize,
) -> bool {
    match m.target {
        Some(t) => (t.ranged == ranged && t.id == index) || (match w.charge {
            ChargeLevelsView::Child(pref, _) => ref_id_eq(t, pref),
            _ => false,
        }),
        None => false,
    }
}

/// The weapon an upgrade produces: renamed to the upgrade's name, with each
/// of the upgrade's two changed fields adjusted, and the given charge
/// level.
pub open spec fn apply_mod_to_weapon(
    m: WeaponModView,
    w: WeaponView,
    new_charge: ChargeLevelsView,
) -> WeaponView {
    WeaponView {
        name: m.name,
        range: w.range,
        attacks: if mod_changes(m, WeaponModChange::Attacks) {
            spec_add_one(w.attacks)
        } else {
            w.attacks
        },
        skill: if mod_changes(m, WeaponModChange::Skill) {
            if w.skill > 0 {
                (w.skill - 1) as u32
            } else {
                0
            }
        } else {
            w.skill
        },
        strength: if mod_changes(m, WeaponModChange::Strength) {
            if w.strength == u32::MAX {
                w.strength
            } else {
                (w.strength + 1) as u32
            }
        } else {
            w.strength
        },
        ap: if mod_changes(m, WeaponModChange::AP) {
            spec_step_ap(w.ap)
        } else {
            w.ap
        },
        damage: if mod_changes(m, WeaponModChange::Damage) {
            spec_add_one(w.damage)
        } else {
            w.damage
        },
        keywords: if mod_changes(m, WeaponModChange::Precise) {
            w.keywords.push(WeaponAbilityView::Precise)
        } else {
            w.keywords
        },
        charge: new_charge,
    }
}

/// The upgrade pass over one weapon entry: each matching group, in order,
/// consumes up to its multiplicity from the remaining count and emits one
/// upgraded entry.  Returns the emitted entries, the rename map after the
/// pass, and the count left untouched.
pub open spec fn apply_groups(
    w: WeaponView,
    ranged: bool,
    index: usize,
    groups: Seq<(usize, WeaponModView)>,
    names: RenameMap,
    remaining: u32,
) -> (Seq<(WeaponView, u32)>, RenameMap, u32)
    decreases groups.len(),
{
    if groups.len() == 0 {
        (Seq::<(WeaponView, u32)>::empty(), names, remaining)
    } else {
        let (pre_out, pre_names, pre_rem) = apply_groups(
            w,
            ranged,
            index,
            groups.drop_last(),
            names,
            remaining,
        );
        let g = groups.last();
        if mod_matches_weapon(g.1, w, ranged, index) && pre_rem > 0 {
            let consumed: u32 = if pre_rem as int <= g.0 as int {
                pre_rem
            } else {
                g.0 as u32
            };
            let new_charge = relink_charge(w.charge, pre_names);
            let new_names = if w.charge is Parent {
                names_put(pre_names, ranged, index, g.1.name)
            } else {
                pre_names
            };
            (
                pre_out.push((apply_mod_to_weapon(g.1, w, new_charge), consumed)),
                new_names,
                (pre_rem - consumed) as u32,
            )
        } else {
            (pre_out, pre_names, pre_rem)
        }
    }
}

/// The derivation pass over one weapon list: every entry goes through the
/// upgrade pass, and whatever count no upgrade consumed passes through as
/// the unmodified weapon.  The rename map threads through in list order.
pub open spec fn derive_list(
    entries: Seq<(WeaponView, u32)>,
    ranged: bool,
    groups: Seq<(usize, WeaponModView)>,
    names: RenameMap,
) -> (Seq<(WeaponView, u32)>, RenameMap)
    decreases entries.len(),
{
    if entries.len() == 0 {
        (Seq::<(WeaponView, u32)>::empty(), names)
    } else {
        let (pre_out, pre_names) = derive_list(entries.drop_last(), ranged, groups, names);
        let idx = (entries.len() - 1) as usize;
        let e = entries.last();
        let (emitted, new_names, rem) = apply_groups(e.0, ranged, idx, groups, pre_names, e.1);
        (
            (pre_out + emitted) + (if rem > 0 {
                seq![(e.0, rem)]
            } else {
                Seq::<(WeaponView, u32)>::empty()
            }),
            new_names,
        )
    }
}

/// The crusade weapon lists a canonical unit's weapon lists and upgrades
/// derive: the ranged list is processed first, so a melee child weapon sees
/// the renames of ranged parents; each upgraded entry lands in the list its
/// source weapon came from.
pub open spec fn spec_derive(
    ranged: Seq<(WeaponView, u32)>,
    melee: Seq<(WeaponView, u32)>,
    ups: Seq<CrusadeUpgradeView>,
) -> (Seq<(WeaponView, u32)>, Seq<(WeaponView, u32)>) {
    let groups = group_upgrades(ups);
    let (r_out, names1) = derive_list(ranged, true, groups, Seq::<(bool, usize, Seq<char>)>::empty());
    let (m_out, _) = derive_list(melee, false, groups, names1);
    (r_out, m_out)
}

/// The upgrade pass over one weapon entry, appending the emitted entries to
/// `out` and returning the count left untouched.
fn apply_weapon_upgrades(
    w: &Weapon,
    ranged: bool,
    index: usize,
    groups: &Vec<(usize, WeaponMod)>,
    names: &mut Vec<(bool, usize, String)>,
    out: &mut Vec<(Weapon, u32)>,
    count: u32,
) -> (remaining: u32)
    ensures
        ({
            let (sout, snames, srem) = apply_groups(
                w.deep_view(),
                ranged,
                index,
                groups.deep_view(),
                old(names).deep_view(),
                count,
            );
            &&& final(out).deep_view() == old(out).deep_view() + sout
            &&& final(names).deep_view() == snames
            &&& remaining == srem
        }),
{
    let ghost wv = w.deep_view();
    let ghost gv = groups.deep_view();
    let ghost nv0 = names.deep_view();
    let ghost out0 = out.deep_view();
    let ng = groups.len();
    let mut rem: u32 = count;
    let mut g: usize = 0;
    while g < ng
        invariant
            0 <= g <= ng,
            ng == groups@.len(),
            gv == groups.deep_view(),
            wv == w.deep_view(),
            ({
                let (sout, snames, srem) = apply_groups(
                    wv,
                    ranged,
                    index,
                    gv.take(g as int),
                    nv0,
                    count,
                );
                &&& out.deep_view() == out0 + sout
                &&& names.deep_view() == snames
                &&& rem == srem
            }),
        decreases ng - g,
    {
        proof {
            assert(gv.take(g + 1).drop_last() =~= gv.take(g as int));
            assert(gv.take(g + 1).last() == gv[g as int]);
        }
        let ghost pre = apply_groups(wv, ranged, index, gv.take(g as int), nv0, count);
        let ghost gpair = gv[g as int];
        let gcount = groups[g].0;
        let m = &groups[g].1;
        proof {
            assert(gpair == (gcount, m.deep_view()));
        }
        let matched = match &m.target {
            Some(t) => {
                let direct = t.is_id(ranged, index);
                let indirect = match &w.charge {
                    ChargeLevels::Child(pref, _) => t.is_id(pref.ranged, pref.id),
                    _ => false,
                };
                direct || indirect
            },
            None => false,
        };
        proof {
            assert(matched == mod_matches_weapon(m.deep_view(), wv, ranged, index));
        }
        if matched && rem > 0 {
            let consumed: u32 = if (rem as u64) <= (gcount as u64) {
                rem
            } else {
                gcount as u32
            };
            let new_charge: ChargeLevels = match &w.charge {
                ChargeLevels::Standalone => ChargeLevels::Standalone,
                ChargeLevels::Parent(n) => ChargeLevels::Parent(n.clone()),
                ChargeLevels::Child(pref, level_name) => {
                    match names_lookup(names, pref.ranged, pref.id) {
                        Some(new_name) => ChargeLevels::Child(
                            WeaponReference::new(new_name, pref.ranged, pref.id),
                            level_name.clone(),
                        ),
                        None => ChargeLevels::Child(pref.clone(), level_name.clone()),
                    }
                },
            };
            proof {
                assert(new_charge.deep_view() =~= relink_charge(wv.charge, names.deep_view()));
            }
            if matches!(&w.charge, ChargeLevels::Parent(_)) {
                names_insert(names, ranged, index, m.name.clone());
            }
            let new_keywords: Vec<WeaponAbility> = if m.precise() {
                let mut ks = w.keywords.clone();
                proof {
                    assert(ks@ =~= w.keywords@);
                }
                ks.push(WeaponAbility::Precise);
                ks
            } else {
                let ks = w.keywords.clone();
                proof {
                    assert(ks@ =~= w.keywords@);
                }
                ks
            };
            let new_weapon = Weapon {
                name: m.name.clone(),
                range: w.range,
                attacks: if m.attacks() {
                    w.attacks.add_one()
                } else {
                    w.attacks
                },
                skill: if m.skill() {
                    if w.skill > 0 {
                        w.skill - 1
                    } else {
                        0
                    }
                } else {
                    w.skill
                },
                strength: if m.strength() {
                    if w.strength == u32::MAX {
                        w.strength
                    } else {
                        w.strength + 1
                    }
                } else {
                    w.strength
                },
                ap: if m.ap() {
                    if w.ap <= 0 {
                        if w.ap == i32::MIN {
                            w.ap
                        } else {
                            w.ap - 1
                        }
                    } else {
                        if w.ap == i32::MAX {
                            w.ap
                        } else {
                            w.ap + 1
                        }
                    }
                } else {
                    w.ap
                },
                damage: if m.damage() {
                    w.damage.add_one()
                } else {
                    w.damage
                },
                keywords: new_keywords,
                charge: new_charge,
            };
            proof {
                assert(new_weapon.deep_view() =~= apply_mod_to_weapon(
                    gpair.1,
                    wv,
                    relink_charge(wv.charge, pre.1),
                ));
            }
            let ghost entry = (new_weapon.deep_view(), consumed);
            out.push((new_weapon, consumed));
            rem = rem - consumed;
            proof {
                let (sout, snames, srem) = apply_groups(
                    wv,
                    ranged,
                    index,
                    gv.take(g + 1),
                    nv0,
                    count,
                );
                assert(sout == pre.0.push(entry));
                assert(out.deep_view() =~= (out0 + pre.0).push(entry));
                assert((out0 + pre.0).push(entry) =~= out0 + pre.0.push(entry));
            }
        }
        g = g + 1;
    }
    proof {
        assert(gv.take(ng as int) =~= gv);
    }
    rem
}

/// The derivation pass over one weapon list, appending its output entries
/// to `out` and threading the rename map.
fn derive_weapon_list(
    entries: &Vec<(Weapon, u32)>,
    ranged: bool,
    groups: &Vec<(usize, WeaponMod)>,
    names: &mut Vec<(bool, usize, String)>,
    out: &mut Vec<(Weapon, u32)>,
)
    ensures
        ({
            let (sout, snames) = derive_list(
                entries.deep_view(),
                ranged,
                groups.deep_view(),
                old(names).deep_view(),
            );
            &&& final(out).deep_view() == old(out).deep_view() + sout
            &&& final(names).deep_view() == snames
        }),
{
    let ghost ev = entries.deep_view();
    let ghost gv = groups.deep_view();
    let ghost nv0 = names.deep_view();
    let ghost out0 = out.deep_view();
    let n = entries.len();
    let mut j: usize = 0;
    while j < n
        invariant
            0 <= j <= n,
            n == entries@.len(),
            ev == entries.deep_view(),
            gv == groups.deep_view(),
            ({
                let (sout, snames) = derive_list(ev.take(j as int), ranged, gv, nv0);
                &&& out.deep_view() == out0 + sout
                &&& names.deep_view() == snames
            }),
        decreases n - j,
    {
        proof {
            assert(ev.take(j + 1).drop_last() =~= ev.take(j as int));
            assert(ev.take(j + 1).last() == ev[j as int]);
        }
        let ghost pre = derive_list(ev.take(j as int), ranged, gv, nv0);
        let w = &entries[j].0;
        let count = entries[j].1;
        proof {
            assert(ev[j as int] == (w.deep_view(), count));
        }
        let ghost out_before = out.deep_view();
        let rem = apply_weapon_upgrades(w, ranged, j, groups, names, out, count);
        let ghost applied = apply_groups(w.deep_view(), ranged, j, gv, pre.1, count);
        if rem > 0 {
            out.push((w.clone(), rem));
        }
        proof {
            let (sout, snames) = derive_list(ev.take(j + 1), ranged, gv, nv0);
            let tail: Seq<(WeaponView, u32)> = if applied.2 > 0 {
                seq![(w.deep_view(), applied.2)]
            } else {
                Seq::<(WeaponView, u32)>::empty()
            };
            assert(sout == (pre.0 + applied.0) + tail);
            if rem > 0 {
                assert(out.deep_view() =~= (out_before + applied.0).push((w.deep_view(), rem)));
                assert((out_before + applied.0).push((w.deep_view(), rem)) =~= out0 + ((pre.0
                    + applied.0) + tail));
            } else {
                assert(out.deep_view() =~= out0 + ((pre.0 + applied.0) + tail));
            }
            assert(out.deep_view() =~= out0 + sout);
        }
        j = j + 1;
    }
    proof {
        assert(ev.take(n as int) =~= ev);
    }
}

/// Derives the crusade weapon lists from the canonical weapon lists and the
/// upgrade list, as [`spec_derive`] states.
pub fn derive_crusade_weapons(
    ranged_weapons: &Vec<(Weapon, u32)>,
    melee_weapons: &Vec<(Weapon, u32)>,
    upgrades: &Vec<CrusadeUpgrade>,
) -> (r: (Vec<(Weapon, u32)>, Vec<(Weapon, u32)>))
    ensures
        r.0.deep_view() == spec_derive(
            ranged_weapons.deep_view(),
            melee_weapons.deep_view(),
            upgrades.deep_view(),
        ).0,
        r.1.deep_view() == spec_derive(
            ranged_weapons.deep_view(),
            melee_weapons.deep_view(),
            upgrades.deep_view(),
        ).1,
{
    let groups = group_weapon_mods(upgrades);
    let mut names: Vec<(bool, usize, String)> = Vec::new();
    let mut out_ranged: Vec<(Weapon, u32)> = Vec::new();
    let mut out_melee: Vec<(Weapon, u32)> = Vec::new();
    proof {
        assert(names.deep_view() =~= Seq::<(bool, usize, Seq<char>)>::empty());
        assert(out_ranged.deep_view() =~= Seq::<(WeaponView, u32)>::empty());
        assert(out_melee.deep_view() =~= Seq::<(WeaponView, u32)>::empty());
    }
    derive_weapon_list(ranged_weapons, true, &groups, &mut names, &mut out_ranged);
    derive_weapon_list(melee_weapons, false, &groups, &mut names, &mut out_melee);
    proof {
        let (r_out, names1) = derive_list(
            ranged_weapons.deep_view(),
            true,
            groups.deep_view(),
            Seq::<(bool, usize, Seq<char>)>::empty(),
        );
        assert(out_ranged.deep_view() =~= r_out);
        let (m_out, _) = derive_list(melee_weapons.deep_view(), false, groups.deep_view(), names1);
        assert(out_melee.deep_view() =~= m_out);
    }
    (out_ranged, out_melee)
}

/// The total multiplicity of a weapon-entry list.
pub open spec fn sum_counts(entries: Seq<(WeaponView, u32)>) -> int
    decreases entries.len(),
{
    if entries.len() == 0 {
        0
    } else {
        sum_counts(entries.drop_last()) + entries.last().1
    }
}

/// Total multiplicity distributes over concatenation.
proof fn lemma_sum_counts_concat(a: Seq<(WeaponView, u32)>, b: Seq<(WeaponView, u32)>)
    ensures
        sum_counts(a + b) == sum_counts(a) + sum_counts(b),
    decreases b.len(),
{
    if b.len() == 0 {
        assert(a + b =~= a);
    } else {
        lemma_sum_counts_concat(a, b.drop_last());
        assert((a + b).drop_last() =~= a + b.drop_last());
        assert((a + b).last() == b.last());
    }
}

/// The upgrade pass conserves a weapon's count: what the emitted entries
/// carry plus what remains equals the count it started with.
pub proof fn lemma_apply_groups_conserves(
    w: WeaponView,
    ranged: bool,
    index: usize,
    groups: Seq<(usize, WeaponModView)>,
    names: RenameMap,
    remaining: u32,
)
    ensures
        ({
            let (sout, _, srem) = apply_groups(w, ranged, index, groups, names, remaining);
            sum_counts(sout) + srem == remaining
        }),
    decreases groups.len(),
{
    if groups.len() == 0 {
    } else {
        lemma_apply_groups_conserves(w, ranged, index, groups.drop_last(), names, remaining);
        let (pre_out, pre_names, pre_rem) = apply_groups(
            w,
            ranged,
            index,
            groups.drop_last(),
            names,
            remaining,
        );
        let g = groups.last();
        if mod_matches_weapon(g.1, w, ranged, index) && pre_rem > 0 {
            let consumed: u32 = if pre_rem as int <= g.0 as int {
                pre_rem
            } else {
                g.0 as u32
            };
            let new_charge = relink_charge(w.charge, pre_names);
            let entry = (apply_mod_to_weapon(g.1, w, new_charge), consumed);
            assert(pre_out.push(entry).drop_last() =~= pre_out);
        }
    }
}

/// The derivation pass over a list conserves the total count of the list.
pub proof fn lemma_derive_list_conserves(
    entries: Seq<(WeaponView, u32)>,
    ranged: bool,
    groups: Seq<(usize, WeaponModView)>,
    names: RenameMap,
)
    ensures
        sum_counts(derive_list(entries, ranged, groups, names).0) == sum_counts(entries),
    decreases entries.len(),
{
    if entries.len() == 0 {
    } else {
        lemma_derive_list_conserves(entries.drop_last(), ranged, groups, names);
        let (pre_out, pre_names) = derive_list(entries.drop_last(), ranged, groups, names);
        let idx = (entries.len() - 1) as usize;
        let e = entries.last();
        lemma_apply_groups_conserves(e.0, ranged, idx, groups, pre_names, e.1);
        let (emitted, _, rem) = apply_groups(e.0, ranged, idx, groups, pre_names, e.1);
        let tail: Seq<(WeaponView, u32)> = if rem > 0 {
            seq![(e.0, rem)]
        } else {
            Seq::<(WeaponView, u32)>::empty()
        };
        lemma_sum_counts_concat(pre_out, emitted);
        lemma_sum_counts_concat(pre_out + emitted, tail);
        if rem > 0 {
            assert(tail.drop_last() =~= Seq::<(WeaponView, u32)>::empty());
            assert(sum_counts(Seq::<(WeaponView, u32)>::empty()) == 0);
            assert(sum_counts(tail) == sum_counts(tail.drop_last()) + tail.last().1);
            assert(sum_counts(tail) == rem);
        }
    }
}

/// Derivation conserves weapon counts: in each category, the total
/// multiplicity of the derived list equals that of the source list.
pub proof fn lemma_derive_conserves_counts(
    ranged: Seq<(WeaponView, u32)>,
    melee: Seq<(WeaponView, u32)>,
    ups: Seq<CrusadeUpgradeView>,
)
    ensures
        sum_counts(spec_derive(ranged, melee, ups).0) == sum_counts(ranged),
        sum_counts(spec_derive(ranged, melee, ups).1) == sum_counts(melee),
{
    let groups = group_upgrades(ups);
    lemma_derive_list_conserves(
        ranged,
        true,
        groups,
        Seq::<(bool, usize, Seq<char>)>::empty(),
    );
    let (_, names1) = derive_list(
        ranged,
        true,
        groups,
        Seq::<(bool, usize, Seq<char>)>::empty(),
    );
    lemma_derive_list_conserves(melee, false, groups, names1);
}

/// What finalizing a unit yields: for a crusade unit, the derived weapon
/// lists and the rank its experience earns; for any other unit, empty lists
/// and the rank it already had.
pub open spec fn spec_finalize(u: UnitView) -> (
    Seq<(WeaponView, u32)>,
    Seq<(WeaponView, u32)>,
    CrusadeRank,
) {
    if u.crusade_unit {
        let d = spec_derive(u.ranged_weapons, u.melee_weapons, u.crusade_data.upgrades);
        (d.0, d.1, spec_rank_for_exp(u.crusade_data.exp))
    } else {
        (
            Seq::<(WeaponView, u32)>::empty(),
            Seq::<(WeaponView, u32)>::empty(),
            u.crusade_data.rank,
        )
    }
}

/// Finalizing reads only the canonical fields — the weapon lists, the
/// upgrade list, the experience, and the stored rank — never the derived
/// `crusade_weapons` cache, so re-running it on the same canonical unit
/// yields the same result however the cache was left.
pub proof fn lemma_finalize_reads_canonical_fields(u1: UnitView, u2: UnitView)
    requires
        u1.crusade_unit == u2.crusade_unit,
        u1.ranged_weapons == u2.ranged_weapons,
        u1.melee_weapons == u2.melee_weapons,
        u1.crusade_data.upgrades == u2.crusade_data.upgrades,
        u1.crusade_data.exp == u2.crusade_data.exp,
        u1.crusade_data.rank == u2.crusade_data.rank,
    ensures
        spec_finalize(u1) == spec_finalize(u2),
{
}

/// Derives a unit's crusade weapon lists and rank from its canonical
/// fields, as [`spec_finalize`] states.
pub fn finalize_crusade(unit: &Unit) -> (r: (Vec<(Weapon, u32)>, Vec<(Weapon, u32)>, CrusadeRank))
    ensures
        r.0.deep_view() == spec_finalize(unit.deep_view()).0,
        r.1.deep_view() == spec_finalize(unit.deep_view()).1,
        r.2 == spec_finalize(unit.deep_view()).2,
{
    if unit.crusade_unit {
        let (crusade_ranged, crusade_melee) = derive_crusade_weapons(
            &unit.ranged_weapons,
            &unit.melee_weapons,
            &unit.crusade_data.upgrades,
        );
        (crusade_ranged, crusade_melee, rank_for_exp(unit.crusade_data.exp))
    } else {
        let empty_ranged: Vec<(Weapon, u32)> = Vec::new();
        let empty_melee: Vec<(Weapon, u32)> = Vec::new();
        proof {
            assert(empty_ranged.deep_view() =~= Seq::<(WeaponView, u32)>::empty());
            assert(empty_melee.deep_view() =~= Seq::<(WeaponView, u32)>::empty());
        }
        (empty_ranged, empty_melee, unit.crusade_data.rank)
    }
}

} // verus!
