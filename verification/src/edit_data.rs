//! The edit-side mirror of a unit and its conversions.
//!
//! An edit representation keeps raw text where the canonical unit keeps
//! parsed values, so in-progress (even invalid) input survives a redraw.
//! Converting back to a canonical [`Unit`] re-parses those texts with safe
//! fallbacks, sanitises keywords, and runs the crusade derivation.

use vstd::prelude::*;

use crate::abilities::Ability;
use crate::abilities::AbilityView;
use crate::abilities::CoreAbility;
use crate::abilities::CoreAbilityView;
use crate::abilities::WeaponAbility;
use crate::abilities::WeaponAbilityView;
use crate::casing::to_uppercase_string;
use crate::casing::upper_of;
use crate::crusade_data::rank_for_exp;
use crate::crusade_data::spec_rank_for_exp;
use crate::crusade_data::CrusadeRank;
use crate::crusade_data::CrusadeUnitData;
use crate::crusade_data::CrusadeUnitDataView;
use crate::derivation::derive_crusade_weapons;
use crate::derivation::spec_derive;
use crate::index::WeaponReference;
use crate::index::WeaponReferenceView;
use crate::unit::Unit;
use crate::unit::UnitStats;
use crate::unit::UnitView;
use crate::variable_val::display_chars;
use crate::variable_val::parse_chars;
use crate::variable_val::VariableValue;
use crate::weapon::charge_from_edit;
use crate::weapon::charge_to_edit;
use crate::weapon::ChargeLevels;
use crate::weapon::Range;
use crate::weapon::Weapon;
use crate::weapon::WeaponView;

verus! {

/// The value a text parses to, or `fallback` when it does not parse.
pub open spec fn parse_or(s: Seq<char>, fallback: VariableValue) -> VariableValue {
    match parse_chars(s) {
        Some(v) => v,
        None => fallback,
    }
}

/// The stored AP value as an edit-side magnitude.
pub open spec fn spec_ap_magnitude(ap: i32) -> u32 {
    if ap >= 0 {
        ap as u32
    } else {
        (-(ap as int)) as u32
    }
}

/// An edit-side magnitude as the stored AP value, clamped into `i32`.
pub open spec fn spec_clamp_ap(mag: u32) -> i32 {
    if mag > i32::MAX as u32 {
        i32::MAX
    } else {
        mag as i32
    }
}

/// The edit-side mirror of a stat line: the optional invulnerable save is
/// split into a flag and a value.
#[derive(Debug, Clone, Copy)]
pub struct EditStats {
    pub movement: u32,
    pub toughness: u32,
    pub save: u32,
    pub has_invuln: bool,
    pub invuln: u32,
    pub wounds: u32,
    pub leadership: u32,
    pub objective_control: u32,
}

impl DeepView for EditStats {
    type V = EditStats;

    open spec fn deep_view(&self) -> EditStats {
        *self
    }
}

/// The edit mirror of a stat line; an absent invulnerable save edits as 4.
pub open spec fn edit_of_stats(s: UnitStats) -> EditStats {
    EditStats {
        movement: s.movement,
        toughness: s.toughness,
        save: s.save,
        has_invuln: s.invuln is Some,
        invuln: match s.invuln {
            Some(x) => x,
            None => 4,
        },
        wounds: s.wounds,
        leadership: s.leadership,
        objective_control: s.oc,
    }
}

/// The stat line an edit mirror denotes.
pub open spec fn stats_of_edit(e: EditStats) -> UnitStats {
    UnitStats {
        movement: e.movement,
        toughness: e.toughness,
        save: e.save,
        invuln: if e.has_invuln {
            Some(e.invuln)
        } else {
            None
        },
        wounds: e.wounds,
        leadership: e.leadership,
        oc: e.objective_control,
    }
}

impl EditStats {
    /// The edit mirror of a stat line.
    pub fn from_stats(stats: &UnitStats) -> (r: EditStats)
        ensures
            r == edit_of_stats(*stats),
    {
        EditStats {
            movement: stats.movement,
            toughness: stats.toughness,
            save: stats.save,
            has_invuln: stats.invuln.is_some(),
            invuln: match stats.invuln {
                Some(x) => x,
                None => 4,
            },
            wounds: stats.wounds,
            leadership: stats.leadership,
            objective_control: stats.oc,
        }
    }

    /// The stat line this mirror denotes.
    pub fn to_stats(&self) -> (r: UnitStats)
        ensures
            r == stats_of_edit(*self),
    {
        UnitStats {
            movement: self.movement,
            toughness: self.toughness,
            save: self.save,
            invuln: if self.has_invuln {
                Some(self.invuln)
            } else {
                None
            },
            wounds: self.wounds,
            leadership: self.leadership,
            oc: self.objective_control,
        }
    }
}

/// The edit-side mirror of a weapon: attacks and damage as raw text, the AP
/// as a magnitude, the charge level as its edit triple.
#[derive(Debug)]
pub struct WeaponEditData {
    pub name: String,
    pub range: u32,
    pub attacks: String,
    pub skill: u32,
    pub strength: u32,
    pub ap: u32,
    pub damage: String,
    pub keywords: Vec<WeaponAbility>,
    pub charge_levels_info: (bool, Option<WeaponReference>, String),
}

/// Spec-level image of a [`WeaponEditData`].
#[verifier::ext_equal]
pub struct WeaponEditDataView {
    pub name: Seq<char>,
    pub range: u32,
    pub attacks: Seq<char>,
    pub skill: u32,
    pub strength: u32,
    pub ap: u32,
    pub damage: Seq<char>,
    pub keywords: Seq<WeaponAbilityView>,
    pub charge_levels_info: (bool, Option<WeaponReferenceView>, Seq<char>),
}

impl DeepView for WeaponEditData {
    type V = WeaponEditDataView;

    open spec fn deep_view(&self) -> WeaponEditDataView {
        WeaponEditDataView {
            name: self.name@,
            range: self.range,
            attacks: self.attacks@,
            skill: self.skill,
            strength: self.strength,
            ap: self.ap,
            damage: self.damage@,
            keywords: self.keywords.deep_view(),
            charge_levels_info: self.charge_levels_info.deep_view(),
        }
    }
}

impl Clone for WeaponEditData {
    /// A clone keeps every field.
    fn clone(&self) -> (res: Self)
        ensures
            res.deep_view() == self.deep_view(),
    {
        let keywords = self.keywords.clone();
        proof {
            assert(keywords@ =~= self.keywords@);
        }
        let charge_levels_info = (
            self.charge_levels_info.0,
            match &self.charge_levels_info.1 {
                Some(r) => Some(r.clone()),
                None => None,
            },
            self.charge_levels_info.2.clone(),
        );
        let res = WeaponEditData {
            name: self.name.clone(),
            range: self.range,
            attacks: self.attacks.clone(),
            skill: self.skill,
            strength: self.strength,
            ap: self.ap,
            damage: self.damage.clone(),
            keywords,
            charge_levels_info,
        };
        proof {
            assert(res.deep_view() =~= self.deep_view());
        }
        res
    }
}

impl Default for WeaponEditData {
    fn default() -> (r: Self)
        ensures
            r.name@ == Seq::<char>::empty(),
            r.range == 1,
            r.attacks@ == ("1")@,
            r.skill == 1,
            r.strength == 1,
            r.ap == 0,
            r.damage@ == ("1")@,
            r.keywords@.len() == 0,
            r.charge_levels_info.0 == false,
            r.charge_levels_info.1 is None,
            r.charge_levels_info.2@ == Seq::<char>::empty(),
    {
        WeaponEditData {
            name: String::new(),
            range: 1,
            attacks: String::from_str("1"),
            skill: 1,
            strength: 1,
            ap: 0,
            damage: String::from_str("1"),
            keywords: Vec::new(),
            charge_levels_info: (false, None, String::new()),
        }
    }
}

/// The edit mirror of a weapon.
pub open spec fn edit_of_weapon(w: WeaponView) -> WeaponEditDataView {
    WeaponEditDataView {
        name: w.name,
        range: match w.range {
            Range::Ranged(x) => x,
            Range::Melee => 0,
        },
        attacks: display_chars(w.attacks),
        skill: w.skill,
        strength: w.strength,
        ap: spec_ap_magnitude(w.ap),
        damage: display_chars(w.damage),
        keywords: w.keywords,
        charge_levels_info: charge_to_edit(w.charge),
    }
}

/// A value/text keyword pair re-synchronised from its raw text: the text is
/// re-parsed (falling back to a fixed 1) and re-rendered canonically.
pub open spec fn resync_keyword(k: WeaponAbilityView) -> WeaponAbilityView {
    match k {
        WeaponAbilityView::Sustained(_, t) => {
            let v = parse_or(t, VariableValue::Fixed(1));
            WeaponAbilityView::Sustained(v, display_chars(v))
        },
        WeaponAbilityView::RapidFire(_, t) => {
            let v = parse_or(t, VariableValue::Fixed(1));
            WeaponAbilityView::RapidFire(v, display_chars(v))
        },
        _ => k,
    }
}

/// Every keyword of the list re-synchronised.
pub open spec fn resync_keywords(ks: Seq<WeaponAbilityView>) -> Seq<WeaponAbilityView> {
    Seq::new(ks.len(), |i: int| resync_keyword(ks[i]))
}

/// The weapon an edit mirror denotes: raw texts re-parsed with fallbacks,
/// range zero read as melee, the AP magnitude clamped into the stored type.
pub open spec fn weapon_of_edit(e: WeaponEditDataView) -> WeaponView {
    WeaponView {
        name: e.name,
        range: if e.range == 0 {
            Range::Melee
        } else {
            Range::Ranged(e.range)
        },
        attacks: parse_or(e.attacks, VariableValue::Fixed(0)),
        skill: e.skill,
        strength: e.strength,
        ap: spec_clamp_ap(e.ap),
        damage: parse_or(e.damage, VariableValue::Fixed(0)),
        keywords: resync_keywords(e.keywords),
        charge: charge_from_edit(
            e.charge_levels_info.0,
            e.charge_levels_info.1,
            e.charge_levels_info.2,
        ),
    }
}

/// Parses a variable-value text, falling back to a fixed 1 when it does not
/// parse, and pairs it with its canonical rendering.
fn reparse_pair(text: &String) -> (r: (VariableValue, String))
    ensures
        r.0 == parse_or(text@, VariableValue::Fixed(1)),
        r.1@ == display_chars(r.0),
{
    let val = match VariableValue::from_string(text.as_str()) {
        Ok(v) => v,
        Err(_) => VariableValue::Fixed(1),
    };
    let rendered = val.to_string();
    (val, rendered)
}

impl WeaponEditData {
    /// The edit mirror of a weapon.
    pub fn from_weapon(w: &Weapon) -> (r: Self)
        ensures
            r.deep_view() == edit_of_weapon(w.deep_view()),
    {
        let keywords = w.keywords.clone();
        proof {
            assert(keywords@ =~= w.keywords@);
        }
        let ap_magnitude: u32 = if w.ap >= 0 {
            w.ap as u32
        } else {
            let wide: i64 = -(w.ap as i64);
            wide as u32
        };
        let r = WeaponEditData {
            name: w.name.clone(),
            range: match w.range {
                Range::Ranged(x) => x,
                Range::Melee => 0,
            },
            attacks: w.attacks.to_string(),
            skill: w.skill,
            strength: w.strength,
            ap: ap_magnitude,
            damage: w.damage.to_string(),
            keywords,
            charge_levels_info: w.charge.to_edit(),
        };
        proof {
            assert(r.deep_view() =~= edit_of_weapon(w.deep_view()));
        }
        r
    }

    /// The weapon this mirror denotes.
    pub fn to_weapon(&self) -> (r: Weapon)
        ensures
            r.deep_view() == weapon_of_edit(self.deep_view()),
    {
        let ghost kv = self.keywords.deep_view();
        let n = self.keywords.len();
        let mut keywords: Vec<WeaponAbility> = Vec::new();
        let mut i: usize = 0;
        while i < n
            invariant
                0 <= i <= n,
                n == self.keywords@.len(),
                kv == self.keywords.deep_view(),
                keywords.deep_view().len() == i,
                forall|l: int|
                    0 <= l < i ==> keywords.deep_view()[l] == resync_keyword(#[trigger] kv[l]),
            decreases n - i,
        {
            match &self.keywords[i] {
                WeaponAbility::Sustained(_, text) => {
                    let (val, rendered) = reparse_pair(text);
                    keywords.push(WeaponAbility::Sustained(val, rendered));
                },
                WeaponAbility::RapidFire(_, text) => {
                    let (val, rendered) = reparse_pair(text);
                    keywords.push(WeaponAbility::RapidFire(val, rendered));
                },
                _ => {
                    keywords.push(self.keywords[i].clone());
                },
            }
            i = i + 1;
        }
        proof {
            assert(keywords.deep_view() =~= resync_keywords(kv));
        }
        let attacks = match VariableValue::from_string(self.attacks.as_str()) {
            Ok(v) => v,
            Err(_) => VariableValue::Fixed(0),
        };
        let damage = match VariableValue::from_string(self.damage.as_str()) {
            Ok(v) => v,
            Err(_) => VariableValue::Fixed(0),
        };
        let ap: i32 = if self.ap > i32::MAX as u32 {
            i32::MAX
        } else {
            self.ap as i32
        };
        let charge_info = (
            self.charge_levels_info.0,
            match &self.charge_levels_info.1 {
                Some(reference) => Some(reference.clone()),
                None => None,
            },
            self.charge_levels_info.2.clone(),
        );
        let r = Weapon {
            name: self.name.clone(),
            range: if self.range == 0 {
                Range::Melee
            } else {
                Range::Ranged(self.range)
            },
            attacks,
            skill: self.skill,
            strength: self.strength,
            ap,
            damage,
            keywords,
            charge: ChargeLevels::from_edit(charge_info.0, charge_info.1, charge_info.2),
        };
        proof {
            assert(r.deep_view() =~= weapon_of_edit(self.deep_view()));
        }
        r
    }
}

/// A value/text keyword pair whose text is the value's canonical rendering.
pub open spec fn keyword_synced(k: WeaponAbilityView) -> bool {
    match k {
        WeaponAbilityView::Sustained(v, t) => t == display_chars(v),
        WeaponAbilityView::RapidFire(v, t) => t == display_chars(v),
        _ => true,
    }
}

/// A weapon the edit mirror represents without loss: a ranged reach is
/// nonzero (a zero reach edits as melee), the AP follows the positive
/// penalty-magnitude convention (the mirror keeps only the magnitude), and
/// each value/text keyword pair is synced.
pub open spec fn weapon_canonical(w: WeaponView) -> bool {
    &&& match w.range {
        Range::Ranged(x) => x > 0,
        Range::Melee => true,
    }
    &&& w.ap >= 0
    &&& forall|i: int| 0 <= i < w.keywords.len() ==> keyword_synced(#[trigger] w.keywords[i])
}

/// Reading a canonical weapon out to its edit mirror and back gives the
/// weapon back.
pub proof fn lemma_weapon_edit_roundtrip(w: WeaponView)
    requires
        weapon_canonical(w),
    ensures
        weapon_of_edit(edit_of_weapon(w)) == w,
{
    crate::variable_val::lemma_display_parse_roundtrip(w.attacks);
    crate::variable_val::lemma_display_parse_roundtrip(w.damage);
    assert forall|i: int| 0 <= i < w.keywords.len() implies resync_keyword(#[trigger] w.keywords[i])
        == w.keywords[i] by {
        match w.keywords[i] {
            WeaponAbilityView::Sustained(v, _) => {
                crate::variable_val::lemma_display_parse_roundtrip(v);
            },
            WeaponAbilityView::RapidFire(v, _) => {
                crate::variable_val::lemma_display_parse_roundtrip(v);
            },
            _ => {},
        }
    }
    assert(resync_keywords(w.keywords) =~= w.keywords);
    crate::weapon::lemma_charge_edit_roundtrip(w.charge);
    assert(weapon_of_edit(edit_of_weapon(w)) =~= w);
}

/// The edit mirrors of a weapon list, each paired with its multiplicity.
pub open spec fn edits_of_weapons(ws: Seq<(WeaponView, u32)>) -> Seq<(WeaponEditDataView, u32)> {
    Seq::new(ws.len(), |i: int| (edit_of_weapon(ws[i].0), ws[i].1))
}

/// The weapons an edit list denotes, each paired with its multiplicity.
pub open spec fn weapons_of_edits(es: Seq<(WeaponEditDataView, u32)>) -> Seq<(WeaponView, u32)> {
    Seq::new(es.len(), |i: int| (weapon_of_edit(es[i].0), es[i].1))
}

/// The edit mirrors of the named extra stat lines.
pub open spec fn edits_of_statlines(xs: Seq<(Seq<char>, UnitStats)>) -> Seq<(Seq<char>, EditStats)> {
    Seq::new(xs.len(), |i: int| (xs[i].0, edit_of_stats(xs[i].1)))
}

/// The named extra stat lines an edit list denotes.
pub open spec fn statlines_of_edits(xs: Seq<(Seq<char>, EditStats)>) -> Seq<(Seq<char>, UnitStats)> {
    Seq::new(xs.len(), |i: int| (xs[i].0, stats_of_edit(xs[i].1)))
}

/// A core ability re-synchronised from its raw text (see
/// [`resync_keyword`]).
pub open spec fn resync_core(a: CoreAbilityView) -> CoreAbilityView {
    match a {
        CoreAbilityView::DeadlyDemise(_, t) => {
            let v = parse_or(t, VariableValue::Fixed(1));
            CoreAbilityView::DeadlyDemise(v, display_chars(v))
        },
        _ => a,
    }
}

/// Every core ability of the list re-synchronised.
pub open spec fn resync_cores(cs: Seq<CoreAbilityView>) -> Seq<CoreAbilityView> {
    Seq::new(cs.len(), |i: int| resync_core(cs[i]))
}

/// The unit keywords a save keeps: empty texts dropped, the rest folded to
/// uppercase.
pub open spec fn sanitize_keywords(ks: Seq<Seq<char>>) -> Seq<Seq<char>>
    decreases ks.len(),
{
    if ks.len() == 0 {
        Seq::<Seq<char>>::empty()
    } else {
        let pre = sanitize_keywords(ks.drop_last());
        if ks.last().len() == 0 {
            pre
        } else {
            pre.push(upper_of(ks.last()))
        }
    }
}

/// The edit-side mirror of a unit: optional fields split into flag/value
/// pairs, weapons as their edit mirrors, and the file name the unit is
/// edited under.
#[derive(Debug)]
pub struct UnitEditData {
    pub name: String,
    pub filename: String,
    pub prev_filename: String,
    pub stats: EditStats,
    pub extra_stats: (String, Vec<(String, EditStats)>),
    pub ranged_weapons: Vec<(WeaponEditData, u32)>,
    pub melee_weapons: Vec<(WeaponEditData, u32)>,
    pub faction_ability: (bool, String),
    pub core_abilities: Vec<CoreAbility>,
    pub unique_abilities: Vec<Ability>,
    pub faction_keyword: String,
    pub keywords: Vec<String>,
    pub damaged: (bool, u32),
    pub leader: (bool, Vec<String>),
    pub crusader: bool,
    pub crusade_data: CrusadeUnitData,
}

/// Spec-level image of a [`UnitEditData`].
#[verifier::ext_equal]
pub struct UnitEditDataView {
    pub name: Seq<char>,
    pub filename: Seq<char>,
    pub prev_filename: Seq<char>,
    pub stats: EditStats,
    pub extra_stats: (Seq<char>, Seq<(Seq<char>, EditStats)>),
    pub ranged_weapons: Seq<(WeaponEditDataView, u32)>,
    pub melee_weapons: Seq<(WeaponEditDataView, u32)>,
    pub faction_ability: (bool, Seq<char>),
    pub core_abilities: Seq<CoreAbilityView>,
    pub unique_abilities: Seq<AbilityView>,
    pub faction_keyword: Seq<char>,
    pub keywords: Seq<Seq<char>>,
    pub damaged: (bool, u32),
    pub leader: (bool, Seq<Seq<char>>),
    pub crusader: bool,
    pub crusade_data: CrusadeUnitDataView,
}

impl DeepView for UnitEditData {
    type V = UnitEditDataView;

    open spec fn deep_view(&self) -> UnitEditDataView {
        UnitEditDataView {
            name: self.name@,
            filename: self.filename@,
            prev_filename: self.prev_filename@,
            stats: self.stats,
            extra_stats: self.extra_stats.deep_view(),
            ranged_weapons: self.ranged_weapons.deep_view(),
            melee_weapons: self.melee_weapons.deep_view(),
            faction_ability: self.faction_ability.deep_view(),
            core_abilities: self.core_abilities.deep_view(),
            unique_abilities: self.unique_abilities.deep_view(),
            faction_keyword: self.faction_keyword@,
            keywords: self.keywords.deep_view(),
            damaged: self.damaged,
            leader: self.leader.deep_view(),
            crusader: self.crusader,
            crusade_data: self.crusade_data.deep_view(),
        }
    }
}

/// The edit mirror of a canonical unit, edited under `filename`.
pub open spec fn edit_of_unit(u: UnitView, filename: Seq<char>) -> UnitEditDataView {
    UnitEditDataView {
        name: u.name,
        filename: filename,
        prev_filename: filename,
        stats: edit_of_stats(u.stats),
        extra_stats: (u.extra_statlines.0, edits_of_statlines(u.extra_statlines.1)),
        ranged_weapons: edits_of_weapons(u.ranged_weapons),
        melee_weapons: edits_of_weapons(u.melee_weapons),
        faction_ability: (
            u.faction_ability is Some,
            match u.faction_ability {
                Some(t) => t,
                None => Seq::<char>::empty(),
            },
        ),
        core_abilities: u.core_abilities,
        unique_abilities: u.unique_abilities,
        faction_keyword: u.faction_keyword,
        keywords: u.keywords,
        damaged: (
            u.damaged is Some,
            match u.damaged {
                Some(x) => x,
                None => 4,
            },
        ),
        leader: (
            u.leader is Some,
            match u.leader {
                Some(v) => v,
                None => Seq::<Seq<char>>::empty(),
            },
        ),
        crusader: u.crusade_unit,
        crusade_data: u.crusade_data,
    }
}

/// The canonical unit an edit mirror denotes: weapons and abilities
/// re-synchronised, keywords sanitised, and — for a crusade unit — the
/// crusade weapon lists derived and the rank recomputed from experience.
pub open spec fn unit_of_edit(e: UnitEditDataView) -> UnitView {
    let ranged = weapons_of_edits(e.ranged_weapons);
    let melee = weapons_of_edits(e.melee_weapons);
    UnitView {
        name: e.name,
        stats: stats_of_edit(e.stats),
        extra_statlines: (e.extra_stats.0, statlines_of_edits(e.extra_stats.1)),
        ranged_weapons: ranged,
        melee_weapons: melee,
        faction_ability: if e.faction_ability.0 {
            Some(e.faction_ability.1)
        } else {
            None
        },
        core_abilities: resync_cores(e.core_abilities),
        unique_abilities: e.unique_abilities,
        faction_keyword: e.faction_keyword,
        keywords: sanitize_keywords(e.keywords),
        damaged: if e.damaged.0 {
            Some(e.damaged.1)
        } else {
            None
        },
        leader: if e.leader.0 {
            Some(e.leader.1)
        } else {
            None
        },
        crusade_unit: e.crusader,
        crusade_data: CrusadeUnitDataView {
            exp: e.crusade_data.exp,
            rank: if e.crusader {
                spec_rank_for_exp(e.crusade_data.exp)
            } else {
                e.crusade_data.rank
            },
            upgrades: e.crusade_data.upgrades,
            kills: e.crusade_data.kills,
        },
        crusade_weapons: if e.crusader {
            spec_derive(ranged, melee, e.crusade_data.upgrades)
        } else {
            (Seq::<(WeaponView, u32)>::empty(), Seq::<(WeaponView, u32)>::empty())
        },
    }
}

/// Clones a string list, keeping its texts.
fn clone_string_list(v: &Vec<String>) -> (r: Vec<String>)
    ensures
        r.deep_view() == v.deep_view(),
{
    let r = v.clone();
    proof {
        assert(r@ =~= v@);
        assert(r.deep_view() =~= v.deep_view());
    }
    r
}

impl UnitEditData {
    /// The edit mirror of a unit, edited under `filename`.
    pub fn from_unit(unit: &Unit, filename: String) -> (r: UnitEditData)
        ensures
            r.deep_view() == edit_of_unit(unit.deep_view(), filename@),
    {
        let mut ranged_weapons: Vec<(WeaponEditData, u32)> = Vec::new();
        let nr = unit.ranged_weapons.len();
        let mut i: usize = 0;
        while i < nr
            invariant
                0 <= i <= nr,
                nr == unit.ranged_weapons@.len(),
                ranged_weapons.deep_view().len() == i,
                forall|l: int|
                    0 <= l < i ==> ranged_weapons.deep_view()[l] == (
                        edit_of_weapon(#[trigger] unit.ranged_weapons.deep_view()[l].0),
                        unit.ranged_weapons.deep_view()[l].1,
                    ),
            decreases nr - i,
        {
            ranged_weapons.push(
                (WeaponEditData::from_weapon(&unit.ranged_weapons[i].0), unit.ranged_weapons[i].1),
            );
            i = i + 1;
        }
        let mut melee_weapons: Vec<(WeaponEditData, u32)> = Vec::new();
        let nm = unit.melee_weapons.len();
        let mut j: usize = 0;
        while j < nm
            invariant
                0 <= j <= nm,
                nm == unit.melee_weapons@.len(),
                melee_weapons.deep_view().len() == j,
                forall|l: int|
                    0 <= l < j ==> melee_weapons.deep_view()[l] == (
                        edit_of_weapon(#[trigger] unit.melee_weapons.deep_view()[l].0),
                        unit.melee_weapons.deep_view()[l].1,
                    ),
            decreases nm - j,
        {
            melee_weapons.push(
                (WeaponEditData::from_weapon(&unit.melee_weapons[j].0), unit.melee_weapons[j].1),
            );
            j = j + 1;
        }
        let mut extras: Vec<(String, EditStats)> = Vec::new();
        let ne = unit.extra_statlines.1.len();
        let mut k: usize = 0;
        while k < ne
            invariant
                0 <= k <= ne,
                ne == unit.extra_statlines.1@.len(),
                extras.deep_view().len() == k,
                forall|l: int|
                    0 <= l < k ==> extras.deep_view()[l] == (
                        #[trigger] unit.extra_statlines.1.deep_view()[l].0,
                        edit_of_stats(unit.extra_statlines.1.deep_view()[l].1),
                    ),
            decreases ne - k,
        {
            extras.push(
                (
                    unit.extra_statlines.1[k].0.clone(),
                    EditStats::from_stats(&unit.extra_statlines.1[k].1),
                ),
            );
            k = k + 1;
        }
        let core_abilities = unit.core_abilities.clone();
        let unique_abilities = unit.unique_abilities.clone();
        proof {
            assert(core_abilities@ =~= unit.core_abilities@);
            assert(core_abilities.deep_view() =~= unit.core_abilities.deep_view());
            assert(unique_abilities@ =~= unit.unique_abilities@);
            assert(unique_abilities.deep_view() =~= unit.unique_abilities.deep_view());
        }
        let prev_filename = filename.clone();
        let r = UnitEditData {
            name: unit.name.clone(),
            filename,
            prev_filename,
            stats: EditStats::from_stats(&unit.stats),
            extra_stats: (unit.extra_statlines.0.clone(), extras),
            ranged_weapons,
            melee_weapons,
            faction_ability: match &unit.faction_ability {
                Some(t) => (true, t.clone()),
                None => (false, String::new()),
            },
            core_abilities,
            unique_abilities,
            faction_keyword: unit.faction_keyword.clone(),
            keywords: clone_string_list(&unit.keywords),
            damaged: match unit.damaged {
                Some(x) => (true, x),
                None => (false, 4),
            },
            leader: match &unit.leader {
                Some(v) => (true, clone_string_list(v)),
                None => (false, Vec::new()),
            },
            crusader: unit.crusade_unit,
            crusade_data: unit.crusade_data.clone(),
        };
        proof {
            assert(r.deep_view() =~= edit_of_unit(unit.deep_view(), r.filename@));
        }
        r
    }

    /// The canonical unit this mirror denotes; for a crusade unit the
    /// crusade weapon lists are derived and the rank recomputed.
    pub fn to_unit(&self) -> (r: Unit)
        ensures
            r.deep_view() == unit_of_edit(self.deep_view()),
    {
        let ghost sv = self.deep_view();
        let mut ranged_weapons: Vec<(Weapon, u32)> = Vec::new();
        let nr = self.ranged_weapons.len();
        let mut i: usize = 0;
        while i < nr
            invariant
                0 <= i <= nr,
                nr == self.ranged_weapons@.len(),
                sv == self.deep_view(),
                ranged_weapons.deep_view().len() == i,
                forall|l: int|
                    0 <= l < i ==> ranged_weapons.deep_view()[l] == (
                        weapon_of_edit(#[trigger] sv.ranged_weapons[l].0),
                        sv.ranged_weapons[l].1,
                    ),
            decreases nr - i,
        {
            ranged_weapons.push((self.ranged_weapons[i].0.to_weapon(), self.ranged_weapons[i].1));
            i = i + 1;
        }
        proof {
            assert(ranged_weapons.deep_view() =~= weapons_of_edits(sv.ranged_weapons));
        }
        let mut melee_weapons: Vec<(Weapon, u32)> = Vec::new();
        let nm = self.melee_weapons.len();
        let mut j: usize = 0;
        while j < nm
            invariant
                0 <= j <= nm,
                nm == self.melee_weapons@.len(),
                sv == self.deep_view(),
                melee_weapons.deep_view().len() == j,
                forall|l: int|
                    0 <= l < j ==> melee_weapons.deep_view()[l] == (
                        weapon_of_edit(#[trigger] sv.melee_weapons[l].0),
                        sv.melee_weapons[l].1,
                    ),
            decreases nm - j,
        {
            melee_weapons.push((self.melee_weapons[j].0.to_weapon(), self.melee_weapons[j].1));
            j = j + 1;
        }
        proof {
            assert(melee_weapons.deep_view() =~= weapons_of_edits(sv.melee_weapons));
        }
        let ghost kv = self.keywords.deep_view();
        let mut sanitised: Vec<String> = Vec::new();
        let nk = self.keywords.len();
        let mut k: usize = 0;
        while k < nk
            invariant
                0 <= k <= nk,
                nk == self.keywords@.len(),
                kv == self.keywords.deep_view(),
                sanitised.deep_view() == sanitize_keywords(kv.take(k as int)),
            decreases nk - k,
        {
            proof {
                assert(kv.take(k + 1).drop_last() =~= kv.take(k as int));
                assert(kv.take(k + 1).last() == kv[k as int]);
            }
            if !self.keywords[k].as_str().is_empty() {
                sanitised.push(to_uppercase_string(self.keywords[k].as_str()));
                proof {
                    assert(sanitised.deep_view() =~= sanitize_keywords(kv.take(k + 1)));
                }
            }
            k = k + 1;
        }
        proof {
            assert(kv.take(nk as int) =~= kv);
        }
        let ghost cv = self.core_abilities.deep_view();
        let mut core_abilities: Vec<CoreAbility> = Vec::new();
        let nc = self.core_abilities.len();
        let mut c: usize = 0;
        while c < nc
            invariant
                0 <= c <= nc,
                nc == self.core_abilities@.len(),
                cv == self.core_abilities.deep_view(),
                core_abilities.deep_view().len() == c,
                forall|l: int|
                    0 <= l < c ==> core_abilities.deep_view()[l] == resync_core(#[trigger] cv[l]),
            decreases nc - c,
        {
            match &self.core_abilities[c] {
                CoreAbility::DeadlyDemise(_, text) => {
                    let (val, rendered) = reparse_pair(text);
                    core_abilities.push(CoreAbility::DeadlyDemise(val, rendered));
                },
                _ => {
                    core_abilities.push(self.core_abilities[c].clone());
                },
            }
            c = c + 1;
        }
        proof {
            assert(core_abilities.deep_view() =~= resync_cores(cv));
        }
        let mut extras: Vec<(String, UnitStats)> = Vec::new();
        let ne = self.extra_stats.1.len();
        let mut x: usize = 0;
        while x < ne
            invariant
                0 <= x <= ne,
                ne == self.extra_stats.1@.len(),
                sv == self.deep_view(),
                extras.deep_view().len() == x,
                forall|l: int|
                    0 <= l < x ==> extras.deep_view()[l] == (
                        #[trigger] sv.extra_stats.1[l].0,
                        stats_of_edit(sv.extra_stats.1[l].1),
                    ),
            decreases ne - x,
        {
            extras.push((self.extra_stats.1[x].0.clone(), self.extra_stats.1[x].1.to_stats()));
            x = x + 1;
        }
        proof {
            assert(extras.deep_view() =~= statlines_of_edits(sv.extra_stats.1));
        }
        let upgrades = self.crusade_data.upgrades.clone();
        proof {
            assert(upgrades@ =~= self.crusade_data.upgrades@);
            assert(upgrades.deep_view() =~= self.crusade_data.upgrades.deep_view());
        }
        let (crusade_ranged, crusade_melee, new_rank): (
            Vec<(Weapon, u32)>,
            Vec<(Weapon, u32)>,
            CrusadeRank,
        ) = if self.crusader {
            let (cr, cm) = derive_crusade_weapons(&ranged_weapons, &melee_weapons, &upgrades);
            (cr, cm, rank_for_exp(self.crusade_data.exp))
        } else {
            let er: Vec<(Weapon, u32)> = Vec::new();
            let em: Vec<(Weapon, u32)> = Vec::new();
            proof {
                assert(er.deep_view() =~= Seq::<(WeaponView, u32)>::empty());
                assert(em.deep_view() =~= Seq::<(WeaponView, u32)>::empty());
            }
            (er, em, self.crusade_data.rank)
        };
        let crusade_data = CrusadeUnitData {
            exp: self.crusade_data.exp,
            rank: new_rank,
            upgrades,
            kills: self.crusade_data.kills,
        };
        let unique_abilities = self.unique_abilities.clone();
        proof {
            assert(unique_abilities@ =~= self.unique_abilities@);
            assert(unique_abilities.deep_view() =~= self.unique_abilities.deep_view());
        }
        let r = Unit {
            name: self.name.clone(),
            stats: self.stats.to_stats(),
            extra_statlines: (self.extra_stats.0.clone(), extras),
            ranged_weapons,
            melee_weapons,
            faction_ability: if self.faction_ability.0 {
                Some(self.faction_ability.1.clone())
            } else {
                None
            },
            core_abilities,
            unique_abilities,
            faction_keyword: self.faction_keyword.clone(),
            keywords: sanitised,
            damaged: if self.damaged.0 {
                Some(self.damaged.1)
            } else {
                None
            },
            leader: if self.leader.0 {
                Some(clone_string_list(&self.leader.1))
            } else {
                None
            },
            crusade_unit: self.crusader,
            crusade_data,
            crusade_weapons: (crusade_ranged, crusade_melee),
        };
        proof {
            assert(r.deep_view() =~= unit_of_edit(sv));
        }
        r
    }
}

} // verus!
