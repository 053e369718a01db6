//! The canonical unit aggregate and its render accessors.

use vstd::prelude::*;

use crate::abilities::Ability;
use crate::abilities::AbilityView;
use crate::abilities::CoreAbility;
use crate::abilities::CoreAbilityView;
use crate::crusade_data::CrusadeUnitData;
use crate::crusade_data::CrusadeUnitDataView;
use crate::decimal::dec_digits;
use crate::decimal::u32_to_dec_string;
use crate::weapon::render_tuple_matches;
use crate::weapon::Weapon;
use crate::weapon::WeaponRenderTuple;
use crate::weapon::WeaponView;

verus! {

/// A unit's stat line.
#[derive(Debug, Clone, Copy)]
pub struct UnitStats {
    pub movement: u32,
    pub toughness: u32,
    pub save: u32,
    pub invuln: Option<u32>,
    pub wounds: u32,
    pub leadership: u32,
    pub oc: u32,
}

impl DeepView for UnitStats {
    type V = UnitStats;

    open spec fn deep_view(&self) -> UnitStats {
        *self
    }
}

impl Default for UnitStats {
    fn default() -> (r: Self)
        ensures
            r.movement == 0,
            r.toughness == 0,
            r.save == 0,
            r.invuln is None,
            r.wounds == 0,
            r.leadership == 0,
            r.oc == 0,
    {
        UnitStats {
            movement: 0,
            toughness: 0,
            save: 0,
            invuln: None,
            wounds: 0,
            leadership: 0,
            oc: 0,
        }
    }
}

/// The canonical, persisted unit: stats, weapon lists with multiplicities,
/// abilities, keywords, and the crusade record.  `crusade_weapons` is a
/// derived cache: it is meant to equal what the derivation engine computes
/// from the weapon lists and the upgrade list, and is recomputed rather than
/// trusted.
#[derive(Debug)]
pub struct Unit {
    pub name: String,
    pub stats: UnitStats,
    pub extra_statlines: (String, Vec<(String, UnitStats)>),
    pub ranged_weapons: Vec<(Weapon, u32)>,
    pub melee_weapons: Vec<(Weapon, u32)>,
    pub faction_ability: Option<String>,
    pub core_abilities: Vec<CoreAbility>,
    pub unique_abilities: Vec<Ability>,
    pub faction_keyword: String,
    pub keywords: Vec<String>,
    pub damaged: Option<u32>,
    pub leader: Option<Vec<String>>,
    pub crusade_unit: bool,
    pub crusade_data: CrusadeUnitData,
    pub crusade_weapons: (Vec<(Weapon, u32)>, Vec<(Weapon, u32)>),
}

/// Spec-level image of a [`Unit`].
#[verifier::ext_equal]
pub struct UnitView {
    pub name: Seq<char>,
    pub stats: UnitStats,
    pub extra_statlines: (Seq<char>, Seq<(Seq<char>, UnitStats)>),
    pub ranged_weapons: Seq<(WeaponView, u32)>,
    pub melee_weapons: Seq<(WeaponView, u32)>,
    pub faction_ability: Option<Seq<char>>,
    pub core_abilities: Seq<CoreAbilityView>,
    pub unique_abilities: Seq<AbilityView>,
    pub faction_keyword: Seq<char>,
    pub keywords: Seq<Seq<char>>,
    pub damaged: Option<u32>,
    pub leader: Option<Seq<Seq<char>>>,
    pub crusade_unit: bool,
    pub crusade_data: CrusadeUnitDataView,
    pub crusade_weapons: (Seq<(WeaponView, u32)>, Seq<(WeaponView, u32)>),
}

impl DeepView for Unit {
    type V = UnitView;

    open spec fn deep_view(&self) -> UnitView {
        UnitView {
            name: self.name@,
            stats: self.stats,
            extra_statlines: self.extra_statlines.deep_view(),
            ranged_weapons: self.ranged_weapons.deep_view(),
            melee_weapons: self.melee_weapons.deep_view(),
            faction_ability: self.faction_ability.deep_view(),
            core_abilities: self.core_abilities.deep_view(),
            unique_abilities: self.unique_abilities.deep_view(),
            faction_keyword: self.faction_keyword@,
            keywords: self.keywords.deep_view(),
            damaged: self.damaged,
            leader: self.leader.deep_view(),
            crusade_unit: self.crusade_unit,
            crusade_data: self.crusade_data.deep_view(),
            crusade_weapons: self.crusade_weapons.deep_view(),
        }
    }
}

impl Default for Unit {
    fn default() -> (r: Self)
        ensures
            r.name@ == Seq::<char>::empty(),
            r.stats.movement == 0 && r.stats.invuln is None,
            r.extra_statlines.0@ == Seq::<char>::empty(),
            r.extra_statlines.1@.len() == 0,
            r.ranged_weapons@.len() == 0,
            r.melee_weapons@.len() == 0,
            r.faction_ability is None,
            r.core_abilities@.len() == 1 && r.core_abilities@[0] is NoAbility,
            r.unique_abilities@.len() == 0,
            r.faction_keyword@ == Seq::<char>::empty(),
            r.keywords@.len() == 0,
            r.damaged is None,
            r.leader is None,
            !r.crusade_unit,
            r.crusade_data.exp == 0 && r.crusade_data.rank is BattleReady
                && r.crusade_data.upgrades@.len() == 0 && r.crusade_data.kills == 0,
            r.crusade_weapons.0@.len() == 0,
            r.crusade_weapons.1@.len() == 0,
    {
        Unit {
            name: String::new(),
            stats: UnitStats::default(),
            extra_statlines: (String::new(), Vec::new()),
            ranged_weapons: Vec::new(),
            melee_weapons: Vec::new(),
            faction_ability: None,
            core_abilities: vec![CoreAbility::NoAbility],
            unique_abilities: Vec::new(),
            faction_keyword: String::new(),
            keywords: Vec::new(),
            damaged: None,
            leader: None,
            crusade_unit: false,
            crusade_data: CrusadeUnitData::default(),
            crusade_weapons: (Vec::new(), Vec::new()),
        }
    }
}

/// Whether one of the texts of `ks` is exactly `s`.
pub open spec fn contains_text(ks: Seq<Seq<char>>, s: Seq<char>) -> bool {
    exists|i: int| 0 <= i < ks.len() && ks[i] == s
}

/// Whether one of the strings of `v` reads exactly as `s`.
fn contains_string(v: &Vec<String>, s: &str) -> (r: bool)
    ensures
        r == contains_text(v.deep_view(), s@),
{
    let needle = String::from_str(s);
    let n = v.len();
    let mut i: usize = 0;
    while i < n
        invariant
            0 <= i <= n,
            n == v@.len(),
            needle@ == s@,
            forall|l: int| 0 <= l < i ==> v.deep_view()[l] != s@,
        decreases n - i,
    {
        if v[i] == needle {
            proof {
                assert(v.deep_view()[i as int] == s@);
            }
            return true;
        }
        i = i + 1;
    }
    false
}

/// The movement text: a flying unit shows an open-ended value.
pub open spec fn movement_chars(u: UnitView) -> Seq<char> {
    if contains_text(u.keywords, ("AIRCRAFT")@) {
        ("20+")@
    } else {
        dec_digits(u.stats.movement as nat)
    }
}

/// The position of the last `/` of `s`, or `-1` when there is none.
pub open spec fn last_slash_pos(s: Seq<char>) -> int
    decreases s.len(),
{
    if s.len() == 0 {
        -1
    } else if s.last() == '/' {
        s.len() - 1
    } else {
        last_slash_pos(s.drop_last())
    }
}

/// The path without its last component: everything before the last `/`, or
/// nothing when there is no `/`.
pub open spec fn spec_strip_path(s: Seq<char>) -> Seq<char> {
    if last_slash_pos(s) < 0 {
        Seq::<char>::empty()
    } else {
        s.take(last_slash_pos(s))
    }
}

/// When `s[j]` is a `/` and nothing after it is, `j` is the last slash.
proof fn lemma_last_slash_at(s: Seq<char>, j: int)
    requires
        0 <= j < s.len(),
        s[j] == '/',
        forall|l: int| j < l < s.len() ==> s[l] != '/',
    ensures
        last_slash_pos(s) == j,
    decreases s.len(),
{
    if j == s.len() - 1 {
    } else {
        lemma_last_slash_at(s.drop_last(), j);
    }
}

/// When no character of `s` is a `/`, there is no last slash.
proof fn lemma_last_slash_none(s: Seq<char>)
    requires
        forall|l: int| 0 <= l < s.len() ==> s[l] != '/',
    ensures
        last_slash_pos(s) == -1,
    decreases s.len(),
{
    if s.len() == 0 {
    } else {
        lemma_last_slash_none(s.drop_last());
    }
}

/// The directory part of a path: everything before the last `/`, or nothing
/// when the path has no `/`.
pub fn strip_path(path: &String) -> (r: String)
    ensures
        r@ == spec_strip_path(path@),
{
    let s = path.as_str();
    let n = s.unicode_len();
    let mut i: usize = n;
    while i > 0
        invariant
            0 <= i <= n,
            n == s@.len(),
            s@ == path@,
            forall|l: int| i <= l < n ==> s@[l] != '/',
        decreases i,
    {
        if s.get_char(i - 1) == '/' {
            proof {
                lemma_last_slash_at(s@, i - 1);
            }
            let pre = s.substring_char(0, i - 1);
            return String::from_str(pre);
        }
        i = i - 1;
    }
    proof {
        lemma_last_slash_none(s@);
    }
    String::new()
}

impl Unit {
    /// The movement text: a flying unit shows an open-ended value.
    pub fn get_movement(&self) -> (r: String)
        ensures
            r@ == movement_chars(self.deep_view()),
    {
        if contains_string(&self.keywords, "AIRCRAFT") {
            String::from_str("20+")
        } else {
            u32_to_dec_string(self.stats.movement)
        }
    }

    /// The render tuples of the ranged weapons, in list order.
    pub fn get_ranged_weapon_list(&self) -> (r: Vec<WeaponRenderTuple>)
        ensures
            r@.len() == self.ranged_weapons@.len(),
            forall|i: int|
                0 <= i < r@.len() ==> render_tuple_matches(
                    #[trigger] r@[i],
                    self.ranged_weapons.deep_view()[i].0,
                ),
    {
        let n = self.ranged_weapons.len();
        let mut res: Vec<WeaponRenderTuple> = Vec::new();
        let mut i: usize = 0;
        while i < n
            invariant
                0 <= i <= n,
                n == self.ranged_weapons@.len(),
                res@.len() == i,
                forall|l: int|
                    0 <= l < i ==> render_tuple_matches(
                        #[trigger] res@[l],
                        self.ranged_weapons.deep_view()[l].0,
                    ),
            decreases n - i,
        {
            res.push(self.ranged_weapons[i].0.get_render_data());
            i = i + 1;
        }
        res
    }

    /// The render tuples of the melee weapons, in list order.
    pub fn get_melee_weapon_list(&self) -> (r: Vec<WeaponRenderTuple>)
        ensures
            r@.len() == self.melee_weapons@.len(),
            forall|i: int|
                0 <= i < r@.len() ==> render_tuple_matches(
                    #[trigger] r@[i],
                    self.melee_weapons.deep_view()[i].0,
                ),
    {
        let n = self.melee_weapons.len();
        let mut res: Vec<WeaponRenderTuple> = Vec::new();
        let mut i: usize = 0;
        while i < n
            invariant
                0 <= i <= n,
                n == self.melee_weapons@.len(),
                res@.len() == i,
                forall|l: int|
                    0 <= l < i ==> render_tuple_matches(
                        #[trigger] res@[l],
                        self.melee_weapons.deep_view()[l].0,
                    ),
            decreases n - i,
        {
            res.push(self.melee_weapons[i].0.get_render_data());
            i = i + 1;
        }
        res
    }

    /// The path of the unit's rendered page under `dir_path`.
    pub fn get_html_path(&self, dir_path: &String) -> (r: String)
        ensures
            r@ == dir_path@ + ("/")@ + self.name@ + (".html")@,
    {
        let mut out = String::new();
        out.append(dir_path.as_str());
        out.append("/");
        out.append(self.name.as_str());
        out.append(".html");
        proof {
            assert(out@ =~= dir_path@ + ("/")@ + self.name@ + (".html")@);
        }
        out
    }

    /// The path of the unit's rendered document under `dir_path`.
    pub fn get_pdf_path(&self, dir_path: &String) -> (r: String)
        ensures
            r@ == dir_path@ + ("/")@ + self.name@ + (".pdf")@,
    {
        let mut out = String::new();
        out.append(dir_path.as_str());
        out.append("/");
        out.append(self.name.as_str());
        out.append(".pdf");
        proof {
            assert(out@ =~= dir_path@ + ("/")@ + self.name@ + (".pdf")@);
        }
        out
    }
}

} // verus!
