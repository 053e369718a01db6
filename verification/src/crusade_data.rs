//! Crusade progression: ranks, upgrades, and the per-unit record.

use vstd::prelude::*;

use crate::abilities::Ability;
use crate::abilities::AbilityView;
use crate::index::ref_id_eq;
use crate::index::WeaponReference;
use crate::index::WeaponReferenceView;

verus! {

/// The crusade progression tiers.
#[derive(Debug, Clone, Copy, PartialEq, Eq, Structural)]
pub enum CrusadeRank {
    BattleReady,
    Blooded,
    BattleHardended,
    Heroic,
    Legendary,
}

impl Default for CrusadeRank {
    fn default() -> (r: Self)
        ensures
            r is BattleReady,
    {
        CrusadeRank::BattleReady
    }
}

/// The display text of a rank.
pub open spec fn rank_chars(r: CrusadeRank) -> Seq<char> {
    match r {
        CrusadeRank::BattleReady => ("Battle-ready")@,
        CrusadeRank::Blooded => ("Blooded")@,
        CrusadeRank::BattleHardended => ("Battle-hardened")@,
        CrusadeRank::Heroic => ("Heroic")@,
        CrusadeRank::Legendary => ("Legendary")@,
    }
}

/// The rank a unit's experience earns: up to 5 battle-ready, up to 15
/// blooded, up to 30 battle-hardened, up to 50 heroic, beyond that
/// legendary.
pub open spec fn spec_rank_for_exp(exp: u32) -> CrusadeRank {
    if exp < 6 {
        CrusadeRank::BattleReady
    } else if exp < 16 {
        CrusadeRank::Blooded
    } else if exp < 31 {
        CrusadeRank::BattleHardended
    } else if exp < 51 {
        CrusadeRank::Heroic
    } else {
        CrusadeRank::Legendary
    }
}

/// The rank a unit's experience earns.
pub fn rank_for_exp(exp: u32) -> (r: CrusadeRank)
    ensures
        r == spec_rank_for_exp(exp),
{
    if exp < 6 {
        CrusadeRank::BattleReady
    } else if exp < 16 {
        CrusadeRank::Blooded
    } else if exp < 31 {
        CrusadeRank::BattleHardended
    } else if exp < 51 {
        CrusadeRank::Heroic
    } else {
        CrusadeRank::Legendary
    }
}

impl CrusadeRank {
    /// The display text of the rank.
    pub fn to_string(&self) -> (r: &str)
        ensures
            r@ == rank_chars(*self),
    {
        match self {
            CrusadeRank::BattleReady => "Battle-ready",
            CrusadeRank::Blooded => "Blooded",
            CrusadeRank::BattleHardended => "Battle-hardened",
            CrusadeRank::Heroic => "Heroic",
            CrusadeRank::Legendary => "Legendary",
        }
    }
}

/// The six weapon fields an upgrade may change.
#[derive(Debug, Clone, Copy, PartialEq, Eq, Structural)]
pub enum WeaponModChange {
    Attacks,
    Skill,
    Strength,
    AP,
    Damage,
    Precise,
}

/// The display text of a changed field.
pub open spec fn change_chars(c: WeaponModChange) -> Seq<char> {
    match c {
        WeaponModChange::Attacks => ("Attacks")@,
        WeaponModChange::Skill => ("Skill")@,
        WeaponModChange::Strength => ("Strength")@,
        WeaponModChange::AP => ("AP")@,
        WeaponModChange::Damage => ("Damage")@,
        WeaponModChange::Precise => ("Precise")@,
    }
}

impl WeaponModChange {
    /// The display text of the changed field.
    pub fn to_string(&self) -> (r: &str)
        ensures
            r@ == change_chars(*self),
    {
        match self {
            WeaponModChange::Attacks => "Attacks",
            WeaponModChange::Skill => "Skill",
            WeaponModChange::Strength => "Strength",
            WeaponModChange::AP => "AP",
            WeaponModChange::Damage => "Damage",
            WeaponModChange::Precise => "Precise",
        }
    }
}

/// A named weapon modification: the two fields it changes and the weapon it
/// targets.
#[derive(Debug)]
pub struct WeaponMod {
    pub name: String,
    pub change_one: WeaponModChange,
    pub change_two: WeaponModChange,
    pub target: Option<WeaponReference>,
}

/// Spec-level image of a [`WeaponMod`].
#[verifier::ext_equal]
pub struct WeaponModView {
    pub name: Seq<char>,
    pub change_one: WeaponModChange,
    pub change_two: WeaponModChange,
    pub target: Option<WeaponReferenceView>,
}

impl DeepView for WeaponMod {
    type V = WeaponModView;

    open spec fn deep_view(&self) -> WeaponModView {
        WeaponModView {
            name: self.name@,
            change_one: self.change_one,
            change_two: self.change_two,
            target: self.target.deep_view(),
        }
    }
}

/// Equality of optional targets, each compared by its `(ranged, id)`
/// identity.
pub open spec fn target_eq(a: Option<WeaponReferenceView>, b: Option<WeaponReferenceView>) -> bool {
    match (a, b) {
        (Option::None, Option::None) => true,
        (Option::Some(x), Option::Some(y)) => ref_id_eq(x, y),
        _ => false,
    }
}

/// Equality of weapon modifications: same name, same target identity, and
/// the same two changed fields in either order.
pub open spec fn mod_eq(a: WeaponModView, b: WeaponModView) -> bool {
    &&& a.name == b.name
    &&& target_eq(a.target, b.target)
    &&& ((a.change_one == b.change_one && a.change_two == b.change_two) || (a.change_one
        == b.change_two && a.change_two == b.change_one))
}

impl Clone for WeaponMod {
    /// A clone keeps every field.
    fn clone(&self) -> (res: Self)
        ensures
            res == *self,
    {
        WeaponMod {
            name: self.name.clone(),
            change_one: self.change_one,
            change_two: self.change_two,
            target: match &self.target {
                Option::None => Option::None,
                Option::Some(r) => Option::Some(r.clone()),
            },
        }
    }
}

impl Default for WeaponMod {
    fn default() -> (r: Self)
        ensures
            r.name@ == Seq::<char>::empty(),
            r.change_one is Attacks,
            r.change_two is Skill,
            r.target is None,
    {
        WeaponMod {
            name: String::new(),
            change_one: WeaponModChange::Attacks,
            change_two: WeaponModChange::Skill,
            target: Option::None,
        }
    }
}

impl PartialEq for WeaponMod {
    /// Order-independent over the two changed fields: changing attacks and
    /// AP equals changing AP and attacks.
    fn eq(&self, other: &Self) -> bool {
        let targets_match = match (&self.target, &other.target) {
            (Option::None, Option::None) => true,
            (Option::Some(a), Option::Some(b)) => a.is_id(b.ranged, b.id),
            _ => false,
        };
        self.name == other.name && targets_match && ((self.change_one == other.change_one
            && self.change_two == other.change_two) || (self.change_one == other.change_two
            && self.change_two == other.change_one))
    }
}

impl vstd::std_specs::cmp::PartialEqSpecImpl for WeaponMod {
    open spec fn obeys_eq_spec() -> bool {
        true
    }

    open spec fn eq_spec(&self, other: &Self) -> bool {
        mod_eq(self.deep_view(), other.deep_view())
    }
}

/// True when the modification changes the given field.
pub open spec fn mod_changes(m: WeaponModView, c: WeaponModChange) -> bool {
    m.change_one == c || m.change_two == c
}

impl WeaponMod {
    /// Whether the modification changes the attacks value.
    pub fn attacks(&self) -> (r: bool)
        ensures
            r == mod_changes(self.deep_view(), WeaponModChange::Attacks),
    {
        self.change_one == WeaponModChange::Attacks || self.change_two == WeaponModChange::Attacks
    }

    /// Whether the modification changes the skill value.
    pub fn skill(&self) -> (r: bool)
        ensures
            r == mod_changes(self.deep_view(), WeaponModChange::Skill),
    {
        self.change_one == WeaponModChange::Skill || self.change_two == WeaponModChange::Skill
    }

    /// Whether the modification changes the strength value.
    pub fn strength(&self) -> (r: bool)
        ensures
            r == mod_changes(self.deep_view(), WeaponModChange::Strength),
    {
        self.change_one == WeaponModChange::Strength || self.change_two
            == WeaponModChange::Strength
    }

    /// Whether the modification changes the AP value.
    pub fn ap(&self) -> (r: bool)
        ensures
            r == mod_changes(self.deep_view(), WeaponModChange::AP),
    {
        self.change_one == WeaponModChange::AP || self.change_two == WeaponModChange::AP
    }

    /// Whether the modification changes the damage value.
    pub fn damage(&self) -> (r: bool)
        ensures
            r == mod_changes(self.deep_view(), WeaponModChange::Damage),
    {
        self.change_one == WeaponModChange::Damage || self.change_two == WeaponModChange::Damage
    }

    /// Whether the modification adds the precise keyword.
    pub fn precise(&self) -> (r: bool)
        ensures
            r == mod_changes(self.deep_view(), WeaponModChange::Precise),
    {
        self.change_one == WeaponModChange::Precise || self.change_two == WeaponModChange::Precise
    }
}

/// One applied crusade upgrade.  Only weapon modifications take part in
/// weapon derivation; relics and battle traits are display-only abilities.
#[derive(Debug)]
pub enum CrusadeUpgrade {
    WeaponMod(WeaponMod),
    Relic(Ability),
    BattleTrait(Ability),
}

/// Spec-level image of a [`CrusadeUpgrade`].
#[verifier::ext_equal]
pub enum CrusadeUpgradeView {
    WeaponMod(WeaponModView),
    Relic(AbilityView),
    BattleTrait(AbilityView),
}

impl DeepView for CrusadeUpgrade {
    type V = CrusadeUpgradeView;

    open spec fn deep_view(&self) -> CrusadeUpgradeView {
        match self {
            CrusadeUpgrade::WeaponMod(m) => CrusadeUpgradeView::WeaponMod(m.deep_view()),
            CrusadeUpgrade::Relic(a) => CrusadeUpgradeView::Relic(a.deep_view()),
            CrusadeUpgrade::BattleTrait(a) => CrusadeUpgradeView::BattleTrait(a.deep_view()),
        }
    }
}

impl Clone for CrusadeUpgrade {
    /// A clone keeps the variant and its payload.
    fn clone(&self) -> (res: Self)
        ensures
            res == *self,
    {
        match self {
            CrusadeUpgrade::WeaponMod(m) => CrusadeUpgrade::WeaponMod(m.clone()),
            CrusadeUpgrade::Relic(a) => CrusadeUpgrade::Relic(a.clone()),
            CrusadeUpgrade::BattleTrait(a) => CrusadeUpgrade::BattleTrait(a.clone()),
        }
    }
}

/// The display text of an upgrade's kind.
pub open spec fn upgrade_kind_chars(u: CrusadeUpgradeView) -> Seq<char> {
    match u {
        CrusadeUpgradeView::WeaponMod(_) => ("Weapon Mod")@,
        CrusadeUpgradeView::Relic(_) => ("Relic")@,
        CrusadeUpgradeView::BattleTrait(_) => ("Battle Trait")@,
    }
}

impl CrusadeUpgrade {
    /// The display text of the upgrade's kind.
    pub fn to_string(&self) -> (r: &str)
        ensures
            r@ == upgrade_kind_chars(self.deep_view()),
    {
        match self {
            CrusadeUpgrade::WeaponMod(_) => "Weapon Mod",
            CrusadeUpgrade::Relic(_) => "Relic",
            CrusadeUpgrade::BattleTrait(_) => "Battle Trait",
        }
    }
}

/// A unit's crusade record: experience, the rank derived from it, the
/// applied upgrades in order, and the kill tally.
#[derive(Debug)]
pub struct CrusadeUnitData {
    pub exp: u32,
    pub rank: CrusadeRank,
    pub upgrades: Vec<CrusadeUpgrade>,
    pub kills: u32,
}

/// Spec-level image of a [`CrusadeUnitData`].
#[verifier::ext_equal]
pub struct CrusadeUnitDataView {
    pub exp: u32,
    pub rank: CrusadeRank,
    pub upgrades: Seq<CrusadeUpgradeView>,
    pub kills: u32,
}

impl DeepView for CrusadeUnitData {
    type V = CrusadeUnitDataView;

    open spec fn deep_view(&self) -> CrusadeUnitDataView {
        CrusadeUnitDataView {
            exp: self.exp,
            rank: self.rank,
            upgrades: self.upgrades.deep_view(),
            kills: self.kills,
        }
    }
}

impl Clone for CrusadeUnitData {
    /// A clone keeps every field.
    fn clone(&self) -> (res: Self)
        ensures
            res.exp == self.exp,
            res.rank == self.rank,
            res.upgrades@ == self.upgrades@,
            res.kills == self.kills,
            res.deep_view() == self.deep_view(),
    {
        let upgrades = self.upgrades.clone();
        proof {
            assert(upgrades@ =~= self.upgrades@);
        }
        let res = CrusadeUnitData { exp: self.exp, rank: self.rank, upgrades, kills: self.kills };
        proof {
            assert(res.deep_view() =~= self.deep_view());
        }
        res
    }
}

impl Default for CrusadeUnitData {
    fn default() -> (r: Self)
        ensures
            r.exp == 0,
            r.rank is BattleReady,
            r.upgrades@.len() == 0,
            r.kills == 0,
    {
        CrusadeUnitData {
            exp: 0,
            rank: CrusadeRank::BattleReady,
            upgrades: Vec::new(),
            kills: 0,
        }
    }
}

} // verus!
