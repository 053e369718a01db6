//! Unit-level and weapon-level abilities.

use vstd::prelude::*;

use crate::decimal::dec_digits;
use crate::decimal::push_dec;
use crate::variable_val::display_chars;
use crate::variable_val::VariableValue;

verus! {

/// A named free-text ability.
#[derive(Debug)]
pub struct Ability {
    pub name: String,
    pub description: String,
}

/// Spec-level image of an [`Ability`].
#[verifier::ext_equal]
pub struct AbilityView {
    pub name: Seq<char>,
    pub description: Seq<char>,
}

impl DeepView for Ability {
    type V = AbilityView;

    open spec fn deep_view(&self) -> AbilityView {
        AbilityView { name: self.name@, description: self.description@ }
    }
}

impl Clone for Ability {
    /// A clone keeps both fields.
    fn clone(&self) -> (res: Self)
        ensures
            res == *self,
    {
        Ability { name: self.name.clone(), description: self.description.clone() }
    }
}

impl Default for Ability {
    fn default() -> (r: Self)
        ensures
            r.name@ == Seq::<char>::empty(),
            r.description@ == Seq::<char>::empty(),
    {
        Ability { name: String::new(), description: String::new() }
    }
}

/// The closed set of unit-level core rules.
#[derive(Debug)]
pub enum CoreAbility {
    NoAbility,
    DeepStrike,
    Scouts(u32),
    Leader,
    Infiltrators,
    LoneOp,
    FiringDeck(u32),
    Stealth,
    FeelnoPain(u32),
    /// The parsed value is paired with the raw text it was parsed from, so
    /// an edit layer can keep in-progress text; the pair is re-synchronised
    /// when a unit is finalized.
    DeadlyDemise(VariableValue, String),
    FightsFirst,
}

/// Spec-level image of a [`CoreAbility`].
#[verifier::ext_equal]
pub enum CoreAbilityView {
    NoAbility,
    DeepStrike,
    Scouts(u32),
    Leader,
    Infiltrators,
    LoneOp,
    FiringDeck(u32),
    Stealth,
    FeelnoPain(u32),
    DeadlyDemise(VariableValue, Seq<char>),
    FightsFirst,
}

impl DeepView for CoreAbility {
    type V = CoreAbilityView;

    open spec fn deep_view(&self) -> CoreAbilityView {
        match self {
            CoreAbility::NoAbility => CoreAbilityView::NoAbility,
            CoreAbility::DeepStrike => CoreAbilityView::DeepStrike,
            CoreAbility::Scouts(x) => CoreAbilityView::Scouts(*x),
            CoreAbility::Leader => CoreAbilityView::Leader,
            CoreAbility::Infiltrators => CoreAbilityView::Infiltrators,
            CoreAbility::LoneOp => CoreAbilityView::LoneOp,
            CoreAbility::FiringDeck(x) => CoreAbilityView::FiringDeck(*x),
            CoreAbility::Stealth => CoreAbilityView::Stealth,
            CoreAbility::FeelnoPain(x) => CoreAbilityView::FeelnoPain(*x),
            CoreAbility::DeadlyDemise(v, t) => CoreAbilityView::DeadlyDemise(*v, t@),
            CoreAbility::FightsFirst => CoreAbilityView::FightsFirst,
        }
    }
}

impl Clone for CoreAbility {
    /// A clone keeps the variant and its payload.
    fn clone(&self) -> (res: Self)
        ensures
            res == *self,
    {
        match self {
            CoreAbility::NoAbility => CoreAbility::NoAbility,
            CoreAbility::DeepStrike => CoreAbility::DeepStrike,
            CoreAbility::Scouts(x) => CoreAbility::Scouts(*x),
            CoreAbility::Leader => CoreAbility::Leader,
            CoreAbility::Infiltrators => CoreAbility::Infiltrators,
            CoreAbility::LoneOp => CoreAbility::LoneOp,
            CoreAbility::FiringDeck(x) => CoreAbility::FiringDeck(*x),
            CoreAbility::Stealth => CoreAbility::Stealth,
            CoreAbility::FeelnoPain(x) => CoreAbility::FeelnoPain(*x),
            CoreAbility::DeadlyDemise(v, t) => CoreAbility::DeadlyDemise(*v, t.clone()),
            CoreAbility::FightsFirst => CoreAbility::FightsFirst,
        }
    }
}

impl Default for CoreAbility {
    fn default() -> (r: Self)
        ensures
            r is NoAbility,
    {
        CoreAbility::NoAbility
    }
}

/// The text that renders a core ability.
pub open spec fn core_ability_chars(a: CoreAbilityView) -> Seq<char> {
    match a {
        CoreAbilityView::NoAbility => Seq::<char>::empty(),
        CoreAbilityView::DeepStrike => ("Deep Strike")@,
        CoreAbilityView::Scouts(x) => ("Scouts ")@ + dec_digits(x as nat) + ("\"")@,
        CoreAbilityView::Leader => ("Leader")@,
        CoreAbilityView::Infiltrators => ("Infiltrators")@,
        CoreAbilityView::LoneOp => ("Lone Operative")@,
        CoreAbilityView::FiringDeck(x) => ("Firing Deck ")@ + dec_digits(x as nat),
        CoreAbilityView::Stealth => ("Stealth")@,
        CoreAbilityView::FeelnoPain(x) => ("Feel no Pain ")@ + dec_digits(x as nat) + ("+")@,
        CoreAbilityView::DeadlyDemise(v, _) => ("Deadly Demise ")@ + display_chars(v),
        CoreAbilityView::FightsFirst => ("Fights First")@,
    }
}

impl CoreAbility {
    /// The display text of the ability.
    pub fn to_string(&self) -> (r: String)
        ensures
            r@ == core_ability_chars(self.deep_view()),
    {
        match self {
            CoreAbility::NoAbility => String::new(),
            CoreAbility::DeepStrike => String::from_str("Deep Strike"),
            CoreAbility::Scouts(x) => {
                let mut out = String::from_str("Scouts ");
                push_dec(&mut out, *x);
                out.append("\"");
                proof {
                    assert(out@ =~= core_ability_chars(self.deep_view()));
                }
                out
            },
            CoreAbility::Leader => String::from_str("Leader"),
            CoreAbility::Infiltrators => String::from_str("Infiltrators"),
            CoreAbility::LoneOp => String::from_str("Lone Operative"),
            CoreAbility::FiringDeck(x) => {
                let mut out = String::from_str("Firing Deck ");
                push_dec(&mut out, *x);
                proof {
                    assert(out@ =~= core_ability_chars(self.deep_view()));
                }
                out
            },
            CoreAbility::Stealth => String::from_str("Stealth"),
            CoreAbility::FeelnoPain(x) => {
                let mut out = String::from_str("Feel no Pain ");
                push_dec(&mut out, *x);
                out.append("+");
                proof {
                    assert(out@ =~= core_ability_chars(self.deep_view()));
                }
                out
            },
            CoreAbility::DeadlyDemise(v, _) => {
                let mut out = String::from_str("Deadly Demise ");
                let val = v.to_string();
                out.append(val.as_str());
                proof {
                    assert(out@ =~= core_ability_chars(self.deep_view()));
                }
                out
            },
            CoreAbility::FightsFirst => String::from_str("Fights First"),
        }
    }
}

/// The closed set of weapon keywords.
#[derive(Debug)]
pub enum WeaponAbility {
    NoAbility,
    Assault,
    /// Parsed value paired with the raw text it came from (see
    /// [`CoreAbility::DeadlyDemise`]).
    RapidFire(VariableValue, String),
    IgnoresCover,
    TwinLinked,
    Pistol,
    Torrent,
    Lethal,
    Lance,
    Indirect,
    Precision,
    Blast,
    Melta(u32),
    Heavy,
    Hazardous,
    Dev,
    /// Parsed value paired with the raw text it came from.
    Sustained(VariableValue, String),
    ExtraAttacks,
    AntiX(String, u32),
    OneShot,
    Precise,
    Custom(String),
}

/// Spec-level image of a [`WeaponAbility`].
#[verifier::ext_equal]
pub enum WeaponAbilityView {
    NoAbility,
    Assault,
    RapidFire(VariableValue, Seq<char>),
    IgnoresCover,
    TwinLinked,
    Pistol,
    Torrent,
    Lethal,
    Lance,
    Indirect,
    Precision,
    Blast,
    Melta(u32),
    Heavy,
    Hazardous,
    Dev,
    Sustained(VariableValue, Seq<char>),
    ExtraAttacks,
    AntiX(Seq<char>, u32),
    OneShot,
    Precise,
    Custom(Seq<char>),
}

impl DeepView for WeaponAbility {
    type V = WeaponAbilityView;

    open spec fn deep_view(&self) -> WeaponAbilityView {
        match self {
            WeaponAbility::NoAbility => WeaponAbilityView::NoAbility,
            WeaponAbility::Assault => WeaponAbilityView::Assault,
            WeaponAbility::RapidFire(v, t) => WeaponAbilityView::RapidFire(*v, t@),
            WeaponAbility::IgnoresCover => WeaponAbilityView::IgnoresCover,
            WeaponAbility::TwinLinked => WeaponAbilityView::TwinLinked,
            WeaponAbility::Pistol => WeaponAbilityView::Pistol,
            WeaponAbility::Torrent => WeaponAbilityView::Torrent,
            WeaponAbility::Lethal => WeaponAbilityView::Lethal,
            WeaponAbility::Lance => WeaponAbilityView::Lance,
            WeaponAbility::Indirect => WeaponAbilityView::Indirect,
            WeaponAbility::Precision => WeaponAbilityView::Precision,
            WeaponAbility::Blast => WeaponAbilityView::Blast,
            WeaponAbility::Melta(x) => WeaponAbilityView::Melta(*x),
            WeaponAbility::Heavy => WeaponAbilityView::Heavy,
            WeaponAbility::Hazardous => WeaponAbilityView::Hazardous,
            WeaponAbility::Dev => WeaponAbilityView::Dev,
            WeaponAbility::Sustained(v, t) => WeaponAbilityView::Sustained(*v, t@),
            WeaponAbility::ExtraAttacks => WeaponAbilityView::ExtraAttacks,
            WeaponAbility::AntiX(k, x) => WeaponAbilityView::AntiX(k@, *x),
            WeaponAbility::OneShot => WeaponAbilityView::OneShot,
            WeaponAbility::Precise => WeaponAbilityView::Precise,
            WeaponAbility::Custom(t) => WeaponAbilityView::Custom(t@),
        }
    }
}

impl Clone for WeaponAbility {
    /// A clone keeps the variant and its payload.
    fn clone(&self) -> (res: Self)
        ensures
            res == *self,
    {
        match self {
            WeaponAbility::NoAbility => WeaponAbility::NoAbility,
            WeaponAbility::Assault => WeaponAbility::Assault,
            WeaponAbility::RapidFire(v, t) => WeaponAbility::RapidFire(*v, t.clone()),
            WeaponAbility::IgnoresCover => WeaponAbility::IgnoresCover,
            WeaponAbility::TwinLinked => WeaponAbility::TwinLinked,
            WeaponAbility::Pistol => WeaponAbility::Pistol,
            WeaponAbility::Torrent => WeaponAbility::Torrent,
            WeaponAbility::Lethal => WeaponAbility::Lethal,
            WeaponAbility::Lance => WeaponAbility::Lance,
            WeaponAbility::Indirect => WeaponAbility::Indirect,
            WeaponAbility::Precision => WeaponAbility::Precision,
            WeaponAbility::Blast => WeaponAbility::Blast,
            WeaponAbility::Melta(x) => WeaponAbility::Melta(*x),
            WeaponAbility::Heavy => WeaponAbility::Heavy,
            WeaponAbility::Hazardous => WeaponAbility::Hazardous,
            WeaponAbility::Dev => WeaponAbility::Dev,
            WeaponAbility::Sustained(v, t) => WeaponAbility::Sustained(*v, t.clone()),
            WeaponAbility::ExtraAttacks => WeaponAbility::ExtraAttacks,
            WeaponAbility::AntiX(k, x) => WeaponAbility::AntiX(k.clone(), *x),
            WeaponAbility::OneShot => WeaponAbility::OneShot,
            WeaponAbility::Precise => WeaponAbility::Precise,
            WeaponAbility::Custom(t) => WeaponAbility::Custom(t.clone()),
        }
    }
}

impl Default for WeaponAbility {
    fn default() -> (r: Self)
        ensures
            r is NoAbility,
    {
        WeaponAbility::NoAbility
    }
}

impl PartialEq for WeaponAbility {
    /// Equality compares the variant and its payload; the raw-text halves of
    /// value/text pairs take part, as they are distinct edit states.
    fn eq(&self, other: &Self) -> bool {
        match (self, other) {
            (WeaponAbility::NoAbility, WeaponAbility::NoAbility) => true,
            (WeaponAbility::Assault, WeaponAbility::Assault) => true,
            (WeaponAbility::RapidFire(v1, t1), WeaponAbility::RapidFire(v2, t2)) => *v1 == *v2
                && *t1 == *t2,
            (WeaponAbility::IgnoresCover, WeaponAbility::IgnoresCover) => true,
            (WeaponAbility::TwinLinked, WeaponAbility::TwinLinked) => true,
            (WeaponAbility::Pistol, WeaponAbility::Pistol) => true,
            (WeaponAbility::Torrent, WeaponAbility::Torrent) => true,
            (WeaponAbility::Lethal, WeaponAbility::Lethal) => true,
            (WeaponAbility::Lance, WeaponAbility::Lance) => true,
            (WeaponAbility::Indirect, WeaponAbility::Indirect) => true,
            (WeaponAbility::Precision, WeaponAbility::Precision) => true,
            (WeaponAbility::Blast, WeaponAbility::Blast) => true,
            (WeaponAbility::Melta(x1), WeaponAbility::Melta(x2)) => *x1 == *x2,
            (WeaponAbility::Heavy, WeaponAbility::Heavy) => true,
            (WeaponAbility::Hazardous, WeaponAbility::Hazardous) => true,
            (WeaponAbility::Dev, WeaponAbility::Dev) => true,
            (WeaponAbility::Sustained(v1, t1), WeaponAbility::Sustained(v2, t2)) => *v1 == *v2
                && *t1 == *t2,
            (WeaponAbility::ExtraAttacks, WeaponAbility::ExtraAttacks) => true,
            (WeaponAbility::AntiX(k1, x1), WeaponAbility::AntiX(k2, x2)) => *k1 == *k2 && *x1
                == *x2,
            (WeaponAbility::OneShot, WeaponAbility::OneShot) => true,
            (WeaponAbility::Precise, WeaponAbility::Precise) => true,
            (WeaponAbility::Custom(t1), WeaponAbility::Custom(t2)) => *t1 == *t2,
            _ => false,
        }
    }
}

impl vstd::std_specs::cmp::PartialEqSpecImpl for WeaponAbility {
    open spec fn obeys_eq_spec() -> bool {
        true
    }

    open spec fn eq_spec(&self, other: &Self) -> bool {
        self.deep_view() == other.deep_view()
    }
}

/// `x` clamped into `2..=6`, as the anti-keyword threshold is rendered.
pub open spec fn clamp_2_6(x: u32) -> u32 {
    if x < 2 {
        2
    } else if x > 6 {
        6
    } else {
        x
    }
}

/// The text that renders a weapon keyword.
pub open spec fn weapon_ability_chars(a: WeaponAbilityView) -> Seq<char> {
    match a {
        WeaponAbilityView::NoAbility => Seq::<char>::empty(),
        WeaponAbilityView::Assault => ("ASSAULT")@,
        WeaponAbilityView::RapidFire(v, _) => ("RAPID FIRE ")@ + display_chars(v),
        WeaponAbilityView::IgnoresCover => ("IGNORES COVER")@,
        WeaponAbilityView::TwinLinked => ("TWIN-LINKED")@,
        WeaponAbilityView::Pistol => ("PISTOL")@,
        WeaponAbilityView::Torrent => ("TORRENT")@,
        WeaponAbilityView::Lethal => ("LETHAL")@,
        WeaponAbilityView::Lance => ("LANCE")@,
        WeaponAbilityView::Indirect => ("INDIRECT FIRE")@,
        WeaponAbilityView::Precision => ("PRECISION")@,
        WeaponAbilityView::Blast => ("BLAST")@,
        WeaponAbilityView::Melta(x) => ("MELTA ")@ + dec_digits(x as nat),
        WeaponAbilityView::Heavy => ("HEAVY")@,
        WeaponAbilityView::Hazardous => ("HAZARDOUS")@,
        WeaponAbilityView::Dev => ("DEVASTATING WOUNDS")@,
        WeaponAbilityView::Sustained(v, _) => ("SUSTAINED HITS ")@ + display_chars(v),
        WeaponAbilityView::ExtraAttacks => ("EXTRA ATTACKS")@,
        WeaponAbilityView::AntiX(k, x) => ("ANTI-")@ + k + (" ")@ + dec_digits(
            clamp_2_6(x) as nat,
        ) + ("+")@,
        WeaponAbilityView::OneShot => ("ONE SHOT")@,
        WeaponAbilityView::Precise => ("PRECISE")@,
        WeaponAbilityView::Custom(t) => t,
    }
}

impl WeaponAbility {
    /// The display text of the keyword.
    pub fn to_string(&self) -> (r: String)
        ensures
            r@ == weapon_ability_chars(self.deep_view()),
    {
        match self {
            WeaponAbility::NoAbility => String::new(),
            WeaponAbility::Assault => String::from_str("ASSAULT"),
            WeaponAbility::RapidFire(v, _) => {
                let mut out = String::from_str("RAPID FIRE ");
                let val = v.to_string();
                out.append(val.as_str());
                proof {
                    assert(out@ =~= weapon_ability_chars(self.deep_view()));
                }
                out
            },
            WeaponAbility::IgnoresCover => String::from_str("IGNORES COVER"),
            WeaponAbility::TwinLinked => String::from_str("TWIN-LINKED"),
            WeaponAbility::Pistol => String::from_str("PISTOL"),
            WeaponAbility::Torrent => String::from_str("TORRENT"),
            WeaponAbility::Lethal => String::from_str("LETHAL"),
            WeaponAbility::Lance => String::from_str("LANCE"),
            WeaponAbility::Indirect => String::from_str("INDIRECT FIRE"),
            WeaponAbility::Precision => String::from_str("PRECISION"),
            WeaponAbility::Blast => String::from_str("BLAST"),
            WeaponAbility::Melta(x) => {
                let mut out = String::from_str("MELTA ");
                push_dec(&mut out, *x);
                proof {
                    assert(out@ =~= weapon_ability_chars(self.deep_view()));
                }
                out
            },
            WeaponAbility::Heavy => String::from_str("HEAVY"),
            WeaponAbility::Hazardous => String::from_str("HAZARDOUS"),
            WeaponAbility::Dev => String::from_str("DEVASTATING WOUNDS"),
            WeaponAbility::Sustained(v, _) => {
                let mut out = String::from_str("SUSTAINED HITS ");
                let val = v.to_string();
                out.append(val.as_str());
                proof {
                    assert(out@ =~= weapon_ability_chars(self.deep_view()));
                }
                out
            },
            WeaponAbility::ExtraAttacks => String::from_str("EXTRA ATTACKS"),
            WeaponAbility::AntiX(k, x) => {
                let mut out = String::from_str("ANTI-");
                out.append(k.as_str());
                out.append(" ");
                let t: u32 = if *x < 2 {
                    2
                } else if *x > 6 {
                    6
                } else {
                    *x
                };
                push_dec(&mut out, t);
                out.append("+");
                proof {
                    assert(out@ =~= weapon_ability_chars(self.deep_view()));
                }
                out
            },
            WeaponAbility::OneShot => String::from_str("ONE SHOT"),
            WeaponAbility::Precise => String::from_str("PRECISE"),
            WeaponAbility::Custom(t) => t.clone(),
        }
    }

    /// The display text of the keyword, as shown inside a formatted keyword
    /// list.
    pub fn to_render_string(&self) -> (r: String)
        ensures
            r@ == weapon_ability_chars(self.deep_view()),
    {
        self.to_string()
    }
}

} // verus!
