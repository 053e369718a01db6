//! Data model and crusade derivation engine for tabletop-wargame datasheets.
//!
//! The crate models unit stat cards: dice-expression values, weapons with
//! charge-level links, crusade upgrades, and the pure derivation that applies
//! a unit's accumulated upgrades to its weapon lists.

mod abilities;
mod casing;
mod crusade_data;
mod decimal;
mod derivation;
mod edit_data;
mod export;
mod index;
mod unit;
mod variable_val;
mod weapon;

pub use abilities::Ability;
pub use abilities::CoreAbility;
pub use abilities::WeaponAbility;
pub use crusade_data::rank_for_exp;
pub use crusade_data::CrusadeRank;
pub use crusade_data::CrusadeUnitData;
pub use crusade_data::CrusadeUpgrade;
pub use crusade_data::WeaponMod;
pub use crusade_data::WeaponModChange;
pub use derivation::derive_crusade_weapons;
pub use derivation::finalize_crusade;
pub use derivation::group_weapon_mods;
pub use edit_data::EditStats;
pub use edit_data::UnitEditData;
pub use edit_data::WeaponEditData;
pub use export::ExportType;
pub use index::WeaponReference;
pub use unit::strip_path;
pub use unit::Unit;
pub use unit::UnitStats;
pub use variable_val::Dice;
pub use variable_val::VariableValue;
pub use variable_val::VariableValueConversionError;
pub use weapon::ChargeLevels;
pub use weapon::Range;
pub use weapon::Weapon;
pub use weapon::WeaponRenderTuple;
pub use weapon::WeaponTuple;
