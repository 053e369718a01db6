//! Positional references between weapons.

use vstd::prelude::*;

verus! {

/// Spec-level image of a [`WeaponReference`].
#[verifier::ext_equal]
pub struct WeaponReferenceView {
    pub name: Seq<char>,
    pub ranged: bool,
    pub id: usize,
}

/// Identity of a reference: the `(ranged, id)` position, with the name
/// ignored.
pub open spec fn ref_id_eq(a: WeaponReferenceView, b: WeaponReferenceView) -> bool {
    a.ranged == b.ranged && a.id == b.id
}

/// A positional link to a weapon: which list (`ranged`) and which slot
/// (`id`), plus the name the weapon had when the link was made.
#[derive(Debug)]
pub struct WeaponReference {
    pub name: String,
    pub ranged: bool,
    pub id: usize,
}

impl DeepView for WeaponReference {
    type V = WeaponReferenceView;

    open spec fn deep_view(&self) -> WeaponReferenceView {
        WeaponReferenceView { name: self.name@, ranged: self.ranged, id: self.id }
    }
}

impl Clone for WeaponReference {
    /// A clone keeps all three fields.
    fn clone(&self) -> (res: Self)
        ensures
            res == *self,
    {
        WeaponReference { name: self.name.clone(), ranged: self.ranged, id: self.id }
    }
}

impl PartialEq for WeaponReference {
    /// Equality is over `(ranged, id)` alone: a reference tracks a position,
    /// not a name, because an upgrade may later rename its target.
    fn eq(&self, other: &Self) -> bool {
        self.ranged == other.ranged && self.id == other.id
    }
}

impl vstd::std_specs::cmp::PartialEqSpecImpl for WeaponReference {
    open spec fn obeys_eq_spec() -> bool {
        true
    }

    open spec fn eq_spec(&self, other: &Self) -> bool {
        ref_id_eq(self.deep_view(), other.deep_view())
    }
}

impl WeaponReference {
    pub fn new(name: String, ranged: bool, id: usize) -> (r: Self)
        ensures
            r.name == name,
            r.ranged == ranged,
            r.id == id,
    {
        Self { name, ranged, id }
    }

    /// True when this reference points at list `ranged`, slot `id`.
    pub fn is_id(&self, ranged: bool, id: usize) -> (r: bool)
        ensures
            r == (self.ranged == ranged && self.id == id),
    {
        self.ranged == ranged && self.id == id
    }
}

} // verus!
