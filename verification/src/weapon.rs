//! Weapons: range, charge-level links, stat lines and their rendering.

use vstd::prelude::*;

use crate::abilities::weapon_ability_chars;
use crate::abilities::WeaponAbility;
use crate::abilities::WeaponAbilityView;
use crate::decimal::dec_digits;
use crate::decimal::push_dec;
use crate::index::ref_id_eq;
use crate::index::WeaponReference;
use crate::index::WeaponReferenceView;
use crate::variable_val::display_chars;
use crate::variable_val::VariableValue;

verus! {

/// Melee, or ranged with a reach in inches.
#[derive(Debug, Clone, Copy, PartialEq, Eq, Structural)]
pub enum Range {
    Melee,
    Ranged(u32),
}

/// The text that renders a range.
pub open spec fn range_chars(r: Range) -> Seq<char> {
    match r {
        Range::Melee => ("Melee")@,
        Range::Ranged(x) => dec_digits(x as nat) + ("\"")@,
    }
}

impl Range {
    /// The display text of the range.
    pub fn to_string(&self) -> (r: String)
        ensures
            r@ == range_chars(*self),
    {
        match *self {
            Range::Melee => String::from_str("Melee"),
            Range::Ranged(x) => {
                let mut out = String::new();
                push_dec(&mut out, x);
                out.append("\"");
                proof {
                    assert(out@ =~= range_chars(*self));
                }
                out
            },
        }
    }
}

/// A weapon's place in a charge-level family: on its own, the parent that
/// defines the levels, or a child pointing at its parent's position.
#[derive(Debug)]
pub enum ChargeLevels {
    Standalone,
    Parent(String),
    Child(WeaponReference, String),
}

/// Spec-level image of a [`ChargeLevels`].
#[verifier::ext_equal]
pub enum ChargeLevelsView {
    Standalone,
    Parent(Seq<char>),
    Child(WeaponReferenceView, Seq<char>),
}

impl DeepView for ChargeLevels {
    type V = ChargeLevelsView;

    open spec fn deep_view(&self) -> ChargeLevelsView {
        match self {
            ChargeLevels::Standalone => ChargeLevelsView::Standalone,
            ChargeLevels::Parent(n) => ChargeLevelsView::Parent(n@),
            ChargeLevels::Child(r, n) => ChargeLevelsView::Child(r.deep_view(), n@),
        }
    }
}

impl Clone for ChargeLevels {
    /// A clone keeps the variant and its payload.
    fn clone(&self) -> (res: Self)
        ensures
            res == *self,
    {
        match self {
            ChargeLevels::Standalone => ChargeLevels::Standalone,
            ChargeLevels::Parent(n) => ChargeLevels::Parent(n.clone()),
            ChargeLevels::Child(r, n) => ChargeLevels::Child(r.clone(), n.clone()),
        }
    }
}

impl Default for ChargeLevels {
    fn default() -> (r: Self)
        ensures
            r is Standalone,
    {
        ChargeLevels::Standalone
    }
}

/// Equality of charge levels; a child's parent reference counts by its
/// `(ranged, id)` identity, as references themselves compare.
pub open spec fn charge_eq(a: ChargeLevelsView, b: ChargeLevelsView) -> bool {
    match (a, b) {
        (ChargeLevelsView::Standalone, ChargeLevelsView::Standalone) => true,
        (ChargeLevelsView::Parent(n1), ChargeLevelsView::Parent(n2)) => n1 == n2,
        (ChargeLevelsView::Child(r1, n1), ChargeLevelsView::Child(r2, n2)) => ref_id_eq(r1, r2)
            && n1 == n2,
        _ => false,
    }
}

impl PartialEq for ChargeLevels {
    fn eq(&self, other: &Self) -> bool {
        match (self, other) {
            (ChargeLevels::Standalone, ChargeLevels::Standalone) => true,
            (ChargeLevels::Parent(n1), ChargeLevels::Parent(n2)) => *n1 == *n2,
            (ChargeLevels::Child(r1, n1), ChargeLevels::Child(r2, n2)) => r1.is_id(
                r2.ranged,
                r2.id,
            ) && *n1 == *n2,
            _ => false,
        }
    }
}

impl vstd::std_specs::cmp::PartialEqSpecImpl for ChargeLevels {
    open spec fn obeys_eq_spec() -> bool {
        true
    }

    open spec fn eq_spec(&self, other: &Self) -> bool {
        charge_eq(self.deep_view(), other.deep_view())
    }
}

/// The edit-layer triple of a charge level: has levels, parent reference,
/// level name.
pub open spec fn charge_to_edit(c: ChargeLevelsView) -> (bool, Option<WeaponReferenceView>, Seq<
    char,
>) {
    match c {
        ChargeLevelsView::Standalone => (false, None, Seq::<char>::empty()),
        ChargeLevelsView::Parent(n) => (true, None, n),
        ChargeLevelsView::Child(r, n) => (true, Some(r), n),
    }
}

/// The charge level a triple denotes.
pub open spec fn charge_from_edit(
    has_levels: bool,
    reference: Option<WeaponReferenceView>,
    name: Seq<char>,
) -> ChargeLevelsView {
    if !has_levels {
        ChargeLevelsView::Standalone
    } else {
        match reference {
            None => ChargeLevelsView::Parent(name),
            Some(r) => ChargeLevelsView::Child(r, name),
        }
    }
}

/// Reading a charge level out to the edit triple and back gives it back.
pub proof fn lemma_charge_edit_roundtrip(c: ChargeLevelsView)
    ensures
        charge_from_edit(
            charge_to_edit(c).0,
            charge_to_edit(c).1,
            charge_to_edit(c).2,
        ) == c,
{
}

/// Building a charge level from a canonical triple and reading it out again
/// gives the triple back.  A triple without levels is canonical when its
/// reference and name are empty.
pub proof fn lemma_charge_edit_roundtrip_rev(
    has_levels: bool,
    reference: Option<WeaponReferenceView>,
    name: Seq<char>,
)
    requires
        !has_levels ==> reference is None && name.len() == 0,
    ensures
        charge_to_edit(charge_from_edit(has_levels, reference, name)) == (
            has_levels,
            reference,
            name,
        ),
{
    if !has_levels {
        assert(name =~= Seq::<char>::empty());
    }
}

impl ChargeLevels {
    /// The edit-layer triple of this charge level.
    pub fn to_edit(&self) -> (r: (bool, Option<WeaponReference>, String))
        ensures
            (r.0, r.1.deep_view(), r.2@) == charge_to_edit(self.deep_view()),
            match *self {
                ChargeLevels::Standalone => r.1 is None,
                ChargeLevels::Parent(_) => r.1 is None,
                ChargeLevels::Child(ref reference, _) => r.1 == Some(*reference),
            },
    {
        match self {
            ChargeLevels::Standalone => (false, None, String::new()),
            ChargeLevels::Parent(name) => (true, None, name.clone()),
            ChargeLevels::Child(reference, name) => (true, Some(reference.clone()), name.clone()),
        }
    }

    /// The charge level an edit-layer triple denotes.
    pub fn from_edit(exists_levels: bool, reference: Option<WeaponReference>, name: String) -> (r:
        Self)
        ensures
            r.deep_view() == charge_from_edit(exists_levels, reference.deep_view(), name@),
    {
        match (exists_levels, reference) {
            (false, _) => Self::Standalone,
            (true, None) => Self::Parent(name),
            (true, Some(weapon_ref)) => Self::Child(weapon_ref, name),
        }
    }
}

/// A weapon stat line.  `ap` stores the to-hit penalty magnitude: a positive
/// value renders with a leading minus sign.
#[derive(Debug)]
pub struct Weapon {
    pub name: String,
    pub range: Range,
    pub attacks: VariableValue,
    pub skill: u32,
    pub strength: u32,
    pub ap: i32,
    pub damage: VariableValue,
    pub keywords: Vec<WeaponAbility>,
    pub charge: ChargeLevels,
}

/// Spec-level image of a [`Weapon`].
#[verifier::ext_equal]
pub struct WeaponView {
    pub name: Seq<char>,
    pub range: Range,
    pub attacks: VariableValue,
    pub skill: u32,
    pub strength: u32,
    pub ap: i32,
    pub damage: VariableValue,
    pub keywords: Seq<WeaponAbilityView>,
    pub charge: ChargeLevelsView,
}

impl DeepView for Weapon {
    type V = WeaponView;

    open spec fn deep_view(&self) -> WeaponView {
        WeaponView {
            name: self.name@,
            range: self.range,
            attacks: self.attacks,
            skill: self.skill,
            strength: self.strength,
            ap: self.ap,
            damage: self.damage,
            keywords: self.keywords.deep_view(),
            charge: self.charge.deep_view(),
        }
    }
}

/// Equality of weapons, fieldwise, with charge levels compared as
/// [`charge_eq`] does.
pub open spec fn weapon_eq(a: WeaponView, b: WeaponView) -> bool {
    &&& a.name == b.name
    &&& a.range == b.range
    &&& a.attacks == b.attacks
    &&& a.skill == b.skill
    &&& a.strength == b.strength
    &&& a.ap == b.ap
    &&& a.damage == b.damage
    &&& a.keywords == b.keywords
    &&& charge_eq(a.charge, b.charge)
}

/// Compares two keyword lists by their contents.
fn keywords_eq(a: &Vec<WeaponAbility>, b: &Vec<WeaponAbility>) -> (r: bool)
    ensures
        r == (a.deep_view() == b.deep_view()),
{
    if a.len() != b.len() {
        proof {
            assert(a.deep_view().len() != b.deep_view().len());
        }
        return false;
    }
    let n = a.len();
    let mut i: usize = 0;
    while i < n
        invariant
            0 <= i <= n,
            n == a.len() == b.len(),
            forall|j: int| 0 <= j < i ==> a.deep_view()[j] == b.deep_view()[j],
        decreases n - i,
    {
        if !(a[i] == b[i]) {
            proof {
                assert(a.deep_view()[i as int] != b.deep_view()[i as int]);
            }
            return false;
        }
        i = i + 1;
    }
    proof {
        assert(a.deep_view() =~= b.deep_view());
    }
    true
}

impl Clone for Weapon {
    /// A clone keeps every field.
    fn clone(&self) -> (res: Self)
        ensures
            res.name == self.name,
            res.charge == self.charge,
            res.keywords@ == self.keywords@,
            res.deep_view() == self.deep_view(),
    {
        let keywords = self.keywords.clone();
        proof {
            assert(keywords@ =~= self.keywords@);
        }
        let res = Weapon {
            name: self.name.clone(),
            range: self.range,
            attacks: self.attacks,
            skill: self.skill,
            strength: self.strength,
            ap: self.ap,
            damage: self.damage,
            keywords,
            charge: self.charge.clone(),
        };
        proof {
            assert(res.deep_view() =~= self.deep_view());
        }
        res
    }
}

impl PartialEq for Weapon {
    fn eq(&self, other: &Self) -> bool {
        self.name == other.name && self.range == other.range && self.attacks == other.attacks
            && self.skill == other.skill && self.strength == other.strength && self.ap == other.ap
            && self.damage == other.damage && keywords_eq(&self.keywords, &other.keywords)
            && self.charge == other.charge
    }
}

impl vstd::std_specs::cmp::PartialEqSpecImpl for Weapon {
    open spec fn obeys_eq_spec() -> bool {
        true
    }

    open spec fn eq_spec(&self, other: &Self) -> bool {
        weapon_eq(self.deep_view(), other.deep_view())
    }
}

/// The render tuple of a weapon: name, range, attacks, skill, strength, AP,
/// damage, and the formatted keyword list.
pub type WeaponRenderTuple = (String, String, String, String, u32, String, String, String);

/// The render tuple with the keywords kept as separate strings.
pub type WeaponTuple = (String, String, String, String, u32, String, String, Vec<String>);

/// Whether a keyword list carries the torrent keyword, which replaces the
/// skill column with `N/A`.
pub open spec fn has_torrent(ks: Seq<WeaponAbilityView>) -> bool {
    exists|i: int| 0 <= i < ks.len() && ks[i] is Torrent
}

/// The text that renders the skill column: the to-hit roll, or `N/A` for a
/// torrent weapon.
pub open spec fn skill_chars(skill: u32, ks: Seq<WeaponAbilityView>) -> Seq<char> {
    if has_torrent(ks) {
        ("N/A")@
    } else {
        dec_digits(skill as nat) + ("+")@
    }
}

/// The text that renders the AP column.  A positive stored magnitude shows
/// with a leading minus sign; zero and negative values show as stored.
pub open spec fn ap_chars(ap: i32) -> Seq<char> {
    if ap > 0 {
        seq!['-'] + dec_digits(ap as nat)
    } else if ap == 0 {
        dec_digits(0)
    } else {
        seq!['-'] + dec_digits((-(ap as int)) as nat)
    }
}

/// The joined renders of the keywords of `ks` other than
/// `NoAbility`, separated by commas, paired with whether any was joined.
pub open spec fn keywords_join(ks: Seq<WeaponAbilityView>) -> (Seq<char>, bool)
    decreases ks.len(),
{
    if ks.len() == 0 {
        (Seq::<char>::empty(), false)
    } else {
        let (pre, any) = keywords_join(ks.drop_last());
        if ks.last() is NoAbility {
            (pre, any)
        } else {
            (
                (if any {
                    pre + (", ")@
                } else {
                    pre
                }) + weapon_ability_chars(ks.last()),
                true,
            )
        }
    }
}

/// The text that renders a keyword list: `[]` when nothing renders, else the
/// joined keywords in brackets.
pub open spec fn format_keywords_chars(ks: Seq<WeaponAbilityView>) -> Seq<char> {
    let (body, any) = keywords_join(ks);
    if any {
        ("[")@ + body + ("]")@
    } else {
        ("[]")@
    }
}

/// The render strings of the keywords of `ks` other than `NoAbility`, in
/// order.
pub open spec fn keyword_render_list(ks: Seq<WeaponAbilityView>) -> Seq<Seq<char>>
    decreases ks.len(),
{
    if ks.len() == 0 {
        Seq::<Seq<char>>::empty()
    } else {
        let pre = keyword_render_list(ks.drop_last());
        if ks.last() is NoAbility {
            pre
        } else {
            pre.push(weapon_ability_chars(ks.last()))
        }
    }
}

/// Whether `t` is the render tuple of the weapon `w`.
pub open spec fn render_tuple_matches(t: WeaponRenderTuple, w: WeaponView) -> bool {
    &&& t.0@ == w.name
    &&& t.1@ == range_chars(w.range)
    &&& t.2@ == display_chars(w.attacks)
    &&& t.3@ == skill_chars(w.skill, w.keywords)
    &&& t.4 == w.strength
    &&& t.5@ == ap_chars(w.ap)
    &&& t.6@ == display_chars(w.damage)
    &&& t.7@ == format_keywords_chars(w.keywords)
}

impl Weapon {
    /// Whether the keyword list carries the torrent keyword.
    fn keywords_have_torrent(&self) -> (r: bool)
        ensures
            r == has_torrent(self.keywords.deep_view()),
    {
        let n = self.keywords.len();
        let mut i: usize = 0;
        while i < n
            invariant
                0 <= i <= n,
                n == self.keywords.len(),
                forall|j: int| 0 <= j < i ==> !(self.keywords.deep_view()[j] is Torrent),
            decreases n - i,
        {
            if matches!(&self.keywords[i], WeaponAbility::Torrent) {
                proof {
                    assert(self.keywords.deep_view()[i as int] is Torrent);
                }
                return true;
            }
            i = i + 1;
        }
        false
    }

    /// The skill column of the stat line.
    fn render_skill(&self) -> (r: String)
        ensures
            r@ == skill_chars(self.skill, self.keywords.deep_view()),
    {
        if self.keywords_have_torrent() {
            String::from_str("N/A")
        } else {
            let mut out = String::new();
            push_dec(&mut out, self.skill);
            out.append("+");
            proof {
                assert(out@ =~= skill_chars(self.skill, self.keywords.deep_view()));
            }
            out
        }
    }

    /// The AP column of the stat line.
    fn render_ap(&self) -> (r: String)
        ensures
            r@ == ap_chars(self.ap),
    {
        if self.ap > 0 {
            let mut out = String::from_str("-");
            proof {
                reveal_strlit("-");
            }
            push_dec(&mut out, self.ap as u32);
            proof {
                assert(out@ =~= ap_chars(self.ap));
            }
            out
        } else if self.ap == 0 {
            let mut out = String::new();
            push_dec(&mut out, 0);
            proof {
                assert(out@ =~= ap_chars(self.ap));
            }
            out
        } else {
            let mut out = String::from_str("-");
            proof {
                reveal_strlit("-");
            }
            let wide: i64 = -(self.ap as i64);
            let mag: u32 = wide as u32;
            push_dec(&mut out, mag);
            proof {
                assert(out@ =~= ap_chars(self.ap));
            }
            out
        }
    }

    /// The formatted keyword list: `[]` when nothing renders, else the
    /// non-empty keywords joined with commas inside brackets.
    pub fn format_keywords(&self) -> (r: String)
        ensures
            r@ == format_keywords_chars(self.keywords.deep_view()),
    {
        let ghost ks = self.keywords.deep_view();
        let n = self.keywords.len();
        let mut acc = String::from_str("[");
        let mut any: bool = false;
        let mut i: usize = 0;
        while i < n
            invariant
                0 <= i <= n,
                n == self.keywords.len(),
                ks == self.keywords.deep_view(),
                acc@ == ("[")@ + keywords_join(ks.take(i as int)).0,
                any == keywords_join(ks.take(i as int)).1,
            decreases n - i,
        {
            proof {
                assert(ks.take(i + 1).drop_last() =~= ks.take(i as int));
                assert(ks.take(i + 1).last() == ks[i as int]);
            }
            let is_none_kw = matches!(&self.keywords[i], WeaponAbility::NoAbility);
            if !is_none_kw {
                if any {
                    acc.append(", ");
                }
                let rendered = self.keywords[i].to_render_string();
                acc.append(rendered.as_str());
                any = true;
                proof {
                    assert(acc@ =~= ("[")@ + keywords_join(ks.take(i + 1)).0);
                }
            }
            i = i + 1;
        }
        proof {
            assert(ks.take(n as int) =~= ks);
        }
        if !any {
            return String::from_str("[]");
        }
        acc.append("]");
        proof {
            assert(acc@ =~= format_keywords_chars(ks));
        }
        acc
    }

    /// The render tuple of the stat line.
    pub fn get_render_data(&self) -> (r: WeaponRenderTuple)
        ensures
            render_tuple_matches(r, self.deep_view()),
            r.0 == self.name,
    {
        (
            self.name.clone(),
            self.range.to_string(),
            self.attacks.to_string(),
            self.render_skill(),
            self.strength,
            self.render_ap(),
            self.damage.to_string(),
            self.format_keywords(),
        )
    }

    /// The render tuple with the keywords kept as a list of render strings
    /// rather than one bracketed text.
    pub fn to_html_data(&self) -> (r: WeaponTuple)
        ensures
            r.0 == self.name,
            r.1@ == range_chars(self.range),
            r.2@ == display_chars(self.attacks),
            r.3@ == skill_chars(self.skill, self.keywords.deep_view()),
            r.4 == self.strength,
            r.5@ == ap_chars(self.ap),
            r.6@ == display_chars(self.damage),
            r.7.deep_view() == keyword_render_list(self.keywords.deep_view()),
    {
        let ghost ks = self.keywords.deep_view();
        let n = self.keywords.len();
        let mut rendered: Vec<String> = Vec::new();
        let mut i: usize = 0;
        while i < n
            invariant
                0 <= i <= n,
                n == self.keywords.len(),
                ks == self.keywords.deep_view(),
                rendered.deep_view() == keyword_render_list(ks.take(i as int)),
            decreases n - i,
        {
            proof {
                assert(ks.take(i + 1).drop_last() =~= ks.take(i as int));
                assert(ks.take(i + 1).last() == ks[i as int]);
            }
            let is_none_kw = matches!(&self.keywords[i], WeaponAbility::NoAbility);
            if !is_none_kw {
                let text = self.keywords[i].to_render_string();
                rendered.push(text);
                proof {
                    assert(rendered.deep_view() =~= keyword_render_list(ks.take(i + 1)));
                }
            }
            i = i + 1;
        }
        proof {
            assert(ks.take(n as int) =~= ks);
        }
        (
            self.name.clone(),
            self.range.to_string(),
            self.attacks.to_string(),
            self.render_skill(),
            self.strength,
            self.render_ap(),
            self.damage.to_string(),
            rendered,
        )
    }
}

} // verus!
