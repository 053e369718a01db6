//! Variable values: a fixed number or a dice-roll expression.
//!
//! The text grammar is `N?D{3,6}(+M)?` for rolled values and a bare decimal
//! numeral for fixed ones.  `is_valid_text` states the grammar, `parse_chars`
//! the meaning of a text, and `display_chars` the canonical rendering;
//! `lemma_display_parse_roundtrip` proves that rendering and parsing invert.

use vstd::prelude::*;

use crate::decimal::all_digits;
use crate::decimal::dec_digits;
use crate::decimal::dec_val;
use crate::decimal::digit_val;
use crate::decimal::is_digit_char;
use crate::decimal::lemma_dec_digits_shape;
use crate::decimal::lemma_dec_val_of_digits;
use crate::decimal::push_dec;
use crate::decimal::u32_to_dec_string;

verus! {

/// The two die sizes a rolled value may use.
#[derive(Debug, Clone, Copy, PartialEq, Eq, Structural)]
pub enum Dice {
    D3,
    D6,
}

/// A fixed number, or `count` dice of a size plus a flat bonus.
#[derive(Debug, Clone, Copy, PartialEq, Eq, Structural)]
pub enum VariableValue {
    Fixed(u32),
    Rolled(u32, Dice, u32),
}

/// Returned when a text does not parse as a variable value.
#[derive(Debug, Clone, Copy, PartialEq, Eq, Structural)]
pub struct VariableValueConversionError;

/// The two characters that render a die.
pub open spec fn die_chars(d: Dice) -> Seq<char> {
    match d {
        Dice::D3 => seq!['D', '3'],
        Dice::D6 => seq!['D', '6'],
    }
}

/// Canonical rendering: the count is omitted when 1, the bonus when 0.
pub open spec fn display_chars(v: VariableValue) -> Seq<char> {
    match v {
        VariableValue::Fixed(n) => dec_digits(n as nat),
        VariableValue::Rolled(c, d, b) => (if c != 1 {
            dec_digits(c as nat)
        } else {
            Seq::<char>::empty()
        }) + die_chars(d) + (if b != 0 {
            seq!['+'] + dec_digits(b as nat)
        } else {
            Seq::<char>::empty()
        }),
    }
}

/// How many digit characters `s` starts with.
pub open spec fn count_leading_digits(s: Seq<char>) -> int
    decreases s.len(),
{
    if s.len() == 0 || !is_digit_char(s[0]) {
        0
    } else {
        1 + count_leading_digits(s.drop_first())
    }
}

/// A bare decimal numeral.
pub open spec fn is_const_text(s: Seq<char>) -> bool {
    s.len() >= 1 && all_digits(s)
}

/// A dice expression: optional count digits, `D`, the die size, and an
/// optional `+` followed by at least one bonus digit.
pub open spec fn is_dice_text(s: Seq<char>) -> bool {
    let k = count_leading_digits(s);
    &&& k + 2 <= s.len()
    &&& s[k] == 'D'
    &&& (s[k + 1] == '3' || s[k + 1] == '6')
    &&& (k + 2 == s.len() || (s[k + 2] == '+' && k + 4 <= s.len() && all_digits(s.skip(k + 3))))
}

/// The grammar of variable-value texts.
pub open spec fn is_valid_text(s: Seq<char>) -> bool {
    is_const_text(s) || is_dice_text(s)
}

/// The die named by its size character; meaningful when the character is
/// `'3'` or `'6'`.
pub open spec fn die_of_char(c: char) -> Dice {
    if c == '3' {
        Dice::D3
    } else {
        Dice::D6
    }
}

/// The value a text denotes: `None` when the text is outside the grammar or
/// a numeral in it exceeds `u32::MAX`.
pub open spec fn parse_chars(s: Seq<char>) -> Option<VariableValue> {
    if is_const_text(s) {
        if dec_val(s) <= u32::MAX {
            Some(VariableValue::Fixed(dec_val(s) as u32))
        } else {
            None
        }
    } else if is_dice_text(s) {
        let k = count_leading_digits(s);
        let count = if k == 0 {
            1
        } else {
            dec_val(s.take(k))
        };
        let bonus = if k + 2 == s.len() {
            0
        } else {
            dec_val(s.skip(k + 3))
        };
        if count <= u32::MAX && bonus <= u32::MAX {
            Some(
                VariableValue::Rolled(count as u32, die_of_char(s[k + 1]), bonus as u32),
            )
        } else {
            None
        }
    } else {
        None
    }
}

/// `add_one` raises a fixed value, or a rolled value's bonus, by one,
/// saturating at `u32::MAX`.
pub open spec fn spec_add_one(v: VariableValue) -> VariableValue {
    match v {
        VariableValue::Fixed(n) => VariableValue::Fixed(
            if n == u32::MAX {
                n
            } else {
                (n + 1) as u32
            },
        ),
        VariableValue::Rolled(c, d, b) => VariableValue::Rolled(
            c,
            d,
            if b == u32::MAX {
                b
            } else {
                (b + 1) as u32
            },
        ),
    }
}

/// When the first `i` characters are digits and the next one (if any) is
/// not, `i` is the leading-digit count.
pub proof fn lemma_count_leading_digits(s: Seq<char>, i: int)
    requires
        0 <= i <= s.len(),
        forall|j: int| 0 <= j < i ==> is_digit_char(#[trigger] s[j]),
        i == s.len() || !is_digit_char(s[i]),
    ensures
        count_leading_digits(s) == i,
    decreases s.len(),
{
    if i == 0 {
    } else {
        assert(is_digit_char(s[0]));
        let t = s.drop_first();
        assert(forall|j: int| 0 <= j < i - 1 ==> is_digit_char(#[trigger] t[j]));
        lemma_count_leading_digits(t, i - 1);
    }
}

/// Rendering a value and parsing the result gives the value back.
pub proof fn lemma_display_parse_roundtrip(v: VariableValue)
    ensures
        parse_chars(display_chars(v)) == Some(v),
{
    match v {
        VariableValue::Fixed(n) => {
            lemma_dec_digits_shape(n as nat);
            lemma_dec_val_of_digits(n as nat);
        },
        VariableValue::Rolled(c, d, b) => {
            let pre: Seq<char> = if c != 1 {
                dec_digits(c as nat)
            } else {
                Seq::<char>::empty()
            };
            let bon: Seq<char> = if b != 0 {
                seq!['+'] + dec_digits(b as nat)
            } else {
                Seq::<char>::empty()
            };
            let s = pre + die_chars(d) + bon;
            let k = pre.len() as int;
            if c != 1 {
                lemma_dec_digits_shape(c as nat);
                lemma_dec_val_of_digits(c as nat);
            }
            if b != 0 {
                lemma_dec_digits_shape(b as nat);
                lemma_dec_val_of_digits(b as nat);
            }
            assert(s[k] == 'D');
            assert(forall|j: int| 0 <= j < k ==> is_digit_char(#[trigger] s[j]));
            lemma_count_leading_digits(s, k);
            assert(!is_digit_char(s[k]));
            assert(!is_const_text(s));
            if b != 0 {
                assert(s[k + 2] == '+');
                assert(s.skip(k + 3) =~= dec_digits(b as nat));
            }
            assert(is_dice_text(s));
            if c != 1 {
                assert(s.take(k) =~= dec_digits(c as nat));
            }
            assert(s[k + 1] == die_chars(d)[1]);
            assert(die_of_char(s[k + 1]) == d);
            assert(parse_chars(s) == Some(v));
        },
    }
}

/// The digit value of a character, or `None` for a non-digit.
fn char_digit(c: char) -> (r: Option<u32>)
    ensures
        match r {
            Some(d) => is_digit_char(c) && d == digit_val(c) && d < 10,
            None => !is_digit_char(c),
        },
{
    match c {
        '0' => Some(0),
        '1' => Some(1),
        '2' => Some(2),
        '3' => Some(3),
        '4' => Some(4),
        '5' => Some(5),
        '6' => Some(6),
        '7' => Some(7),
        '8' => Some(8),
        '9' => Some(9),
        _ => None,
    }
}

/// Scans the digit run of `string` that starts at `from`: returns where it
/// ends, the number it denotes, and whether that number exceeds `u32::MAX`.
fn scan_digits(string: &str, from: usize) -> (r: (usize, u32, bool))
    requires
        from <= string@.len(),
    ensures
        ({
            let (end, val, over) = r;
            &&& from <= end <= string@.len()
            &&& (forall|j: int| from <= j < end ==> is_digit_char(#[trigger] string@[j]))
            &&& (end == string@.len() || !is_digit_char(string@[end as int]))
            &&& (!over ==> val == dec_val(string@.subrange(from as int, end as int)))
            &&& (over ==> dec_val(string@.subrange(from as int, end as int)) > u32::MAX)
        }),
{
    let ghost s = string@;
    let n = string.unicode_len();
    let mut i: usize = from;
    let mut val: u32 = 0;
    let mut over: bool = false;
    loop
        invariant_except_break
            from <= i <= n,
            n == s.len(),
            string@ == s,
            forall|j: int| from <= j < i ==> is_digit_char(#[trigger] s[j]),
            !over ==> val == dec_val(s.subrange(from as int, i as int)),
            over ==> dec_val(s.subrange(from as int, i as int)) > u32::MAX,
        ensures
            from <= i <= n,
            n == s.len(),
            forall|j: int| from <= j < i ==> is_digit_char(#[trigger] s[j]),
            i == n || !is_digit_char(s[i as int]),
            !over ==> val == dec_val(s.subrange(from as int, i as int)),
            over ==> dec_val(s.subrange(from as int, i as int)) > u32::MAX,
        decreases n - i,
    {
        if i >= n {
            break;
        }
        let c = string.get_char(i);
        let dopt = char_digit(c);
        if dopt.is_none() {
            break;
        }
        let d = dopt.unwrap();
        proof {
            assert(s.subrange(from as int, i + 1).drop_last() =~= s.subrange(
                from as int,
                i as int,
            ));
            assert(s.subrange(from as int, i + 1).last() == s[i as int]);
        }
        if !over {
            let wide: u64 = (val as u64) * 10 + (d as u64);
            if wide > u32::MAX as u64 {
                over = true;
            } else {
                val = wide as u32;
            }
        } else {
            proof {
                let prev = dec_val(s.subrange(from as int, i as int));
                assert(prev * 10 + digit_val(s[i as int]) > u32::MAX);
            }
        }
        i = i + 1;
    }
    (i, val, over)
}

impl Dice {
    /// The two-character name of the die.
    pub fn to_string(&self) -> (r: &str)
        ensures
            r@ == die_chars(*self),
    {
        proof {
            reveal_strlit("D3");
            reveal_strlit("D6");
        }
        match self {
            Dice::D3 => {
                proof {
                    assert(("D3")@ =~= die_chars(Dice::D3));
                }
                "D3"
            },
            Dice::D6 => {
                proof {
                    assert(("D6")@ =~= die_chars(Dice::D6));
                }
                "D6"
            },
        }
    }
}

impl VariableValue {
    /// The canonical text of the value.
    pub fn to_string(&self) -> (r: String)
        ensures
            r@ == display_chars(*self),
    {
        match *self {
            VariableValue::Fixed(val) => u32_to_dec_string(val),
            VariableValue::Rolled(count, die, add) => {
                let mut text = String::new();
                if count != 1 {
                    push_dec(&mut text, count);
                }
                text.append(die.to_string());
                if add != 0 {
                    proof {
                        reveal_strlit("+");
                    }
                    text.append("+");
                    proof {
                        assert(("+")@ =~= seq!['+']);
                    }
                    push_dec(&mut text, add);
                }
                proof {
                    assert(text@ =~= display_chars(*self));
                }
                text
            },
        }
    }

    /// Raises a fixed value, or a rolled value's bonus, by one, saturating
    /// at `u32::MAX`.
    pub fn add_one(&self) -> (r: VariableValue)
        ensures
            r == spec_add_one(*self),
    {
        match *self {
            VariableValue::Fixed(n) => VariableValue::Fixed(
                if n == u32::MAX {
                    n
                } else {
                    n + 1
                },
            ),
            VariableValue::Rolled(c, d, b) => VariableValue::Rolled(
                c,
                d,
                if b == u32::MAX {
                    b
                } else {
                    b + 1
                },
            ),
        }
    }

    /// Whether `string` is in the variable-value grammar.  Numerals of any
    /// length are in the grammar, even ones whose value `from_string`
    /// rejects as too large.
    pub fn is_valid_variable_val(string: &str) -> (r: bool)
        ensures
            r == is_valid_text(string@),
    {
        let ghost s = string@;
        let n = string.unicode_len();
        let (k, _, _) = scan_digits(string, 0);
        proof {
            lemma_count_leading_digits(s, k as int);
        }
        if k == n {
            proof {
                if n > 0 {
                    assert(s.subrange(0, n as int) =~= s);
                } else {
                    assert(count_leading_digits(s) + 2 > s.len());
                }
            }
            return n > 0;
        }
        let c = string.get_char(k);
        if c != 'D' {
            proof {
                assert(!is_digit_char(s[k as int]));
                assert(!is_const_text(s));
            }
            return false;
        }
        if k + 1 >= n {
            proof {
                assert(!is_digit_char(s[k as int]));
            }
            return false;
        }
        let die_c = string.get_char(k + 1);
        if die_c != '3' && die_c != '6' {
            proof {
                assert(!is_digit_char(s[k as int]));
            }
            return false;
        }
        if k + 2 == n {
            proof {
                assert(!is_digit_char(s[k as int]));
                assert(is_dice_text(s));
            }
            return true;
        }
        let plus_c = string.get_char(k + 2);
        if plus_c != '+' {
            proof {
                assert(!is_digit_char(s[k as int]));
            }
            return false;
        }
        if k + 3 >= n {
            proof {
                assert(!is_digit_char(s[k as int]));
            }
            return false;
        }
        let (j, _, _) = scan_digits(string, k + 3);
        proof {
            assert(!is_digit_char(s[k as int]));
            assert(!is_const_text(s));
            if j == n {
                assert(s.skip(k + 3) =~= s.subrange(k + 3, n as int));
                assert(is_dice_text(s));
            } else {
                assert(!is_digit_char(s[j as int]));
                assert(s.skip(k + 3)[j - (k + 3)] == s[j as int]);
                assert(!all_digits(s.skip(k + 3)));
                assert(!is_dice_text(s));
            }
        }
        j == n
    }

    /// Parses a text of the grammar into its value.  Returns an error for a
    /// text outside the grammar and for one whose count, fixed value or
    /// bonus exceeds `u32::MAX`.
    pub fn from_string(string: &str) -> (r: Result<Self, VariableValueConversionError>)
        ensures
            match r {
                Ok(v) => parse_chars(string@) == Some(v),
                Err(_) => parse_chars(string@) is None,
            },
    {
        let ghost s = string@;
        let n = string.unicode_len();
        let (k, val, over) = scan_digits(string, 0);
        proof {
            lemma_count_leading_digits(s, k as int);
            assert(s.subrange(0, k as int) =~= s.take(k as int));
        }
        if k == n {
            if n == 0 {
                proof {
                    assert(count_leading_digits(s) + 2 > s.len());
                }
                return Err(VariableValueConversionError);
            }
            proof {
                assert(s.subrange(0, n as int) =~= s);
            }
            if over {
                return Err(VariableValueConversionError);
            }
            return Ok(VariableValue::Fixed(val));
        }
        proof {
            assert(!is_digit_char(s[k as int]));
            assert(!is_const_text(s));
        }
        let c = string.get_char(k);
        if c != 'D' {
            return Err(VariableValueConversionError);
        }
        if k + 1 >= n {
            return Err(VariableValueConversionError);
        }
        let die_c = string.get_char(k + 1);
        let die = if die_c == '3' {
            Dice::D3
        } else if die_c == '6' {
            Dice::D6
        } else {
            return Err(VariableValueConversionError);
        };
        let count: u32 = if k == 0 {
            1
        } else {
            if over {
                proof {
                    assert(is_dice_text(s) ==> parse_chars(s) is None);
                }
                return Err(VariableValueConversionError);
            }
            val
        };
        if k + 2 == n {
            proof {
                assert(is_dice_text(s));
            }
            return Ok(VariableValue::Rolled(count, die, 0));
        }
        let plus_c = string.get_char(k + 2);
        if plus_c != '+' {
            return Err(VariableValueConversionError);
        }
        if k + 3 >= n {
            return Err(VariableValueConversionError);
        }
        let (j, bval, bover) = scan_digits(string, k + 3);
        if j < n {
            proof {
                assert(!is_digit_char(s[j as int]));
                assert(s.skip(k + 3)[j - (k + 3)] == s[j as int]);
                assert(!all_digits(s.skip(k + 3)));
                assert(!is_dice_text(s));
            }
            return Err(VariableValueConversionError);
        }
        proof {
            assert(s.skip(k + 3) =~= s.subrange(k + 3, n as int));
            assert(is_dice_text(s));
        }
        if bover {
            return Err(VariableValueConversionError);
        }
        Ok(VariableValue::Rolled(count, die, bval))
    }
}

} // verus!
