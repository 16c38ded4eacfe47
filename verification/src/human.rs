//! Human-readable quantity labels built around the SI prefixes: picking the
//! prefix for a quantity's order of magnitude, superscript exponents, and the
//! assembly of the display strings.
//!
//! The numeric part — taking a logarithm, scaling, rounding to three
//! significant digits — is floating-point work done by the surrounding layer;
//! it hands this module the resulting magnitude and rounded digits as plain
//! values.

use vstd::prelude::*;
use vstd::string::StrSliceExecFns;
use vstd::string::StringExecFns;

verus! {

/// How many prefixes the SI table has.
pub const NUMBER_OF_PREFIXES: usize = 24;

/// The decimal order of magnitude of a quantity: none for zero (whose
/// logarithm has no floor), otherwise the floor of the base-ten logarithm of
/// its absolute value.
#[derive(Debug, Clone, Copy, PartialEq, Eq, Structural)]
pub enum Magnitude {
    Zero,
    Log10Floor(i32),
}

/// The greatest multiple of three at or below `m`.  SI prefixes step in
/// thousands, so a magnitude is rounded down to a multiple of three.
pub open spec fn floor_to_multiple_of_three(m: int) -> int {
    3 * (m / 3)
}

/// The exponent of the SI prefix used for a quantity of magnitude `m`: the
/// greatest thousands-step exponent at or below `m`, clamped to the table's
/// range, and none at all for zero or for magnitudes in `[0, 3)` — there is
/// no "zeroth" prefix.
pub open spec fn spec_pick_prefix(m: Magnitude) -> Option<i8> {
    match m {
        Magnitude::Zero => None,
        Magnitude::Log10Floor(g) => {
            if 0 <= g < 3 {
                None
            } else {
                let e = floor_to_multiple_of_three(g as int);
                let clamped = if e > 30 {
                    30int
                } else if e < -30 {
                    -30int
                } else {
                    e
                };
                Some(clamped as i8)
            }
        },
    }
}

/// Picks the SI prefix (by its base-ten exponent) for a quantity of the
/// given order of magnitude.
pub fn pick_prefix(m: Magnitude) -> (r: Option<i8>)
    ensures
        r == spec_pick_prefix(m),
{
    match m {
        Magnitude::Zero => None,
        Magnitude::Log10Floor(g) => {
            if g >= 0 && g < 3 {
                None
            } else if g >= 30 {
                proof {
                    assert(floor_to_multiple_of_three(g as int) >= 30) by (nonlinear_arith)
                        requires
                            g >= 30,
                    {
                    }
                }
                Some(30)
            } else if g >= 3 {
                let e = g - (g % 3);
                proof {
                    assert(g - (g % 3) == floor_to_multiple_of_three(g as int));
                    assert(3 <= e <= 27);
                }
                Some(e as i8)
            } else if g <= -31 {
                proof {
                    assert(floor_to_multiple_of_three(g as int) < -30) by (nonlinear_arith)
                        requires
                            g <= -31,
                    {
                    }
                }
                Some(-30)
            } else {
                // -30 <= g <= -1: round away from zero to the next multiple
                // of three, all in non-negative arithmetic.
                let d = -g;
                let q = (d + 2) / 3;
                let e = -(3 * q);
                proof {
                    assert(e == floor_to_multiple_of_three(g as int) && -30 <= e <= -3)
                        by (nonlinear_arith)
                        requires
                            -30 <= g <= -1,
                            d == -g,
                            q == ((d + 2) / 3) as int,
                            e == -(3 * q),
                    {
                    }
                }
                Some(e as i8)
            }
        },
    }
}

/// The characters an exponent's decimal form is made of, each of which has a
/// superscript twin.
pub open spec fn superscriptable(c: char) -> bool {
    ||| c == '0'
    ||| c == '1'
    ||| c == '2'
    ||| c == '3'
    ||| c == '4'
    ||| c == '5'
    ||| c == '6'
    ||| c == '7'
    ||| c == '8'
    ||| c == '9'
    ||| c == '+'
    ||| c == '-'
}

/// The superscript twin of a digit or sign character.
pub open spec fn spec_superscript_char(c: char) -> char {
    if c == '0' {
        '⁰'
    } else if c == '1' {
        '¹'
    } else if c == '2' {
        '²'
    } else if c == '3' {
        '³'
    } else if c == '4' {
        '⁴'
    } else if c == '5' {
        '⁵'
    } else if c == '6' {
        '⁶'
    } else if c == '7' {
        '⁷'
    } else if c == '8' {
        '⁸'
    } else if c == '9' {
        '⁹'
    } else if c == '+' {
        '⁺'
    } else {
        '⁻'
    }
}

/// The superscript twin of one character, as a one-character string slice.
fn superscript_char_str(c: char) -> (r: &'static str)
    requires
        superscriptable(c),
    ensures
        r@.len() == 1,
        r@[0] == spec_superscript_char(c),
{
    if c == '0' {
        proof {
            reveal_strlit("⁰");
        }
        "⁰"
    } else if c == '1' {
        proof {
            reveal_strlit("¹");
        }
        "¹"
    } else if c == '2' {
        proof {
            reveal_strlit("²");
        }
        "²"
    } else if c == '3' {
        proof {
            reveal_strlit("³");
        }
        "³"
    } else if c == '4' {
        proof {
            reveal_strlit("⁴");
        }
        "⁴"
    } else if c == '5' {
        proof {
            reveal_strlit("⁵");
        }
        "⁵"
    } else if c == '6' {
        proof {
            reveal_strlit("⁶");
        }
        "⁶"
    } else if c == '7' {
        proof {
            reveal_strlit("⁷");
        }
        "⁷"
    } else if c == '8' {
        proof {
            reveal_strlit("⁸");
        }
        "⁸"
    } else if c == '9' {
        proof {
            reveal_strlit("⁹");
        }
        "⁹"
    } else if c == '+' {
        proof {
            reveal_strlit("⁺");
        }
        "⁺"
    } else {
        proof {
            reveal_strlit("⁻");
        }
        "⁻"
    }
}

/// Rewrites a string of digits and signs — an exponent's decimal form — into
/// its superscript form, character by character.
pub fn superscrip(value: &str) -> (r: String)
    requires
        forall|i: int| 0 <= i < value@.len() ==> superscriptable(#[trigger] value@[i]),
    ensures
        r@.len() == value@.len(),
        forall|i: int|
            0 <= i < value@.len() ==> (#[trigger] r@[i]) == spec_superscript_char(value@[i]),
{
    let n = value.unicode_len();
    let mut r = String::new();
    let mut k: usize = 0;
    while k < n
        invariant
            n == value@.len(),
            forall|i: int| 0 <= i < value@.len() ==> superscriptable(#[trigger] value@[i]),
            k <= n,
            r@.len() == k,
            forall|i: int| 0 <= i < k ==> (#[trigger] r@[i]) == spec_superscript_char(value@[i]),
        decreases n - k,
    {
        let c = value.get_char(k);
        r.append(superscript_char_str(c));
        k = k + 1;
    }
    r
}

/// An exponent the SI table has a thousands-step prefix for.
pub open spec fn valid_prefix_exp(e: int) -> bool {
    e % 3 == 0 && -30 <= e <= 30 && e != 0
}

/// The decimal form of a thousands-step prefix exponent.
pub open spec fn spec_exp_digits(e: int) -> Seq<char> {
    if e == 3 {
        "3"@
    } else if e == 6 {
        "6"@
    } else if e == 9 {
        "9"@
    } else if e == 12 {
        "12"@
    } else if e == 15 {
        "15"@
    } else if e == 18 {
        "18"@
    } else if e == 21 {
        "21"@
    } else if e == 24 {
        "24"@
    } else if e == 27 {
        "27"@
    } else if e == 30 {
        "30"@
    } else if e == -3 {
        "-3"@
    } else if e == -6 {
        "-6"@
    } else if e == -9 {
        "-9"@
    } else if e == -12 {
        "-12"@
    } else if e == -15 {
        "-15"@
    } else if e == -18 {
        "-18"@
    } else if e == -21 {
        "-21"@
    } else if e == -24 {
        "-24"@
    } else if e == -27 {
        "-27"@
    } else {
        "-30"@
    }
}

/// The symbol of the thousands-step prefix with the given exponent.
pub open spec fn spec_symbol_of_exp(e: int) -> Seq<char> {
    if e == 3 {
        "k"@
    } else if e == 6 {
        "M"@
    } else if e == 9 {
        "G"@
    } else if e == 12 {
        "T"@
    } else if e == 15 {
        "P"@
    } else if e == 18 {
        "E"@
    } else if e == 21 {
        "Z"@
    } else if e == 24 {
        "Y"@
    } else if e == 27 {
        "R"@
    } else if e == 30 {
        "Q"@
    } else if e == -3 {
        "m"@
    } else if e == -6 {
        "μ"@
    } else if e == -9 {
        "n"@
    } else if e == -12 {
        "p"@
    } else if e == -15 {
        "f"@
    } else if e == -18 {
        "a"@
    } else if e == -21 {
        "z"@
    } else if e == -24 {
        "y"@
    } else if e == -27 {
        "r"@
    } else {
        "q"@
    }
}

/// The symbol of the prefix `pick_prefix` chose.
pub fn prefix_symbol(exp: i8) -> (r: &'static str)
    requires
        valid_prefix_exp(exp as int),
    ensures
        r@ == spec_symbol_of_exp(exp as int),
{
    if exp == 3 {
        "k"
    } else if exp == 6 {
        "M"
    } else if exp == 9 {
        "G"
    } else if exp == 12 {
        "T"
    } else if exp == 15 {
        "P"
    } else if exp == 18 {
        "E"
    } else if exp == 21 {
        "Z"
    } else if exp == 24 {
        "Y"
    } else if exp == 27 {
        "R"
    } else if exp == 30 {
        "Q"
    } else if exp == -3 {
        "m"
    } else if exp == -6 {
        "μ"
    } else if exp == -9 {
        "n"
    } else if exp == -12 {
        "p"
    } else if exp == -15 {
        "f"
    } else if exp == -18 {
        "a"
    } else if exp == -21 {
        "z"
    } else if exp == -24 {
        "y"
    } else if exp == -27 {
        "r"
    } else {
        "q"
    }
}

/// The decimal form of the prefix exponent `pick_prefix` chose, every
/// character of which has a superscript twin.
fn exp_decimal(exp: i8) -> (r: &'static str)
    requires
        valid_prefix_exp(exp as int),
    ensures
        r@ == spec_exp_digits(exp as int),
        forall|i: int| 0 <= i < r@.len() ==> superscriptable(#[trigger] r@[i]),
{
    let r: &'static str = if exp == 3 {
        "3"
    } else if exp == 6 {
        "6"
    } else if exp == 9 {
        "9"
    } else if exp == 12 {
        "12"
    } else if exp == 15 {
        "15"
    } else if exp == 18 {
        "18"
    } else if exp == 21 {
        "21"
    } else if exp == 24 {
        "24"
    } else if exp == 27 {
        "27"
    } else if exp == 30 {
        "30"
    } else if exp == -3 {
        "-3"
    } else if exp == -6 {
        "-6"
    } else if exp == -9 {
        "-9"
    } else if exp == -12 {
        "-12"
    } else if exp == -15 {
        "-15"
    } else if exp == -18 {
        "-18"
    } else if exp == -21 {
        "-21"
    } else if exp == -24 {
        "-24"
    } else if exp == -27 {
        "-27"
    } else {
        "-30"
    };
    proof {
        reveal_strlit("3");
        reveal_strlit("6");
        reveal_strlit("9");
        reveal_strlit("12");
        reveal_strlit("15");
        reveal_strlit("18");
        reveal_strlit("21");
        reveal_strlit("24");
        reveal_strlit("27");
        reveal_strlit("30");
        reveal_strlit("-3");
        reveal_strlit("-6");
        reveal_strlit("-9");
        reveal_strlit("-12");
        reveal_strlit("-15");
        reveal_strlit("-18");
        reveal_strlit("-21");
        reveal_strlit("-24");
        reveal_strlit("-27");
        reveal_strlit("-30");
    }
    r
}

/// The display label of a quantity rendered as a power of ten: the rounded
/// mantissa, a middle dot and `10` with the superscript exponent where a
/// prefix applies — the mantissa alone where none does, and the bare power
/// where the mantissa rounded to exactly one.
pub open spec fn spec_power_label(rounded: Seq<char>, exp: int, unit: Seq<char>) -> Seq<char> {
    if exp == 0 {
        rounded + unit
    } else {
        let sup = spec_exp_digits(exp).map(|_i: int, c: char| spec_superscript_char(c));
        if rounded == "1"@ {
            "10"@ + sup + unit
        } else {
            rounded + "·"@ + "10"@ + sup + unit
        }
    }
}

/// Assembles the power-of-ten display label from the rounded mantissa the
/// numeric layer produced, the chosen prefix exponent (zero when none
/// applies), and the unit.
pub fn round_with_power(rounded: &str, exp: i8, unit: &str) -> (r: String)
    requires
        exp == 0 || valid_prefix_exp(exp as int),
    ensures
        r@ == spec_power_label(rounded@, exp as int, unit@),
{
    if exp == 0 {
        String::from_str(rounded).concat(unit)
    } else {
        let digits = exp_decimal(exp);
        let pretty = superscrip(digits);
        proof {
            assert(pretty@ =~= spec_exp_digits(exp as int).map(
                |_i: int, c: char| spec_superscript_char(c),
            ));
        }
        let is_one = rounded.unicode_len() == 1 && rounded.get_char(0) == '1';
        proof {
            reveal_strlit("1");
            if is_one {
                assert(rounded@ =~= "1"@);
            } else {
                assert(rounded@ != "1"@);
            }
        }
        if is_one {
            String::from_str("10").concat(pretty.as_str()).concat(unit)
        } else {
            String::from_str(rounded).concat("·").concat("10").concat(pretty.as_str()).concat(unit)
        }
    }
}

/// Assembles the scaled-unit display label: the rounded digits the numeric
/// layer produced, then the prefix symbol (empty when no prefix applies),
/// then the unit.
pub fn round_with_scaled_unit(rounded: &str, symbol: &str, unit: &str) -> (r: String)
    ensures
        r@ == rounded@ + symbol@ + unit@,
{
    String::from_str(rounded).concat(symbol).concat(unit)
}

/// One row of the SI-prefix table as a chart datapoint: the display label
/// `name (symbol)` and the base-ten exponent of the prefix's size.  The
/// size itself, ten to this exponent, is a floating-point quantity of the
/// charting layer.
#[derive(Debug, Clone, PartialEq, Eq)]
pub struct Datapoint {
    pub name: String,
    pub exp: i8,
}

/// The base-ten exponent of the `i`-th prefix of the table, largest first.
pub open spec fn si_prefix_exp(i: int) -> int {
    seq![
        30int,
        27,
        24,
        21,
        18,
        15,
        12,
        9,
        6,
        3,
        2,
        1,
        -1,
        -2,
        -3,
        -6,
        -9,
        -12,
        -15,
        -18,
        -21,
        -24,
        -27,
        -30,
    ][i]
}

/// The name of the `i`-th prefix of the table.
pub open spec fn si_prefix_name(i: int) -> Seq<char> {
    seq![
        "quetta"@,
        "ronna"@,
        "yotta"@,
        "zetta"@,
        "exa"@,
        "peta"@,
        "tera"@,
        "giga"@,
        "mega"@,
        "kilo"@,
        "hecto"@,
        "deca"@,
        "deci"@,
        "centi"@,
        "milli"@,
        "micro"@,
        "nano"@,
        "pico"@,
        "femto"@,
        "atto"@,
        "zepto"@,
        "yocto"@,
        "ronto"@,
        "quecto"@,
    ][i]
}

/// The symbol of the `i`-th prefix of the table.
pub open spec fn si_prefix_symbol(i: int) -> Seq<char> {
    seq![
        "Q"@,
        "R"@,
        "Y"@,
        "Z"@,
        "E"@,
        "P"@,
        "T"@,
        "G"@,
        "M"@,
        "k"@,
        "h"@,
        "da"@,
        "d"@,
        "c"@,
        "m"@,
        "μ"@,
        "n"@,
        "p"@,
        "f"@,
        "a"@,
        "z"@,
        "y"@,
        "r"@,
        "q"@,
    ][i]
}

/// One datapoint, labelled `name (symbol)`.
fn dp(name: &str, symbol: &str, exp: i8) -> (d: Datapoint)
    ensures
        d.name@ == name@ + " ("@ + symbol@ + ")"@,
        d.exp == exp,
{
    let label = String::from_str(name).concat(" (").concat(symbol).concat(")");
    Datapoint { name: label, exp }
}

/// The SI-prefix table rendered as chart datapoints, largest prefix first:
/// one per prefix, labelled `name (symbol)` and sized by its base-ten
/// exponent.
pub fn prefix_datapoints() -> (r: Vec<Datapoint>)
    ensures
        r@.len() == NUMBER_OF_PREFIXES,
        forall|i: int|
            0 <= i < NUMBER_OF_PREFIXES ==> (#[trigger] r@[i]).exp as int == si_prefix_exp(i)
                && r@[i].name@ == si_prefix_name(i) + " ("@ + si_prefix_symbol(i) + ")"@,
{
    let mut r: Vec<Datapoint> = Vec::new();
    r.push(dp("quetta", "Q", 30));
    r.push(dp("ronna", "R", 27));
    r.push(dp("yotta", "Y", 24));
    r.push(dp("zetta", "Z", 21));
    r.push(dp("exa", "E", 18));
    r.push(dp("peta", "P", 15));
    r.push(dp("tera", "T", 12));
    r.push(dp("giga", "G", 9));
    r.push(dp("mega", "M", 6));
    r.push(dp("kilo", "k", 3));
    r.push(dp("hecto", "h", 2));
    r.push(dp("deca", "da", 1));
    r.push(dp("deci", "d", -1));
    r.push(dp("centi", "c", -2));
    r.push(dp("milli", "m", -3));
    r.push(dp("micro", "μ", -6));
    r.push(dp("nano", "n", -9));
    r.push(dp("pico", "p", -12));
    r.push(dp("femto", "f", -15));
    r.push(dp("atto", "a", -18));
    r.push(dp("zepto", "z", -21));
    r.push(dp("yocto", "y", -24));
    r.push(dp("ronto", "r", -27));
    r.push(dp("quecto", "q", -30));
    r
}

} // verus!
