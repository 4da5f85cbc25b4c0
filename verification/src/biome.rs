//! Biome ids and the parts of a biome's data that are not numbers with a
//! fraction: its effect colors, which the registry codec writes as hex
//! strings such as `"#3f76e4"`.
use vstd::prelude::*;
use vstd::string::StringExecFns;

verus! {

/// The place of a biome in the biome registry.
#[derive(Clone, Copy, Debug, PartialEq, Eq, PartialOrd, Ord, Hash, Structural)]
pub struct BiomeId(u32);

impl View for BiomeId {
    type V = u32;

    /// The registry index the id stands for.
    closed spec fn view(&self) -> u32 {
        self.0
    }
}

impl Default for BiomeId {
    /// The id of the first biome of the registry.
    fn default() -> (id: Self)
        ensures
            id@ == 0,
    {
        BiomeId(0)
    }
}

/// The largest index a biome id can stand for.
pub const BIOME_ID_MAX: usize = 0xffff_ffff;

impl BiomeId {
    /// The registry index the id stands for.
    pub fn to_index(self) -> (i: usize)
        ensures
            i == self@,
    {
        self.0 as usize
    }

    /// The id of the given registry index; only the index's low 32 bits are
    /// kept, the registry holding no more than `BIOME_ID_MAX + 1` entries.
    pub fn from_index(idx: usize) -> (id: BiomeId)
        ensures
            id@ == idx as u32,
    {
        BiomeId(idx as u32)
    }
}

/// An id is fixed by its index, an id gives back its index, and an index
/// the registry can hold gives back its id.
pub proof fn law_biome_id_index(id: BiomeId, other: BiomeId, idx: usize)
    ensures
        other@ == id@ ==> other == id,
        (id@ as usize) as u32 == id@,
        idx <= BIOME_ID_MAX ==> (idx as u32) as usize == idx,
{
}

/// The colors and the grass modifier of a biome; the colors are packed as
/// ARGB.
#[derive(Clone, Debug, PartialEq, Eq)]
pub struct BiomeEffects {
    pub water_color: Option<u32>,
    pub foliage_color: Option<u32>,
    pub grass_color: Option<u32>,
    pub dry_foliage_color: Option<u32>,
    pub grass_color_modifier: Option<String>,
}

impl Default for BiomeEffects {
    fn default() -> (e: Self)
        ensures
            e.water_color is None,
            e.foliage_color is None,
            e.grass_color is None,
            e.dry_foliage_color is None,
            e.grass_color_modifier is None,
    {
        BiomeEffects {
            water_color: None,
            foliage_color: None,
            grass_color: None,
            dry_foliage_color: None,
            grass_color_modifier: None,
        }
    }
}

/// The value of a hexadecimal digit, either case.
pub open spec fn hex_digit(c: char) -> Option<nat> {
    let n = c as u32;
    if 48 <= n <= 57 {
        Some((n - 48) as nat)
    } else if 97 <= n <= 102 {
        Some((n - 87) as nat)
    } else if 65 <= n <= 70 {
        Some((n - 55) as nat)
    } else {
        None
    }
}

/// Whether every character of `s` is a hexadecimal digit.
pub open spec fn all_hex_digits(s: Seq<char>) -> bool {
    forall|i: int| 0 <= i < s.len() ==> (#[trigger] hex_digit(s[i])) is Some
}

/// The number the hexadecimal digits of `s` spell, most significant first.
pub open spec fn hex_value(s: Seq<char>) -> nat
    decreases s.len(),
{
    if s.len() == 0 {
        0
    } else {
        16 * hex_value(s.drop_last()) + match hex_digit(s.last()) {
            Some(d) => d,
            None => 0,
        }
    }
}

/// The `u32` a string spells in base 16: an optional `+`, then one or more
/// hexadecimal digits, whose value must fit.
pub open spec fn parse_hex_u32(s: Seq<char>) -> Option<u32> {
    let digits = if s.len() > 0 && s[0] == '+' {
        s.drop_first()
    } else {
        s
    };
    if digits.len() > 0 && all_hex_digits(digits) && hex_value(digits) <= u32::MAX {
        Some(hex_value(digits) as u32)
    } else {
        None
    }
}

/// The color a hex color string names: the base-16 number after an
/// optional leading `#`.
pub open spec fn parse_hex_color_text(s: Seq<char>) -> Option<u32> {
    parse_hex_u32(
        if s.len() > 0 && s[0] == '#' {
            s.drop_first()
        } else {
            s
        },
    )
}

/// The lower-case hexadecimal digit of `d`.
pub open spec fn hex_char(d: nat) -> char {
    if d < 10 {
        (48 + d) as char
    } else {
        (87 + d) as char
    }
}

/// The last `n` hexadecimal digits of `v`, most significant first, with
/// leading zeros.
pub open spec fn hex_digits(v: nat, n: nat) -> Seq<char>
    decreases n,
{
    if n == 0 {
        Seq::empty()
    } else {
        hex_digits(v / 16, (n - 1) as nat).push(hex_char(v % 16))
    }
}

/// How a color is written: `#` and eight lower-case hexadecimal digits.
pub open spec fn hex_color_text(v: u32) -> Seq<char> {
    seq!['#'] + hex_digits(v as nat, 8)
}

/// `16` raised to the power `n`.
pub open spec fn pow16(n: nat) -> nat
    decreases n,
{
    if n == 0 {
        1
    } else {
        16 * pow16((n - 1) as nat)
    }
}

/// Writes the eight lower-case hexadecimal digits of a color, by
/// `format!` with `{:08x}`, which pads the hexadecimal digits of the number
/// with zeros to eight; a `u32` never needs more than eight.
#[verifier::external_body]
fn format_hex_digits(v: u32) -> (s: String)
    ensures
        s@ == hex_digits(v as nat, 8),
{
    format!("{v:08x}")
}

/// Writes a color as `#` and eight lower-case hexadecimal digits.
fn format_hex_color(v: u32) -> (s: String)
    ensures
        s@ == hex_color_text(v),
{
    let digits = format_hex_digits(v);
    let mut text = String::from_str("#");
    proof {
        reveal_strlit("#");
    }
    text.append(digits.as_str());
    text
}

/// The value of one hexadecimal digit.
fn hex_digit_exec(c: char) -> (d: Option<u32>)
    ensures
        match hex_digit(c) {
            Some(v) => d == Some(v as u32),
            None => d is None,
        },
{
    let n = c as u32;
    if 48 <= n && n <= 57 {
        Some(n - 48)
    } else if 97 <= n && n <= 102 {
        Some(n - 87)
    } else if 65 <= n && n <= 70 {
        Some(n - 55)
    } else {
        None
    }
}

proof fn lemma_hex_value_prefix(s: Seq<char>, k: int)
    requires
        0 <= k <= s.len(),
    ensures
        hex_value(s.subrange(0, k)) <= hex_value(s),
    decreases s.len(),
{
    if k < s.len() {
        lemma_hex_value_prefix(s.drop_last(), k);
        assert(s.drop_last().subrange(0, k) == s.subrange(0, k));
    } else {
        assert(s.subrange(0, k) == s);
    }
}

/// Parses a hex color string: an optional `#`, an optional `+`, and the
/// hexadecimal digits of a `u32` in either case. `None` when the rest is
/// empty, holds another character, or is too large.
pub fn parse_hex_color(s: &str) -> (c: Option<u32>)
    ensures
        c == parse_hex_color_text(s@),
{
    let n = s.unicode_len();
    let mut i: usize = 0;
    if n > 0 && s.get_char(0) == '#' {
        i = 1;
    }
    let ghost t = s@.subrange(i as int, n as int);
    if i < n && s.get_char(i) == '+' {
        i = i + 1;
    }
    let ghost digits = s@.subrange(i as int, n as int);
    assert(t == (if s@.len() > 0 && s@[0] == '#' {
        s@.drop_first()
    } else {
        s@
    }));
    assert(digits == (if t.len() > 0 && t[0] == '+' {
        t.drop_first()
    } else {
        t
    }));
    if i == n {
        return None;
    }
    let start = i;
    let mut acc: u64 = 0;
    let mut j = i;
    while j < n
        invariant
            start <= j <= n,
            n == s@.len(),
            digits == s@.subrange(start as int, n as int),
            acc == hex_value(s@.subrange(start as int, j as int)),
            all_hex_digits(s@.subrange(start as int, j as int)),
            acc <= u32::MAX,
            parse_hex_color_text(s@) == (if all_hex_digits(digits) && hex_value(digits) <= u32::MAX {
                Some(hex_value(digits) as u32)
            } else {
                None
            }),
        decreases n - j,
    {
        let ghost prev = s@.subrange(start as int, j as int);
        let ghost next = s@.subrange(start as int, j + 1);
        assert(next.drop_last() == prev);
        assert(next.last() == s@[j as int]);
        let c = s.get_char(j);
        match hex_digit_exec(c) {
            None => {
                assert(digits[j - start] == s@[j as int]);
                assert(hex_digit(digits[j - start]) is None);
                return None;
            },
            Some(d) => {
                acc = acc * 16 + d as u64;
                if acc > 0xffff_ffff {
                    assert(all_hex_digits(digits) ==> hex_value(digits) > u32::MAX) by {
                        lemma_hex_value_prefix(digits, j + 1 - start);
                        assert(digits.subrange(0, j + 1 - start) == next);
                    }
                    return None;
                }
                j = j + 1;
            },
        }
    }
    assert(s@.subrange(start as int, j as int) == digits);
    Some(acc as u32)
}

/// The text a color is written as, when there is one.
pub fn hex_color_to_text(color: Option<u32>) -> (s: Option<String>)
    ensures
        match color {
            Some(v) => s matches Some(t) && t@ == hex_color_text(v),
            None => s is None,
        },
{
    match color {
        Some(v) => Some(format_hex_color(v)),
        None => None,
    }
}

/// A color as the codec may hold it: a hex string or a plain number.
#[derive(Clone, Debug, PartialEq, Eq)]
pub enum HexColorRepr {
    Str(String),
    Int(u32),
}

/// A color string that is not a hex color; it keeps the string.
#[derive(Clone, Debug, PartialEq, Eq)]
pub struct InvalidHexColor {
    pub text: String,
}

/// Reads a color that may be absent: a number is taken as it is, a string
/// must be a hex color.
pub fn hex_color_from_repr(repr: Option<HexColorRepr>) -> (r: Result<Option<u32>, InvalidHexColor>)
    ensures
        match repr {
            None => r == Ok::<Option<u32>, InvalidHexColor>(None),
            Some(HexColorRepr::Int(v)) => r == Ok::<Option<u32>, InvalidHexColor>(Some(v)),
            Some(HexColorRepr::Str(t)) => match parse_hex_color_text(t@) {
                Some(v) => r == Ok::<Option<u32>, InvalidHexColor>(Some(v)),
                None => r matches Err(e) && e.text@ == t@,
            },
        },
{
    match repr {
        None => Ok(None),
        Some(HexColorRepr::Int(v)) => Ok(Some(v)),
        Some(HexColorRepr::Str(t)) => match parse_hex_color(t.as_str()) {
            Some(v) => Ok(Some(v)),
            None => Err(InvalidHexColor { text: t }),
        },
    }
}

proof fn lemma_hex_char(d: nat)
    requires
        d < 16,
    ensures
        hex_digit(hex_char(d)) == Some(d),
        hex_char(d) != '+',
{
}

proof fn lemma_hex_digits(v: nat, n: nat)
    ensures
        hex_digits(v, n).len() == n,
        all_hex_digits(hex_digits(v, n)),
        hex_value(hex_digits(v, n)) == v % pow16(n),
        n > 0 ==> hex_digits(v, n)[0] != '+',
    decreases n,
{
    if n > 0 {
        let prev = hex_digits(v / 16, (n - 1) as nat);
        let s = hex_digits(v, n);
        lemma_hex_digits(v / 16, (n - 1) as nat);
        lemma_hex_char(v % 16);
        assert(s == prev.push(hex_char(v % 16)));
        assert(s.drop_last() == prev);
        assert forall|i: int| 0 <= i < s.len() implies (#[trigger] hex_digit(s[i])) is Some by {
            if i < prev.len() {
                assert(s[i] == prev[i]);
            }
        }
        lemma_pow16_positive((n - 1) as nat);
        vstd::arithmetic::div_mod::lemma_mod_breakdown(v as int, 16, pow16((n - 1) as nat) as int);
        if n > 1 {
            assert(s[0] == prev[0]);
        }
    }
}

proof fn lemma_pow16_positive(n: nat)
    ensures
        pow16(n) >= 1,
    decreases n,
{
    if n > 0 {
        lemma_pow16_positive((n - 1) as nat);
    }
}

/// A color written as text reads back as the same color.
pub proof fn law_hex_color_roundtrip(v: u32)
    ensures
        parse_hex_color_text(hex_color_text(v)) == Some(v),
{
    let digits = hex_digits(v as nat, 8);
    lemma_hex_digits(v as nat, 8);
    assert(hex_color_text(v).drop_first() == digits);
    assert(pow16(8) == 0x1_0000_0000) by {
        reveal_with_fuel(pow16, 9);
    }
}

/// Whether `c` is a decimal digit or a lower-case letter from `a` to `f`.
pub open spec fn is_lower_hex(c: char) -> bool {
    let n = c as u32;
    (48 <= n <= 57) || (97 <= n <= 102)
}

proof fn lemma_hex_digits_lower(v: nat, n: nat)
    ensures
        forall|i: int| 0 <= i < hex_digits(v, n).len() ==> is_lower_hex(#[trigger] hex_digits(v, n)[i]),
    decreases n,
{
    if n > 0 {
        let prev = hex_digits(v / 16, (n - 1) as nat);
        lemma_hex_digits_lower(v / 16, (n - 1) as nat);
        lemma_hex_digits(v / 16, (n - 1) as nat);
        let s = hex_digits(v, n);
        assert(s == prev.push(hex_char(v % 16)));
        assert forall|i: int| 0 <= i < s.len() implies is_lower_hex(#[trigger] s[i]) by {
            if i < prev.len() {
                assert(s[i] == prev[i]);
            }
        }
    }
}

/// A color is written as `#` and exactly eight characters, each a decimal
/// digit or a lower-case letter from `a` to `f`.
pub proof fn law_hex_color_text_shape(v: u32)
    ensures
        hex_color_text(v).len() == 9,
        hex_color_text(v)[0] == '#',
        forall|i: int| 1 <= i < 9 ==> is_lower_hex(#[trigger] hex_color_text(v)[i]),
{
    lemma_hex_digits(v as nat, 8);
    lemma_hex_digits_lower(v as nat, 8);
    let d = hex_digits(v as nat, 8);
    assert forall|i: int| 1 <= i < 9 implies is_lower_hex(#[trigger] hex_color_text(v)[i]) by {
        assert(hex_color_text(v)[i] == d[i - 1]);
    }
}

/// A string is refused as a color when it is empty, holds nothing after its
/// `#` or `+`, or holds any other character that is not a hexadecimal digit
/// past its first two.
pub proof fn law_hex_color_refusals(s: Seq<char>)
    ensures
        s.len() == 0 ==> parse_hex_color_text(s) is None,
        s == seq!['#'] ==> parse_hex_color_text(s) is None,
        s == seq!['#', '+'] ==> parse_hex_color_text(s) is None,
        (exists|i: int| 2 <= i < s.len() && (#[trigger] hex_digit(s[i])) is None)
            ==> parse_hex_color_text(s) is None,
{
    let t = if s.len() > 0 && s[0] == '#' {
        s.drop_first()
    } else {
        s
    };
    let d = if t.len() > 0 && t[0] == '+' {
        t.drop_first()
    } else {
        t
    };
    if exists|i: int| 2 <= i < s.len() && (#[trigger] hex_digit(s[i])) is None {
        let i = choose|i: int| 2 <= i < s.len() && (#[trigger] hex_digit(s[i])) is None;
        let k = i - (s.len() - d.len());
        assert(d[k] == s[i]);
        assert(hex_digit(d[k]) is None);
    }
    if s == seq!['#', '+'] {
        assert(t == seq!['+']);
        assert(d.len() == 0);
    }
}

} // verus!
