use vstd::prelude::*;

verus! {

/// The code of `c` with ASCII upper-case letters mapped to lower case; every other
/// character keeps its code.
pub open spec fn ascii_lower_code(c: char) -> u32 {
    let v = c as u32;
    if 65 <= v <= 90 {
        (v + 32) as u32
    } else {
        v
    }
}

/// Two character sequences are equal once ASCII letters are folded to lower case,
/// the comparison that `str::eq_ignore_ascii_case` makes.
pub open spec fn eq_ignoring_ascii_case(a: Seq<char>, b: Seq<char>) -> bool {
    &&& a.len() == b.len()
    &&& forall|i: int| 0 <= i < a.len() ==> ascii_lower_code(#[trigger] a[i]) == ascii_lower_code(b[i])
}

/// The characters of `s`, in order.
pub fn chars_of(s: &str) -> (chars: Vec<char>)
    ensures
        chars@ == s@,
{
    let mut chars: Vec<char> = Vec::new();
    for c in it: s.chars()
        invariant
            chars@ == it.seq().take(it.index()),
    {
        chars.push(c);
    }
    chars
}

/// The code of `c` with an ASCII upper-case letter folded to lower case.
fn fold_ascii_case(c: char) -> (code: u32)
    ensures
        code == ascii_lower_code(c),
{
    let v = c as u32;
    if 65 <= v && v <= 90 {
        v + 32
    } else {
        v
    }
}

/// Whether `a` and `b` are equal when ASCII letters are compared without regard to case.
pub fn eq_ignore_ascii_case(a: &str, b: &str) -> (same: bool)
    ensures
        same == eq_ignoring_ascii_case(a@, b@),
{
    let left = chars_of(a);
    let right = chars_of(b);
    if left.len() != right.len() {
        return false;
    }
    let mut i: usize = 0;
    while i < left.len()
        invariant
            left@ == a@,
            right@ == b@,
            left.len() == right.len(),
            i <= left.len(),
            forall|j: int| 0 <= j < i ==> ascii_lower_code(#[trigger] a@[j]) == ascii_lower_code(b@[j]),
        decreases left.len() - i,
    {
        if fold_ascii_case(left[i]) != fold_ascii_case(right[i]) {
            return false;
        }
        i = i + 1;
    }
    true
}

/// A UTF-16 surrogate code unit (0xD800 to 0xDFFF).
pub open spec fn is_surrogate(u: u16) -> bool {
    0xD800 <= u <= 0xDFFF
}

/// A leading (high) surrogate (0xD800 to 0xDBFF).
pub open spec fn is_high_surrogate(u: u16) -> bool {
    0xD800 <= u <= 0xDBFF
}

/// A trailing (low) surrogate (0xDC00 to 0xDFFF).
pub open spec fn is_low_surrogate(u: u16) -> bool {
    0xDC00 <= u <= 0xDFFF
}

/// The code point that a surrogate pair stands for.
pub open spec fn surrogate_pair_code(high: u16, low: u16) -> u32 {
    (0x10000 + (high - 0xD800) * 0x400 + (low - 0xDC00)) as u32
}

/// The UTF-16 code units of one character: one unit below 0x10000, else a surrogate pair.
pub open spec fn utf16_units(c: char) -> Seq<u16> {
    let v = c as u32;
    if v < 0x10000 {
        seq![v as u16]
    } else {
        let w = v - 0x10000;
        seq![(0xD800 + w / 0x400) as u16, (0xDC00 + w % 0x400) as u16]
    }
}

/// The UTF-16 encoding of a character sequence.
pub open spec fn utf16_encode(s: Seq<char>) -> Seq<u16>
    decreases s.len(),
{
    if s.len() == 0 {
        Seq::empty()
    } else {
        utf16_encode(s.drop_last()) + utf16_units(s.last())
    }
}

/// U+FFFD, the character that stands for a code unit that cannot be decoded.
pub open spec fn replacement_char() -> char {
    '\u{FFFD}'
}

/// Decoding of UTF-16 that replaces each unpaired surrogate by U+FFFD: a unit outside
/// the surrogate range is its own character; a high surrogate followed by a low one
/// is a pair; any other surrogate is replaced and decoding resumes at the next unit.
pub open spec fn utf16_decode_lossy(units: Seq<u16>) -> Seq<char>
    decreases units.len(),
{
    if units.len() == 0 {
        Seq::empty()
    } else if !is_surrogate(units[0]) {
        seq![units[0] as char] + utf16_decode_lossy(units.skip(1))
    } else if is_high_surrogate(units[0]) && units.len() >= 2 && is_low_surrogate(units[1]) {
        seq![surrogate_pair_code(units[0], units[1]) as char] + utf16_decode_lossy(units.skip(2))
    } else {
        seq![replacement_char()] + utf16_decode_lossy(units.skip(1))
    }
}

/// Appends the UTF-16 code units of `c` to `units`.
fn push_utf16(units: &mut Vec<u16>, c: char)
    ensures
        final(units)@ == old(units)@ + utf16_units(c),
{
    let v = c as u32;
    if v < 0x10000 {
        units.push(v as u16);
    } else {
        let w = v - 0x10000;
        units.push((0xD800 + w / 0x400) as u16);
        units.push((0xDC00 + w % 0x400) as u16);
    }
}

/// The UTF-16 code units of `s` followed by a terminating zero unit.
pub fn utf16_nul_terminated(s: &str) -> (units: Vec<u16>)
    ensures
        units@ == utf16_encode(s@).push(0),
{
    let chars = chars_of(s);
    let mut units: Vec<u16> = Vec::new();
    let mut i: usize = 0;
    while i < chars.len()
        invariant
            chars@ == s@,
            i <= chars.len(),
            units@ == utf16_encode(s@.take(i as int)),
        decreases chars.len() - i,
    {
        proof {
            assert(s@.take(i + 1).drop_last() =~= s@.take(i as int));
        }
        push_utf16(&mut units, chars[i]);
        i = i + 1;
    }
    proof {
        assert(s@.take(chars.len() as int) =~= s@);
    }
    units.push(0);
    units
}

/// A Unicode scalar value: at most 0x10FFFF and outside the surrogate range.
pub open spec fn is_scalar_value(v: u32) -> bool {
    v <= 0x10FFFF && !(0xD800 <= v <= 0xDFFF)
}

/// `char::from_u32` gives the character with code `i` when `i` is a Unicode scalar
/// value and `None` otherwise, as its documentation states.
pub assume_specification[ char::from_u32 ](i: u32) -> (c: Option<char>)
    ensures
        c == (if is_scalar_value(i) { Some(i as char) } else { None::<char> }),
;

/// `String::push` appends one character, as its documentation states.
pub assume_specification[ String::push ](string: &mut String, ch: char)
    ensures
        final(string)@ == old(string)@.push(ch),
;

/// Appends the character with code `v` to `text`.
fn push_code(text: &mut String, v: u32)
    requires
        is_scalar_value(v),
    ensures
        final(text)@ == old(text)@.push(v as char),
{
    match char::from_u32(v) {
        Some(c) => text.push(c),
        None => {},
    }
}

/// Decodes UTF-16 code units, putting U+FFFD in place of each unpaired surrogate.
pub fn utf16_to_string_lossy(units: &[u16]) -> (text: String)
    ensures
        text@ == utf16_decode_lossy(units@),
{
    let mut text = String::new();
    let mut i: usize = 0;
    proof {
        assert(units@.skip(0) =~= units@);
    }
    while i < units.len()
        invariant
            i <= units.len(),
            text@ + utf16_decode_lossy(units@.skip(i as int)) == utf16_decode_lossy(units@),
        decreases units.len() - i,
    {
        let ghost rest = units@.skip(i as int);
        let u = units[i];
        if u < 0xD800 || u > 0xDFFF {
            proof {
                assert(rest.skip(1) =~= units@.skip(i + 1));
            }
            push_code(&mut text, u as u32);
            i = i + 1;
        } else if u <= 0xDBFF && i + 1 < units.len() && 0xDC00 <= units[i + 1] && units[i + 1] <= 0xDFFF {
            let low = units[i + 1];
            proof {
                assert(rest.skip(2) =~= units@.skip(i + 2));
            }
            push_code(&mut text, 0x10000 + (u as u32 - 0xD800) * 0x400 + (low as u32 - 0xDC00));
            i = i + 2;
        } else {
            proof {
                assert(rest.skip(1) =~= units@.skip(i + 1));
            }
            push_code(&mut text, 0xFFFD);
            i = i + 1;
        }
    }
    proof {
        assert(units@.skip(i as int) =~= Seq::<u16>::empty());
    }
    text
}

/// An ASCII upper-case letter, 'A' to 'Z'.
pub open spec fn is_ascii_upper(c: char) -> bool {
    'A' <= c <= 'Z'
}

/// Two characters match when case is ignored exactly when they are equal, or one is an
/// ASCII upper-case letter and the other is the same letter in lower case (32 codes
/// further on). In particular every letter 'A'..='Z' matches its lower-case letter.
pub proof fn chars_match_ignoring_case(a: char, b: char)
    ensures
        (ascii_lower_code(a) == ascii_lower_code(b)) == (a == b || (is_ascii_upper(a) && b as u32
            == a as u32 + 32) || (is_ascii_upper(b) && a as u32 == b as u32 + 32)),
{
}

/// Two texts are equal when ASCII case is ignored exactly when they have the same
/// length and agree character by character up to the case of ASCII letters.
pub proof fn texts_match_ignoring_case(a: Seq<char>, b: Seq<char>)
    ensures
        eq_ignoring_ascii_case(a, b) == (a.len() == b.len() && forall|i: int|
            0 <= i < a.len() ==> (#[trigger] a[i] == b[i] || (is_ascii_upper(a[i]) && b[i] as u32
                == a[i] as u32 + 32) || (is_ascii_upper(b[i]) && a[i] as u32 == b[i] as u32 + 32))),
{
    assert forall|i: int| 0 <= i < a.len() implies (ascii_lower_code(#[trigger] a[i]) == ascii_lower_code(b[i]))
        == (a[i] == b[i] || (is_ascii_upper(a[i]) && b[i] as u32 == a[i] as u32 + 32) || (is_ascii_upper(b[i])
        && a[i] as u32 == b[i] as u32 + 32)) by {
        chars_match_ignoring_case(a[i], b[i]);
    }
}

/// Encoding prepends: the encoding of `c` followed by `rest` is the units of `c`
/// followed by the encoding of `rest`.
proof fn encode_front(c: char, rest: Seq<char>)
    ensures
        utf16_encode(seq![c] + rest) == utf16_units(c) + utf16_encode(rest),
    decreases rest.len(),
{
    if rest.len() == 0 {
        let single = seq![c] + rest;
        assert(single.drop_last() =~= Seq::<char>::empty());
        assert(single.last() == c);
        assert(utf16_encode(single.drop_last()) =~= Seq::<u16>::empty());
        assert(utf16_encode(rest) =~= Seq::<u16>::empty());
        assert(utf16_encode(single) =~= utf16_units(c));
        assert(utf16_units(c) + utf16_encode(rest) =~= utf16_units(c));
    } else {
        let whole = seq![c] + rest;
        assert(whole.drop_last() =~= seq![c] + rest.drop_last());
        assert(whole.last() == rest.last());
        encode_front(c, rest.drop_last());
        assert(utf16_encode(whole) =~= utf16_units(c) + utf16_encode(rest));
    }
}

/// Decoding the units of one character followed by more units gives that character
/// followed by the decoding of the rest.
proof fn decode_front(c: char, rest: Seq<u16>)
    ensures
        utf16_decode_lossy(utf16_units(c) + rest) == seq![c] + utf16_decode_lossy(rest),
{
    let v = c as u32;
    let units = utf16_units(c) + rest;
    if v < 0x10000 {
        assert(units.skip(1) =~= rest);
        assert(units[0] == v as u16);
        assert(!is_surrogate(units[0]));
        assert((units[0] as char) == c);
    } else {
        let w = v - 0x10000;
        assert(w <= 0xFFFFF);
        assert(units.skip(2) =~= rest);
        let hi = (0xD800 + w / 0x400) as u16;
        let lo = (0xDC00 + w % 0x400) as u16;
        assert(w / 0x400 <= 0x3FF) by (nonlinear_arith)
            requires
                w <= 0xFFFFF,
        ;
        assert(units[0] == hi && units[1] == lo);
        assert(is_high_surrogate(hi) && is_low_surrogate(lo));
        assert((w / 0x400) * 0x400 + w % 0x400 == w) by (nonlinear_arith);
        assert(surrogate_pair_code(hi, lo) == v);
        assert((surrogate_pair_code(hi, lo) as char) == c);
    }
}

/// Decoding undoes encoding: the UTF-16 encoding of any text decodes to that text. In
/// particular each unit outside the surrogate range decodes to the character with
/// that code.
pub proof fn decode_encode_round_trip(s: Seq<char>)
    ensures
        utf16_decode_lossy(utf16_encode(s)) == s,
    decreases s.len(),
{
    if s.len() > 0 {
        let rest = s.skip(1);
        assert(s =~= seq![s[0]] + rest);
        encode_front(s[0], rest);
        decode_front(s[0], utf16_encode(rest));
        decode_encode_round_trip(rest);
    } else {
        assert(utf16_encode(s) =~= Seq::<u16>::empty());
    }
}

/// A single code unit outside the surrogate range decodes to the character with that
/// code.
pub proof fn plain_unit_decodes_to_its_character(u: u16)
    requires
        !(0xD800 <= u <= 0xDFFF),
    ensures
        utf16_decode_lossy(seq![u]) == seq![u as char],
{
    let units = seq![u];
    assert(units.skip(1) =~= Seq::<u16>::empty());
    assert(utf16_decode_lossy(units.skip(1)) =~= Seq::<char>::empty());
    assert(!is_surrogate(units[0]));
    assert(utf16_decode_lossy(units) == seq![units[0] as char] + utf16_decode_lossy(units.skip(1)));
    assert(seq![u as char] + Seq::<char>::empty() =~= seq![u as char]);
}

} // verus!
