use vstd::prelude::*;

verus! {

/// Whether `u` lies in the surrogate range, which no scalar value occupies.
pub open spec fn is_surrogate(u: u16) -> bool {
    0xD800 <= u && u <= 0xDFFF
}

/// Whether `u` is a leading (high) surrogate.
pub open spec fn is_high_surrogate(u: u16) -> bool {
    0xD800 <= u && u <= 0xDBFF
}

/// Whether `u` is a trailing (low) surrogate.
pub open spec fn is_low_surrogate(u: u16) -> bool {
    0xDC00 <= u && u <= 0xDFFF
}

/// The UTF-16 code units of one scalar value: one unit below U+10000, a
/// surrogate pair from there on.
pub open spec fn char_units(c: char) -> Seq<u16> {
    let v = c as int;
    if v < 0x10000 {
        seq![v as u16]
    } else {
        seq![(0xD800 + (v - 0x10000) / 0x400) as u16, (0xDC00 + (v - 0x10000) % 0x400) as u16]
    }
}

/// The UTF-16 encoding of a text: the units of its characters, in order.
pub open spec fn utf16_units(text: Seq<char>) -> Seq<u16>
    decreases text.len(),
{
    if text.len() == 0 {
        Seq::empty()
    } else {
        utf16_units(text.drop_last()) + char_units(text.last())
    }
}

/// A `char` is a scalar value: at most U+10FFFF and no surrogate.
pub proof fn lemma_char_is_scalar(c: char)
    ensures
        0 <= c as int <= 0x10FFFF,
        !(0xD800 <= c as int <= 0xDFFF),
        c as u32 == c as int,
{
}

/// Encodes `text` as UTF-16.
pub fn encode_utf16(text: &str) -> (units: Vec<u16>)
    ensures
        units@ == utf16_units(text@),
{
    let mut units: Vec<u16> = Vec::new();
    let chars = text.chars();
    proof {
        vstd::string::axiom_spec_iter(text);
        assert(text@.take(0) =~= Seq::<char>::empty());
    }
    for c in it: chars
        invariant
            it.seq() == text@,
            units@ == utf16_units(text@.take(it.index())),
    {
        proof {
            let i = it.index();
            assert(text@.take(i + 1).drop_last() =~= text@.take(i));
            assert(text@.take(i + 1).last() == c);
        }
        let v: u32 = c as u32;
        proof {
            lemma_char_is_scalar(c);
        }
        let ghost before = units@;
        if v < 0x10000 {
            units.push(v as u16);
            assert(units@ =~= before + char_units(c));
        } else {
            let w: u32 = v - 0x10000;
            units.push((0xD800 + w / 0x400) as u16);
            units.push((0xDC00 + w % 0x400) as u16);
            assert(units@ =~= before + char_units(c));
        }
    }
    proof {
        assert(text@.take(text@.len() as int) =~= text@);
    }
    units
}

/// The scalar value that a surrogate pair stands for.
pub open spec fn pair_scalar(high: u16, low: u16) -> char {
    (0x10000 + (high - 0xD800) * 0x400 + (low - 0xDC00)) as char
}

/// The text that a sequence of UTF-16 units stands for, read leniently: a
/// unit outside the surrogate range is its own character, a high surrogate
/// followed by a low one is the character of the pair, and any other
/// surrogate becomes U+FFFD by itself.
pub open spec fn utf16_lossy(units: Seq<u16>) -> Seq<char>
    decreases units.len(),
{
    if units.len() == 0 {
        Seq::empty()
    } else if !is_surrogate(units[0]) {
        seq![units[0] as char] + utf16_lossy(units.skip(1))
    } else if is_high_surrogate(units[0]) && units.len() >= 2 && is_low_surrogate(units[1]) {
        seq![pair_scalar(units[0], units[1])] + utf16_lossy(units.skip(2))
    } else {
        seq!['\u{FFFD}'] + utf16_lossy(units.skip(1))
    }
}

/// `char::from_u32` gives the character of a scalar value, and `None` for a
/// surrogate or a number above U+10FFFF.
pub assume_specification[ char::from_u32 ](i: u32) -> (c: Option<char>)
    ensures
        i <= 0x10FFFF && !(0xD800 <= i && i <= 0xDFFF) ==> c == Some(i as char),
        i > 0x10FFFF || (0xD800 <= i && i <= 0xDFFF) ==> c is None,
;

/// `String::push` appends one character.
pub assume_specification[ String::push ](s: &mut String, ch: char)
    ensures
        final(s)@ == old(s)@.push(ch),
;

/// Whether `u` is a trailing (low) surrogate.
fn is_low(u: u16) -> (low: bool)
    ensures
        low == is_low_surrogate(u),
{
    0xDC00 <= u && u <= 0xDFFF
}

/// Decodes UTF-16 units leniently: what is ill-formed becomes U+FFFD.
pub fn decode_utf16_lossy(units: &[u16]) -> (text: String)
    ensures
        text@ == utf16_lossy(units@),
{
    let mut text = String::new();
    let mut i: usize = 0;
    assert(units@.skip(0) =~= units@);
    assert(text@ + utf16_lossy(units@) =~= utf16_lossy(units@));
    while i < units.len()
        invariant
            i <= units.len(),
            text@ + utf16_lossy(units@.skip(i as int)) == utf16_lossy(units@),
        decreases units.len() - i,
    {
        let ghost rest = units@.skip(i as int);
        let ghost done = text@;
        let unit: u16 = units[i];
        assert(rest[0] == unit);
        if unit < 0xD800 || unit > 0xDFFF {
            let c: char = char::from_u32(unit as u32).unwrap();
            text.push(c);
            i += 1;
            assert(rest.skip(1) =~= units@.skip(i as int));
        } else if unit <= 0xDBFF && i + 1 < units.len() && is_low(units[i + 1]) {
            let low: u16 = units[i + 1];
            assert(rest[1] == low);
            let scalar: u32 = 0x10000 + (unit - 0xD800) as u32 * 0x400 + (low - 0xDC00) as u32;
            let c: char = char::from_u32(scalar).unwrap();
            text.push(c);
            i += 2;
            assert(rest.skip(2) =~= units@.skip(i as int));
        } else {
            text.push('\u{FFFD}');
            i += 1;
            assert(rest.skip(1) =~= units@.skip(i as int));
        }
        assert(text@ + utf16_lossy(units@.skip(i as int)) =~= done + utf16_lossy(rest));
    }
    assert(units@.skip(i as int) =~= Seq::<u16>::empty());
    assert(text@ + Seq::<char>::empty() =~= text@);
    text
}

/// Reading the units of one character, followed by anything, gives that
/// character and then the reading of what follows.
pub proof fn lemma_lossy_after_char(c: char, rest: Seq<u16>)
    ensures
        utf16_lossy(char_units(c) + rest) == seq![c] + utf16_lossy(rest),
{
    lemma_char_is_scalar(c);
    let units = char_units(c) + rest;
    let v = c as int;
    if v < 0x10000 {
        assert(units[0] == v as u16);
        assert(units[0] as char == c);
        assert(units.skip(1) =~= rest);
    } else {
        let high = (0xD800 + (v - 0x10000) / 0x400) as u16;
        let low = (0xDC00 + (v - 0x10000) % 0x400) as u16;
        assert(units[0] == high);
        assert(units[1] == low);
        assert(pair_scalar(high, low) == c);
        assert(units.skip(2) =~= rest);
    }
}

/// Reading the encoding of a text, followed by anything, gives the text and
/// then the reading of what follows.
pub proof fn lemma_lossy_after_units(text: Seq<char>, rest: Seq<u16>)
    ensures
        utf16_lossy(utf16_units(text) + rest) == text + utf16_lossy(rest),
    decreases text.len(),
{
    if text.len() == 0 {
        assert(utf16_units(text) + rest =~= rest);
        assert(text + utf16_lossy(rest) =~= utf16_lossy(rest));
    } else {
        let front = text.drop_last();
        let c = text.last();
        assert(utf16_units(text) + rest =~= utf16_units(front) + (char_units(c) + rest));
        lemma_lossy_after_units(front, char_units(c) + rest);
        lemma_lossy_after_char(c, rest);
        assert(front + (seq![c] + utf16_lossy(rest)) =~= text + utf16_lossy(rest));
    }
}

/// Encoding a text as UTF-16 and reading the units back gives the text:
/// the encoding of a text is never ill-formed.
pub proof fn lemma_utf16_round_trip(text: Seq<char>)
    ensures
        utf16_lossy(utf16_units(text)) == text,
{
    lemma_lossy_after_units(text, Seq::empty());
    assert(utf16_units(text) + Seq::<u16>::empty() =~= utf16_units(text));
    assert(text + Seq::<char>::empty() =~= text);
}

/// A text has at least as many UTF-16 units as characters, and at most twice
/// as many.
pub proof fn lemma_utf16_units_len(text: Seq<char>)
    ensures
        text.len() <= utf16_units(text).len() <= 2 * text.len(),
    decreases text.len(),
{
    if text.len() > 0 {
        lemma_utf16_units_len(text.drop_last());
    }
}

} // verus!
