//! UTF-16 as a pair of mathematical functions between text and code units,
//! the proof that decoding undoes encoding, and a decoder that is verified
//! against them.
//!
//! The native library speaks UTF-16. Text goes out through [`encode`] and
//! comes back through [`decode`]; nothing is ever replaced or dropped on the
//! way in: a lone surrogate is an error that names the offending unit.

use vstd::prelude::*;

verus! {

/// A code unit in the surrogate range: half of a pair, never a character.
pub open spec fn is_surrogate(unit: u16) -> bool {
    0xD800 <= unit <= 0xDFFF
}

/// A code unit that opens a surrogate pair.
pub open spec fn is_lead(unit: u16) -> bool {
    0xD800 <= unit <= 0xDBFF
}

/// A code unit that closes a surrogate pair.
pub open spec fn is_trail(unit: u16) -> bool {
    0xDC00 <= unit <= 0xDFFF
}

/// A number that is a Unicode scalar value, so that a `char` has it.
pub open spec fn is_scalar(value: int) -> bool {
    0 <= value <= 0xD7FF || 0xE000 <= value <= 0x10FFFF
}

/// The scalar value that the surrogate pair `lead`, `trail` stands for.
pub open spec fn pair_value(lead: u16, trail: u16) -> int {
    0x10000 + (lead - 0xD800) * 0x400 + (trail - 0xDC00)
}

/// The code units of one character: itself below U+10000, a surrogate pair
/// from there on.
pub open spec fn encode_char(c: char) -> Seq<u16> {
    let value = c as int;
    if value < 0x10000 {
        seq![value as u16]
    } else {
        seq![
            (0xD800 + (value - 0x10000) / 0x400) as u16,
            (0xDC00 + (value - 0x10000) % 0x400) as u16,
        ]
    }
}

/// The code units of a text: those of its characters, in order.
pub open spec fn encode(text: Seq<char>) -> Seq<u16>
    decreases text.len(),
{
    if text.len() == 0 {
        Seq::empty()
    } else {
        encode_char(text[0]) + encode(text.drop_first())
    }
}

/// `rest` with `head` put in front, where there is a `rest`.
pub open spec fn after(head: Seq<char>, rest: Result<Seq<char>, u16>) -> Result<Seq<char>, u16> {
    match rest {
        Ok(tail) => Ok(head + tail),
        Err(unit) => Err(unit),
    }
}

/// The text that `units` encode, or the first unit that is an unpaired
/// surrogate: a trail with no lead before it, or a lead with no trail behind.
pub open spec fn decode(units: Seq<u16>) -> Result<Seq<char>, u16>
    decreases units.len(),
{
    if units.len() == 0 {
        Ok(Seq::empty())
    } else if !is_surrogate(units[0]) {
        after(seq![units[0] as char], decode(units.skip(1)))
    } else if is_lead(units[0]) && units.len() >= 2 && is_trail(units[1]) {
        after(seq![pair_value(units[0], units[1]) as char], decode(units.skip(2)))
    } else {
        Err(units[0])
    }
}

/// A character takes one code unit or two, and none of them is zero unless
/// the character itself is U+0000.
pub proof fn lemma_encode_char_units(c: char)
    ensures
        encode_char(c).len() == (if (c as int) < 0x10000 { 1int } else { 2int }),
        forall|i: int|
            0 <= i < encode_char(c).len() ==> (#[trigger] encode_char(c)[i] == 0 <==> c as int
                == 0),
{
}

/// Decoding reads a character's code units back as that character and goes
/// on with what follows them.
pub proof fn lemma_decode_after_char(c: char, units: Seq<u16>)
    ensures
        decode(encode_char(c) + units) == after(seq![c], decode(units)),
{
    let value = c as int;
    let all = encode_char(c) + units;
    if value < 0x10000 {
        assert(all[0] == value as u16);
        assert(all.skip(1) =~= units);
        assert(all[0] as char == c);
    } else {
        let lead = (0xD800 + (value - 0x10000) / 0x400) as u16;
        let trail = (0xDC00 + (value - 0x10000) % 0x400) as u16;
        assert(all[0] == lead);
        assert(all[1] == trail);
        assert(all.skip(2) =~= units);
        assert(pair_value(lead, trail) == value);
        assert(pair_value(lead, trail) as char == c);
    }
}

/// Decoding undoes encoding: every text comes back from its own code units,
/// character for character, and never as an error.
pub proof fn lemma_decode_encode(text: Seq<char>)
    ensures
        decode(encode(text)) == Ok::<Seq<char>, u16>(text),
    decreases text.len(),
{
    if text.len() == 0 {
        assert(encode(text).len() == 0);
        assert(text =~= Seq::<char>::empty());
    } else {
        lemma_decode_encode(text.drop_first());
        lemma_decode_after_char(text[0], encode(text.drop_first()));
        assert(seq![text[0]] + text.drop_first() =~= text);
    }
}

/// Encoding undoes decoding: code units that decode to a text are the
/// code units of that text, so no two different runs of units are read as
/// the same text.
pub proof fn lemma_encode_decode(units: Seq<u16>)
    requires
        decode(units) is Ok,
    ensures
        encode(decode(units)->Ok_0) == units,
    decreases units.len(),
{
    if units.len() == 0 {
        assert(encode(Seq::<char>::empty()) =~= units);
    } else if !is_surrogate(units[0]) {
        let c = units[0] as char;
        let tail = decode(units.skip(1))->Ok_0;
        lemma_encode_decode(units.skip(1));
        assert((seq![c] + tail).drop_first() =~= tail);
        assert(encode_char(c) + units.skip(1) =~= units);
    } else {
        let c = pair_value(units[0], units[1]) as char;
        let tail = decode(units.skip(2))->Ok_0;
        lemma_encode_decode(units.skip(2));
        assert((seq![c] + tail).drop_first() =~= tail);
        assert(encode_char(c) + units.skip(2) =~= units);
    }
}

/// `char::from_u32` gives the character with the scalar value `i`, and
/// `None` exactly when `i` is no scalar value.
pub assume_specification[ char::from_u32 ](i: u32) -> (r: Option<char>)
    ensures
        is_scalar(i as int) ==> r == Some(i as char),
        !is_scalar(i as int) ==> r is None,
;

/// `String::push` appends one character to the end of the string.
pub assume_specification[ String::push ](s: &mut String, ch: char)
    ensures
        final(s)@ == old(s)@.push(ch),
;

/// Decodes `units` as UTF-16, strictly.
///
/// Returns the text that the units encode, or, where they are malformed, the
/// first unpaired surrogate among them and no text at all.
pub fn decode_utf16(units: &[u16]) -> (r: Result<String, u16>)
    ensures
        match r {
            Ok(text) => decode(units@) == Ok::<Seq<char>, u16>(text@),
            Err(unit) => decode(units@) == Err::<Seq<char>, u16>(unit),
        },
{
    let mut text = String::new();
    let mut i: usize = 0;
    assert(units@.skip(0) =~= units@);
    assert(Seq::<char>::empty() + decode(units@)->Ok_0 =~= decode(units@)->Ok_0);
    while i < units.len()
        invariant
            i <= units.len(),
            decode(units@) == after(text@, decode(units@.skip(i as int))),
        decreases units.len() - i,
    {
        let ghost rest = units@.skip(i as int);
        let ghost before = text@;
        let unit = units[i];
        assert(rest[0] == unit);
        if unit < 0xD800 || unit > 0xDFFF {
            let c = char::from_u32(unit as u32).unwrap();
            text.push(c);
            i += 1;
            proof {
                assert(rest.skip(1) =~= units@.skip(i as int));
                let tail = decode(rest.skip(1));
                if tail is Ok {
                    assert(before + (seq![c] + tail->Ok_0) =~= before.push(c) + tail->Ok_0);
                }
            }
        } else if unit <= 0xDBFF && i + 1 < units.len() && 0xDC00 <= units[i + 1] && units[i + 1]
            <= 0xDFFF {
            let trail = units[i + 1];
            assert(rest[1] == trail);
            let value: u32 = 0x10000 + ((unit - 0xD800) as u32) * 0x400 + ((trail - 0xDC00) as u32);
            assert(value == pair_value(unit, trail));
            let c = char::from_u32(value).unwrap();
            text.push(c);
            i += 2;
            proof {
                assert(rest.skip(2) =~= units@.skip(i as int));
                let tail = decode(rest.skip(2));
                if tail is Ok {
                    assert(before + (seq![c] + tail->Ok_0) =~= before.push(c) + tail->Ok_0);
                }
            }
        } else {
            return Err(unit);
        }
    }
    assert(units@.skip(i as int).len() == 0);
    assert(text@ + Seq::<char>::empty() =~= text@);
    Ok(text)
}

} // verus!
