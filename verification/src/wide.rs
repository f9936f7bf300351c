//! Text in the form the native library takes and gives: UTF-16 code units
//! up to a terminating nul.

use vstd::prelude::*;
use vstd::slice::slice_subrange;
use widestring::U16CString;
use crate::error::{outcome, Error};
use crate::utf16::{
    decode, decode_utf16, encode, encode_char, lemma_decode_encode, lemma_encode_char_units,
    lemma_encode_decode,
};

verus! {

/// How many items of `s` come before the first `stop`: all of them where
/// there is none.
pub open spec fn run_before<T>(s: Seq<T>, stop: T) -> int
    decreases s.len(),
{
    if s.len() == 0 || s[0] == stop {
        0
    } else {
        1 + run_before(s.skip(1), stop)
    }
}

/// `units` end in a nul and hold no other: a C string of wide characters.
pub open spec fn is_terminated(units: Seq<u16>) -> bool {
    &&& units.len() > 0
    &&& units.last() == 0
    &&& forall|i: int| 0 <= i < units.len() - 1 ==> units[i] != 0
}

/// A text without the character U+0000.
pub open spec fn nul_free(text: Seq<char>) -> bool {
    forall|i: int| 0 <= i < text.len() ==> text[i] != '\0'
}

/// Where the code units of `text` hold a nul: the number of units in front
/// of the first one.
pub open spec fn nul_position(text: Seq<char>) -> Option<int> {
    let units = encode(text);
    let n = run_before(units, 0u16);
    if n < units.len() {
        Some(n)
    } else {
        None
    }
}

/// What a text becomes on its way to the native library: its UTF-16 code
/// units followed by a terminating nul, or the error that names the first
/// nul among them. Nothing is cut off and nothing is left out.
pub open spec fn marshal(text: Seq<char>) -> Result<Seq<u16>, Error> {
    match nul_position(text) {
        None => Ok(encode(text).push(0)),
        Some(n) => Err(Error::ContainsNul { position: n as usize }),
    }
}

/// What a native buffer holds as text: the decoding of its code units up to
/// the first nul, or of all of them where it holds none. Whatever lies
/// behind the terminator plays no part.
pub open spec fn unmarshal(buffer: Seq<u16>) -> Result<Seq<char>, Error> {
    match decode(buffer.take(run_before(buffer, 0u16))) {
        Ok(text) => Ok(text),
        Err(unit) => Err(Error::UnpairedSurrogate { unit }),
    }
}

/// `run_before` is the one index that has no `stop` in front of it and
/// stands on a `stop` or at the end.
pub proof fn lemma_run_before<T>(s: Seq<T>, stop: T)
    ensures
        0 <= run_before(s, stop) <= s.len(),
        forall|i: int| 0 <= i < run_before(s, stop) ==> s[i] != stop,
        run_before(s, stop) < s.len() ==> s[run_before(s, stop)] == stop,
    decreases s.len(),
{
    if s.len() == 0 || s[0] == stop {
    } else {
        lemma_run_before(s.skip(1), stop);
        assert forall|i: int| 0 <= i < run_before(s, stop) implies s[i] != stop by {
            if i > 0 {
                assert(s[i] == s.skip(1)[i - 1]);
            }
        }
        if run_before(s, stop) < s.len() {
            assert(s[run_before(s, stop)] == s.skip(1)[run_before(s, stop) - 1]);
        }
    }
}

/// An index with no `stop` in front of it, which stands on a `stop` or at the
/// end, is `run_before`.
pub proof fn lemma_run_before_is<T>(s: Seq<T>, stop: T, n: int)
    requires
        0 <= n <= s.len(),
        forall|i: int| 0 <= i < n ==> s[i] != stop,
        n < s.len() ==> s[n] == stop,
    ensures
        run_before(s, stop) == n,
{
    lemma_run_before(s, stop);
    let m = run_before(s, stop);
    if m < n {
        assert(s[m] == stop);
    } else if n < m {
        assert(s[n] == stop);
    }
}

/// The code units of a text hold a nul exactly where the text holds the
/// character U+0000, and the units in front of the first nul are those of
/// the characters in front of the first U+0000.
pub proof fn lemma_nul_position(text: Seq<char>)
    ensures
        run_before(encode(text), 0u16) == encode(text.take(run_before(text, '\0'))).len(),
        nul_position(text) is Some <==> run_before(text, '\0') < text.len(),
    decreases text.len(),
{
    if text.len() == 0 {
        assert(text.take(0) =~= text);
    } else {
        let first = text[0];
        let rest = text.skip(1);
        let units = encode(text);
        lemma_encode_char_units(first);
        lemma_nul_position(rest);
        lemma_run_before(rest, '\0');
        lemma_run_before(encode(rest), 0u16);
        assert(text.drop_first() =~= rest);
        if first == '\0' {
            assert(units[0] == 0);
            assert(text.take(0).len() == 0);
        } else {
            let k = run_before(rest, '\0');
            let m = encode_char(first).len() + run_before(encode(rest), 0u16);
            assert forall|i: int| 0 <= i < m implies units[i] != 0 by {
                if i >= encode_char(first).len() {
                    assert(units[i] == encode(rest)[i - encode_char(first).len()]);
                }
            }
            if m < units.len() {
                assert(units[m] == encode(rest)[m - encode_char(first).len()]);
            }
            lemma_run_before_is(units, 0u16, m);
            assert(text.take(k + 1).drop_first() =~= rest.take(k));
            assert(text.take(k + 1)[0] == first);
        }
    }
}

/// `widestring::U16CString::from_str`, with the string taken apart by
/// `into_vec_with_nul` and the error by `nul_position`.
///
/// The text is encoded as UTF-16 and searched for a nul. With none, the
/// units are returned with a terminator appended; otherwise the text is
/// refused, with the index of its first nul.
#[verifier::external_body]
fn u16cstring_from_str(text: &str) -> (r: Result<Vec<u16>, usize>)
    ensures
        match r {
            Ok(units) => nul_position(text@) is None && units@ == encode(text@).push(0),
            Err(position) => nul_position(text@) == Some(position as int),
        },
{
    match U16CString::from_str(text) {
        Ok(wide) => Ok(wide.into_vec_with_nul()),
        Err(nul) => Err(nul.nul_position()),
    }
}

/// A nul-terminated wide string, ready to be handed to the native library.
///
/// Every value holds at least the terminator, and no nul in front of it, so
/// that native code that reads up to the first nul reads all of it and
/// nothing else.
#[derive(Debug, PartialEq, Eq)]
pub struct WideText {
    units: Vec<u16>,
}

impl View for WideText {
    type V = Seq<u16>;

    closed spec fn view(&self) -> Seq<u16> {
        self.units@
    }
}

impl WideText {
    #[verifier::type_invariant]
    spec fn well_formed(&self) -> bool {
        is_terminated(self.units@)
    }

    /// Converts `text` to its nul-terminated UTF-16 form.
    ///
    /// Fails, before anything is built, exactly where the text holds the
    /// character U+0000.
    pub fn from_str(text: &str) -> (r: Result<WideText, Error>)
        ensures
            outcome(r) == marshal(text@),
    {
        match u16cstring_from_str(text) {
            Ok(units) => {
                proof {
                    lemma_run_before(encode(text@), 0u16);
                }
                Ok(WideText { units })
            },
            Err(position) => Err(Error::ContainsNul { position }),
        }
    }

    /// The code units, terminator included.
    pub fn as_units(&self) -> (units: &[u16])
        ensures
            units@ == self@,
            is_terminated(units@),
    {
        proof {
            use_type_invariant(self);
        }
        self.units.as_slice()
    }
}

/// Where the text in `buffer` ends: the index of its first nul, or its
/// length where it holds none.
pub fn text_end(buffer: &[u16]) -> (n: usize)
    ensures
        n == run_before(buffer@, 0u16),
{
    let mut n: usize = 0;
    while n < buffer.len() && buffer[n] != 0
        invariant
            n <= buffer.len(),
            forall|i: int| 0 <= i < n ==> buffer@[i] != 0,
        decreases buffer.len() - n,
    {
        n += 1;
    }
    proof {
        lemma_run_before_is(buffer@, 0u16, n as int);
    }
    n
}

/// Reads the text that the native library left in `buffer`.
///
/// Decoding stops at the first nul and never goes past the buffer's end. An
/// unpaired surrogate in front of the terminator is an error: nothing is
/// replaced, nothing is dropped, and no partial text is returned.
pub fn read_text(buffer: &[u16]) -> (r: Result<String, Error>)
    ensures
        outcome(r) == unmarshal(buffer@),
{
    let end = text_end(buffer);
    proof {
        lemma_run_before(buffer@, 0u16);
    }
    match decode_utf16(slice_subrange(buffer, 0, end)) {
        Ok(text) => Ok(text),
        Err(unit) => Err(Error::UnpairedSurrogate { unit }),
    }
}

/// A text goes out exactly where it holds no U+0000, and then none of its
/// code units is a nul: the terminator is the only one.
pub proof fn lemma_marshal_succeeds(text: Seq<char>)
    ensures
        marshal(text) is Ok <==> nul_free(text),
        nul_free(text) ==> marshal(text) == Ok::<Seq<u16>, Error>(encode(text).push(0)),
        nul_free(text) ==> is_terminated(encode(text).push(0)),
{
    lemma_nul_position(text);
    lemma_run_before(text, '\0');
    lemma_run_before(encode(text), 0u16);
    if nul_free(text) {
        lemma_run_before_is(text, '\0', text.len() as int);
    }
}

/// What goes out comes back: a text handed over in its wide form and found
/// again at the start of a buffer is read as that very text, character for
/// character, whatever the buffer holds behind the terminator.
pub proof fn lemma_marshal_unmarshal(text: Seq<char>, buffer: Seq<u16>)
    requires
        marshal(text) is Ok,
        marshal(text)->Ok_0.is_prefix_of(buffer),
    ensures
        unmarshal(buffer) == Ok::<Seq<char>, Error>(text),
{
    let units = encode(text);
    let wide = units.push(0);
    lemma_marshal_succeeds(text);
    assert forall|i: int| 0 <= i < units.len() implies buffer[i] != 0 by {
        assert(buffer[i] == wide[i]);
    }
    assert(buffer[units.len() as int] == wide[units.len() as int]);
    lemma_run_before_is(buffer, 0u16, units.len() as int);
    assert(buffer.take(units.len() as int) =~= units);
    lemma_decode_encode(text);
}

/// A buffer is read as a text exactly where it holds the code units of
/// that text in front of its first nul, or up to its end where it holds no
/// nul: nothing else is ever read as that text.
pub proof fn lemma_unmarshal_is_exact(buffer: Seq<u16>, text: Seq<char>)
    ensures
        unmarshal(buffer) == Ok::<Seq<char>, Error>(text) <==> buffer.take(
            run_before(buffer, 0u16),
        ) == encode(text),
{
    let held = buffer.take(run_before(buffer, 0u16));
    if held == encode(text) {
        lemma_decode_encode(text);
    }
    if decode(held) is Ok {
        lemma_encode_decode(held);
    }
}

/// Only what stands in front of the first nul is read: two buffers that
/// agree up to their first nul hold the same text, or fail alike, however
/// long they are and whatever follows.
pub proof fn lemma_unmarshal_reads_to_nul(a: Seq<u16>, b: Seq<u16>)
    requires
        run_before(a, 0u16) < a.len(),
        a.take(run_before(a, 0u16) + 1).is_prefix_of(b),
    ensures
        unmarshal(a) == unmarshal(b),
{
    let n = run_before(a, 0u16);
    lemma_run_before(a, 0u16);
    let head = a.take(n + 1);
    assert forall|i: int| 0 <= i < n implies b[i] != 0 by {
        assert(b[i] == head[i]);
    }
    assert(b[n] == head[n]);
    lemma_run_before_is(b, 0u16, n);
    assert(a.take(n) =~= b.take(n)) by {
        assert forall|i: int| 0 <= i < n implies a.take(n)[i] == b.take(n)[i] by {
            assert(b[i] == head[i]);
        }
    }
}

} // verus!
