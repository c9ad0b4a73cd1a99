//! Text held in fixed-size foreign buffers, and the few searches the
//! inspection makes on it.
use vstd::prelude::*;
use vstd::std_specs::iter::IteratorSpec;

verus! {

broadcast use vstd::string::axiom_spec_iter, vstd::string::next_postcondition;

/// What `String::from_utf8_lossy` makes of a byte sequence.
pub uninterp spec fn utf8_lossy_of(bytes: Seq<u8>) -> Seq<char>;

/// A UTF-16 code unit that opens a surrogate pair.
pub open spec fn is_high_surrogate(u: u16) -> bool {
    0xD800 <= u <= 0xDBFF
}

/// A UTF-16 code unit that closes a surrogate pair.
pub open spec fn is_low_surrogate(u: u16) -> bool {
    0xDC00 <= u <= 0xDFFF
}

/// The text of a sequence of UTF-16 code units: a high surrogate followed by
/// a low one is the character they encode together, any other surrogate is
/// U+FFFD, and every other unit is the character of that number.
pub open spec fn utf16_lossy_of(units: Seq<u16>) -> Seq<char>
    decreases units.len(),
{
    if units.len() == 0 {
        Seq::empty()
    } else if units.len() >= 2 && is_high_surrogate(units[0]) && is_low_surrogate(units[1]) {
        let code = 0x10000 + (units[0] - 0xD800) * 0x400 + (units[1] - 0xDC00);
        seq![code as u32 as char] + utf16_lossy_of(units.skip(2))
    } else if is_high_surrogate(units[0]) || is_low_surrogate(units[0]) {
        seq!['\u{FFFD}'] + utf16_lossy_of(units.skip(1))
    } else {
        seq![units[0] as u32 as char] + utf16_lossy_of(units.skip(1))
    }
}

/// What `str::to_lowercase` makes of a text.
pub uninterp spec fn lowercase_of(s: Seq<char>) -> Seq<char>;

/// The UTF-16 code units of one character: the character's number below
/// U+10000, else a high and a low surrogate that split the number's excess
/// over U+10000 into its upper and lower ten bits.
pub open spec fn utf16_units_of_char(c: char) -> Seq<u16> {
    let v = c as int;
    if v < 0x10000 {
        seq![v as u16]
    } else {
        let w = v - 0x10000;
        seq![(0xD800 + w / 0x400) as u16, (0xDC00 + w % 0x400) as u16]
    }
}

/// The UTF-16 code units of a text, character by character.
pub open spec fn utf16_units_of(s: Seq<char>) -> Seq<u16>
    decreases s.len(),
{
    if s.len() == 0 {
        Seq::empty()
    } else {
        utf16_units_of(s.drop_last()) + utf16_units_of_char(s.last())
    }
}

/// Index of the first `nul` in `s` at or after `from`, or `s.len()` if there is none.
pub open spec fn text_end<T>(s: Seq<T>, nul: T, from: nat) -> nat
    decreases s.len() - from,
{
    if from >= s.len() || s[from as int] == nul {
        from
    } else {
        text_end(s, nul, from + 1)
    }
}

/// The bytes of a nul-terminated narrow buffer, up to its first nul.
pub open spec fn narrow_text(s: Seq<u8>) -> Seq<u8> {
    s.take(text_end(s, 0u8, 0) as int)
}

/// The code units of a nul-terminated UTF-16 buffer, up to its first nul.
pub open spec fn wide_text(s: Seq<u16>) -> Seq<u16> {
    s.take(text_end(s, 0u16, 0) as int)
}

/// `needle` occurs in `hay` as a contiguous run.
pub open spec fn contains_seq<T>(hay: Seq<T>, needle: Seq<T>) -> bool {
    exists|i: int| 0 <= i && i + needle.len() <= hay.len() && #[trigger] hay.subrange(i, i + needle.len()) == needle
}

/// Relies on `String::from_utf8_lossy`: the decoded text, with each invalid
/// sequence replaced by U+FFFD, depends on the bytes alone, and is empty
/// exactly when they are.
#[verifier::external_body]
fn decode_utf8_lossy(bytes: &[u8]) -> (r: String)
    ensures
        r@ == utf8_lossy_of(bytes@),
        r@.len() == 0 <==> bytes@.len() == 0,
{
    String::from_utf8_lossy(bytes).into_owned()
}

/// Relies on `String::from_utf16_lossy`: surrogate pairs are decoded together
/// and each unpaired surrogate is replaced by U+FFFD.
#[verifier::external_body]
fn decode_utf16_lossy(units: &[u16]) -> (r: String)
    ensures
        r@ == utf16_lossy_of(units@),
{
    String::from_utf16_lossy(units)
}

/// Relies on `str::to_lowercase`: the result depends on the characters alone.
#[verifier::external_body]
pub(crate) fn lowercase(s: &str) -> (r: String)
    ensures
        r@ == lowercase_of(s@),
{
    s.to_lowercase()
}

/// Relies on `str::encode_utf16`: each character becomes one code unit, or a
/// surrogate pair above U+FFFF.
#[verifier::external_body]
pub(crate) fn encode_utf16(s: &str) -> (r: Vec<u16>)
    ensures
        r@ == utf16_units_of(s@),
{
    s.encode_utf16().collect()
}

/// The bytes of `buf` before its first nul.
pub fn narrow_prefix(buf: &[u8]) -> (r: Vec<u8>)
    ensures
        r@ == narrow_text(buf@),
{
    let mut out: Vec<u8> = Vec::new();
    let mut i: usize = 0;
    while i < buf.len() && buf[i] != 0
        invariant
            i <= buf.len(),
            text_end(buf@, 0u8, i as nat) == text_end(buf@, 0u8, 0),
            out@ == buf@.take(i as int),
        decreases buf.len() - i,
    {
        out.push(buf[i]);
        i = i + 1;
        assert(out@ =~= buf@.take(i as int));
    }
    out
}

/// The code units of `buf` before its first nul.
pub fn wide_prefix(buf: &[u16]) -> (r: Vec<u16>)
    ensures
        r@ == wide_text(buf@),
{
    let mut out: Vec<u16> = Vec::new();
    let mut i: usize = 0;
    while i < buf.len() && buf[i] != 0
        invariant
            i <= buf.len(),
            text_end(buf@, 0u16, i as nat) == text_end(buf@, 0u16, 0),
            out@ == buf@.take(i as int),
        decreases buf.len() - i,
    {
        out.push(buf[i]);
        i = i + 1;
        assert(out@ =~= buf@.take(i as int));
    }
    out
}

/// The text of a nul-terminated narrow buffer, decoded as UTF-8 with invalid
/// sequences replaced.
pub fn c_str_to_string(buf: &[u8]) -> (r: String)
    ensures
        r@ == utf8_lossy_of(narrow_text(buf@)),
{
    let bytes = narrow_prefix(buf);
    decode_utf8_lossy(bytes.as_slice())
}

/// The text of a nul-terminated UTF-16 buffer, with unpaired surrogates replaced.
pub fn utf16_to_string(buf: &[u16]) -> (r: String)
    ensures
        r@ == utf16_lossy_of(wide_text(buf@)),
{
    let units = wide_prefix(buf);
    decode_utf16_lossy(units.as_slice())
}

/// Whether `needle` occurs in `hay` as a contiguous run.
pub fn contains_chars(hay: &Vec<char>, needle: &Vec<char>) -> (r: bool)
    ensures
        r == contains_seq(hay@, needle@),
{
    if needle.len() > hay.len() {
        return false;
    }
    let n = needle.len();
    let mut i: usize = 0;
    while i <= hay.len() - n
        invariant
            n == needle@.len(),
            n <= hay@.len(),
            i <= hay@.len() - n + 1,
            forall|k: int| 0 <= k < i ==> #[trigger] hay@.subrange(k, k + n) != needle@,
        decreases hay@.len() - i,
    {
        let mut j: usize = 0;
        while j < n
            invariant
                n == needle@.len(),
                i + n <= hay@.len(),
                j <= n,
                hay@.len() <= usize::MAX,
                forall|m: int| 0 <= m < j ==> hay@[i + m] == needle@[m],
            ensures
                j <= n,
                forall|m: int| 0 <= m < j ==> hay@[i + m] == needle@[m],
                j < n ==> hay@[i + j] != needle@[j as int],
            decreases n - j,
        {
            if hay[i + j] != needle[j] {
                break;
            }
            j = j + 1;
        }
        if j == n {
            assert(hay@.subrange(i as int, i + n) =~= needle@);
            return true;
        }
        assert(hay@.subrange(i as int, i + n)[j as int] != needle@[j as int]);
        i = i + 1;
    }
    false
}

/// The characters of `s`, in order.
pub fn chars_of(s: &str) -> (r: Vec<char>)
    ensures
        r@ == s@,
{
    let mut it = s.chars();
    let mut out: Vec<char> = Vec::new();
    loop
        invariant
            it.remaining() == s@.skip(out@.len() as int),
            out@ == s@.take(out@.len() as int),
            out@.len() <= s@.len(),
        decreases s@.len() - out@.len(),
    {
        match it.next() {
            Some(c) => {
                out.push(c);
            },
            None => {
                return out;
            },
        }
    }
}

} // verus!
