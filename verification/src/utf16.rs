//! Text as Windows holds it: UTF-16 code units, closed by a zero unit.

use vstd::prelude::*;
use vstd::string::*;

verus! {

/// Appends one character to a string (`String::push`).
pub assume_specification[ String::push ](s: &mut String, ch: char)
    ensures
        final(s)@ == old(s)@.push(ch),
;

/// The character with a given code (`core::char::from_u32`): there is one exactly when the code
/// is a Unicode scalar value.
pub assume_specification[ core::char::from_u32 ](i: u32) -> (c: Option<char>)
    ensures
        c is Some <==> i < 0xD800 || 0xE000 <= i <= 0x10FFFF,
        c matches Some(ch) ==> ch as u32 == i,
;

/// What stands for units that encode nothing.
pub const REPLACEMENT: char = '\u{FFFD}';

/// Every character is a Unicode scalar value, and its code stands for it alone.
proof fn lemma_char_code(c: char)
    ensures
        0 <= c as int <= 0x10FFFF,
        c as int >= 0xE000 || 0xD800 > c as int,
        (c as int) as char == c,
{
}

/// The code units of one character: itself, or a surrogate pair.
pub open spec fn char_units(c: char) -> Seq<u16> {
    let code = c as int;
    if code < 0x10000 {
        seq![code as u16]
    } else {
        seq![
            (0xD800 + (code - 0x10000) / 0x400) as u16,
            (0xDC00 + (code - 0x10000) % 0x400) as u16,
        ]
    }
}

/// The code units of a text, one character after the other.
pub open spec fn units(s: Seq<char>) -> Seq<u16>
    decreases s.len(),
{
    if s.len() == 0 {
        Seq::empty()
    } else {
        char_units(s[0]) + units(s.skip(1))
    }
}

/// The first unit of a surrogate pair.
pub open spec fn is_high(u: u16) -> bool {
    0xD800 <= u < 0xDC00
}

/// The second unit of a surrogate pair.
pub open spec fn is_low(u: u16) -> bool {
    0xDC00 <= u < 0xE000
}

/// The code that a surrogate pair stands for.
pub open spec fn pair_code(high: u16, low: u16) -> int {
    0x10000 + (high - 0xD800) * 0x400 + (low - 0xDC00)
}

/// The text that a sequence of code units encodes. A surrogate without its other half counts as
/// one `REPLACEMENT`.
pub open spec fn text_of(u: Seq<u16>) -> Seq<char>
    decreases u.len(),
{
    if u.len() == 0 {
        Seq::empty()
    } else if is_high(u[0]) && u.len() > 1 && is_low(u[1]) {
        seq![pair_code(u[0], u[1]) as char] + text_of(u.skip(2))
    } else if is_high(u[0]) || is_low(u[0]) {
        seq![REPLACEMENT] + text_of(u.skip(1))
    } else {
        seq![u[0] as char] + text_of(u.skip(1))
    }
}

/// Appends the code units of one character.
fn push_char(out: &mut Vec<u16>, c: char)
    ensures
        final(out)@ == old(out)@ + char_units(c),
{
    let code: u32 = c as u32;
    if code < 0x10000 {
        out.push(code as u16);
    } else {
        let over: u32 = code - 0x10000;
        assert(over < 0x100000);
        out.push((0xD800 + over / 0x400) as u16);
        out.push((0xDC00 + over % 0x400) as u16);
    }
    assert(out@ =~= old(out)@ + char_units(c));
}

/// Encodes a text.
fn encode(s: &str) -> (out: Vec<u16>)
    ensures
        out@ == units(s@),
{
    let mut out: Vec<u16> = Vec::new();
    proof {
        assert(s@.skip(0) =~= s@);
    }
    for c in it: s.chars()
        invariant
            it.seq() == s@,
            units(s@) =~= out@ + units(s@.skip(it.index() as int)),
    {
        let ghost i = it.index() as int;
        push_char(&mut out, c);
        proof {
            assert(s@.skip(i)[0] == c);
            assert(s@.skip(i).skip(1) =~= s@.skip(i + 1));
        }
    }
    out
}

/// The text as a zero-terminated string of code units.
pub fn wide(s: &str) -> (out: Vec<u16>)
    ensures
        out@ == units(s@).push(0),
{
    let mut out = encode(s);
    out.push(0);
    out
}

/// What a buffer holds once a text is put into it: as many of the text's units as leave room for
/// the closing zero, the zero, and what stood behind it before.
pub open spec fn stored(before: Seq<u16>, s: Seq<char>) -> Seq<u16> {
    let kept = shown_units(s, before.len());
    kept.push(0) + before.skip(kept.len() as int + 1)
}

/// The units of a text that a buffer of `n` units has room for.
pub open spec fn shown_units(s: Seq<char>, n: nat) -> Seq<u16> {
    if units(s).len() < n {
        units(s)
    } else {
        units(s).take(n - 1)
    }
}

/// Puts a text into a fixed buffer, cut to fit and zero-terminated.
pub fn set_wstr<const N: usize>(dst: &mut [u16; N], s: &str)
    requires
        N > 0,
    ensures
        final(dst)@ == stored(old(dst)@, s@),
{
    let w = encode(s);
    let n: usize = if w.len() < N { w.len() } else { N - 1 };
    let ghost before = dst@;
    let mut i: usize = 0;
    while i < n
        invariant
            i <= n < N,
            n <= w.len(),
            before.len() == N,
            dst@ == w@.take(i as int) + before.skip(i as int),
        decreases n - i,
    {
        dst[i] = w[i];
        i = i + 1;
        assert(dst@ =~= w@.take(i as int) + before.skip(i as int));
    }
    dst[n] = 0;
    assert(w@.take(n as int) =~= shown_units(s@, N as nat));
    assert(dst@ =~= stored(before, s@));
}

/// The text that code units encode.
fn decode(u: &[u16]) -> (s: String)
    ensures
        s@ == text_of(u@),
{
    let mut s = String::new();
    let mut i: usize = 0;
    assert(u@.skip(0) =~= u@);
    while i < u.len()
        invariant
            i <= u@.len(),
            text_of(u@) =~= s@ + text_of(u@.skip(i as int)),
        decreases u.len() - i,
    {
        let ghost rest = u@.skip(i as int);
        let first: u16 = u[i];
        let mut used: usize = 1;
        let mut c: char = REPLACEMENT;
        if first < 0xD800 || first >= 0xE000 {
            if let Some(ch) = core::char::from_u32(first as u32) {
                c = ch;
            }
        } else if first < 0xDC00 && u.len() - i > 1 && 0xDC00 <= u[i + 1] && u[i + 1] < 0xE000 {
            let code: u32 = 0x10000 + (first as u32 - 0xD800) * 0x400 + (u[i + 1] as u32 - 0xDC00);
            if let Some(ch) = core::char::from_u32(code) {
                c = ch;
            }
            used = 2;
        }
        proof {
            lemma_char_code(c);
        }
        assert(rest[0] == first);
        assert(used == 2 ==> rest[1] == u@[i + 1]);
        assert(rest.skip(used as int) =~= u@.skip(i + used));
        assert(text_of(rest) == seq![c] + text_of(rest.skip(used as int)));
        s.push(c);
        i = i + used;
    }
    s
}

/// The title of a window, from the buffer that it was read into and the number of units that were
/// read. A count that is not positive means that there is no title.
pub fn get_title(buf: &[u16], n: i32) -> (title: String)
    requires
        n <= buf@.len(),
    ensures
        title@ == if n <= 0 {
            Seq::empty()
        } else {
            text_of(buf@.take(n as int))
        },
{
    if n <= 0 {
        return String::new();
    }
    let read = vstd::slice::slice_subrange(buf, 0, n as usize);
    assert(read@ =~= buf@.take(n as int));
    decode(read)
}

/// Decoding the units of a text gives the text back.
pub proof fn decoding_inverts_encoding(s: Seq<char>)
    ensures
        text_of(units(s)) == s,
    decreases s.len(),
{
    if s.len() > 0 {
        let c = s[0];
        let rest = units(s.skip(1));
        let u = units(s);
        decoding_inverts_encoding(s.skip(1));
        lemma_char_code(c);
        if (c as int) < 0x10000 {
            assert(u.skip(1) =~= rest);
            assert(u[0] == c as int);
        } else {
            assert(u.skip(2) =~= rest);
            assert(c as int <= 0x10FFFF);
            assert(is_high(u[0]) && is_low(u[1]));
            assert(pair_code(u[0], u[1]) == c as int);
        }
        assert(text_of(u) =~= seq![c] + text_of(rest));
        assert(seq![c] + s.skip(1) =~= s);
    } else {
        assert(text_of(units(s)) =~= s);
    }
}

/// In a text without the zero character no unit is zero: a reader of the zero-terminated string
/// stops exactly at its end.
pub proof fn only_the_terminator_is_zero(s: Seq<char>, i: int)
    requires
        !s.contains('\0'),
        0 <= i < units(s).len(),
    ensures
        units(s)[i] != 0,
    decreases s.len(),
{
    let c = s[0];
    assert(s.contains(c));
    lemma_char_code(c);
    let head = char_units(c);
    if i >= head.len() {
        assert forall|k: int| 0 <= k < s.skip(1).len() implies s.skip(1)[k] != '\0' by {
            assert(s.contains(s[k + 1]));
        }
        only_the_terminator_is_zero(s.skip(1), i - head.len());
    }
}

/// A text has at least one unit and at most two units per character.
pub proof fn units_per_char(s: Seq<char>)
    ensures
        s.len() <= units(s).len() <= 2 * s.len(),
    decreases s.len(),
{
    if s.len() > 0 {
        units_per_char(s.skip(1));
    }
}

/// A buffer always ends up zero-terminated within its bounds and keeps its size.
pub proof fn stored_is_terminated(before: Seq<u16>, s: Seq<char>)
    requires
        before.len() > 0,
    ensures
        stored(before, s).len() == before.len(),
        shown_units(s, before.len()).len() < before.len(),
        stored(before, s)[shown_units(s, before.len()).len() as int] == 0,
{
}

/// A text whose units leave room for the terminator is read back whole from its buffer.
pub proof fn short_text_is_stored_whole(before: Seq<u16>, s: Seq<char>)
    requires
        units(s).len() < before.len(),
    ensures
        text_of(stored(before, s).take(units(s).len() as int)) == s,
{
    assert(stored(before, s).take(units(s).len() as int) =~= units(s));
    decoding_inverts_encoding(s);
}

/// Texts are encoded character by character: the units of two texts together are those of the one
/// and then those of the other.
pub proof fn units_follow_the_text(a: Seq<char>, b: Seq<char>)
    ensures
        units(a + b) == units(a) + units(b),
        units(Seq::empty()) == Seq::<u16>::empty(),
    decreases a.len(),
{
    if a.len() == 0 {
        assert(a + b =~= b);
        assert(units(a) + units(b) =~= units(b));
    } else {
        units_follow_the_text(a.skip(1), b);
        assert((a + b).skip(1) =~= a.skip(1) + b);
        assert((a + b)[0] == a[0]);
        assert(units(a + b) =~= units(a) + units(b));
    }
}

/// A character of the first sixty-four thousand is its own unit. Any other one is a pair: ten bits
/// above 0xD800 and ten bits above 0xDC00 that give back how far it lies beyond.
pub proof fn units_of_one_character(c: char)
    ensures
        c as int <= 0xFFFF ==> units(seq![c]).len() == 1 && units(seq![c])[0] == c as int,
        c as int > 0xFFFF ==> {
            let u = units(seq![c]);
            &&& u.len() == 2
            &&& 0xD800 <= u[0] <= 0xDBFF && 0xDC00 <= u[1] <= 0xDFFF
            &&& c as int == 0x10000 + 0x400 * (u[0] - 0xD800) + (u[1] - 0xDC00)
        },
{
    lemma_char_code(c);
    assert(seq![c].skip(1) =~= Seq::empty());
    assert(units(seq![c].skip(1)) =~= Seq::empty());
    assert(units(seq![c]) =~= char_units(c));
}

/// Units are decoded from the front: a unit that is no surrogate is its own character, a pair of
/// surrogates is the character that it encodes, and a surrogate that is not paired is the
/// replacement character. Nothing decodes to nothing.
pub proof fn units_are_decoded_in_order(a: u16, b: u16, rest: Seq<u16>)
    ensures
        text_of(Seq::empty()) == Seq::<char>::empty(),
        a < 0xD800 || a >= 0xE000 ==> text_of(seq![a] + rest) == seq![a as char] + text_of(rest),
        0xDC00 <= a < 0xE000 ==> text_of(seq![a] + rest) == seq!['\u{FFFD}'] + text_of(rest),
        0xD800 <= a < 0xDC00 ==> text_of(seq![a]) == seq!['\u{FFFD}'],
        0xD800 <= a < 0xDC00 && !(0xDC00 <= b < 0xE000) ==> text_of(seq![a, b] + rest)
            == seq!['\u{FFFD}'] + text_of(seq![b] + rest),
        0xD800 <= a < 0xDC00 && 0xDC00 <= b < 0xE000 ==> text_of(seq![a, b] + rest) == seq![
            (0x10000 + 0x400 * (a - 0xD800) + (b - 0xDC00)) as char,
        ] + text_of(rest),
{
    assert((seq![a] + rest).skip(1) =~= rest);
    assert((seq![a, b] + rest).skip(2) =~= rest);
    assert((seq![a, b] + rest).skip(1) =~= seq![b] + rest);
    assert(seq![a].skip(1) =~= Seq::empty());
    assert(text_of(Seq::empty()) =~= Seq::empty());
    assert(seq![REPLACEMENT] + Seq::<char>::empty() =~= seq![REPLACEMENT]);
}

/// A buffer takes the units of a text as far as they leave room for a zero, then the zero; behind it
/// nothing changes.
pub proof fn buffer_holds_the_beginning(before: Seq<u16>, s: Seq<char>, i: int)
    requires
        before.len() > 0,
    ensures
        ({
            let n = if units(s).len() < before.len() {
                units(s).len() as int
            } else {
                before.len() - 1
            };
            let after = stored(before, s);
            &&& after.len() == before.len()
            &&& 0 <= i < n ==> after[i] == units(s)[i]
            &&& after[n] == 0
            &&& n < i < before.len() ==> after[i] == before[i]
        }),
{
}

} // verus!
