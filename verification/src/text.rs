//! Texts as sequences of characters: cutting, searching and comparing them.

use vstd::prelude::*;
use vstd::string::*;

verus! {

/// The lowercase form of a text, as Unicode defines it.
pub uninterp spec fn lowercase(s: Seq<char>) -> Seq<char>;

/// Lowercasing (`str::to_lowercase`): the result depends on the text alone. Nothing is said here
/// of which characters it holds.
pub assume_specification[ str::to_lowercase ](s: &str) -> (lower: String)
    ensures
        lower@ == lowercase(s@),
;

/// The views of a list of strings.
pub open spec fn texts(v: Seq<String>) -> Seq<Seq<char>> {
    v.map_values(|s: String| s@)
}

/// The first `max` of a list, or all of it.
pub open spec fn first<T>(s: Seq<T>, max: nat) -> Seq<T> {
    if s.len() <= max {
        s
    } else {
        s.take(max as int)
    }
}

/// A text cut to its first `max` characters.
pub open spec fn cut(s: Seq<char>, max: nat) -> Seq<char> {
    first(s, max)
}

/// Cuts a text to at most `max` characters.
pub fn truncate(s: &str, max: usize) -> (short: String)
    ensures
        short@ == cut(s@, max as nat),
{
    if s.unicode_len() <= max {
        s.to_owned()
    } else {
        let head = s.substring_char(0, max);
        assert(head@ =~= s@.take(max as int));
        head.to_owned()
    }
}

/// A text cut to its first `max` characters, with an ellipsis where something was left out.
pub open spec fn abridged(s: Seq<char>, max: nat) -> Seq<char> {
    if s.len() <= max {
        s
    } else {
        s.take(max as int).push('…')
    }
}

/// Cuts a text to at most `max` characters and marks the cut.
pub fn abridge(s: &str, max: usize) -> (short: String)
    ensures
        short@ == abridged(s@, max as nat),
{
    let mut short = truncate(s, max);
    if s.unicode_len() > max {
        proof {
            reveal_strlit("…");
        }
        short.append("…");
        assert(short@ =~= s@.take(max as int).push('…'));
    }
    short
}

/// Two texts, one after the other.
pub fn join(head: &str, tail: &str) -> (whole: String)
    ensures
        whole@ == head@ + tail@,
{
    head.to_owned().concat(tail)
}

/// The characters of a text.
fn chars_of(s: &str) -> (v: Vec<char>)
    ensures
        v@ == s@,
{
    let mut v: Vec<char> = Vec::new();
    for c in it: s.chars()
        invariant
            it.seq() == s@,
            v@ == s@.take(it.index() as int),
    {
        let ghost i = it.index() as int;
        v.push(c);
        assert(v@ =~= s@.take(i + 1));
    }
    assert(s@.take(s@.len() as int) =~= s@);
    v
}

/// The characters with the Unicode property White_Space.
pub open spec fn white_space(c: char) -> bool {
    let code = c as int;
    ||| 0x09 <= code <= 0x0D
    ||| code == 0x20
    ||| code == 0x85
    ||| code == 0xA0
    ||| code == 0x1680
    ||| 0x2000 <= code <= 0x200A
    ||| code == 0x2028
    ||| code == 0x2029
    ||| code == 0x202F
    ||| code == 0x205F
    ||| code == 0x3000
}

/// Tests a character for the property White_Space.
pub fn is_white_space(c: char) -> (yes: bool)
    ensures
        yes == white_space(c),
{
    let code: u32 = c as u32;
    (0x09 <= code && code <= 0x0D) || code == 0x20 || code == 0x85 || code == 0xA0 || code == 0x1680
        || (0x2000 <= code && code <= 0x200A) || code == 0x2028 || code == 0x2029 || code == 0x202F
        || code == 0x205F || code == 0x3000
}

/// A text that shows nothing: it is empty or all white space.
pub open spec fn blank(s: Seq<char>) -> bool {
    forall|i: int| 0 <= i < s.len() ==> white_space(#[trigger] s[i])
}

/// Tests whether a text is empty or all white space.
pub fn is_blank(s: &str) -> (yes: bool)
    ensures
        yes == blank(s@),
{
    let v = chars_of(s);
    let mut i: usize = 0;
    while i < v.len()
        invariant
            i <= v.len(),
            v@ == s@,
            forall|k: int| 0 <= k < i ==> white_space(#[trigger] s@[k]),
        decreases v.len() - i,
    {
        if !is_white_space(v[i]) {
            assert(!white_space(s@[i as int]));
            return false;
        }
        i = i + 1;
    }
    true
}

/// `part` stands in `s` from position `i` on.
pub open spec fn occurs_at(s: Seq<char>, part: Seq<char>, i: int) -> bool {
    0 <= i && i + part.len() <= s.len() && s.subrange(i, i + part.len()) == part
}

/// `part` stands somewhere in `s`.
pub open spec fn has_part(s: Seq<char>, part: Seq<char>) -> bool {
    exists|i: int| occurs_at(s, part, i)
}

/// Tests whether `part` stands in `s` from position `i` on.
fn occurs(s: &Vec<char>, part: &Vec<char>, i: usize) -> (yes: bool)
    requires
        i + part@.len() <= s@.len(),
    ensures
        yes == occurs_at(s@, part@, i as int),
{
    let ghost window = s@.subrange(i as int, i + part@.len());
    let mut k: usize = 0;
    while k < part.len()
        invariant
            k <= part.len(),
            i + part@.len() <= s.len(),
            window == s@.subrange(i as int, i + part@.len()),
            forall|j: int| 0 <= j < k ==> window[j] == #[trigger] part@[j],
        decreases part.len() - k,
    {
        if s[i + k] != part[k] {
            assert(window[k as int] != part@[k as int]);
            return false;
        }
        k = k + 1;
    }
    assert(window =~= part@);
    true
}

/// Tests whether `part` stands somewhere in `s`.
pub fn contains(s: &str, part: &str) -> (yes: bool)
    ensures
        yes == has_part(s@, part@),
{
    let v = chars_of(s);
    let p = chars_of(part);
    if p.len() > v.len() {
        return false;
    }
    let last: usize = v.len() - p.len();
    let mut i: usize = 0;
    while i < last
        invariant
            v@ == s@,
            p@ == part@,
            last == v.len() - p.len(),
            i <= last,
            forall|k: int| 0 <= k < i ==> !occurs_at(s@, part@, k),
        decreases last - i,
    {
        if occurs(&v, &p, i) {
            return true;
        }
        i = i + 1;
    }
    occurs(&v, &p, last)
}

/// A text that is short enough is not cut, and nothing is left to cut after the first time.
pub proof fn cut_is_a_prefix(s: Seq<char>, max: nat)
    ensures
        cut(s, max).len() <= max,
        cut(s, max) == s.take(cut(s, max).len() as int),
        s.len() <= max ==> cut(s, max) == s,
        cut(cut(s, max), max) == cut(s, max),
{
    assert(s.take(s.len() as int) =~= s);
}

/// An abridged text is at most one character longer than what is kept, starts as the text does,
/// and is the text itself where nothing was left out.
pub proof fn abridged_starts_the_same(s: Seq<char>, max: nat)
    ensures
        abridged(s, max).len() <= max + 1,
        abridged(s, max).take(cut(s, max).len() as int) == cut(s, max),
        s.len() <= max ==> abridged(s, max) == s,
{
    assert(abridged(s, max).take(cut(s, max).len() as int) =~= cut(s, max));
}

/// Every text is part of itself.
pub proof fn text_has_itself(s: Seq<char>)
    ensures
        has_part(s, s),
{
    assert(s.subrange(0, s.len() as int) =~= s);
    assert(occurs_at(s, s, 0));
}

/// What is cut off is the end: of the characters that were there, those up to the limit are left,
/// each at its place.
pub proof fn cut_keeps_the_beginning(s: Seq<char>, max: nat, i: int)
    ensures
        s.len() <= max ==> cut(s, max) == s,
        s.len() > max ==> cut(s, max).len() == max,
        0 <= i < cut(s, max).len() ==> cut(s, max)[i] == s[i],
{
}

/// A list that is short enough is kept whole; of a longer one the beginning is kept.
pub proof fn first_keeps_the_beginning<T>(s: Seq<T>, max: nat, i: int)
    ensures
        s.len() <= max ==> first(s, max) == s,
        s.len() > max ==> first(s, max).len() == max,
        0 <= i < first(s, max).len() ==> first(s, max)[i] == s[i],
{
}

/// An ellipsis stands at the end of an abridged text exactly if something was left out, behind
/// as many characters as are kept.
pub proof fn ellipsis_marks_the_cut(s: Seq<char>, max: nat, i: int)
    ensures
        s.len() <= max ==> abridged(s, max) == s,
        s.len() > max ==> abridged(s, max).len() == max + 1 && abridged(s, max)[max as int] == '…',
        0 <= i < max && i < s.len() ==> abridged(s, max)[i] == s[i],
{
}

/// A text is blank exactly if each of its characters is white space: nothing is blank, two texts
/// are blank together if both are, and a single character is if it is white space.
pub proof fn blank_is_all_white_space(a: Seq<char>, b: Seq<char>, c: char)
    ensures
        blank(Seq::empty()),
        blank(a + b) <==> blank(a) && blank(b),
        blank(seq![c]) <==> white_space(c),
        blank(a.push(c)) <==> blank(a) && white_space(c),
{
    assert forall|i: int| 0 <= i < a.len() implies #[trigger] a[i] == (a + b)[i] by {}
    assert forall|i: int| 0 <= i < b.len() implies #[trigger] b[i] == (a + b)[a.len() + i] by {}
    assert forall|i: int| 0 <= i < a.len() implies #[trigger] a[i] == a.push(c)[i] by {}
    assert(a.push(c)[a.len() as int] == c);
    assert(seq![c][0] == c);
}

/// White space is the tab, the line feed, the vertical tab, the form feed, the carriage return, the
/// space, and the spaces and separators beyond ASCII; no letter and no digit is.
pub proof fn letters_are_no_white_space(c: char)
    ensures
        white_space(' ') && white_space('\t') && white_space('\n') && white_space('\r'),
        0x21 <= c as int <= 0x7E ==> !white_space(c),
        0xA1 <= c as int <= 0x167F ==> !white_space(c),
        c as int > 0x3000 ==> !white_space(c),
{
}

/// Whatever stands before and behind it, a text is found in a longer one that was put together
/// around it.
pub proof fn part_is_found_anywhere(before: Seq<char>, part: Seq<char>, behind: Seq<char>)
    ensures
        has_part(before + part + behind, part),
{
    let s = before + part + behind;
    assert(s.subrange(before.len() as int, (before.len() + part.len()) as int) =~= part);
    assert(occurs_at(s, part, before.len() as int));
}

/// A text that is found in another one splits it: the other one is what stands before it, the
/// text, and what stands behind it.
pub proof fn found_part_splits_the_text(s: Seq<char>, part: Seq<char>) -> (at: (
    Seq<char>,
    Seq<char>,
))
    requires
        has_part(s, part),
    ensures
        s == at.0 + part + at.1,
{
    let i = choose|i: int| occurs_at(s, part, i);
    let at = (s.take(i), s.skip(i + part.len()));
    assert(s =~= at.0 + s.subrange(i, i + part.len()) + at.1);
    at
}

} // verus!
