//! Text: decimal numerals, white space, and the search for a character or a
//! substring.
//!
//! Three functions of the standard library are called here through wrappers
//! whose contracts are taken on trust: `String::push`, `str::to_lowercase` and
//! `str::parse`. What `str::to_lowercase` and `str::parse` give is not written
//! out; it has a name, [`lowercase_of`] and [`parsed_i64`], and the contracts
//! that depend on it speak of that name.

use vstd::prelude::*;

verus! {

/// The digit that stands for `d`, for `d` from 0 to 9.
pub open spec fn digit_char(d: int) -> char
    recommends
        0 <= d <= 9,
{
    (d + '0' as int) as char
}

/// The decimal numeral of `n`: no sign, and no leading zero but for 0 itself.
pub open spec fn decimal_of(n: nat) -> Seq<char>
    decreases n,
{
    if n < 10 {
        seq![digit_char(n as int)]
    } else {
        decimal_of(n / 10).push(digit_char((n % 10) as int))
    }
}

/// The decimal numeral of an integer: that of its magnitude, after a minus
/// sign where it is negative.
pub open spec fn numeral_of(n: int) -> Seq<char> {
    if n < 0 {
        seq!['-'] + decimal_of((-n) as nat)
    } else {
        decimal_of(n as nat)
    }
}

/// Whether `c` is white space: whether it is one of the code points that have
/// Unicode's `White_Space` property.
pub open spec fn is_white_space(c: char) -> bool {
    let code = c as int;
    ||| 0x09 <= code <= 0x0D
    ||| code == 0x20
    ||| code == 0x85
    ||| code == 0xA0
    ||| code == 0x1680
    ||| 0x2000 <= code <= 0x200A
    ||| code == 0x2028
    ||| code == 0x2029
    ||| code == 0x202F
    ||| code == 0x205F
    ||| code == 0x3000
}

/// Whether nothing is left of `text` once white space is trimmed from both
/// its ends: whether every character of it is white space.
pub open spec fn is_blank(text: Seq<char>) -> bool {
    forall|i: int| 0 <= i < text.len() ==> is_white_space(#[trigger] text[i])
}

/// Whether `needle` stands in `hay` from position `start` on.
pub open spec fn occurs_at(needle: Seq<char>, hay: Seq<char>, start: int) -> bool {
    &&& 0 <= start
    &&& start + needle.len() <= hay.len()
    &&& hay.subrange(start, start + needle.len()) == needle
}

/// Whether `needle` is a substring of `hay`: whether it stands somewhere in
/// `hay` as a run of neighbouring characters. The empty text is a substring
/// of every text.
pub open spec fn occurs_in(needle: Seq<char>, hay: Seq<char>) -> bool {
    exists|start: int| occurs_at(needle, hay, start)
}

/// The lower-case form of `text`, as `str::to_lowercase` of the standard
/// library gives it.
pub uninterp spec fn lowercase_of(text: Seq<char>) -> Seq<char>;

/// The number that `text` is the decimal numeral of, as `str::parse::<i64>`
/// of the standard library reads it; none where it reads none.
pub uninterp spec fn parsed_i64(text: Seq<char>) -> Option<i64>;

/// The lower-case form of `text`. This is `str::to_lowercase` of the standard
/// library; nothing is claimed of the result but that it depends on `text`
/// alone.
#[verifier::external_body]
pub(crate) fn lowercase(text: &str) -> (lower: String)
    ensures
        lower@ == lowercase_of(text@),
{
    text.to_lowercase()
}

/// The number that `text` is the decimal numeral of. This is
/// `str::parse::<i64>` of the standard library, with its error dropped;
/// nothing is claimed of the result but that it depends on `text` alone.
#[verifier::external_body]
pub(crate) fn parse_i64(text: &str) -> (number: Option<i64>)
    ensures
        number == parsed_i64(text@),
{
    text.parse::<i64>().ok()
}

/// Appends `c` to `text`. This is `String::push` of the standard library;
/// that the text afterwards is the text before with `c` at its end is taken
/// from its documentation, not proved.
#[verifier::external_body]
pub(crate) fn push_char(text: &mut String, c: char)
    ensures
        final(text)@ == old(text)@.push(c),
{
    text.push(c);
}

/// The digit that stands for `d`.
pub fn digit(d: u8) -> (c: char)
    requires
        d <= 9,
    ensures
        c == digit_char(d as int),
{
    (d + 48) as char
}

/// The decimal numeral of `n`.
pub fn decimal(n: u64) -> (text: String)
    ensures
        text@ == decimal_of(n as nat),
    decreases n,
{
    if n < 10 {
        let mut text = String::new();
        push_char(&mut text, digit(n as u8));
        text
    } else {
        let mut text = decimal(n / 10);
        push_char(&mut text, digit((n % 10) as u8));
        text
    }
}

/// The decimal numeral of `n`, with a minus sign where it is negative.
pub fn numeral(n: i64) -> (text: String)
    ensures
        text@ == numeral_of(n as int),
{
    if n < 0 {
        let magnitude: u64 = if n == i64::MIN {
            0x8000_0000_0000_0000
        } else {
            (-n) as u64
        };
        let mut text = String::new();
        push_char(&mut text, '-');
        text.append(decimal(magnitude).as_str());
        text
    } else {
        decimal(n as u64)
    }
}

/// Whether `c` is white space.
pub fn is_white_space_char(c: char) -> (white: bool)
    ensures
        white == is_white_space(c),
{
    let code = c as u32;
    (0x09 <= code && code <= 0x0D) || code == 0x20 || code == 0x85 || code == 0xA0 || code
        == 0x1680 || (0x2000 <= code && code <= 0x200A) || code == 0x2028 || code == 0x2029 || code
        == 0x202F || code == 0x205F || code == 0x3000
}

/// Whether nothing is left of `text` once white space is trimmed from both
/// its ends.
pub fn blank(text: &str) -> (blank: bool)
    ensures
        blank == is_blank(text@),
{
    let mut all = true;
    for c in it: text.chars()
        invariant
            it.seq() == text@,
            all == (forall|j: int| 0 <= j < it.index() ==> is_white_space(#[trigger] text@[j])),
    {
        all = all && is_white_space_char(c);
    }
    all
}

/// Whether `wanted` occurs in `text`.
pub fn contains_char(text: &str, wanted: char) -> (found: bool)
    ensures
        found == text@.contains(wanted),
{
    let mut found = false;
    for c in it: text.chars()
        invariant
            it.seq() == text@,
            found == (exists|j: int| 0 <= j < it.index() && #[trigger] text@[j] == wanted),
    {
        found = found || c == wanted;
    }
    found
}

/// The characters of `text`, one by one.
pub fn chars_of(text: &str) -> (chars: Vec<char>)
    ensures
        chars@ == text@,
{
    let mut chars: Vec<char> = Vec::new();
    for c in it: text.chars()
        invariant
            it.seq() == text@,
            chars@ == text@.take(it.index() as int),
    {
        chars.push(c);
    }
    chars
}

/// Whether `needle` stands in `hay` from position `start` on.
fn stands_at(needle: &Vec<char>, hay: &Vec<char>, start: usize) -> (found: bool)
    requires
        start + needle.len() <= hay.len(),
    ensures
        found == occurs_at(needle@, hay@, start as int),
{
    let mut k: usize = 0;
    while k < needle.len()
        invariant
            k <= needle.len(),
            start + needle.len() <= hay.len(),
            forall|j: int| 0 <= j < k ==> hay@[start + j] == needle@[j],
        decreases needle.len() - k,
    {
        if hay[start + k] != needle[k] {
            return false;
        }
        k += 1;
    }
    assert(hay@.subrange(start as int, start + needle.len()) =~= needle@);
    true
}

/// Whether `needle` is a substring of `hay`.
pub fn occurs(needle: &Vec<char>, hay: &Vec<char>) -> (found: bool)
    ensures
        found == occurs_in(needle@, hay@),
{
    if needle.len() > hay.len() {
        return false;
    }
    let last: usize = hay.len() - needle.len();
    let mut start: usize = 0;
    loop
        invariant
            last == hay.len() - needle.len(),
            start <= last,
            forall|s: int| 0 <= s < start ==> !occurs_at(needle@, hay@, s),
        decreases last - start,
    {
        if stands_at(needle, hay, start) {
            return true;
        }
        if start == last {
            return false;
        }
        start += 1;
    }
}

} // verus!
