//! Plain text work: numbers in decimal, trimming, splitting and searching.

use vstd::prelude::*;

verus! {

/// Whether a character has the Unicode property `White_Space`.
pub open spec fn white_space(c: char) -> bool {
    let code = c as u32;
    ||| 0x09 <= code <= 0x0d
    ||| code == 0x20
    ||| code == 0x85
    ||| code == 0xa0
    ||| code == 0x1680
    ||| 0x2000 <= code <= 0x200a
    ||| code == 0x2028
    ||| code == 0x2029
    ||| code == 0x202f
    ||| code == 0x205f
    ||| code == 0x3000
}

/// The character that stands for a number below ten.
pub open spec fn digit(value: nat) -> char {
    ('0' as nat + value) as char
}

/// A natural number in decimal, without leading zeros.
pub open spec fn decimal(value: nat) -> Seq<char>
    decreases value,
{
    if value < 10 {
        seq![digit(value)]
    } else {
        decimal(value / 10).push(digit(value % 10))
    }
}

/// An integer in decimal, with a minus sign where it is negative.
pub open spec fn integer(value: int) -> Seq<char> {
    if value < 0 {
        "-"@ + decimal((-value) as nat)
    } else {
        decimal(value as nat)
    }
}

/// An integer in decimal, filled up to two places with a zero.
pub open spec fn two_places(value: int) -> Seq<char> {
    if 0 <= value < 10 {
        "0"@ + integer(value)
    } else {
        integer(value)
    }
}

/// The text without its leading white space.
pub open spec fn trim_start(text: Seq<char>) -> Seq<char>
    decreases text.len(),
{
    if text.len() > 0 && white_space(text.first()) {
        trim_start(text.drop_first())
    } else {
        text
    }
}

/// The text without its trailing white space.
pub open spec fn trim_end(text: Seq<char>) -> Seq<char>
    decreases text.len(),
{
    if text.len() > 0 && white_space(text.last()) {
        trim_end(text.drop_last())
    } else {
        text
    }
}

/// The text without the white space on either side.
pub open spec fn trimmed(text: Seq<char>) -> Seq<char> {
    trim_end(trim_start(text))
}

/// The pieces of a text between its spaces: one more than it has spaces.
pub open spec fn pieces(text: Seq<char>) -> Seq<Seq<char>>
    decreases text.len(),
{
    if text.len() == 0 {
        seq![text]
    } else {
        let before = pieces(text.drop_last());
        if text.last() == ' ' {
            before.push(seq![])
        } else {
            before.drop_last().push(before.last().push(text.last()))
        }
    }
}

/// The pieces put together again, with a space between each two.
pub open spec fn joined(parts: Seq<Seq<char>>) -> Seq<char>
    decreases parts.len(),
{
    if parts.len() == 0 {
        seq![]
    } else if parts.len() == 1 {
        parts[0]
    } else {
        joined(parts.drop_last()).push(' ') + parts.last()
    }
}

/// Whether `part` stands somewhere in `text`, character after character.
pub open spec fn occurs_in(part: Seq<char>, text: Seq<char>) -> bool {
    exists|at: int|
        0 <= at <= text.len() - part.len() && #[trigger] text.subrange(at, at + part.len()) == part
}

/// The texts that a list of strings holds.
pub open spec fn texts(list: Seq<String>) -> Seq<Seq<char>> {
    list.map_values(|s: String| s@)
}

/// The text of an optional string.
pub open spec fn text_of(value: Option<String>) -> Option<Seq<char>> {
    match value {
        Some(s) => Some(s@),
        None => None,
    }
}

/// The literal for a digit.
fn digit_text(value: u64) -> (text: &'static str)
    requires
        value < 10,
    ensures
        text@ == seq![digit(value as nat)],
{
    proof {
        reveal_strlit("0");
        reveal_strlit("1");
        reveal_strlit("2");
        reveal_strlit("3");
        reveal_strlit("4");
        reveal_strlit("5");
        reveal_strlit("6");
        reveal_strlit("7");
        reveal_strlit("8");
        reveal_strlit("9");
    }
    let text: &'static str = match value {
        0 => "0",
        1 => "1",
        2 => "2",
        3 => "3",
        4 => "4",
        5 => "5",
        6 => "6",
        7 => "7",
        8 => "8",
        _ => "9",
    };
    assert(text@ =~= seq![digit(value as nat)]);
    text
}

/// Writes a natural number in decimal.
pub fn decimal_text(value: u64) -> (text: String)
    ensures
        text@ == decimal(value as nat),
    decreases value,
{
    if value < 10 {
        String::from_str(digit_text(value))
    } else {
        let mut text = decimal_text(value / 10);
        text.append(digit_text(value % 10));
        assert(text@ =~= decimal(value as nat));
        text
    }
}

/// Writes an integer in decimal.
pub fn integer_text(value: i64) -> (text: String)
    ensures
        text@ == integer(value as int),
{
    if value < 0 {
        let mut text = String::from_str("-");
        let magnitude: u64 = (-(value + 1)) as u64 + 1;
        text.append(decimal_text(magnitude).as_str());
        text
    } else {
        decimal_text(value as u64)
    }
}

/// Writes an integer in decimal, filled up to two places with a zero.
pub fn two_places_text(value: i64) -> (text: String)
    ensures
        text@ == two_places(value as int),
{
    if 0 <= value && value < 10 {
        let mut text = String::from_str("0");
        text.append(integer_text(value).as_str());
        text
    } else {
        integer_text(value)
    }
}

/// The characters of a text, in a vector.
pub fn characters(text: &str) -> (list: Vec<char>)
    ensures
        list@ == text@,
{
    let mut list: Vec<char> = Vec::new();
    for c in it: text.chars()
        invariant
            it.seq() == text@,
            list@ == text@.take(it.index()),
    {
        list.push(c);
    }
    assert(text@.take(text@.len() as int) =~= text@);
    list
}

/// Whether a character has the Unicode property `White_Space`.
pub fn is_white_space(c: char) -> (answer: bool)
    ensures
        answer == white_space(c),
{
    let code: u32 = c as u32;
    match code {
        0x09..=0x0d | 0x20 | 0x85 | 0xa0 | 0x1680 | 0x2000..=0x200a => true,
        0x2028 | 0x2029 | 0x202f | 0x205f | 0x3000 => true,
        _ => false,
    }
}

/// The text without the white space on either side.
pub fn trim_text(text: &str) -> (rest: &str)
    ensures
        rest@ == trimmed(text@),
{
    let list = characters(text);
    let mut start: usize = 0;
    assert(list@.skip(0) =~= list@);
    while start < list.len() && is_white_space(list[start])
        invariant
            start <= list.len(),
            trim_start(list@) == trim_start(list@.skip(start as int)),
        ensures
            start <= list.len(),
            trim_start(list@) == list@.skip(start as int),
        decreases list.len() - start,
    {
        assert(list@.skip(start as int).drop_first() =~= list@.skip(start + 1));
        start = start + 1;
    }
    let mut end: usize = list.len();
    let ghost rest = list@.skip(start as int);
    assert(list@.subrange(start as int, end as int) =~= rest);
    while end > start && is_white_space(list[end - 1])
        invariant
            start <= end <= list.len(),
            trim_end(rest) == trim_end(list@.subrange(start as int, end as int)),
        ensures
            start <= end <= list.len(),
            trim_end(rest) == list@.subrange(start as int, end as int),
        decreases end,
    {
        assert(list@.subrange(start as int, end as int).drop_last() =~= list@.subrange(
            start as int,
            end - 1,
        ));
        end = end - 1;
    }
    text.substring_char(start, end)
}

/// The pieces of a text between its spaces.
pub fn split_at_spaces(text: &str) -> (list: Vec<String>)
    ensures
        texts(list@) == pieces(text@),
{
    let characters = characters(text);
    let mut list: Vec<String> = Vec::new();
    let mut start: usize = 0;
    let mut at: usize = 0;
    assert(texts(list@).push(text@.subrange(0, 0)) =~= pieces(text@.take(0)));
    while at < characters.len()
        invariant
            characters@ == text@,
            start <= at <= characters.len(),
            texts(list@).push(text@.subrange(start as int, at as int)) == pieces(
                text@.take(at as int),
            ),
        decreases characters.len() - at,
    {
        let ghost piece = text@.subrange(start as int, at as int);
        let ghost before = texts(list@);
        assert(before.push(piece).drop_last() =~= before);
        assert(text@.take(at + 1).drop_last() =~= text@.take(at as int));
        if characters[at] == ' ' {
            list.push(String::from_str(text.substring_char(start, at)));
            assert(texts(list@) =~= before.push(piece));
            start = at + 1;
            assert(text@.subrange(start as int, at + 1) =~= seq![]);
        } else {
            assert(text@.subrange(start as int, at + 1) =~= piece.push(text@[at as int]));
        }
        at = at + 1;
    }
    let ghost before = texts(list@);
    list.push(String::from_str(text.substring_char(start, at)));
    assert(text@.take(at as int) =~= text@);
    assert(texts(list@) =~= before.push(text@.subrange(start as int, at as int)));
    list
}

/// Whether `part` stands in `text` at the index `at`.
fn stands_at(part: &Vec<char>, text: &Vec<char>, at: usize) -> (answer: bool)
    requires
        at + part.len() <= text.len(),
    ensures
        answer == (text@.subrange(at as int, at + part.len()) == part@),
{
    let mut done: usize = 0;
    while done < part.len()
        invariant
            at + part.len() <= text.len(),
            done <= part.len(),
            forall|i: int| 0 <= i < done ==> text@[at + i] == part@[i],
        decreases part.len() - done,
    {
        if text[at + done] != part[done] {
            assert(text@.subrange(at as int, at + part.len())[done as int] != part@[done as int]);
            return false;
        }
        done = done + 1;
    }
    assert(text@.subrange(at as int, at + part.len()) =~= part@);
    true
}

/// Whether `part` stands somewhere in `text`.
pub fn contains_text(text: &str, part: &str) -> (answer: bool)
    ensures
        answer == occurs_in(part@, text@),
{
    let haystack = characters(text);
    let needle = characters(part);
    if needle.len() > haystack.len() {
        return false;
    }
    let last: usize = haystack.len() - needle.len();
    let mut at: usize = 0;
    loop
        invariant
            haystack@ == text@,
            needle@ == part@,
            last == haystack.len() - needle.len(),
            at <= last,
            forall|i: int| 0 <= i < at ==> #[trigger] text@.subrange(i, i + part@.len()) != part@,
        decreases last - at,
    {
        if stands_at(&needle, &haystack, at) {
            return true;
        }
        if at == last {
            return false;
        }
        at = at + 1;
    }
}

} // verus!
