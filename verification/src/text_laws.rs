//! What holds of texts, numbers and links.

use crate::links::{is_url, leading_urls, requested_links};
use crate::progress::quotient;
use crate::text::{
    decimal, digit, integer, joined, occurs_in, pieces, trim_end, trim_start, trimmed, two_places,
    white_space,
};
use vstd::prelude::*;

verus! {

/// The pieces of a text, joined by spaces, are the text; there is at least one piece, and none
/// has a space in it.
pub proof fn pieces_make_up_the_text(text: Seq<char>)
    ensures
        joined(pieces(text)) == text,
        pieces(text).len() > 0,
        forall|i: int| 0 <= i < pieces(text).len() ==> !(#[trigger] pieces(text)[i]).contains(' '),
    decreases text.len(),
{
    if text.len() > 0 {
        let before = pieces(text.drop_last());
        pieces_make_up_the_text(text.drop_last());
        assert(text.drop_last().push(text.last()) =~= text);
        if text.last() == ' ' {
            let all = before.push(seq![]);
            assert(all.drop_last() =~= before);
            assert(joined(all) =~= text);
        } else {
            let piece = before.last().push(text.last());
            let all = before.drop_last().push(piece);
            assert(all.drop_last() =~= before.drop_last());
            assert(joined(all) =~= joined(before).push(text.last()));
            assert(!piece.contains(' ')) by {
                assert(!before[before.len() - 1].contains(' '));
                if piece.contains(' ') {
                    let k = choose|k: int| 0 <= k < piece.len() && piece[k] == ' ';
                    assert(before.last()[k] == ' ');
                }
            }
        }
    }
}

/// Adding a part that has no space to a text that ends in one adds a piece.
proof fn pieces_of_a_longer_text(text: Seq<char>, part: Seq<char>)
    requires
        !part.contains(' '),
    ensures
        pieces(text.push(' ') + part) == pieces(text).push(part),
    decreases part.len(),
{
    let whole = text.push(' ') + part;
    if part.len() == 0 {
        assert(whole =~= text.push(' '));
        assert(whole.drop_last() =~= text);
        assert(part =~= seq![]);
    } else {
        let shorter = part.drop_last();
        assert(!shorter.contains(' ')) by {
            if shorter.contains(' ') {
                let k = choose|k: int| 0 <= k < shorter.len() && shorter[k] == ' ';
                assert(part[k] == ' ');
            }
        }
        pieces_of_a_longer_text(text, shorter);
        assert(whole.drop_last() =~= text.push(' ') + shorter);
        assert(part[part.len() - 1] != ' ');
        assert(shorter.push(part.last()) =~= part);
        assert(pieces(text).push(shorter).drop_last() =~= pieces(text));
    }
}

/// A text without spaces is its only piece.
proof fn a_text_without_spaces_is_one_piece(text: Seq<char>)
    requires
        !text.contains(' '),
    ensures
        pieces(text) == seq![text],
    decreases text.len(),
{
    if text.len() > 0 {
        let shorter = text.drop_last();
        assert(!shorter.contains(' ')) by {
            if shorter.contains(' ') {
                let k = choose|k: int| 0 <= k < shorter.len() && shorter[k] == ' ';
                assert(text[k] == ' ');
            }
        }
        a_text_without_spaces_is_one_piece(shorter);
        assert(text[text.len() - 1] != ' ');
        assert(shorter.push(text.last()) =~= text);
        assert(pieces(text) =~= seq![text]);
    }
}

/// Parts that have no spaces, joined by spaces, are the pieces of what they make.
pub proof fn joined_parts_come_apart_again(parts: Seq<Seq<char>>)
    requires
        parts.len() > 0,
        forall|i: int| 0 <= i < parts.len() ==> !(#[trigger] parts[i]).contains(' '),
    ensures
        pieces(joined(parts)) == parts,
    decreases parts.len(),
{
    assert(!parts[parts.len() - 1].contains(' '));
    if parts.len() == 1 {
        a_text_without_spaces_is_one_piece(parts[0]);
        assert(parts =~= seq![parts[0]]);
    } else {
        let fewer = parts.drop_last();
        assert forall|i: int| 0 <= i < fewer.len() implies !(#[trigger] fewer[i]).contains(' ') by {
            assert(!parts[i].contains(' '));
        }
        joined_parts_come_apart_again(fewer);
        pieces_of_a_longer_text(joined(fewer), parts.last());
        assert(fewer.push(parts.last()) =~= parts);
    }
}

/// The first character of what is left of a text is no white space.
proof fn trim_start_leaves_no_white_space_first(text: Seq<char>)
    ensures
        trim_start(text).len() <= text.len(),
        trim_start(text) == text.skip(text.len() - trim_start(text).len()),
        forall|i: int|
            0 <= i < text.len() - trim_start(text).len() ==> white_space(#[trigger] text[i]),
        trim_start(text).len() > 0 ==> !white_space(trim_start(text).first()),
    decreases text.len(),
{
    if text.len() > 0 && white_space(text.first()) {
        trim_start_leaves_no_white_space_first(text.drop_first());
        let left = trim_start(text).len();
        assert(text.drop_first().skip(text.len() - 1 - left) =~= text.skip(text.len() - left));
        assert forall|i: int| 0 <= i < text.len() - left implies white_space(#[trigger] text[i]) by {
            if i > 0 {
                assert(text.drop_first()[i - 1] == text[i]);
            }
        }
    } else {
        assert(text.skip(0) =~= text);
    }
}

/// The last character of what is left of a text is no white space.
proof fn trim_end_leaves_no_white_space_last(text: Seq<char>)
    ensures
        trim_end(text).len() <= text.len(),
        trim_end(text) == text.take(trim_end(text).len() as int),
        forall|i: int| trim_end(text).len() <= i < text.len() ==> white_space(#[trigger] text[i]),
        trim_end(text).len() > 0 ==> !white_space(trim_end(text).last()),
    decreases text.len(),
{
    if text.len() > 0 && white_space(text.last()) {
        trim_end_leaves_no_white_space_last(text.drop_last());
        let left = trim_end(text).len() as int;
        assert(text.drop_last().take(left) =~= text.take(left));
        assert forall|i: int| left <= i < text.len() implies white_space(#[trigger] text[i]) by {
            if i < text.len() - 1 {
                assert(text.drop_last()[i] == text[i]);
            }
        }
    } else {
        assert(text.take(text.len() as int) =~= text);
    }
}

/// Trimming takes away white space and nothing else, from the two ends, and leaves none there.
/// Trimming again changes nothing, so that white space around a request is of no account.
pub proof fn trimming_removes_the_outer_white_space(text: Seq<char>)
    ensures
        exists|from: int, to: int|
            {
                &&& 0 <= from <= to <= text.len()
                &&& trimmed(text) == #[trigger] text.subrange(from, to)
                &&& forall|i: int| 0 <= i < from ==> white_space(#[trigger] text[i])
                &&& forall|i: int| to <= i < text.len() ==> white_space(#[trigger] text[i])
            },
        trimmed(text).len() > 0 ==> !white_space(trimmed(text).first()) && !white_space(
            trimmed(text).last(),
        ),
        trimmed(trimmed(text)) == trimmed(text),
        requested_links(trimmed(text)) == requested_links(text),
{
    let rest = trim_start(text);
    trim_start_leaves_no_white_space_first(text);
    trim_end_leaves_no_white_space_last(rest);
    let from = text.len() - rest.len();
    let to = from + trimmed(text).len();
    assert(text.subrange(from, to) =~= trimmed(text));
    assert forall|i: int| to <= i < text.len() implies white_space(#[trigger] text[i]) by {
        assert(rest[i - from] == text[i]);
    }
}

/// Different numbers are written differently, so that the note on a refused link tells its
/// position.
pub proof fn decimals_tell_numbers_apart(a: nat, b: nat)
    requires
        decimal(a) == decimal(b),
    ensures
        a == b,
    decreases a,
{
    if a < 10 && b < 10 {
        assert(decimal(a)[0] == digit(a) && decimal(b)[0] == digit(b));
        assert(digit(a) as int == 48 + a && digit(b) as int == 48 + b);
    } else if a < 10 {
        decimals_have_places(b / 10);
        assert(decimal(a).len() == 1);
        assert(decimal(b).len() == decimal(b / 10).len() + 1);
    } else if b < 10 {
        decimals_have_places(a / 10);
        assert(decimal(b).len() == 1);
        assert(decimal(a).len() == decimal(a / 10).len() + 1);
    } else {
        assert(decimal(a).last() == digit(a % 10));
        assert(decimal(b).last() == digit(b % 10));
        assert(digit(a % 10) as int == 48 + a % 10 && digit(b % 10) as int == 48 + b % 10);
        assert(decimal(a).drop_last() =~= decimal(a / 10));
        assert(decimal(b).drop_last() =~= decimal(b / 10));
        decimals_tell_numbers_apart(a / 10, b / 10);
        assert(a % 10 == b % 10);
    }
}

/// The number that some digits are read as.
pub open spec fn number_read(digits: Seq<char>) -> int
    decreases digits.len(),
{
    if digits.len() == 0 {
        0
    } else {
        number_read(digits.drop_last()) * 10 + (digits.last() as int - '0' as int)
    }
}

/// A number is read back from how it is written, which is in digits alone and without a zero in
/// front, but for zero itself.
pub proof fn decimals_can_be_read_back(value: nat)
    ensures
        number_read(decimal(value)) == value,
        decimal(value).len() > 0,
        forall|i: int| 0 <= i < decimal(value).len() ==> '0' <= #[trigger] decimal(value)[i] <= '9',
        value > 0 ==> decimal(value)[0] != '0',
        value == 0 ==> decimal(value) == seq!['0'],
    decreases value,
{
    let written = decimal(value);
    let last = value % 10;
    assert(written.last() == digit(last));
    assert(digit(last) as int == 48 + last);
    if value < 10 {
        assert(written.drop_last() =~= seq![]);
        assert(number_read(written.drop_last()) == 0);
    } else {
        decimals_can_be_read_back(value / 10);
        assert(written.drop_last() =~= decimal(value / 10));
        assert(written[0] == decimal(value / 10)[0]);
        assert forall|i: int| 0 <= i < written.len() implies '0' <= #[trigger] written[i]
            <= '9' by {
            if i < written.len() - 1 {
                assert(written[i] == decimal(value / 10)[i]);
            }
        }
    }
}

/// An integer is written as its magnitude, behind a minus sign exactly where it is negative; two
/// places are filled by one zero in front of a single digit, and by nothing else.
pub proof fn integers_show_sign_and_magnitude(value: nat)
    ensures
        integer(value as int) == decimal(value),
        value > 0 ==> integer(-(value as int)) == seq!['-'] + decimal(value),
        two_places(value as int) == if value < 10 {
            seq!['0'] + decimal(value)
        } else {
            decimal(value)
        },
        value > 0 ==> two_places(-(value as int)) == seq!['-'] + decimal(value),
{
    reveal_strlit("-");
    reveal_strlit("0");
    assert("-"@ =~= seq!['-']);
    assert("0"@ =~= seq!['0']);
}

/// The characters that count as white space.
pub proof fn white_space_is_these_characters(c: char)
    ensures
        white_space(c) <==> {
            ||| c == '\t' || c == '\n' || c == '\u{b}' || c == '\u{c}' || c == '\r' || c == ' '
            ||| c == '\u{85}' || c == '\u{a0}' || c == '\u{1680}' || c == '\u{2000}'
            ||| c == '\u{2001}' || c == '\u{2002}' || c == '\u{2003}' || c == '\u{2004}'
            ||| c == '\u{2005}' || c == '\u{2006}' || c == '\u{2007}' || c == '\u{2008}'
            ||| c == '\u{2009}' || c == '\u{200a}' || c == '\u{2028}' || c == '\u{2029}'
            ||| c == '\u{202f}' || c == '\u{205f}' || c == '\u{3000}'
        },
{
}

/// A text occurs in what has it in its midst, whatever stands before and after it.
pub proof fn a_part_occurs_in_the_whole(before: Seq<char>, part: Seq<char>, after: Seq<char>)
    ensures
        occurs_in(part, before + part + after),
{
    let whole = before + part + after;
    let at = before.len() as int;
    assert(whole.subrange(at, at + part.len()) =~= part);
}

/// A text that occurs in another has a beginning before it and a rest after it there.
pub proof fn an_occurrence_splits_the_whole(part: Seq<char>, whole: Seq<char>)
    requires
        occurs_in(part, whole),
    ensures
        exists|at: int|
            0 <= at <= whole.len() - part.len() && whole == #[trigger] whole.take(at) + part
                + whole.skip(at + part.len()),
{
    let at = choose|at: int|
        0 <= at <= whole.len() - part.len() && #[trigger] whole.subrange(at, at + part.len())
            == part;
    assert(whole =~= whole.take(at) + part + whole.skip(at + part.len()));
}

/// The links of a request, joined by spaces, are its text without the white space around it.
pub proof fn requested_links_make_up_the_request(text: Seq<char>)
    ensures
        joined(requested_links(text)) == trimmed(text),
        requested_links(text).len() > 0,
        forall|i: int|
            0 <= i < requested_links(text).len() ==> !(#[trigger] requested_links(
                text,
            )[i]).contains(' '),
{
    pieces_make_up_the_text(trimmed(text));
}

proof fn decimals_have_places(value: nat)
    ensures
        decimal(value).len() > 0,
{
}

/// A time left is split into minutes and seconds that make it up, with less than a minute of
/// seconds.
pub proof fn minutes_and_seconds_make_up_the_time(seconds: int)
    ensures
        ({
            let minutes = quotient(seconds, 60);
            let rest = seconds - minutes * 60;
            &&& minutes * 60 + rest == seconds
            &&& -60 < rest < 60
            &&& seconds >= 0 ==> minutes >= 0 && rest >= 0
        }),
{
}

/// The count of leading URLs finds the first link that is none: every link before it is a URL,
/// and it is not. All links are URLs exactly where the count is that of the links.
pub proof fn leading_urls_end_at_the_first_other_link(links: Seq<Seq<char>>)
    ensures
        leading_urls(links) <= links.len(),
        forall|i: int| 0 <= i < leading_urls(links) ==> is_url(#[trigger] links[i]),
        leading_urls(links) < links.len() ==> !is_url(links[leading_urls(links) as int]),
        leading_urls(links) == links.len() <==> (forall|i: int|
            0 <= i < links.len() ==> is_url(#[trigger] links[i])),
    decreases links.len(),
{
    if links.len() > 0 && is_url(links.first()) {
        let rest = links.drop_first();
        leading_urls_end_at_the_first_other_link(rest);
        assert forall|i: int| 0 <= i < leading_urls(links) implies is_url(#[trigger] links[i]) by {
            if i > 0 {
                assert(is_url(rest[i - 1]));
            }
        }
        if leading_urls(rest) < rest.len() {
            assert(rest[leading_urls(rest) as int] == links[leading_urls(links) as int]);
        }
    } else if links.len() > 0 {
        assert(!is_url(links[0]));
    }
}

} // verus!
