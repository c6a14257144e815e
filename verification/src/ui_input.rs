//! Reading the client's choices from what the user typed: the number of a
//! restaurant from the list shown, and the name of a dish.
use crate::decimal::{decimal, is_digit, lemma_decimal_denotes, lemma_parse_decimal, parse_u64, parsed_u64};
use vstd::prelude::*;

verus! {

/// Whether `c` has the Unicode `White_Space` property.
pub open spec fn is_white_space(c: char) -> bool {
    ||| ('\u{9}' <= c && c <= '\u{d}')
    ||| c == ' '
    ||| c == '\u{85}'
    ||| c == '\u{a0}'
    ||| c == '\u{1680}'
    ||| ('\u{2000}' <= c && c <= '\u{200a}')
    ||| c == '\u{2028}'
    ||| c == '\u{2029}'
    ||| c == '\u{202f}'
    ||| c == '\u{205f}'
    ||| c == '\u{3000}'
}

/// `s` without its leading white space.
pub open spec fn trim_start(s: Seq<char>) -> Seq<char>
    decreases s.len(),
{
    if s.len() > 0 && is_white_space(s[0]) {
        trim_start(s.drop_first())
    } else {
        s
    }
}

/// `s` without its trailing white space.
pub open spec fn trim_end(s: Seq<char>) -> Seq<char>
    decreases s.len(),
{
    if s.len() > 0 && is_white_space(s.last()) {
        trim_end(s.drop_last())
    } else {
        s
    }
}

/// `s` without leading and trailing white space.
pub open spec fn trimmed(s: Seq<char>) -> Seq<char> {
    trim_end(trim_start(s))
}

/// `str::trim`: the slice without its leading and trailing characters of
/// the Unicode `White_Space` property, as the standard library documents.
#[verifier::external_body]
fn trim_white_space(s: &str) -> (result: &str)
    ensures
        result@ == trimmed(s@),
{
    s.trim()
}

/// The position in the list of the restaurant the user chose: the input,
/// trimmed, must be a number from 1 to `restaurant_count`.
pub open spec fn chosen_index(input: Seq<char>, restaurant_count: usize) -> Option<usize> {
    match parsed_u64(trimmed(input)) {
        Some(n) => if 1 <= n && n <= restaurant_count {
            Some((n - 1) as usize)
        } else {
            None
        },
        None => None,
    }
}

/// Reads the number of a restaurant; `None` asks the user again.
pub fn parse_restaurant_choice(input: &str, restaurant_count: usize) -> (result: Option<usize>)
    ensures
        result == chosen_index(input@, restaurant_count),
{
    let text = trim_white_space(input);
    match parse_u64(text) {
        Some(n) => {
            if 1 <= n && n <= restaurant_count as u64 {
                Some((n - 1) as usize)
            } else {
                None
            }
        },
        None => None,
    }
}

/// Reads the name of a dish: the input, trimmed, if anything is left;
/// `None` asks the user again.
pub fn parse_dish_name(input: &str) -> (result: Option<String>)
    ensures
        match result {
            Some(dish) => trimmed(input@).len() > 0 && dish@ == trimmed(input@),
            None => trimmed(input@).len() == 0,
        },
{
    let text = trim_white_space(input);
    if text.is_empty() {
        None
    } else {
        Some(text.to_owned())
    }
}

/// Every character of `s` is white space.
pub open spec fn all_white_space(s: Seq<char>) -> bool {
    forall|i: int| 0 <= i < s.len() ==> is_white_space(#[trigger] s[i])
}

/// Leading white space is dropped up to the first other character.
proof fn lemma_trim_start_pad(pad: Seq<char>, t: Seq<char>)
    requires
        all_white_space(pad),
        t.len() > 0,
        !is_white_space(t[0]),
    ensures
        trim_start(pad + t) == t,
    decreases pad.len(),
{
    if pad.len() == 0 {
        assert(pad + t =~= t);
    } else {
        assert((pad + t)[0] == pad[0]);
        assert((pad + t).drop_first() =~= pad.drop_first() + t);
        lemma_trim_start_pad(pad.drop_first(), t);
    }
}

/// Trailing white space is dropped back to the last other character.
proof fn lemma_trim_end_pad(t: Seq<char>, pad: Seq<char>)
    requires
        all_white_space(pad),
        t.len() > 0,
        !is_white_space(t.last()),
    ensures
        trim_end(t + pad) == t,
    decreases pad.len(),
{
    if pad.len() == 0 {
        assert(t + pad =~= t);
    } else {
        assert((t + pad).last() == pad.last());
        assert((t + pad).drop_last() =~= t + pad.drop_last());
        lemma_trim_end_pad(t, pad.drop_last());
    }
}

/// Every listed restaurant can be chosen: typing the number `n` of any of
/// the `restaurant_count` restaurants listed, with any white space (such as
/// the end of the line) around it, chooses position `n - 1`.
pub proof fn lemma_listed_number_chosen(n: u64, restaurant_count: usize, before: Seq<char>, after: Seq<char>)
    requires
        1 <= n <= restaurant_count,
        all_white_space(before),
        all_white_space(after),
    ensures
        chosen_index(before + decimal(n as nat) + after, restaurant_count) == Some((n - 1) as usize),
{
    let d = decimal(n as nat);
    lemma_decimal_denotes(n as nat);
    lemma_parse_decimal(n);
    assert(is_digit(d[0]));
    assert(is_digit(d.last()));
    lemma_trim_start_pad(before, d + after);
    assert(before + d + after =~= before + (d + after));
    lemma_trim_end_pad(d, after);
    assert(trimmed(before + d + after) == d);
}

/// A choice is always one of the listed restaurants, and it is the number
/// the user typed, counted from one.
pub proof fn lemma_choice_in_range(input: Seq<char>, restaurant_count: usize)
    ensures
        chosen_index(input, restaurant_count) matches Some(i) ==> i < restaurant_count
            && parsed_u64(trimmed(input)) == Some((i + 1) as u64),
{
}

} // verus!
