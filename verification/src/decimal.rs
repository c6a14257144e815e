use vstd::prelude::*;

verus! {

/// Whether `c` is an ASCII decimal digit.
pub open spec fn is_digit(c: char) -> bool {
    '0' <= c && c <= '9'
}

/// The character of the decimal digit `d`.
pub open spec fn digit_char(d: nat) -> char
    recommends
        d < 10,
{
    (d + 48) as char
}

/// Whether every character of `s` is a decimal digit.
pub open spec fn all_digits(s: Seq<char>) -> bool {
    forall|i: int| 0 <= i < s.len() ==> is_digit(#[trigger] s[i])
}

/// The number that a string of decimal digits denotes.
pub open spec fn digits_value(s: Seq<char>) -> nat
    decreases s.len(),
{
    if s.len() == 0 {
        0
    } else {
        digits_value(s.drop_last()) * 10 + ((s.last() as int - 48) as nat)
    }
}

/// The part of `s` that must consist of digits: `s` without one leading `+`.
pub open spec fn unsigned_digits(s: Seq<char>) -> Seq<char> {
    if s.len() > 0 && s[0] == '+' {
        s.drop_first()
    } else {
        s
    }
}

/// What parsing `s` as an unsigned 64-bit integer gives: an optional `+`
/// followed by at least one decimal digit, with a value that fits.
pub open spec fn parsed_u64(s: Seq<char>) -> Option<u64> {
    let d = unsigned_digits(s);
    if d.len() > 0 && all_digits(d) && digits_value(d) <= u64::MAX {
        Some(digits_value(d) as u64)
    } else {
        None
    }
}

/// The decimal representation of `n`, without leading zeros.
pub open spec fn decimal(n: nat) -> Seq<char>
    decreases n,
{
    if n < 10 {
        seq![digit_char(n)]
    } else {
        decimal(n / 10).push(digit_char(n % 10))
    }
}

/// The decimal representation of `n` is a non-empty digit string denoting `n`.
pub proof fn lemma_decimal_denotes(n: nat)
    ensures
        decimal(n).len() > 0,
        all_digits(decimal(n)),
        digits_value(decimal(n)) == n,
        decimal(n)[0] != '+',
    decreases n,
{
    if n >= 10 {
        lemma_decimal_denotes(n / 10);
        let s = decimal(n);
        assert(s.drop_last() =~= decimal(n / 10));
        assert(s[0] == decimal(n / 10)[0]);
        assert(digit_char(n % 10) as int == n % 10 + 48);
        assert(n / 10 * 10 + n % 10 == n);
    } else {
        assert(digit_char(n) as int == n + 48);
        assert(decimal(n).drop_last() =~= Seq::<char>::empty());
        assert(digits_value(Seq::<char>::empty()) == 0);
    }
}

/// Parsing the decimal representation of a number gives the number back.
pub proof fn lemma_parse_decimal(n: u64)
    ensures
        parsed_u64(decimal(n as nat)) == Some(n),
{
    lemma_decimal_denotes(n as nat);
}

/// A digit string denotes at least as much as any of its prefixes.
pub proof fn lemma_prefix_value_le(s: Seq<char>, i: int)
    requires
        all_digits(s),
        0 <= i <= s.len(),
    ensures
        digits_value(s.subrange(0, i)) <= digits_value(s),
    decreases s.len() - i,
{
    if i < s.len() {
        lemma_prefix_value_le(s, i + 1);
        let p = s.subrange(0, i + 1);
        assert(p.drop_last() =~= s.subrange(0, i));
        assert(is_digit(s[i]));
    } else {
        assert(s.subrange(0, i) =~= s);
    }
}

/// Parses `s` as an unsigned 64-bit integer, as `str::parse::<u64>` does.
pub fn parse_u64(s: &str) -> (result: Option<u64>)
    ensures
        result == parsed_u64(s@),
{
    let ghost cs = s@;
    let mut first = true;
    let mut signed = false;
    let mut seen_digit = false;
    let mut acc: u64 = 0;
    for c in it: s.chars()
        invariant
            it.seq() == cs,
            cs == s@,
            first == (it.index() == 0),
            signed == (it.index() > 0 && cs[0] == '+'),
            (if signed { 1int } else { 0int }) <= it.index(),
            all_digits(cs.subrange(if signed { 1int } else { 0int }, it.index())),
            acc == digits_value(cs.subrange(if signed { 1int } else { 0int }, it.index())),
            seen_digit == (it.index() > (if signed { 1int } else { 0int })),
    {
        let ghost i = it.index();
        let ghost start: int = if signed { 1int } else { 0int };
        let ghost prev = cs.subrange(start, i);
        assert(c == cs[i]);
        if first && c == '+' {
            signed = true;
            proof {
                assert(cs.subrange(1, 1) =~= Seq::<char>::empty());
            }
        } else if '0' <= c && c <= '9' {
            let d: u64 = (c as u32 - 48) as u64;
            let ghost next = cs.subrange(start, i + 1);
            assert(next.drop_last() =~= prev);
            if acc > (u64::MAX - d) / 10 {
                proof {
                    assert(c as int - 48 == d);
                    assert(digits_value(next) == acc * 10 + d);
                    assert(acc * 10 + d > u64::MAX);
                    assert(digits_value(next) > u64::MAX);
                    let dd = unsigned_digits(cs);
                    if all_digits(dd) {
                        assert(dd =~= cs.subrange(start, cs.len() as int));
                        assert(next =~= dd.subrange(0, i + 1 - start));
                        lemma_prefix_value_le(dd, i + 1 - start);
                        assert(digits_value(dd) > u64::MAX);
                    }
                    assert(parsed_u64(cs) is None);
                }
                return None;
            }
            acc = acc * 10 + d;
            seen_digit = true;
        } else {
            proof {
                let dd = unsigned_digits(cs);
                assert(dd =~= cs.subrange(start, cs.len() as int));
                assert(dd[i - start] == c);
                assert(!is_digit(dd[i - start]));
                assert(!all_digits(dd));
                assert(parsed_u64(cs) is None);
            }
            return None;
        }
        first = false;
    }
    proof {
        let start: int = if signed { 1int } else { 0int };
        assert(unsigned_digits(cs) =~= cs.subrange(start, cs.len() as int));
    }
    if seen_digit {
        Some(acc)
    } else {
        None
    }
}

/// Appends `c` to `s` with `String::push`.
#[verifier::external_body]
fn push_char(s: &mut String, c: char)
    ensures
        final(s)@ == old(s)@.push(c),
{
    s.push(c);
}

/// The character of the digit `d`.
fn digit_to_char(d: u64) -> (c: char)
    requires
        d < 10,
    ensures
        c == digit_char(d as nat),
{
    ((48 + d) as u8) as char
}

/// Formats `n` in decimal, as `u64::to_string` does.
pub fn format_u64(n: u64) -> (s: String)
    ensures
        s@ == decimal(n as nat),
    decreases n,
{
    if n < 10 {
        let mut s = String::new();
        push_char(&mut s, digit_to_char(n));
        proof {
            assert(s@ =~= decimal(n as nat));
        }
        s
    } else {
        let mut s = format_u64(n / 10);
        push_char(&mut s, digit_to_char(n % 10));
        s
    }
}

} // verus!
