//! Character-level helpers shared by the cipher, the error messages and the
//! reply handling: reading a string as its characters, building a string
//! one character at a time, and decimal numbers.
use vstd::prelude::*;

verus! {

/// `String::push`: appends one character.
#[verifier::external_body]
pub(crate) fn push_char(s: &mut String, c: char)
    ensures
        final(s)@ == old(s)@.push(c),
{
    s.push(c);
}

/// The characters of `s`, in order.
pub fn char_vec(s: &str) -> (v: Vec<char>)
    ensures
        v@ == s@,
{
    let mut v: Vec<char> = Vec::new();
    for c in it: s.chars()
        invariant
            it.seq() == s@,
            v@ == it.seq().take(it.index() as int),
    {
        proof {
            assert(it.seq().take(it.index() + 1) =~= it.seq().take(it.index() as int).push(c));
        }
        v.push(c);
    }
    proof {
        assert(v@ =~= s@);
    }
    v
}

/// The view of an optional string.
pub open spec fn text_of(o: Option<String>) -> Option<Seq<char>> {
    match o {
        Some(s) => Some(s@),
        None => None,
    }
}

/// The character of decimal digit `d`.
pub open spec fn digit_char(d: int) -> char {
    (d + 48) as char
}

/// Whether `c` is one of `0` to `9`.
pub open spec fn is_digit(c: char) -> bool {
    48 <= c as int <= 57
}

/// The value of the decimal digits `s`, most significant first.
pub open spec fn decimal_value(s: Seq<char>) -> int
    decreases s.len(),
{
    if s.len() == 0 {
        0
    } else {
        decimal_value(s.drop_last()) * 10 + (s.last() as int - 48)
    }
}

/// The digits of `s` once an optional leading `+` is dropped.
pub open spec fn unsigned_digits(s: Seq<char>) -> Seq<char> {
    if s.len() > 0 && s[0] == '+' {
        s.drop_first()
    } else {
        s
    }
}

/// What reading `s` as a decimal `u16` gives: an optional `+`, then at least
/// one digit and nothing else, with a value that fits.
pub open spec fn parsed_u16(s: Seq<char>) -> Option<u16> {
    let d = unsigned_digits(s);
    if d.len() > 0 && (forall|i: int| 0 <= i < d.len() ==> #[trigger] is_digit(d[i]))
        && decimal_value(d) <= u16::MAX {
        Some(decimal_value(d) as u16)
    } else {
        None
    }
}

/// The decimal text of `n`, without leading zeros.
pub open spec fn decimal_text(n: nat) -> Seq<char>
    decreases n,
{
    if n < 10 {
        seq![digit_char(n as int)]
    } else {
        decimal_text(n / 10).push(digit_char(n as int % 10))
    }
}

proof fn lemma_decimal_text_digits(n: nat)
    ensures
        decimal_text(n).len() > 0,
        forall|i: int| 0 <= i < decimal_text(n).len() ==> #[trigger] is_digit(decimal_text(n)[i]),
        decimal_value(decimal_text(n)) == n,
    decreases n,
{
    if n >= 10 {
        lemma_decimal_text_digits(n / 10);
        let t = decimal_text(n);
        assert(t.drop_last() =~= decimal_text(n / 10));
        assert(digit_char(n as int % 10) as int == n as int % 10 + 48);
        assert(t.last() == digit_char(n as int % 10));
        assert(decimal_value(t) == decimal_value(decimal_text(n / 10)) * 10 + (n as int % 10));
        assert forall|i: int| 0 <= i < t.len() implies #[trigger] is_digit(t[i]) by {
            if i < t.len() - 1 {
                assert(t[i] == decimal_text(n / 10)[i]);
            }
        }
    } else {
        assert(decimal_text(n).drop_last() =~= Seq::<char>::empty());
        assert(digit_char(n as int) as int == n as int + 48);
        assert(decimal_value(Seq::<char>::empty()) == 0);
        assert(decimal_value(decimal_text(n)) == n);
    }
}

/// Reading back the decimal text of a number gives the number: the text is
/// one or more digits, without sign, and has the number's value.
pub proof fn law_parse_reads_decimal_text(n: u16)
    ensures
        parsed_u16(decimal_text(n as nat)) == Some(n),
{
    lemma_decimal_text_digits(n as nat);
    let t = decimal_text(n as nat);
    assert(is_digit(t[0]));
    assert(unsigned_digits(t) == t);
}

/// A number is read from a text only when, past an optional leading `+`, the
/// text is a non-empty run of digits; a leading `-`, a space, or any other
/// character makes it unreadable.
pub proof fn law_parse_needs_digits(s: Seq<char>)
    ensures
        parsed_u16(s) is Some ==> s.len() > 0 && (s[0] == '+' || is_digit(s[0])),
        parsed_u16(s) is Some ==> forall|i: int| 1 <= i < s.len() ==> #[trigger] is_digit(s[i]),
        s.len() == 0 ==> parsed_u16(s) is None,
        s == seq!['+'] ==> parsed_u16(s) is None,
{
    if parsed_u16(s) is Some {
        let d = unsigned_digits(s);
        assert(is_digit(d[0]));
        assert forall|i: int| 1 <= i < s.len() implies #[trigger] is_digit(s[i]) by {
            if s[0] == '+' {
                assert(s[i] == d[i - 1]);
            } else {
                assert(s[i] == d[i]);
            }
        }
    }
    if s == seq!['+'] {
        assert(unsigned_digits(s).len() == 0);
    }
}

fn digit_of(d: u16) -> (c: char)
    requires
        d < 10,
    ensures
        c == digit_char(d as int),
{
    (48u8 + d as u8) as char
}

/// Appends the decimal text of `n` to `out`.
pub fn push_decimal(out: &mut String, n: u16)
    ensures
        final(out)@ == old(out)@ + decimal_text(n as nat),
    decreases n,
{
    if n >= 10 {
        push_decimal(out, n / 10);
    }
    push_char(out, digit_of(n % 10));
    proof {
        assert(old(out)@ + decimal_text(n as nat) =~= if n >= 10 {
            old(out)@ + decimal_text((n / 10) as nat)
        } else {
            old(out)@
        }.push(digit_char(n as int % 10)));
    }
}

/// Reads `s` as a decimal `u16`, as `str::parse::<u16>` does.
pub fn parse_u16(s: &str) -> (r: Option<u16>)
    ensures
        r == parsed_u16(s@),
{
    let chars = char_vec(s);
    let start: usize = if chars.len() > 0 && chars[0] == '+' { 1 } else { 0 };
    let ghost d = unsigned_digits(s@);
    assert(d =~= chars@.subrange(start as int, chars@.len() as int));
    if start == chars.len() {
        return None;
    }
    // The value read so far, held at 65536 once it is larger than any u16.
    let mut value: u32 = 0;
    let mut i: usize = start;
    while i < chars.len()
        invariant
            start <= i <= chars@.len(),
            d == unsigned_digits(s@),
            d =~= chars@.subrange(start as int, chars@.len() as int),
            forall|j: int| 0 <= j < i - start ==> #[trigger] is_digit(d[j]),
            value as int == if decimal_value(d.take(i - start)) <= 65536 {
                decimal_value(d.take(i - start))
            } else {
                65536
            },
        decreases chars.len() - i,
    {
        let c = chars[i];
        if !('0' <= c && c <= '9') {
            assert(!is_digit(d[i - start]));
            assert(!(forall|j: int| 0 <= j < d.len() ==> #[trigger] is_digit(d[j])));
            return None;
        }
        let digit = (c as u32) - 48;
        proof {
            let k = i - start;
            assert(d.take(k + 1).drop_last() =~= d.take(k));
            assert(d.take(k + 1).last() == c);
        }
        value = if value * 10 + digit > 65536 { 65536 } else { value * 10 + digit };
        i = i + 1;
    }
    proof {
        assert(d.take(d.len() as int) =~= d);
    }
    if value > 65535 {
        None
    } else {
        Some(value as u16)
    }
}

} // verus!
