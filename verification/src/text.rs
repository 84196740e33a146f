use vstd::prelude::*;
use vstd::string::StringExecFns;

verus! {

/// The character of the decimal digit `d`.
pub open spec fn digit_char(d: nat) -> char {
    (48 + d) as char
}

/// The decimal representation of `n`, most significant digit first, without
/// leading zeros ("0" for zero).
pub open spec fn spec_decimal(n: nat) -> Seq<char>
    decreases n,
{
    if n < 10 {
        seq![digit_char(n)]
    } else {
        spec_decimal(n / 10).push(digit_char(n % 10))
    }
}

/// The number that a sequence of decimal digit characters denotes.
pub open spec fn decimal_value(s: Seq<char>) -> int
    decreases s.len(),
{
    if s.len() == 0 {
        0
    } else {
        decimal_value(s.drop_last()) * 10 + (s.last() as int - 48)
    }
}

/// Every character of `s` is a decimal digit.
pub open spec fn all_digits(s: Seq<char>) -> bool {
    forall|i: int| 0 <= i < s.len() ==> '0' <= #[trigger] s[i] <= '9'
}

/// The decimal representation of a number is made of digits, starts with a
/// non-zero digit unless it is "0", and reads back as the number.
pub proof fn law_decimal_round_trip(n: nat)
    ensures
        all_digits(spec_decimal(n)),
        spec_decimal(n).len() >= 1,
        spec_decimal(n).len() == 1 <==> n < 10,
        spec_decimal(n).len() > 1 ==> spec_decimal(n)[0] != '0',
        decimal_value(spec_decimal(n)) == n,
    decreases n,
{
    let s = spec_decimal(n);
    if n < 10 {
        assert(digit_char(n) as int == 48 + n);
        assert(s.drop_last() =~= Seq::<char>::empty());
        assert(decimal_value(s) == decimal_value(s.drop_last()) * 10 + (s.last() as int - 48));
        assert(decimal_value(Seq::<char>::empty()) == 0);
    } else {
        law_decimal_round_trip(n / 10);
        let p = spec_decimal(n / 10);
        assert(s.drop_last() =~= p);
        assert(digit_char(n % 10) as int == 48 + n % 10);
        assert(n == (n / 10) * 10 + n % 10);
        assert(decimal_value(s) == decimal_value(p) * 10 + (s.last() as int - 48));
        assert(s.last() == digit_char(n % 10));
        assert(s[0] == p[0]);
        if p.len() == 1 {
            assert(1 <= n / 10 < 10);
            assert(p[0] == digit_char(n / 10));
            assert(digit_char(n / 10) as int == 48 + n / 10);
        }
        assert forall|i: int| 0 <= i < s.len() implies '0' <= #[trigger] s[i] <= '9' by {
            if i < p.len() {
                assert(s[i] == p[i]);
            }
        }
    }
}

/// The string of the single decimal digit `d`.
fn digit_str(d: usize) -> (r: &'static str)
    requires
        d < 10,
    ensures
        r@ == seq![digit_char(d as nat)],
{
    proof {
        reveal_strlit("0");
        reveal_strlit("1");
        reveal_strlit("2");
        reveal_strlit("3");
        reveal_strlit("4");
        reveal_strlit("5");
        reveal_strlit("6");
        reveal_strlit("7");
        reveal_strlit("8");
        reveal_strlit("9");
    }
    if d == 0 {
        "0"
    } else if d == 1 {
        "1"
    } else if d == 2 {
        "2"
    } else if d == 3 {
        "3"
    } else if d == 4 {
        "4"
    } else if d == 5 {
        "5"
    } else if d == 6 {
        "6"
    } else if d == 7 {
        "7"
    } else if d == 8 {
        "8"
    } else {
        "9"
    }
}

/// Appends the decimal representation of `n` to `s`.
pub fn push_decimal(s: &mut String, n: usize)
    ensures
        final(s)@ == old(s)@ + spec_decimal(n as nat),
    decreases n,
{
    if n >= 10 {
        push_decimal(s, n / 10);
    }
    s.append(digit_str(n % 10));
    proof {
        if n < 10 {
            assert(n % 10 == n);
        }
    }
}

/// Whether a typed character is accepted as text: private use characters
/// and ASCII control characters are special keys, not text.
pub open spec fn spec_is_printable(chr: char) -> bool {
    let in_private_use_area = ('\u{e000}' <= chr && chr <= '\u{f8ff}')
        || ('\u{f0000}' <= chr && chr <= '\u{ffffd}')
        || ('\u{100000}' <= chr && chr <= '\u{10fffd}');
    let ascii_control = (chr as u32) < 0x20 || chr == '\u{7f}';
    !in_private_use_area && !ascii_control
}

/// We only want printable characters and ignore all special keys.
pub fn is_printable(chr: char) -> (r: bool)
    ensures
        r == spec_is_printable(chr),
{
    let is_in_private_use_area = ('\u{e000}' <= chr && chr <= '\u{f8ff}')
        || ('\u{f0000}' <= chr && chr <= '\u{ffffd}')
        || ('\u{100000}' <= chr && chr <= '\u{10fffd}');
    let is_ascii_control = chr < '\u{20}' || chr == '\u{7f}';
    !is_in_private_use_area && !is_ascii_control
}

} // verus!
