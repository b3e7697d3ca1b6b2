//! Text as sequences of characters: white space, digits, equality.
use vstd::prelude::*;

verus! {

/// The characters with the Unicode property `White_Space`.
pub open spec fn is_white_space(c: char) -> bool {
    let code = c as u32;
    ||| 0x0009 <= code <= 0x000d
    ||| code == 0x0020
    ||| code == 0x0085
    ||| code == 0x00a0
    ||| code == 0x1680
    ||| 0x2000 <= code <= 0x200a
    ||| code == 0x2028
    ||| code == 0x2029
    ||| code == 0x202f
    ||| code == 0x205f
    ||| code == 0x3000
}

/// `char::is_whitespace` of std: true exactly of the characters that the Unicode Character
/// Database lists with the property `White_Space`.
pub assume_specification[ char::is_whitespace ](c: char) -> (yes: bool)
    ensures
        yes == is_white_space(c),
;

/// `s` without the white space at its start.
pub open spec fn trimmed_start(s: Seq<char>) -> Seq<char>
    decreases s.len(),
{
    if s.len() > 0 && is_white_space(s.first()) {
        trimmed_start(s.drop_first())
    } else {
        s
    }
}

/// `s` without the white space at its end.
pub open spec fn trimmed_end(s: Seq<char>) -> Seq<char>
    decreases s.len(),
{
    if s.len() > 0 && is_white_space(s.last()) {
        trimmed_end(s.drop_last())
    } else {
        s
    }
}

/// `s` without the white space at its two ends.
pub open spec fn trimmed(s: Seq<char>) -> Seq<char> {
    trimmed_end(trimmed_start(s))
}

/// The digit of value `d`, in lower case.
pub open spec fn digit(d: int) -> char {
    if d == 0 {
        '0'
    } else if d == 1 {
        '1'
    } else if d == 2 {
        '2'
    } else if d == 3 {
        '3'
    } else if d == 4 {
        '4'
    } else if d == 5 {
        '5'
    } else if d == 6 {
        '6'
    } else if d == 7 {
        '7'
    } else if d == 8 {
        '8'
    } else if d == 9 {
        '9'
    } else if d == 10 {
        'a'
    } else if d == 11 {
        'b'
    } else if d == 12 {
        'c'
    } else if d == 13 {
        'd'
    } else if d == 14 {
        'e'
    } else {
        'f'
    }
}

/// `n` in base sixteen, cut off or padded with zeros on the left to `width` digits.
pub open spec fn hex(n: nat, width: nat) -> Seq<char>
    decreases width,
{
    if width == 0 {
        Seq::empty()
    } else {
        hex(n / 16, (width - 1) as nat).push(digit((n % 16) as int))
    }
}

/// `n` in base ten, without leading zeros.
pub open spec fn decimal(n: nat) -> Seq<char>
    decreases n,
{
    if n < 10 {
        seq![digit(n as int)]
    } else {
        decimal(n / 10).push(digit((n % 10) as int))
    }
}

/// Sixteen to the power `width`: the numbers below it have `width` digits.
pub open spec fn hex_bound(width: nat) -> nat
    decreases width,
{
    if width == 0 {
        1
    } else {
        16 * hex_bound((width - 1) as nat)
    }
}

/// The characters of a text, in order.
pub fn chars_of(text: &str) -> (chars: Vec<char>)
    ensures
        chars@ == text@,
{
    let mut chars: Vec<char> = Vec::new();
    for c in it: text.chars()
        invariant
            it.seq() == text@,
            chars@ == text@.take(it.index()),
    {
        assert(text@.take(it.index() + 1) == text@.take(it.index()).push(c));
        chars.push(c);
    }
    assert(text@.take(text@.len() as int) == text@);
    chars
}

/// Whether two texts are the same.
pub fn same_text(a: &str, b: &str) -> (same: bool)
    ensures
        same == (a@ == b@),
{
    a.to_owned() == b.to_owned()
}

/// Whether a text holds nothing but white space.
pub fn is_blank(text: &str) -> (blank: bool)
    ensures
        blank == (trimmed(text@).len() == 0),
{
    let chars = chars_of(text);
    let mut i: usize = 0;
    assert(text@.skip(0) == text@);
    while i < chars.len()
        invariant
            chars@ == text@,
            0 <= i <= chars.len(),
            trimmed_start(text@) == trimmed_start(text@.skip(i as int)),
        decreases chars.len() - i,
    {
        if !chars[i].is_whitespace() {
            proof {
                let rest = text@.skip(i as int);
                assert(rest.first() == text@[i as int]);
                lemma_trimmed_end_keeps(rest);
            }
            return false;
        }
        assert(text@.skip(i as int).drop_first() == text@.skip(i + 1));
        i = i + 1;
    }
    assert(text@.skip(text@.len() as int).len() == 0);
    true
}

/// The digit of value `d` as a text.
fn digit_text(d: u64) -> (text: &'static str)
    requires
        d < 16,
    ensures
        text@ == seq![digit(d as int)],
{
    proof {
        reveal_strlit("0");
        reveal_strlit("1");
        reveal_strlit("2");
        reveal_strlit("3");
        reveal_strlit("4");
        reveal_strlit("5");
        reveal_strlit("6");
        reveal_strlit("7");
        reveal_strlit("8");
        reveal_strlit("9");
        reveal_strlit("a");
        reveal_strlit("b");
        reveal_strlit("c");
        reveal_strlit("d");
        reveal_strlit("e");
        reveal_strlit("f");
    }
    match d {
        0 => "0",
        1 => "1",
        2 => "2",
        3 => "3",
        4 => "4",
        5 => "5",
        6 => "6",
        7 => "7",
        8 => "8",
        9 => "9",
        10 => "a",
        11 => "b",
        12 => "c",
        13 => "d",
        14 => "e",
        _ => "f",
    }
}

/// `n` as sixteen hexadecimal digits in lower case.
pub fn hex16(n: u64) -> (text: String)
    ensures
        text@ == hex(n as nat, 16),
{
    let mut text = String::new();
    let mut rest: u64 = n;
    let mut left: usize = 16;
    while left > 0
        invariant
            left <= 16,
            hex(rest as nat, left as nat) + text@ == hex(n as nat, 16),
        decreases left,
    {
        let ghost tail = text@;
        text = digit_text(rest % 16).to_owned().concat(text.as_str());
        proof {
            let head = hex((rest / 16) as nat, (left - 1) as nat);
            let low = digit((rest % 16) as int);
            assert(hex(rest as nat, left as nat) == head.push(low));
            assert(head.push(low) + tail == head + (seq![low] + tail));
        }
        rest = rest / 16;
        left = left - 1;
    }
    assert(hex(rest as nat, 0) + text@ == text@);
    text
}

/// `n` in base ten.
pub fn decimal_text(n: u64) -> (text: String)
    ensures
        text@ == decimal(n as nat),
{
    let mut rest: u64 = n;
    let mut text = String::new();
    while rest >= 10
        invariant
            decimal(rest as nat) + text@ == decimal(n as nat),
        decreases rest,
    {
        let ghost tail = text@;
        text = digit_text(rest % 10).to_owned().concat(text.as_str());
        proof {
            let head = decimal((rest / 10) as nat);
            let low = digit((rest % 10) as int);
            assert(decimal(rest as nat) == head.push(low));
            assert(head.push(low) + tail == head + (seq![low] + tail));
        }
        rest = rest / 10;
    }
    digit_text(rest).to_owned().concat(text.as_str())
}

/// Different digits are written differently.
proof fn lemma_digit_injective(a: int, b: int)
    requires
        0 <= a < 16,
        0 <= b < 16,
        digit(a) == digit(b),
    ensures
        a == b,
{
}

/// Numbers that fit in `width` hexadecimal digits are told apart by those digits.
pub proof fn hex_is_injective(a: nat, b: nat, width: nat)
    requires
        a < hex_bound(width),
        b < hex_bound(width),
        hex(a, width) == hex(b, width),
    ensures
        a == b,
    decreases width,
{
    if width > 0 {
        let shorter = (width - 1) as nat;
        let high_a = hex(a / 16, shorter);
        let high_b = hex(b / 16, shorter);
        assert(hex(a, width).drop_last() == high_a);
        assert(hex(b, width).drop_last() == high_b);
        assert(hex(a, width).last() == digit((a % 16) as int));
        assert(hex(b, width).last() == digit((b % 16) as int));
        lemma_digit_injective((a % 16) as int, (b % 16) as int);
        hex_is_injective(a / 16, b / 16, shorter);
    }
}

/// A hexadecimal text has exactly the digits asked for.
pub proof fn hex_has_width(n: nat, width: nat)
    ensures
        hex(n, width).len() == width,
        forall|i: int|
            0 <= i < width ==> exists|d: int|
                0 <= d < 16 && #[trigger] hex(n, width)[i] == #[trigger] digit(d),
    decreases width,
{
    if width > 0 {
        let shorter = (width - 1) as nat;
        hex_has_width(n / 16, shorter);
        assert forall|i: int| 0 <= i < width implies exists|d: int|
            0 <= d < 16 && #[trigger] hex(n, width)[i] == #[trigger] digit(d) by {
            if i < shorter {
                assert(hex(n, width)[i] == hex(n / 16, shorter)[i]);
            } else {
                assert(hex(n, width)[i] == digit((n % 16) as int));
            }
        }
    }
}

/// Different numbers are written differently in base ten.
pub proof fn decimal_is_injective(a: nat, b: nat)
    requires
        decimal(a) == decimal(b),
    ensures
        a == b,
    decreases a,
{
    lemma_decimal_not_empty(a / 10);
    lemma_decimal_not_empty(b / 10);
    assert(decimal(a).last() == digit((a % 10) as int));
    assert(decimal(b).last() == digit((b % 10) as int));
    lemma_digit_injective((a % 10) as int, (b % 10) as int);
    if a >= 10 && b >= 10 {
        assert(decimal(a).drop_last() == decimal(a / 10));
        assert(decimal(b).drop_last() == decimal(b / 10));
        decimal_is_injective(a / 10, b / 10);
    }
}

proof fn lemma_decimal_not_empty(n: nat)
    ensures
        decimal(n).len() > 0,
{
}

/// Every `u64` fits in sixteen hexadecimal digits.
pub proof fn u64_fits_hex16(n: u64)
    ensures
        n < hex_bound(16),
{
    assert(hex_bound(16) == 0x1_0000_0000_0000_0000) by {
        reveal_with_fuel(hex_bound, 17);
    }
}

/// A text that does not start with white space is not blank.
pub proof fn lemma_starts_visibly(s: Seq<char>)
    requires
        s.len() > 0,
        !is_white_space(s.first()),
    ensures
        trimmed(s).len() > 0,
{
    lemma_trimmed_end_keeps(s);
}

/// A text that does not start with white space keeps its start.
proof fn lemma_trimmed_end_keeps(s: Seq<char>)
    requires
        s.len() > 0,
        !is_white_space(s.first()),
    ensures
        trimmed_end(s).len() > 0,
        trimmed_end(s).first() == s.first(),
    decreases s.len(),
{
    if is_white_space(s.last()) {
        lemma_trimmed_end_keeps(s.drop_last());
    }
}

/// A text that holds nothing but white space.
pub open spec fn all_white_space(s: Seq<char>) -> bool {
    forall|i: int| 0 <= i < s.len() ==> is_white_space(#[trigger] s[i])
}

proof fn lemma_trimmed_start_drops(before: Seq<char>, rest: Seq<char>)
    requires
        all_white_space(before),
    ensures
        trimmed_start(before + rest) == trimmed_start(rest),
    decreases before.len(),
{
    if before.len() == 0 {
        assert(before + rest == rest);
    } else {
        let whole = before + rest;
        assert(whole.first() == before[0]);
        assert(whole.drop_first() == before.drop_first() + rest);
        assert forall|i: int| 0 <= i < before.len() - 1 implies is_white_space(
            #[trigger] before.drop_first()[i],
        ) by {
            assert(is_white_space(before[i + 1]));
        }
        lemma_trimmed_start_drops(before.drop_first(), rest);
    }
}

proof fn lemma_trimmed_end_drops(rest: Seq<char>, after: Seq<char>)
    requires
        all_white_space(after),
    ensures
        trimmed_end(rest + after) == trimmed_end(rest),
    decreases after.len(),
{
    if after.len() == 0 {
        assert(rest + after == rest);
    } else {
        let whole = rest + after;
        assert(whole.last() == after[after.len() - 1]);
        assert(whole.drop_last() == rest + after.drop_last());
        assert forall|i: int| 0 <= i < after.len() - 1 implies is_white_space(
            #[trigger] after.drop_last()[i],
        ) by {
            assert(is_white_space(after[i]));
        }
        lemma_trimmed_end_drops(rest, after.drop_last());
    }
}

/// Trimming takes away the white space around a text, all of it, and nothing else.
pub proof fn trimming_keeps_the_core(before: Seq<char>, core: Seq<char>, after: Seq<char>)
    requires
        all_white_space(before),
        all_white_space(after),
        core.len() > 0 ==> !is_white_space(core.first()) && !is_white_space(core.last()),
    ensures
        trimmed(before + core + after) == core,
{
    assert(before + core + after == before + (core + after));
    lemma_trimmed_start_drops(before, core + after);
    if core.len() > 0 {
        assert((core + after).first() == core.first());
        lemma_trimmed_end_drops(core, after);
    } else {
        assert(core + after == after + core);
        lemma_trimmed_start_drops(after, core);
    }
}

/// The value of a digit.
pub open spec fn digit_value(c: char) -> int {
    if '0' <= c <= '9' {
        c as int - '0' as int
    } else {
        c as int - 'a' as int + 10
    }
}

/// The number that digits stand for in base sixteen.
pub open spec fn hex_value(digits: Seq<char>) -> int
    decreases digits.len(),
{
    if digits.len() == 0 {
        0
    } else {
        16 * hex_value(digits.drop_last()) + digit_value(digits.last())
    }
}

/// The number that digits stand for in base ten.
pub open spec fn decimal_value(digits: Seq<char>) -> int
    decreases digits.len(),
{
    if digits.len() == 0 {
        0
    } else {
        10 * decimal_value(digits.drop_last()) + digit_value(digits.last())
    }
}

/// A number that fits is read back from its hexadecimal digits, which are in lower case.
pub proof fn hex_reads_back(n: nat, width: nat)
    requires
        n < hex_bound(width),
    ensures
        hex(n, width).len() == width,
        hex_value(hex(n, width)) == n,
        forall|i: int|
            0 <= i < width ==> '0' <= #[trigger] hex(n, width)[i] <= '9' || 'a' <= hex(
                n,
                width,
            )[i] <= 'f',
    decreases width,
{
    if width > 0 {
        let high = hex(n / 16, (width - 1) as nat);
        hex_reads_back(n / 16, (width - 1) as nat);
        assert(hex(n, width).drop_last() == high);
        assert forall|i: int| 0 <= i < width implies '0' <= #[trigger] hex(n, width)[i] <= '9'
            || 'a' <= hex(n, width)[i] <= 'f' by {
            if i < width - 1 {
                assert(hex(n, width)[i] == high[i]);
            }
        }
    }
}

/// A number is read back from its decimal digits, the first of which is not zero unless it is
/// the only one.
pub proof fn decimal_reads_back(n: nat)
    ensures
        decimal(n).len() > 0,
        decimal_value(decimal(n)) == n,
        decimal(n).len() > 1 ==> decimal(n)[0] != '0',
        forall|i: int| 0 <= i < decimal(n).len() ==> '0' <= #[trigger] decimal(n)[i] <= '9',
    decreases n,
{
    if n < 10 {
        assert(decimal(n).drop_last() == Seq::<char>::empty());
        assert(decimal_value(decimal(n).drop_last()) == 0);
    } else {
        let high = decimal(n / 10);
        decimal_reads_back(n / 10);
        assert(decimal(n).drop_last() == high);
        assert(decimal(n)[0] == high[0]);
        if high.len() == 1 {
            assert(high.drop_last() == Seq::<char>::empty());
            assert(decimal_value(high.drop_last()) == 0);
            assert(decimal_value(high) == digit_value(high[0]));
        }
        assert forall|i: int| 0 <= i < decimal(n).len() implies '0' <= #[trigger] decimal(n)[i]
            <= '9' by {
            if i < high.len() {
                assert(decimal(n)[i] == high[i]);
            }
        }
    }
}

/// A text with a character that is no white space is not trimmed away.
pub proof fn lemma_visible_is_kept(s: Seq<char>, i: int)
    requires
        0 <= i < s.len(),
        !is_white_space(s[i]),
    ensures
        trimmed(s).len() > 0,
    decreases s.len(),
{
    if is_white_space(s.first()) {
        assert(s.drop_first()[i - 1] == s[i]);
        lemma_visible_is_kept(s.drop_first(), i - 1);
    } else {
        lemma_trimmed_end_keeps(s);
    }
}

/// The characters that count as white space, one by one: the controls from tab to carriage
/// return, the space, the next line, and the spaces and separators beyond ASCII.
pub open spec fn listed_white_space() -> Seq<char> {
    seq![
        '\u{9}',
        '\u{a}',
        '\u{b}',
        '\u{c}',
        '\u{d}',
        ' ',
        '\u{85}',
        '\u{a0}',
        '\u{1680}',
        '\u{2000}',
        '\u{2001}',
        '\u{2002}',
        '\u{2003}',
        '\u{2004}',
        '\u{2005}',
        '\u{2006}',
        '\u{2007}',
        '\u{2008}',
        '\u{2009}',
        '\u{200a}',
        '\u{2028}',
        '\u{2029}',
        '\u{202f}',
        '\u{205f}',
        '\u{3000}',
    ]
}

/// White space is exactly what is listed.
pub proof fn white_space_is_listed(c: char)
    ensures
        is_white_space(c) <==> listed_white_space().contains(c),
{
    if is_white_space(c) {
        let code = c as int;
        let i = if code <= 0xd {
            code - 9
        } else if code == 0x20 {
            5
        } else if code == 0x85 {
            6
        } else if code == 0xa0 {
            7
        } else if code == 0x1680 {
            8
        } else if code <= 0x200a {
            code - 0x2000 + 9
        } else if code == 0x2028 {
            20
        } else if code == 0x2029 {
            21
        } else if code == 0x202f {
            22
        } else if code == 0x205f {
            23
        } else {
            24
        };
        assert(listed_white_space()[i] == c);
    }
}

} // verus!
