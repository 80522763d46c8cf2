//! Text building blocks: comparison, decimal and hexadecimal numerals, and
//! placeholder substitution, all stated over sequences of characters.
use vstd::prelude::*;
use vstd::string::*;

verus! {

/// The decimal digit `d` as a character.
pub open spec fn digit(d: int) -> char
    recommends
        0 <= d < 10,
{
    (48 + d) as char
}

/// The decimal numeral of `n`, without leading zeros.
pub open spec fn decimal(n: nat) -> Seq<char>
    decreases n,
{
    if n < 10 {
        seq![digit(n as int)]
    } else {
        decimal(n / 10).push(digit((n % 10) as int))
    }
}

/// The upper-case hexadecimal digit `d` as a character.
pub open spec fn hex_digit(d: int) -> char
    recommends
        0 <= d < 16,
{
    if d < 10 {
        (48 + d) as char
    } else {
        (55 + d) as char
    }
}

/// Six upper-case hexadecimal digits, most significant first.
pub open spec fn hex6(rgb: u32) -> Seq<char> {
    seq![
        hex_digit((rgb / 0x100000) as int % 16),
        hex_digit((rgb / 0x10000) as int % 16),
        hex_digit((rgb / 0x1000) as int % 16),
        hex_digit((rgb / 0x100) as int % 16),
        hex_digit((rgb / 0x10) as int % 16),
        hex_digit(rgb as int % 16),
    ]
}

/// `template` with every occurrence of `mark`, scanned from the left without
/// overlap, replaced by `value`.
pub open spec fn substituted(template: Seq<char>, mark: Seq<char>, value: Seq<char>) -> Seq<char>
    decreases template.len(),
{
    if mark.len() == 0 || template.len() < mark.len() {
        template
    } else if template.take(mark.len() as int) == mark {
        value + substituted(template.skip(mark.len() as int), mark, value)
    } else {
        template.take(1) + substituted(template.skip(1), mark, value)
    }
}

/// Whether two texts hold the same characters.
pub fn same_text(a: &str, b: &str) -> (same: bool)
    ensures
        same == (a@ == b@),
{
    a.to_owned() == b.to_owned()
}

/// Join three texts.
pub fn join3(a: &str, b: &str, c: &str) -> (joined: String)
    ensures
        joined@ == a@ + b@ + c@,
{
    a.to_owned().concat(b).concat(c)
}

fn digit_text(d: u64) -> (text: &'static str)
    requires
        d < 10,
    ensures
        text@ == seq![digit(d as int)],
{
    proof {
        reveal_strlit("0");
        reveal_strlit("1");
        reveal_strlit("2");
        reveal_strlit("3");
        reveal_strlit("4");
        reveal_strlit("5");
        reveal_strlit("6");
        reveal_strlit("7");
        reveal_strlit("8");
        reveal_strlit("9");
    }
    let text = match d {
        0 => "0",
        1 => "1",
        2 => "2",
        3 => "3",
        4 => "4",
        5 => "5",
        6 => "6",
        7 => "7",
        8 => "8",
        _ => "9",
    };
    assert(text@ =~= seq![digit(d as int)]);
    text
}

/// The decimal numeral of `n`.
pub fn decimal_text(n: u64) -> (text: String)
    ensures
        text@ == decimal(n as nat),
    decreases n,
{
    if n < 10 {
        digit_text(n).to_owned()
    } else {
        let text = decimal_text(n / 10).concat(digit_text(n % 10));
        assert(text@ =~= decimal(n as nat));
        text
    }
}

fn hex_digit_text(d: u32) -> (text: &'static str)
    requires
        d < 16,
    ensures
        text@ == seq![hex_digit(d as int)],
{
    if d < 10 {
        let text = digit_text(d as u64);
        assert(text@ =~= seq![hex_digit(d as int)]);
        text
    } else {
        proof {
            reveal_strlit("A");
            reveal_strlit("B");
            reveal_strlit("C");
            reveal_strlit("D");
            reveal_strlit("E");
            reveal_strlit("F");
        }
        let text = match d {
            10 => "A",
            11 => "B",
            12 => "C",
            13 => "D",
            14 => "E",
            _ => "F",
        };
        assert(text@ =~= seq![hex_digit(d as int)]);
        text
    }
}

/// A colour value as six upper-case hexadecimal digits.
pub fn hex6_text(rgb: u32) -> (text: String)
    requires
        rgb <= 0xffffff,
    ensures
        text@ == hex6(rgb),
{
    let text = hex_digit_text(rgb / 0x100000 % 16)
        .to_owned()
        .concat(hex_digit_text(rgb / 0x10000 % 16))
        .concat(hex_digit_text(rgb / 0x1000 % 16))
        .concat(hex_digit_text(rgb / 0x100 % 16))
        .concat(hex_digit_text(rgb / 0x10 % 16))
        .concat(hex_digit_text(rgb % 16));
    assert(text@ =~= hex6(rgb));
    text
}

/// Replace every occurrence of a non-empty `mark` in `template` by `value`.
pub fn substitute(template: &str, mark: &str, value: &str) -> (text: String)
    requires
        mark@.len() > 0,
    ensures
        text@ == substituted(template@, mark@, value@),
{
    let total: usize = template.unicode_len();
    let width: usize = mark.unicode_len();
    let mut out = String::new();
    let mut at: usize = 0;
    assert(template@.skip(0) =~= template@);
    assert(Seq::<char>::empty() + substituted(template@, mark@, value@) =~= substituted(
        template@,
        mark@,
        value@,
    ));
    while total - at >= width
        invariant
            at <= total,
            total == template@.len(),
            width == mark@.len(),
            width > 0,
            out@ + substituted(template@.skip(at as int), mark@, value@) == substituted(
                template@,
                mark@,
                value@,
            ),
        decreases total - at,
    {
        let ghost rest = template@.skip(at as int);
        let ghost before = out@;
        let next = template.substring_char(at, at + width);
        assert(next@ =~= rest.take(width as int));
        if same_text(next, mark) {
            out.append(value);
            at = at + width;
            assert(rest.skip(width as int) =~= template@.skip(at as int));
            assert(before + (value@ + substituted(rest.skip(width as int), mark@, value@))
                =~= out@ + substituted(template@.skip(at as int), mark@, value@));
        } else {
            let one = template.substring_char(at, at + 1);
            assert(one@ =~= rest.take(1));
            out.append(one);
            at = at + 1;
            assert(rest.skip(1) =~= template@.skip(at as int));
            assert(before + (rest.take(1) + substituted(rest.skip(1), mark@, value@))
                =~= out@ + substituted(template@.skip(at as int), mark@, value@));
        }
    }
    let tail = template.substring_char(at, total);
    assert(tail@ =~= template@.skip(at as int));
    out.append(tail);
    out
}

/// The number that decimal digits denote.
pub open spec fn denoted(digits: Seq<char>) -> int
    decreases digits.len(),
{
    if digits.len() == 0 {
        0
    } else {
        10 * denoted(digits.drop_last()) + (digits.last() as int - '0' as int)
    }
}

/// A numeral is made of digits, denotes its number, and has no leading zeros.
pub proof fn law_numerals_denote_their_number(n: nat)
    ensures
        denoted(decimal(n)) == n,
        decimal(n).len() > 0,
        n > 0 ==> decimal(n)[0] != '0',
        forall|i: int| #![trigger decimal(n)[i]]
            0 <= i < decimal(n).len() ==> '0' <= decimal(n)[i] <= '9',
    decreases n,
{
    reveal_with_fuel(denoted, 2);
    if n >= 10 {
        law_numerals_denote_their_number(n / 10);
        let head = decimal(n / 10);
        assert(decimal(n).drop_last() =~= head);
        assert(forall|i: int| 0 <= i < head.len() ==> decimal(n)[i] == head[i]);
    }
}

/// The value of an upper-case hexadecimal digit.
pub open spec fn hex_value(c: char) -> int {
    if '0' <= c <= '9' {
        c as int - '0' as int
    } else if 'A' <= c <= 'F' {
        c as int - 'A' as int + 10
    } else {
        -1
    }
}

proof fn lemma_hex_value(d: int)
    requires
        0 <= d < 16,
    ensures
        hex_value(hex_digit(d)) == d,
{
}

proof fn lemma_nibbles(x: int, r: int, g: int, b: int)
    requires
        0 <= r < 0x100,
        0 <= g < 0x100,
        0 <= b < 0x100,
        x == r * 0x10000 + g * 0x100 + b,
    ensures
        x / 0x100000 % 16 == r / 16,
        x / 0x10000 % 16 == r % 16,
        x / 0x1000 % 16 == g / 16,
        x / 0x100 % 16 == g % 16,
        x / 0x10 % 16 == b / 16,
        x % 16 == b % 16,
{
    assert(x / 0x100000 == r / 16);
    assert(x / 0x10000 == r);
    assert(x / 0x1000 == r * 16 + g / 16);
    assert(x / 0x100 == r * 0x100 + g);
    assert(x / 0x10 == r * 0x1000 + g * 16 + b / 16);
}

/// A colour's six digits denote it, two to a channel.
pub proof fn law_hex_digits_denote_the_colour(r: u8, g: u8, b: u8)
    ensures
        ({
            let digits = hex6((r * 0x10000 + g * 0x100 + b) as u32);
            &&& digits.len() == 6
            &&& 0 <= hex_value(digits[0]) && 0 <= hex_value(digits[1])
            &&& 0 <= hex_value(digits[2]) && 0 <= hex_value(digits[3])
            &&& 0 <= hex_value(digits[4]) && 0 <= hex_value(digits[5])
            &&& 16 * hex_value(digits[0]) + hex_value(digits[1]) == r
            &&& 16 * hex_value(digits[2]) + hex_value(digits[3]) == g
            &&& 16 * hex_value(digits[4]) + hex_value(digits[5]) == b
        }),
{
    let x = (r * 0x10000 + g * 0x100 + b) as u32;
    assert(x == r * 0x10000 + g * 0x100 + b);
    lemma_nibbles(x as int, r as int, g as int, b as int);
    lemma_hex_value(r as int / 16);
    lemma_hex_value(r as int % 16);
    lemma_hex_value(g as int / 16);
    lemma_hex_value(g as int % 16);
    lemma_hex_value(b as int / 16);
    lemma_hex_value(b as int % 16);
}

/// A template without the mark's first character is kept as it is.
pub proof fn law_templates_without_the_mark_are_kept(
    template: Seq<char>,
    mark: Seq<char>,
    value: Seq<char>,
)
    requires
        mark.len() > 0,
        !template.contains(mark[0]),
    ensures
        substituted(template, mark, value) == template,
    decreases template.len(),
{
    if template.len() >= mark.len() {
        assert(template.take(mark.len() as int)[0] == template[0]);
        assert(template[0] != mark[0]);
        let rest = template.skip(1);
        assert forall|c: char| rest.contains(c) implies template.contains(c) by {
            let i = choose|i: int| 0 <= i < rest.len() && rest[i] == c;
            assert(template[i + 1] == c);
        }
        law_templates_without_the_mark_are_kept(rest, mark, value);
        assert(template.take(1) + rest =~= template);
    }
}

/// The first mark of a template gives way to the value: what is before it stays,
/// and what follows it is treated in the same way.
pub proof fn law_marks_give_way_to_the_value(
    before: Seq<char>,
    mark: Seq<char>,
    after: Seq<char>,
    value: Seq<char>,
)
    requires
        mark.len() > 0,
        !before.contains(mark[0]),
    ensures
        substituted(before + mark + after, mark, value) == before + value + substituted(
            after,
            mark,
            value,
        ),
    decreases before.len(),
{
    let template = before + mark + after;
    let width = mark.len() as int;
    if before.len() == 0 {
        assert(template.take(width) =~= mark);
        assert(template.skip(width) =~= after);
        assert(before + value =~= value);
    } else {
        assert(template.take(width)[0] == before[0]);
        assert(before[0] != mark[0]);
        let rest = before.skip(1);
        assert forall|c: char| rest.contains(c) implies before.contains(c) by {
            let i = choose|i: int| 0 <= i < rest.len() && rest[i] == c;
            assert(before[i + 1] == c);
        }
        law_marks_give_way_to_the_value(rest, mark, after, value);
        assert(template.skip(1) =~= rest + mark + after);
        assert(template.take(1) + (rest + value + substituted(after, mark, value)) =~= before
            + value + substituted(after, mark, value));
    }
}

} // verus!
