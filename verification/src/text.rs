//! Small text helpers shared by the modules that build messages.

use vstd::prelude::*;
use vstd::string::StringExecFns;

verus! {

broadcast use vstd::string::group_string_axioms;

/// Whether two strings are equal, by std's `PartialEq` for `str`.
#[verifier::external_body]
pub(crate) fn str_eq(a: &str, b: &str) -> (eq: bool)
    ensures
        eq == (a@ == b@),
{
    a == b
}

/// Appends one character, by std's `String::push`.
#[verifier::external_body]
pub(crate) fn push_char(s: &mut String, c: char)
    ensures
        final(s)@ == old(s)@.push(c),
{
    s.push(c)
}

/// The characters of a string, in order.
pub fn chars_of(s: &str) -> (chars: Vec<char>)
    ensures
        chars@ == s@,
{
    let mut chars: Vec<char> = Vec::new();
    for c in it: s.chars()
        invariant
            it.seq() == s@,
            chars@ == it.seq().take(it.index() as int),
    {
        chars.push(c);
    }
    chars
}

/// A string made of the given characters.
pub fn string_of(chars: &Vec<char>) -> (s: String)
    ensures
        s@ == chars@,
{
    let mut s = String::new();
    let mut i: usize = 0;
    while i < chars.len()
        invariant
            i <= chars.len(),
            s@ == chars@.take(i as int),
        decreases chars.len() - i,
    {
        push_char(&mut s, chars[i]);
        assert(chars@.take(i + 1) == chars@.take(i as int).push(chars@[i as int]));
        i = i + 1;
    }
    assert(chars@.take(chars.len() as int) == chars@);
    s
}

/// Unicode's White_Space property, which `char::is_whitespace` tests.
pub open spec fn white_space(c: char) -> bool {
    let v = c as u32;
    ||| 0x09 <= v <= 0x0D
    ||| v == 0x20
    ||| v == 0x85
    ||| v == 0xA0
    ||| v == 0x1680
    ||| 0x2000 <= v <= 0x200A
    ||| v == 0x2028
    ||| v == 0x2029
    ||| v == 0x202F
    ||| v == 0x205F
    ||| v == 0x3000
}

/// Whether `c` is white space, as `char::is_whitespace` answers: the std
/// documentation defines it as Unicode's White_Space property.
pub(crate) fn is_white_space(c: char) -> (ws: bool)
    ensures
        ws == white_space(c),
{
    let v = c as u32;
    (0x09 <= v && v <= 0x0D) || v == 0x20 || v == 0x85 || v == 0xA0 || v == 0x1680 || (0x2000 <= v
        && v <= 0x200A) || v == 0x2028 || v == 0x2029 || v == 0x202F || v == 0x205F || v == 0x3000
}

/// `s` without its leading white space.
pub open spec fn trim_start(s: Seq<char>) -> Seq<char>
    decreases s.len(),
{
    if s.len() > 0 && white_space(s[0]) {
        trim_start(s.drop_first())
    } else {
        s
    }
}

/// `s` without its trailing white space.
pub open spec fn trim_end(s: Seq<char>) -> Seq<char>
    decreases s.len(),
{
    if s.len() > 0 && white_space(s.last()) {
        trim_end(s.drop_last())
    } else {
        s
    }
}

/// `s` without leading and trailing white space, as `str::trim` gives it.
pub open spec fn trimmed(s: Seq<char>) -> Seq<char> {
    trim_end(trim_start(s))
}

/// The characters of `s` without leading and trailing white space.
pub fn trim_chars(s: &Vec<char>) -> (t: Vec<char>)
    ensures
        t@ == trimmed(s@),
{
    let mut start: usize = 0;
    assert(s@.skip(0) == s@);
    while start < s.len() && is_white_space(s[start])
        invariant
            start <= s@.len(),
            trim_start(s@) == trim_start(s@.skip(start as int)),
        decreases s.len() - start,
    {
        assert(s@.skip(start as int).drop_first() == s@.skip(start + 1));
        start = start + 1;
    }
    assert(trim_start(s@) == s@.skip(start as int));
    let mut end: usize = s.len();
    while end > start && is_white_space(s[end - 1])
        invariant
            start <= end <= s@.len(),
            trim_start(s@) == s@.skip(start as int),
            trim_end(s@.skip(start as int)) == trim_end(s@.subrange(start as int, end as int)),
        decreases end - start,
    {
        assert(s@.subrange(start as int, end as int).drop_last() == s@.subrange(
            start as int,
            end - 1,
        ));
        end = end - 1;
    }
    assert(trim_end(s@.skip(start as int)) == s@.subrange(start as int, end as int));
    let mut t: Vec<char> = Vec::new();
    let mut i = start;
    while i < end
        invariant
            start <= i <= end <= s@.len(),
            t@ == s@.subrange(start as int, i as int),
        decreases end - i,
    {
        t.push(s[i]);
        i = i + 1;
    }
    t
}

/// `s` with every line break (`\n` or `\r`) replaced by a space.
pub open spec fn fold_lines(s: Seq<char>) -> Seq<char> {
    s.map_values(|c: char| if c == '\n' || c == '\r' { ' ' } else { c })
}

/// Replaces each line break with a space.
pub fn fold_line_breaks(s: &Vec<char>) -> (folded: Vec<char>)
    ensures
        folded@ == fold_lines(s@),
{
    let mut folded: Vec<char> = Vec::new();
    let mut i: usize = 0;
    while i < s.len()
        invariant
            i <= s@.len(),
            folded@ == fold_lines(s@.take(i as int)),
        decreases s.len() - i,
    {
        let c = s[i];
        folded.push(
            if c == '\n' || c == '\r' {
                ' '
            } else {
                c
            },
        );
        assert(fold_lines(s@.take(i + 1)) == fold_lines(s@.take(i as int)).push(
            if c == '\n' || c == '\r' {
                ' '
            } else {
                c
            },
        ));
        i = i + 1;
    }
    assert(s@.take(s@.len() as int) == s@);
    folded
}

/// The decimal digit for 0 to 9.
pub open spec fn digit_char(d: int) -> char {
    (('0' as u32) + d) as char
}

/// The decimal digits of `n`, without leading zeros.
pub open spec fn decimal(n: nat) -> Seq<char>
    decreases n,
{
    if n < 10 {
        seq![digit_char(n as int)]
    } else {
        decimal(n / 10).push(digit_char((n % 10) as int))
    }
}

/// The decimal digits of `n`, padded with zeros to at least `width` digits.
pub open spec fn zero_padded(n: nat, width: nat) -> Seq<char> {
    let digits = decimal(n);
    if digits.len() >= width {
        digits
    } else {
        Seq::new((width - digits.len()) as nat, |_i: int| '0') + digits
    }
}

pub open spec fn pow10(k: nat) -> nat
    decreases k,
{
    if k == 0 {
        1
    } else {
        10 * pow10((k - 1) as nat)
    }
}

proof fn lemma_decimal_len(n: nat)
    ensures
        1 <= decimal(n).len(),
        forall|k: nat| 1 <= k && n < #[trigger] pow10(k) ==> decimal(n).len() <= k,
    decreases n,
{
    if n >= 10 {
        lemma_decimal_len(n / 10);
        assert forall|k: nat| 1 <= k && n < #[trigger] pow10(k) implies decimal(n).len() <= k by {
            if k == 1 {
                assert(pow10(1) == 10 * pow10(0));
            } else {
                let j = (k - 1) as nat;
                assert(pow10(k) == 10 * pow10(j));
                assert(n / 10 < pow10(j)) by (nonlinear_arith)
                    requires
                        n < 10 * pow10(j),
                ;
            }
        }
    }
}

proof fn lemma_u64_has_at_most_20_digits(n: u64)
    ensures
        decimal(n as nat).len() <= 20,
{
    lemma_decimal_len(n as nat);
    reveal_with_fuel(pow10, 21);
    assert(n < pow10(20));
}

/// Appends the decimal digits of `n`.
pub fn push_decimal(s: &mut String, n: u64)
    ensures
        final(s)@ == old(s)@ + decimal(n as nat),
    decreases n,
{
    if n >= 10 {
        push_decimal(s, n / 10);
    }
    let d = (n % 10) as u32;
    let c = char_of_digit(d);
    push_char(s, c);
}

fn char_of_digit(d: u32) -> (c: char)
    requires
        d < 10,
    ensures
        c == digit_char(d as int),
{
    match d {
        0 => '0',
        1 => '1',
        2 => '2',
        3 => '3',
        4 => '4',
        5 => '5',
        6 => '6',
        7 => '7',
        8 => '8',
        _ => '9',
    }
}

/// Appends `n` in decimal, padded with zeros to at least `width` digits.
pub fn push_zero_padded(s: &mut String, n: u64, width: usize)
    requires
        width <= 20,
    ensures
        final(s)@ == old(s)@ + zero_padded(n as nat, width as nat),
{
    let ghost start = s@;
    let length = decimal_length(n);
    let mut pad: usize = 0;
    while length < width - pad
        invariant
            length == decimal(n as nat).len(),
            pad == 0 || pad + length <= width,
            s@ == start + Seq::new(pad as nat, |_i: int| '0'),
            width <= 20,
            pad <= width,
        decreases width - pad,
    {
        push_char(s, '0');
        assert(Seq::new((pad + 1) as nat, |_i: int| '0') == Seq::new(pad as nat, |_i: int| '0').push('0'));
        pad = pad + 1;
    }
    push_decimal(s, n);
    assert(pad == if decimal(n as nat).len() >= width { 0 } else { width - decimal(n as nat).len() });
    assert(s@ == start + zero_padded(n as nat, width as nat));
}

/// The number of decimal digits of `n`.
fn decimal_length(n: u64) -> (length: usize)
    ensures
        length == decimal(n as nat).len(),
    decreases n,
{
    proof {
        lemma_decimal_len(n as nat);
        lemma_u64_has_at_most_20_digits(n);
    }
    if n < 10 {
        1
    } else {
        proof {
            lemma_u64_has_at_most_20_digits(n / 10);
        }
        decimal_length(n / 10) + 1
    }
}

/// The parts one after another, with `separator` between neighbours.
pub open spec fn joined(parts: Seq<Seq<char>>, separator: Seq<char>) -> Seq<char>
    decreases parts.len(),
{
    if parts.len() == 0 {
        Seq::empty()
    } else if parts.len() == 1 {
        parts[0]
    } else {
        joined(parts.drop_last(), separator) + separator + parts.last()
    }
}

/// The views of some strings.
pub open spec fn views_of(strings: Seq<String>) -> Seq<Seq<char>> {
    strings.map_values(|s: String| s@)
}

/// Joins the parts with `separator` between neighbours.
pub fn join_strings(parts: &Vec<String>, separator: &str) -> (text: String)
    ensures
        text@ == joined(views_of(parts@), separator@),
{
    let mut text = String::new();
    let mut i: usize = 0;
    while i < parts.len()
        invariant
            i <= parts.len(),
            text@ == joined(views_of(parts@.take(i as int)), separator@),
        decreases parts.len() - i,
    {
        if i > 0 {
            text.append(separator);
        }
        text.append(parts[i].as_str());
        assert(views_of(parts@.take(i + 1)).drop_last() == views_of(parts@.take(i as int)));
        i = i + 1;
    }
    assert(parts@.take(parts.len() as int) == parts@);
    text
}

/// At most the first `limit` characters of `s`.
pub open spec fn first_chars(s: Seq<char>, limit: nat) -> Seq<char> {
    if s.len() <= limit {
        s
    } else {
        s.take(limit as int)
    }
}

/// The first `limit` characters of `text`, or all of it when it is shorter.
pub fn truncate_chars(text: &Vec<char>, limit: usize) -> (s: String)
    ensures
        s@ == first_chars(text@, limit as nat),
{
    let mut s = String::new();
    let mut i: usize = 0;
    while i < text.len() && i < limit
        invariant
            i <= text.len(),
            i <= limit,
            s@ == text@.take(i as int),
        decreases text.len() - i,
    {
        push_char(&mut s, text[i]);
        assert(text@.take(i + 1) == text@.take(i as int).push(text@[i as int]));
        i = i + 1;
    }
    assert(text@.take(text@.len() as int) == text@);
    s
}

} // verus!
