//! String helpers shared by the other modules, stated over character
//! sequences.

use vstd::prelude::*;
use vstd::string::*;

verus! {

/// The character sequences of a list of strings, in order.
pub open spec fn texts(items: Seq<String>) -> Seq<Seq<char>> {
    Seq::new(items.len(), |i: int| items[i]@)
}

/// `parts` written one after another with `sep` between neighbours.
pub open spec fn joined(parts: Seq<Seq<char>>, sep: Seq<char>) -> Seq<char>
    decreases parts.len(),
{
    if parts.len() == 0 {
        Seq::empty()
    } else if parts.len() == 1 {
        parts[0]
    } else {
        joined(parts.drop_last(), sep) + sep + parts.last()
    }
}

/// Joins the first `count` strings of `parts` with `sep`.
pub fn join_first(parts: &Vec<String>, count: usize, sep: &str) -> (out: String)
    requires
        count <= parts.len(),
    ensures
        out@ == joined(texts(parts@).take(count as int), sep@),
{
    let mut out = String::new();
    let mut i: usize = 0;
    while i < count
        invariant
            i <= count <= parts.len(),
            out@ == joined(texts(parts@).take(i as int), sep@),
        decreases count - i,
    {
        if i > 0 {
            out.append(sep);
        }
        out.append(parts[i].as_str());
        proof {
            let all = texts(parts@);
            assert(all.take(i + 1).drop_last() =~= all.take(i as int));
            assert(all.take(i + 1).last() == parts@[i as int]@);
            assert(Seq::<char>::empty() + parts@[i as int]@ =~= parts@[i as int]@);
        }
        i += 1;
    }
    out
}

/// Joins all of `parts` with `sep`.
pub fn join(parts: &Vec<String>, sep: &str) -> (out: String)
    ensures
        out@ == joined(texts(parts@), sep@),
{
    proof {
        assert(texts(parts@).take(parts@.len() as int) =~= texts(parts@));
    }
    join_first(parts, parts.len(), sep)
}

/// `text` with each space replaced by `%20`; every other character stays.
pub open spec fn spaces_encoded(text: Seq<char>) -> Seq<char>
    decreases text.len(),
{
    if text.len() == 0 {
        Seq::empty()
    } else if text.last() == ' ' {
        spaces_encoded(text.drop_last()) + "%20"@
    } else {
        spaces_encoded(text.drop_last()).push(text.last())
    }
}

/// Replaces each space of `text` by `%20`.
pub fn encode_spaces(text: &str) -> (out: String)
    ensures
        out@ == spaces_encoded(text@),
{
    let n: usize = text.unicode_len();
    let mut out = String::new();
    let mut i: usize = 0;
    while i < n
        invariant
            n == text@.len(),
            i <= n,
            out@ == spaces_encoded(text@.take(i as int)),
        decreases n - i,
    {
        let c = text.get_char(i);
        if c == ' ' {
            out.append("%20");
        } else {
            out.append(text.substring_char(i, i + 1));
        }
        proof {
            assert(text@.take(i + 1).drop_last() =~= text@.take(i as int));
            assert(text@.take(i + 1).last() == c);
            assert(text@.subrange(i as int, i + 1) =~= seq![c]);
            assert(out@ =~= spaces_encoded(text@.take(i + 1)));
        }
        i += 1;
    }
    proof {
        assert(text@.take(n as int) =~= text@);
    }
    out
}

/// No space is left in an encoded text.
pub proof fn lemma_encoded_has_no_space(text: Seq<char>)
    ensures
        forall|i: int| 0 <= i < spaces_encoded(text).len() ==> spaces_encoded(text)[i] != ' ',
    decreases text.len(),
{
    reveal_strlit("%20");
    if text.len() > 0 {
        lemma_encoded_has_no_space(text.drop_last());
        let head = spaces_encoded(text.drop_last());
        let whole = spaces_encoded(text);
        assert forall|i: int| 0 <= i < whole.len() implies whole[i] != ' ' by {
            if i < head.len() {
                assert(whole[i] == head[i]);
            } else if text.last() == ' ' {
                assert(whole[i] == "%20"@[i - head.len()]);
            }
        }
    }
}

/// Whether `c` is white space.
pub open spec fn is_space(c: char) -> bool {
    let n = c as u32;
    ||| 0x09 <= n <= 0x0D
    ||| n == 0x20
    ||| n == 0x85
    ||| n == 0xA0
    ||| n == 0x1680
    ||| 0x2000 <= n <= 0x200A
    ||| n == 0x2028
    ||| n == 0x2029
    ||| n == 0x202F
    ||| n == 0x205F
    ||| n == 0x3000
}

/// The first position at or after `from` that holds no white space, or the
/// length of `text`.
pub open spec fn content_start(text: Seq<char>, from: int) -> int
    decreases text.len() - from,
{
    if 0 <= from < text.len() && is_space(text[from]) {
        content_start(text, from + 1)
    } else {
        from
    }
}

/// The end of the last stretch before `to` that holds no white space, not
/// below `floor`.
pub open spec fn content_end(text: Seq<char>, floor: int, to: int) -> int
    decreases to,
{
    if 0 <= floor < to <= text.len() && is_space(text[to - 1]) {
        content_end(text, floor, to - 1)
    } else {
        to
    }
}

/// `text` without the white space at its two ends.
pub open spec fn trimmed(text: Seq<char>) -> Seq<char> {
    let start = content_start(text, 0);
    text.subrange(start, content_end(text, start, text.len() as int))
}

/// Whether `c` is one of the ten decimal digits.
pub open spec fn is_digit(c: char) -> bool {
    48 <= c as u32 <= 57
}

/// The number that a decimal digit stands for.
pub open spec fn digit_value(c: char) -> nat
    recommends
        is_digit(c),
{
    (c as u32 - 48) as nat
}

/// Whether `text` holds decimal digits only.
pub open spec fn all_digits(text: Seq<char>) -> bool {
    forall|i: int| 0 <= i < text.len() ==> is_digit(#[trigger] text[i])
}

/// The number that a sequence of decimal digits writes.
pub open spec fn decimal_value(digits: Seq<char>) -> nat
    decreases digits.len(),
{
    if digits.len() == 0 {
        0
    } else {
        decimal_value(digits.drop_last()) * 10 + digit_value(digits.last())
    }
}

/// The number that a line of input names: white space at the ends is
/// dropped, a single `+` may lead, and what is left must be one or more
/// decimal digits.
pub open spec fn parsed_index(text: Seq<char>) -> Option<nat> {
    let body = trimmed(text);
    let digits = if body.len() > 0 && body[0] == '+' {
        body.skip(1)
    } else {
        body
    };
    if digits.len() > 0 && all_digits(digits) {
        Some(decimal_value(digits))
    } else {
        None
    }
}

/// The value of a run of digits is at least that of each of its prefixes.
pub proof fn lemma_decimal_value_grows(digits: Seq<char>, k: int)
    requires
        0 <= k <= digits.len(),
    ensures
        decimal_value(digits.take(k)) <= decimal_value(digits),
    decreases digits.len(),
{
    if k == digits.len() {
        assert(digits.take(k) =~= digits);
    } else {
        lemma_decimal_value_grows(digits.drop_last(), k);
        assert(digits.drop_last().take(k) =~= digits.take(k));
    }
}

fn is_space_char(c: char) -> (b: bool)
    ensures
        b == is_space(c),
{
    let n: u32 = c as u32;
    (0x09 <= n && n <= 0x0D) || n == 0x20 || n == 0x85 || n == 0xA0 || n == 0x1680 || (0x2000
        <= n && n <= 0x200A) || n == 0x2028 || n == 0x2029 || n == 0x202F || n == 0x205F || n
        == 0x3000
}

/// Reads the number that `input` names. `None` where it names none, or one
/// that `usize` cannot hold.
pub fn parse_index(input: &str) -> (index: Option<usize>)
    ensures
        index == match parsed_index(input@) {
            Some(value) => if value <= usize::MAX {
                Some(value as usize)
            } else {
                None
            },
            None => None,
        },
{
    let n: usize = input.unicode_len();
    let mut start: usize = 0;
    while start < n && is_space_char(input.get_char(start))
        invariant
            n == input@.len(),
            start <= n,
            content_start(input@, 0) == content_start(input@, start as int),
        decreases n - start,
    {
        start += 1;
    }
    let mut end: usize = n;
    while start < end && is_space_char(input.get_char(end - 1))
        invariant
            n == input@.len(),
            start <= end <= n,
            content_end(input@, start as int, n as int) == content_end(
                input@,
                start as int,
                end as int,
            ),
        decreases end,
    {
        end -= 1;
    }
    let ghost body = input@.subrange(start as int, end as int);
    assert(body == trimmed(input@));
    let mut first: usize = start;
    if start < end && input.get_char(start) == '+' {
        first = start + 1;
    }
    let ghost digits = input@.subrange(first as int, end as int);
    proof {
        if first > start {
            assert(body.skip(1) =~= digits);
        }
    }
    assert(parsed_index(input@) == if digits.len() > 0 && all_digits(digits) {
        Some(decimal_value(digits))
    } else {
        None
    });
    if first == end {
        return None;
    }
    let mut value: usize = 0;
    let mut i: usize = first;
    while i < end
        invariant
            n == input@.len(),
            first <= i <= end <= n,
            digits == input@.subrange(first as int, end as int),
            parsed_index(input@) == if all_digits(digits) {
                Some(decimal_value(digits))
            } else {
                None
            },
            all_digits(digits.take(i - first)),
            value == decimal_value(digits.take(i - first)),
        decreases end - i,
    {
        let c = input.get_char(i);
        let code: u32 = c as u32;
        if code < 48 || code > 57 {
            assert(!is_digit(digits[i - first]));
            return None;
        }
        let d: usize = (code - 48) as usize;
        proof {
            assert(digits.take(i - first + 1).drop_last() =~= digits.take(i - first));
            assert(digits.take(i - first + 1).last() == c);
            lemma_decimal_value_grows(digits, i - first + 1);
        }
        if value > (usize::MAX - d) / 10 {
            return None;
        }
        value = value * 10 + d;
        i += 1;
    }
    proof {
        assert(digits.take(end - first) =~= digits);
    }
    Some(value)
}

/// The decimal digit that stands for `d`.
pub open spec fn digit_char(d: nat) -> char
    recommends
        d < 10,
{
    (d + 48) as char
}

/// `n` written in decimal digits, without leading zeros.
pub open spec fn decimal_text(n: nat) -> Seq<char>
    decreases n,
{
    if n < 10 {
        seq![digit_char(n)]
    } else {
        decimal_text(n / 10).push(digit_char(n % 10))
    }
}

fn digit_str(d: usize) -> (s: &'static str)
    requires
        d < 10,
    ensures
        s@ == seq![digit_char(d as nat)],
{
    proof {
        reveal_strlit("0");
        reveal_strlit("1");
        reveal_strlit("2");
        reveal_strlit("3");
        reveal_strlit("4");
        reveal_strlit("5");
        reveal_strlit("6");
        reveal_strlit("7");
        reveal_strlit("8");
        reveal_strlit("9");
    }
    let s = match d {
        0 => "0",
        1 => "1",
        2 => "2",
        3 => "3",
        4 => "4",
        5 => "5",
        6 => "6",
        7 => "7",
        8 => "8",
        _ => "9",
    };
    assert(s@ =~= seq![digit_char(d as nat)]);
    s
}

/// Writes `n` in decimal.
pub fn decimal_string(n: usize) -> (out: String)
    ensures
        out@ == decimal_text(n as nat),
    decreases n,
{
    if n < 10 {
        String::from_str(digit_str(n))
    } else {
        let mut out = decimal_string(n / 10);
        out.append(digit_str(n % 10));
        assert(out@ =~= decimal_text(n as nat));
        out
    }
}


/// A number written in decimal is read back as that number.
pub proof fn lemma_parse_reads_decimal_text(n: nat)
    ensures
        decimal_text(n).len() > 0,
        all_digits(decimal_text(n)),
        decimal_value(decimal_text(n)) == n,
        parsed_index(decimal_text(n)) == Some(n),
    decreases n,
{
    let text = decimal_text(n);
    if n < 10 {
        assert(text.drop_last() =~= Seq::<char>::empty());
        assert(decimal_value(text.drop_last()) == 0);
    } else {
        lemma_parse_reads_decimal_text(n / 10);
        assert(text.drop_last() =~= decimal_text(n / 10));
        assert(text.last() == digit_char(n % 10));
    }
    assert(is_digit(text[0]));
    assert(is_digit(text[text.len() - 1]));
    assert(content_start(text, 0) == 0);
    assert(content_end(text, 0, text.len() as int) == text.len());
    assert(text.subrange(0, text.len() as int) =~= text);
}

} // verus!
