//! Text: white space, comparison and decimal numbers.
use vstd::prelude::*;
use vstd::string::*;
use vstd::utf8::*;

verus! {

/// Unicode's `White_Space` property.
pub open spec fn is_space(c: char) -> bool {
    ||| '\u{9}' <= c <= '\u{d}'
    ||| c == ' '
    ||| c == '\u{85}'
    ||| c == '\u{a0}'
    ||| c == '\u{1680}'
    ||| '\u{2000}' <= c <= '\u{200a}'
    ||| c == '\u{2028}'
    ||| c == '\u{2029}'
    ||| c == '\u{202f}'
    ||| c == '\u{205f}'
    ||| c == '\u{3000}'
}

/// Unicode's general category `Cc`.
pub open spec fn is_control(c: char) -> bool {
    ||| c <= '\u{1f}'
    ||| '\u{7f}' <= c <= '\u{9f}'
}

/// Whether `c` is white space.
pub fn char_is_space(c: char) -> (space: bool)
    ensures
        space == is_space(c),
{
    ('\u{9}' <= c && c <= '\u{d}') || c == ' ' || c == '\u{85}' || c == '\u{a0}' || c == '\u{1680}'
        || ('\u{2000}' <= c && c <= '\u{200a}') || c == '\u{2028}' || c == '\u{2029}' || c
        == '\u{202f}' || c == '\u{205f}' || c == '\u{3000}'
}

/// Whether `c` is a control character.
pub fn char_is_control(c: char) -> (control: bool)
    ensures
        control == is_control(c),
{
    c <= '\u{1f}' || ('\u{7f}' <= c && c <= '\u{9f}')
}

/// `s` without the white space it starts with.
pub open spec fn trimmed_start(s: Seq<char>) -> Seq<char>
    decreases s.len(),
{
    if s.len() > 0 && is_space(s.first()) {
        trimmed_start(s.drop_first())
    } else {
        s
    }
}

/// `s` without the white space it ends with.
pub open spec fn trimmed_end(s: Seq<char>) -> Seq<char>
    decreases s.len(),
{
    if s.len() > 0 && is_space(s.last()) {
        trimmed_end(s.drop_last())
    } else {
        s
    }
}

/// `s` without the white space around it.
pub open spec fn trimmed(s: Seq<char>) -> Seq<char> {
    trimmed_end(trimmed_start(s))
}

/// Whether `s` holds nothing but white space.
pub open spec fn is_blank(s: Seq<char>) -> bool {
    forall|i: int| 0 <= i < s.len() ==> is_space(#[trigger] s[i])
}

proof fn lemma_trimmed_start(s: Seq<char>, start: int)
    requires
        0 <= start <= s.len(),
        forall|i: int| 0 <= i < start ==> is_space(#[trigger] s[i]),
        start < s.len() ==> !is_space(s[start]),
    ensures
        trimmed_start(s) == s.skip(start),
    decreases start,
{
    if start > 0 {
        let rest = s.drop_first();
        assert forall|i: int| 0 <= i < start - 1 implies is_space(#[trigger] rest[i]) by {
            assert(rest[i] == s[i + 1]);
        }
        lemma_trimmed_start(rest, start - 1);
        assert(rest.skip(start - 1) =~= s.skip(start));
    } else {
        assert(s.skip(0) =~= s);
    }
}

proof fn lemma_trimmed_end(s: Seq<char>, end: int)
    requires
        0 <= end <= s.len(),
        forall|i: int| end <= i < s.len() ==> is_space(#[trigger] s[i]),
        end > 0 ==> !is_space(s[end - 1]),
    ensures
        trimmed_end(s) == s.take(end),
    decreases s.len() - end,
{
    if end < s.len() {
        let rest = s.drop_last();
        lemma_trimmed_end(rest, end);
        assert(rest.take(end) =~= s.take(end));
    } else {
        assert(s.take(end) =~= s);
    }
}

/// The part of `s` between its outermost characters that are not white space is
/// what trimming leaves.
pub(crate) proof fn lemma_trimmed(s: Seq<char>, start: int, end: int)
    requires
        0 <= start <= end <= s.len(),
        forall|i: int| 0 <= i < start ==> is_space(#[trigger] s[i]),
        forall|i: int| end <= i < s.len() ==> is_space(#[trigger] s[i]),
        start < end ==> !is_space(s[start]) && !is_space(s[end - 1]),
        start == end ==> start == s.len(),
    ensures
        trimmed(s) == s.subrange(start, end),
{
    lemma_trimmed_start(s, start);
    let rest = s.skip(start);
    assert forall|i: int| end - start <= i < rest.len() implies is_space(#[trigger] rest[i]) by {
        assert(rest[i] == s[i + start]);
    }
    lemma_trimmed_end(rest, end - start);
    assert(rest.take(end - start) =~= s.subrange(start, end));
}

/// Where the text that trimming leaves of `s` starts and ends.
proof fn lemma_trim_bounds(s: Seq<char>) -> (bounds: (int, int))
    ensures
        0 <= bounds.0 <= bounds.1 <= s.len(),
        forall|i: int| 0 <= i < bounds.0 ==> is_space(#[trigger] s[i]),
        forall|i: int| bounds.1 <= i < s.len() ==> is_space(#[trigger] s[i]),
        bounds.0 < bounds.1 ==> !is_space(s[bounds.0]) && !is_space(s[bounds.1 - 1]),
        bounds.0 == bounds.1 ==> bounds.0 == s.len(),
    decreases s.len(),
{
    if s.len() == 0 {
        (0int, 0int)
    } else {
        let rest = s.drop_last();
        let (start, end) = lemma_trim_bounds(rest);
        assert forall|i: int| 0 <= i < rest.len() implies rest[i] == s[i] by {}
        if is_space(s.last()) {
            if start == end {
                (s.len() as int, s.len() as int)
            } else {
                (start, end)
            }
        } else {
            (start, s.len() as int)
        }
    }
}

/// What trimming leaves neither starts nor ends with white space, and is empty
/// just when there was nothing but white space.
pub proof fn trimmed_has_no_outer_space(s: Seq<char>)
    ensures
        trimmed(s).len() > 0 ==> !is_space(trimmed(s).first()) && !is_space(trimmed(s).last()),
        trimmed(s).len() == 0 <==> is_blank(s),
{
    let (start, end) = lemma_trim_bounds(s);
    lemma_trimmed(s, start, end);
    if start < end {
        assert(!is_space(s[start]));
    }
}

/// Trimming a text that neither starts nor ends with white space changes
/// nothing, so trimming twice is trimming once.
pub proof fn trimmed_is_idempotent(s: Seq<char>)
    ensures
        trimmed(trimmed(s)) == trimmed(s),
{
    let t = trimmed(s);
    trimmed_has_no_outer_space(s);
    lemma_trimmed(t, 0, t.len() as int);
    assert(t.subrange(0, t.len() as int) =~= t);
}

/// `s` without the white space around it.
pub fn trim(s: &str) -> (t: &str)
    ensures
        t@ == trimmed(s@),
{
    let count: usize = s.unicode_len();
    let mut index: usize = 0;
    let mut start: usize = count;
    let mut end: usize = count;
    for c in iter: s.chars()
        invariant
            count == s@.len(),
            iter.seq() == s@,
            index == iter.index(),
            start <= count && end <= count,
            start == count ==> end == count,
            start == count ==> forall|i: int| 0 <= i < index ==> is_space(#[trigger] s@[i]),
            start < count ==> {
                &&& start < end <= index
                &&& !is_space(s@[start as int]) && !is_space(s@[end - 1])
                &&& forall|i: int| 0 <= i < start ==> is_space(#[trigger] s@[i])
                &&& forall|i: int| end <= i < index ==> is_space(#[trigger] s@[i])
            },
    {
        if !char_is_space(c) {
            if start == count {
                start = index;
            }
            end = index + 1;
        }
        index = index + 1;
    }
    proof {
        lemma_trimmed(s@, start as int, end as int);
    }
    s.substring_char(start, end)
}

/// Whether `s` holds nothing but white space.
pub fn blank(s: &str) -> (b: bool)
    ensures
        b == is_blank(s@),
        b == (trimmed(s@).len() == 0),
{
    proof {
        trimmed_has_no_outer_space(s@);
    }
    trim(s).is_empty()
}

/// The number of bytes of a text.
pub fn byte_len(s: &str) -> (n: usize)
    ensures
        n == encode_utf8(s@).len(),
{
    s.as_bytes().len()
}

/// Whether two texts are the same.
pub fn same_text(a: &str, b: &str) -> (same: bool)
    ensures
        same == (a@ == b@),
{
    proof {
        encode_utf8_decode_utf8(a@);
        encode_utf8_decode_utf8(b@);
    }
    let a_bytes = a.as_bytes();
    let b_bytes = b.as_bytes();
    if a_bytes.len() != b_bytes.len() {
        return false;
    }
    let mut i: usize = 0;
    while i < a_bytes.len()
        invariant
            a_bytes@ == encode_utf8(a@),
            b_bytes@ == encode_utf8(b@),
            a_bytes@.len() == b_bytes@.len(),
            i <= a_bytes@.len(),
            forall|j: int| 0 <= j < i ==> a_bytes@[j] == b_bytes@[j],
        decreases a_bytes@.len() - i,
    {
        if a_bytes[i] != b_bytes[i] {
            return false;
        }
        i = i + 1;
    }
    assert(a_bytes@ =~= b_bytes@);
    true
}

/// The decimal digit of value `d`.
pub open spec fn digit(d: nat) -> Seq<char>
    recommends
        d < 10,
{
    if d == 0 {
        "0"@
    } else if d == 1 {
        "1"@
    } else if d == 2 {
        "2"@
    } else if d == 3 {
        "3"@
    } else if d == 4 {
        "4"@
    } else if d == 5 {
        "5"@
    } else if d == 6 {
        "6"@
    } else if d == 7 {
        "7"@
    } else if d == 8 {
        "8"@
    } else {
        "9"@
    }
}

/// `n` in decimal, without leading zeros.
pub open spec fn decimal(n: nat) -> Seq<char>
    decreases n,
{
    if n < 10 {
        digit(n)
    } else {
        decimal(n / 10) + digit(n % 10)
    }
}

fn digit_text(d: u64) -> (text: &'static str)
    requires
        d < 10,
    ensures
        text@ == digit(d as nat),
{
    match d {
        0 => "0",
        1 => "1",
        2 => "2",
        3 => "3",
        4 => "4",
        5 => "5",
        6 => "6",
        7 => "7",
        8 => "8",
        _ => "9",
    }
}

/// Writes `n` in decimal.
pub fn decimal_text(n: u64) -> (text: String)
    ensures
        text@ == decimal(n as nat),
    decreases n,
{
    if n < 10 {
        digit_text(n).to_owned()
    } else {
        let mut text = decimal_text(n / 10);
        text.append(digit_text(n % 10));
        text
    }
}

/// Of the ASCII characters, the space and those from the tab to the carriage
/// return are white space; letters, digits and punctuation are not. The controls
/// are those below the space, and the delete character.
pub proof fn ascii_classes(c: char)
    requires
        (c as u32) < 128,
    ensures
        is_space(c) <==> c as u32 == 32 || 9 <= c as u32 <= 13,
        is_control(c) <==> (c as u32) < 32 || c as u32 == 127,
{
}

/// Trimming removes white space, all of it at both ends, and nothing else: of a
/// core between two stretches of white space, the core is left.
pub proof fn trimming_leaves_the_core(before: Seq<char>, core: Seq<char>, after: Seq<char>)
    requires
        forall|i: int| 0 <= i < before.len() ==> is_space(#[trigger] before[i]),
        forall|i: int| 0 <= i < after.len() ==> is_space(#[trigger] after[i]),
        core.len() > 0 ==> !is_space(core.first()) && !is_space(core.last()),
    ensures
        trimmed(before + core + after) == core,
{
    let s = before + core + after;
    if core.len() == 0 {
        assert forall|i: int| 0 <= i < s.len() implies is_space(#[trigger] s[i]) by {
            if i < before.len() {
                assert(s[i] == before[i]);
            } else {
                assert(s[i] == after[i - before.len()]);
            }
        }
        lemma_trimmed(s, s.len() as int, s.len() as int);
        assert(s.subrange(s.len() as int, s.len() as int) =~= core);
    } else {
        let start = before.len() as int;
        let end = start + core.len();
        assert forall|i: int| 0 <= i < start implies is_space(#[trigger] s[i]) by {
            assert(s[i] == before[i]);
        }
        assert forall|i: int| end <= i < s.len() implies is_space(#[trigger] s[i]) by {
            assert(s[i] == after[i - end]);
        }
        assert(s[start] == core.first() && s[end - 1] == core.last());
        lemma_trimmed(s, start, end);
        assert(s.subrange(start, end) =~= core);
    }
}

/// The number that a text of decimal digits stands for.
pub open spec fn number(digits: Seq<char>) -> int
    decreases digits.len(),
{
    if digits.len() == 0 {
        0
    } else {
        10 * number(digits.drop_last()) + (digits.last() as int - '0' as int)
    }
}

proof fn lemma_digit(d: nat)
    requires
        d < 10,
    ensures
        digit(d).len() == 1,
        digit(d)[0] as int == '0' as int + d,
{
    reveal_strlit("0");
    reveal_strlit("1");
    reveal_strlit("2");
    reveal_strlit("3");
    reveal_strlit("4");
    reveal_strlit("5");
    reveal_strlit("6");
    reveal_strlit("7");
    reveal_strlit("8");
    reveal_strlit("9");
}

/// A number in decimal is made of digits, has no leading zero unless it is zero,
/// and can be read back.
pub proof fn decimal_is_read_back(n: nat)
    ensures
        decimal(n).len() > 0,
        forall|i: int| 0 <= i < decimal(n).len() ==> '0' <= #[trigger] decimal(n)[i] <= '9',
        n > 0 ==> decimal(n).first() != '0',
        n == 0 ==> decimal(n).len() == 1,
        number(decimal(n)) == n,
    decreases n,
{
    let text = decimal(n);
    lemma_digit(n % 10);
    if n < 10 {
        reveal_with_fuel(number, 2);
        assert(text.drop_last() =~= Seq::<char>::empty());
    } else {
        decimal_is_read_back(n / 10);
        let high = decimal(n / 10);
        assert(text.drop_last() =~= high);
        assert(text.last() == digit(n % 10)[0]);
        assert forall|i: int| 0 <= i < text.len() implies '0' <= #[trigger] text[i] <= '9' by {
            if i < high.len() {
                assert(text[i] == high[i]);
            }
        }
        assert(text.first() == high.first());
    }
}

} // verus!
