//! Character sequences: white space, trimming, decimal numerals and the
//! placeholder for what the host does not tell.

use vstd::prelude::*;

verus! {

/// Whether `c` has the Unicode property `White_Space`.
pub open spec fn is_white_space(c: char) -> bool {
    let n = c as u32;
    ||| 0x09 <= n <= 0x0D
    ||| n == 0x20
    ||| n == 0x85
    ||| n == 0xA0
    ||| n == 0x1680
    ||| 0x2000 <= n <= 0x200A
    ||| n == 0x2028
    ||| n == 0x2029
    ||| n == 0x202F
    ||| n == 0x205F
    ||| n == 0x3000
}

/// Whether `c` has the Unicode property `White_Space`.
pub fn white_space(c: char) -> (b: bool)
    ensures
        b == is_white_space(c),
{
    let n: u32 = c as u32;
    (0x09 <= n && n <= 0x0D) || n == 0x20 || n == 0x85 || n == 0xA0 || n == 0x1680 || (0x2000 <= n
        && n <= 0x200A) || n == 0x2028 || n == 0x2029 || n == 0x202F || n == 0x205F || n == 0x3000
}

/// The text that stands for what the host does not tell.
pub open spec fn unknown_text() -> Seq<char> {
    "<unknown>"@
}

/// The text as told, or the text that stands for an unknown one.
pub open spec fn known_or_unknown(value: Option<Seq<char>>) -> Seq<char> {
    match value {
        Some(text) => text,
        None => unknown_text(),
    }
}

/// The text as told, or `<unknown>`.
pub fn or_unknown(value: Option<String>) -> (text: String)
    ensures
        text@ == known_or_unknown(value.deep_view()),
{
    match value {
        Some(text) => text,
        None => "<unknown>".to_owned(),
    }
}

/// The characters of `text`, in order.
pub fn chars_of(text: &str) -> (chars: Vec<char>)
    ensures
        chars@ == text@,
{
    let mut chars: Vec<char> = Vec::new();
    for c in it: text.chars()
        invariant
            chars@ == it.seq().take(it.index()),
            it.seq() == text@,
    {
        chars.push(c);
    }
    chars
}

/// `text` without the white space at its start.
pub open spec fn trim_start(text: Seq<char>) -> Seq<char>
    decreases text.len(),
{
    if text.len() > 0 && is_white_space(text.first()) {
        trim_start(text.drop_first())
    } else {
        text
    }
}

/// `text` without the white space at its end.
pub open spec fn trim_end(text: Seq<char>) -> Seq<char>
    decreases text.len(),
{
    if text.len() > 0 && is_white_space(text.last()) {
        trim_end(text.drop_last())
    } else {
        text
    }
}

/// `text` without the white space at its start and at its end.
pub open spec fn trimmed(text: Seq<char>) -> Seq<char> {
    trim_end(trim_start(text))
}

/// Trimming at the start of a part of `text` skips one white-space character.
proof fn lemma_trim_start_step(text: Seq<char>, from: int, to: int)
    requires
        0 <= from < to <= text.len(),
        is_white_space(text[from]),
    ensures
        trim_start(text.subrange(from, to)) == trim_start(text.subrange(from + 1, to)),
{
    assert(text.subrange(from, to).drop_first() =~= text.subrange(from + 1, to));
}

/// Trimming at the end of a part of `text` drops one white-space character.
proof fn lemma_trim_end_step(text: Seq<char>, from: int, to: int)
    requires
        0 <= from < to <= text.len(),
        is_white_space(text[to - 1]),
    ensures
        trim_end(text.subrange(from, to)) == trim_end(text.subrange(from, to - 1)),
{
    assert(text.subrange(from, to).drop_last() =~= text.subrange(from, to - 1));
}

/// The bounds of the part `from..to` of `chars` once trimmed.
pub fn trim_range(chars: &Vec<char>, from: usize, to: usize) -> (bounds: (usize, usize))
    requires
        from <= to <= chars.len(),
    ensures
        from <= bounds.0 <= bounds.1 <= to,
        chars@.subrange(bounds.0 as int, bounds.1 as int) == trimmed(
            chars@.subrange(from as int, to as int),
        ),
{
    let mut start: usize = from;
    while start < to && white_space(chars[start])
        invariant
            from <= start <= to <= chars.len(),
            trim_start(chars@.subrange(from as int, to as int)) == trim_start(
                chars@.subrange(start as int, to as int),
            ),
        decreases to - start,
    {
        proof {
            lemma_trim_start_step(chars@, start as int, to as int);
        }
        start = start + 1;
    }
    let mut end: usize = to;
    while start < end && white_space(chars[end - 1])
        invariant
            start <= end <= to <= chars.len(),
            trim_end(chars@.subrange(start as int, to as int)) == trim_end(
                chars@.subrange(start as int, end as int),
            ),
        decreases end - start,
    {
        proof {
            lemma_trim_end_step(chars@, start as int, end as int);
        }
        end = end - 1;
    }
    (start, end)
}

/// What trimming leaves is a part of the text that neither starts nor ends
/// with white space, and all that it leaves out is white space.
pub proof fn lemma_trimmed_is_tight(text: Seq<char>)
    ensures
        trimmed(text).len() > 0 ==> !is_white_space(trimmed(text).first()) && !is_white_space(
            trimmed(text).last(),
        ),
        exists|from: int, to: int|
            0 <= from <= to <= text.len() && trimmed(text) == text.subrange(from, to) && (forall|
                i: int,
            |
                0 <= i < from || to <= i < text.len() ==> is_white_space(#[trigger] text[i])),
{
    lemma_trim_start_is_suffix(text);
    let from = text.len() - trim_start(text).len();
    lemma_trim_end_is_prefix(trim_start(text));
    let to = from + trimmed(text).len();
    assert(trimmed(text) =~= text.subrange(from, to));
    assert forall|i: int| 0 <= i < from || to <= i < text.len() implies is_white_space(
        #[trigger] text[i],
    ) by {
        if to <= i {
            assert(text[i] == trim_start(text)[i - from]);
        }
    }
    if trimmed(text).len() > 0 {
        assert(trimmed(text).first() == trim_start(text).first());
    }
}

/// What trimming at the start leaves is the end of the text, does not start
/// with white space, and follows nothing but white space.
proof fn lemma_trim_start_is_suffix(text: Seq<char>)
    ensures
        trim_start(text).len() <= text.len(),
        trim_start(text) == text.skip(text.len() - trim_start(text).len()),
        forall|i: int|
            0 <= i < text.len() - trim_start(text).len() ==> is_white_space(#[trigger] text[i]),
        trim_start(text).len() > 0 ==> !is_white_space(trim_start(text).first()),
    decreases text.len(),
{
    if text.len() > 0 && is_white_space(text.first()) {
        let rest = text.drop_first();
        lemma_trim_start_is_suffix(rest);
        let gap = rest.len() - trim_start(rest).len();
        assert(rest.skip(gap) =~= text.skip(gap + 1));
        assert forall|i: int| 0 <= i < text.len() - trim_start(text).len() implies is_white_space(
            #[trigger] text[i],
        ) by {
            if i > 0 {
                assert(text[i] == rest[i - 1]);
            }
        }
    } else {
        assert(text.skip(0) =~= text);
    }
}

/// What trimming at the end leaves is the start of the text, does not end
/// with white space, and is followed by nothing but white space.
proof fn lemma_trim_end_is_prefix(text: Seq<char>)
    ensures
        trim_end(text).len() <= text.len(),
        trim_end(text) == text.take(trim_end(text).len() as int),
        forall|i: int| trim_end(text).len() <= i < text.len() ==> is_white_space(#[trigger] text[i]),
        trim_end(text).len() > 0 ==> !is_white_space(trim_end(text).last()),
    decreases text.len(),
{
    if text.len() > 0 && is_white_space(text.last()) {
        let rest = text.drop_last();
        lemma_trim_end_is_prefix(rest);
        assert(rest.take(trim_end(rest).len() as int) =~= text.take(trim_end(rest).len() as int));
        assert forall|i: int| trim_end(text).len() <= i < text.len() implies is_white_space(
            #[trigger] text[i],
        ) by {
            if i < rest.len() {
                assert(text[i] == rest[i]);
            }
        }
    } else {
        assert(text.take(text.len() as int) =~= text);
    }
}

/// The character of the decimal digit `d`.
pub open spec fn digit_char(d: int) -> char {
    if d == 0 {
        '0'
    } else if d == 1 {
        '1'
    } else if d == 2 {
        '2'
    } else if d == 3 {
        '3'
    } else if d == 4 {
        '4'
    } else if d == 5 {
        '5'
    } else if d == 6 {
        '6'
    } else if d == 7 {
        '7'
    } else if d == 8 {
        '8'
    } else {
        '9'
    }
}

/// The decimal numeral of `n`, without leading zeros.
pub open spec fn decimal(n: nat) -> Seq<char>
    decreases n,
{
    if n < 10 {
        seq![digit_char(n as int)]
    } else {
        decimal(n / 10).push(digit_char((n % 10) as int))
    }
}

/// The number that the decimal digit `c` stands for.
pub open spec fn digit_value(c: char) -> nat {
    (c as u32 - '0' as u32) as nat
}

/// The number that a decimal numeral stands for.
pub open spec fn numeral_value(numeral: Seq<char>) -> nat
    decreases numeral.len(),
{
    if numeral.len() == 0 {
        0
    } else {
        numeral_value(numeral.drop_last()) * 10 + digit_value(numeral.last())
    }
}

/// The numeral of `n` is made of decimal digits, starts with a zero only
/// where `n` is zero, and stands for `n`.
pub proof fn lemma_decimal_reads_back(n: nat)
    ensures
        decimal(n).len() >= 1,
        forall|i: int| 0 <= i < decimal(n).len() ==> '0' <= #[trigger] decimal(n)[i] <= '9',
        decimal(n).first() == '0' ==> n == 0,
        numeral_value(decimal(n)) == n,
    decreases n,
{
    let last = digit_char((n % 10) as int);
    assert(digit_value(last) == n % 10);
    if n < 10 {
        assert(decimal(n).drop_last() =~= Seq::<char>::empty());
        assert(numeral_value(Seq::<char>::empty()) == 0);
        assert(decimal(n).last() == last);
    } else {
        lemma_decimal_reads_back(n / 10);
        let front = decimal(n / 10);
        assert(decimal(n).drop_last() =~= front);
        assert(decimal(n).first() == front.first());
        assert(decimal(n).last() == last);
        assert(numeral_value(decimal(n)) == numeral_value(front) * 10 + digit_value(last));
    }
}

/// The decimal digit `d` as a string slice.
fn digit_text(d: u64) -> (text: &'static str)
    requires
        d < 10,
    ensures
        text@ == seq![digit_char(d as int)],
{
    proof {
        reveal_strlit("0");
        reveal_strlit("1");
        reveal_strlit("2");
        reveal_strlit("3");
        reveal_strlit("4");
        reveal_strlit("5");
        reveal_strlit("6");
        reveal_strlit("7");
        reveal_strlit("8");
        reveal_strlit("9");
    }
    let text = if d == 0 {
        "0"
    } else if d == 1 {
        "1"
    } else if d == 2 {
        "2"
    } else if d == 3 {
        "3"
    } else if d == 4 {
        "4"
    } else if d == 5 {
        "5"
    } else if d == 6 {
        "6"
    } else if d == 7 {
        "7"
    } else if d == 8 {
        "8"
    } else {
        "9"
    };
    assert(text@ =~= seq![digit_char(d as int)]);
    text
}

/// Appends the decimal numeral of `n` to `out`.
pub fn push_decimal(out: &mut String, n: u64)
    ensures
        final(out)@ == old(out)@ + decimal(n as nat),
    decreases n,
{
    if n >= 10 {
        push_decimal(out, n / 10);
    }
    out.append(digit_text(n % 10));
}

/// The decimal numeral of `n`.
pub fn decimal_string(n: u64) -> (text: String)
    ensures
        text@ == decimal(n as nat),
{
    let mut text = String::new();
    push_decimal(&mut text, n);
    text
}

} // verus!
