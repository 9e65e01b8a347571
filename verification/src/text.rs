//! Reading the ordinal that ends an interface's name, and writing one out.
//!
//! A name is split at white space; its last token, read as a decimal number,
//! is the ordinal. Everything here is stated over sequences of characters.

use vstd::prelude::*;
use vstd::std_specs::iter::IteratorSpec;

verus! {

/// White space: the code points that carry Unicode's `White_Space` property.
pub open spec fn is_space(c: char) -> bool {
    let n = c as u32;
    ||| 0x09 <= n <= 0x0D
    ||| n == 0x20
    ||| n == 0x85
    ||| n == 0xA0
    ||| n == 0x1680
    ||| 0x2000 <= n <= 0x200A
    ||| n == 0x2028
    ||| n == 0x2029
    ||| n == 0x202F
    ||| n == 0x205F
    ||| n == 0x3000
}

/// A decimal digit, `0` to `9`.
pub open spec fn is_digit(c: char) -> bool {
    0x30 <= c as u32 <= 0x39
}

/// What a decimal digit counts for.
pub open spec fn digit_value(c: char) -> nat
    recommends
        is_digit(c),
{
    (c as u32 - 0x30) as nat
}

/// Every character of `s` is white space.
pub open spec fn blank(s: Seq<char>) -> bool {
    forall|i: int| 0 <= i < s.len() ==> is_space(#[trigger] s[i])
}

/// No character of `s` is white space.
pub open spec fn solid(s: Seq<char>) -> bool {
    forall|i: int| 0 <= i < s.len() ==> !is_space(#[trigger] s[i])
}

/// Every character of `s` is a decimal digit.
pub open spec fn all_digits(s: Seq<char>) -> bool {
    forall|i: int| 0 <= i < s.len() ==> is_digit(#[trigger] s[i])
}

/// The length of `s` without the white space that ends it.
pub open spec fn trimmed_len(s: Seq<char>) -> nat
    decreases s.len(),
{
    if s.len() > 0 && is_space(s.last()) {
        trimmed_len(s.drop_last())
    } else {
        s.len()
    }
}

/// Where the run of characters other than white space that ends `s` begins
/// (`s.len()` where `s` is empty or ends in white space).
pub open spec fn token_start(s: Seq<char>) -> nat
    decreases s.len(),
{
    if s.len() > 0 && !is_space(s.last()) {
        token_start(s.drop_last())
    } else {
        s.len()
    }
}

/// The last of the tokens that white space separates in `s`; empty exactly
/// when `s` holds no token.
pub open spec fn last_token(s: Seq<char>) -> Seq<char> {
    let body = s.take(trimmed_len(s) as int);
    body.skip(token_start(body) as int)
}

/// The number that a run of decimal digits writes, most significant first.
pub open spec fn decimal_value(digits: Seq<char>) -> nat
    decreases digits.len(),
{
    if digits.len() == 0 {
        0
    } else {
        10 * decimal_value(digits.drop_last()) + digit_value(digits.last())
    }
}

/// The digits of a token: the token itself, without one leading `+`.
pub open spec fn unsigned_part(token: Seq<char>) -> Seq<char> {
    if token.len() > 0 && token[0] == '+' {
        token.skip(1)
    } else {
        token
    }
}

/// A token read as a number: one or more decimal digits after an optional
/// `+`, whose value fits the machine's `usize`. Anything else is no number.
pub open spec fn number_of(token: Seq<char>) -> Option<usize> {
    let digits = unsigned_part(token);
    if digits.len() > 0 && all_digits(digits) && decimal_value(digits) <= usize::MAX {
        Some(decimal_value(digits) as usize)
    } else {
        None
    }
}

/// The ordinal that a name carries: its last token, read as a number.
pub open spec fn ordinal_of(name: Seq<char>) -> Option<usize> {
    number_of(last_token(name))
}

/// The character that writes one decimal digit.
pub open spec fn digit_char(d: nat) -> char
    recommends
        d < 10,
{
    ((0x30 + d) as u8) as char
}

/// The decimal digits that write `n`, most significant first, without
/// leading zeros (a single `0` for zero).
pub open spec fn digits_of(n: nat) -> Seq<char>
    decreases n,
{
    if n < 10 {
        seq![digit_char(n)]
    } else {
        digits_of(n / 10).push(digit_char(n % 10))
    }
}

/// The digits above the lowest ones already written: none once nothing is left.
pub open spec fn leading_digits(rest: nat) -> Seq<char> {
    if rest == 0 {
        Seq::empty()
    } else {
        digits_of(rest)
    }
}

/// What a slot shows: the title of its column, a space, and its ordinal.
pub open spec fn label_of(title: Seq<char>, ordinal: nat) -> Seq<char> {
    title + seq![' '] + digits_of(ordinal)
}

/// A longer run of digits writes no smaller number than the run it starts with.
pub proof fn lemma_decimal_value_grows(digits: Seq<char>, n: int)
    requires
        0 <= n <= digits.len(),
    ensures
        decimal_value(digits.take(n)) <= decimal_value(digits),
    decreases digits.len(),
{
    if n == digits.len() {
        assert(digits.take(n) =~= digits);
    } else {
        lemma_decimal_value_grows(digits.drop_last(), n);
        assert(digits.drop_last().take(n) =~= digits.take(n));
    }
}

/// The last token, told by what surrounds it: `s` splits into a head that is
/// empty or ends in white space, the token, which holds no white space, and a
/// tail of white space only.
pub proof fn lemma_last_token_shape(s: Seq<char>)
    ensures
        token_start(s.take(trimmed_len(s) as int)) <= trimmed_len(s) <= s.len(),
        solid(last_token(s)),
        blank(s.skip(trimmed_len(s) as int)),
        ({
            let start = token_start(s.take(trimmed_len(s) as int)) as int;
            start == 0 || is_space(s[start - 1])
        }),
        last_token(s).len() == 0 <==> blank(s),
{
    lemma_trimmed(s);
    let body = s.take(trimmed_len(s) as int);
    lemma_token_start(body);
    let start = token_start(body) as int;
    if last_token(s).len() == 0 {
        assert forall|i: int| 0 <= i < s.len() implies is_space(#[trigger] s[i]) by {
            if i < trimmed_len(s) {
                assert(body.len() == 0);
            } else {
                assert(s.skip(trimmed_len(s) as int)[i - trimmed_len(s)] == s[i]);
            }
        }
    }
    if blank(s) && body.len() > 0 {
        assert(body.last() == s[body.len() - 1]);
    }
}

/// What `trimmed_len` cuts off is white space, and what it leaves does not end in any.
pub proof fn lemma_trimmed(s: Seq<char>)
    ensures
        trimmed_len(s) <= s.len(),
        blank(s.skip(trimmed_len(s) as int)),
        trimmed_len(s) > 0 ==> !is_space(s[trimmed_len(s) - 1]),
    decreases s.len(),
{
    if s.len() > 0 && is_space(s.last()) {
        let front = s.drop_last();
        lemma_trimmed(front);
        let cut = trimmed_len(s) as int;
        assert forall|i: int| 0 <= i < s.skip(cut).len() implies is_space(
            #[trigger] s.skip(cut)[i],
        ) by {
            if cut + i < front.len() {
                assert(front.skip(cut)[i] == s[cut + i]);
            }
        }
    }
}

/// From `token_start` on `s` holds no white space, and just before it stands
/// white space or nothing.
pub proof fn lemma_token_start(s: Seq<char>)
    ensures
        token_start(s) <= s.len(),
        solid(s.skip(token_start(s) as int)),
        token_start(s) == 0 || is_space(s[token_start(s) - 1]),
    decreases s.len(),
{
    if s.len() > 0 && !is_space(s.last()) {
        let front = s.drop_last();
        lemma_token_start(front);
        let from = token_start(s) as int;
        assert forall|i: int| 0 <= i < s.skip(from).len() implies !is_space(
            #[trigger] s.skip(from)[i],
        ) by {
            if from + i < front.len() {
                assert(front.skip(from)[i] == s[from + i]);
            }
        }
    }
}

/// Written digits are digits, and read back they give the number written.
pub proof fn lemma_digits_read_back(n: nat)
    ensures
        digits_of(n).len() > 0,
        all_digits(digits_of(n)),
        decimal_value(digits_of(n)) == n,
    decreases n,
{
    let d = if n < 10 { n } else { n % 10 };
    assert(is_digit(digit_char(d)) && digit_value(digit_char(d)) == d);
    if n < 10 {
        assert(digits_of(n).drop_last() =~= Seq::<char>::empty());
        assert(decimal_value(Seq::<char>::empty()) == 0);
    } else {
        lemma_digits_read_back(n / 10);
        assert(digits_of(n).drop_last() =~= digits_of(n / 10));
    }
}

/// A number that fits `usize`, written out, reads as that number.
pub proof fn lemma_written_number_reads_back(n: usize)
    ensures
        number_of(digits_of(n as nat)) == Some(n),
{
    lemma_digits_read_back(n as nat);
    assert(is_digit(digits_of(n as nat)[0]));
}

/// A run without white space that follows a space is the last token.
pub proof fn lemma_last_token_after_space(head: Seq<char>, token: Seq<char>)
    requires
        token.len() > 0,
        solid(token),
    ensures
        last_token(head + seq![' '] + token) == token,
{
    let s = head + seq![' '] + token;
    assert(s.last() == token.last());
    assert(s.take(s.len() as int) =~= s);
    lemma_token_start_after_space(head, token);
    assert(s.skip(head.len() as int + 1) =~= token);
}

/// The run that ends `head`, a space and a run without white space begins
/// right after the space.
proof fn lemma_token_start_after_space(head: Seq<char>, tail: Seq<char>)
    requires
        solid(tail),
    ensures
        token_start(head + seq![' '] + tail) == head.len() + 1,
    decreases tail.len(),
{
    let s = head + seq![' '] + tail;
    if tail.len() == 0 {
        assert(s.last() == ' ');
    } else {
        assert(s.last() == tail.last());
        assert(s.drop_last() =~= head + seq![' '] + tail.drop_last());
        lemma_token_start_after_space(head, tail.drop_last());
    }
}

/// The label of a slot carries the slot's ordinal: read as a name, it gives
/// the ordinal that it was written with.
pub proof fn lemma_label_names_its_ordinal(title: Seq<char>, ordinal: usize)
    ensures
        ordinal_of(label_of(title, ordinal as nat)) == Some(ordinal),
{
    let digits = digits_of(ordinal as nat);
    lemma_digits_read_back(ordinal as nat);
    assert forall|i: int| 0 <= i < digits.len() implies !is_space(#[trigger] digits[i]) by {
        assert(is_digit(digits[i]));
    }
    lemma_last_token_after_space(title, digits);
    lemma_written_number_reads_back(ordinal);
}

/// Tells white space from the rest.
pub fn is_whitespace(c: char) -> (space: bool)
    ensures
        space == is_space(c),
{
    let n: u32 = c as u32;
    (0x09 <= n && n <= 0x0D) || n == 0x20 || n == 0x85 || n == 0xA0 || n == 0x1680 || (0x2000 <= n
        && n <= 0x200A) || n == 0x2028 || n == 0x2029 || n == 0x202F || n == 0x205F || n == 0x3000
}

/// The characters of `text`, in order.
pub fn chars_of(text: &str) -> (chars: Vec<char>)
    ensures
        chars@ == text@,
{
    broadcast use vstd::string::group_string_axioms;

    let mut chars: Vec<char> = Vec::new();
    for c in rest: text.chars()
        invariant
            rest.seq() == text@,
            chars@ == text@.take(rest.index()),
    {
        chars.push(c);
    }
    chars
}

/// Finds the last token of `chars`: the half-open range of positions it fills.
/// The range is empty exactly when there is no token.
pub fn last_token_range(chars: &Vec<char>) -> (range: (usize, usize))
    ensures
        range.0 <= range.1 <= chars.len(),
        range.1 == trimmed_len(chars@),
        range.0 == token_start(chars@.take(range.1 as int)),
        chars@.subrange(range.0 as int, range.1 as int) == last_token(chars@),
{
    let mut end: usize = chars.len();
    assert(chars@.take(end as int) =~= chars@);
    while end > 0 && is_whitespace(chars[end - 1])
        invariant
            end <= chars.len(),
            trimmed_len(chars@) == trimmed_len(chars@.take(end as int)),
        decreases end,
    {
        assert(chars@.take(end as int).drop_last() =~= chars@.take(end - 1));
        end = end - 1;
    }
    let ghost body = chars@.take(end as int);
    let mut start: usize = end;
    assert(body.take(start as int) =~= body);
    while start > 0 && !is_whitespace(chars[start - 1])
        invariant
            start <= end <= chars.len(),
            body == chars@.take(end as int),
            token_start(body) == token_start(body.take(start as int)),
        decreases start,
    {
        assert(body.take(start as int).drop_last() =~= body.take(start - 1));
        start = start - 1;
    }
    assert(body.skip(start as int) =~= chars@.subrange(start as int, end as int));
    (start, end)
}

/// Reads `chars[from..to]` as a number.
pub fn parse_number(chars: &Vec<char>, from: usize, to: usize) -> (number: Option<usize>)
    requires
        from <= to <= chars.len(),
    ensures
        number == number_of(chars@.subrange(from as int, to as int)),
{
    let ghost token = chars@.subrange(from as int, to as int);
    let first: usize = if from < to && chars[from] == '+' {
        from + 1
    } else {
        from
    };
    let ghost digits = unsigned_part(token);
    assert(digits =~= chars@.subrange(first as int, to as int));
    if first == to {
        return None;
    }
    let mut value: usize = 0;
    let mut at: usize = first;
    assert(digits.take(0) =~= Seq::<char>::empty());
    while at < to
        invariant
            from <= first <= at <= to <= chars.len(),
            digits == chars@.subrange(first as int, to as int),
            digits == unsigned_part(chars@.subrange(from as int, to as int)),
            all_digits(digits.take(at - first)),
            value == decimal_value(digits.take(at - first)),
        decreases to - at,
    {
        let c: char = chars[at];
        let n: u32 = c as u32;
        assert(digits[at - first] == c);
        if n < 0x30 || n > 0x39 {
            assert(!is_digit(digits[at - first]));
            return None;
        }
        let d: usize = (n - 0x30) as usize;
        proof {
            let longer = digits.take(at - first + 1);
            assert(longer.drop_last() =~= digits.take(at - first));
            assert(longer.last() == c);
            lemma_decimal_value_grows(digits, at - first + 1);
        }
        if value > (usize::MAX - d) / 10 {
            assert(10 * value + d > usize::MAX);
            return None;
        }
        value = value * 10 + d;
        at = at + 1;
    }
    assert(digits.take(to - first) =~= digits);
    Some(value)
}

/// `str::eq`, the `==` of string slices. Trusted: it holds exactly when both
/// slices hold the same characters.
pub assume_specification[ <str as PartialEq>::eq ](a: &str, b: &str) -> (same: bool)
    ensures
        same == (a@ == b@),
;

/// `String::push`. Trusted: the text afterwards is the text before with the
/// character added at its end.
pub assume_specification[ String::push ](text: &mut String, ch: char)
    ensures
        final(text)@ == old(text)@.push(ch),
;

/// Writes `n` in decimal digits at the end of `text`.
pub fn push_decimal(text: &mut String, n: usize)
    ensures
        final(text)@ == old(text)@ + digits_of(n as nat),
{
    let mut low: Vec<char> = Vec::new();
    low.push(((0x30 + n % 10) as u8) as char);
    let mut rest: usize = n / 10;
    assert(digits_of(n as nat) =~= leading_digits(rest as nat) + low@.reverse());
    while rest > 0
        invariant
            digits_of(n as nat) == leading_digits(rest as nat) + low@.reverse(),
        decreases rest,
    {
        let ghost before = low@;
        low.push(((0x30 + rest % 10) as u8) as char);
        assert(leading_digits(rest as nat) + before.reverse() =~= leading_digits(
            (rest / 10) as nat,
        ) + low@.reverse());
        rest = rest / 10;
    }
    let mut left: usize = low.len();
    while left > 0
        invariant
            left <= low.len(),
            text@ == old(text)@ + low@.reverse().take(low.len() - left),
        decreases left,
    {
        left = left - 1;
        text.push(low[left]);
        assert(low@.reverse().take(low.len() - left) =~= low@.reverse().take(
            low.len() - left - 1,
        ).push(low@[left as int]));
    }
    assert(low@.reverse().take(low.len() as int) =~= low@.reverse());
}

/// Writes the label of the slot with `ordinal` in the column under `title`.
pub fn label(title: &str, ordinal: usize) -> (text: String)
    ensures
        text@ == label_of(title@, ordinal as nat),
{
    let mut text = title.to_owned();
    text.push(' ');
    push_decimal(&mut text, ordinal);
    text
}

/// Reads the ordinal that `name` carries.
pub fn ordinal(name: &str) -> (number: Option<usize>)
    ensures
        number == ordinal_of(name@),
{
    let chars = chars_of(name);
    let (start, end) = last_token_range(&chars);
    parse_number(&chars, start, end)
}

} // verus!
