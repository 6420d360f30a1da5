//! Reading text: words, lines, trimming, searching, and number parsing with
//! the grammar of `str::parse`.

use vstd::prelude::*;
use vstd::string::*;

use crate::text::{self, chars_of, is_white, slice_text};

verus! {

// --------------------------------------------------------------------- words
/// How many characters come before the first white space.
pub open spec fn word_len(s: Seq<char>) -> nat
    decreases s.len(),
{
    if s.len() == 0 || text::white(s[0]) {
        0
    } else {
        1 + word_len(s.skip(1))
    }
}

/// The maximal runs of characters that are not white space, in order.
pub open spec fn words(s: Seq<char>) -> Seq<Seq<char>>
    decreases s.len(),
{
    if s.len() == 0 {
        seq![]
    } else if text::white(s[0]) {
        words(s.skip(1))
    } else {
        let n = word_len(s);
        if n > s.len() {
            seq![]
        } else {
            seq![s.take(n as int)] + words(s.skip(n as int))
        }
    }
}

/// The white-space separated words of a text.
pub fn split_words(s: &str) -> (out: Vec<String>)
    ensures
        text::texts(out@) == words(s@),
{
    let chars = chars_of(s);
    let mut out: Vec<String> = Vec::new();
    let mut i: usize = 0;
    assert(s@.skip(0) =~= s@);
    assert(text::texts(out@) + words(s@) =~= words(s@));
    while i < chars.len()
        invariant
            chars@ == s@,
            i <= chars@.len(),
            words(s@) == text::texts(out@) + words(s@.skip(i as int)),
        decreases chars.len() - i,
    {
        let ghost rest = s@.skip(i as int);
        assert(rest[0] == s@[i as int]);
        if is_white(chars[i]) {
            assert(rest.skip(1) =~= s@.skip(i + 1));
            i = i + 1;
        } else {
            let start = i;
            while i < chars.len() && !is_white(chars[i])
                invariant
                    chars@ == s@,
                    start <= i <= chars@.len(),
                    rest == s@.skip(start as int),
                    word_len(rest) == (i - start) + word_len(s@.skip(i as int)),
                decreases chars.len() - i,
            {
                assert(s@.skip(i as int).skip(1) =~= s@.skip(i + 1));
                i = i + 1;
            }
            proof {
                let n = i - start;
                assert(word_len(s@.skip(i as int)) == 0);
                assert(word_len(rest) == n);
                assert(word_len(rest) >= 1);
                assert(rest.take(n) =~= s@.subrange(start as int, i as int));
                assert(rest.skip(n) =~= s@.skip(i as int));
            }
            let word = slice_text(&chars, start, i);
            let ghost before = text::texts(out@);
            out.push(word);
            proof {
                assert(text::texts(out@) =~= before.push(word@));
                assert(before + (seq![word@] + words(s@.skip(i as int))) =~= text::texts(out@) + words(
                    s@.skip(i as int),
                ));
            }
        }
    }
    assert(s@.skip(i as int).len() == 0);
    assert(text::texts(out@) + words(s@.skip(i as int)) =~= text::texts(out@));
    out
}

// ---------------------------------------------------------------------- trim
/// How many white-space characters the text starts with.
pub open spec fn lead(s: Seq<char>) -> nat
    decreases s.len(),
{
    if s.len() == 0 || !text::white(s[0]) {
        0
    } else {
        1 + lead(s.skip(1))
    }
}

/// The text without the white space at its end.
pub open spec fn trimmed_end(s: Seq<char>) -> Seq<char>
    decreases s.len(),
{
    if s.len() == 0 || !text::white(s.last()) {
        s
    } else {
        trimmed_end(s.drop_last())
    }
}

/// The text without the white space at its ends.
pub open spec fn trimmed(s: Seq<char>) -> Seq<char> {
    trimmed_end(s.skip(lead(s) as int))
}

/// The text without the white space at its ends.
pub fn trim(s: &str) -> (out: String)
    ensures
        out@ == trimmed(s@),
{
    let chars = chars_of(s);
    let mut i: usize = 0;
    assert(s@.skip(0) =~= s@);
    while i < chars.len() && is_white(chars[i])
        invariant
            chars@ == s@,
            i <= chars@.len(),
            lead(s@) == i + lead(s@.skip(i as int)),
        decreases chars.len() - i,
    {
        assert(s@.skip(i as int).skip(1) =~= s@.skip(i + 1));
        i = i + 1;
    }
    assert(lead(s@.skip(i as int)) == 0);
    let ghost rest = s@.skip(i as int);
    let mut end: usize = chars.len();
    assert(s@.subrange(i as int, end as int) =~= rest);
    while end > i && is_white(chars[end - 1])
        invariant
            chars@ == s@,
            i <= end <= chars@.len(),
            trimmed_end(rest) == trimmed_end(s@.subrange(i as int, end as int)),
        decreases end,
    {
        assert(s@.subrange(i as int, end as int).drop_last() =~= s@.subrange(
            i as int,
            end - 1,
        ));
        end = end - 1;
    }
    slice_text(&chars, i, end)
}

/// Nothing but white space.
pub open spec fn blank(s: Seq<char>) -> bool {
    forall|i: int| 0 <= i < s.len() ==> text::white(#[trigger] s[i])
}

/// Does the text hold nothing but white space?
pub fn is_blank(s: &str) -> (r: bool)
    ensures
        r == blank(s@),
{
    let chars = chars_of(s);
    for i in 0..chars.len()
        invariant
            chars@ == s@,
            forall|j: int| 0 <= j < i ==> text::white(#[trigger] s@[j]),
    {
        if !is_white(chars[i]) {
            assert(!text::white(s@[i as int]));
            return false;
        }
    }
    true
}

// --------------------------------------------------------------------- lines
/// The index of the first `c`, or the length when there is none.
pub open spec fn first_index(s: Seq<char>, c: char) -> nat
    decreases s.len(),
{
    if s.len() == 0 || s[0] == c {
        0
    } else {
        1 + first_index(s.skip(1), c)
    }
}

pub proof fn lemma_first_index(s: Seq<char>, c: char)
    ensures
        first_index(s, c) <= s.len(),
        first_index(s, c) < s.len() ==> s[first_index(s, c) as int] == c,
        forall|i: int| 0 <= i < first_index(s, c) ==> s[i] != c,
    decreases s.len(),
{
    if s.len() > 0 && s[0] != c {
        lemma_first_index(s.skip(1), c);
        assert forall|i: int| 0 <= i < first_index(s, c) implies s[i] != c by {
            if i > 0 {
                assert(s[i] == s.skip(1)[i - 1]);
            }
        }
    }
}

pub proof fn lemma_first_index_is(s: Seq<char>, c: char, n: int)
    requires
        0 <= n <= s.len(),
        n < s.len() ==> s[n] == c,
        forall|i: int| 0 <= i < n ==> s[i] != c,
    ensures
        first_index(s, c) == n,
{
    lemma_first_index(s, c);
    if first_index(s, c) < n {
        assert(s[first_index(s, c) as int] != c);
    }
}

/// The text without one carriage return at its end.
pub open spec fn without_cr(s: Seq<char>) -> Seq<char> {
    if s.len() > 0 && s.last() == '\r' {
        s.drop_last()
    } else {
        s
    }
}

/// The lines of a text: each ends at a newline (`\n` or `\r\n`), and the last
/// one may end with the text instead.
pub open spec fn lines(s: Seq<char>) -> Seq<Seq<char>>
    decreases s.len(),
{
    if s.len() == 0 {
        seq![]
    } else {
        let n = first_index(s, '\n');
        if n < s.len() {
            seq![without_cr(s.take(n as int))] + lines(s.skip((n + 1) as int))
        } else {
            seq![s]
        }
    }
}

/// The lines of a text.
pub fn split_lines(s: &str) -> (out: Vec<String>)
    ensures
        text::texts(out@) == lines(s@),
{
    let chars = chars_of(s);
    let mut out: Vec<String> = Vec::new();
    let mut start: usize = 0;
    assert(s@.skip(0) =~= s@);
    assert(text::texts(out@) + lines(s@) =~= lines(s@));
    while start < chars.len()
        invariant
            chars@ == s@,
            start <= chars@.len(),
            lines(s@) == text::texts(out@) + lines(s@.skip(start as int)),
        decreases chars.len() - start,
    {
        let ghost rest = s@.skip(start as int);
        let ghost before = text::texts(out@);
        let mut i = start;
        while i < chars.len() && chars[i] != '\n'
            invariant
                chars@ == s@,
                start <= i <= chars@.len(),
                forall|j: int| start <= j < i ==> s@[j] != '\n',
            decreases chars.len() - i,
        {
            i = i + 1;
        }
        proof {
            assert forall|j: int| 0 <= j < i - start implies rest[j] != '\n' by {
                assert(rest[j] == s@[start + j]);
            }
            lemma_first_index_is(rest, '\n', i - start);
        }
        if i < chars.len() {
            let mut end = i;
            if end > start && chars[end - 1] == '\r' {
                end = end - 1;
            }
            let line = slice_text(&chars, start, end);
            proof {
                assert(rest.take(i - start) =~= s@.subrange(start as int, i as int));
                assert(line@ =~= without_cr(rest.take(i - start)));
                assert(rest.skip(i - start + 1) =~= s@.skip(i + 1));
            }
            out.push(line);
            assert(text::texts(out@) =~= before.push(line@));
            assert(before + (seq![line@] + lines(s@.skip(i + 1))) =~= text::texts(out@) + lines(
                s@.skip(i + 1),
            ));
            start = i + 1;
        } else {
            let line = slice_text(&chars, start, i);
            assert(line@ =~= rest);
            out.push(line);
            assert(text::texts(out@) =~= before.push(line@));
            assert(s@.skip(i as int).len() == 0);
            assert(before + seq![line@] =~= text::texts(out@) + lines(s@.skip(i as int)));
            start = i;
        }
    }
    assert(s@.skip(start as int).len() == 0);
    assert(text::texts(out@) + lines(s@.skip(start as int)) =~= text::texts(out@));
    out
}


// ------------------------------------------------------------------- numbers
/// The value of a digit below `radix`, letters counting from ten.
pub open spec fn digit_of(c: char, radix: int) -> Option<int> {
    let v = if '0' <= c <= '9' {
        c as int - 48
    } else if 'a' <= c <= 'z' {
        c as int - 87
    } else if 'A' <= c <= 'Z' {
        c as int - 55
    } else {
        radix
    };
    if v < radix {
        Some(v)
    } else {
        None
    }
}

pub open spec fn all_digits(s: Seq<char>, radix: int) -> bool {
    forall|i: int| 0 <= i < s.len() ==> (#[trigger] digit_of(s[i], radix)) is Some
}

/// The number that a run of digits stands for.
pub open spec fn number(s: Seq<char>, radix: int) -> int
    decreases s.len(),
{
    if s.len() == 0 {
        0
    } else {
        number(s.drop_last(), radix) * radix + digit_of(s.last(), radix).unwrap()
    }
}

/// What `parse` makes of a text for an unsigned type whose largest value is
/// `max`: an optional `+`, then at least one digit.
pub open spec fn unsigned(s: Seq<char>, radix: int, max: int) -> Option<int> {
    let digits = if s.len() > 0 && s[0] == '+' {
        s.skip(1)
    } else {
        s
    };
    if digits.len() > 0 && all_digits(digits, radix) && number(digits, radix) <= max {
        Some(number(digits, radix))
    } else {
        None
    }
}

/// What `parse` makes of a text for a signed type with the given range: an
/// optional sign, then at least one digit.
pub open spec fn signed(s: Seq<char>, min: int, max: int) -> Option<int> {
    if s.len() > 0 && s[0] == '-' {
        let digits = s.skip(1);
        if digits.len() > 0 && all_digits(digits, 10) && -number(digits, 10) >= min {
            Some(-number(digits, 10))
        } else {
            None
        }
    } else {
        unsigned(s, 10, max)
    }
}

proof fn lemma_number_nonnegative(s: Seq<char>, radix: int)
    requires
        0 < radix,
        all_digits(s, radix),
    ensures
        number(s, radix) >= 0,
    decreases s.len(),
{
    if s.len() > 0 {
        let front = s.drop_last();
        assert forall|i: int| 0 <= i < front.len() implies (#[trigger] digit_of(
            front[i],
            radix,
        )) is Some by {
            assert(front[i] == s[i]);
        }
        lemma_number_nonnegative(front, radix);
        assert(digit_of(s[s.len() - 1], radix) is Some);
        assert(number(front, radix) * radix >= 0) by (nonlinear_arith)
            requires
                number(front, radix) >= 0,
                radix > 0,
        ;
    }
}

/// A longer run of digits is at least as large a number.
proof fn lemma_number_grows(s: Seq<char>, n: int, radix: int)
    requires
        0 < radix,
        0 <= n <= s.len(),
        all_digits(s, radix),
    ensures
        0 <= number(s.take(n), radix) <= number(s, radix),
    decreases s.len() - n,
{
    assert forall|i: int| 0 <= i < n implies (#[trigger] digit_of(
        s.take(n)[i],
        radix,
    )) is Some by {
        assert(s.take(n)[i] == s[i]);
    }
    lemma_number_nonnegative(s.take(n), radix);
    if n < s.len() {
        lemma_number_grows(s, n + 1, radix);
        assert(s.take(n + 1).drop_last() =~= s.take(n));
        assert(s.take(n + 1).last() == s[n]);
        assert(digit_of(s[n], radix) is Some);
        let a = number(s.take(n), radix);
        assert(a * radix >= a) by (nonlinear_arith)
            requires
                a >= 0,
                radix > 0,
        ;
    } else {
        assert(s.take(n) =~= s);
    }
}

fn digit_value(c: char, radix: u64) -> (r: Option<u64>)
    requires
        radix <= 36,
    ensures
        match r {
            Some(v) => digit_of(c, radix as int) == Some(v as int),
            None => digit_of(c, radix as int) is None,
        },
        r matches Some(v) ==> v < 36,
{
    let v: u64 = if '0' <= c && c <= '9' {
        c as u64 - 48
    } else if 'a' <= c && c <= 'z' {
        c as u64 - 87
    } else if 'A' <= c && c <= 'Z' {
        c as u64 - 55
    } else {
        radix
    };
    if v < radix {
        Some(v)
    } else {
        None
    }
}

/// The number that `chars[from..]` stands for, when it is a non-empty run of
/// digits and not larger than `max`.
fn digits_from(chars: &Vec<char>, from: usize, radix: u64, max: u64) -> (r: Option<u64>)
    requires
        from <= chars@.len(),
        0 < radix <= 36,
    ensures
        ({
            let d = chars@.skip(from as int);
            r == if d.len() > 0 && all_digits(d, radix as int) && number(d, radix as int) <= max {
                Some(number(d, radix as int) as u64)
            } else {
                None
            }
        }),
{
    let ghost d = chars@.skip(from as int);
    if from == chars.len() {
        return None;
    }
    let mut acc: u64 = 0;
    let mut i: usize = from;
    assert(d.take(0) =~= Seq::<char>::empty());
    while i < chars.len()
        invariant
            from <= i <= chars@.len(),
            d == chars@.skip(from as int),
            0 < radix <= 36,
            acc <= max,
            acc == number(d.take(i - from), radix as int),
            forall|j: int| 0 <= j < i - from ==> (#[trigger] digit_of(d[j], radix as int)) is Some,
        decreases chars.len() - i,
    {
        let ghost n = i - from;
        assert(d[n] == chars@[i as int]);
        match digit_value(chars[i], radix) {
            None => {
                assert(digit_of(d[n], radix as int) is None);
                return None;
            },
            Some(v) => {
                assert(acc as u128 * radix as u128 <= 0xffff_ffff_ffff_ffff * 36) by (nonlinear_arith)
                    requires
                        acc <= 0xffff_ffff_ffff_ffff,
                        radix <= 36,
                ;
                let wide: u128 = acc as u128 * radix as u128 + v as u128;
                assert(d.take(n + 1).drop_last() =~= d.take(n));
                assert(d.take(n + 1).last() == d[n]);
                assert(wide == number(d.take(n + 1), radix as int));
                if wide > max as u128 {
                    proof {
                        if all_digits(d, radix as int) {
                            lemma_number_grows(d, n + 1, radix as int);
                        }
                    }
                    return None;
                }
                acc = wide as u64;
                i = i + 1;
            },
        }
    }
    assert(d.take(i - from) =~= d);
    Some(acc)
}

/// Parse an unsigned number.
pub fn parse_unsigned(s: &str, radix: u64, max: u64) -> (r: Option<u64>)
    requires
        0 < radix <= 36,
    ensures
        match r {
            Some(v) => unsigned(s@, radix as int, max as int) == Some(v as int),
            None => unsigned(s@, radix as int, max as int) is None,
        },
{
    let chars = chars_of(s);
    if chars.len() > 0 && chars[0] == '+' {
        let r = digits_from(&chars, 1, radix, max);
        proof {
            if r is Some {
                lemma_number_nonnegative(s@.skip(1), radix as int);
            }
        }
        r
    } else {
        assert(s@.skip(0) =~= s@);
        let r = digits_from(&chars, 0, radix, max);
        proof {
            if r is Some {
                lemma_number_nonnegative(s@, radix as int);
            }
        }
        r
    }
}

/// Parse an `i32`.
pub fn parse_i32(s: &str) -> (r: Option<i32>)
    ensures
        match r {
            Some(v) => signed(s@, i32::MIN as int, i32::MAX as int) == Some(v as int),
            None => signed(s@, i32::MIN as int, i32::MAX as int) is None,
        },
{
    let chars = chars_of(s);
    if chars.len() > 0 && chars[0] == '-' {
        match digits_from(&chars, 1, 10, 2147483648) {
            Some(v) => {
                proof {
                    lemma_number_nonnegative(s@.skip(1), 10);
                }
                Some((-(v as i64)) as i32)
            },
            None => None,
        }
    } else {
        match parse_unsigned(s, 10, 2147483647) {
            Some(v) => Some(v as i32),
            None => None,
        }
    }
}

// ----------------------------------------------------------------- searching
/// Is `pat` at the front of the text?
pub open spec fn starts(s: Seq<char>, pat: Seq<char>) -> bool {
    pat.len() <= s.len() && s.take(pat.len() as int) == pat
}

/// Does `pat` stand in `chars` at index `at`?
fn stands_at(chars: &Vec<char>, at: usize, pat: &Vec<char>) -> (r: bool)
    requires
        at <= chars@.len(),
    ensures
        r == starts(chars@.skip(at as int), pat@),
{
    let ghost rest = chars@.skip(at as int);
    if pat.len() > chars.len() - at {
        return false;
    }
    for i in 0..pat.len()
        invariant
            at <= chars@.len(),
            rest == chars@.skip(at as int),
            pat@.len() <= rest.len(),
            forall|j: int| 0 <= j < i ==> rest[j] == pat@[j],
    {
        assert(rest[i as int] == chars@[at + i]);
        assert(at + i < chars.len());
        if chars[at + i] != pat[i] {
            assert(rest.take(pat@.len() as int)[i as int] != pat@[i as int]);
            return false;
        }
    }
    assert(rest.take(pat@.len() as int) =~= pat@);
    true
}

/// Does the text start with `pat`?
pub fn starts_with(s: &str, pat: &str) -> (r: bool)
    ensures
        r == starts(s@, pat@),
{
    let chars = chars_of(s);
    let want = chars_of(pat);
    assert(s@.skip(0) =~= s@);
    stands_at(&chars, 0, &want)
}

/// The text after the prefix `pat`, when it starts with it.
pub fn strip_prefix(s: &str, pat: &str) -> (r: Option<String>)
    ensures
        match r {
            Some(rest) => starts(s@, pat@) && rest@ == s@.skip(pat@.len() as int),
            None => !starts(s@, pat@),
        },
{
    let chars = chars_of(s);
    let want = chars_of(pat);
    assert(s@.skip(0) =~= s@);
    if stands_at(&chars, 0, &want) {
        let rest = slice_text(&chars, want.len(), chars.len());
        assert(rest@ =~= s@.skip(pat@.len() as int));
        Some(rest)
    } else {
        None
    }
}

/// Every occurrence of `pat`, from the left, replaced by `by`.
pub open spec fn replaced(s: Seq<char>, pat: Seq<char>, by: Seq<char>) -> Seq<char>
    decreases s.len(),
{
    if s.len() == 0 || pat.len() == 0 {
        s
    } else if starts(s, pat) {
        by + replaced(s.skip(pat.len() as int), pat, by)
    } else {
        seq![s[0]] + replaced(s.skip(1), pat, by)
    }
}

/// Replace every occurrence of a non-empty `pat` by `by`.
pub fn replace(s: &str, pat: &str, by: &str) -> (out: String)
    requires
        pat@.len() > 0,
    ensures
        out@ == replaced(s@, pat@, by@),
{
    let chars = chars_of(s);
    let want = chars_of(pat);
    let mut out = String::new();
    let mut i: usize = 0;
    assert(s@.skip(0) =~= s@);
    assert(out@ + replaced(s@, pat@, by@) =~= replaced(s@, pat@, by@));
    while i < chars.len()
        invariant
            chars@ == s@,
            want@ == pat@,
            pat@.len() > 0,
            i <= chars@.len(),
            replaced(s@, pat@, by@) == out@ + replaced(s@.skip(i as int), pat@, by@),
        decreases chars.len() - i,
    {
        let ghost rest = s@.skip(i as int);
        let ghost before = out@;
        if stands_at(&chars, i, &want) {
            assert(rest.skip(pat@.len() as int) =~= s@.skip(i + pat@.len()));
            out.append(by);
            i = i + want.len();
            assert(before + (by@ + replaced(s@.skip(i as int), pat@, by@)) =~= out@ + replaced(
                s@.skip(i as int),
                pat@,
                by@,
            ));
        } else {
            assert(rest.skip(1) =~= s@.skip(i + 1));
            assert(rest[0] == s@[i as int]);
            out.push(chars[i]);
            i = i + 1;
            assert(before + (seq![rest[0]] + replaced(s@.skip(i as int), pat@, by@)) =~= out@
                + replaced(s@.skip(i as int), pat@, by@));
        }
    }
    assert(s@.skip(i as int).len() == 0);
    assert(out@ + replaced(s@.skip(i as int), pat@, by@) =~= out@);
    out
}

/// The index of the last `c`, or -1 when there is none.
pub open spec fn last_index(s: Seq<char>, c: char) -> int
    decreases s.len(),
{
    if s.len() == 0 {
        -1
    } else if s.last() == c {
        s.len() - 1
    } else {
        last_index(s.drop_last(), c)
    }
}

/// The text after the last `c`, when there is one.
pub open spec fn after_last(s: Seq<char>, c: char) -> Option<Seq<char>> {
    if last_index(s, c) >= 0 {
        Some(s.skip(last_index(s, c) + 1))
    } else {
        None
    }
}

/// The text after the last `c`, when there is one.
pub fn text_after_last(s: &str, c: char) -> (r: Option<String>)
    ensures
        match r {
            Some(t) => after_last(s@, c) == Some(t@),
            None => after_last(s@, c) is None,
        },
{
    let chars = chars_of(s);
    let mut end: usize = chars.len();
    assert(s@.take(end as int) =~= s@);
    while end > 0
        invariant
            chars@ == s@,
            end <= chars@.len(),
            last_index(s@, c) == last_index(s@.take(end as int), c),
        decreases end,
    {
        assert(s@.take(end as int).last() == s@[end - 1]);
        assert(s@.take(end as int).drop_last() =~= s@.take(end - 1));
        if chars[end - 1] == c {
            let rest = slice_text(&chars, end, chars.len());
            assert(rest@ =~= s@.skip(end as int));
            return Some(rest);
        }
        end = end - 1;
    }
    None
}

// ---------------------------------------------------------------- round trips
/// A number is read back from its digits.
pub proof fn lemma_decimal_reads_back(n: nat)
    ensures
        text::decimal(n).len() > 0,
        all_digits(text::decimal(n), 10),
        number(text::decimal(n), 10) == n,
        text::decimal(n)[0] != '+' && text::decimal(n)[0] != '-',
        forall|i: int|
            0 <= i < text::decimal(n).len() ==> !text::white(#[trigger] text::decimal(n)[i]),
    decreases n,
{
    let s = text::decimal(n);
    if n >= 10 {
        let head = text::decimal(n / 10);
        lemma_decimal_reads_back(n / 10);
        let d = (n % 10) as int;
        assert(digit_of(text::digit(d), 10) == Some(d));
        assert(s =~= head.push(text::digit(d)));
        assert(s.drop_last() =~= head);
        assert forall|i: int| 0 <= i < s.len() implies !text::white(#[trigger] s[i]) by {
            if i < head.len() {
                assert(s[i] == head[i]);
            }
        }
        assert(all_digits(s, 10)) by {
            assert forall|i: int| 0 <= i < s.len() implies digit_of(#[trigger] s[i], 10) is Some by {
                if i < head.len() {
                    assert(s[i] == head[i]);
                    assert(digit_of(head[i], 10) is Some);
                }
            }
        }
    } else {
        let d = n as int;
        assert(s =~= seq![text::digit(d)]);
        assert(digit_of(text::digit(d), 10) == Some(d));
        assert(s.drop_last() =~= Seq::empty());
        reveal_with_fuel(number, 2);
    }
}

/// A line without white space is what is left of it when its end is trimmed.
pub proof fn lemma_trimmed_line(s: Seq<char>)
    requires
        s.len() > 0,
        forall|i: int| 0 <= i < s.len() ==> !text::white(#[trigger] s[i]),
    ensures
        trimmed(s.push('\n')) == s,
        trimmed(s) == s,
{
    let line = s.push('\n');
    assert(line[0] == s[0]);
    assert(!text::white(s[0]));
    assert(lead(line) == 0 && lead(s) == 0);
    assert(line.skip(0) =~= line);
    assert(s.skip(0) =~= s);
    assert(line.drop_last() =~= s);
    assert(!text::white(s[s.len() - 1]));
    reveal_with_fuel(trimmed_end, 2);
}

/// A newline parts the lines before it from those after it.
pub proof fn lemma_lines_after_newline(a: Seq<char>, b: Seq<char>)
    requires
        a.len() == 0 || a.last() == '\n',
    ensures
        lines(a + b) == lines(a) + lines(b),
    decreases a.len(),
{
    if a.len() == 0 {
        assert(a + b =~= b);
        assert(lines(a) + lines(b) =~= lines(b));
    } else {
        let n = first_index(a, '\n') as int;
        lemma_first_index(a, '\n');
        assert(n < a.len()) by {
            if n >= a.len() {
                assert(a[a.len() - 1] != '\n');
            }
        }
        let s = a + b;
        assert forall|i: int| 0 <= i < n implies s[i] != '\n' by {
            assert(a[i] != '\n');
        }
        lemma_first_index_is(s, '\n', n);
        assert(s.take(n) =~= a.take(n));
        assert(s.skip(n + 1) =~= a.skip(n + 1) + b);
        let rest = a.skip(n + 1);
        assert(rest.len() > 0 ==> rest.last() == a.last());
        lemma_lines_after_newline(rest, b);
        assert(lines(s) =~= lines(a) + lines(b));
    }
}

} // verus!
