//! What holds of characters, numbers and words as text.

use vstd::prelude::*;

use crate::scan;
use crate::text;
use crate::util;

verus! {

// ----------------------------------------------------------------- characters
/// White space is what Unicode calls so.
pub proof fn law_white_space_is_that_of_unicode(c: char)
    ensures
        text::white(c) <==> {
            let n = c as int;
            ||| 9 <= n <= 13
            ||| n == 32 || n == 133 || n == 160 || n == 5760
            ||| 8192 <= n <= 8202
            ||| n == 8232 || n == 8233 || n == 8239 || n == 8287 || n == 12288
        },
{
}

/// Control characters are the 65 that Unicode calls so.
pub proof fn law_control_characters_are_those_of_unicode(c: char)
    ensures
        text::control(c) <==> (c as int) < 32 || 127 <= (c as int) < 160,
{
}

/// Letters and digits are those of ASCII, and no others.
pub proof fn law_letters_and_digits_are_those_of_ascii(c: char)
    ensures
        text::ascii_alphanumeric(c) <==> 48 <= (c as int) <= 57 || 65 <= (c as int) <= 90 || 97
            <= (c as int) <= 122,
{
}

// -------------------------------------------------------------------- numbers
/// The last character of a number is its last digit, and what stands before it is
/// the number of its tens; there is a single character below ten.
pub proof fn law_numbers_are_written_digit_by_digit(n: nat)
    ensures
        text::decimal(n).len() >= 1,
        text::decimal(n)[text::decimal(n).len() - 1] as int == 48 + n % 10,
        n < 10 ==> text::decimal(n).len() == 1,
        n >= 10 ==> text::decimal(n).take(text::decimal(n).len() - 1) == text::decimal(n / 10),
{
    let s = text::decimal(n);
    if n >= 10 {
        assert(s.take(s.len() - 1) =~= text::decimal(n / 10));
    }
    assert(text::digit((n % 10) as int) as int == 48 + n % 10);
}

/// A number is read back from its digits, so different numbers are written
/// differently.
pub proof fn law_numbers_are_read_back(n: nat, max: int)
    ensures
        n <= max ==> scan::unsigned(text::decimal(n), 10, max) == Some(n as int),
        n > max ==> scan::unsigned(text::decimal(n), 10, max) is None,
        n <= max ==> scan::signed(text::signed_decimal(n as int), -max, max) == Some(n as int),
        n <= max ==> scan::signed(text::signed_decimal(-n), -max, max) == Some(-n),
{
    scan::lemma_decimal_reads_back(n);
    let s = text::signed_decimal(-n);
    reveal_strlit("-");
    if n > 0 {
        assert(s[0] == '-');
        assert(s.skip(1) =~= text::decimal(n));
    }
}

/// A negative number is its magnitude behind a minus sign.
pub proof fn law_negative_numbers_have_a_sign(n: int)
    ensures
        n >= 0 ==> text::signed_decimal(n) == text::decimal(n as nat),
        n < 0 ==> text::signed_decimal(n).len() == text::decimal((-n) as nat).len() + 1,
        n < 0 ==> text::signed_decimal(n)[0] == '-',
        n < 0 ==> text::signed_decimal(n).skip(1) == text::decimal((-n) as nat),
{
    reveal_strlit("-");
    if n < 0 {
        assert(text::signed_decimal(n).skip(1) =~= text::decimal((-n) as nat));
    }
}

/// A number that is padded stands at the end, with zeros before it and as many of
/// them as are missing.
pub proof fn law_padded_numbers_have_zeros_before_them(n: nat, width: int, i: int)
    ensures
        ({
            let s = text::zero_padded(n, width);
            let digits = text::decimal(n);
            &&& s.len() == if digits.len() < width {
                width
            } else {
                digits.len() as int
            }
            &&& s.skip(s.len() - digits.len()) == digits
            &&& 0 <= i < s.len() - digits.len() ==> s[i] == '0'
        }),
{
    let s = text::zero_padded(n, width);
    let digits = text::decimal(n);
    assert(s.skip(s.len() - digits.len()) =~= digits);
}

/// A text that is padded stands at the beginning, with spaces after it and as many
/// of them as are missing.
pub proof fn law_padded_texts_have_spaces_after_them(t: Seq<char>, width: int, i: int)
    ensures
        ({
            let s = text::padded(t, width);
            &&& s.len() == if t.len() < width {
                width
            } else {
                t.len() as int
            }
            &&& s.take(t.len() as int) == t
            &&& t.len() <= i < s.len() ==> s[i] == ' '
        }),
{
    assert(text::padded(t, width).take(t.len() as int) =~= t);
}

/// Joined texts stand one after the other with the separator between each two.
pub proof fn law_joined_texts_have_separators_between_them(
    parts: Seq<Seq<char>>,
    one: Seq<char>,
    sep: Seq<char>,
)
    ensures
        text::joined(Seq::empty(), sep).len() == 0,
        text::joined(seq![one], sep) == one,
        parts.len() > 0 ==> text::joined(parts.push(one), sep) == text::joined(parts, sep) + sep
            + one,
{
    assert(parts.push(one).drop_last() =~= parts);
}

/// The views of a list of texts are the texts, one by one.
pub proof fn law_texts_are_viewed_one_by_one(list: Seq<String>, i: int)
    ensures
        text::texts(list).len() == list.len(),
        0 <= i < list.len() ==> text::texts(list)[i] == list[i]@,
{
}

/// A text that may be absent is viewed as itself or as absent.
pub proof fn law_absent_texts_stay_absent(a: Option<String>, b: Option<&str>)
    ensures
        text::opt_string(a) is Some <==> a is Some,
        a matches Some(s) ==> text::opt_string(a) == Some(s@),
        text::opt_str(b) is Some <==> b is Some,
        b matches Some(s) ==> text::opt_str(b) == Some(s@),
{
}

// ------------------------------------------------------------------ durations
/// A duration of less than a second is told in milliseconds, one of less than a
/// minute in seconds, one of less than an hour in minutes and seconds, and any
/// longer one in hours and two digits of minutes. What is negative counts as none.
pub proof fn law_durations_are_told_in_their_largest_units(h: nat, m: nat, s: nat, ms: nat)
    requires
        m < 60,
        s < 60,
        ms < 1000,
    ensures
        ({
            let all = (1000 * (3600 * h + 60 * m + s) + ms) as int;
            &&& h == 0 && m == 0 && s == 0 ==> util::duration(all) == text::decimal(ms) + "ms"@
            &&& h == 0 && m == 0 && s > 0 ==> util::duration(all) == text::decimal(s) + "s"@
            &&& h == 0 && m > 0 ==> util::duration(all) == text::decimal(m) + "m"@
                + text::decimal(s) + "s"@
            &&& h > 0 ==> util::duration(all) == text::decimal(h) + "h"@ + text::zero_padded(m, 2)
                + "m"@
        }),
        ms > 0 ==> util::duration(-ms) == text::decimal(0) + "ms"@,
{
    let all = (1000 * (3600 * h + 60 * m + s) + ms) as int;
    let total = (3600 * h + 60 * m + s) as int;
    assert(all / 1000 == total);
    assert(total / 3600 == h);
    assert(total % 3600 == 60 * m + s);
    assert((60 * m + s) / 60 == m);
    assert(total % 60 == s);
}

// --------------------------------------------------------------------- hashes
/// The hash is FNV-1a of 64 bits: it begins with the offset basis, and each byte
/// is mixed in and multiplied by the prime.
pub proof fn law_the_hash_is_fnv1a(bytes: Seq<u8>, byte: u8)
    ensures
        util::fnv(Seq::empty()) == 0xcbf29ce484222325,
        util::fnv(bytes.push(byte)) as int == ((util::fnv(bytes) ^ (byte as u64)) * 0x100000001b3)
            % 0x10000000000000000,
{
    assert(bytes.push(byte).drop_last() =~= bytes);
}

/// Hexadecimal digits are written from the highest to the lowest, in lower case,
/// and as many as asked for.
pub proof fn law_hexadecimal_digits_are_in_lower_case(n: nat, width: nat)
    ensures
        util::hex(n, width).len() == width,
        width > 0 ==> util::hex(n, width).take(width - 1) == util::hex(n / 16, (width - 1) as nat),
        width > 0 && n % 16 < 10 ==> util::hex(n, width)[width - 1] as int == 48 + n % 16,
        width > 0 && n % 16 >= 10 ==> util::hex(n, width)[width - 1] as int == 87 + n % 16,
    decreases width,
{
    if width > 0 {
        law_hexadecimal_digits_are_in_lower_case(n / 16, (width - 1) as nat);
        assert(util::hex(n, width).take(width - 1) =~= util::hex(n / 16, (width - 1) as nat));
    }
}

// ---------------------------------------------------------------------- words
proof fn lemma_word_len(word: Seq<char>, rest: Seq<char>)
    requires
        forall|i: int| 0 <= i < word.len() ==> !text::white(#[trigger] word[i]),
        rest.len() == 0 || text::white(rest[0]),
    ensures
        scan::word_len(word + rest) == word.len(),
    decreases word.len(),
{
    let s = word + rest;
    if word.len() > 0 {
        assert(s[0] == word[0]);
        assert(!text::white(word[0]));
        assert(s.skip(1) =~= word.skip(1) + rest);
        assert forall|i: int| 0 <= i < word.skip(1).len() implies !text::white(
            #[trigger] word.skip(1)[i],
        ) by {
            assert(!text::white(word[i + 1]));
        }
        lemma_word_len(word.skip(1), rest);
    } else {
        assert(s =~= rest);
    }
}

/// White space parts words and belongs to none: a word before it is the first of
/// them, and the others are those of the rest.
pub proof fn law_words_are_parted_by_white_space(word: Seq<char>, gap: char, rest: Seq<char>)
    requires
        forall|i: int| 0 <= i < word.len() ==> !text::white(#[trigger] word[i]),
        text::white(gap),
    ensures
        word.len() > 0 ==> scan::words(word.push(gap) + rest) == seq![word] + scan::words(rest),
        scan::words(seq![gap] + rest) == scan::words(rest),
        word.len() > 0 ==> scan::words(word) == seq![word],
        scan::words(Seq::empty()) == Seq::<Seq<char>>::empty(),
{
    let blank = seq![gap] + rest;
    assert(blank.skip(1) =~= rest);
    assert(scan::words(blank) == scan::words(rest));
    assert(scan::words(Seq::empty()) == Seq::<Seq<char>>::empty());
    if word.len() > 0 {
        let s = word.push(gap) + rest;
        assert(!text::white(word[0]));
        assert(s =~= word + blank);
        lemma_word_len(word, blank);
        assert(s[0] == word[0]);
        assert(s.take(word.len() as int) =~= word);
        assert(s.skip(word.len() as int) =~= blank);
        lemma_word_len(word, Seq::empty());
        assert(word + Seq::empty() =~= word);
        assert(word.take(word.len() as int) =~= word);
        assert(word.skip(word.len() as int) =~= Seq::<char>::empty());
        assert(scan::words(word) =~= seq![word]);
    }
}

proof fn lemma_lead(s: Seq<char>)
    ensures
        scan::lead(s) <= s.len(),
        forall|i: int| 0 <= i < scan::lead(s) ==> text::white(#[trigger] s[i]),
        scan::lead(s) < s.len() ==> !text::white(s[scan::lead(s) as int]),
    decreases s.len(),
{
    if s.len() > 0 && text::white(s[0]) {
        lemma_lead(s.skip(1));
        assert forall|i: int| 0 <= i < scan::lead(s) implies text::white(#[trigger] s[i]) by {
            if i > 0 {
                assert(s.skip(1)[i - 1] == s[i]);
            }
        }
    }
}

proof fn lemma_trimmed_end(s: Seq<char>)
    ensures
        ({
            let t = scan::trimmed_end(s);
            &&& t.len() <= s.len()
            &&& t == s.take(t.len() as int)
            &&& t.len() > 0 ==> !text::white(t[t.len() - 1])
            &&& forall|i: int| t.len() <= i < s.len() ==> text::white(#[trigger] s[i])
        }),
    decreases s.len(),
{
    let t = scan::trimmed_end(s);
    if s.len() == 0 || !text::white(s.last()) {
        assert(s.take(s.len() as int) =~= s);
    } else {
        lemma_trimmed_end(s.drop_last());
        assert(s.take(t.len() as int) =~= s.drop_last().take(t.len() as int));
        assert forall|i: int| t.len() <= i < s.len() implies text::white(#[trigger] s[i]) by {
            if i < s.len() - 1 {
                assert(s.drop_last()[i] == s[i]);
            }
        }
    }
}

/// Trimming takes away the white space at both ends and nothing else.
pub proof fn law_trimming_takes_white_space_only(s: Seq<char>)
    ensures
        ({
            let t = scan::trimmed(s);
            let before = scan::lead(s) as int;
            &&& before + t.len() <= s.len()
            &&& t == s.subrange(before, before + t.len())
            &&& t.len() > 0 ==> !text::white(t[0]) && !text::white(t[t.len() - 1])
            &&& forall|i: int|
                0 <= i < s.len() && !(before <= i < before + t.len()) ==> text::white(
                    #[trigger] s[i],
                )
        }),
{
    let before = scan::lead(s) as int;
    let rest = s.skip(before);
    let t = scan::trimmed(s);
    lemma_lead(s);
    lemma_trimmed_end(rest);
    assert(t =~= s.subrange(before, before + t.len()));
    if t.len() > 0 {
        assert(t[0] == s[before]);
    }
    assert forall|i: int|
        0 <= i < s.len() && !(before <= i < before + t.len()) implies text::white(
        #[trigger] s[i],
    ) by {
        if i >= before {
            assert(rest[i - before] == s[i]);
        }
    }
}

/// A text is blank when it is nothing but white space.
pub proof fn law_blank_texts_hold_no_word(s: Seq<char>)
    ensures
        scan::blank(s) <==> scan::trimmed(s).len() == 0,
{
    law_trimming_takes_white_space_only(s);
    let before = scan::lead(s) as int;
    let t = scan::trimmed(s);
    if scan::blank(s) && t.len() > 0 {
        assert(t[0] == s[before]);
        assert(text::white(s[before]));
    }
    if t.len() == 0 {
        assert forall|i: int| 0 <= i < s.len() implies text::white(#[trigger] s[i]) by {}
    }
}

/// A text is cut into lines at its newlines and nowhere else; a carriage return
/// before a newline belongs to it.
pub proof fn law_lines_of_text_are_cut_at_newlines(line: Seq<char>, rest: Seq<char>)
    requires
        !line.contains('\n'),
    ensures
        scan::lines(line.push('\n') + rest) == seq![
            if line.len() > 0 && line[line.len() - 1] == '\r' {
                line.take(line.len() - 1)
            } else {
                line
            },
        ] + scan::lines(rest),
        line.len() > 0 ==> scan::lines(line) == seq![line],
        scan::lines(Seq::empty()) == Seq::<Seq<char>>::empty(),
{
    let s = line.push('\n') + rest;
    let n = line.len() as int;
    assert forall|i: int| 0 <= i < n implies s[i] != '\n' by {
        assert(line.contains(line[i]));
        assert(s[i] == line[i]);
    }
    scan::lemma_first_index_is(s, '\n', n);
    assert(s.take(n) =~= line);
    assert(s.skip(n + 1) =~= rest);
    if line.len() > 0 && line[n - 1] == '\r' {
        assert(scan::without_cr(line) =~= line.take(n - 1));
    }
    if line.len() > 0 {
        assert forall|i: int| 0 <= i < n implies line[i] != '\n' by {
            assert(line.contains(line[i]));
        }
        scan::lemma_first_index_is(line, '\n', n);
    }
}

/// A digit stands for its value, in either case of a letter, as long as that is
/// below the radix.
pub proof fn law_digits_stand_for_their_values(c: char, radix: int)
    requires
        2 <= radix <= 36,
    ensures
        ({
            let n = c as int;
            let value = if 48 <= n <= 57 {
                n - 48
            } else if 65 <= n <= 90 {
                n - 55
            } else if 97 <= n <= 122 {
                n - 87
            } else {
                36
            };
            &&& value < radix ==> scan::digit_of(c, radix) == Some(value)
            &&& value >= radix ==> scan::digit_of(c, radix) is None
        }),
{
}

/// A text is a run of digits when each of its characters is one.
pub proof fn law_runs_of_digits_hold_digits_only(s: Seq<char>, c: char, radix: int)
    ensures
        scan::all_digits(Seq::empty(), radix),
        scan::all_digits(s.push(c), radix) <==> scan::all_digits(s, radix) && scan::digit_of(
            c,
            radix,
        ) is Some,
{
    let t = s.push(c);
    assert(t[s.len() as int] == c);
    if scan::all_digits(t, radix) {
        assert forall|i: int| 0 <= i < s.len() implies scan::digit_of(
            #[trigger] s[i],
            radix,
        ) is Some by {
            assert(t[i] == s[i]);
        }
    }
    if scan::all_digits(s, radix) && scan::digit_of(c, radix) is Some {
        assert forall|i: int| 0 <= i < t.len() implies scan::digit_of(
            #[trigger] t[i],
            radix,
        ) is Some by {
            if i < s.len() {
                assert(t[i] == s[i]);
            }
        }
    }
}

/// A run of digits stands for the number of all but its last, times the radix, and
/// its last.
pub proof fn law_digits_count_by_their_place(s: Seq<char>, c: char, radix: int)
    requires
        scan::digit_of(c, radix) is Some,
    ensures
        scan::number(Seq::empty(), radix) == 0,
        scan::number(s.push(c), radix) == scan::number(s, radix) * radix + scan::digit_of(
            c,
            radix,
        )->Some_0,
{
    assert(s.push(c).drop_last() =~= s);
}

/// An unsigned number is one or more digits, perhaps behind a plus sign, and no
/// larger than its type; anything else is none.
pub proof fn law_unsigned_numbers_are_digits(s: Seq<char>, radix: int, max: int)
    ensures
        scan::unsigned(s, radix, max) matches Some(n) ==> n <= max && {
            ||| s.len() > 0 && scan::all_digits(s, radix) && n == scan::number(s, radix)
            ||| s.len() > 1 && s[0] == '+' && scan::all_digits(s.skip(1), radix) && n
                == scan::number(s.skip(1), radix)
        },
        s.len() > 0 && s[0] != '+' && scan::all_digits(s, radix) && scan::number(s, radix) <= max
            ==> scan::unsigned(s, radix, max) == Some(scan::number(s, radix)),
        s.len() > 1 && s[0] == '+' && scan::all_digits(s.skip(1), radix) && scan::number(
            s.skip(1),
            radix,
        ) <= max ==> scan::unsigned(s, radix, max) == Some(scan::number(s.skip(1), radix)),
        s.len() == 0 ==> scan::unsigned(s, radix, max) is None,
{
}

/// A signed number may stand behind a minus sign, and then is no smaller than its
/// type; else it is read as an unsigned one.
pub proof fn law_signed_numbers_may_have_a_sign(s: Seq<char>, min: int, max: int)
    ensures
        s.len() > 0 && s[0] == '-' ==> match scan::signed(s, min, max) {
            Some(n) => s.len() > 1 && scan::all_digits(s.skip(1), 10) && n == -scan::number(
                s.skip(1),
                10,
            ) && n >= min,
            None => !(s.len() > 1 && scan::all_digits(s.skip(1), 10) && -scan::number(
                s.skip(1),
                10,
            ) >= min),
        },
        s.len() == 0 || s[0] != '-' ==> scan::signed(s, min, max) == scan::unsigned(s, 10, max),
{
}

/// A text begins with another when that and something more make it up.
pub proof fn law_texts_begin_with_their_prefixes(pat: Seq<char>, rest: Seq<char>, s: Seq<char>)
    ensures
        scan::starts(pat + rest, pat),
        scan::starts(s, pat) ==> s == pat + s.skip(pat.len() as int),
{
    assert((pat + rest).take(pat.len() as int) =~= pat);
    if scan::starts(s, pat) {
        assert(s =~= pat + s.skip(pat.len() as int));
    }
}

proof fn lemma_last_index(s: Seq<char>, c: char)
    ensures
        -1 <= scan::last_index(s, c) < s.len(),
        scan::last_index(s, c) >= 0 ==> s[scan::last_index(s, c)] == c,
        forall|i: int| scan::last_index(s, c) < i < s.len() ==> s[i] != c,
    decreases s.len(),
{
    if s.len() > 0 && s.last() != c {
        lemma_last_index(s.drop_last(), c);
        assert forall|i: int| scan::last_index(s, c) < i < s.len() implies s[i] != c by {
            if i < s.len() - 1 {
                assert(s.drop_last()[i] == s[i]);
            }
        }
    }
}

/// What stands after the last of a character does not depend on what stands before
/// it, even where the character stands there too.
pub proof fn law_the_last_of_a_character_counts(before: Seq<char>, c: char, rest: Seq<char>)
    requires
        !rest.contains(c),
    ensures
        scan::after_last(before.push(c) + rest, c) == Some(rest),
        scan::after_last(rest, c) is None,
{
    let s = before.push(c) + rest;
    lemma_last_index(s, c);
    let k = scan::last_index(s, c);
    assert(s[before.len() as int] == c);
    assert(k >= before.len());
    assert(k == before.len()) by {
        if k > before.len() {
            assert(s[k] == rest[k - before.len() - 1]);
            assert(rest.contains(c));
        }
    }
    assert(s.skip(k + 1) =~= rest);
    lemma_last_index(rest, c);
    if scan::last_index(rest, c) >= 0 {
        assert(rest.contains(rest[scan::last_index(rest, c)]));
    }
}

/// A text in which another stands is replaced where it stands first, and from
/// there on; a text in which it does not stand is left as it is.
pub proof fn law_replacing_starts_at_the_first_place(
    before: Seq<char>,
    pat: Seq<char>,
    by: Seq<char>,
    rest: Seq<char>,
)
    requires
        pat.len() > 0,
        forall|i: int|
            0 <= i < before.len() ==> !scan::starts(
                #[trigger] (before + pat + rest).skip(i),
                pat,
            ),
    ensures
        scan::replaced(before + pat + rest, pat, by) == before + by + scan::replaced(
            rest,
            pat,
            by,
        ),
    decreases before.len(),
{
    let s = before + pat + rest;
    if before.len() == 0 {
        assert(s.take(pat.len() as int) =~= pat);
        assert(s.skip(pat.len() as int) =~= rest);
        assert(scan::replaced(s, pat, by) =~= before + by + scan::replaced(rest, pat, by));
    } else {
        assert(s.skip(0) =~= s);
        assert(!scan::starts(s.skip(0), pat));
        let front = before.skip(1);
        assert(s.skip(1) =~= front + pat + rest);
        assert forall|i: int| 0 <= i < front.len() implies !scan::starts(
            #[trigger] (front + pat + rest).skip(i),
            pat,
        ) by {
            assert(s.skip(i + 1) =~= (front + pat + rest).skip(i));
            assert(!scan::starts(s.skip(i + 1), pat));
        }
        law_replacing_starts_at_the_first_place(front, pat, by, rest);
        assert(seq![s[0]] + front =~= before);
        assert(scan::replaced(s, pat, by) =~= before + by + scan::replaced(rest, pat, by));
    }
}

/// A text in which another does not stand is left as it is.
pub proof fn law_replacing_leaves_other_text_alone(s: Seq<char>, pat: Seq<char>, by: Seq<char>)
    requires
        pat.len() > 0,
        forall|i: int| 0 <= i < s.len() ==> !scan::starts(#[trigger] s.skip(i), pat),
    ensures
        scan::replaced(s, pat, by) == s,
    decreases s.len(),
{
    if s.len() > 0 {
        assert(s.skip(0) =~= s);
        assert(!scan::starts(s.skip(0), pat));
        let rest = s.skip(1);
        assert forall|i: int| 0 <= i < rest.len() implies !scan::starts(
            #[trigger] rest.skip(i),
            pat,
        ) by {
            assert(s.skip(i + 1) =~= rest.skip(i));
            assert(!scan::starts(s.skip(i + 1), pat));
        }
        law_replacing_leaves_other_text_alone(rest, pat, by);
        assert(seq![s[0]] + rest =~= s);
    }
}

} // verus!
