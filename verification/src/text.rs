//! Text primitives: characters, number rendering, padding, joining, and how values
//! look as literals.

use vstd::prelude::*;
use vstd::string::*;

verus! {

/// `String::push` appends one character.
pub assume_specification[ String::push ](s: &mut String, c: char)
    ensures
        final(s)@ == old(s)@.push(c),
;

// ---------------------------------------------------------------- characters
/// The characters of a string.
pub fn chars_of(s: &str) -> (out: Vec<char>)
    ensures
        out@ == s@,
{
    let mut out: Vec<char> = Vec::new();
    for c in it: s.chars()
        invariant
            out@ == it.seq().take(it.index()),
            it.seq() == s@,
    {
        out.push(c);
    }
    out
}

/// The string made of `chars[from..to]`.
pub fn slice_text(chars: &Vec<char>, from: usize, to: usize) -> (out: String)
    requires
        from <= to <= chars@.len(),
    ensures
        out@ == chars@.subrange(from as int, to as int),
{
    let mut out = String::new();
    for i in from..to
        invariant
            from <= to <= chars@.len(),
            out@ == chars@.subrange(from as int, i as int),
    {
        out.push(chars[i]);
    }
    out
}

/// Are the two strings the same characters?
pub fn same(a: &str, b: &str) -> (r: bool)
    ensures
        r == (a@ == b@),
{
    let x = chars_of(a);
    let y = chars_of(b);
    if x.len() != y.len() {
        return false;
    }
    for i in 0..x.len()
        invariant
            x@ == a@,
            y@ == b@,
            x.len() == y.len(),
            forall|j: int| 0 <= j < i ==> x@[j] == y@[j],
    {
        if x[i] != y[i] {
            assert(a@[i as int] != b@[i as int]);
            return false;
        }
    }
    assert(a@ =~= b@);
    true
}

/// The views of a list of strings.
pub open spec fn texts(list: Seq<String>) -> Seq<Seq<char>> {
    list.map_values(|s: String| s@)
}

/// Does one of the strings read `wanted`?
pub fn any_same(list: &Vec<String>, wanted: &str) -> (r: bool)
    ensures
        r == texts(list@).contains(wanted@),
{
    for i in 0..list.len()
        invariant
            forall|j: int| 0 <= j < i ==> #[trigger] texts(list@)[j] != wanted@,
    {
        assert(texts(list@)[i as int] == list@[i as int]@);
        if same(list[i].as_str(), wanted) {
            return true;
        }
    }
    false
}

/// Unicode `White_Space`.
pub open spec fn white(c: char) -> bool {
    ||| '\u{9}' <= c <= '\u{d}'
    ||| c == ' '
    ||| c == '\u{85}'
    ||| c == '\u{a0}'
    ||| c == '\u{1680}'
    ||| '\u{2000}' <= c <= '\u{200a}'
    ||| c == '\u{2028}'
    ||| c == '\u{2029}'
    ||| c == '\u{202f}'
    ||| c == '\u{205f}'
    ||| c == '\u{3000}'
}

pub fn is_white(c: char) -> (r: bool)
    ensures
        r == white(c),
{
    ('\u{9}' <= c && c <= '\u{d}') || c == ' ' || c == '\u{85}' || c == '\u{a0}' || c == '\u{1680}'
        || ('\u{2000}' <= c && c <= '\u{200a}') || c == '\u{2028}' || c == '\u{2029}' || c
        == '\u{202f}' || c == '\u{205f}' || c == '\u{3000}'
}

/// Unicode general category `Cc`.
pub open spec fn control(c: char) -> bool {
    c <= '\u{1f}' || '\u{7f}' <= c <= '\u{9f}'
}

pub fn is_control(c: char) -> (r: bool)
    ensures
        r == control(c),
{
    c <= '\u{1f}' || ('\u{7f}' <= c && c <= '\u{9f}')
}

/// ASCII letters and digits.
pub open spec fn ascii_alphanumeric(c: char) -> bool {
    'a' <= c <= 'z' || 'A' <= c <= 'Z' || '0' <= c <= '9'
}

pub fn is_ascii_alphanumeric(c: char) -> (r: bool)
    ensures
        r == ascii_alphanumeric(c),
{
    ('a' <= c && c <= 'z') || ('A' <= c && c <= 'Z') || ('0' <= c && c <= '9')
}

// ----------------------------------------------------------------- rendering
/// The character of a decimal digit.
pub open spec fn digit(d: int) -> char {
    (48 + d) as char
}

/// A natural number in decimal.
pub open spec fn decimal(n: nat) -> Seq<char>
    decreases n,
{
    if n < 10 {
        seq![digit(n as int)]
    } else {
        decimal(n / 10).push(digit((n % 10) as int))
    }
}

/// An integer in decimal, with a leading `-` when negative.
pub open spec fn signed_decimal(n: int) -> Seq<char> {
    if n < 0 {
        "-"@ + decimal((-n) as nat)
    } else {
        decimal(n as nat)
    }
}

fn digit_char(d: u64) -> (c: char)
    requires
        d < 10,
    ensures
        c == digit(d as int),
{
    (48u8 + d as u8) as char
}

/// Append `n` in decimal.
pub fn push_u64(out: &mut String, n: u64)
    ensures
        final(out)@ == old(out)@ + decimal(n as nat),
    decreases n,
{
    if n >= 10 {
        push_u64(out, n / 10);
    }
    out.push(digit_char(n % 10));
}

/// Append `n` in decimal.
pub fn push_i64(out: &mut String, n: i64)
    ensures
        final(out)@ == old(out)@ + signed_decimal(n as int),
{
    if n < 0 {
        out.append("-");
        if n == i64::MIN {
            push_u64(out, 9223372036854775808);
        } else {
            push_u64(out, (-n) as u64);
        }
        assert(final(out)@ =~= old(out)@ + ("-"@ + decimal((-n) as nat)));
    } else {
        push_u64(out, n as u64);
    }
}

/// `n` in decimal.
pub fn u64_text(n: u64) -> (out: String)
    ensures
        out@ == decimal(n as nat),
{
    let mut out = String::new();
    push_u64(&mut out, n);
    out
}

/// `n` copies of a character.
pub open spec fn repeated(c: char, n: int) -> Seq<char> {
    Seq::new(if n < 0 { 0 } else { n as nat }, |i: int| c)
}

/// A natural number in decimal, zero-padded on the left to `width`.
pub open spec fn zero_padded(n: nat, width: int) -> Seq<char> {
    repeated('0', width - decimal(n).len()) + decimal(n)
}

/// Append `n` in decimal, zero-padded to `width`.
pub fn push_zero_padded(out: &mut String, n: u64, width: usize)
    ensures
        final(out)@ == old(out)@ + zero_padded(n as nat, width as int),
{
    let digits = u64_text(n);
    let len = digits.as_str().unicode_len();
    let ghost start = out@;
    let mut have: usize = len;
    while have < width
        invariant
            len == decimal(n as nat).len(),
            len <= have,
            have <= width || have == len,
            out@ == start + repeated('0', have - len),
        decreases width - have,
    {
        out.push('0');
        have = have + 1;
        assert(start + repeated('0', have - len) =~= (start + repeated('0', have - len - 1)).push('0'));
    }
    out.append(digits.as_str());
    assert(final(out)@ =~= start + zero_padded(n as nat, width as int));
}

/// A text padded with spaces on the right to `width` characters.
pub open spec fn padded(s: Seq<char>, width: int) -> Seq<char> {
    s + repeated(' ', width - s.len())
}

/// Append `s`, padded with spaces to `width` characters.
pub fn push_padded(out: &mut String, s: &str, width: usize)
    ensures
        final(out)@ == old(out)@ + padded(s@, width as int),
{
    let len = s.unicode_len();
    let ghost start = out@ + s@;
    out.append(s);
    let mut have: usize = len;
    while have < width
        invariant
            len == s@.len(),
            len <= have,
            have <= width || have == len,
            out@ == start + repeated(' ', have - len),
        decreases width - have,
    {
        out.push(' ');
        have = have + 1;
        assert(start + repeated(' ', have - len) =~= (start + repeated(' ', have - len - 1)).push(' '));
    }
    assert(final(out)@ =~= old(out)@ + padded(s@, width as int));
}

/// The texts with `sep` between each two of them.
pub open spec fn joined(parts: Seq<Seq<char>>, sep: Seq<char>) -> Seq<char>
    decreases parts.len(),
{
    if parts.len() == 0 {
        seq![]
    } else if parts.len() == 1 {
        parts[0]
    } else {
        joined(parts.drop_last(), sep) + sep + parts.last()
    }
}

/// Join texts with a separator.
pub fn join(parts: &Vec<String>, sep: &str) -> (out: String)
    ensures
        out@ == joined(texts(parts@), sep@),
{
    let mut out = String::new();
    for i in 0..parts.len()
        invariant
            out@ == joined(texts(parts@).take(i as int), sep@),
    {
        let ghost all = texts(parts@);
        assert(all.take(i + 1).drop_last() =~= all.take(i as int));
        assert(all[i as int] == parts@[i as int]@);
        if i > 0 {
            out.append(sep);
        }
        out.append(parts[i].as_str());
    }
    assert(texts(parts@).take(parts@.len() as int) =~= texts(parts@));
    out
}

// ------------------------------------------------------------------- optional
/// A borrowed text that may be absent, as plain values.
pub open spec fn opt_str(s: Option<&str>) -> Option<Seq<char>> {
    match s {
        Some(s) => Some(s@),
        None => None,
    }
}

/// A text that may be absent, as plain values.
pub open spec fn opt_string(s: Option<String>) -> Option<Seq<char>> {
    match s {
        Some(s) => Some(s@),
        None => None,
    }
}

/// Borrow a text that may be absent.
pub fn borrowed(s: &Option<String>) -> (r: Option<&str>)
    ensures
        opt_str(r) == opt_string(*s),
{
    match s {
        Some(s) => Some(s.as_str()),
        None => None,
    }
}

/// Copy a text that may be absent.
pub fn copied(s: &Option<String>) -> (r: Option<String>)
    ensures
        opt_string(r) == opt_string(*s),
{
    match s {
        Some(s) => Some(s.clone()),
        None => None,
    }
}

// --------------------------------------------------------------------- debug
/// A string as a Rust literal.
pub uninterp spec fn debug_str(s: Seq<char>) -> Seq<char>;

/// A character as a Rust literal.
pub uninterp spec fn debug_char(c: char) -> Seq<char>;

/// `str`'s `Debug`: the string between double quotes, escaped as a Rust
/// literal. Printable ASCII other than `"` and `\` stands for itself; how the
/// rest is escaped is left to the name.
#[verifier::external_body]
pub(crate) fn debug_of(s: &str) -> (out: String)
    ensures
        out@ == debug_str(s@),
        (forall|i: int|
            #![trigger s@[i]]
            0 <= i < s@.len() ==> ' ' <= s@[i] <= '~' && s@[i] != '"' && s@[i] != '\\')
            ==> out@ == seq!['"'] + s@ + seq!['"'],
{
    format!("{s:?}")
}

/// `char`'s `Debug`: the character between single quotes, escaped as a Rust
/// literal. Printable ASCII other than `'` and `\` stands for itself; how the
/// rest is escaped is left to the name.
#[verifier::external_body]
pub(crate) fn debug_of_char(c: char) -> (out: String)
    ensures
        out@ == debug_char(c),
        ' ' <= c <= '~' && c != '\'' && c != '\\' ==> out@ == seq!['\'', c, '\''],
{
    format!("{c:?}")
}

} // verus!
