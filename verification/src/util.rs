//! Small shared helpers: stable hashing and time formatting.

use vstd::prelude::*;
use vstd::string::*;

use crate::text;

verus! {

pub const FNV_OFFSET: u64 = 0xcbf2_9ce4_8422_2325;

pub const FNV_PRIME: u64 = 0x0000_0100_0000_01b3;

/// One step of FNV-1a: fold a byte into the hash.
pub open spec fn fnv_step(hash: u64, byte: u8) -> u64 {
    (((hash ^ (byte as u64)) * FNV_PRIME) % 0x1_0000_0000_0000_0000) as u64
}

/// FNV-1a, 64 bits.
pub open spec fn fnv(bytes: Seq<u8>) -> u64
    decreases bytes.len(),
{
    if bytes.len() == 0 {
        FNV_OFFSET
    } else {
        fnv_step(fnv(bytes.drop_last()), bytes.last())
    }
}

/// FNV-1a 64-bit. Used for the config fingerprint: the fingerprint is persisted
/// in state files, so the hash has to be stable across versions.
pub fn fnv1a64(bytes: &[u8]) -> (hash: u64)
    ensures
        hash == fnv(bytes@),
{
    let mut hash: u64 = FNV_OFFSET;
    for i in 0..bytes.len()
        invariant
            hash == fnv(bytes@.take(i as int)),
    {
        assert(bytes@.take(i + 1).drop_last() =~= bytes@.take(i as int));
        let mixed: u64 = hash ^ (bytes[i] as u64);
        hash = mixed.wrapping_mul(FNV_PRIME);
    }
    assert(bytes@.take(bytes@.len() as int) =~= bytes@);
    hash
}


proof fn lemma_fnv_mul_injective(x: u64, y: u64)
    requires
        (x * FNV_PRIME) % 0x1_0000_0000_0000_0000 == (y * FNV_PRIME) % 0x1_0000_0000_0000_0000,
    ensures
        x == y,
{
    lemma_fnv_unmul(x as int);
    lemma_fnv_unmul(y as int);
}

/// Multiplying by the inverse of the prime modulo 2^64 undoes the
/// multiplication of a step.
proof fn lemma_fnv_unmul(x: int)
    requires
        0 <= x < 0x1_0000_0000_0000_0000,
    ensures
        (((x * FNV_PRIME) % 0x1_0000_0000_0000_0000) * 0xce965057aff6957b) % 0x1_0000_0000_0000_0000 == x,
{
    let m: int = 0x1_0000_0000_0000_0000;
    let p: int = FNV_PRIME as int;
    let q: int = 0xce965057aff6957b;
    let k: int = 0xce9650590f;
    assert(p * q == k * m + 1);
    vstd::arithmetic::div_mod::lemma_mul_mod_noop_left(x * p, q, m);
    assert((x * p) * q == m * (x * k) + x) by (nonlinear_arith)
        requires
            p * q == k * m + 1,
    ;
    vstd::arithmetic::div_mod::lemma_mod_multiples_vanish(x * k, x, m);
    vstd::arithmetic::div_mod::lemma_small_mod(x as nat, m as nat);
}

proof fn lemma_fnv_step_injective(a: u64, b: u64, x: u8, y: u8)
    requires
        a != b && x == y || a == b && x != y,
    ensures
        fnv_step(a, x) != fnv_step(b, y),
{
    let u = a ^ (x as u64);
    let v = b ^ (y as u64);
    assert(u != v) by {
        assert(a != b ==> a ^ (x as u64) != b ^ (x as u64)) by (bit_vector);
        assert(x != y ==> a ^ (x as u64) != a ^ (y as u64)) by (bit_vector);
    }
    if fnv_step(a, x) == fnv_step(b, y) {
        lemma_fnv_mul_injective(u, v);
    }
}

/// Editing a single byte of the hashed data always changes the hash.
pub proof fn law_single_byte_edit_changes_the_hash(before: Seq<u8>, after: Seq<u8>, at: int)
    requires
        before.len() == after.len(),
        0 <= at < before.len(),
        before[at] != after[at],
        forall|i: int| 0 <= i < before.len() && i != at ==> before[i] == after[i],
    ensures
        fnv(before) != fnv(after),
    decreases before.len(),
{
    let a = before.drop_last();
    let b = after.drop_last();
    if at == before.len() - 1 {
        assert(a =~= b);
    } else {
        law_single_byte_edit_changes_the_hash(a, b, at);
    }
    lemma_fnv_step_injective(fnv(a), fnv(b), before.last(), after.last());
}

// ----------------------------------------------------------------- rendering
/// The character of a hexadecimal digit, in lower case.
pub open spec fn hex_digit(d: int) -> char {
    if d < 10 {
        (48 + d) as char
    } else {
        (87 + d) as char
    }
}

/// The lowest `width` hexadecimal digits of a number.
pub open spec fn hex(n: nat, width: nat) -> Seq<char>
    decreases width,
{
    if width == 0 {
        seq![]
    } else {
        hex(n / 16, (width - 1) as nat).push(hex_digit((n % 16) as int))
    }
}

fn hex_char(d: u64) -> (c: char)
    requires
        d < 16,
    ensures
        c == hex_digit(d as int),
{
    if d < 10 {
        (48u8 + d as u8) as char
    } else {
        (87u8 + d as u8) as char
    }
}

/// Append the lowest `width` hexadecimal digits of `n`.
pub fn push_hex(out: &mut String, n: u64, width: usize)
    ensures
        final(out)@ == old(out)@ + hex(n as nat, width as nat),
    decreases width,
{
    if width > 0 {
        push_hex(out, n / 16, width - 1);
        out.push(hex_char(n % 16));
    }
}

/// The number of values that `width` hexadecimal digits tell apart.
pub open spec fn hex_span(width: nat) -> nat
    decreases width,
{
    if width == 0 {
        1
    } else {
        16 * hex_span((width - 1) as nat)
    }
}

/// Hexadecimal digits of one width render different numbers differently.
pub proof fn lemma_hex_injective(a: nat, b: nat, width: nat)
    requires
        a != b,
        a < hex_span(width),
        b < hex_span(width),
    ensures
        hex(a, width) != hex(b, width),
    decreases width,
{
    if width > 0 {
        let w = (width - 1) as nat;
        if a / 16 != b / 16 {
            lemma_hex_injective(a / 16, b / 16, w);
            if hex(a, width) == hex(b, width) {
                assert(hex(a, width).drop_last() =~= hex(a / 16, w));
                assert(hex(b, width).drop_last() =~= hex(b / 16, w));
            }
        } else {
            assert(a % 16 != b % 16);
            assert(hex(a, width).last() == hex_digit((a % 16) as int));
            assert(hex(b, width).last() == hex_digit((b % 16) as int));
        }
    }
}

/// A duration such as `850ms`, `12s`, `2m3s` or `1h02m`.
pub open spec fn duration(ms: int) -> Seq<char> {
    if ms < 1000 {
        text::decimal(if ms < 0 { 0 } else { ms as nat }) + "ms"@
    } else {
        let total = ms / 1000;
        let h = total / 3600;
        let m = (total % 3600) / 60;
        let s = total % 60;
        if h > 0 {
            text::decimal(h as nat) + "h"@ + text::zero_padded(m as nat, 2) + "m"@
        } else if m > 0 {
            text::decimal(m as nat) + "m"@ + text::decimal(s as nat) + "s"@
        } else {
            text::decimal(s as nat) + "s"@
        }
    }
}

/// Human readable duration such as `2m3s`, `1h02m`, `850ms`.
pub fn format_duration_ms(ms: i64) -> (out: String)
    ensures
        out@ == duration(ms as int),
{
    let ms: u64 = if ms < 0 { 0 } else { ms as u64 };
    if ms < 1000 {
        let mut out = text::u64_text(ms);
        out.append("ms");
        return out;
    }
    let total = ms / 1000;
    let h = total / 3600;
    let m = (total % 3600) / 60;
    let s = total % 60;
    if h > 0 {
        let mut out = text::u64_text(h);
        out.append("h");
        text::push_zero_padded(&mut out, m, 2);
        out.append("m");
        out
    } else if m > 0 {
        let mut out = text::u64_text(m);
        out.append("m");
        text::push_u64(&mut out, s);
        out.append("s");
        out
    } else {
        let mut out = text::u64_text(s);
        out.append("s");
        out
    }
}

/// Whole seconds and remaining milliseconds of a Unix time in milliseconds,
/// rounding towards the past.
pub fn split_ms(ms_since_epoch: i64) -> (r: (i64, u64))
    ensures
        r.0 == ms_since_epoch as int / 1000,
        r.1 == ms_since_epoch as int % 1000,
{
    if ms_since_epoch >= 0 {
        (ms_since_epoch / 1000, (ms_since_epoch % 1000) as u64)
    } else {
        let back: i64 = -(ms_since_epoch + 1);
        (-(back / 1000) - 1, 999 - (back % 1000) as u64)
    }
}

/// An ISO-8601 time with milliseconds and numeric offset, such as
/// `2026-09-10T09:35:00.123+0800`, from the calendar fields of its second.
pub fn iso8601(stamp: &str, ms_since_epoch: i64, zone: &str) -> (out: String)
    ensures
        out@ == stamp@ + "."@ + text::zero_padded((ms_since_epoch as int % 1000) as nat, 3) + zone@,
{
    let mut out = stamp.to_string();
    out.append(".");
    text::push_zero_padded(&mut out, split_ms(ms_since_epoch).1, 3);
    out.append(zone);
    out
}

/// The name of the temporary file that an atomic write to `name` goes through.
pub fn temp_name(name: &str, pid: u32) -> (out: String)
    ensures
        out@ == "."@ + name@ + "."@ + text::decimal(pid as nat) + ".tmp"@,
{
    let mut out = ".".to_string();
    out.append(name);
    out.append(".");
    text::push_u64(&mut out, pid as u64);
    out.append(".tmp");
    out
}

} // verus!
