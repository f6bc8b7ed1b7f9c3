//! Identity service helpers: hex and base64 codecs, the UUID layout, and the
//! simplified key material functions (a linear congruential generator,
//! XOR-folding key derivation, challenge signing and the XOR shard split).

use vstd::prelude::*;
use vstd::wrapping::u64_specs::{wrapping_add, wrapping_mul};

use crate::text::{chars_of, string_from, string_push};
use crate::wire::append_bytes;

verus! {

/// Multiplier of the linear congruential generator.
pub const LCG_MUL: u64 = 6364136223846793005;

/// Increment of the random byte generator.
pub const LCG_INC: u64 = 1442695040888963407;

/// 2^64 divided by the golden ratio, used to spread small seeds.
pub const GOLDEN: u64 = 0x9E3779B97F4A7C15;

/// One generator step with the given increment.
pub open spec fn lcg(s: u64, inc: u64) -> u64 {
    wrapping_add(wrapping_mul(s, LCG_MUL), inc)
}

/// `k` generator steps from `s`.
pub open spec fn lcg_iter(s: u64, inc: u64, k: nat) -> u64
    decreases k,
{
    if k == 0 {
        s
    } else {
        lcg(lcg_iter(s, inc, (k - 1) as nat), inc)
    }
}

/// The top byte of a generator state.
pub open spec fn top_byte(s: u64) -> u8 {
    (s / 0x100_0000_0000_0000) as u8
}

fn lcg_exec(s: u64, inc: u64) -> (r: u64)
    ensures
        r == lcg(s, inc),
{
    s.wrapping_mul(LCG_MUL).wrapping_add(inc)
}

// ============================================================================
// Random bytes
// ============================================================================

/// The seed the identity service draws from the wall clock and its PID.
pub open spec fn random_seed(wallclock_ms: u64, pid: u32) -> u64 {
    wallclock_ms ^ ((pid as u64) << 32u64)
}

/// The `len` bytes generated from `seed`: byte `i` is the top byte of the
/// state after `i + 1` steps.
pub open spec fn random_bytes_spec(seed: u64, len: nat) -> Seq<u8> {
    Seq::new(len, |i: int| top_byte(lcg_iter(seed, LCG_INC, (i + 1) as nat)))
}

/// Generate `len` pseudo-random bytes seeded with the wall-clock time and
/// the process ID (which the host reads).
pub fn generate_random_bytes(len: usize, wallclock_ms: u64, pid: u32) -> (bytes: Vec<u8>)
    ensures
        bytes@ == random_bytes_spec(random_seed(wallclock_ms, pid), len as nat),
{
    let seed = wallclock_ms ^ ((pid as u64) << 32u64);
    let mut state = seed;
    let mut bytes: Vec<u8> = Vec::new();
    let mut i: usize = 0;
    while i < len
        invariant
            i <= len,
            seed == random_seed(wallclock_ms, pid),
            state == lcg_iter(seed, LCG_INC, i as nat),
            bytes@ == random_bytes_spec(seed, i as nat),
        decreases len - i,
    {
        state = lcg_exec(state, LCG_INC);
        bytes.push((state / 0x100_0000_0000_0000) as u8);
        i = i + 1;
        assert(bytes@ =~= random_bytes_spec(seed, i as nat));
    }
    bytes
}

// ============================================================================
// Hex
// ============================================================================

/// The lowercase hex digit of a value below 16.
pub open spec fn hex_digit(v: u8) -> char {
    if v < 10 {
        (('0' as u8) + v) as char
    } else {
        (('a' as u8) + (v - 10)) as char
    }
}

/// Two lowercase hex digits per byte.
pub open spec fn hex_string(b: Seq<u8>) -> Seq<char>
    decreases b.len(),
{
    if b.len() == 0 {
        seq![]
    } else {
        hex_string(b.drop_last()) + seq![hex_digit(b.last() / 16), hex_digit(b.last() % 16)]
    }
}

fn hex_digit_exec(v: u8) -> (c: char)
    requires
        v < 16,
    ensures
        c == hex_digit(v),
{
    if v < 10 {
        (('0' as u8) + v) as char
    } else {
        (('a' as u8) + (v - 10)) as char
    }
}

/// Convert bytes to a lowercase hex string.
pub fn bytes_to_hex(bytes: &[u8]) -> (s: String)
    ensures
        s@ == hex_string(bytes@),
{
    let mut s = String::new();
    let mut i: usize = 0;
    while i < bytes.len()
        invariant
            i <= bytes@.len(),
            s@ == hex_string(bytes@.take(i as int)),
        decreases bytes@.len() - i,
    {
        let b = bytes[i];
        string_push(&mut s, hex_digit_exec(b / 16));
        string_push(&mut s, hex_digit_exec(b % 16));
        assert(bytes@.take(i + 1).drop_last() =~= bytes@.take(i as int));
        i = i + 1;
        assert(s@ =~= hex_string(bytes@.take(i as int)));
    }
    assert(bytes@.take(bytes@.len() as int) =~= bytes@);
    s
}

/// The value of an ASCII hex digit (either case).
pub open spec fn hex_value(b: u8) -> Option<u8> {
    if 0x30 <= b <= 0x39 {
        Some((b - 0x30) as u8)
    } else if 0x61 <= b <= 0x66 {
        Some((b - 0x61 + 10) as u8)
    } else if 0x41 <= b <= 0x46 {
        Some((b - 0x41 + 10) as u8)
    } else {
        None
    }
}

/// The byte a two-byte group denotes in base 16: both bytes must be ASCII
/// hex digits.
pub open spec fn hex_pair(b0: u8, b1: u8) -> Option<u8> {
    match (hex_value(b0), hex_value(b1)) {
        (Some(h), Some(l)) => Some((h * 16 + l) as u8),
        _ => None,
    }
}

/// The byte that group `k` (bytes `2k` and `2k + 1`) of `b` denotes.
pub open spec fn hex_group(b: Seq<u8>, k: int) -> Option<u8> {
    hex_pair(b[2 * k], b[2 * k + 1])
}

/// The bytes that UTF-8 text `b` denotes as hex, two characters per byte.
pub open spec fn hex_to_bytes_spec(b: Seq<u8>) -> Result<Seq<u8>, &'static str> {
    if b.len() % 2 != 0 {
        Err("Invalid hex length")
    } else if forall|k: int| 0 <= k < b.len() / 2 ==> (#[trigger] hex_group(b, k))
        is Some {
        Ok(Seq::new((b.len() / 2) as nat, |k: int| hex_group(b, k)->Some_0))
    } else {
        Err("Invalid hex")
    }
}

fn hex_value_exec(b: u8) -> (r: Option<u8>)
    ensures
        r == hex_value(b),
{
    if 0x30 <= b && b <= 0x39 {
        Some(b - 0x30)
    } else if 0x61 <= b && b <= 0x66 {
        Some(b - 0x61 + 10)
    } else if 0x41 <= b && b <= 0x46 {
        Some(b - 0x41 + 10)
    } else {
        None
    }
}

fn hex_pair_exec(b0: u8, b1: u8) -> (r: Option<u8>)
    ensures
        r == hex_pair(b0, b1),
{
    match (hex_value_exec(b0), hex_value_exec(b1)) {
        (Some(h), Some(l)) => Some(h * 16 + l),
        _ => None,
    }
}

/// Convert a hex string (two digits per byte, either case) to bytes: an
/// odd number of bytes is an invalid length, and any byte that is not an
/// ASCII hex digit makes the text invalid hex.
pub fn hex_to_bytes(hex: &str) -> (r: Result<Vec<u8>, &'static str>)
    ensures
        match (r, hex_to_bytes_spec(vstd::utf8::encode_utf8(hex@))) {
            (Ok(v), Ok(s)) => v@ == s,
            (Err(e1), Err(e2)) => e1 == e2,
            _ => false,
        },
{
    let b = hex.as_bytes();
    assert(b@ == vstd::utf8::encode_utf8(hex@));
    if b.len() % 2 != 0 {
        return Err("Invalid hex length");
    }
    let n = b.len() / 2;
    let mut out: Vec<u8> = Vec::new();
    let mut k: usize = 0;
    while k < n
        invariant
            b@ == vstd::utf8::encode_utf8(hex@),
            n == b@.len() / 2,
            b@.len() % 2 == 0,
            b@.len() <= usize::MAX,
            k <= n,
            out@.len() == k,
            forall|j: int| 0 <= j < k ==> (#[trigger] hex_group(b@, j)) is Some,
            forall|j: int| 0 <= j < k ==> out@[j] == hex_group(b@, j)->Some_0,
        decreases n - k,
    {
        assert(2 * k + 1 < b@.len());
        let i: usize = 2 * k;
        match hex_pair_exec(b[i], b[i + 1]) {
            Some(v) => out.push(v),
            None => {
                assert(hex_group(b@, k as int) is None);
                return Err("Invalid hex");
            },
        }
        k = k + 1;
    }
    assert(out@ =~= Seq::new(n as nat, |j: int| hex_group(b@, j)->Some_0));
    Ok(out)
}

/// Hex decoding reads back what hex encoding wrote.
pub proof fn lemma_hex_roundtrip(bytes: Seq<u8>)
    ensures
        hex_to_bytes_spec(vstd::utf8::encode_utf8(hex_string(bytes))) == Ok::<
            Seq<u8>,
            &'static str,
        >(bytes),
{
    let h = hex_string(bytes);
    lemma_hex_string_ascii(bytes);
    let e = vstd::utf8::encode_utf8(h);
    vstd::utf8::is_ascii_chars_encode_utf8(h);
    assert(e.len() == 2 * bytes.len());
    assert forall|k: int| 0 <= k < bytes.len() implies #[trigger] hex_group(e, k) == Some(bytes[k]) by {
        lemma_hex_string_at(bytes, k);
        let x = bytes[k];
        assert(e[2 * k] == h[2 * k] as u8);
        assert(e[2 * k + 1] == h[2 * k + 1] as u8);
        assert(hex_value(hex_digit(x / 16) as u8) == Some(x / 16));
        assert(hex_value(hex_digit(x % 16) as u8) == Some(x % 16));
        assert((x / 16) * 16 + x % 16 == x);
    }
    assert(e.len() / 2 == bytes.len());
    assert(Seq::new((e.len() / 2) as nat, |k: int| hex_group(e, k)->Some_0) =~= bytes);
}

/// Every character of a hex string is an ASCII hex digit.
proof fn lemma_hex_string_ascii(bytes: Seq<u8>)
    ensures
        hex_string(bytes).len() == 2 * bytes.len(),
        vstd::utf8::is_ascii_chars(hex_string(bytes)),
    decreases bytes.len(),
{
    if bytes.len() > 0 {
        lemma_hex_string_ascii(bytes.drop_last());
        let h = hex_string(bytes);
        let p = hex_string(bytes.drop_last());
        assert forall|i: int| 0 <= i < h.len() implies '\0' <= #[trigger] h[i] <= '\u{7f}' by {
            if i < p.len() {
                assert(h[i] == p[i]);
            }
        }
    }
}

/// The two characters of byte `k` in a hex string.
proof fn lemma_hex_string_at(bytes: Seq<u8>, k: int)
    requires
        0 <= k < bytes.len(),
    ensures
        hex_string(bytes)[2 * k] == hex_digit(bytes[k] / 16),
        hex_string(bytes)[2 * k + 1] == hex_digit(bytes[k] % 16),
    decreases bytes.len(),
{
    lemma_hex_string_ascii(bytes.drop_last());
    if k < bytes.len() - 1 {
        lemma_hex_string_at(bytes.drop_last(), k);
    }
}

// ============================================================================
// UUID
// ============================================================================

/// The 32 lowercase hex digits of a 128-bit value, most significant first.
pub open spec fn hex32(value: u128) -> Seq<char> {
    Seq::new(32, |i: int| hex_digit(((value as nat / pow16((31 - i) as nat)) % 16) as u8))
}

pub open spec fn pow16(k: nat) -> nat
    decreases k,
{
    if k == 0 {
        1
    } else {
        16 * pow16((k - 1) as nat)
    }
}

/// The 8-4-4-4-12 UUID layout of a 128-bit value.
pub open spec fn uuid_string(value: u128) -> Seq<char> {
    let h = hex32(value);
    h.subrange(0, 8) + seq!['-'] + h.subrange(8, 12) + seq!['-'] + h.subrange(12, 16) + seq!['-']
        + h.subrange(16, 20) + seq!['-'] + h.subrange(20, 32)
}

/// Format a u128 as a UUID string (8-4-4-4-12 hex digits with dashes).
pub fn format_uuid(value: u128) -> (s: String)
    ensures
        s@ == uuid_string(value),
{
    let mut digits: Vec<char> = Vec::new();
    let mut i: usize = 0;
    let mut rest = value;
    let mut rev: Vec<char> = Vec::new();
    let ghost h = hex32(value);
    assert(pow16(0) == 1);
    assert(value as nat / 1 == value as nat);
    while i < 32
        invariant
            i <= 32,
            rest == value as nat / pow16(i as nat),
            rev@.len() == i,
            forall|j: int| 0 <= j < i ==> rev@[j] == h[31 - j],
            h == hex32(value),
        decreases 32 - i,
    {
        proof {
            lemma_pow16_div(value, i as nat);
        }
        rev.push(hex_digit_exec((rest % 16) as u8));
        rest = rest / 16;
        i = i + 1;
    }
    let mut k: usize = 32;
    while k > 0
        invariant
            k <= 32,
            rev@.len() == 32,
            digits@.len() == 32 - k,
            h == hex32(value),
            forall|j: int| 0 <= j < 32 - k ==> digits@[j] == h[j],
            forall|j: int| 0 <= j < 32 ==> rev@[j] == h[31 - j],
        decreases k,
    {
        k = k - 1;
        digits.push(rev[k]);
    }
    assert(digits@ =~= h);
    let mut s = String::new();
    push_digits(&mut s, &digits, 0, 8);
    string_push(&mut s, '-');
    push_digits(&mut s, &digits, 8, 12);
    string_push(&mut s, '-');
    push_digits(&mut s, &digits, 12, 16);
    string_push(&mut s, '-');
    push_digits(&mut s, &digits, 16, 20);
    string_push(&mut s, '-');
    push_digits(&mut s, &digits, 20, 32);
    assert(s@ =~= uuid_string(value));
    s
}

/// Append `cs[lo..hi]` to `s`.
fn push_digits(s: &mut String, cs: &Vec<char>, lo: usize, hi: usize)
    requires
        lo <= hi <= cs@.len(),
    ensures
        final(s)@ == old(s)@ + cs@.subrange(lo as int, hi as int),
{
    let mut i: usize = lo;
    while i < hi
        invariant
            lo <= i <= hi <= cs@.len(),
            s@ == old(s)@ + cs@.subrange(lo as int, i as int),
        decreases hi - i,
    {
        string_push(s, cs[i]);
        i = i + 1;
        assert(s@ =~= old(s)@ + cs@.subrange(lo as int, i as int));
    }
}

proof fn lemma_pow16_div(value: u128, i: nat)
    requires
        i < 32,
    ensures
        value as nat / pow16(i) / 16 == value as nat / pow16(i + 1),
        pow16(i) > 0,
{
    lemma_pow16_pos(i);
    vstd::arithmetic::div_mod::lemma_div_denominator(value as int, pow16(i) as int, 16);
}

proof fn lemma_pow16_pos(i: nat)
    ensures
        pow16(i) > 0,
    decreases i,
{
    if i > 0 {
        lemma_pow16_pos((i - 1) as nat);
    }
}

// ============================================================================
// Base64
// ============================================================================

/// The text with every trailing '=' removed.
pub open spec fn trim_padding(s: Seq<char>) -> Seq<char>
    decreases s.len(),
{
    if s.len() > 0 && s.last() == '=' {
        trim_padding(s.drop_last())
    } else {
        s
    }
}

/// The value of a character of the standard base64 alphabet.
pub open spec fn b64_value(c: char) -> Option<u8> {
    let x = c as u32;
    if 0x41 <= x <= 0x5A {
        Some((x - 0x41) as u8)
    } else if 0x61 <= x <= 0x7A {
        Some((x - 0x61 + 26) as u8)
    } else if 0x30 <= x <= 0x39 {
        Some((x - 0x30 + 52) as u8)
    } else if x == 0x2B {
        Some(62u8)
    } else if x == 0x2F {
        Some(63u8)
    } else {
        None
    }
}

/// Sextet `k` of `v`, zero past the end.
pub open spec fn sextet(v: Seq<u8>, k: int) -> int {
    if 0 <= k < v.len() {
        v[k] as int
    } else {
        0
    }
}

/// Output byte `j` of decoding sextets `v`: each group of four sextets
/// gives three bytes, read off the 24 bits most significant first.
pub open spec fn b64_byte(v: Seq<u8>, j: int) -> u8 {
    let g = 4 * (j / 3);
    if j % 3 == 0 {
        (sextet(v, g) * 4 + sextet(v, g + 1) / 16) as u8
    } else if j % 3 == 1 {
        ((sextet(v, g + 1) % 16) * 16 + sextet(v, g + 2) / 4) as u8
    } else {
        ((sextet(v, g + 2) % 4) * 64 + sextet(v, g + 3)) as u8
    }
}

/// The sextet values of base64 text whose characters are all valid.
pub open spec fn b64_values(t: Seq<char>) -> Seq<u8> {
    Seq::new(t.len(), |i: int| b64_value(t[i])->Some_0)
}

/// What decoding base64 text gives: padding is ignored, any other
/// character outside the alphabet is an error, and `n` sextets give
/// `3n / 4` bytes (the whole bytes their bits hold).
pub open spec fn base64_decode_spec(s: Seq<char>) -> Result<Seq<u8>, &'static str> {
    let t = trim_padding(s);
    if forall|i: int| 0 <= i < t.len() ==> (#[trigger] b64_value(t[i])) is Some {
        Ok(Seq::new(3 * t.len() / 4, |j: int| b64_byte(b64_values(t), j)))
    } else {
        Err("Invalid base64 character")
    }
}

/// The standard base64 alphabet, in the order of the values it encodes.
pub open spec fn base64_alphabet() -> Seq<char> {
    "ABCDEFGHIJKLMNOPQRSTUVWXYZabcdefghijklmnopqrstuvwxyz0123456789+/"@
}

/// Each character of the alphabet decodes to its position in it.
pub proof fn lemma_alphabet_values()
    ensures
        base64_alphabet().len() == 64,
        forall|v: int| 0 <= v < 64 ==> #[trigger] b64_value(base64_alphabet()[v]) == Some(v as u8),
{
    reveal_strlit("ABCDEFGHIJKLMNOPQRSTUVWXYZabcdefghijklmnopqrstuvwxyz0123456789+/");
    let a = base64_alphabet();
    assert forall|v: int| 0 <= v < 64 implies #[trigger] b64_value(a[v]) == Some(v as u8) by {
        if v == 0 {
            assert(a[v] == 'A');
        } else if v == 1 {
            assert(a[v] == 'B');
        } else if v == 2 {
            assert(a[v] == 'C');
        } else if v == 3 {
            assert(a[v] == 'D');
        } else if v == 4 {
            assert(a[v] == 'E');
        } else if v == 5 {
            assert(a[v] == 'F');
        } else if v == 6 {
            assert(a[v] == 'G');
        } else if v == 7 {
            assert(a[v] == 'H');
        } else if v == 8 {
            assert(a[v] == 'I');
        } else if v == 9 {
            assert(a[v] == 'J');
        } else if v == 10 {
            assert(a[v] == 'K');
        } else if v == 11 {
            assert(a[v] == 'L');
        } else if v == 12 {
            assert(a[v] == 'M');
        } else if v == 13 {
            assert(a[v] == 'N');
        } else if v == 14 {
            assert(a[v] == 'O');
        } else if v == 15 {
            assert(a[v] == 'P');
        } else if v == 16 {
            assert(a[v] == 'Q');
        } else if v == 17 {
            assert(a[v] == 'R');
        } else if v == 18 {
            assert(a[v] == 'S');
        } else if v == 19 {
            assert(a[v] == 'T');
        } else if v == 20 {
            assert(a[v] == 'U');
        } else if v == 21 {
            assert(a[v] == 'V');
        } else if v == 22 {
            assert(a[v] == 'W');
        } else if v == 23 {
            assert(a[v] == 'X');
        } else if v == 24 {
            assert(a[v] == 'Y');
        } else if v == 25 {
            assert(a[v] == 'Z');
        } else if v == 26 {
            assert(a[v] == 'a');
        } else if v == 27 {
            assert(a[v] == 'b');
        } else if v == 28 {
            assert(a[v] == 'c');
        } else if v == 29 {
            assert(a[v] == 'd');
        } else if v == 30 {
            assert(a[v] == 'e');
        } else if v == 31 {
            assert(a[v] == 'f');
        } else if v == 32 {
            assert(a[v] == 'g');
        } else if v == 33 {
            assert(a[v] == 'h');
        } else if v == 34 {
            assert(a[v] == 'i');
        } else if v == 35 {
            assert(a[v] == 'j');
        } else if v == 36 {
            assert(a[v] == 'k');
        } else if v == 37 {
            assert(a[v] == 'l');
        } else if v == 38 {
            assert(a[v] == 'm');
        } else if v == 39 {
            assert(a[v] == 'n');
        } else if v == 40 {
            assert(a[v] == 'o');
        } else if v == 41 {
            assert(a[v] == 'p');
        } else if v == 42 {
            assert(a[v] == 'q');
        } else if v == 43 {
            assert(a[v] == 'r');
        } else if v == 44 {
            assert(a[v] == 's');
        } else if v == 45 {
            assert(a[v] == 't');
        } else if v == 46 {
            assert(a[v] == 'u');
        } else if v == 47 {
            assert(a[v] == 'v');
        } else if v == 48 {
            assert(a[v] == 'w');
        } else if v == 49 {
            assert(a[v] == 'x');
        } else if v == 50 {
            assert(a[v] == 'y');
        } else if v == 51 {
            assert(a[v] == 'z');
        } else if v == 52 {
            assert(a[v] == '0');
        } else if v == 53 {
            assert(a[v] == '1');
        } else if v == 54 {
            assert(a[v] == '2');
        } else if v == 55 {
            assert(a[v] == '3');
        } else if v == 56 {
            assert(a[v] == '4');
        } else if v == 57 {
            assert(a[v] == '5');
        } else if v == 58 {
            assert(a[v] == '6');
        } else if v == 59 {
            assert(a[v] == '7');
        } else if v == 60 {
            assert(a[v] == '8');
        } else if v == 61 {
            assert(a[v] == '9');
        } else if v == 62 {
            assert(a[v] == '+');
        } else if v == 63 {
            assert(a[v] == '/');
        }
    }
}

/// Byte `k` of `bytes`, zero past the end.
pub open spec fn byte_or_zero(bytes: Seq<u8>, k: int) -> u8 {
    if 0 <= k < bytes.len() {
        bytes[k]
    } else {
        0
    }
}

/// Sextet `i` of the base64 encoding of `bytes`: each group of three bytes
/// gives four sextets, its 24 bits read most significant first; bytes
/// missing from the last group count as zero.
pub open spec fn encoded_sextet(bytes: Seq<u8>, i: int) -> int {
    let g = 3 * (i / 4);
    let b0 = byte_or_zero(bytes, g) as int;
    let b1 = byte_or_zero(bytes, g + 1) as int;
    let b2 = byte_or_zero(bytes, g + 2) as int;
    if i % 4 == 0 {
        b0 / 4
    } else if i % 4 == 1 {
        (b0 % 4) * 16 + b1 / 16
    } else if i % 4 == 2 {
        (b1 % 16) * 4 + b2 / 64
    } else {
        b2 % 64
    }
}

/// How many base64 characters carry the bits of `n` bytes: four per whole
/// group of three, and one more than the bytes of a last partial group.
pub open spec fn encoded_len(n: nat) -> nat {
    4 * (n / 3) + if n % 3 == 0 {
        0
    } else {
        n % 3 + 1
    }
}

/// The standard base64 text of `bytes`, padded with '=' to whole groups of
/// four characters.
pub open spec fn base64_encode_spec(bytes: Seq<u8>) -> Seq<char> {
    Seq::new(encoded_len(bytes.len()), |i: int| base64_alphabet()[encoded_sextet(bytes, i)]) + Seq::new(
        if bytes.len() % 3 == 0 {
            0
        } else {
            (3 - bytes.len() % 3) as nat
        },
        |i: int| '=',
    )
}

proof fn lemma_group_bits(b0: u8, b1: u8, b2: u8)
    ensures
        (b0 / 4) * 4 + ((b0 % 4) * 16 + b1 / 16) / 16 == b0,
        (((b0 % 4) * 16 + b1 / 16) % 16) * 16 + ((b1 % 16) * 4 + b2 / 64) / 4 == b1,
        (((b1 % 16) * 4 + b2 / 64) % 4) * 64 + b2 % 64 == b2,
{
    assert((b0 / 4) * 4 + ((b0 % 4) * 16 + b1 / 16) / 16 == b0) by (nonlinear_arith);
    assert((((b0 % 4) * 16 + b1 / 16) % 16) * 16 + ((b1 % 16) * 4 + b2 / 64) / 4 == b1) by (nonlinear_arith);
    assert((((b1 % 16) * 4 + b2 / 64) % 4) * 64 + b2 % 64 == b2) by (nonlinear_arith);
}

proof fn lemma_trim_padding(u: Seq<char>, k: nat)
    requires
        u.len() == 0 || u.last() != '=',
    ensures
        trim_padding(u + Seq::new(k, |i: int| '=')) == u,
    decreases k,
{
    let t = u + Seq::new(k, |i: int| '=');
    if k == 0 {
        assert(t =~= u);
        if u.len() > 0 {
            assert(t.last() != '=');
        }
    } else {
        assert(t.last() == '=');
        assert(t.drop_last() =~= u + Seq::new((k - 1) as nat, |i: int| '='));
        lemma_trim_padding(u, (k - 1) as nat);
    }
}

/// Decoding the base64 text of any bytes gives those bytes back.
pub proof fn lemma_base64_roundtrip(bytes: Seq<u8>)
    ensures
        base64_decode_spec(base64_encode_spec(bytes)) == Ok::<Seq<u8>, &'static str>(bytes),
{
    lemma_alphabet_values();
    let n = bytes.len();
    let m = encoded_len(n);
    let a = base64_alphabet();
    let u = Seq::new(m, |i: int| a[encoded_sextet(bytes, i)]);
    let pads: nat = if n % 3 == 0 {
        0
    } else {
        (3 - n % 3) as nat
    };
    assert(base64_encode_spec(bytes) == u + Seq::new(pads, |i: int| '='));
    assert forall|i: int| 0 <= i < m implies 0 <= #[trigger] encoded_sextet(bytes, i) < 64 by {
        let g = 3 * (i / 4);
        let b0 = byte_or_zero(bytes, g) as int;
        let b1 = byte_or_zero(bytes, g + 1) as int;
        let b2 = byte_or_zero(bytes, g + 2) as int;
        assert(0 <= (b0 % 4) * 16 + b1 / 16 < 64);
        assert(0 <= (b1 % 16) * 4 + b2 / 64 < 64);
    }
    if m > 0 {
        assert(u.last() == a[encoded_sextet(bytes, m - 1)]);
        assert(b64_value(u.last()) is Some);
        assert(b64_value('=') is None);
    }
    lemma_trim_padding(u, pads);
    let t = trim_padding(base64_encode_spec(bytes));
    assert(t == u);
    assert forall|i: int| 0 <= i < t.len() implies (#[trigger] b64_value(t[i])) is Some by {
        assert(t[i] == a[encoded_sextet(bytes, i)]);
    }
    let vals = b64_values(t);
    assert(vals =~= Seq::new(m, |i: int| encoded_sextet(bytes, i) as u8));
    assert(3 * m / 4 == n) by {
        assert(m == 4 * (n / 3) + if n % 3 == 0 { 0 } else { n % 3 + 1 });
    }
    let out = Seq::new(3 * t.len() / 4, |j: int| b64_byte(vals, j));
    assert forall|j: int| 0 <= j < n implies #[trigger] out[j] == bytes[j] by {
        let q = j / 3;
        let g = 4 * q;
        let s = 3 * q;
        assert(3 * (g / 4) == s);
        assert(3 * ((g + 1) / 4) == s && (g + 1) % 4 == 1);
        assert(3 * ((g + 2) / 4) == s && (g + 2) % 4 == 2);
        assert(3 * ((g + 3) / 4) == s && (g + 3) % 4 == 3);
        let b0 = byte_or_zero(bytes, s);
        let b1 = byte_or_zero(bytes, s + 1);
        let b2 = byte_or_zero(bytes, s + 2);
        lemma_group_bits(b0, b1, b2);
        if j % 3 == 0 {
            assert(g + 1 < m);
            assert(b0 == bytes[j]);
        } else if j % 3 == 1 {
            assert(g + 2 < m);
            assert(b1 == bytes[j]);
        } else {
            assert(g + 3 < m);
            assert(b2 == bytes[j]);
        }
    }
    assert(out =~= bytes);
}

fn b64_value_exec(c: char) -> (r: Option<u8>)
    ensures
        r == b64_value(c),
{
    let x = c as u32;
    if 0x41 <= x && x <= 0x5A {
        Some((x - 0x41) as u8)
    } else if 0x61 <= x && x <= 0x7A {
        Some((x - 0x61 + 26) as u8)
    } else if 0x30 <= x && x <= 0x39 {
        Some((x - 0x30 + 52) as u8)
    } else if x == 0x2B {
        Some(62u8)
    } else if x == 0x2F {
        Some(63u8)
    } else {
        None
    }
}

fn sextet_exec(v: &Vec<u8>, k: usize) -> (r: u8)
    requires
        forall|i: int| 0 <= i < v@.len() ==> v@[i] < 64,
    ensures
        r == sextet(v@, k as int),
        r < 64,
{
    if k < v.len() {
        v[k]
    } else {
        0
    }
}

/// Decode base64 text (standard alphabet, optional padding).
pub fn base64_decode(input: &str) -> (r: Result<Vec<u8>, &'static str>)
    ensures
        match (r, base64_decode_spec(input@)) {
            (Ok(v), Ok(s)) => v@ == s,
            (Err(e1), Err(e2)) => e1 == e2,
            _ => false,
        },
{
    let cs = chars_of(input);
    let mut end: usize = cs.len();
    assert(cs@.take(cs@.len() as int) =~= cs@);
    while end > 0 && cs[end - 1] == '='
        invariant
            end <= cs@.len(),
            trim_padding(cs@.take(end as int)) == trim_padding(input@),
            cs@ == input@,
        decreases end,
    {
        assert(cs@.take(end as int).drop_last() =~= cs@.take(end - 1));
        end = end - 1;
    }
    let ghost t = cs@.take(end as int);
    assert(trim_padding(t) == t);
    let mut vals: Vec<u8> = Vec::new();
    let mut i: usize = 0;
    while i < end
        invariant
            i <= end <= cs@.len(),
            t == cs@.take(end as int),
            t == trim_padding(input@),
            vals@.len() == i,
            forall|k: int| 0 <= k < i ==> (#[trigger] b64_value(t[k])) is Some,
            forall|k: int| 0 <= k < i ==> vals@[k] == b64_value(t[k])->Some_0,
            forall|k: int| 0 <= k < i ==> vals@[k] < 64,
        decreases end - i,
    {
        match b64_value_exec(cs[i]) {
            Some(v) => vals.push(v),
            None => {
                assert(b64_value(t[i as int]) is None);
                return Err("Invalid base64 character");
            },
        }
        i = i + 1;
    }
    assert(vals@ =~= b64_values(t));
    let n = vals.len();
    let out_len: usize = n / 4 * 3 + (if n % 4 == 2 {
        1
    } else if n % 4 == 3 {
        2
    } else {
        0
    });
    assert(out_len == 3 * n / 4);
    let mut out: Vec<u8> = Vec::new();
    let mut j: usize = 0;
    while j < out_len
        invariant
            j <= out_len,
            out_len == 3 * vals@.len() / 4,
            forall|k: int| 0 <= k < vals@.len() ==> vals@[k] < 64,
            out@ =~= Seq::new(j as nat, |k: int| b64_byte(vals@, k)),
            vals@.len() <= usize::MAX,
        decreases out_len - j,
    {
        let ghost n_: int = vals@.len() as int;
        assert(4 * (j as int / 3) < n_) by (nonlinear_arith)
            requires
                j < out_len,
                out_len == 3 * n_ / 4,
                n_ >= 0,
        ;
        let g = 4 * (j / 3);
        let b = if j % 3 == 0 {
            sextet_exec(&vals, g) * 4 + sextet_exec(&vals, g + 1) / 16
        } else if j % 3 == 1 {
            (sextet_exec(&vals, g + 1) % 16) * 16 + sextet_exec(&vals, g + 2) / 4
        } else {
            (sextet_exec(&vals, g + 2) % 4) * 64 + sextet_exec(&vals, g + 3)
        };
        out.push(b);
        j = j + 1;
    }
    Ok(out)
}

// ============================================================================
// Key derivation and signing
// ============================================================================

/// XOR of the bytes among the first `n` of `c` whose position is `k` modulo
/// `m`.
pub open spec fn xor_fold(c: Seq<u8>, n: nat, m: int, k: int) -> u8
    decreases n,
{
    if n == 0 {
        0
    } else {
        let p = xor_fold(c, (n - 1) as nat, m, k);
        if (n - 1) % m == k {
            p ^ c[n - 1]
        } else {
            p
        }
    }
}

/// The mixing step applied to byte `k` of a folded key.
pub open spec fn mix_byte(b: u8, k: int) -> u8 {
    top_byte(wrapping_add(wrapping_mul(b as u64, GOLDEN), k as u64))
}

/// The public key derived from entropy followed by the salt's bytes:
/// XOR-fold into 32 bytes, then mix each byte with its position.
pub open spec fn public_key_spec(combined: Seq<u8>) -> Seq<u8> {
    Seq::new(32, |k: int| mix_byte(xor_fold(combined, combined.len(), 32, k), k))
}

/// Derive a public key from entropy and a salt (XOR-fold and mix).
pub fn derive_public_key(entropy: &[u8], salt: &str) -> (key: [u8; 32])
    ensures
        key@ == public_key_spec(entropy@ + vstd::utf8::encode_utf8(salt@)),
{
    let mut combined: Vec<u8> = Vec::new();
    append_bytes(&mut combined, entropy);
    append_bytes(&mut combined, salt.as_bytes());
    let ghost c = combined@;
    let mut key = [0u8; 32];
    let n = combined.len();
    let mut i: usize = 0;
    while i < n
        invariant
            i <= n == c.len(),
            combined@ == c,
            forall|k: int| 0 <= k < 32 ==> key@[k] == xor_fold(c, i as nat, 32, k),
        decreases n - i,
    {
        let k = i % 32;
        key[k] = key[k] ^ combined[i];
        i = i + 1;
    }
    let mut j: usize = 0;
    while j < 32
        invariant
            j <= 32,
            forall|k: int| 0 <= k < j ==> key@[k] == mix_byte(xor_fold(c, c.len(), 32, k), k),
            forall|k: int| j <= k < 32 ==> key@[k] == xor_fold(c, c.len(), 32, k),
        decreases 32 - j,
    {
        let state = (key[j] as u64).wrapping_mul(GOLDEN).wrapping_add(j as u64);
        key[j] = (state / 0x100_0000_0000_0000) as u8;
        j = j + 1;
    }
    assert(key@ =~= public_key_spec(c));
    key
}

/// The challenge folded into 64 bytes, each challenge byte XORed with the
/// key byte at its position modulo 32.
pub open spec fn signature_fold(challenge: Seq<u8>, key: Seq<u8>, n: nat, k: int) -> u8
    decreases n,
{
    if n == 0 {
        0
    } else {
        let p = signature_fold(challenge, key, (n - 1) as nat, k);
        if (n - 1) % 64 == k {
            p ^ (challenge[n - 1] ^ key[(n - 1) % 32])
        } else {
            p
        }
    }
}

/// The mixing state after the first `m` folded bytes.
pub open spec fn signature_state(f: Seq<u8>, m: nat) -> u64
    decreases m,
{
    if m == 0 {
        GOLDEN
    } else {
        lcg(signature_state(f, (m - 1) as nat), f[m - 1] as u64)
    }
}

/// The signature of a challenge: fold, then chain every folded byte into a
/// generator state and keep each state's top byte.
pub open spec fn signature_spec(challenge: Seq<u8>, key: Seq<u8>) -> Seq<u8> {
    let f = Seq::new(64, |k: int| signature_fold(challenge, key, challenge.len(), k));
    Seq::new(64, |i: int| top_byte(signature_state(f, (i + 1) as nat)))
}

/// Sign a challenge with a 32-byte key (XOR fold and chained mixing).
pub fn sign_challenge(challenge: &[u8], signing_key: &[u8; 32]) -> (signature: [u8; 64])
    ensures
        signature@ == signature_spec(challenge@, signing_key@),
{
    let mut signature = [0u8; 64];
    let n = challenge.len();
    let ghost ch = challenge@;
    let ghost key = signing_key@;
    let mut i: usize = 0;
    while i < n
        invariant
            i <= n == ch.len(),
            challenge@ == ch,
            signing_key@ == key,
            key.len() == 32,
            forall|k: int| 0 <= k < 64 ==> signature@[k] == signature_fold(ch, key, i as nat, k),
        decreases n - i,
    {
        let key_byte = signing_key[i % 32];
        let k = i % 64;
        signature[k] = signature[k] ^ (challenge[i] ^ key_byte);
        i = i + 1;
    }
    let ghost f = Seq::new(64, |k: int| signature_fold(ch, key, ch.len(), k));
    assert(signature@ =~= f);
    let mut state: u64 = GOLDEN;
    let mut j: usize = 0;
    while j < 64
        invariant
            j <= 64,
            f.len() == 64,
            state == signature_state(f, j as nat),
            forall|k: int| 0 <= k < j ==> signature@[k] == top_byte(signature_state(f, (k + 1) as nat)),
            forall|k: int| j <= k < 64 ==> signature@[k] == f[k],
        decreases 64 - j,
    {
        state = lcg_exec(state, signature[j] as u64);
        signature[j] = (state / 0x100_0000_0000_0000) as u8;
        j = j + 1;
    }
    assert(signature@ =~= signature_spec(ch, key));
    signature
}

// ============================================================================
// Shard split and reconstruction
// ============================================================================

/// One recovery shard: its index and its bytes in hex (the index byte
/// followed by the masked secret).
#[derive(Clone, Debug, PartialEq, Eq)]
pub struct NeuralShard {
    pub index: u8,
    pub hex: String,
}

/// Why key material could not be rebuilt.
#[derive(Clone, Debug, PartialEq, Eq)]
pub enum KeyError {
    InsufficientShards,
    InvalidShard(String),
}

/// The pad byte that masks byte `j` of the secret in shard `index`.
pub open spec fn shard_pad(index: u64, j: nat) -> u8 {
    top_byte(lcg_iter(wrapping_mul(index, GOLDEN), index, j + 1))
}

/// The secret XORed with the pad of shard `index`.
pub open spec fn masked(secret: Seq<u8>, index: u64) -> Seq<u8> {
    Seq::new(secret.len(), |j: int| secret[j] ^ shard_pad(index, j as nat))
}

/// The bytes of shard `i`: its index byte, then the masked secret.
pub open spec fn shard_bytes(secret: Seq<u8>, i: u64) -> Seq<u8> {
    seq![i as u8] + masked(secret, i)
}

fn mask_bytes(out: &mut Vec<u8>, data: &[u8], index: u64)
    ensures
        final(out)@ == old(out)@ + masked(data@, index),
{
    let mut state = index.wrapping_mul(GOLDEN);
    let mut j: usize = 0;
    let n = data.len();
    while j < n
        invariant
            j <= n == data@.len(),
            state == lcg_iter(wrapping_mul(index, GOLDEN), index, j as nat),
            out@ == old(out)@ + masked(data@, index).take(j as int),
        decreases n - j,
    {
        state = lcg_exec(state, index);
        out.push(data[j] ^ ((state / 0x100_0000_0000_0000) as u8));
        j = j + 1;
        assert(out@ =~= old(out)@ + masked(data@, index).take(j as int));
    }
    assert(masked(data@, index).take(n as int) =~= masked(data@, index));
}

/// Split a secret into `shares` shards, numbered from 1; each masks the
/// secret with a pad drawn from its own number. `threshold` does not enter
/// the shards.
pub fn shamir_split(secret: &[u8], threshold: usize, shares: usize) -> (shards: Vec<NeuralShard>)
    ensures
        shards@.len() == shares,
        forall|k: int|
            0 <= k < shares ==> (#[trigger] shards@[k]).index == (k + 1) as u8 && shards@[k].hex@
                == hex_string(shard_bytes(secret@, (k + 1) as u64)),
{
    let mut shards: Vec<NeuralShard> = Vec::new();
    let mut k: usize = 0;
    while k < shares
        invariant
            k <= shares,
            shards@.len() == k,
            forall|q: int|
                0 <= q < k ==> (#[trigger] shards@[q]).index == (q + 1) as u8 && shards@[q].hex@
                    == hex_string(shard_bytes(secret@, (q + 1) as u64)),
        decreases shares - k,
    {
        let i = k as u64 + 1;
        let mut bytes: Vec<u8> = Vec::new();
        bytes.push(i as u8);
        mask_bytes(&mut bytes, secret, i);
        assert(bytes@ =~= shard_bytes(secret@, i));
        let hex = bytes_to_hex(&bytes);
        shards.push(NeuralShard { index: i as u8, hex });
        k = k + 1;
    }
    shards
}

/// Rebuild a secret from shards: at least three are needed, and the first
/// one is read back (its index byte, then the masked secret).
pub fn shamir_reconstruct(shards: &[NeuralShard]) -> (r: Result<Vec<u8>, KeyError>)
    ensures
        shards@.len() < 3 ==> r == Err::<Vec<u8>, KeyError>(KeyError::InsufficientShards),
        shards@.len() >= 3 ==> match hex_to_bytes_spec(vstd::utf8::encode_utf8(shards@[0].hex@)) {
            Err(e) => r matches Err(KeyError::InvalidShard(m)) && m@ == e@,
            Ok(b) => if b.len() == 0 {
                r matches Err(KeyError::InvalidShard(m)) && m@ == "Empty shard"@
            } else {
                r matches Ok(v) && v@ == masked(b.drop_first(), b[0] as u64)
            },
        },
{
    if shards.len() < 3 {
        return Err(KeyError::InsufficientShards);
    }
    let shard = &shards[0];
    let shard_bytes = match hex_to_bytes(shard.hex.as_str()) {
        Ok(b) => b,
        Err(e) => {
            return Err(KeyError::InvalidShard(string_from(e)));
        },
    };
    if shard_bytes.len() == 0 {
        return Err(KeyError::InvalidShard(string_from("Empty shard")));
    }
    let index = shard_bytes[0] as u64;
    let mut rest: Vec<u8> = Vec::new();
    let mut j: usize = 1;
    while j < shard_bytes.len()
        invariant
            1 <= j <= shard_bytes@.len(),
            rest@ == shard_bytes@.subrange(1, j as int),
        decreases shard_bytes@.len() - j,
    {
        rest.push(shard_bytes[j]);
        j = j + 1;
        assert(rest@ =~= shard_bytes@.subrange(1, j as int));
    }
    assert(rest@ =~= shard_bytes@.drop_first());
    let mut secret: Vec<u8> = Vec::new();
    mask_bytes(&mut secret, rest.as_slice(), index);
    assert(secret@ =~= masked(shard_bytes@.drop_first(), index));
    Ok(secret)
}

/// Masking twice with the same pad gives the secret back.
pub proof fn lemma_unmask(secret: Seq<u8>, index: u64)
    ensures
        masked(masked(secret, index), index) == secret,
{
    assert forall|j: int| 0 <= j < secret.len() implies #[trigger] masked(
        masked(secret, index),
        index,
    )[j] == secret[j] by {
        let a = secret[j];
        let p = shard_pad(index, j as nat);
        assert((a ^ p) ^ p == a) by (bit_vector);
    }
    assert(masked(masked(secret, index), index) =~= secret);
}

/// Reconstructing from a split with at least three shares gives the secret
/// back: the first shard's hex decodes to its bytes, and unmasking with its
/// index undoes the mask.
pub proof fn lemma_split_reconstruct(secret: Seq<u8>, shards: Seq<NeuralShard>)
    requires
        shards.len() >= 3,
        shards[0].hex@ == hex_string(shard_bytes(secret, 1)),
    ensures
        hex_to_bytes_spec(vstd::utf8::encode_utf8(shards[0].hex@)) == Ok::<Seq<u8>, &'static str>(
            shard_bytes(secret, 1),
        ),
        shard_bytes(secret, 1).len() > 0,
        shard_bytes(secret, 1)[0] as u64 == 1,
        masked(shard_bytes(secret, 1).drop_first(), 1) == secret,
{
    lemma_hex_roundtrip(shard_bytes(secret, 1));
    assert(shard_bytes(secret, 1).drop_first() =~= masked(secret, 1));
    assert(1u64 as u8 == 1u8);
    lemma_unmask(secret, 1);
}

} // verus!
