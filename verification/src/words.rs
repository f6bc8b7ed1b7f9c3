//! Character-level text processing: Unicode whitespace, splitting into
//! words, trimming, joining, unsigned decimal parsing, padding.

use vstd::prelude::*;

use crate::text::{chars_of, decimal, string_from_chars, string_push};

verus! {

/// Unicode White_Space (what `char::is_whitespace` tests).
pub open spec fn is_ws(c: char) -> bool {
    let u = c as u32;
    (0x09 <= u <= 0x0D) || u == 0x20 || u == 0x85 || u == 0xA0 || u == 0x1680 || (0x2000 <= u
        <= 0x200A) || u == 0x2028 || u == 0x2029 || u == 0x202F || u == 0x205F || u == 0x3000
}

/// Whether `c` is Unicode whitespace.
pub fn is_whitespace(c: char) -> (r: bool)
    ensures
        r == is_ws(c),
{
    let u = c as u32;
    (0x09 <= u && u <= 0x0D) || u == 0x20 || u == 0x85 || u == 0xA0 || u == 0x1680 || (0x2000 <= u
        && u <= 0x200A) || u == 0x2028 || u == 0x2029 || u == 0x202F || u == 0x205F || u == 0x3000
}

/// The maximal runs of non-whitespace characters of `s`, in order.
pub open spec fn words(s: Seq<char>) -> Seq<Seq<char>>
    decreases s.len(),
{
    if s.len() == 0 {
        seq![]
    } else {
        let w = words(s.drop_last());
        let c = s.last();
        if is_ws(c) {
            w
        } else if s.len() >= 2 && !is_ws(s[s.len() - 2]) {
            w.update(w.len() - 1, w.last().push(c))
        } else {
            w.push(seq![c])
        }
    }
}

/// A non-empty `s` that ends in a non-whitespace character has a last word.
proof fn lemma_words_nonempty(s: Seq<char>)
    requires
        s.len() > 0,
        !is_ws(s.last()),
    ensures
        words(s).len() > 0,
    decreases s.len(),
{
    if s.len() >= 2 && !is_ws(s[s.len() - 2]) {
        let t = s.drop_last();
        assert(t.last() == s[s.len() - 2]);
        lemma_words_nonempty(t);
    }
}

/// The words of `t`.
pub fn split_whitespace(t: &[char]) -> (ws: Vec<Vec<char>>)
    ensures
        ws@.len() == words(t@).len(),
        forall|i: int| 0 <= i < ws@.len() ==> #[trigger] ws@[i]@ == words(t@)[i],
{
    let mut ws: Vec<Vec<char>> = Vec::new();
    let mut cur: Vec<char> = Vec::new();
    let n = t.len();
    let mut i: usize = 0;
    while i < n
        invariant
            n == t@.len(),
            i <= n,
            ({
                let w = words(t@.take(i as int));
                if cur@.len() > 0 {
                    &&& w.len() == ws@.len() + 1
                    &&& w.last() == cur@
                    &&& forall|j: int| 0 <= j < ws@.len() ==> #[trigger] ws@[j]@ == w[j]
                    &&& i > 0 && !is_ws(t@[i - 1])
                } else {
                    &&& w.len() == ws@.len()
                    &&& forall|j: int| 0 <= j < ws@.len() ==> #[trigger] ws@[j]@ == w[j]
                    &&& (i > 0 ==> is_ws(t@[i - 1]))
                }
            }),
        decreases n - i,
    {
        let c = t[i];
        let ghost prev = t@.take(i as int);
        assert(t@.take(i + 1).drop_last() =~= prev);
        assert(t@.take(i + 1).last() == c);
        if is_whitespace(c) {
            if cur.len() > 0 {
                let mut w: Vec<char> = Vec::new();
                std::mem::swap(&mut cur, &mut w);
                ws.push(w);
            }
        } else {
            proof {
                if i > 0 {
                    assert(t@.take(i + 1)[i - 1] == t@[i - 1]);
                }
            }
            cur.push(c);
        }
        i = i + 1;
    }
    assert(t@.take(n as int) =~= t@);
    if cur.len() > 0 {
        ws.push(cur);
    }
    ws
}

/// `s` without leading and trailing whitespace.
pub open spec fn trim(s: Seq<char>) -> Seq<char> {
    let a = first_non_ws(s, 0);
    let b = last_non_ws_end(s, s.len() as int);
    if a >= b {
        seq![]
    } else {
        s.subrange(a, b)
    }
}

/// The index of the first non-whitespace character at or after `i`
/// (`s.len()` if none).
pub open spec fn first_non_ws(s: Seq<char>, i: int) -> int
    decreases s.len() - i,
{
    if i >= s.len() {
        s.len() as int
    } else if !is_ws(s[i]) {
        i
    } else {
        first_non_ws(s, i + 1)
    }
}

/// One past the index of the last non-whitespace character before `j`
/// (0 if none).
pub open spec fn last_non_ws_end(s: Seq<char>, j: int) -> int
    decreases j,
{
    if j <= 0 {
        0
    } else if !is_ws(s[j - 1]) {
        j
    } else {
        last_non_ws_end(s, j - 1)
    }
}

proof fn lemma_first_non_ws_bounds(s: Seq<char>, i: int)
    requires
        0 <= i <= s.len(),
    ensures
        i <= first_non_ws(s, i) <= s.len(),
        forall|k: int| i <= k < first_non_ws(s, i) ==> is_ws(#[trigger] s[k]),
        first_non_ws(s, i) < s.len() ==> !is_ws(s[first_non_ws(s, i)]),
    decreases s.len() - i,
{
    if i < s.len() && is_ws(s[i]) {
        lemma_first_non_ws_bounds(s, i + 1);
    }
}

proof fn lemma_last_non_ws_bounds(s: Seq<char>, j: int)
    requires
        0 <= j <= s.len(),
    ensures
        0 <= last_non_ws_end(s, j) <= j,
        forall|k: int| last_non_ws_end(s, j) <= k < j ==> is_ws(#[trigger] s[k]),
        last_non_ws_end(s, j) > 0 ==> !is_ws(s[last_non_ws_end(s, j) - 1]),
    decreases j,
{
    if j > 0 && is_ws(s[j - 1]) {
        lemma_last_non_ws_bounds(s, j - 1);
    }
}

/// The characters of `t` without leading and trailing whitespace.
pub fn trim_chars(t: &[char]) -> (r: Vec<char>)
    ensures
        r@ == trim(t@),
{
    let n = t.len();
    let mut a: usize = 0;
    while a < n && is_whitespace(t[a])
        invariant
            n == t@.len(),
            a <= n,
            first_non_ws(t@, 0) == first_non_ws(t@, a as int),
        decreases n - a,
    {
        a = a + 1;
    }
    let mut b: usize = n;
    while b > 0 && is_whitespace(t[b - 1])
        invariant
            n == t@.len(),
            b <= n,
            last_non_ws_end(t@, n as int) == last_non_ws_end(t@, b as int),
        decreases b,
    {
        b = b - 1;
    }
    let mut r: Vec<char> = Vec::new();
    if a < b {
        let mut i = a;
        while i < b
            invariant
                a <= i <= b <= n,
                n == t@.len(),
                r@ == t@.subrange(a as int, i as int),
            decreases b - i,
        {
            r.push(t[i]);
            i = i + 1;
            assert(r@ =~= t@.subrange(a as int, i as int));
        }
    }
    assert(first_non_ws(t@, 0) == a);
    assert(last_non_ws_end(t@, n as int) == b);
    if a >= b {
        assert(r@ =~= seq![]);
    }
    r
}

/// A string holding `t` without leading and trailing whitespace.
pub fn trim_str(t: &str) -> (r: String)
    ensures
        r@ == trim(t@),
{
    let cs = chars_of(t);
    let tr = trim_chars(cs.as_slice());
    string_from_chars(tr.as_slice())
}

/// The words joined by single spaces.
pub open spec fn join_words(ws: Seq<Seq<char>>) -> Seq<char>
    decreases ws.len(),
{
    if ws.len() == 0 {
        seq![]
    } else if ws.len() == 1 {
        ws[0]
    } else {
        join_words(ws.drop_last()) + seq![' '] + ws.last()
    }
}

/// The words `ws[from..]` joined by single spaces.
pub fn join_from(ws: &Vec<Vec<char>>, from: usize) -> (r: String)
    requires
        from <= ws@.len(),
    ensures
        r@ == join_words(ws@.map_values(|w: Vec<char>| w@).skip(from as int)),
{
    let ghost all = ws@.map_values(|w: Vec<char>| w@).skip(from as int);
    let mut r = String::new();
    let mut i = from;
    while i < ws.len()
        invariant
            from <= i <= ws@.len(),
            all == ws@.map_values(|w: Vec<char>| w@).skip(from as int),
            r@ == join_words(all.take(i - from)),
        decreases ws@.len() - i,
    {
        if i > from {
            string_push(&mut r, ' ');
        }
        let w = &ws[i];
        let mut j: usize = 0;
        let ghost before = r@;
        while j < w.len()
            invariant
                j <= w@.len(),
                r@ == before + w@.take(j as int),
            decreases w@.len() - j,
        {
            string_push(&mut r, w[j]);
            j = j + 1;
            assert(r@ =~= before + w@.take(j as int));
        }
        assert(w@.take(j as int) =~= w@);
        proof {
            let k = (i - from) as int;
            assert(all.take(k + 1).drop_last() =~= all.take(k));
            assert(all.take(k + 1).last() == all[k]);
            assert(all[k] == w@);
            if k == 0 {
                assert(all.take(0) =~= seq![]);
                assert(r@ =~= all.take(1)[0]);
            }
        }
        i = i + 1;
    }
    assert(all.take(ws@.len() - from) =~= all);
    r
}

/// Whether `s` contains `c`.
pub fn contains_char(s: &[char], c: char) -> (r: bool)
    ensures
        r == s@.contains(c),
{
    let mut i: usize = 0;
    while i < s.len()
        invariant
            i <= s@.len(),
            forall|j: int| 0 <= j < i ==> s@[j] != c,
        decreases s@.len() - i,
    {
        if s[i] == c {
            assert(s@[i as int] == c);
            return true;
        }
        i = i + 1;
    }
    false
}

/// Whether two character sequences are equal.
pub fn chars_eq(a: &[char], b: &[char]) -> (r: bool)
    ensures
        r == (a@ == b@),
{
    if a.len() != b.len() {
        return false;
    }
    let mut i: usize = 0;
    while i < a.len()
        invariant
            a@.len() == b@.len(),
            i <= a@.len(),
            forall|j: int| 0 <= j < i ==> a@[j] == b@[j],
        decreases a@.len() - i,
    {
        if a[i] != b[i] {
            return false;
        }
        i = i + 1;
    }
    assert(a@ =~= b@);
    true
}

/// Whether a character sequence equals a string.
pub fn chars_eq_str(a: &[char], b: &str) -> (r: bool)
    ensures
        r == (a@ == b@),
{
    let bc = chars_of(b);
    chars_eq(a, bc.as_slice())
}

// ============================================================================
// Unsigned decimal parsing (the grammar of `u32::from_str`)
// ============================================================================

pub open spec fn is_digit(c: char) -> bool {
    '0' <= c <= '9'
}

/// The value of a sequence of decimal digits.
pub open spec fn digits_value(d: Seq<char>) -> nat
    decreases d.len(),
{
    if d.len() == 0 {
        0
    } else {
        digits_value(d.drop_last()) * 10 + ((d.last() as u32) - ('0' as u32)) as nat
    }
}

/// The `u32` a text denotes: an optional '+' and at least one decimal digit,
/// with a value that fits.
pub open spec fn parse_u32_spec(s: Seq<char>) -> Option<u32> {
    if all_digits(unsigned_part(s)) && digits_value(unsigned_part(s)) <= u32::MAX {
        Some(digits_value(unsigned_part(s)) as u32)
    } else {
        None
    }
}

/// The text after an optional leading '+'.
pub open spec fn unsigned_part(s: Seq<char>) -> Seq<char> {
    if s.len() > 0 && s[0] == '+' {
        s.drop_first()
    } else {
        s
    }
}

/// Whether `d` is a non-empty sequence of decimal digits.
pub open spec fn all_digits(d: Seq<char>) -> bool {
    d.len() > 0 && forall|i: int| 0 <= i < d.len() ==> is_digit(#[trigger] d[i])
}

proof fn lemma_digits_value_mono(d: Seq<char>, k: int)
    requires
        0 <= k <= d.len(),
        forall|i: int| 0 <= i < d.len() ==> is_digit(#[trigger] d[i]),
    ensures
        digits_value(d.take(k)) <= digits_value(d),
    decreases d.len() - k,
{
    if k < d.len() {
        lemma_digits_value_mono(d, k + 1);
        assert(d.take(k + 1).drop_last() =~= d.take(k));
    } else {
        assert(d.take(k) =~= d);
    }
}

/// Parses `s` as a `u32` the way `u32::from_str` does.
pub fn parse_u32(s: &[char]) -> (r: Option<u32>)
    ensures
        r == parse_u32_spec(s@),
{
    let n = s.len();
    let start: usize = if n > 0 && s[0] == '+' {
        1
    } else {
        0
    };
    let ghost d = unsigned_part(s@);
    assert(d =~= s@.skip(start as int));
    if start >= n {
        return None;
    }
    let mut acc: u64 = 0;
    let mut i = start;
    while i < n
        invariant
            start <= i <= n,
            n == s@.len(),
            d == s@.skip(start as int),
            d == unsigned_part(s@),
            acc == digits_value(d.take(i - start)),
            acc <= u32::MAX,
            forall|j: int| 0 <= j < i - start ==> is_digit(#[trigger] d[j]),
        decreases n - i,
    {
        let c = s[i];
        if !('0' <= c && c <= '9') {
            assert(d[i - start] == c);
            assert(!is_digit(d[i - start]));
            assert(!(forall|j: int| 0 <= j < d.len() ==> is_digit(#[trigger] d[j])));
            assert(parse_u32_spec(s@) == None::<u32>);
            return None;
        }
        let ghost k = (i - start) as int;
        assert(d.take(k + 1).drop_last() =~= d.take(k));
        assert(d.take(k + 1).last() == c);
        assert(d[k] == c);
        let v = acc * 10 + ((c as u32) - ('0' as u32)) as u64;
        if v > 0xFFFF_FFFF {
            proof {
                if forall|j: int| 0 <= j < d.len() ==> is_digit(#[trigger] d[j]) {
                    lemma_digits_value_mono(d, k + 1);
                    assert(digits_value(d.take(k + 1)) == v);
                }
                assert(parse_u32_spec(s@) == None::<u32>);
            }
            return None;
        }
        acc = v;
        i = i + 1;
    }
    assert(d.take(n - start) =~= d);
    Some(acc as u32)
}

/// The `u64` a text denotes (the grammar of `u64::from_str`).
pub open spec fn parse_u64_spec(s: Seq<char>) -> Option<u64> {
    if all_digits(unsigned_part(s)) && digits_value(unsigned_part(s)) <= u64::MAX {
        Some(digits_value(unsigned_part(s)) as u64)
    } else {
        None
    }
}

/// Parses `s` as a `u64` the way `u64::from_str` does.
pub fn parse_u64(s: &[char]) -> (r: Option<u64>)
    ensures
        r == parse_u64_spec(s@),
{
    let n = s.len();
    let start: usize = if n > 0 && s[0] == '+' {
        1
    } else {
        0
    };
    let ghost d = unsigned_part(s@);
    assert(d =~= s@.skip(start as int));
    if start >= n {
        return None;
    }
    let mut acc: u128 = 0;
    let mut i = start;
    while i < n
        invariant
            start <= i <= n,
            n == s@.len(),
            d == s@.skip(start as int),
            d == unsigned_part(s@),
            acc == digits_value(d.take(i - start)),
            acc <= u64::MAX,
            forall|j: int| 0 <= j < i - start ==> is_digit(#[trigger] d[j]),
        decreases n - i,
    {
        let c = s[i];
        if !('0' <= c && c <= '9') {
            assert(d[i - start] == c);
            assert(!is_digit(d[i - start]));
            assert(!(forall|j: int| 0 <= j < d.len() ==> is_digit(#[trigger] d[j])));
            assert(parse_u64_spec(s@) == None::<u64>);
            return None;
        }
        let ghost k = (i - start) as int;
        assert(d.take(k + 1).drop_last() =~= d.take(k));
        assert(d.take(k + 1).last() == c);
        assert(d[k] == c);
        let v = acc * 10 + ((c as u32) - ('0' as u32)) as u128;
        if v > 0xFFFF_FFFF_FFFF_FFFF {
            proof {
                if forall|j: int| 0 <= j < d.len() ==> is_digit(#[trigger] d[j]) {
                    lemma_digits_value_mono(d, k + 1);
                    assert(digits_value(d.take(k + 1)) == v);
                }
                assert(parse_u64_spec(s@) == None::<u64>);
            }
            return None;
        }
        acc = v;
        i = i + 1;
    }
    assert(d.take(n - start) =~= d);
    Some(acc as u64)
}

/// The `usize` a text denotes (the grammar of `usize::from_str`).
pub open spec fn parse_usize_spec(s: Seq<char>) -> Option<usize> {
    if all_digits(unsigned_part(s)) && digits_value(unsigned_part(s)) <= usize::MAX {
        Some(digits_value(unsigned_part(s)) as usize)
    } else {
        None
    }
}

/// Parses `s` as a `usize` the way `usize::from_str` does.
pub fn parse_usize(s: &[char]) -> (r: Option<usize>)
    ensures
        r == parse_usize_spec(s@),
{
    match parse_u64(s) {
        Some(v) => {
            if v as u128 <= usize::MAX as u128 {
                Some(v as usize)
            } else {
                None
            }
        },
        None => {
            proof {
                if all_digits(unsigned_part(s@)) && digits_value(unsigned_part(s@)) <= usize::MAX {
                    assert(usize::MAX <= u64::MAX);
                }
            }
            None
        },
    }
}

/// The text after an optional leading sign, '+' or '-'.
pub open spec fn signed_part(s: Seq<char>) -> Seq<char> {
    if s.len() > 0 && (s[0] == '+' || s[0] == '-') {
        s.drop_first()
    } else {
        s
    }
}

/// The `i32` a text denotes (the grammar of `i32::from_str`): an optional
/// sign and at least one decimal digit, with a value that fits.
pub open spec fn parse_i32_spec(s: Seq<char>) -> Option<i32> {
    let d = signed_part(s);
    if !all_digits(d) {
        None
    } else if s[0] == '-' {
        if digits_value(d) <= 0x8000_0000 {
            Some((0 - digits_value(d)) as i32)
        } else {
            None
        }
    } else if digits_value(d) <= i32::MAX {
        Some(digits_value(d) as i32)
    } else {
        None
    }
}

/// Parses `s` as an `i32` the way `i32::from_str` does.
pub fn parse_i32(s: &[char]) -> (r: Option<i32>)
    ensures
        r == parse_i32_spec(s@),
{
    let n = s.len();
    let negative = n > 0 && s[0] == '-';
    let start: usize = if n > 0 && (s[0] == '+' || s[0] == '-') {
        1
    } else {
        0
    };
    let rest = crate::service::slice_chars(s, start, n);
    assert(rest@ =~= signed_part(s@));
    if rest.len() > 0 && rest[0] == '+' {
        assert(!is_digit(rest@[0]));
        return None;
    }
    assert(unsigned_part(rest@) == rest@);
    match parse_u64(rest.as_slice()) {
        None => {
            proof {
                if all_digits(rest@) {
                    assert(digits_value(rest@) > u64::MAX);
                }
            }
            None
        },
        Some(v) => {
            if negative {
                if v <= 0x8000_0000 {
                    Some((0 - (v as i64)) as i32)
                } else {
                    None
                }
            } else if v <= 0x7FFF_FFFF {
                Some(v as i32)
            } else {
                None
            }
        },
    }
}

/// `text` padded with spaces on the right to at least `width` characters.
pub open spec fn pad_right(text: Seq<char>, width: nat) -> Seq<char> {
    if text.len() >= width {
        text
    } else {
        text + Seq::new((width - text.len()) as nat, |i: int| ' ')
    }
}

/// `text` padded with `fill` on the left to at least `width` characters.
pub open spec fn pad_left(text: Seq<char>, width: nat, fill: char) -> Seq<char> {
    if text.len() >= width {
        text
    } else {
        Seq::new((width - text.len()) as nat, |i: int| fill) + text
    }
}

/// Appends `text` padded with spaces on the right to `width` characters.
pub fn push_padded_right(s: &mut String, text: &[char], width: usize)
    ensures
        final(s)@ == old(s)@ + pad_right(text@, width as nat),
{
    let mut i: usize = 0;
    while i < text.len()
        invariant
            i <= text@.len(),
            s@ == old(s)@ + text@.take(i as int),
        decreases text@.len() - i,
    {
        string_push(s, text[i]);
        i = i + 1;
        assert(s@ =~= old(s)@ + text@.take(i as int));
    }
    assert(text@.take(i as int) =~= text@);
    let mut k: usize = text.len();
    while k < width
        invariant
            text@.len() <= k <= width || (k == text@.len() && k >= width),
            s@ == old(s)@ + text@ + Seq::new((k - text@.len()) as nat, |i: int| ' '),
        decreases width - k,
    {
        string_push(s, ' ');
        k = k + 1;
        assert(s@ =~= old(s)@ + text@ + Seq::new((k - text@.len()) as nat, |i: int| ' '));
    }
    if text.len() >= width {
        assert(s@ =~= old(s)@ + text@);
    } else {
        assert(s@ =~= old(s)@ + pad_right(text@, width as nat));
    }
}

/// Appends `text` padded with `fill` on the left to `width` characters.
pub fn push_padded_left(s: &mut String, text: &[char], width: usize, fill: char)
    ensures
        final(s)@ == old(s)@ + pad_left(text@, width as nat, fill),
{
    let mut k: usize = text.len();
    while k < width
        invariant
            text@.len() <= k <= width || (k == text@.len() && k >= width),
            s@ == old(s)@ + Seq::new((k - text@.len()) as nat, |i: int| fill),
        decreases width - k,
    {
        string_push(s, fill);
        k = k + 1;
        assert(s@ =~= old(s)@ + Seq::new((k - text@.len()) as nat, |i: int| fill));
    }
    let ghost mid = s@;
    let mut i: usize = 0;
    while i < text.len()
        invariant
            i <= text@.len(),
            s@ == mid + text@.take(i as int),
        decreases text@.len() - i,
    {
        string_push(s, text[i]);
        i = i + 1;
        assert(s@ =~= mid + text@.take(i as int));
    }
    assert(text@.take(i as int) =~= text@);
    if text.len() >= width {
        assert(s@ =~= old(s)@ + text@);
    } else {
        assert(s@ =~= old(s)@ + pad_left(text@, width as nat, fill));
    }
}

/// The decimal digits of `n` as characters.
pub fn decimal_chars(n: u128) -> (r: Vec<char>)
    ensures
        r@ == decimal(n as nat),
{
    let s = crate::text::to_decimal(n);
    chars_of(s.as_str())
}

} // verus!
