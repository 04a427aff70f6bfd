use vstd::prelude::*;

verus! {

/// The CLTV delta used when the configuration sets none.
pub const DEFAULT_CLTV_DELTA: u32 = 42;

/// Why the configuration was refused.
#[derive(Debug, Clone, Copy, PartialEq, Eq, Structural)]
pub enum ConfigError {
    /// The `cltv-delta` line holds no number that fits a `u32`.
    InvalidDelta,
}

/// The configuration that every command and every admission reads.
#[derive(Debug, Clone, Copy, PartialEq, Eq, Structural)]
pub struct PluginState {
    /// The configured CLTV delta.
    pub cltv_delta: u32,
    /// The last block height seen.
    pub blockheight: u64,
}

impl PluginState {
    /// The state before the configuration is read.
    pub fn new() -> (r: PluginState)
        ensures
            r.cltv_delta == DEFAULT_CLTV_DELTA,
            r.blockheight == 0,
    {
        PluginState { cltv_delta: DEFAULT_CLTV_DELTA, blockheight: 0 }
    }
}

pub open spec fn is_digit(b: u8) -> bool {
    48 <= b && b <= 57
}

/// The number that a string of decimal digits writes.
pub open spec fn dec_value(s: Seq<u8>) -> nat
    decreases s.len(),
{
    if s.len() == 0 {
        0
    } else {
        dec_value(s.drop_last()) * 10 + (s.last() - 48) as nat
    }
}

/// The `u32` that a text writes in decimal, after an optional `+`.
pub open spec fn parse_u32(v: Seq<u8>) -> Option<u32> {
    if v.len() > 0 && v[0] == 43 {
        parse_digits(v.drop_first())
    } else {
        parse_digits(v)
    }
}

/// The `u32` that a nonempty string of decimal digits writes.
pub open spec fn parse_digits(digits: Seq<u8>) -> Option<u32> {
    if digits.len() == 0 {
        None
    } else if exists|i: int| 0 <= i < digits.len() && !is_digit(#[trigger] digits[i]) {
        None
    } else if dec_value(digits) > u32::MAX {
        None
    } else {
        Some(dec_value(digits) as u32)
    }
}

/// The key of the setting that this configuration reads.
pub open spec fn delta_key() -> Seq<u8> {
    seq![99u8, 108, 116, 118, 45, 100, 101, 108, 116, 97]
}

pub open spec fn count_eq(line: Seq<u8>) -> nat
    decreases line.len(),
{
    if line.len() == 0 {
        0
    } else {
        count_eq(line.drop_last()) + if line.last() == 61 {
            1nat
        } else {
            0nat
        }
    }
}

/// The position of the first `=` in a line, or its length.
pub open spec fn eq_pos(line: Seq<u8>, i: int) -> int
    decreases line.len() - i,
{
    if i >= line.len() || line[i] == 61 {
        i
    } else {
        eq_pos(line, i + 1)
    }
}

/// The delta after one line: a line `name=value` with a single `=` whose
/// name is `cltv-delta` sets it; any other line leaves it.
pub open spec fn line_setting(line: Seq<u8>, cur: u32) -> Result<u32, ConfigError> {
    if count_eq(line) != 1 {
        Ok(cur)
    } else {
        let k = eq_pos(line, 0);
        if line.subrange(0, k) != delta_key() {
            Ok(cur)
        } else {
            match parse_u32(line.subrange(k + 1, line.len() as int)) {
                Some(n) => Ok(n),
                None => Err(ConfigError::InvalidDelta),
            }
        }
    }
}

/// The end of the line that starts at `i`: the next newline, or the end.
pub open spec fn line_end(t: Seq<u8>, i: int) -> int
    decreases t.len() - i,
{
    if i >= t.len() || t[i] == 10 {
        i
    } else {
        line_end(t, i + 1)
    }
}

/// The line from `i` to `j`, without the carriage return of a `\r\n` ending.
pub open spec fn line_text(t: Seq<u8>, i: int, j: int) -> Seq<u8> {
    if j < t.len() && j > i && t[j - 1] == 13 {
        t.subrange(i, j - 1)
    } else {
        t.subrange(i, j)
    }
}

/// The delta after the lines that start at `i`, in order.
pub open spec fn delta_from(t: Seq<u8>, i: int, cur: u32) -> Result<u32, ConfigError>
    decreases t.len() - i,
{
    if i < 0 || i >= t.len() {
        Ok(cur)
    } else {
        let j = line_end(t, i);
        if j < i || j > t.len() {
            Ok(cur)
        } else {
            match line_setting(line_text(t, i, j), cur) {
                Err(e) => Err(e),
                Ok(c) => if j + 1 >= t.len() {
                    Ok(c)
                } else {
                    delta_from(t, j + 1, c)
                },
            }
        }
    }
}

/// A number written with more digits is at least as large as the number
/// its leading digits write.
proof fn lemma_dec_value_prefix(s: Seq<u8>, n: int)
    requires
        0 <= n <= s.len(),
    ensures
        dec_value(s) >= dec_value(s.subrange(0, n)),
    decreases s.len(),
{
    if n < s.len() {
        lemma_dec_value_prefix(s.drop_last(), n);
        assert(s.drop_last().subrange(0, n) =~= s.subrange(0, n));
    } else {
        assert(s.subrange(0, n) =~= s);
    }
}

/// The `u32` written in `t[lo..hi]`.
fn parse_u32_at(t: &[u8], lo: usize, hi: usize) -> (r: Option<u32>)
    requires
        lo <= hi <= t@.len(),
    ensures
        r == parse_u32(t@.subrange(lo as int, hi as int)),
{
    let ghost v = t@.subrange(lo as int, hi as int);
    let mut k = lo;
    if k < hi && t[k] == 43 {
        k = k + 1;
        assert(v.drop_first() =~= t@.subrange(k as int, hi as int));
    } else {
        assert(v =~= t@.subrange(k as int, hi as int));
    }
    let ghost digits = t@.subrange(k as int, hi as int);
    assert(parse_u32(v) == parse_digits(digits));
    if k == hi {
        return None;
    }
    let mut acc: u64 = 0;
    let mut p = k;
    while p < hi
        invariant
            lo <= k <= p <= hi <= t@.len(),
            digits == t@.subrange(k as int, hi as int),
            k < hi,
            parse_u32(t@.subrange(lo as int, hi as int)) == parse_digits(digits),
            acc == dec_value(t@.subrange(k as int, p as int)),
            acc <= u32::MAX,
            forall|q: int| k <= q < p ==> is_digit(#[trigger] t@[q]),
        decreases hi - p,
    {
        let b = t[p];
        if b < 48 || b > 57 {
            assert(!is_digit(digits[p - k]));
            return None;
        }
        let ghost prefix = t@.subrange(k as int, p as int + 1);
        assert(prefix.drop_last() =~= t@.subrange(k as int, p as int));
        let next = acc * 10 + (b - 48) as u64;
        if next > u32::MAX as u64 {
            proof {
                lemma_dec_value_prefix(digits, p - k + 1);
                assert(digits.subrange(0, p - k + 1) =~= prefix);
                assert(dec_value(prefix) == next);
            }
            return None;
        }
        acc = next;
        p = p + 1;
    }
    assert(t@.subrange(k as int, p as int) =~= digits);
    assert forall|i: int| 0 <= i < digits.len() implies is_digit(#[trigger] digits[i]) by {
        assert(digits[i] == t@[k + i]);
    }
    Some(acc as u32)
}

/// Whether `t[lo..hi]` is the key `cltv-delta`.
fn is_delta_key(t: &[u8], lo: usize, hi: usize) -> (r: bool)
    requires
        lo <= hi <= t@.len(),
    ensures
        r == (t@.subrange(lo as int, hi as int) == delta_key()),
{
    let ghost name = t@.subrange(lo as int, hi as int);
    if hi - lo != 10 {
        assert(name.len() != delta_key().len());
        return false;
    }
    let r = t[lo] == 99 && t[lo + 1] == 108 && t[lo + 2] == 116 && t[lo + 3] == 118 && t[lo + 4]
        == 45 && t[lo + 5] == 100 && t[lo + 6] == 101 && t[lo + 7] == 108 && t[lo + 8] == 116
        && t[lo + 9] == 97;
    let ghost key = delta_key();
    assert(key.len() == 10 && key[0] == 99 && key[1] == 108 && key[2] == 116 && key[3] == 118
        && key[4] == 45 && key[5] == 100 && key[6] == 101 && key[7] == 108 && key[8] == 116
        && key[9] == 97);
    if r {
        assert(name =~= key);
    } else {
        assert(name != key) by {
            if name == key {
                assert(name[0] == key[0] && name[1] == key[1] && name[2] == key[2] && name[3]
                    == key[3] && name[4] == key[4] && name[5] == key[5] && name[6] == key[6]
                    && name[7] == key[7] && name[8] == key[8] && name[9] == key[9]);
            }
        }
    }
    r
}

/// The delta after the line `t[lo..hi]`.
fn line_setting_at(t: &[u8], lo: usize, hi: usize, cur: u32) -> (r: Result<u32, ConfigError>)
    requires
        lo <= hi <= t@.len(),
    ensures
        r == line_setting(t@.subrange(lo as int, hi as int), cur),
{
    let ghost line = t@.subrange(lo as int, hi as int);
    let mut count: usize = 0;
    let mut p = lo;
    while p < hi
        invariant
            lo <= p <= hi <= t@.len(),
            line == t@.subrange(lo as int, hi as int),
            count <= p - lo,
            count == count_eq(t@.subrange(lo as int, p as int)),
        decreases hi - p,
    {
        assert(t@.subrange(lo as int, p as int + 1).drop_last() =~= t@.subrange(
            lo as int,
            p as int,
        ));
        if t[p] == 61 {
            count = count + 1;
        }
        p = p + 1;
    }
    assert(t@.subrange(lo as int, p as int) =~= line);
    if count != 1 {
        return Ok(cur);
    }
    let mut k = lo;
    while k < hi && t[k] != 61
        invariant
            lo <= k <= hi <= t@.len(),
            line == t@.subrange(lo as int, hi as int),
            eq_pos(line, 0) == eq_pos(line, k - lo),
        decreases hi - k,
    {
        k = k + 1;
    }
    assert(eq_pos(line, 0) == k - lo);
    assert(line.subrange(0, k - lo) =~= t@.subrange(lo as int, k as int));
    if !is_delta_key(t, lo, k) {
        return Ok(cur);
    }
    if k == hi {
        assert(count_eq(line) == 0) by {
            assert forall|m: int| 0 <= m <= line.len() implies count_eq(#[trigger] line.subrange(0, m)) == 0 by {
                lemma_no_eq_count(line, m);
            }
            assert(line.subrange(0, line.len() as int) =~= line);
        }
        return Ok(cur);
    }
    assert(line.subrange(k - lo + 1, line.len() as int) =~= t@.subrange(k as int + 1, hi as int));
    match parse_u32_at(t, k + 1, hi) {
        Some(n) => Ok(n),
        None => Err(ConfigError::InvalidDelta),
    }
}

proof fn lemma_no_eq_count(line: Seq<u8>, m: int)
    requires
        0 <= m <= line.len(),
        forall|i: int| 0 <= i < line.len() ==> #[trigger] line[i] != 61,
    ensures
        count_eq(line.subrange(0, m)) == 0,
    decreases m,
{
    if m > 0 {
        lemma_no_eq_count(line, m - 1);
        assert(line.subrange(0, m).drop_last() =~= line.subrange(0, m - 1));
    }
}

/// The CLTV delta that a configuration text sets, starting from `default`:
/// each line `cltv-delta=<n>` sets it, the last one wins, other lines are
/// ignored, and a value that is no `u32` is an error.
pub fn read_config(text: &[u8], default: u32) -> (r: Result<u32, ConfigError>)
    ensures
        r == delta_from(text@, 0, default),
{
    let mut i: usize = 0;
    let mut cur = default;
    while i < text.len()
        invariant
            i <= text@.len(),
            delta_from(text@, 0, default) == delta_from(text@, i as int, cur),
        decreases text@.len() - i,
    {
        let mut j = i;
        while j < text.len() && text[j] != 10
            invariant
                i <= j <= text@.len(),
                line_end(text@, i as int) == line_end(text@, j as int),
            decreases text@.len() - j,
        {
            j = j + 1;
        }
        let hi = if j < text.len() && j > i && text[j - 1] == 13 {
            j - 1
        } else {
            j
        };
        assert(line_text(text@, i as int, j as int) == text@.subrange(i as int, hi as int));
        match line_setting_at(text, i, hi, cur) {
            Err(e) => return Err(e),
            Ok(c) => cur = c,
        }
        if j >= text.len() || j + 1 >= text.len() {
            return Ok(cur);
        }
        i = j + 1;
    }
    Ok(cur)
}

} // verus!
