//! Verified parsers for platform window identifiers: the decimal ids the X
//! window system reports and the `HWND(0x..)` text form used on Windows.

use vstd::prelude::*;

verus! {

use crate::strutil::str_to_chars;

/// Numeric value of a digit character, hexadecimal digits included;
/// `None` for any other character.
pub open spec fn spec_digit_val(c: char) -> Option<u8> {
    let v = c as u32;
    if 48 <= v <= 57 {
        Some((v - 48) as u8)
    } else if 97 <= v <= 102 {
        Some((v - 87) as u8)
    } else if 65 <= v <= 70 {
        Some((v - 55) as u8)
    } else {
        None
    }
}

/// Reads the digits of `s` in the given base into an accumulator started at
/// `acc`; `None` as soon as a character is no digit of that base.
pub open spec fn spec_parse_radix_acc(s: Seq<char>, base: nat, acc: nat) -> Option<nat>
    decreases s.len(),
{
    if s.len() == 0 {
        Some(acc)
    } else {
        match spec_digit_val(s[0]) {
            Some(d) => {
                if d < base {
                    spec_parse_radix_acc(s.drop_first(), base, acc * base + d as nat)
                } else {
                    None
                }
            },
            None => None,
        }
    }
}

/// The non-negative integer written in `s` in the given base; `None` when `s`
/// is empty or holds a character that is no digit of that base.
pub open spec fn spec_parse_radix(s: Seq<char>, base: nat) -> Option<nat> {
    if s.len() == 0 {
        None
    } else {
        spec_parse_radix_acc(s, base, 0)
    }
}

/// A successful parse never comes out below its accumulator.
proof fn lemma_parse_acc_lower(s: Seq<char>, base: nat, acc: nat)
    requires
        base >= 1,
    ensures
        spec_parse_radix_acc(s, base, acc) matches Some(v) ==> v >= acc,
    decreases s.len(),
{
    if s.len() > 0 {
        match spec_digit_val(s[0]) {
            Some(d) => {
                if d < base {
                    lemma_parse_acc_lower(s.drop_first(), base, acc * base + d as nat);
                    assert(acc * base >= acc * 1) by (nonlinear_arith)
                        requires
                            base >= 1,
                            acc >= 0,
                    ;
                }
            },
            None => {},
        }
    }
}

/// Numeric value of a digit character, or `None`.
fn digit_val(c: char) -> (r: Option<u8>)
    ensures
        r == spec_digit_val(c),
{
    let v = c as u32;
    if 48 <= v && v <= 57 {
        Some((v - 48) as u8)
    } else if 97 <= v && v <= 102 {
        Some((v - 87) as u8)
    } else if 65 <= v && v <= 70 {
        Some((v - 55) as u8)
    } else {
        None
    }
}

/// Parses `v[from..to]` as an unsigned integer in the given base, rejecting
/// values above `max` exactly as a bounded integer parse does.
pub fn parse_radix_chars(v: &Vec<char>, from: usize, to: usize, base: u64, max: u64) -> (r: Option<
    u64,
>)
    requires
        from <= to <= v@.len(),
        2 <= base <= 16,
        max >= 15,
    ensures
        match r {
            Some(x) => spec_parse_radix(v@.subrange(from as int, to as int), base as nat) == Some(
                x as nat,
            ) && x <= max,
            None => {
                ||| spec_parse_radix(v@.subrange(from as int, to as int), base as nat) is None
                ||| (spec_parse_radix(v@.subrange(from as int, to as int), base as nat)
                    matches Some(n) && n > max)
            },
        },
{
    let ghost full = v@.subrange(from as int, to as int);
    if from == to {
        return None;
    }
    let mut i: usize = from;
    let mut acc: u64 = 0;
    while i < to
        invariant
            from <= i <= to <= v@.len(),
            2 <= base <= 16,
            max >= 15,
            acc <= max,
            full == v@.subrange(from as int, to as int),
            spec_parse_radix_acc(full, base as nat, 0) == spec_parse_radix_acc(
                v@.subrange(i as int, to as int),
                base as nat,
                acc as nat,
            ),
        decreases to - i,
    {
        let ghost rest = v@.subrange(i as int, to as int);
        proof {
            assert(rest[0] == v@[i as int]);
            assert(rest.drop_first() =~= v@.subrange(i + 1, to as int));
        }
        let d = match digit_val(v[i]) {
            Some(d) => d,
            None => {
                return None;
            },
        };
        if d as u64 >= base {
            return None;
        }
        // Reject the value as soon as it would exceed `max`.
        if acc > (max - d as u64) / base {
            proof {
                let m = max as int - d as int;
                let b = base as int;
                vstd::arithmetic::div_mod::lemma_fundamental_div_mod(m, b);
                assert(acc as int * b + d as int > max as int) by (nonlinear_arith)
                    requires
                        acc as int >= m / b + 1,
                        b >= 2,
                        d as int >= 0,
                        max as int == m + d as int,
                        m == b * (m / b) + m % b,
                        0 <= m % b,
                        m % b < b,
                ;
                lemma_parse_acc_lower(rest.drop_first(), base as nat, (acc * base + d) as nat);
            }
            return None;
        }
        proof {
            let m = max as int - d as int;
            let b = base as int;
            vstd::arithmetic::div_mod::lemma_fundamental_div_mod(m, b);
            assert(acc as int * b + d as int <= max as int) by (nonlinear_arith)
                requires
                    acc as int <= m / b,
                    b >= 2,
                    d as int >= 0,
                    max as int == m + d as int,
                    m == b * (m / b) + m % b,
                    0 <= m % b,
                    m % b < b,
            ;
        }
        acc = acc * base + d as u64;
        i += 1;
    }
    proof {
        assert(v@.subrange(i as int, to as int) =~= Seq::<char>::empty());
    }
    Some(acc)
}

/// Strips every leading `0x` pair from the text, the way a repeated prefix
/// strip does.
pub open spec fn spec_strip_leading_0x(s: Seq<char>) -> Seq<char>
    decreases s.len(),
{
    if s.len() >= 2 && s[0] == '0' && s[1] == 'x' {
        spec_strip_leading_0x(s.skip(2))
    } else {
        s
    }
}

/// Whether the character has the Unicode white-space property, the set a
/// string trim removes.
pub open spec fn spec_is_space(c: char) -> bool {
    let v = c as u32;
    v == 9 || v == 10 || v == 11 || v == 12 || v == 13 || v == 32 || v == 0x85 || v == 0xA0 || v
        == 0x1680 || (0x2000 <= v && v <= 0x200A) || v == 0x2028 || v == 0x2029 || v == 0x202F
        || v == 0x205F || v == 0x3000
}

/// Whether the character is trimmed as whitespace.
fn is_space(c: char) -> (r: bool)
    ensures
        r == spec_is_space(c),
{
    let v = c as u32;
    v == 9 || v == 10 || v == 11 || v == 12 || v == 13 || v == 32 || v == 0x85 || v == 0xA0 || v
        == 0x1680 || (0x2000 <= v && v <= 0x200A) || v == 0x2028 || v == 0x2029 || v == 0x202F
        || v == 0x205F || v == 0x3000
}

/// The text with its leading whitespace removed.
pub open spec fn spec_trim_front(s: Seq<char>) -> Seq<char>
    decreases s.len(),
{
    if s.len() > 0 && spec_is_space(s[0]) {
        spec_trim_front(s.drop_first())
    } else {
        s
    }
}

/// The text with its trailing whitespace removed.
pub open spec fn spec_trim_back(s: Seq<char>) -> Seq<char>
    decreases s.len(),
{
    if s.len() > 0 && spec_is_space(s.last()) {
        spec_trim_back(s.drop_last())
    } else {
        s
    }
}

/// The text with whitespace removed from both ends.
pub open spec fn spec_trim(s: Seq<char>) -> Seq<char> {
    spec_trim_back(spec_trim_front(s))
}

/// The digits after an optional leading plus sign, the one sign an unsigned
/// integer parse accepts.
pub open spec fn spec_after_sign(s: Seq<char>) -> Seq<char> {
    if s.len() > 0 && s[0] == '+' {
        s.drop_first()
    } else {
        s
    }
}

/// The window handle written as `HWND(<hex>)` with optional surrounding
/// whitespace, `0x` prefixes and a plus sign on the digits; `None` when the
/// text has another shape, no digits, or a value beyond `u64`.
pub open spec fn spec_parse_hwnd(s: Seq<char>) -> Option<nat> {
    let t = spec_trim(s);
    if t.len() >= 6 && t.subrange(0, 5) == "HWND("@ && t[t.len() - 1] == ')' {
        spec_parse_radix(spec_after_sign(spec_strip_leading_0x(t.subrange(5, t.len() - 1))), 16)
    } else {
        None
    }
}

/// Parses the `HWND(0x1A2B)` text form of a Windows window handle, trimming
/// surrounding whitespace the way the original id text may carry it.
pub fn parse_hwnd(window_id: &str) -> (r: Option<u64>)
    ensures
        match r {
            Some(x) => spec_parse_hwnd(window_id@) == Some(x as nat),
            None => {
                ||| spec_parse_hwnd(window_id@) is None
                ||| (spec_parse_hwnd(window_id@) matches Some(n) && n > u64::MAX)
            },
        },
{
    let v = str_to_chars(window_id);
    let len = v.len();
    proof {
        reveal_strlit("HWND(");
        assert(v@.skip(0) =~= v@);
    }
    // Trim the whitespace off both ends.
    let mut a: usize = 0;
    while a < len && is_space(v[a])
        invariant
            a <= len,
            len == v@.len(),
            v@ == window_id@,
            spec_trim_front(window_id@) == spec_trim_front(v@.skip(a as int)),
        decreases len - a,
    {
        proof {
            let cur = v@.skip(a as int);
            assert(cur[0] == v@[a as int]);
            assert(cur.drop_first() =~= v@.skip(a + 1));
        }
        a += 1;
    }
    proof {
        let cur = v@.skip(a as int);
        if a < len {
            assert(cur[0] == v@[a as int]);
        }
        assert(spec_trim_front(window_id@) == cur);
        assert(v@.skip(a as int) =~= v@.subrange(a as int, len as int));
    }
    let mut b: usize = len;
    while b > a && is_space(v[b - 1])
        invariant
            a <= b <= len,
            len == v@.len(),
            v@ == window_id@,
            spec_trim(window_id@) == spec_trim_back(v@.subrange(a as int, b as int)),
        decreases b,
    {
        proof {
            let cur = v@.subrange(a as int, b as int);
            assert(cur.last() == v@[b - 1]);
            assert(cur.drop_last() =~= v@.subrange(a as int, b - 1));
        }
        b -= 1;
    }
    let ghost t = spec_trim(window_id@);
    proof {
        let cur = v@.subrange(a as int, b as int);
        if b > a {
            assert(cur.last() == v@[b - 1]);
        }
        assert(t == cur);
    }
    // The trimmed text is v[a..b]; check the HWND(...) shape on it.
    if b - a < 6 {
        return None;
    }
    if !(v[a] == 'H' && v[a + 1] == 'W' && v[a + 2] == 'N' && v[a + 3] == 'D' && v[a + 4] == '(') {
        proof {
            let sub = t.subrange(0, 5);
            let lit = "HWND("@;
            if sub == lit {
                assert(sub[0] == 'H' && sub[1] == 'W' && sub[2] == 'N' && sub[3] == 'D' && sub[4]
                    == '(');
                assert(t[0] == 'H' && t[1] == 'W' && t[2] == 'N' && t[3] == 'D' && t[4] == '(');
                assert(v@[a as int] == 'H' && v@[a + 1] == 'W' && v@[a + 2] == 'N' && v@[a + 3]
                    == 'D' && v@[a + 4] == '(');
            }
        }
        return None;
    }
    if v[b - 1] != ')' {
        proof {
            assert(t[t.len() - 1] == v@[b - 1]);
        }
        return None;
    }
    proof {
        assert(t.subrange(0, 5) =~= "HWND("@);
        assert(t[t.len() - 1] == v@[b - 1]);
    }
    let mut c: usize = a + 5;
    let end = b - 1;
    let ghost inner = t.subrange(5, t.len() - 1);
    proof {
        assert(inner =~= v@.subrange(a + 5, b - 1));
    }
    // Strip every leading 0x pair.
    while c + 1 < end && v[c] == '0' && v[c + 1] == 'x'
        invariant
            a + 5 <= c <= end,
            end == b - 1,
            a + 6 <= b <= len,
            len == v@.len(),
            v@ == window_id@,
            inner == spec_trim(window_id@).subrange(5, spec_trim(window_id@).len() - 1),
            spec_strip_leading_0x(inner) == spec_strip_leading_0x(
                v@.subrange(c as int, end as int),
            ),
        decreases end - c,
    {
        proof {
            let cur = v@.subrange(c as int, end as int);
            assert(cur[0] == v@[c as int] && cur[1] == v@[c + 1]);
            assert(cur.skip(2) =~= v@.subrange(c + 2, end as int));
        }
        c += 2;
    }
    proof {
        let cur = v@.subrange(c as int, end as int);
        if cur.len() >= 2 {
            assert(cur[0] == v@[c as int] && cur[1] == v@[c + 1]);
        }
        assert(spec_strip_leading_0x(cur) == cur);
    }
    // Allow the one sign an unsigned hex parse accepts.
    if c < end && v[c] == '+' {
        proof {
            let cur = v@.subrange(c as int, end as int);
            assert(cur[0] == v@[c as int]);
            assert(cur.drop_first() =~= v@.subrange(c + 1, end as int));
            assert(spec_after_sign(cur) == v@.subrange(c + 1, end as int));
        }
        c += 1;
    } else {
        proof {
            let cur = v@.subrange(c as int, end as int);
            if cur.len() > 0 {
                assert(cur[0] == v@[c as int]);
            }
            assert(spec_after_sign(cur) == cur);
        }
    }
    parse_radix_chars(&v, c, end, 16, u64::MAX)
}

/// Parses a decimal X window id, as `str::parse::<u32>` accepts it: an
/// optional plus sign, then decimal digits.
pub fn parse_window_id_dec(window_id: &str) -> (r: Option<u32>)
    ensures
        match r {
            Some(x) => spec_parse_radix(spec_after_sign(window_id@), 10) == Some(x as nat),
            None => {
                ||| spec_parse_radix(spec_after_sign(window_id@), 10) is None
                ||| (spec_parse_radix(spec_after_sign(window_id@), 10) matches Some(n) && n
                    > u32::MAX)
            },
        },
{
    let v = str_to_chars(window_id);
    let len = v.len();
    let from: usize = if len > 0 && v[0] == '+' {
        1
    } else {
        0
    };
    proof {
        assert(spec_after_sign(window_id@) =~= v@.subrange(from as int, len as int));
    }
    match parse_radix_chars(&v, from, len, 10, u32::MAX as u64) {
        Some(x) => Some(x as u32),
        None => None,
    }
}

} // verus!
