//! The settings read at start-up: the listening port, whether the shell tool
//! is enabled, and the host name of a single configured git forge.
use vstd::prelude::*;
use vstd::string::*;

use crate::text::{chars_of, string_of, matches_at, ascii_lower, eq_ignore_ascii_case};

verus! {

/// The port used when none is configured or the setting is not a port.
pub const DEFAULT_PORT: u16 = 8080;

/// `c` is an ASCII decimal digit.
pub open spec fn is_digit(c: char) -> bool {
    '0' <= c && c <= '9'
}

/// The value of a string of decimal digits.
pub open spec fn digits_value(d: Seq<char>) -> nat
    decreases d.len(),
{
    if d.len() == 0 {
        0
    } else {
        digits_value(d.drop_last()) * 10 + ((d.last() as u32) - ('0' as u32)) as nat
    }
}

/// `s` without one leading `+`.
pub open spec fn unsigned_part(s: Seq<char>) -> Seq<char> {
    if s.len() > 0 && s[0] == '+' {
        s.drop_first()
    } else {
        s
    }
}

/// Every character of `d` is a digit.
pub open spec fn all_digits(d: Seq<char>) -> bool {
    forall|i: int| 0 <= i < d.len() ==> is_digit(d[i])
}

/// What `str::parse::<u16>` gives: an optional `+`, then one or more digits
/// whose value fits in 16 bits.
pub open spec fn parse_u16_model(s: Seq<char>) -> Option<u16> {
    let d = unsigned_part(s);
    if d.len() > 0 && all_digits(d) && digits_value(d) <= u16::MAX {
        Some(digits_value(d) as u16)
    } else {
        None
    }
}

proof fn lemma_digits_value_grows(d: Seq<char>, k: int)
    requires
        0 <= k <= d.len(),
        forall|i: int| 0 <= i < d.len() ==> is_digit(d[i]),
    ensures
        digits_value(d.take(k)) <= digits_value(d),
    decreases d.len() - k,
{
    if k < d.len() {
        assert(d.drop_last().take(k) =~= d.take(k));
        lemma_digits_value_grows(d.drop_last(), k);
    } else {
        assert(d.take(k) =~= d);
    }
}

/// `s` read as a 16-bit unsigned number.
pub fn parse_u16(s: &str) -> (r: Option<u16>)
    ensures
        r == parse_u16_model(s@),
{
    let v = chars_of(s);
    let start: usize = if v.len() > 0 && v[0] == '+' {
        1
    } else {
        0
    };
    let ghost d = unsigned_part(s@);
    assert(d =~= v@.skip(start as int));
    if start == v.len() {
        return None;
    }
    let mut acc: u32 = 0;
    let mut i = start;
    while i < v.len()
        invariant
            start <= i <= v.len(),
            start < v.len(),
            v@ == s@,
            d == v@.skip(start as int),
            d == unsigned_part(s@),
            acc as nat == digits_value(d.take(i - start)),
            acc <= u16::MAX,
            forall|m: int| 0 <= m < i - start ==> is_digit(d[m]),
        decreases v.len() - i,
    {
        let c = v[i];
        assert(d[i - start] == c);
        if !('0' <= c && c <= '9') {
            assert(!is_digit(d[i - start]));
            assert(parse_u16_model(s@) is None);
            return None;
        }
        let digit = (c as u32) - ('0' as u32);
        assert(d.take(i - start + 1).drop_last() =~= d.take(i - start));
        assert(d.take(i - start + 1).last() == c);
        acc = acc * 10 + digit;
        if acc > 0xFFFF {
            proof {
                let k = i - start + 1;
                if all_digits(d) {
                    lemma_digits_value_grows(d, k);
                }
                assert(parse_u16_model(s@) is None);
            }
            return None;
        }
        i += 1;
    }
    assert(d.take(v.len() - start) =~= d);
    Some(acc as u16)
}

/// The port from its setting, or the default when there is none or it is
/// not a 16-bit number.
pub fn port_setting(value: Option<&str>) -> (port: u16)
    ensures
        port == match value {
            Some(s) => match parse_u16_model(s@) {
                Some(p) => p,
                None => DEFAULT_PORT,
            },
            None => DEFAULT_PORT,
        },
{
    match value {
        Some(s) => match parse_u16(s) {
            Some(p) => p,
            None => DEFAULT_PORT,
        },
        None => DEFAULT_PORT,
    }
}

/// Whether the shell tool is enabled: only when its setting reads `true`,
/// in any case.
pub fn exec_enabled_setting(value: Option<&str>) -> (enabled: bool)
    ensures
        enabled == match value {
            Some(s) => eq_ignore_ascii_case(s@, "true"@),
            None => false,
        },
{
    match value {
        None => false,
        Some(s) => {
            let v = chars_of(s);
            let t = chars_of("true");
            proof {
                reveal_strlit("true");
            }
            if v.len() != t.len() {
                return false;
            }
            let mut i: usize = 0;
            while i < v.len()
                invariant
                    i <= v.len(),
                    value == Some(s),
                    v.len() == t.len(),
                    v@ == s@,
                    t@ == "true"@,
                    forall|m: int| 0 <= m < i ==> ascii_lower(v@[m]) == ascii_lower(t@[m]),
                decreases v.len() - i,
            {
                let a = v[i];
                let b = t[i];
                let la: u32 = if 'A' <= a && a <= 'Z' {
                    (a as u32) + 32
                } else {
                    a as u32
                };
                let lb: u32 = if 'A' <= b && b <= 'Z' {
                    (b as u32) + 32
                } else {
                    b as u32
                };
                assert(la == ascii_lower(v@[i as int]));
                assert(lb == ascii_lower(t@[i as int]));
                if la != lb {
                    return false;
                }
                i += 1;
            }
            true
        },
    }
}

/// `s` without every leading copy of `p` (as `str::trim_start_matches`).
pub open spec fn trim_start_matches(s: Seq<char>, p: Seq<char>) -> Seq<char>
    decreases s.len(),
{
    if p.len() > 0 && p.len() <= s.len() && s.take(p.len() as int) == p {
        trim_start_matches(s.skip(p.len() as int), p)
    } else {
        s
    }
}

/// `s` without every trailing `c` (as `str::trim_end_matches`).
pub open spec fn trim_end_char(s: Seq<char>, c: char) -> Seq<char>
    decreases s.len(),
{
    if s.len() > 0 && s.last() == c {
        trim_end_char(s.drop_last(), c)
    } else {
        s
    }
}

/// A configured forge host reduced to a bare host name: leading `https://`
/// then `http://` prefixes and trailing slashes removed.
pub open spec fn forge_host_model(host: Seq<char>) -> Seq<char> {
    trim_end_char(trim_start_matches(trim_start_matches(host, "https://"@), "http://"@), '/')
}

/// The index after the copies of `p` that follow each other from `start`.
fn skip_prefixes(v: &Vec<char>, p: &Vec<char>, start: usize) -> (k: usize)
    requires
        p.len() > 0,
        start <= v.len(),
    ensures
        start <= k <= v.len(),
        trim_start_matches(v@.skip(start as int), p@) == v@.skip(k as int),
{
    let mut k = start;
    while p.len() <= v.len() - k && matches_at(v, p, k)
        invariant
            p.len() > 0,
            start <= k <= v.len(),
            trim_start_matches(v@.skip(start as int), p@) == trim_start_matches(v@.skip(k as int), p@),
        decreases v.len() - k,
    {
        assert(v@.skip(k as int).take(p.len() as int) =~= v@.subrange(k as int, k + p.len()));
        assert(v@.skip(k as int).skip(p.len() as int) =~= v@.skip(k + p.len()));
        k += p.len();
    }
    proof {
        if p.len() <= v.len() - k {
            assert(v@.skip(k as int).take(p.len() as int) =~= v@.subrange(k as int, k + p.len()));
        }
    }
    k
}

/// The bare host name of a configured forge host.
pub fn forge_host(host: &str) -> (r: String)
    ensures
        r@ == forge_host_model(host@),
{
    let v = chars_of(host);
    let https = chars_of("https://");
    let http = chars_of("http://");
    proof {
        reveal_strlit("https://");
        reveal_strlit("http://");
        assert(v@.skip(0) =~= host@);
    }
    let k1 = skip_prefixes(&v, &https, 0);
    let k2 = skip_prefixes(&v, &http, k1);
    let mut b = v.len();
    assert(v@.subrange(k2 as int, b as int) =~= v@.skip(k2 as int));
    while b > k2 && v[b - 1] == '/'
        invariant
            k2 <= b <= v.len(),
            trim_end_char(v@.skip(k2 as int), '/') == trim_end_char(v@.subrange(k2 as int, b as int), '/'),
        decreases b,
    {
        assert(v@.subrange(k2 as int, b as int).drop_last() =~= v@.subrange(k2 as int, b - 1));
        b -= 1;
    }
    string_of(&v, k2, b)
}

} // verus!
