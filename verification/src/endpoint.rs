//! Parsing of the peer endpoint `"ip:port"` handed to the socket call.

use vstd::prelude::*;

use crate::text::{chars_of, string_of};

verus! {

/// An ASCII decimal digit.
pub open spec fn is_digit(c: char) -> bool {
    '0' <= c && c <= '9'
}

pub open spec fn all_digits(s: Seq<char>) -> bool {
    forall|i: int| 0 <= i < s.len() ==> #[trigger] is_digit(s[i])
}

/// The number that the decimal digits `s` spell.
pub open spec fn digits_value(s: Seq<char>) -> nat
    decreases s.len(),
{
    if s.len() == 0 {
        0
    } else {
        digits_value(s.drop_last()) * 10 + ((s.last() as int) - ('0' as int)) as nat
    }
}

/// What `u16::from_str` gives for `s`: an optional `+`, then one or more
/// ASCII digits whose value fits in 16 bits (leading zeros allowed).
pub open spec fn port_value(s: Seq<char>) -> Option<u16> {
    let digits = if s.len() > 0 && s[0] == '+' { s.drop_first() } else { s };
    if digits.len() > 0 && all_digits(digits) && digits_value(digits) <= 65535 {
        Some(digits_value(digits) as u16)
    } else {
        None
    }
}

/// What an IPv4 dotted-decimal octet spells: one to three ASCII digits,
/// no leading zero unless the octet is `0`, value at most 255.
pub open spec fn octet_value(s: Seq<char>) -> Option<u8> {
    if 1 <= s.len() <= 3 && all_digits(s) && !(s.len() > 1 && s[0] == '0') && digits_value(s) <= 255 {
        Some(digits_value(s) as u8)
    } else {
        None
    }
}

/// The pieces of `s` between occurrences of `sep` (there is always at
/// least one piece; `sep` at either end gives an empty piece there).
pub open spec fn split_on(s: Seq<char>, sep: char) -> Seq<Seq<char>>
    decreases s.len(),
{
    if s.len() == 0 {
        seq![Seq::<char>::empty()]
    } else {
        let rest = split_on(s.drop_last(), sep);
        if s.last() == sep {
            rest.push(Seq::<char>::empty())
        } else {
            rest.update(rest.len() - 1, rest.last().push(s.last()))
        }
    }
}

/// The four octets that `s` spells in dotted-decimal notation (what
/// `Ipv4Addr::from_str` accepts: exactly four octets, no octal or
/// hexadecimal forms).
pub open spec fn ipv4_octets(s: Seq<char>) -> Option<Seq<u8>> {
    let parts = split_on(s, '.');
    if parts.len() == 4 && (forall|i: int| 0 <= i < 4 ==> #[trigger] octet_value(parts[i]) is Some) {
        Some(Seq::new(4, |i: int| octet_value(parts[i])->0))
    } else {
        None
    }
}

/// The position of the last occurrence of `c` in `s`.
pub open spec fn last_index_of(s: Seq<char>, c: char) -> Option<int>
    decreases s.len(),
{
    if s.len() == 0 {
        None
    } else if s.last() == c {
        Some(s.len() - 1)
    } else {
        last_index_of(s.drop_last(), c)
    }
}

proof fn lemma_last_index_of(s: Seq<char>, c: char)
    ensures
        match last_index_of(s, c) {
            Some(i) => 0 <= i < s.len() && s[i] == c && forall|j: int| i < j < s.len() ==> s[j] != c,
            None => forall|j: int| 0 <= j < s.len() ==> s[j] != c,
        },
    decreases s.len(),
{
    if s.len() > 0 {
        lemma_last_index_of(s.drop_last(), c);
        assert(forall|j: int| 0 <= j < s.len() - 1 ==> s.drop_last()[j] == s[j]);
    }
}

/// A prefix of a digit string is worth no more than the whole.
proof fn lemma_digits_value_prefix(s: Seq<char>, k: int)
    requires
        0 <= k <= s.len(),
        all_digits(s),
    ensures
        digits_value(s.subrange(0, k)) <= digits_value(s),
    decreases s.len() - k,
{
    if k < s.len() {
        lemma_digits_value_prefix(s, k + 1);
        let p = s.subrange(0, k + 1);
        assert(p.drop_last() =~= s.subrange(0, k));
        assert(is_digit(s[k]));
        assert(p.last() == s[k]);
        assert(digits_value(p) == digits_value(s.subrange(0, k)) * 10 + ((s[k] as int) - ('0' as int)) as nat);
    } else {
        assert(s.subrange(0, k) =~= s);
    }
}

/// Reads the decimal digits `chars[from..to]`; `None` if one is not a digit
/// or the value exceeds `limit`.
fn read_decimal(chars: &Vec<char>, from: usize, to: usize, limit: u32) -> (res: Option<u32>)
    requires
        from <= to <= chars@.len(),
        limit <= 65535,
    ensures
        match res {
            Some(v) => all_digits(chars@.subrange(from as int, to as int))
                && v == digits_value(chars@.subrange(from as int, to as int)) && v <= limit,
            None => !(all_digits(chars@.subrange(from as int, to as int))
                && digits_value(chars@.subrange(from as int, to as int)) <= limit),
        },
{
    let ghost whole = chars@.subrange(from as int, to as int);
    let mut acc: u32 = 0;
    let mut i: usize = from;
    while i < to
        invariant
            from <= i <= to,
            to <= chars@.len(),
            limit <= 65535,
            whole == chars@.subrange(from as int, to as int),
            all_digits(chars@.subrange(from as int, i as int)),
            acc == digits_value(chars@.subrange(from as int, i as int)),
            acc <= limit,
        decreases to - i,
    {
        let c = chars[i];
        let ghost prefix = chars@.subrange(from as int, i as int);
        let ghost next = chars@.subrange(from as int, i + 1);
        assert(next.drop_last() =~= prefix);
        if !('0' <= c && c <= '9') {
            assert(whole[i - from] == c);
            assert(!is_digit(whole[i - from]));
            return None;
        }
        let d = (c as u32) - ('0' as u32);
        assert(all_digits(next)) by {
            assert forall|j: int| 0 <= j < next.len() implies #[trigger] is_digit(next[j]) by {
                if j < prefix.len() {
                    assert(next[j] == prefix[j]);
                }
            }
        }
        acc = acc * 10 + d;
        i = i + 1;
        if acc > limit {
            proof {
                if all_digits(whole) {
                    assert(whole.subrange(0, (i - from) as int) =~= next);
                    lemma_digits_value_prefix(whole, (i - from) as int);
                }
            }
            return None;
        }
    }
    assert(chars@.subrange(from as int, i as int) =~= whole);
    Some(acc)
}

/// Parses a port number as `u16::from_str` does.
pub fn parse_port(chars: &Vec<char>, from: usize, to: usize) -> (res: Option<u16>)
    requires
        from <= to <= chars@.len(),
    ensures
        res == port_value(chars@.subrange(from as int, to as int)),
{
    let ghost s = chars@.subrange(from as int, to as int);
    let start = if from < to && chars[from] == '+' { from + 1 } else { from };
    let ghost digits = chars@.subrange(start as int, to as int);
    assert(digits =~= if s.len() > 0 && s[0] == '+' { s.drop_first() } else { s });
    if start == to {
        return None;
    }
    match read_decimal(chars, start, to, 65535) {
        Some(v) => Some(v as u16),
        None => None,
    }
}

/// Splits `"host:port"` at its last `:` and parses the port; `None` when
/// there is no `:` or the port is not a `u16`.
pub fn split_endpoint(addr: &str) -> (res: Option<(String, u16)>)
    ensures
        match last_index_of(addr@, ':') {
            None => res is None,
            Some(i) => match port_value(addr@.subrange(i + 1, addr@.len() as int)) {
                None => res is None,
                Some(port) => res matches Some((host, p)) && host@ == addr@.subrange(0, i) && p == port,
            },
        },
{
    let chars = chars_of(addr);
    let n = chars.len();
    proof {
        lemma_last_index_of(addr@, ':');
    }
    let mut i: usize = n;
    while i > 0
        invariant
            i <= n,
            n == chars@.len(),
            chars@ == addr@,
            forall|j: int| i <= j < n ==> chars@[j] != ':',
        decreases i,
    {
        if chars[i - 1] == ':' {
            let colon = i - 1;
            proof {
                let k = last_index_of(addr@, ':');
                assert(k == Some(colon as int)) by {
                    lemma_last_index_of(addr@, ':');
                    if k is None {
                        assert(addr@[colon as int] == ':');
                    } else {
                        let kk = k->0;
                        assert(kk >= colon) by {
                            if kk < colon {
                                assert(addr@[colon as int] == ':');
                            }
                        }
                    }
                }
            }
            let port = match parse_port(&chars, colon + 1, n) {
                Some(p) => p,
                None => return None,
            };
            let host = string_of(&chars, 0, colon);
            return Some((host, port));
        }
        i = i - 1;
    }
    proof {
        lemma_last_index_of(addr@, ':');
        if last_index_of(addr@, ':') is Some {
            let k = last_index_of(addr@, ':')->0;
            assert(chars@[k] == ':');
        }
    }
    None
}

/// Splits `chars` at every `sep` into its pieces (`split_on`).
fn split_chars(chars: &Vec<char>, sep: char) -> (res: Vec<Vec<char>>)
    ensures
        res@.len() == split_on(chars@, sep).len(),
        forall|i: int| 0 <= i < res@.len() ==> #[trigger] res@[i]@ == split_on(chars@, sep)[i],
{
    let n = chars.len();
    let mut done: Vec<Vec<char>> = Vec::new();
    let mut current: Vec<char> = Vec::new();
    let mut i: usize = 0;
    while i < n
        invariant
            i <= n,
            n == chars@.len(),
            done@.len() + 1 == split_on(chars@.subrange(0, i as int), sep).len(),
            forall|k: int| 0 <= k < done@.len() ==> #[trigger] done@[k]@ == split_on(chars@.subrange(0, i as int), sep)[k],
            current@ == split_on(chars@.subrange(0, i as int), sep).last(),
        decreases n - i,
    {
        let c = chars[i];
        let ghost before = chars@.subrange(0, i as int);
        let ghost after = chars@.subrange(0, i + 1);
        assert(after.drop_last() =~= before);
        if c == sep {
            let finished = current;
            done.push(finished);
            current = Vec::new();
        } else {
            current.push(c);
        }
        i = i + 1;
    }
    assert(chars@.subrange(0, n as int) =~= chars@);
    done.push(current);
    done
}

/// Parses a dotted-decimal IPv4 address as `Ipv4Addr::from_str` does and
/// returns its octets.
pub fn parse_ipv4(host: &str) -> (res: Option<[u8; 4]>)
    ensures
        match ipv4_octets(host@) {
            Some(octets) => res matches Some(a) && a@ == octets,
            None => res is None,
        },
{
    let chars = chars_of(host);
    let parts = split_chars(&chars, '.');
    if parts.len() != 4 {
        return None;
    }
    let mut octets: [u8; 4] = [0u8; 4];
    let mut k: usize = 0;
    while k < 4
        invariant
            k <= 4,
            parts@.len() == 4,
            chars@ == host@,
            split_on(host@, '.').len() == 4,
            forall|j: int| 0 <= j < 4 ==> #[trigger] parts@[j]@ == split_on(host@, '.')[j],
            forall|j: int| 0 <= j < k ==> #[trigger] octet_value(split_on(host@, '.')[j]) == Some(octets@[j]),
        decreases 4 - k,
    {
        let part = &parts[k];
        let len = part.len();
        if len < 1 || len > 3 || (len > 1 && part[0] == '0') {
            assert(octet_value(split_on(host@, '.')[k as int]) is None);
            return None;
        }
        let v = match read_decimal(part, 0, len, 255) {
            Some(v) => v,
            None => {
                assert(part@.subrange(0, len as int) =~= part@);
                assert(octet_value(split_on(host@, '.')[k as int]) is None);
                return None;
            },
        };
        assert(part@.subrange(0, len as int) =~= part@);
        octets[k] = v as u8;
        k = k + 1;
    }
    proof {
        let parts_spec = split_on(host@, '.');
        assert(forall|i: int| 0 <= i < 4 ==> #[trigger] octet_value(parts_spec[i]) is Some);
        assert(octets@ =~= Seq::new(4, |i: int| octet_value(parts_spec[i])->0));
    }
    Some(octets)
}

} // verus!
