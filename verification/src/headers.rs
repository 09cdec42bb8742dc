//! The header map of a request or response: an ordered-insertion mapping
//! from case-insensitive header names to values, with a typed accessor for
//! the Host header.

use vstd::prelude::*;
use vstd::string::StrSliceExecFns;
use vstd::string::StringExecFns;

use crate::num::{all_digits, dec_val, digit_val, is_digit};

verus! {

/// Whether two characters are equal up to ASCII case.
pub open spec fn char_ci_eq(a: char, b: char) -> bool {
    ||| a == b
    ||| (is_ascii_upper(a) && a as int + 32 == b as int)
    ||| (is_ascii_upper(b) && b as int + 32 == a as int)
}

/// Whether `c` is an ASCII upper-case letter.
pub open spec fn is_ascii_upper(c: char) -> bool {
    65 <= c as int <= 90
}

/// Whether two strings are equal up to ASCII case.
pub open spec fn chars_ci_eq(a: Seq<char>, b: Seq<char>) -> bool {
    a.len() == b.len() && (forall|i: int| 0 <= i < a.len() ==> char_ci_eq(a[i], b[i]))
}

/// Compares two strings for equality up to ASCII case.
pub fn str_ci_eq(a: &str, b: &str) -> (r: bool)
    ensures
        r == chars_ci_eq(a@, b@),
{
    let alen = a.unicode_len();
    let blen = b.unicode_len();
    if alen != blen {
        return false;
    }
    let mut i: usize = 0;
    while i < alen
        invariant
            i <= alen,
            alen == a@.len(),
            alen == b@.len(),
            forall|j: int| 0 <= j < i ==> char_ci_eq(a@[j], b@[j]),
        decreases alen - i,
    {
        let ca = a.get_char(i);
        let cb = b.get_char(i);
        let va = ca as u32;
        let vb = cb as u32;
        let ok = va == vb || (65 <= va && va <= 90 && va + 32 == vb) || (65 <= vb && vb <= 90
            && vb + 32 == va);
        if !ok {
            assert(!char_ci_eq(a@[i as int], b@[i as int]));
            return false;
        }
        assert(char_ci_eq(a@[i as int], b@[i as int]));
        i += 1;
    }
    true
}

/// The value of the first entry of `h` whose name matches `name` up to ASCII
/// case, if any.
pub open spec fn lookup(h: Seq<(Seq<char>, Seq<char>)>, name: Seq<char>) -> Option<Seq<char>>
    decreases h.len(),
{
    if h.len() == 0 {
        None
    } else if chars_ci_eq(h[0].0, name) {
        Some(h[0].1)
    } else {
        lookup(h.drop_first(), name)
    }
}

/// Entries before index `i` never match, so the lookup is decided by the
/// entries from `i` on.
pub proof fn lemma_lookup_skip(h: Seq<(Seq<char>, Seq<char>)>, name: Seq<char>, i: int)
    requires
        0 <= i <= h.len(),
        forall|j: int| 0 <= j < i ==> !chars_ci_eq(h[j].0, name),
    ensures
        lookup(h, name) == lookup(h.skip(i), name),
    decreases i,
{
    if i > 0 {
        lemma_lookup_skip(h, name, i - 1);
        let t = h.skip(i - 1);
        assert(t[0] == h[i - 1]);
        assert(!chars_ci_eq(t[0].0, name));
        assert(t.drop_first() =~= h.skip(i));
    } else {
        assert(h.skip(0) =~= h);
    }
}

/// The index of the last `:` in `s`, or `-1` if there is none.
pub open spec fn last_colon(s: Seq<char>) -> int
    decreases s.len(),
{
    if s.len() == 0 {
        -1
    } else if s.last() == ':' {
        s.len() - 1
    } else {
        last_colon(s.drop_last())
    }
}

/// What `last_colon` returns: the last colon's index, or `-1` when no
/// character of `s` is a colon.
pub proof fn lemma_last_colon(s: Seq<char>)
    ensures
        -1 <= last_colon(s) < s.len(),
        last_colon(s) == -1 ==> forall|k: int| 0 <= k < s.len() ==> s[k] != ':',
        last_colon(s) >= 0 ==> s[last_colon(s)] == ':',
        last_colon(s) >= 0 ==> forall|k: int| last_colon(s) < k < s.len() ==> s[k] != ':',
    decreases s.len(),
{
    if s.len() > 0 && s.last() != ':' {
        lemma_last_colon(s.drop_last());
        assert(forall|k: int| 0 <= k < s.len() - 1 ==> s[k] == s.drop_last()[k]);
    }
}

/// Whether `d` is a digit string that denotes a port: one to five digits
/// whose value fits in sixteen bits.
pub open spec fn valid_port_digits(d: Seq<char>) -> bool {
    1 <= d.len() <= 5 && all_digits(d) && dec_val(d) <= 65535
}

/// Splits a Host header value into hostname and optional port: the part
/// after the last `:` is the port when it is one to five digits denoting a
/// number below 65536; otherwise the whole value is the hostname.
pub open spec fn split_host(s: Seq<char>) -> (Seq<char>, Option<u16>) {
    let i = last_colon(s);
    if 0 <= i && valid_port_digits(s.subrange(i + 1, s.len() as int)) {
        (s.subrange(0, i), Some(dec_val(s.subrange(i + 1, s.len() as int)) as u16))
    } else {
        (s, None)
    }
}

/// `10^m`.
pub open spec fn pow10(m: nat) -> nat
    decreases m,
{
    if m == 0 {
        1
    } else {
        10 * pow10((m - 1) as nat)
    }
}

/// A digit string of `m` digits denotes a number below `10^m`.
pub proof fn lemma_dec_val_bound(s: Seq<char>)
    requires
        all_digits(s),
    ensures
        dec_val(s) < pow10(s.len()),
    decreases s.len(),
{
    if s.len() > 0 {
        assert(all_digits(s.drop_last())) by {
            assert(forall|i: int| 0 <= i < s.len() - 1 ==> s.drop_last()[i] == s[i]);
        }
        lemma_dec_val_bound(s.drop_last());
        assert(is_digit(s.last()));
        assert(digit_val(s.last()) <= 9);
    }
}

/// The hostname and optional port carried by a Host header.
#[derive(Clone, Debug)]
pub struct HostHeader {
    /// The hostname part of the header value.
    pub hostname: String,
    /// The port part of the header value, if one is given.
    pub port: Option<u16>,
}

/// The Host header of `h`, split into hostname and optional port, if the
/// header is present.
pub open spec fn host_of(h: Seq<(Seq<char>, Seq<char>)>) -> Option<(Seq<char>, Option<u16>)> {
    match lookup(h, "host"@) {
        Some(v) => Some(split_host(v)),
        None => None,
    }
}

/// An ordered-insertion mapping from case-insensitive header names to
/// values. A name may occur more than once; lookups return the first match.
#[derive(Clone, Debug)]
pub struct Headers {
    entries: Vec<(String, String)>,
}

impl View for Headers {
    type V = Seq<(Seq<char>, Seq<char>)>;

    closed spec fn view(&self) -> Seq<(Seq<char>, Seq<char>)> {
        Seq::new(self.entries@.len(), |i: int| (self.entries@[i].0@, self.entries@[i].1@))
    }
}

impl Headers {
    /// An empty header map.
    pub fn new() -> (r: Headers)
        ensures
            r@ == Seq::<(Seq<char>, Seq<char>)>::empty(),
    {
        let r = Headers { entries: Vec::new() };
        proof {
            assert(r@ =~= Seq::<(Seq<char>, Seq<char>)>::empty());
        }
        r
    }

    /// The number of entries.
    pub fn len(&self) -> (n: usize)
        ensures
            n == self@.len(),
    {
        self.entries.len()
    }

    /// Appends an entry after all existing ones.
    pub fn append(&mut self, name: &str, value: &str)
        ensures
            final(self)@ == old(self)@.push((name@, value@)),
    {
        self.entries.push((String::from_str(name), String::from_str(value)));
        proof {
            assert(self@ =~= old(self)@.push((name@, value@)));
        }
    }

    /// The value of the first entry whose name equals `name` up to ASCII
    /// case, if any, as a fresh string.
    pub fn get(&self, name: &str) -> (r: Option<String>)
        ensures
            match r {
                Some(v) => lookup(self@, name@) == Some(v@),
                None => lookup(self@, name@) is None,
            },
    {
        let n = self.entries.len();
        let mut i: usize = 0;
        while i < n
            invariant
                i <= n,
                n == self.entries@.len(),
                forall|j: int| 0 <= j < i ==> !chars_ci_eq(self@[j].0, name@),
            decreases n - i,
        {
            let hit = str_ci_eq(self.entries[i].0.as_str(), name);
            if hit {
                let v = self.entries[i].1.clone();
                proof {
                    lemma_lookup_skip(self@, name@, i as int);
                    assert(self@.skip(i as int)[0] == self@[i as int]);
                }
                return Some(v);
            }
            i += 1;
        }
        proof {
            lemma_lookup_skip(self@, name@, n as int);
            assert(self@.skip(n as int).len() == 0);
        }
        None
    }

    /// The entry at position `i`, name and value, as fresh strings.
    pub fn entry_at(&self, i: usize) -> (r: (String, String))
        requires
            i < self@.len(),
        ensures
            (r.0@, r.1@) == self@[i as int],
    {
        (self.entries[i].0.clone(), self.entries[i].1.clone())
    }

    /// The typed Host header accessor: the first Host entry, split into
    /// hostname and optional port.
    pub fn host(&self) -> (r: Option<HostHeader>)
        ensures
            match r {
                Some(hh) => host_of(self@) == Some((hh.hostname@, hh.port)),
                None => host_of(self@) is None,
            },
    {
        match self.get("host") {
            None => None,
            Some(v) => {
                let (hostname, port) = split_host_value(&v);
                Some(HostHeader { hostname, port })
            },
        }
    }
}

/// Splits a Host header value as `split_host` describes.
fn split_host_value(v: &String) -> (r: (String, Option<u16>))
    ensures
        split_host(v@) == (r.0@, r.1),
{
    let s = v.as_str();
    let n = s.unicode_len();
    let mut i: usize = 0;
    let mut found = false;
    let mut lc: usize = 0;
    while i < n
        invariant
            i <= n,
            n == s@.len(),
            found ==> lc < i && s@[lc as int] == ':' && (forall|k: int|
                lc < k < i ==> s@[k] != ':'),
            !found ==> forall|k: int| 0 <= k < i ==> s@[k] != ':',
        decreases n - i,
    {
        if s.get_char(i) == ':' {
            found = true;
            lc = i;
        }
        i += 1;
    }
    proof {
        lemma_last_colon(s@);
    }
    if !found {
        assert(last_colon(s@) == -1);
        return (v.clone(), None);
    }
    assert(last_colon(s@) == lc as int);
    // Read the digits after the last colon.
    let plen = n - lc - 1;
    let ghost digits = s@.subrange(lc as int + 1, n as int);
    if plen < 1 || plen > 5 {
        assert(!valid_port_digits(digits));
        return (v.clone(), None);
    }
    let mut k: usize = lc + 1;
    let mut acc: u32 = 0;
    while k < n
        invariant
            lc + 1 <= k <= n,
            n == s@.len(),
            s@ == v@,
            lc < n,
            1 <= n - lc - 1 <= 5,
            last_colon(s@) == lc as int,
            digits == s@.subrange(lc as int + 1, n as int),
            all_digits(s@.subrange(lc as int + 1, k as int)),
            acc == dec_val(s@.subrange(lc as int + 1, k as int)),
        decreases n - k,
    {
        let c = s.get_char(k);
        let cv = c as u32;
        if cv < 48 || cv > 57 {
            assert(digits[k - lc - 1] == s@[k as int]);
            assert(!all_digits(digits));
            return (v.clone(), None);
        }
        proof {
            let prefix = s@.subrange(lc as int + 1, k as int);
            lemma_dec_val_bound(prefix);
            assert(prefix.len() <= 4);
            assert(pow10(4) == 10000) by {
                reveal_with_fuel(pow10, 5);
            }
            assert(pow10(prefix.len()) <= pow10(4)) by {
                lemma_pow10_le(prefix.len(), 4);
            }
        }
        let d = cv - 48;
        acc = acc * 10 + d;
        proof {
            let prefix = s@.subrange(lc as int + 1, k as int);
            let longer = s@.subrange(lc as int + 1, k as int + 1);
            assert(longer.drop_last() =~= prefix);
            assert(longer.last() == s@[k as int]);
            assert(acc == dec_val(longer));
            assert(all_digits(longer)) by {
                assert(forall|j: int| 0 <= j < prefix.len() ==> longer[j] == prefix[j]);
            }
        }
        k += 1;
    }
    assert(s@.subrange(lc as int + 1, n as int) =~= digits);
    assert(acc == dec_val(digits));
    if acc > 65535 {
        assert(!valid_port_digits(digits));
        return (v.clone(), None);
    }
    assert(valid_port_digits(digits));
    let hostname = s.substring_char(0, lc);
    (String::from_str(hostname), Some(acc as u16))
}

/// `pow10` is monotone.
pub proof fn lemma_pow10_le(a: nat, b: nat)
    requires
        a <= b,
    ensures
        pow10(a) <= pow10(b),
    decreases b,
{
    if a < b {
        lemma_pow10_le(a, (b - 1) as nat);
        assert(pow10(b) == 10 * pow10((b - 1) as nat));
        assert(pow10((b - 1) as nat) >= 1) by {
            lemma_pow10_pos((b - 1) as nat);
        }
    }
}

/// `10^m` is positive.
pub proof fn lemma_pow10_pos(m: nat)
    ensures
        pow10(m) >= 1,
    decreases m,
{
    if m > 0 {
        lemma_pow10_pos((m - 1) as nat);
    }
}

} // verus!
