//! IPv4 literals: their text and the ranges that they fall in.
use vstd::prelude::*;
use crate::text::{
    all_digits, decimal_text, decimal_value, digit_char, digit_value, find_char, first_index_of, is_digit,
    lemma_first_index_bounds, lemma_first_index_is_separator, lemma_first_index_skips,
};

verus! {

/// An IPv4 address as its four octets, first to last.
#[derive(Clone, Copy, Debug, PartialEq, Eq, Structural)]
pub struct Ipv4Literal {
    pub a: u8,
    pub b: u8,
    pub c: u8,
    pub d: u8,
}

/// Whether `s` is the text of one octet: one to three decimal digits, no
/// leading zero unless it is the single digit, and a value of at most 255.
pub open spec fn is_octet_text(s: Seq<char>) -> bool {
    &&& 1 <= s.len() <= 3
    &&& all_digits(s)
    &&& (s.len() > 1 ==> s[0] != '0')
    &&& decimal_value(s) <= 255
}

/// The dotted-quad literal that `s` is: `s` is cut at its first three dots, and
/// each of the four pieces has to be the text of an octet.
pub open spec fn parse_ipv4_spec(s: Seq<char>) -> Option<Ipv4Literal> {
    let i = first_index_of(s, '.', 0);
    let j = first_index_of(s, '.', i + 1);
    let k = first_index_of(s, '.', j + 1);
    let n = s.len() as int;
    if k < n && is_octet_text(s.subrange(0, i)) && is_octet_text(s.subrange(i + 1, j))
        && is_octet_text(s.subrange(j + 1, k)) && is_octet_text(s.subrange(k + 1, n)) {
        Some(
            Ipv4Literal {
                a: decimal_value(s.subrange(0, i)) as u8,
                b: decimal_value(s.subrange(i + 1, j)) as u8,
                c: decimal_value(s.subrange(j + 1, k)) as u8,
                d: decimal_value(s.subrange(k + 1, n)) as u8,
            },
        )
    } else {
        None
    }
}

impl Ipv4Literal {
    /// Private-use ranges: 10/8, 172.16/12 and 192.168/16.
    pub open spec fn spec_is_private(self) -> bool {
        self.a == 10 || (self.a == 172 && 16 <= self.b <= 31) || (self.a == 192 && self.b == 168)
    }

    /// Shared address space, 100.64/10.
    pub open spec fn spec_is_shared(self) -> bool {
        self.a == 100 && 64 <= self.b <= 127
    }

    /// Loopback, 127/8.
    pub open spec fn spec_is_loopback(self) -> bool {
        self.a == 127
    }

    /// Link-local, 169.254/16.
    pub open spec fn spec_is_link_local(self) -> bool {
        self.a == 169 && self.b == 254
    }

    /// The three documentation ranges.
    pub open spec fn spec_is_documentation(self) -> bool {
        ||| (self.a == 192 && self.b == 0 && self.c == 2)
        ||| (self.a == 198 && self.b == 51 && self.c == 100)
        ||| (self.a == 203 && self.b == 0 && self.c == 113)
    }

    /// Benchmarking, 198.18/15.
    pub open spec fn spec_is_benchmarking(self) -> bool {
        self.a == 198 && (self.b == 18 || self.b == 19)
    }

    /// Protocol assignments, 192.0.0/24, but for the two addresses in it
    /// that are reachable from everywhere.
    pub open spec fn spec_is_protocol_assignment(self) -> bool {
        self.a == 192 && self.b == 0 && self.c == 0 && self.d != 9 && self.d != 10
    }

    /// Multicast, 224/4.
    pub open spec fn spec_is_multicast(self) -> bool {
        224 <= self.a <= 239
    }

    /// Reserved for future use, 240/4, the broadcast address included.
    pub open spec fn spec_is_reserved(self) -> bool {
        self.a >= 240
    }

    /// Publicly routable: in none of the special-purpose ranges.
    pub open spec fn spec_is_global(self) -> bool {
        !(self.a == 0 || self.spec_is_private() || self.spec_is_shared()
            || self.spec_is_loopback() || self.spec_is_link_local()
            || self.spec_is_protocol_assignment() || self.spec_is_documentation()
            || self.spec_is_benchmarking() || self.spec_is_multicast()
            || self.spec_is_reserved())
    }

    /// Acceptable as an endpoint: global, shared, private or loopback.
    pub open spec fn spec_is_acceptable(self) -> bool {
        self.spec_is_global() || self.spec_is_shared() || self.spec_is_private()
            || self.spec_is_loopback()
    }

    pub fn is_private(&self) -> (r: bool)
        ensures
            r == self.spec_is_private(),
    {
        self.a == 10 || (self.a == 172 && 16 <= self.b && self.b <= 31) || (self.a == 192
            && self.b == 168)
    }

    pub fn is_shared(&self) -> (r: bool)
        ensures
            r == self.spec_is_shared(),
    {
        self.a == 100 && 64 <= self.b && self.b <= 127
    }

    pub fn is_loopback(&self) -> (r: bool)
        ensures
            r == self.spec_is_loopback(),
    {
        self.a == 127
    }

    pub fn is_global(&self) -> (r: bool)
        ensures
            r == self.spec_is_global(),
    {
        let link_local = self.a == 169 && self.b == 254;
        let assignment = self.a == 192 && self.b == 0 && self.c == 0 && self.d != 9 && self.d
            != 10;
        let documentation = (self.a == 192 && self.b == 0 && self.c == 2) || (self.a == 198
            && self.b == 51 && self.c == 100) || (self.a == 203 && self.b == 0 && self.c == 113);
        let benchmarking = self.a == 198 && (self.b == 18 || self.b == 19);
        let multicast_or_reserved = self.a >= 224;
        !(self.a == 0 || self.is_private() || self.is_shared() || self.is_loopback()
            || link_local || assignment || documentation || benchmarking
            || multicast_or_reserved)
    }

    pub fn is_acceptable(&self) -> (r: bool)
        ensures
            r == self.spec_is_acceptable(),
    {
        self.is_global() || self.is_shared() || self.is_private() || self.is_loopback()
    }
}

/// Reads the piece of `chars` from `from` up to `to` as one octet.
pub fn parse_octet(chars: &Vec<char>, from: usize, to: usize) -> (r: Option<u8>)
    requires
        from <= to <= chars.len(),
    ensures
        r is Some <==> is_octet_text(chars@.subrange(from as int, to as int)),
        r is Some ==> r->0 == decimal_value(chars@.subrange(from as int, to as int)),
{
    let ghost piece = chars@.subrange(from as int, to as int);
    let len: usize = to - from;
    if len < 1 || len > 3 {
        return None;
    }
    if len > 1 && chars[from] == '0' {
        return None;
    }
    let mut value: u32 = 0;
    let mut i: usize = from;
    while i < to
        invariant
            from <= i <= to <= chars.len(),
            to - from <= 3,
            piece == chars@.subrange(from as int, to as int),
            all_digits(chars@.subrange(from as int, i as int)),
            value == decimal_value(chars@.subrange(from as int, i as int)),
            value <= 999,
            i - from <= 2 ==> value <= 99,
            i - from <= 1 ==> value <= 9,
            i == from ==> value == 0,
        decreases to - i,
    {
        let c: char = chars[i];
        if !('0' <= c && c <= '9') {
            proof {
                assert(piece[i - from] == c);
            }
            return None;
        }
        let d: u32 = (c as u32) - ('0' as u32);
        proof {
            let before = chars@.subrange(from as int, i as int);
            let after = chars@.subrange(from as int, i + 1);
            assert(after.drop_last() =~= before);
            assert(after.last() == c);
        }
        value = value * 10 + d;
        i += 1;
    }
    if value > 255 {
        return None;
    }
    Some(value as u8)
}

/// Reads `chars` as a dotted-quad IPv4 literal.
pub fn parse_ipv4(chars: &Vec<char>) -> (r: Option<Ipv4Literal>)
    ensures
        r == parse_ipv4_spec(chars@),
{
    let n: usize = chars.len();
    let i: usize = find_char(chars, '.', 0);
    if i >= n {
        return None;
    }
    let j: usize = find_char(chars, '.', i + 1);
    if j >= n {
        return None;
    }
    let k: usize = find_char(chars, '.', j + 1);
    if k >= n {
        return None;
    }
    let a = parse_octet(chars, 0, i);
    let b = parse_octet(chars, i + 1, j);
    let c = parse_octet(chars, j + 1, k);
    let d = parse_octet(chars, k + 1, n);
    match (a, b, c, d) {
        (Some(a), Some(b), Some(c), Some(d)) => Some(Ipv4Literal { a, b, c, d }),
        _ => None,
    }
}

/// Text that holds a character other than a decimal digit and the dot is no
/// IPv4 literal, so it is not valid for version 4.
pub proof fn lemma_ipv4_rejects_other_characters(s: Seq<char>, at: int)
    requires
        0 <= at < s.len(),
        !is_digit(s[at]),
        s[at] != '.',
    ensures
        parse_ipv4_spec(s) is None,
{
    let n = s.len() as int;
    let i = first_index_of(s, '.', 0);
    lemma_first_index_bounds(s, '.', 0);
    if i < n {
        lemma_first_index_bounds(s, '.', i + 1);
        let j = first_index_of(s, '.', i + 1);
        if j < n {
            lemma_first_index_bounds(s, '.', j + 1);
            let k = first_index_of(s, '.', j + 1);
            if k < n {
                lemma_first_index_is_separator(s, '.', 0);
                lemma_first_index_is_separator(s, '.', i + 1);
                lemma_first_index_is_separator(s, '.', j + 1);
                if at < i {
                    assert(s.subrange(0, i)[at] == s[at]);
                } else if at < j {
                    assert(s.subrange(i + 1, j)[at - i - 1] == s[at]);
                } else if at < k {
                    assert(s.subrange(j + 1, k)[at - j - 1] == s[at]);
                } else {
                    assert(s.subrange(k + 1, n)[at - k - 1] == s[at]);
                }
            }
        }
    }
}

/// The usual text of an IPv4 address: its four octets in decimal, with dots
/// between them.
pub open spec fn dotted_quad(ip: Ipv4Literal) -> Seq<char> {
    decimal_text(ip.a as nat) + seq!['.'] + decimal_text(ip.b as nat) + seq!['.'] + decimal_text(
        ip.c as nat,
    ) + seq!['.'] + decimal_text(ip.d as nat)
}

/// The decimal text of an octet is the text of that octet.
pub proof fn lemma_octet_text(n: u8)
    ensures
        is_octet_text(decimal_text(n as nat)),
        decimal_value(decimal_text(n as nat)) == n,
{
    let t = decimal_text(n as nat);
    reveal_with_fuel(decimal_text, 4);
    reveal_with_fuel(decimal_value, 5);
    assert forall|d: nat| d < 10 implies is_digit(#[trigger] digit_char(d))
        && digit_value(digit_char(d)) == d by {}
    if n < 10 {
        assert(t =~= seq![digit_char(n as nat)]);
        assert(t.drop_last() =~= Seq::<char>::empty());
    } else if n < 100 {
        let hi = (n / 10) as nat;
        let lo = (n % 10) as nat;
        assert(t =~= seq![digit_char(hi), digit_char(lo)]);
        assert(t.drop_last() =~= seq![digit_char(hi)]);
        assert(t.drop_last().drop_last() =~= Seq::<char>::empty());
    } else {
        let top = (n / 100) as nat;
        let hi = ((n / 10) % 10) as nat;
        let lo = (n % 10) as nat;
        assert((n as nat / 10) / 10 == top);
        assert(t =~= seq![digit_char(top), digit_char(hi), digit_char(lo)]);
        assert(t.drop_last() =~= seq![digit_char(top), digit_char(hi)]);
        assert(t.drop_last().drop_last() =~= seq![digit_char(top)]);
        assert(t.drop_last().drop_last().drop_last() =~= Seq::<char>::empty());
    }
}

/// Every IPv4 address is read back from its usual text.
pub proof fn lemma_dotted_quad_parses(ip: Ipv4Literal)
    ensures
        parse_ipv4_spec(dotted_quad(ip)) == Some(ip),
{
    let ta = decimal_text(ip.a as nat);
    let tb = decimal_text(ip.b as nat);
    let tc = decimal_text(ip.c as nat);
    let td = decimal_text(ip.d as nat);
    let s = dotted_quad(ip);
    lemma_octet_text(ip.a);
    lemma_octet_text(ip.b);
    lemma_octet_text(ip.c);
    lemma_octet_text(ip.d);
    let i = ta.len() as int;
    let j = i + 1 + tb.len();
    let k = j + 1 + tc.len();
    let n = s.len() as int;
    assert(n == k + 1 + td.len());
    assert(s.subrange(0, i) =~= ta);
    assert(s.subrange(i + 1, j) =~= tb);
    assert(s.subrange(j + 1, k) =~= tc);
    assert(s.subrange(k + 1, n) =~= td);
    assert forall|x: int| 0 <= x < i implies s[x] != '.' by {
        assert(s[x] == ta[x]);
    }
    assert forall|x: int| i + 1 <= x < j implies s[x] != '.' by {
        assert(s[x] == tb[x - i - 1]);
    }
    assert forall|x: int| j + 1 <= x < k implies s[x] != '.' by {
        assert(s[x] == tc[x - j - 1]);
    }
    assert(s[i] == '.' && s[j] == '.' && s[k] == '.');
    lemma_first_index_skips(s, '.', 0, i);
    lemma_first_index_skips(s, '.', i + 1, j);
    lemma_first_index_skips(s, '.', j + 1, k);
}

} // verus!
