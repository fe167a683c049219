//! IPv6 literals: their text and the ranges that they fall in.
use vstd::prelude::*;
use crate::ipv4::{lemma_ipv4_rejects_other_characters, parse_ipv4, parse_ipv4_spec, Ipv4Literal};
use crate::text::{
    find_char, find_double_colon, first_double_colon, first_index_of, hex_char, hex_digit_value,
    hex_text, hex_value, is_hex_digit, lemma_double_colon_found, lemma_first_index_bounds,
    lemma_first_index_is_separator, lemma_first_index_skips, lemma_no_double_colon, slice_chars,
};

verus! {

/// An IPv6 address as its eight 16-bit groups, first to last.
#[derive(Clone, Copy, Debug, PartialEq, Eq, Structural)]
pub struct Ipv6Literal {
    pub g0: u16,
    pub g1: u16,
    pub g2: u16,
    pub g3: u16,
    pub g4: u16,
    pub g5: u16,
    pub g6: u16,
    pub g7: u16,
}

/// Whether `s` is the text of one group: one to four hexadecimal digits.
pub open spec fn is_hex_group(s: Seq<char>) -> bool {
    &&& 1 <= s.len() <= 4
    &&& forall|i: int| 0 <= i < s.len() ==> is_hex_digit(#[trigger] s[i])
}

/// The two groups that an embedded IPv4 address fills.
pub open spec fn groups_of_ipv4(ip: Ipv4Literal) -> Seq<u16> {
    seq![(ip.a as int * 256 + ip.b as int) as u16, (ip.c as int * 256 + ip.d as int) as u16]
}

/// The groups that `s` lists, at most `limit` of them: `s` is a list of
/// pieces with one colon between each two, every piece is a group, but that
/// the last piece may be a dotted-quad IPv4 literal where `allow_v4` is set; it
/// stands for two groups.
pub open spec fn groups_spec(s: Seq<char>, allow_v4: bool, limit: nat) -> Option<Seq<u16>>
    decreases limit,
{
    let c = first_index_of(s, ':', 0);
    if limit == 0 {
        None
    } else if c >= s.len() {
        if is_hex_group(s) {
            Some(seq![hex_value(s) as u16])
        } else if allow_v4 && limit >= 2 {
            match parse_ipv4_spec(s) {
                Some(ip) => Some(groups_of_ipv4(ip)),
                None => None,
            }
        } else {
            None
        }
    } else if is_hex_group(s.subrange(0, c)) {
        match groups_spec(s.subrange(c + 1, s.len() as int), allow_v4, (limit - 1) as nat) {
            Some(rest) => Some(seq![hex_value(s.subrange(0, c)) as u16] + rest),
            None => None,
        }
    } else {
        None
    }
}

/// A list of groups that may be empty: the empty text lists none.
pub open spec fn optional_groups_spec(s: Seq<char>, allow_v4: bool, limit: nat) -> Option<
    Seq<u16>,
> {
    if s.len() == 0 {
        Some(Seq::empty())
    } else {
        groups_spec(s, allow_v4, limit)
    }
}

/// `count` groups of zero.
pub open spec fn zero_groups(count: int) -> Seq<u16> {
    Seq::new(count as nat, |i: int| 0u16)
}

/// The eight groups of the IPv6 literal that `s` is. Without a pair of
/// adjacent colons `s` lists all eight. With one, the text before the first
/// pair lists the leading groups, the text after it the trailing ones, seven
/// at most together, and zeros fill the gap. Only the last two groups of the
/// whole may be written as an embedded IPv4 literal.
pub open spec fn parse_ipv6_groups_spec(s: Seq<char>) -> Option<Seq<u16>> {
    let p = first_double_colon(s, 0);
    if p >= s.len() {
        match groups_spec(s, true, 8) {
            Some(g) => if g.len() == 8 {
                Some(g)
            } else {
                None
            },
            None => None,
        }
    } else {
        match optional_groups_spec(s.subrange(0, p), false, 7) {
            Some(head) => match optional_groups_spec(
                s.subrange(p + 2, s.len() as int),
                true,
                (7 - head.len()) as nat,
            ) {
                Some(tail) => Some(head + zero_groups(8 - head.len() - tail.len()) + tail),
                None => None,
            },
            None => None,
        }
    }
}

/// The address of eight groups.
pub open spec fn ipv6_of_groups(g: Seq<u16>) -> Ipv6Literal {
    Ipv6Literal { g0: g[0], g1: g[1], g2: g[2], g3: g[3], g4: g[4], g5: g[5], g6: g[6], g7: g[7] }
}

/// The IPv6 literal that `s` is.
pub open spec fn parse_ipv6_spec(s: Seq<char>) -> Option<Ipv6Literal> {
    match parse_ipv6_groups_spec(s) {
        Some(g) => Some(ipv6_of_groups(g)),
        None => None,
    }
}

/// A list of groups is never empty and never longer than its limit.
pub proof fn lemma_groups_count(s: Seq<char>, allow_v4: bool, limit: nat)
    ensures
        groups_spec(s, allow_v4, limit) is Some ==> 1 <= groups_spec(s, allow_v4, limit)->0.len()
            <= limit,
    decreases limit,
{
    let c = first_index_of(s, ':', 0);
    if limit > 0 && c < s.len() && is_hex_group(s.subrange(0, c)) {
        lemma_groups_count(s.subrange(c + 1, s.len() as int), allow_v4, (limit - 1) as nat);
    }
}

/// Reads the piece of `chars` from `from` up to `to` as one group.
pub fn parse_hex_group(chars: &Vec<char>, from: usize, to: usize) -> (r: Option<u16>)
    requires
        from <= to <= chars.len(),
    ensures
        r is Some <==> is_hex_group(chars@.subrange(from as int, to as int)),
        r is Some ==> r->0 == hex_value(chars@.subrange(from as int, to as int)),
{
    let ghost piece = chars@.subrange(from as int, to as int);
    let len: usize = to - from;
    if len < 1 || len > 4 {
        return None;
    }
    let mut value: u32 = 0;
    let mut i: usize = from;
    while i < to
        invariant
            from <= i <= to <= chars.len(),
            to - from <= 4,
            piece == chars@.subrange(from as int, to as int),
            forall|k: int| 0 <= k < i - from ==> is_hex_digit(#[trigger] piece[k]),
            value == hex_value(chars@.subrange(from as int, i as int)),
            value <= 0xffff,
            i - from <= 3 ==> value <= 0xfff,
            i - from <= 2 ==> value <= 0xff,
            i - from <= 1 ==> value <= 0xf,
            i == from ==> value == 0,
        decreases to - i,
    {
        let c: char = chars[i];
        assert(piece[i - from] == c);
        let d: u32 = if '0' <= c && c <= '9' {
            (c as u32) - ('0' as u32)
        } else if 'a' <= c && c <= 'f' {
            (c as u32) - ('a' as u32) + 10
        } else if 'A' <= c && c <= 'F' {
            (c as u32) - ('A' as u32) + 10
        } else {
            return None;
        };
        proof {
            let before = chars@.subrange(from as int, i as int);
            let after = chars@.subrange(from as int, i + 1);
            assert(after.drop_last() =~= before);
            assert(after.last() == c);
        }
        value = value * 16 + d;
        i += 1;
    }
    Some(value as u16)
}

/// Reads `chars` as a list of at most `limit` groups.
pub fn parse_groups(chars: &Vec<char>, allow_v4: bool, limit: usize) -> (r: Option<Vec<u16>>)
    ensures
        match r {
            Some(g) => groups_spec(chars@, allow_v4, limit as nat) == Some(g@) && 1 <= g.len()
                <= limit,
            None => groups_spec(chars@, allow_v4, limit as nat) is None,
        },
    decreases limit,
{
    proof {
        lemma_groups_count(chars@, allow_v4, limit as nat);
    }
    if limit == 0 {
        return None;
    }
    let n: usize = chars.len();
    let c: usize = find_char(chars, ':', 0);
    if c >= n {
        assert(chars@.subrange(0, n as int) =~= chars@);
        match parse_hex_group(chars, 0, n) {
            Some(value) => {
                let mut groups: Vec<u16> = Vec::new();
                groups.push(value);
                assert(groups@ =~= seq![value]);
                Some(groups)
            },
            None => {
                if allow_v4 && limit >= 2 {
                    match parse_ipv4(chars) {
                        Some(ip) => {
                            let high: u16 = (ip.a as u16) * 256 + (ip.b as u16);
                            let low: u16 = (ip.c as u16) * 256 + (ip.d as u16);
                            let mut groups: Vec<u16> = Vec::new();
                            groups.push(high);
                            groups.push(low);
                            assert(groups@ =~= groups_of_ipv4(ip));
                            Some(groups)
                        },
                        None => None,
                    }
                } else {
                    None
                }
            },
        }
    } else {
        match parse_hex_group(chars, 0, c) {
            Some(value) => {
                let rest = slice_chars(chars, c + 1, n);
                match parse_groups(&rest, allow_v4, limit - 1) {
                    Some(tail) => {
                        let mut groups = tail;
                        groups.insert(0, value);
                        assert(groups@ =~= seq![value] + tail@);
                        Some(groups)
                    },
                    None => None,
                }
            },
            None => None,
        }
    }
}

/// Reads `chars` as a list of at most `limit` groups that may be empty.
pub fn parse_optional_groups(chars: &Vec<char>, allow_v4: bool, limit: usize) -> (r: Option<
    Vec<u16>,
>)
    ensures
        match r {
            Some(g) => optional_groups_spec(chars@, allow_v4, limit as nat) == Some(g@) && g.len()
                <= limit,
            None => optional_groups_spec(chars@, allow_v4, limit as nat) is None,
        },
{
    if chars.len() == 0 {
        let groups: Vec<u16> = Vec::new();
        assert(groups@ =~= Seq::<u16>::empty());
        Some(groups)
    } else {
        parse_groups(chars, allow_v4, limit)
    }
}

/// Reads `chars` as an IPv6 literal.
pub fn parse_ipv6(chars: &Vec<char>) -> (r: Option<Ipv6Literal>)
    ensures
        r == parse_ipv6_spec(chars@),
{
    let n: usize = chars.len();
    let p: usize = find_double_colon(chars);
    let groups: Vec<u16> = if p >= n {
        match parse_groups(chars, true, 8) {
            Some(g) => if g.len() == 8 {
                g
            } else {
                return None;
            },
            None => {
                return None;
            },
        }
    } else {
        let head_text = slice_chars(chars, 0, p);
        let tail_text = slice_chars(chars, p + 2, n);
        let head = match parse_optional_groups(&head_text, false, 7) {
            Some(g) => g,
            None => {
                return None;
            },
        };
        let tail = match parse_optional_groups(&tail_text, true, 7 - head.len()) {
            Some(g) => g,
            None => {
                return None;
            },
        };
        let gap: usize = 8 - head.len() - tail.len();
        let mut all: Vec<u16> = Vec::new();
        let mut i: usize = 0;
        while i < head.len()
            invariant
                i <= head.len(),
                all@ == head@.subrange(0, i as int),
            decreases head.len() - i,
        {
            all.push(head[i]);
            i += 1;
            assert(all@ =~= head@.subrange(0, i as int));
        }
        assert(all@ =~= head@);
        let mut z: usize = 0;
        while z < gap
            invariant
                z <= gap,
                all@ == head@ + zero_groups(z as int),
            decreases gap - z,
        {
            all.push(0);
            z += 1;
            assert(all@ =~= head@ + zero_groups(z as int));
        }
        let mut j: usize = 0;
        while j < tail.len()
            invariant
                j <= tail.len(),
                all@ == head@ + zero_groups(gap as int) + tail@.subrange(0, j as int),
            decreases tail.len() - j,
        {
            all.push(tail[j]);
            j += 1;
            assert(all@ =~= head@ + zero_groups(gap as int) + tail@.subrange(0, j as int));
        }
        assert(all@ =~= head@ + zero_groups(gap as int) + tail@);
        all
    };
    assert(parse_ipv6_groups_spec(chars@) == Some(groups@));
    Some(
        Ipv6Literal {
            g0: groups[0],
            g1: groups[1],
            g2: groups[2],
            g3: groups[3],
            g4: groups[4],
            g5: groups[5],
            g6: groups[6],
            g7: groups[7],
        },
    )
}

impl Ipv6Literal {
    /// The unspecified address, all zeros.
    pub open spec fn spec_is_unspecified(self) -> bool {
        self.spec_leading_zeros() && self.g7 == 0
    }

    /// Whether the first seven groups are zero.
    pub open spec fn spec_leading_zeros(self) -> bool {
        self.g0 == 0 && self.g1 == 0 && self.g2 == 0 && self.g3 == 0 && self.g4 == 0 && self.g5
            == 0 && self.g6 == 0
    }

    /// The loopback address, `::1`.
    pub open spec fn spec_is_loopback(self) -> bool {
        self.spec_leading_zeros() && self.g7 == 1
    }

    /// IPv4-mapped addresses, `::ffff:0:0/96`.
    pub open spec fn spec_is_ipv4_mapped(self) -> bool {
        self.g0 == 0 && self.g1 == 0 && self.g2 == 0 && self.g3 == 0 && self.g4 == 0 && self.g5
            == 0xffff
    }

    /// Addresses that stand for IPv4 hosts behind a gateway, `64:ff9b:1::/48`.
    pub open spec fn spec_is_gateway_mapped(self) -> bool {
        self.g0 == 0x64 && self.g1 == 0xff9b && self.g2 == 1
    }

    /// The discard-only block, `100::/64`.
    pub open spec fn spec_is_discard_only(self) -> bool {
        self.g0 == 0x100 && self.g1 == 0 && self.g2 == 0 && self.g3 == 0
    }

    /// The parts of the protocol assignments block `2001::/23` that are
    /// reachable from everywhere: two anycast addresses and three ranges.
    pub open spec fn spec_is_reachable_assignment(self) -> bool {
        ||| (self.g1 == 1 && self.g2 == 0 && self.g3 == 0 && self.g4 == 0 && self.g5 == 0
            && self.g6 == 0 && (self.g7 == 1 || self.g7 == 2))
        ||| self.g1 == 3
        ||| (self.g1 == 4 && self.g2 == 0x112)
        ||| (0x20 <= self.g1 <= 0x3f)
    }

    /// Protocol assignments, `2001::/23`, but for the reachable parts.
    pub open spec fn spec_is_protocol_assignment(self) -> bool {
        self.g0 == 0x2001 && self.g1 < 0x200 && !self.spec_is_reachable_assignment()
    }

    /// The 6to4 block, `2002::/16`.
    pub open spec fn spec_is_6to4(self) -> bool {
        self.g0 == 0x2002
    }

    /// The documentation ranges, `2001:db8::/32` and `3fff::/20`.
    pub open spec fn spec_is_documentation(self) -> bool {
        (self.g0 == 0x2001 && self.g1 == 0xdb8) || (self.g0 == 0x3fff && self.g1 <= 0x0fff)
    }

    /// Segment routing identifiers, `5f00::/16`.
    pub open spec fn spec_is_segment_routing(self) -> bool {
        self.g0 == 0x5f00
    }

    /// Unique local addresses, `fc00::/7`.
    pub open spec fn spec_is_unique_local(self) -> bool {
        0xfc00 <= self.g0 <= 0xfdff
    }

    /// Link-local unicast addresses, `fe80::/10`.
    pub open spec fn spec_is_link_local(self) -> bool {
        0xfe80 <= self.g0 <= 0xfebf
    }

    /// Multicast, `ff00::/8`.
    pub open spec fn spec_is_multicast(self) -> bool {
        self.g0 >= 0xff00
    }

    /// Publicly routable: in none of the special-purpose ranges.
    pub open spec fn spec_is_global(self) -> bool {
        !(self.spec_is_unspecified() || self.spec_is_loopback() || self.spec_is_ipv4_mapped()
            || self.spec_is_gateway_mapped() || self.spec_is_discard_only()
            || self.spec_is_protocol_assignment() || self.spec_is_6to4()
            || self.spec_is_documentation() || self.spec_is_segment_routing()
            || self.spec_is_unique_local() || self.spec_is_link_local()
            || self.spec_is_multicast())
    }

    /// Acceptable as an endpoint: global or loopback.
    pub open spec fn spec_is_acceptable(self) -> bool {
        self.spec_is_global() || self.spec_is_loopback()
    }

    pub fn is_loopback(&self) -> (r: bool)
        ensures
            r == self.spec_is_loopback(),
    {
        self.g0 == 0 && self.g1 == 0 && self.g2 == 0 && self.g3 == 0 && self.g4 == 0 && self.g5
            == 0 && self.g6 == 0 && self.g7 == 1
    }

    pub fn is_global(&self) -> (r: bool)
        ensures
            r == self.spec_is_global(),
    {
        let leading_zeros = self.g0 == 0 && self.g1 == 0 && self.g2 == 0 && self.g3 == 0
            && self.g4 == 0;
        let low = leading_zeros && self.g5 == 0 && self.g6 == 0 && (self.g7 == 0 || self.g7 == 1);
        let mapped = leading_zeros && self.g5 == 0xffff;
        let gateway_mapped = self.g0 == 0x64 && self.g1 == 0xff9b && self.g2 == 1;
        let discard = self.g0 == 0x100 && self.g1 == 0 && self.g2 == 0 && self.g3 == 0;
        let anycast = self.g1 == 1 && self.g2 == 0 && self.g3 == 0 && self.g4 == 0 && self.g5 == 0
            && self.g6 == 0 && (self.g7 == 1 || self.g7 == 2);
        let reachable = anycast || self.g1 == 3 || (self.g1 == 4 && self.g2 == 0x112) || (0x20
            <= self.g1 && self.g1 <= 0x3f);
        let assignment = self.g0 == 0x2001 && self.g1 < 0x200 && !reachable;
        let documentation = (self.g0 == 0x2001 && self.g1 == 0xdb8) || (self.g0 == 0x3fff
            && self.g1 <= 0x0fff);
        let local_or_multicast = (0xfc00 <= self.g0 && self.g0 <= 0xfdff) || (0xfe80 <= self.g0
            && self.g0 <= 0xfebf) || self.g0 >= 0xff00;
        !(low || mapped || gateway_mapped || discard || assignment || self.g0 == 0x2002
            || documentation || self.g0 == 0x5f00 || local_or_multicast)
    }

    pub fn is_acceptable(&self) -> (r: bool)
        ensures
            r == self.spec_is_acceptable(),
    {
        self.is_global() || self.is_loopback()
    }
}

/// The text of a list of groups: each in hexadecimal, with one colon between
/// each two.
pub open spec fn joined_groups(g: Seq<u16>) -> Seq<char>
    decreases g.len(),
{
    if g.len() == 0 {
        Seq::empty()
    } else if g.len() == 1 {
        hex_text(g[0] as nat)
    } else {
        hex_text(g[0] as nat) + seq![':'] + joined_groups(g.drop_first())
    }
}

/// The eight groups of an address, first to last.
pub open spec fn groups_of_ipv6(ip: Ipv6Literal) -> Seq<u16> {
    seq![ip.g0, ip.g1, ip.g2, ip.g3, ip.g4, ip.g5, ip.g6, ip.g7]
}

/// The full text of an IPv6 address: all eight groups, none left out.
pub open spec fn full_ipv6_text(ip: Ipv6Literal) -> Seq<char> {
    joined_groups(groups_of_ipv6(ip))
}

/// The hexadecimal text of a group is the text of that group.
pub proof fn lemma_group_text(n: u16)
    ensures
        is_hex_group(hex_text(n as nat)),
        hex_value(hex_text(n as nat)) == n,
{
    let t = hex_text(n as nat);
    reveal_with_fuel(hex_text, 5);
    reveal_with_fuel(hex_value, 6);
    assert forall|d: nat| d < 16 implies is_hex_digit(#[trigger] hex_char(d)) && hex_digit_value(
        hex_char(d),
    ) == d by {}
    let m = n as nat;
    if m < 16 {
        assert(t =~= seq![hex_char(m)]);
        assert(t.drop_last() =~= Seq::<char>::empty());
    } else if m < 256 {
        assert(t =~= seq![hex_char(m / 16), hex_char(m % 16)]);
        assert(t.drop_last() =~= seq![hex_char(m / 16)]);
        assert(t.drop_last().drop_last() =~= Seq::<char>::empty());
    } else if m < 4096 {
        let a = m / 256;
        let b = (m / 16) % 16;
        let c = m % 16;
        assert((m / 16) / 16 == a);
        assert(t =~= seq![hex_char(a), hex_char(b), hex_char(c)]);
        assert(t.drop_last() =~= seq![hex_char(a), hex_char(b)]);
        assert(t.drop_last().drop_last() =~= seq![hex_char(a)]);
        assert(t.drop_last().drop_last().drop_last() =~= Seq::<char>::empty());
    } else {
        let a = m / 4096;
        let b = (m / 256) % 16;
        let c = (m / 16) % 16;
        let d = m % 16;
        assert((m / 16) / 16 == m / 256);
        assert(((m / 16) / 16) / 16 == a);
        assert(((m / 16) / 16) % 16 == b);
        assert(t =~= seq![hex_char(a), hex_char(b), hex_char(c), hex_char(d)]);
        assert(t.drop_last() =~= seq![hex_char(a), hex_char(b), hex_char(c)]);
        assert(t.drop_last().drop_last() =~= seq![hex_char(a), hex_char(b)]);
        assert(t.drop_last().drop_last().drop_last() =~= seq![hex_char(a)]);
        assert(t.drop_last().drop_last().drop_last().drop_last() =~= Seq::<char>::empty());
    }
}

/// A non-empty list of groups, no longer than the limit, is read back from
/// its text, and in that text no colon stands first, last or beside another.
pub proof fn lemma_joined_groups_parse(g: Seq<u16>, allow_v4: bool, limit: nat)
    requires
        1 <= g.len() <= limit,
    ensures
        groups_spec(joined_groups(g), allow_v4, limit) == Some(g),
        joined_groups(g).len() >= 1,
        joined_groups(g)[0] != ':',
        forall|i: int|
            0 <= i < joined_groups(g).len() && #[trigger] joined_groups(g)[i] == ':' ==> i + 1
                < joined_groups(g).len() && joined_groups(g)[i + 1] != ':',
    decreases g.len(),
{
    let t = hex_text(g[0] as nat);
    let s = joined_groups(g);
    lemma_group_text(g[0]);
    assert forall|x: int| 0 <= x < t.len() implies t[x] != ':' by {
        assert(is_hex_digit(t[x]));
    }
    if g.len() == 1 {
        assert(s == t);
        lemma_first_index_skips(s, ':', 0, s.len() as int);
        assert(seq![hex_value(t) as u16] =~= g);
    } else {
        let rest = g.drop_first();
        let r = joined_groups(rest);
        lemma_joined_groups_parse(rest, allow_v4, (limit - 1) as nat);
        let c = t.len() as int;
        assert(s == t + seq![':'] + r);
        assert forall|x: int| 0 <= x < c implies s[x] != ':' by {
            assert(s[x] == t[x]);
        }
        assert(s[c] == ':');
        lemma_first_index_skips(s, ':', 0, c);
        assert(s.subrange(0, c) =~= t);
        assert(s.subrange(c + 1, s.len() as int) =~= r);
        assert(seq![g[0]] + rest =~= g);
        assert forall|i: int| 0 <= i < s.len() && #[trigger] s[i] == ':' implies i + 1 < s.len() && s[i + 1]
            != ':' by {
            if i > c {
                assert(s[i] == r[i - c - 1]);
                assert(s[i + 1] == r[i - c]);
            } else {
                assert(i == c);
                assert(s[c + 1] == r[0]);
            }
        }
    }
}

/// Every IPv6 address is read back from its full text.
pub proof fn lemma_full_ipv6_text_parses(ip: Ipv6Literal)
    ensures
        parse_ipv6_spec(full_ipv6_text(ip)) == Some(ip),
{
    let g = groups_of_ipv6(ip);
    let s = full_ipv6_text(ip);
    lemma_joined_groups_parse(g, true, 8);
    lemma_no_double_colon(s, 0);
}

/// Whether `c` can stand in an IPv6 literal: a hexadecimal digit, the colon,
/// or the dot of an embedded IPv4 literal.
pub open spec fn is_ipv6_char(c: char) -> bool {
    is_hex_digit(c) || c == ':' || c == '.'
}

/// A list of groups holds no character that cannot stand in an IPv6 literal.
pub proof fn lemma_groups_characters(s: Seq<char>, allow_v4: bool, limit: nat, at: int)
    requires
        0 <= at < s.len(),
        groups_spec(s, allow_v4, limit) is Some,
    ensures
        is_ipv6_char(s[at]),
    decreases limit,
{
    let c = first_index_of(s, ':', 0);
    lemma_first_index_bounds(s, ':', 0);
    if c >= s.len() {
        if !is_hex_group(s) && !is_ipv6_char(s[at]) {
            lemma_ipv4_rejects_other_characters(s, at);
        }
    } else {
        lemma_first_index_is_separator(s, ':', 0);
        if at < c {
            assert(s.subrange(0, c)[at] == s[at]);
        } else if at > c {
            let rest = s.subrange(c + 1, s.len() as int);
            assert(rest[at - c - 1] == s[at]);
            lemma_groups_characters(rest, allow_v4, (limit - 1) as nat, at - c - 1);
        }
    }
}

/// Text that holds a character other than a hexadecimal digit, the colon and
/// the dot is no IPv6 literal, so it is not valid for version 6.
pub proof fn lemma_ipv6_rejects_other_characters(s: Seq<char>, at: int)
    requires
        0 <= at < s.len(),
        !is_ipv6_char(s[at]),
    ensures
        parse_ipv6_spec(s) is None,
{
    let p = first_double_colon(s, 0);
    let n = s.len() as int;
    if p >= n {
        if groups_spec(s, true, 8) is Some {
            lemma_groups_characters(s, true, 8, at);
        }
    } else {
        lemma_double_colon_found(s, 0);
        let head = s.subrange(0, p);
        let tail = s.subrange(p + 2, n);
        let head_groups = optional_groups_spec(head, false, 7);
        if head_groups is Some {
            let h = head_groups->0;
            if at < p {
                assert(head[at] == s[at]);
                lemma_groups_characters(head, false, 7, at);
            } else if at >= p + 2 {
                if optional_groups_spec(tail, true, (7 - h.len()) as nat) is Some {
                    assert(tail[at - p - 2] == s[at]);
                    lemma_groups_characters(tail, true, (7 - h.len()) as nat, at - p - 2);
                }
            }
        }
    }
}

} // verus!
