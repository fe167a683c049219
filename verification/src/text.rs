//! Small helpers on text: characters of a string slice, decimal digits.
use vstd::prelude::*;
use vstd::string::*;

verus! {

/// Whether `c` is one of the ten ASCII decimal digits.
pub open spec fn is_digit(c: char) -> bool {
    '0' <= c && c <= '9'
}

/// The number that the decimal digit `c` stands for.
pub open spec fn digit_value(c: char) -> int {
    c as int - '0' as int
}

/// The number that a run of decimal digits stands for, most significant first.
pub open spec fn decimal_value(s: Seq<char>) -> int
    decreases s.len(),
{
    if s.len() == 0 {
        0
    } else {
        decimal_value(s.drop_last()) * 10 + digit_value(s.last())
    }
}

/// The character of the decimal digit `d`.
pub open spec fn digit_char(d: nat) -> char {
    if d == 0 {
        '0'
    } else if d == 1 {
        '1'
    } else if d == 2 {
        '2'
    } else if d == 3 {
        '3'
    } else if d == 4 {
        '4'
    } else if d == 5 {
        '5'
    } else if d == 6 {
        '6'
    } else if d == 7 {
        '7'
    } else if d == 8 {
        '8'
    } else {
        '9'
    }
}

/// The decimal text of `n`, without leading zeros.
pub open spec fn decimal_text(n: nat) -> Seq<char>
    decreases n,
{
    if n < 10 {
        seq![digit_char(n)]
    } else {
        decimal_text(n / 10).push(digit_char(n % 10))
    }
}

/// Whether every character of `s` is a decimal digit.
pub open spec fn all_digits(s: Seq<char>) -> bool {
    forall|i: int| 0 <= i < s.len() ==> is_digit(#[trigger] s[i])
}

/// Position of the first `sep` in `s` at or after `from`; the length of `s`
/// where there is none.
pub open spec fn first_index_of(s: Seq<char>, sep: char, from: int) -> int
    decreases s.len() - from,
{
    if from >= s.len() {
        s.len() as int
    } else if from >= 0 && s[from] == sep {
        from
    } else {
        first_index_of(s, sep, from + 1)
    }
}

/// The first separator at or after `from` lies between `from` and the end.
pub proof fn lemma_first_index_bounds(s: Seq<char>, sep: char, from: int)
    requires
        0 <= from <= s.len(),
    ensures
        from <= first_index_of(s, sep, from) <= s.len(),
    decreases s.len() - from,
{
    if from < s.len() && s[from] != sep {
        lemma_first_index_bounds(s, sep, from + 1);
    }
}

/// Where a separator is found, the character at that position is the
/// separator.
pub proof fn lemma_first_index_is_separator(s: Seq<char>, sep: char, from: int)
    requires
        0 <= from <= s.len(),
    ensures
        first_index_of(s, sep, from) < s.len() ==> s[first_index_of(s, sep, from)] == sep,
    decreases s.len() - from,
{
    if from < s.len() && s[from] != sep {
        lemma_first_index_is_separator(s, sep, from + 1);
    }
}

/// The search for a separator passes over a stretch that holds none.
pub proof fn lemma_first_index_skips(s: Seq<char>, sep: char, from: int, to: int)
    requires
        0 <= from <= to <= s.len(),
        forall|i: int| from <= i < to ==> s[i] != sep,
    ensures
        first_index_of(s, sep, from) == first_index_of(s, sep, to),
    decreases to - from,
{
    if from < to {
        lemma_first_index_skips(s, sep, from + 1, to);
    }
}

/// The characters of a string slice, one by one.
pub fn to_chars(s: &str) -> (r: Vec<char>)
    ensures
        r@ == s@,
{
    let n: usize = s.unicode_len();
    let mut v: Vec<char> = Vec::new();
    let mut i: usize = 0;
    while i < n
        invariant
            i <= n,
            n == s@.len(),
            v@ == s@.subrange(0, i as int),
        decreases n - i,
    {
        let c = s.get_char(i);
        v.push(c);
        i += 1;
        proof {
            assert(v@ =~= s@.subrange(0, i as int));
        }
    }
    proof {
        assert(s@.subrange(0, n as int) =~= s@);
    }
    v
}

/// Finds the first `sep` in `chars` at or after `from`.
pub fn find_char(chars: &Vec<char>, sep: char, from: usize) -> (r: usize)
    requires
        from <= chars.len(),
    ensures
        r == first_index_of(chars@, sep, from as int),
        from <= r <= chars.len(),
{
    let n: usize = chars.len();
    let mut i: usize = from;
    proof {
        lemma_first_index_bounds(chars@, sep, from as int);
    }
    while i < n && chars[i] != sep
        invariant
            from <= i <= n,
            n == chars.len(),
            first_index_of(chars@, sep, from as int) == first_index_of(chars@, sep, i as int),
        decreases n - i,
    {
        i += 1;
    }
    i
}

/// Whether `c` is a hexadecimal digit, in either case.
pub open spec fn is_hex_digit(c: char) -> bool {
    is_digit(c) || ('a' <= c && c <= 'f') || ('A' <= c && c <= 'F')
}

/// The number that the hexadecimal digit `c` stands for.
pub open spec fn hex_digit_value(c: char) -> int {
    if is_digit(c) {
        c as int - '0' as int
    } else if 'a' <= c && c <= 'f' {
        c as int - 'a' as int + 10
    } else {
        c as int - 'A' as int + 10
    }
}

/// The number that a run of hexadecimal digits stands for, most significant
/// first.
pub open spec fn hex_value(s: Seq<char>) -> int
    decreases s.len(),
{
    if s.len() == 0 {
        0
    } else {
        hex_value(s.drop_last()) * 16 + hex_digit_value(s.last())
    }
}

/// The lower-case character of the hexadecimal digit `d`.
pub open spec fn hex_char(d: nat) -> char {
    if d == 0 {
        '0'
    } else if d == 1 {
        '1'
    } else if d == 2 {
        '2'
    } else if d == 3 {
        '3'
    } else if d == 4 {
        '4'
    } else if d == 5 {
        '5'
    } else if d == 6 {
        '6'
    } else if d == 7 {
        '7'
    } else if d == 8 {
        '8'
    } else if d == 9 {
        '9'
    } else if d == 10 {
        'a'
    } else if d == 11 {
        'b'
    } else if d == 12 {
        'c'
    } else if d == 13 {
        'd'
    } else if d == 14 {
        'e'
    } else {
        'f'
    }
}

/// The hexadecimal text of `n`, in lower case and without leading zeros.
pub open spec fn hex_text(n: nat) -> Seq<char>
    decreases n,
{
    if n < 16 {
        seq![hex_char(n)]
    } else {
        hex_text(n / 16).push(hex_char(n % 16))
    }
}

/// Text in which no colon is followed by another holds no pair of adjacent
/// colons.
pub proof fn lemma_no_double_colon(s: Seq<char>, from: int)
    requires
        0 <= from <= s.len(),
        forall|i: int| 0 <= i && i + 1 < s.len() && #[trigger] s[i] == ':' ==> s[i + 1] != ':',
    ensures
        first_double_colon(s, from) == s.len(),
    decreases s.len() - from,
{
    if from + 1 < s.len() {
        lemma_no_double_colon(s, from + 1);
    }
}

/// Position of the first pair of adjacent colons in `s` at or after `from`;
/// the length of `s` where there is none.
pub open spec fn first_double_colon(s: Seq<char>, from: int) -> int
    decreases s.len() - from,
{
    if from + 1 >= s.len() {
        s.len() as int
    } else if from >= 0 && s[from] == ':' && s[from + 1] == ':' {
        from
    } else {
        first_double_colon(s, from + 1)
    }
}

/// Where a pair of adjacent colons is found, two colons stand at that
/// position, which is at or after `from`.
pub proof fn lemma_double_colon_found(s: Seq<char>, from: int)
    requires
        0 <= from,
    ensures
        first_double_colon(s, from) < s.len() ==> {
            let p = first_double_colon(s, from);
            from <= p && p + 1 < s.len() && s[p] == ':' && s[p + 1] == ':'
        },
    decreases s.len() - from,
{
    if from + 1 < s.len() && !(s[from] == ':' && s[from + 1] == ':') {
        lemma_double_colon_found(s, from + 1);
    }
}

/// Finds the first pair of adjacent colons in `chars`.
pub fn find_double_colon(chars: &Vec<char>) -> (r: usize)
    ensures
        r == first_double_colon(chars@, 0),
        r == chars.len() || r + 2 <= chars.len(),
{
    let n: usize = chars.len();
    if n < 2 {
        return n;
    }
    let mut i: usize = 0;
    while i < n - 1 && !(chars[i] == ':' && chars[i + 1] == ':')
        invariant
            i <= n - 1,
            2 <= n,
            n == chars.len(),
            first_double_colon(chars@, 0) == first_double_colon(chars@, i as int),
        decreases n - i,
    {
        i += 1;
    }
    if i >= n - 1 {
        n
    } else {
        i
    }
}

/// The characters of `chars` from `from` up to `to`.
pub fn slice_chars(chars: &Vec<char>, from: usize, to: usize) -> (r: Vec<char>)
    requires
        from <= to <= chars.len(),
    ensures
        r@ == chars@.subrange(from as int, to as int),
{
    let mut v: Vec<char> = Vec::new();
    let mut i: usize = from;
    while i < to
        invariant
            from <= i <= to <= chars.len(),
            v@ == chars@.subrange(from as int, i as int),
        decreases to - i,
    {
        v.push(chars[i]);
        i += 1;
        proof {
            assert(v@ =~= chars@.subrange(from as int, i as int));
        }
    }
    v
}

} // verus!
