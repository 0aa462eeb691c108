//! Searching, trimming and reading numbers in sequences of characters.
//!
//! Everything here is stated over `Seq<char>`, the view of `str` and `String`,
//! so that positions count characters, never bytes.

use vstd::prelude::*;
use vstd::string::*;

verus! {

/// The characters of `s`, in order.
pub fn chars_of(s: &str) -> (r: Vec<char>)
    ensures
        r@ == s@,
{
    let mut out: Vec<char> = Vec::new();
    for c in it: s.chars()
        invariant
            out@ == it.seq().take(it.index()),
            it.seq() == s@,
    {
        out.push(c);
    }
    out
}

/// A copy of `v[lo..hi]`.
pub fn slice_of(v: &Vec<char>, lo: usize, hi: usize) -> (r: Vec<char>)
    requires
        lo <= hi <= v@.len(),
    ensures
        r@ == v@.subrange(lo as int, hi as int),
{
    let mut out: Vec<char> = Vec::new();
    let mut i: usize = lo;
    while i < hi
        invariant
            lo <= i <= hi <= v@.len(),
            out@ == v@.subrange(lo as int, i as int),
        decreases hi - i,
    {
        out.push(v[i]);
        i = i + 1;
    }
    out
}

/// Whether `a` and `b` hold the same characters.
pub fn same_chars(a: &Vec<char>, b: &Vec<char>) -> (r: bool)
    ensures
        r == (a@ == b@),
{
    if a.len() != b.len() {
        return false;
    }
    let mut i: usize = 0;
    while i < a.len()
        invariant
            a@.len() == b@.len(),
            0 <= i <= a@.len(),
            forall|k: int| 0 <= k < i ==> a@[k] == b@[k],
        decreases a@.len() - i,
    {
        if a[i] != b[i] {
            return false;
        }
        i = i + 1;
    }
    assert(a@ =~= b@);
    true
}

/// Whether `a` stands at position `k` of `s`, directly before `b`.
pub open spec fn pair_at(s: Seq<char>, a: char, b: char, k: int) -> bool {
    0 <= k && k + 1 < s.len() && s[k] == a && s[k + 1] == b
}

/// The first position at or after `from` where `a` stands directly before `b`.
pub open spec fn find_pair(s: Seq<char>, a: char, b: char, from: int) -> Option<int>
    decreases s.len() - from,
{
    if from < 0 || from + 1 >= s.len() {
        None
    } else if pair_at(s, a, b, from) {
        Some(from)
    } else {
        find_pair(s, a, b, from + 1)
    }
}

/// A position that `find_pair` returns holds the pair, lies at or after
/// `from`, and no earlier position from `from` on holds the pair.
pub proof fn lemma_find_pair(s: Seq<char>, a: char, b: char, from: int)
    ensures
        match find_pair(s, a, b, from) {
            Some(p) => {
                &&& 0 <= from <= p
                &&& pair_at(s, a, b, p)
                &&& forall|k: int| from <= k < p ==> !pair_at(s, a, b, k)
            },
            None => forall|k: int| 0 <= from <= k ==> !pair_at(s, a, b, k),
        },
    decreases s.len() - from,
{
    if from < 0 || from + 1 >= s.len() {
    } else if pair_at(s, a, b, from) {
    } else {
        lemma_find_pair(s, a, b, from + 1);
    }
}

/// `find_pair` on a vector of characters.
pub fn find_pair_in(s: &Vec<char>, a: char, b: char, from: usize) -> (r: Option<usize>)
    ensures
        match find_pair(s@, a, b, from as int) {
            Some(p) => r == Some(p as usize) && p <= usize::MAX,
            None => r is None,
        },
{
    let n: usize = s.len();
    if n < 2 {
        return None;
    }
    let mut i: usize = from;
    while i < n - 1
        invariant
            n == s@.len(),
            n >= 2,
            from <= i,
            find_pair(s@, a, b, from as int) == find_pair(s@, a, b, i as int),
        decreases n - i,
    {
        if s[i] == a && s[i + 1] == b {
            return Some(i);
        }
        i = i + 1;
    }
    None
}

/// The first position at or after `from` that holds `c`.
pub open spec fn find_char(s: Seq<char>, c: char, from: int) -> Option<int>
    decreases s.len() - from,
{
    if from < 0 || from >= s.len() {
        None
    } else if s[from] == c {
        Some(from)
    } else {
        find_char(s, c, from + 1)
    }
}

/// A position that `find_char` returns holds the character, lies at or after
/// `from`, and no earlier position from `from` on holds it.
pub proof fn lemma_find_char(s: Seq<char>, c: char, from: int)
    ensures
        match find_char(s, c, from) {
            Some(p) => {
                &&& 0 <= from <= p < s.len()
                &&& s[p] == c
                &&& forall|k: int| from <= k < p ==> #[trigger] s[k] != c
            },
            None => forall|k: int| 0 <= from <= k < s.len() ==> #[trigger] s[k] != c,
        },
    decreases s.len() - from,
{
    if from < 0 || from >= s.len() {
    } else if s[from] == c {
    } else {
        lemma_find_char(s, c, from + 1);
    }
}

/// `find_char` on a vector of characters.
pub fn find_char_in(s: &Vec<char>, c: char, from: usize) -> (r: Option<usize>)
    ensures
        match find_char(s@, c, from as int) {
            Some(p) => r == Some(p as usize) && p <= usize::MAX,
            None => r is None,
        },
{
    let n: usize = s.len();
    let mut i: usize = from;
    while i < n
        invariant
            n == s@.len(),
            from <= i,
            find_char(s@, c, from as int) == find_char(s@, c, i as int),
        decreases n - i,
    {
        if s[i] == c {
            return Some(i);
        }
        i = i + 1;
    }
    None
}

/// Whether `c` is white space: a character with the Unicode property
/// `White_Space`.
pub open spec fn is_space(c: char) -> bool {
    let n = c as u32;
    ||| 0x09 <= n <= 0x0D
    ||| n == 0x20
    ||| n == 0x85
    ||| n == 0xA0
    ||| n == 0x1680
    ||| 0x2000 <= n <= 0x200A
    ||| n == 0x2028
    ||| n == 0x2029
    ||| n == 0x202F
    ||| n == 0x205F
    ||| n == 0x3000
}

/// Whether `c` is white space.
pub fn is_space_char(c: char) -> (r: bool)
    ensures
        r == is_space(c),
{
    let n: u32 = c as u32;
    (0x09 <= n && n <= 0x0D) || n == 0x20 || n == 0x85 || n == 0xA0 || n == 0x1680 || (0x2000 <= n
        && n <= 0x200A) || n == 0x2028 || n == 0x2029 || n == 0x202F || n == 0x205F || n == 0x3000
}

/// The first position at or after `from` that holds no white space, or the
/// length of `s` if there is none.
pub open spec fn skip_spaces(s: Seq<char>, from: int) -> int
    decreases s.len() - from,
{
    if from < 0 || from >= s.len() {
        s.len() as int
    } else if is_space(s[from]) {
        skip_spaces(s, from + 1)
    } else {
        from
    }
}

/// The least end `e` with `lo <= e <= hi` such that `s[e..hi]` is white space
/// only.
pub open spec fn drop_spaces(s: Seq<char>, lo: int, hi: int) -> int
    decreases hi - lo,
{
    if lo < hi && 0 < hi <= s.len() && is_space(s[hi - 1]) {
        drop_spaces(s, lo, hi - 1)
    } else {
        hi
    }
}

/// `s` without the white space at its start and at its end.
pub open spec fn trim(s: Seq<char>) -> Seq<char> {
    let lo = skip_spaces(s, 0);
    s.subrange(lo, drop_spaces(s, lo, s.len() as int))
}

/// A copy of `s` without the white space at its start and at its end.
pub fn trimmed(s: &Vec<char>) -> (r: Vec<char>)
    ensures
        r@ == trim(s@),
{
    let n: usize = s.len();
    let mut lo: usize = 0;
    while lo < n && is_space_char(s[lo])
        invariant
            n == s@.len(),
            0 <= lo <= n,
            skip_spaces(s@, 0) == skip_spaces(s@, lo as int),
        decreases n - lo,
    {
        lo = lo + 1;
    }
    let mut hi: usize = n;
    while lo < hi && is_space_char(s[hi - 1])
        invariant
            n == s@.len(),
            lo <= hi <= n,
            drop_spaces(s@, lo as int, n as int) == drop_spaces(s@, lo as int, hi as int),
        decreases hi - lo,
    {
        hi = hi - 1;
    }
    slice_of(s, lo, hi)
}

/// Whether `c` is one of the ten decimal digits.
pub open spec fn is_digit(c: char) -> bool {
    '0' <= c && c <= '9'
}

/// Whether `s` is a decimal number: one digit or more, and nothing else.
pub open spec fn is_number(s: Seq<char>) -> bool {
    s.len() > 0 && forall|k: int| 0 <= k < s.len() ==> is_digit(#[trigger] s[k])
}

/// The number that the decimal digits of `s` write.
pub open spec fn number_value(s: Seq<char>) -> nat
    decreases s.len(),
{
    if s.len() == 0 {
        0
    } else {
        (10 * number_value(s.drop_last()) + (s.last() as u32 - '0' as u32)) as nat
    }
}

/// What a bound of a range or an index reads as.
#[derive(Clone, Copy, Debug, PartialEq, Eq, Structural)]
pub enum Bound {
    /// No character at all.
    Absent,
    /// A decimal number that fits the machine's index type.
    At(usize),
    /// A decimal number that is larger than any index.
    Beyond,
    /// Anything else.
    Malformed,
}

/// What `s` reads as where a bound is expected.
pub open spec fn bound_of(s: Seq<char>) -> Bound {
    if s.len() == 0 {
        Bound::Absent
    } else if !is_number(s) {
        Bound::Malformed
    } else if number_value(s) <= usize::MAX {
        Bound::At(number_value(s) as usize)
    } else {
        Bound::Beyond
    }
}

/// Reads `s` as a bound.
pub fn read_bound(s: &Vec<char>) -> (r: Bound)
    ensures
        r == bound_of(s@),
{
    let n: usize = s.len();
    if n == 0 {
        return Bound::Absent;
    }
    let mut value: usize = 0;
    let mut beyond: bool = false;
    let mut i: usize = 0;
    while i < n
        invariant
            n == s@.len(),
            0 <= i <= n,
            forall|k: int| 0 <= k < i ==> is_digit(#[trigger] s@[k]),
            !beyond ==> value == number_value(s@.take(i as int)),
            beyond ==> number_value(s@.take(i as int)) > usize::MAX,
        decreases n - i,
    {
        let c: char = s[i];
        if !('0' <= c && c <= '9') {
            return Bound::Malformed;
        }
        let d: usize = (c as u32 - '0' as u32) as usize;
        proof {
            assert(s@.take(i + 1).drop_last() =~= s@.take(i as int));
            assert(s@.take(i + 1).last() == c);
        }
        if !beyond {
            if value > (usize::MAX - d) / 10 {
                beyond = true;
            } else {
                value = value * 10 + d;
            }
        }
        i = i + 1;
    }
    proof {
        assert(s@.take(n as int) =~= s@);
    }
    if beyond {
        Bound::Beyond
    } else {
        Bound::At(value)
    }
}

/// The character that writes the digit `d`.
pub open spec fn digit_char(d: nat) -> char {
    if d == 0 {
        '0'
    } else if d == 1 {
        '1'
    } else if d == 2 {
        '2'
    } else if d == 3 {
        '3'
    } else if d == 4 {
        '4'
    } else if d == 5 {
        '5'
    } else if d == 6 {
        '6'
    } else if d == 7 {
        '7'
    } else if d == 8 {
        '8'
    } else {
        '9'
    }
}

/// The decimal digits of `n`, without leading zeros.
pub open spec fn decimal_text(n: nat) -> Seq<char>
    decreases n,
{
    if n < 10 {
        seq![digit_char(n)]
    } else {
        decimal_text(n / 10).push(digit_char(n % 10))
    }
}

/// The decimal digits of `n`, behind a `-` if `n` is negative.
pub open spec fn signed_decimal_text(n: int) -> Seq<char> {
    if n < 0 {
        seq!['-'] + decimal_text((-n) as nat)
    } else {
        decimal_text(n as nat)
    }
}

/// The digit `d` as a text of one character.
pub fn digit_str(d: u64) -> (r: &'static str)
    requires
        d < 10,
    ensures
        r@ == seq![digit_char(d as nat)],
{
    proof {
        reveal_strlit("0");
        reveal_strlit("1");
        reveal_strlit("2");
        reveal_strlit("3");
        reveal_strlit("4");
        reveal_strlit("5");
        reveal_strlit("6");
        reveal_strlit("7");
        reveal_strlit("8");
        reveal_strlit("9");
    }
    let r: &'static str = if d == 0 {
        "0"
    } else if d == 1 {
        "1"
    } else if d == 2 {
        "2"
    } else if d == 3 {
        "3"
    } else if d == 4 {
        "4"
    } else if d == 5 {
        "5"
    } else if d == 6 {
        "6"
    } else if d == 7 {
        "7"
    } else if d == 8 {
        "8"
    } else {
        "9"
    };
    assert(r@ =~= seq![digit_char(d as nat)]);
    r
}

/// `n` written in decimal digits.
pub fn decimal(n: u64) -> (r: String)
    ensures
        r@ == decimal_text(n as nat),
    decreases n,
{
    if n < 10 {
        digit_str(n).to_string()
    } else {
        let head: String = decimal(n / 10);
        let r: String = head.concat(digit_str(n % 10));
        assert(r@ =~= decimal_text((n / 10) as nat).push(digit_char((n % 10) as nat)));
        r
    }
}

/// `n` written in decimal digits, behind a `-` if it is negative.
pub fn signed_decimal(n: i64) -> (r: String)
    ensures
        r@ == signed_decimal_text(n as int),
{
    if n < 0 {
        proof {
            reveal_strlit("-");
        }
        let magnitude: u64 = if n == i64::MIN {
            9223372036854775808u64
        } else {
            (-n) as u64
        };
        let r: String = "-".to_string().concat(decimal(magnitude).as_str());
        assert(r@ =~= seq!['-'] + decimal_text((-n) as nat));
        r
    } else {
        decimal(n as u64)
    }
}

/// The integer that `s` writes: decimal digits, behind a `-` if it is
/// negative. `None` if `s` writes no integer, or one whose magnitude is above
/// 2147483647.
pub open spec fn small_integer_of(s: Seq<char>) -> Option<i32> {
    let negative = s.len() > 0 && s[0] == '-';
    let digits = if negative {
        s.skip(1)
    } else {
        s
    };
    match bound_of(digits) {
        Bound::At(n) => if n <= 2147483647 {
            Some(
                if negative {
                    (-(n as int)) as i32
                } else {
                    n as i32
                },
            )
        } else {
            None
        },
        _ => None,
    }
}

/// Reads `s` as an integer of small magnitude.
pub fn read_small_integer(s: &Vec<char>) -> (r: Option<i32>)
    ensures
        r == small_integer_of(s@),
{
    let negative: bool = s.len() > 0 && s[0] == '-';
    let digits: Vec<char> = if negative {
        slice_of(s, 1, s.len())
    } else {
        slice_of(s, 0, s.len())
    };
    assert(s@.subrange(0, s@.len() as int) =~= s@);
    match read_bound(&digits) {
        Bound::At(n) => {
            if n <= 2147483647 {
                let magnitude: i32 = n as i32;
                if negative {
                    Some(-magnitude)
                } else {
                    Some(magnitude)
                }
            } else {
                None
            }
        },
        _ => None,
    }
}

} // verus!
