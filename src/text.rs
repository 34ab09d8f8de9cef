//! Decimal text: reading it, writing it, and turning a `str` into its characters.
use vstd::prelude::*;

verus! {

/// Whether `c` is one of the ASCII digits `0` to `9`.
pub open spec fn is_digit(c: char) -> bool {
    '0' <= c && c <= '9'
}

/// The value of a digit character.
pub open spec fn digit_value(c: char) -> int {
    (c as int) - ('0' as int)
}

/// Whether every character of `s` is a digit.
pub open spec fn all_digits(s: Seq<char>) -> bool {
    forall|i: int| 0 <= i < s.len() ==> is_digit(#[trigger] s[i])
}

/// The base-ten value of a run of digits, most significant first.
pub open spec fn digits_value(s: Seq<char>) -> int
    decreases s.len(),
{
    if s.len() == 0 {
        0
    } else {
        digits_value(s.drop_last()) * 10 + digit_value(s.last())
    }
}

/// What an integer reads as: an optional `+` or `-`, then at least one digit,
/// and nothing else. `None` for any other text.
pub open spec fn decimal_value(s: Seq<char>) -> Option<int> {
    if s.len() > 0 && (s[0] == '+' || s[0] == '-') {
        let d = s.drop_first();
        if d.len() > 0 && all_digits(d) {
            Some(if s[0] == '-' { -digits_value(d) } else { digits_value(d) })
        } else {
            None
        }
    } else if s.len() > 0 && all_digits(s) {
        Some(digits_value(s))
    } else {
        None
    }
}

/// Whether `v` fits an `i32`.
pub open spec fn fits_i32(v: int) -> bool {
    i32::MIN <= v <= i32::MAX
}

/// The `i32` that text reads as: `None` where it is no integer or out of range.
pub open spec fn i32_value(s: Seq<char>) -> Option<i32> {
    match decimal_value(s) {
        Some(v) => if fits_i32(v) { Some(v as i32) } else { None },
        None => None,
    }
}

/// The digit character of a value below ten.
pub open spec fn digit_char(d: nat) -> char {
    ((d + 48) as u8) as char
}

/// The shortest base-ten text of a natural number.
pub open spec fn nat_text(n: nat) -> Seq<char>
    decreases n,
{
    if n < 10 {
        seq![digit_char(n)]
    } else {
        nat_text(n / 10).push(digit_char(n % 10))
    }
}

/// The base-ten text of an integer, with a leading `-` when it is negative.
pub open spec fn int_text(v: int) -> Seq<char> {
    if v < 0 {
        seq!['-'] + nat_text((-v) as nat)
    } else {
        nat_text(v as nat)
    }
}

/// The characters of `s`, in order.
pub fn chars_of(s: &str) -> (r: Vec<char>)
    ensures
        r@ == s@,
{
    let mut r: Vec<char> = Vec::new();
    for c in it: s.chars()
        invariant
            it.seq() == s@,
            r@ == it.seq().take(it.index() as int),
    {
        r.push(c);
    }
    assert(r@ =~= s@);
    r
}

/// Whether two strings hold the same characters.
pub fn same_text(a: &str, b: &str) -> (r: bool)
    ensures
        r == (a@ == b@),
{
    let x = chars_of(a);
    let y = chars_of(b);
    if x.len() != y.len() {
        return false;
    }
    let mut i: usize = 0;
    while i < x.len()
        invariant
            x@ == a@,
            y@ == b@,
            x@.len() == y@.len(),
            i <= x@.len(),
            forall|j: int| 0 <= j < i ==> x@[j] == y@[j],
        decreases x@.len() - i,
    {
        if x[i] != y[i] {
            return false;
        }
        i = i + 1;
    }
    assert(a@ =~= b@);
    true
}

/// Reads text as an `i32`, as `str::parse::<i32>` does: an optional sign, then
/// digits only.
pub fn parse_i32(s: &str) -> (r: Option<i32>)
    ensures
        r == i32_value(s@),
{
    let cs = chars_of(s);
    let n = cs.len();
    if n == 0 {
        return None;
    }
    let first = cs[0];
    let start: usize = if first == '+' || first == '-' { 1 } else { 0 };
    if start == n {
        return None;
    }
    let ghost d = cs@.subrange(start as int, n as int);
    // The magnitude read so far, or a flag once it passes what any i32 holds.
    let mut acc: i64 = 0;
    let mut big = false;
    let mut i: usize = start;
    while i < n
        invariant
            cs@ == s@,
            n == cs@.len(),
            start <= i <= n,
            start < n,
            first == cs@[0],
            start == (if first == '+' || first == '-' { 1usize } else { 0usize }),
            d == cs@.subrange(start as int, n as int),
            all_digits(cs@.subrange(start as int, i as int)),
            !big ==> acc == digits_value(cs@.subrange(start as int, i as int)),
            big ==> digits_value(cs@.subrange(start as int, i as int)) > 2147483648,
            0 <= acc <= 2147483648,
        decreases n - i,
    {
        let c = cs[i];
        let ghost pre = cs@.subrange(start as int, i as int);
        let ghost next = cs@.subrange(start as int, i + 1);
        assert(next.drop_last() =~= pre);
        if !('0' <= c && c <= '9') {
            assert(!is_digit(d[i - start]));
            assert(!all_digits(d));
            if start == 1 {
                assert(d =~= s@.drop_first());
            } else {
                assert(d =~= s@);
            }
            return None;
        }
        let v = (c as u32 - '0' as u32) as i64;
        assert(next.last() == c);
        if !big {
            let t = acc * 10 + v;
            if t > 2147483648 {
                big = true;
            } else {
                acc = t;
            }
        }
        i = i + 1;
        assert(all_digits(cs@.subrange(start as int, i as int)));
    }
    assert(cs@.subrange(start as int, n as int) =~= d);
    if start == 1 {
        assert(d =~= s@.drop_first());
    } else {
        assert(d =~= s@);
    }
    if big {
        return None;
    }
    if first == '-' {
        Some((-acc) as i32)
    } else if acc > 2147483647 {
        None
    } else {
        Some(acc as i32)
    }
}

/// Relies on `String::push`, which appends one character to the end.
#[verifier::external_body]
fn push_char(s: &mut String, c: char)
    ensures
        final(s)@ == old(s)@.push(c),
{
    s.push(c)
}

/// The base-ten text of an integer, as `i32::to_string` writes it.
pub fn decimal_text(v: i32) -> (r: String)
    ensures
        r@ == int_text(v as int),
{
    let m: u32 = if v < 0 { (0i64 - v as i64) as u32 } else { v as u32 };
    let mut n: u32 = m;
    let mut tail: Vec<char> = Vec::new();
    while n >= 10
        invariant
            nat_text(m as nat) == nat_text(n as nat) + tail@,
        decreases n,
    {
        let d = n % 10;
        let c = ((d as u8) + 48u8) as char;
        assert(c == digit_char((n % 10) as nat));
        assert(nat_text(n as nat) == nat_text((n / 10) as nat).push(c));
        assert(nat_text(n as nat) + tail@ =~= nat_text((n / 10) as nat) + seq![c].add(tail@));
        let ghost prev = tail@;
        tail.insert(0, c);
        assert(tail@ =~= seq![c].add(prev));
        n = n / 10;
    }
    let mut r = String::new();
    if v < 0 {
        push_char(&mut r, '-');
    }
    let lead = ((n as u8) + 48u8) as char;
    push_char(&mut r, lead);
    let ghost head = r@;
    assert(nat_text(n as nat) == seq![lead]);
    let mut i: usize = 0;
    while i < tail.len()
        invariant
            0 <= i <= tail@.len(),
            r@ == head + tail@.take(i as int),
        decreases tail@.len() - i,
    {
        push_char(&mut r, tail[i]);
        i = i + 1;
        assert(r@ =~= head + tail@.take(i as int));
    }
    assert(tail@.take(i as int) =~= tail@);
    assert(r@ =~= int_text(v as int));
    r
}

} // verus!
