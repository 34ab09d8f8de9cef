//! The memory in use, read from the text of a meminfo file: lines of
//! `Key:   <digits> kB`.
use vstd::prelude::*;

use crate::text::{chars_of, digit_value, digits_value, is_digit};

verus! {

/// The text split at each `\n`. A line ending in `\r` keeps it: neither key
/// ends in `\r` and `\r` is no digit, so that changes no line's reading.
pub open spec fn split_lines(s: Seq<char>) -> Seq<Seq<char>>
    decreases s.len(),
{
    if s.len() == 0 {
        seq![Seq::<char>::empty()]
    } else {
        let init = split_lines(s.drop_last());
        if s.last() == '\n' {
            init.push(Seq::<char>::empty())
        } else {
            init.update(init.len() - 1, init.last().push(s.last()))
        }
    }
}

/// Whether `line` begins with `key`.
pub open spec fn starts_with(line: Seq<char>, key: Seq<char>) -> bool {
    key.len() <= line.len() && line.subrange(0, key.len() as int) == key
}

/// The digit characters of a line, in the order they stand.
pub open spec fn line_digits(line: Seq<char>) -> Seq<char>
    decreases line.len(),
{
    if line.len() == 0 {
        Seq::<char>::empty()
    } else if is_digit(line.last()) {
        line_digits(line.drop_last()).push(line.last())
    } else {
        line_digits(line.drop_last())
    }
}

/// The mebibytes a keyed line gives: its digits read as kibibytes, shifted
/// right by ten bits. `None` where the line has no digit, or where they read
/// as more than an `i32` holds.
pub open spec fn line_mib(line: Seq<char>) -> Option<int> {
    let d = line_digits(line);
    if d.len() > 0 && digits_value(d) <= i32::MAX {
        Some(digits_value(d) / 1024)
    } else {
        None
    }
}

/// The key of the total memory line.
pub open spec fn total_key() -> Seq<char> {
    seq!['M', 'e', 'm', 'T', 'o', 't', 'a', 'l', ':']
}

/// The key of the available memory line.
pub open spec fn available_key() -> Seq<char> {
    seq!['M', 'e', 'm', 'A', 'v', 'a', 'i', 'l', 'a', 'b', 'l', 'e', ':']
}

/// Total and available mebibytes after one more line: a keyed line sets its
/// value, any other line leaves both as they are, and a keyed line that
/// cannot be read ends the reading with `None`.
pub open spec fn scan_step(acc: Option<(int, int)>, line: Seq<char>) -> Option<(int, int)> {
    match acc {
        None => None,
        Some((total, available)) => {
            if starts_with(line, total_key()) {
                match line_mib(line) {
                    Some(v) => Some((v, available)),
                    None => None,
                }
            } else if starts_with(line, available_key()) {
                match line_mib(line) {
                    Some(v) => Some((total, v)),
                    None => None,
                }
            } else {
                Some((total, available))
            }
        },
    }
}

/// Total and available mebibytes after reading `lines` in order, each
/// starting at zero: the last keyed line of each kind wins.
pub open spec fn scan_lines(lines: Seq<Seq<char>>) -> Option<(int, int)>
    decreases lines.len(),
{
    if lines.len() == 0 {
        Some((0, 0))
    } else {
        scan_step(scan_lines(lines.drop_last()), lines.last())
    }
}

/// The mebibytes in use that a meminfo text reports: total less available.
pub open spec fn memory_report(text: Seq<char>) -> Option<int> {
    match scan_lines(split_lines(text)) {
        Some((total, available)) => Some(total - available),
        None => None,
    }
}

/// The same text always reports the same memory in use.
pub proof fn memory_report_depends_on_text_alone(a: Seq<char>, b: Seq<char>)
    requires
        a == b,
    ensures
        memory_report(a) == memory_report(b),
{
}

/// Whether `line` begins with the characters of `key`.
fn line_starts_with(line: &Vec<char>, key: &Vec<char>) -> (r: bool)
    ensures
        r == starts_with(line@, key@),
{
    if key.len() > line.len() {
        return false;
    }
    let mut i: usize = 0;
    while i < key.len()
        invariant
            key@.len() <= line@.len(),
            i <= key@.len(),
            forall|j: int| 0 <= j < i ==> line@[j] == key@[j],
        decreases key@.len() - i,
    {
        if line[i] != key[i] {
            return false;
        }
        i = i + 1;
    }
    assert(line@.subrange(0, key@.len() as int) =~= key@);
    true
}

/// The mebibytes of a keyed line, as `line_mib` states.
fn read_line_mib(line: &Vec<char>) -> (r: Option<i32>)
    ensures
        r is None <==> line_mib(line@) is None,
        r matches Some(v) ==> line_mib(line@) == Some(v as int) && 0 <= v <= 2097151,
{
    let mut acc: i64 = 0;
    let mut big = false;
    let mut count: usize = 0;
    let mut i: usize = 0;
    while i < line.len()
        invariant
            i <= line@.len(),
            count == line_digits(line@.take(i as int)).len(),
            !big ==> acc == digits_value(line_digits(line@.take(i as int))),
            big ==> digits_value(line_digits(line@.take(i as int))) > i32::MAX,
            0 <= acc <= i32::MAX,
            count <= i,
        decreases line@.len() - i,
    {
        let c = line[i];
        let ghost pre = line@.take(i as int);
        let ghost next = line@.take(i + 1);
        assert(next.drop_last() =~= pre);
        assert(next.last() == c);
        if '0' <= c && c <= '9' {
            let v = (c as u32 - '0' as u32) as i64;
            assert(v == digit_value(c));
            assert(line_digits(next) == line_digits(pre).push(c));
            assert(line_digits(next).drop_last() =~= line_digits(pre));
            if !big {
                let t = acc * 10 + v;
                if t > 2147483647 {
                    big = true;
                } else {
                    acc = t;
                }
            }
            count = count + 1;
        }
        i = i + 1;
    }
    assert(line@.take(i as int) =~= line@);
    if count == 0 || big {
        None
    } else {
        let kib = acc as i32;
        let mib = kib >> 10u32;
        assert(mib == kib / 1024) by (bit_vector)
            requires
                kib >= 0,
                mib == kib >> 10u32,
        ;
        Some(mib)
    }
}

proof fn lemma_split_lines_nonempty(s: Seq<char>)
    ensures
        split_lines(s).len() >= 1,
    decreases s.len(),
{
    if s.len() > 0 {
        lemma_split_lines_nonempty(s.drop_last());
    }
}

/// One step of `scan_step` on machine integers.
fn apply_line(
    acc: Option<(i32, i32)>,
    line: &Vec<char>,
    total_key_chars: &Vec<char>,
    available_key_chars: &Vec<char>,
) -> (r: Option<(i32, i32)>)
    requires
        total_key_chars@ == total_key(),
        available_key_chars@ == available_key(),
        acc matches Some((t, a)) ==> 0 <= t <= 2097151 && 0 <= a <= 2097151,
    ensures
        r matches Some((t, a)) ==> 0 <= t <= 2097151 && 0 <= a <= 2097151,
        scan_step(
            match acc {
                Some((t, a)) => Some((t as int, a as int)),
                None => None,
            },
            line@,
        ) == match r {
            Some((t, a)) => Some((t as int, a as int)),
            None => None,
        },
{
    match acc {
        None => None,
        Some((total, available)) => {
            if line_starts_with(line, total_key_chars) {
                match read_line_mib(line) {
                    Some(v) => Some((v, available)),
                    None => None,
                }
            } else if line_starts_with(line, available_key_chars) {
                match read_line_mib(line) {
                    Some(v) => Some((total, v)),
                    None => None,
                }
            } else {
                Some((total, available))
            }
        },
    }
}

/// The mebibytes in use that a meminfo text reports: the digits of the last
/// `MemTotal:` line less those of the last `MemAvailable:` line, each read as
/// kibibytes and shifted right by ten bits, a missing line counting as zero.
/// `None` where a keyed line has no digit or reads as more than an `i32`.
pub fn format_memory_line(text: &str) -> (r: Option<i32>)
    ensures
        r is Some <==> memory_report(text@) is Some,
        r matches Some(v) ==> memory_report(text@) == Some(v as int),
{
    let total_key_chars = chars_of("MemTotal:");
    let available_key_chars = chars_of("MemAvailable:");
    proof {
        reveal_strlit("MemTotal:");
        reveal_strlit("MemAvailable:");
        assert(total_key_chars@ =~= total_key());
        assert(available_key_chars@ =~= available_key());
    }
    let cs = chars_of(text);
    let mut acc: Option<(i32, i32)> = Some((0, 0));
    let mut cur: Vec<char> = Vec::new();
    let mut i: usize = 0;
    assert(cs@.take(0) =~= Seq::<char>::empty());
    while i < cs.len()
        invariant
            total_key_chars@ == total_key(),
            available_key_chars@ == available_key(),
            i <= cs@.len(),
            cur@ == split_lines(cs@.take(i as int)).last(),
            scan_lines(split_lines(cs@.take(i as int)).drop_last()) == match acc {
                Some((t, a)) => Some((t as int, a as int)),
                None => None,
            },
            acc matches Some((t, a)) ==> 0 <= t <= 2097151 && 0 <= a <= 2097151,
        decreases cs@.len() - i,
    {
        let c = cs[i];
        let ghost pre = cs@.take(i as int);
        let ghost next = cs@.take(i + 1);
        let ghost lines = split_lines(pre);
        proof {
            assert(next.drop_last() =~= pre);
            lemma_split_lines_nonempty(pre);
        }
        if c == '\n' {
            acc = apply_line(acc, &cur, &total_key_chars, &available_key_chars);
            cur = Vec::new();
            assert(split_lines(next) == lines.push(Seq::<char>::empty()));
            assert(split_lines(next).drop_last() =~= lines);
        } else {
            cur.push(c);
            assert(split_lines(next) == lines.update(lines.len() - 1, lines.last().push(c)));
            assert(split_lines(next).drop_last() =~= lines.drop_last());
        }
        i = i + 1;
    }
    assert(cs@.take(i as int) =~= text@);
    proof {
        lemma_split_lines_nonempty(text@);
    }
    acc = apply_line(acc, &cur, &total_key_chars, &available_key_chars);
    match acc {
        Some((total, available)) => Some(total - available),
        None => None,
    }
}

} // verus!
