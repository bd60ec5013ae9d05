//! Decimal integers as `str::parse` reads them for `u16` and `i32`: an
//! optional sign, then one or more ASCII digits, within the type's range.

use vstd::prelude::*;

verus! {

pub open spec fn is_digit(c: char) -> bool {
    '0' <= c && c <= '9'
}

pub open spec fn all_digits(s: Seq<char>) -> bool {
    s.len() > 0 && forall|i: int| 0 <= i < s.len() ==> is_digit(#[trigger] s[i])
}

/// Value of a run of decimal digits.
pub open spec fn digits_value(s: Seq<char>) -> int
    decreases s.len(),
{
    if s.len() == 0 {
        0
    } else {
        digits_value(s.drop_last()) * 10 + (s.last() as int - '0' as int)
    }
}

/// The unsigned number that `s` spells, if it spells one: `+` may lead.
pub open spec fn nat_of(s: Seq<char>) -> Option<int> {
    if s.len() > 0 && s[0] == '+' {
        if all_digits(s.subrange(1, s.len() as int)) {
            Some(digits_value(s.subrange(1, s.len() as int)))
        } else {
            None
        }
    } else if all_digits(s) {
        Some(digits_value(s))
    } else {
        None
    }
}

/// The signed number that `s` spells, if it spells one.
pub open spec fn int_of(s: Seq<char>) -> Option<int> {
    if s.len() > 0 && s[0] == '-' {
        if all_digits(s.subrange(1, s.len() as int)) {
            Some(-digits_value(s.subrange(1, s.len() as int)))
        } else {
            None
        }
    } else {
        nat_of(s)
    }
}

/// What `s.parse::<u16>()` gives.
pub open spec fn u16_of(s: Seq<char>) -> Option<u16> {
    match nat_of(s) {
        Some(v) => if v <= u16::MAX {
            Some(v as u16)
        } else {
            None
        },
        None => None,
    }
}

/// What `s.parse::<i32>()` gives.
pub open spec fn i32_of(s: Seq<char>) -> Option<i32> {
    match int_of(s) {
        Some(v) => if i32::MIN <= v <= i32::MAX {
            Some(v as i32)
        } else {
            None
        },
        None => None,
    }
}

proof fn lemma_digits_value_grows(s: Seq<char>, k: int)
    requires
        0 <= k <= s.len(),
        forall|i: int| 0 <= i < s.len() ==> is_digit(#[trigger] s[i]),
    ensures
        0 <= digits_value(s.subrange(0, k)) <= digits_value(s),
    decreases s.len(),
{
    if s.len() > 0 {
        let t = s.drop_last();
        if k < s.len() {
            assert(s.subrange(0, k) =~= t.subrange(0, k));
            lemma_digits_value_grows(t, k);
        } else {
            assert(s.subrange(0, k) =~= s);
            lemma_digits_value_grows(t, t.len() as int);
            assert(t.subrange(0, t.len() as int) =~= t);
        }
    }
}

/// Value of the digits `v[from..to]` when they are all digits and the value
/// is at most `cap`.
fn digits_up_to(v: &Vec<char>, from: usize, to: usize, cap: u64) -> (r: Option<u64>)
    requires
        from <= to <= v@.len(),
        cap >= 9,
    ensures
        match r {
            Some(n) => all_digits(v@.subrange(from as int, to as int)) && n as int == digits_value(
                v@.subrange(from as int, to as int),
            ) && n <= cap,
            None => !(all_digits(v@.subrange(from as int, to as int)) && digits_value(
                v@.subrange(from as int, to as int),
            ) <= cap),
        },
{
    let ghost s = v@.subrange(from as int, to as int);
    if from == to {
        return None;
    }
    let mut acc: u64 = 0;
    let mut i: usize = from;
    while i < to
        invariant
            from <= i <= to <= v@.len(),
            s == v@.subrange(from as int, to as int),
            cap >= 9,
            acc <= cap,
            acc == digits_value(s.subrange(0, i - from)),
            forall|j: int| 0 <= j < i - from ==> is_digit(#[trigger] s[j]),
        decreases to - i,
    {
        let c = v[i];
        if !('0' <= c && c <= '9') {
            assert(s[i - from] == c);
            return None;
        }
        let d = (c as u32 - '0' as u32) as u64;
        let ghost p = s.subrange(0, i + 1 - from);
        assert(p.drop_last() =~= s.subrange(0, i - from));
        assert(digits_value(p) == acc * 10 + d);
        let room = (cap - d) / 10;
        if acc > room {
            assert(acc * 10 + d > cap) by (nonlinear_arith)
                requires
                    acc > room,
                    room == (cap - d) / 10,
                    d <= 9,
                    d <= cap,
            ;
            proof {
                if all_digits(s) {
                    lemma_digits_value_grows(s, i + 1 - from);
                }
            }
            return None;
        }
        assert(acc * 10 + d <= cap) by (nonlinear_arith)
            requires
                acc <= room,
                room == (cap - d) / 10,
                d <= cap,
        ;
        acc = acc * 10 + d;
        i = i + 1;
    }
    assert(s.subrange(0, to - from) =~= s);
    Some(acc)
}

/// Parses `v[from..to]` as `u16` does.
pub fn parse_u16(v: &Vec<char>, from: usize, to: usize) -> (r: Option<u16>)
    requires
        from <= to <= v@.len(),
    ensures
        r == u16_of(v@.subrange(from as int, to as int)),
{
    let ghost s = v@.subrange(from as int, to as int);
    let mut start = from;
    if from < to && v[from] == '+' {
        start = from + 1;
        assert(s.subrange(1, s.len() as int) =~= v@.subrange(start as int, to as int));
    }
    match digits_up_to(v, start, to, 65535) {
        Some(n) => Some(n as u16),
        None => None,
    }
}

/// What `s.parse::<usize>()` gives.
pub open spec fn usize_of(s: Seq<char>) -> Option<usize> {
    match nat_of(s) {
        Some(v) => if v <= usize::MAX {
            Some(v as usize)
        } else {
            None
        },
        None => None,
    }
}

/// Parses `v[from..to]` as `usize` does.
pub fn parse_usize(v: &Vec<char>, from: usize, to: usize) -> (r: Option<usize>)
    requires
        from <= to <= v@.len(),
    ensures
        r == usize_of(v@.subrange(from as int, to as int)),
{
    let ghost s = v@.subrange(from as int, to as int);
    let mut start = from;
    if from < to && v[from] == '+' {
        start = from + 1;
        assert(s.subrange(1, s.len() as int) =~= v@.subrange(start as int, to as int));
    }
    match digits_up_to(v, start, to, usize::MAX as u64) {
        Some(n) => Some(n as usize),
        None => None,
    }
}

/// Parses `v[from..to]` as `i32` does.
pub fn parse_i32(v: &Vec<char>, from: usize, to: usize) -> (r: Option<i32>)
    requires
        from <= to <= v@.len(),
    ensures
        r == i32_of(v@.subrange(from as int, to as int)),
{
    let ghost s = v@.subrange(from as int, to as int);
    if from < to && v[from] == '-' {
        assert(s.subrange(1, s.len() as int) =~= v@.subrange(from + 1, to as int));
        match digits_up_to(v, from + 1, to, 2147483648) {
            Some(n) => {
                let m = n as i64;
                Some((0 - m) as i32)
            },
            None => None,
        }
    } else {
        let mut start = from;
        if from < to && v[from] == '+' {
            start = from + 1;
            assert(s.subrange(1, s.len() as int) =~= v@.subrange(start as int, to as int));
        }
        match digits_up_to(v, start, to, 2147483647) {
            Some(n) => Some(n as i32),
            None => None,
        }
    }
}

} // verus!
