use vstd::prelude::*;

use crate::text::chars_of;

verus! {

pub open spec fn is_digit(c: char) -> bool {
    '0' <= c && c <= '9'
}

/// The number written by a sequence of decimal digits.
pub open spec fn digits_value(s: Seq<char>) -> nat
    decreases s.len(),
{
    if s.len() == 0 {
        0
    } else {
        digits_value(s.drop_last()) * 10 + (s.last() as nat - '0' as nat) as nat
    }
}

/// `s` without one leading `+`, if it has one.
pub open spec fn unsigned_digits(s: Seq<char>) -> Seq<char> {
    if s.len() > 0 && s[0] == '+' {
        s.drop_first()
    } else {
        s
    }
}

/// What `u64::from_str` accepts: an optional `+`, then one or more decimal
/// digits whose value fits in 64 bits.
pub open spec fn parse_u64_spec(s: Seq<char>) -> Option<u64> {
    let d = unsigned_digits(s);
    if d.len() > 0 && (forall|i: int| 0 <= i < d.len() ==> is_digit(#[trigger] d[i]))
        && digits_value(d) <= u64::MAX {
        Some(digits_value(d) as u64)
    } else {
        None
    }
}

/// `str::split` on one separator character: always at least one piece.
pub open spec fn split_on(s: Seq<char>, sep: char) -> Seq<Seq<char>>
    decreases s.len(),
{
    if s.len() == 0 {
        seq![Seq::empty()]
    } else {
        let rest = split_on(s.drop_last(), sep);
        if s.last() == sep {
            rest.push(Seq::empty())
        } else {
            rest.update(rest.len() - 1, rest.last().push(s.last()))
        }
    }
}

/// The pieces that parse as numbers, in order; the others are skipped.
pub open spec fn parsed_parts(parts: Seq<Seq<char>>) -> Seq<u64>
    decreases parts.len(),
{
    if parts.len() == 0 {
        Seq::empty()
    } else {
        let r = parsed_parts(parts.drop_last());
        match parse_u64_spec(parts.last()) {
            Some(v) => r.push(v),
            None => r,
        }
    }
}

/// The numeric components of a dotted version string.
pub open spec fn version_parts(s: Seq<char>) -> Seq<u64> {
    parsed_parts(split_on(s, '.'))
}

/// Component `i`, or 0 where the version has fewer components.
pub open spec fn part_or_zero(p: Seq<u64>, i: int) -> u64 {
    if 0 <= i < p.len() {
        p[i]
    } else {
        0
    }
}

/// `a` is newer than `b`: major, then minor, then patch, first difference decides.
pub open spec fn version_gt_spec(a: Seq<char>, b: Seq<char>) -> bool {
    let pa = version_parts(a);
    let pb = version_parts(b);
    if part_or_zero(pa, 0) != part_or_zero(pb, 0) {
        part_or_zero(pa, 0) > part_or_zero(pb, 0)
    } else if part_or_zero(pa, 1) != part_or_zero(pb, 1) {
        part_or_zero(pa, 1) > part_or_zero(pb, 1)
    } else {
        part_or_zero(pa, 2) > part_or_zero(pb, 2)
    }
}

proof fn lemma_digits_value_grows(s: Seq<char>)
    requires
        s.len() > 0,
    ensures
        digits_value(s) >= digits_value(s.drop_last()),
{
}

/// Parses one piece of a version string as `u64::from_str` would.
pub fn parse_u64(s: &Vec<char>) -> (r: Option<u64>)
    ensures
        r == parse_u64_spec(s@),
{
    let n = s.len();
    let start: usize = if n > 0 && s[0] == '+' { 1 } else { 0 };
    let ghost d = unsigned_digits(s@);
    assert(d =~= s@.subrange(start as int, n as int));
    if start == n {
        return None;
    }
    let mut value: u64 = 0;
    let mut overflow = false;
    let mut i: usize = start;
    while i < n
        invariant
            start <= i <= n,
            n == s@.len(),
            d == unsigned_digits(s@),
            d =~= s@.subrange(start as int, n as int),
            forall|j: int| start <= j < i ==> is_digit(#[trigger] s@[j]),
            !overflow ==> value as nat == digits_value(s@.subrange(start as int, i as int)),
            overflow ==> digits_value(s@.subrange(start as int, i as int)) > u64::MAX,
        decreases n - i,
    {
        let c = s[i];
        if !('0' <= c && c <= '9') {
            assert(d[i - start] == s@[i as int]);
            assert(!is_digit(d[i - start]));
            return None;
        }
        let digit = (c as u32 - '0' as u32) as u64;
        let ghost prev = s@.subrange(start as int, i as int);
        let ghost next = s@.subrange(start as int, i + 1);
        assert(next.drop_last() =~= prev);
        assert(digits_value(next) == digits_value(prev) * 10 + digit);
        if !overflow {
            if value > (u64::MAX - digit) / 10 {
                overflow = true;
                assert(digits_value(next) > u64::MAX) by (nonlinear_arith)
                    requires
                        value > (u64::MAX - digit) / 10,
                        digits_value(next) == value * 10 + digit,
                        digit <= 9,
                ;
            } else {
                assert(value * 10 + digit <= u64::MAX) by (nonlinear_arith)
                    requires
                        value <= (u64::MAX - digit) / 10,
                        digit <= 9,
                ;
                value = value * 10 + digit;
            }
        } else {
            proof {
                lemma_digits_value_grows(next);
            }
        }
        i = i + 1;
    }
    assert(s@.subrange(start as int, n as int) =~= d);
    if overflow {
        None
    } else {
        Some(value)
    }
}

/// Splits `s` at every `sep`, keeping empty pieces.
pub fn split_chars(s: &Vec<char>, sep: char) -> (r: Vec<Vec<char>>)
    ensures
        r.deep_view() == split_on(s@, sep),
{
    let mut done: Vec<Vec<char>> = Vec::new();
    let mut cur: Vec<char> = Vec::new();
    let mut i: usize = 0;
    while i < s.len()
        invariant
            i <= s@.len(),
            split_on(s@.subrange(0, i as int), sep) == done.deep_view().push(cur@),
        decreases s@.len() - i,
    {
        let c = s[i];
        let ghost pre = s@.subrange(0, i as int);
        let ghost old_cur = cur@;
        assert(s@.subrange(0, i + 1).drop_last() =~= pre);
        assert(s@.subrange(0, i + 1).last() == c);
        if c == sep {
            let piece = cur;
            assert(piece.deep_view() =~= old_cur);
            done.push(piece);
            cur = Vec::new();
            assert(split_on(s@.subrange(0, i + 1), sep) =~= done.deep_view().push(cur@));
        } else {
            cur.push(c);
            let ghost rest = done.deep_view().push(old_cur);
            assert(split_on(s@.subrange(0, i + 1), sep) == rest.update(
                rest.len() - 1,
                rest.last().push(c),
            ));
            assert(cur@ == old_cur.push(c));
            assert(split_on(s@.subrange(0, i + 1), sep) =~= done.deep_view().push(cur@));
        }
        i = i + 1;
    }
    assert(s@.subrange(0, s@.len() as int) =~= s@);
    let ghost before = done.deep_view();
    assert(cur.deep_view() =~= cur@);
    done.push(cur);
    assert(done.deep_view() =~= before.push(cur@));
    done
}

/// The numeric components of a dotted version string.
pub fn version_numbers(s: &str) -> (r: Vec<u64>)
    ensures
        r@ == version_parts(s@),
{
    let cs = chars_of(s);
    let pieces = split_chars(&cs, '.');
    let mut out: Vec<u64> = Vec::new();
    let mut i: usize = 0;
    while i < pieces.len()
        invariant
            i <= pieces@.len(),
            pieces.deep_view() == split_on(s@, '.'),
            out@ == parsed_parts(pieces.deep_view().subrange(0, i as int)),
        decreases pieces@.len() - i,
    {
        let ghost pre = pieces.deep_view().subrange(0, i as int);
        assert(pieces.deep_view().subrange(0, i + 1).drop_last() =~= pre);
        assert(pieces.deep_view()[i as int] == pieces@[i as int]@);
        match parse_u64(&pieces[i]) {
            Some(v) => out.push(v),
            None => {},
        }
        i = i + 1;
    }
    assert(pieces.deep_view().subrange(0, pieces@.len() as int) =~= pieces.deep_view());
    out
}

fn part_or_zero_exec(p: &Vec<u64>, i: usize) -> (r: u64)
    ensures
        r == part_or_zero(p@, i as int),
{
    if i < p.len() {
        p[i]
    } else {
        0
    }
}

/// Whether version `a` is newer than version `b`.
pub fn version_gt(a: &str, b: &str) -> (r: bool)
    ensures
        r == version_gt_spec(a@, b@),
{
    let va = version_numbers(a);
    let vb = version_numbers(b);
    let mut i: usize = 0;
    while i < 3
        invariant
            i <= 3,
            va@ == version_parts(a@),
            vb@ == version_parts(b@),
            forall|j: int| 0 <= j < i ==> part_or_zero(va@, j) == part_or_zero(vb@, j),
        decreases 3 - i,
    {
        let a_part = part_or_zero_exec(&va, i);
        let b_part = part_or_zero_exec(&vb, i);
        if a_part > b_part {
            return true;
        }
        if a_part < b_part {
            return false;
        }
        i = i + 1;
    }
    false
}

} // verus!
