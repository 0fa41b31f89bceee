//! Reading numbers and lists out of option values.
use vstd::prelude::*;

verus! {

pub open spec fn is_digit(c: char) -> bool {
    '0' as u32 <= c as u32 && c as u32 <= '9' as u32
}

pub open spec fn digit_value(c: char) -> nat {
    (c as u32 - '0' as u32) as nat
}

/// The number that a string of decimal digits writes.
pub open spec fn decimal_value(s: Seq<char>) -> nat
    decreases s.len(),
{
    if s.len() == 0 {
        0
    } else {
        decimal_value(s.drop_last()) * 10 + digit_value(s.last())
    }
}

pub open spec fn all_digits(s: Seq<char>) -> bool {
    forall|i: int| 0 <= i < s.len() ==> is_digit(#[trigger] s[i])
}

/// The digits of an unsigned number: a leading `+` is allowed.
pub open spec fn unsigned_digits(s: Seq<char>) -> Seq<char> {
    if s.len() > 0 && s[0] == '+' {
        s.drop_first()
    } else {
        s
    }
}

/// The `usize` that `s` writes in decimal, as Rust reads one: an optional
/// `+`, then one or more digits, with a value that fits.
pub open spec fn usize_of(s: Seq<char>) -> Option<usize> {
    let d = unsigned_digits(s);
    if d.len() > 0 && all_digits(d) && decimal_value(d) <= usize::MAX {
        Some(decimal_value(d) as usize)
    } else {
        None
    }
}

proof fn lemma_prefix_value_le(d: Seq<char>, k: int)
    requires
        0 <= k <= d.len(),
    ensures
        decimal_value(d.take(k)) <= decimal_value(d),
    decreases d.len(),
{
    if k < d.len() {
        let init = d.drop_last();
        lemma_prefix_value_le(init, k);
        assert(init.take(k) =~= d.take(k));
    } else {
        assert(d.take(k) =~= d);
    }
}

/// Reads a `usize` written in decimal.
pub fn parse_usize(s: &str) -> (r: Option<usize>)
    ensures
        r == usize_of(s@),
{
    let n = s.unicode_len();
    let mut start: usize = 0;
    if n > 0 && s.get_char(0) == '+' {
        start = 1;
    }
    let ghost d = unsigned_digits(s@);
    assert(d =~= s@.subrange(start as int, n as int));
    if start >= n {
        return None;
    }
    let mut acc: usize = 0;
    let mut i: usize = start;
    while i < n
        invariant
            start <= i <= n,
            n == s@.len(),
            d == s@.subrange(start as int, n as int),
            d == unsigned_digits(s@),
            all_digits(s@.subrange(start as int, i as int)),
            acc == decimal_value(s@.subrange(start as int, i as int)),
        decreases n - i,
    {
        let c = s.get_char(i);
        let ghost done = s@.subrange(start as int, i as int + 1);
        assert(done.drop_last() =~= s@.subrange(start as int, i as int));
        assert(done.last() == c);
        assert(done =~= d.take(i - start + 1));
        if (c as u32) < ('0' as u32) || (c as u32) > ('9' as u32) {
            assert(d[i - start] == c);
            assert(!is_digit(d[i - start]));
            assert(!all_digits(d));
            return None;
        }
        let dg = (c as u32 - '0' as u32) as usize;
        let next = match acc.checked_mul(10) {
            Some(m) => m.checked_add(dg),
            None => None,
        };
        match next {
            Some(v) => {
                acc = v;
            },
            None => {
                proof {
                    if all_digits(d) {
                        lemma_prefix_value_le(d, i - start + 1);
                        assert(decimal_value(done) == acc * 10 + dg);
                        assert(decimal_value(d) > usize::MAX);
                    }
                }
                return None;
            },
        }
        i = i + 1;
        assert(all_digits(s@.subrange(start as int, i as int))) by {
            assert forall|j: int| 0 <= j < done.len() implies is_digit(#[trigger] done[j]) by {
                if j < done.len() - 1 {
                    assert(done[j] == s@.subrange(start as int, i as int - 1)[j]);
                }
            }
        }
    }
    assert(s@.subrange(start as int, n as int) =~= d);
    Some(acc)
}

/// The pieces of `s` between the occurrences of `sep`, as `str::split` gives
/// them: an empty string gives one empty piece, and a separator at either
/// end gives an empty piece there.
pub open spec fn split_on(s: Seq<char>, sep: char) -> Seq<Seq<char>>
    decreases s.len(),
{
    if s.len() == 0 {
        seq![Seq::empty()]
    } else {
        let init = split_on(s.drop_last(), sep);
        if s.last() == sep {
            init.push(Seq::empty())
        } else {
            init.update(init.len() - 1, init.last().push(s.last()))
        }
    }
}

proof fn lemma_split_nonempty(s: Seq<char>, sep: char)
    ensures
        split_on(s, sep).len() >= 1,
    decreases s.len(),
{
    if s.len() > 0 {
        lemma_split_nonempty(s.drop_last(), sep);
    }
}

pub open spec fn views(v: Seq<String>) -> Seq<Seq<char>> {
    v.map_values(|p: String| p@)
}

/// Splits `s` at every comma.
pub fn split_commas(s: &str) -> (r: Vec<String>)
    ensures
        views(r@) == split_on(s@, ','),
{
    let n = s.unicode_len();
    let mut pieces: Vec<String> = Vec::new();
    let mut from: usize = 0;
    let mut i: usize = 0;
    proof {
        assert(s@.subrange(0, 0) =~= Seq::<char>::empty());
        assert(views(pieces@).push(s@.subrange(0, 0)) =~= split_on(s@.subrange(0, 0), ','));
    }
    while i < n
        invariant
            from <= i <= n,
            n == s@.len(),
            views(pieces@).push(s@.subrange(from as int, i as int)) == split_on(
                s@.subrange(0, i as int),
                ',',
            ),
        decreases n - i,
    {
        let c = s.get_char(i);
        let ghost before = s@.subrange(0, i as int);
        let ghost after = s@.subrange(0, i as int + 1);
        assert(after.drop_last() =~= before);
        assert(after.last() == c);
        let ghost prev = pieces@;
        let ghost part = s@.subrange(from as int, i as int);
        if c == ',' {
            let piece = String::from_str(s.substring_char(from, i));
            pieces.push(piece);
            from = i + 1;
            assert(views(pieces@) =~= views(prev).push(part));
            assert(s@.subrange(from as int, i as int + 1) =~= Seq::<char>::empty());
        } else {
            assert(s@.subrange(from as int, i as int + 1) =~= part.push(c));
            assert(views(prev).push(part.push(c)) =~= views(prev).push(part).update(
                views(prev).len() as int,
                part.push(c),
            ));
        }
        i = i + 1;
    }
    let ghost prev = pieces@;
    let last = String::from_str(s.substring_char(from, n));
    pieces.push(last);
    assert(views(pieces@) =~= views(prev).push(last@));
    assert(s@.subrange(0, n as int) =~= s@);
    pieces
}

} // verus!
