//! Decimal rendering of integers, with and without thousands separators.

use vstd::prelude::*;

verus! {

/// The ASCII digit for `d` (`0 <= d < 10`).
pub open spec fn digit_char(d: nat) -> char {
    (48 + d) as char
}

/// The decimal digits of a natural number, most significant first, with no
/// leading zeros (`0` is `"0"`).
pub open spec fn decimal_digits(m: nat) -> Seq<char>
    decreases m,
{
    if m < 10 {
        seq![digit_char(m)]
    } else {
        decimal_digits(m / 10).push(digit_char(m % 10))
    }
}

/// What `n.to_string()` gives for an integer: a `-` for negative numbers,
/// then the decimal digits of its magnitude.
pub open spec fn decimal(n: int) -> Seq<char> {
    if n < 0 {
        seq!['-'] + decimal_digits((-n) as nat)
    } else {
        decimal_digits(n as nat)
    }
}

/// Inserts `,` between groups of three characters, counted from the right.
pub open spec fn group_by_three(d: Seq<char>) -> Seq<char>
    decreases d.len(),
{
    if d.len() <= 3 {
        d
    } else {
        group_by_three(d.take(d.len() - 3)) + seq![','] + d.skip(d.len() - 3)
    }
}

/// A number with thousands separators: its sign, when negative, then the
/// digits of its magnitude with `,` between groups of three counted from
/// the right (`-1234` is `"-1,234"`, `-123` is `"-123"`).
pub open spec fn grouped_decimal(n: int) -> Seq<char> {
    if n < 0 {
        seq!['-'] + group_by_three(decimal_digits((-n) as nat))
    } else {
        group_by_three(decimal_digits(n as nat))
    }
}

/// `g` is made of comma-separated groups of digits: the first holds one to
/// three characters and every later one exactly three.
pub open spec fn groups_of_three(g: Seq<char>) -> bool {
    &&& g.len() > 0
    &&& g[0] != ','
    &&& g.len() > 3 ==> (g[1] == ',' || g[2] == ',' || g[3] == ',')
    &&& forall|i: int|
        0 <= i < g.len() && #[trigger] g[i] == ',' ==> {
            &&& i + 3 < g.len()
            &&& g[i + 1] != ','
            &&& g[i + 2] != ','
            &&& g[i + 3] != ','
            &&& (i + 4 == g.len() || g[i + 4] == ',')
        }
}

/// `s` with every `,` removed.
pub open spec fn strip_commas(s: Seq<char>) -> Seq<char>
    decreases s.len(),
{
    if s.len() == 0 {
        s
    } else if s.last() == ',' {
        strip_commas(s.drop_last())
    } else {
        strip_commas(s.drop_last()).push(s.last())
    }
}

fn digit(d: u64) -> (c: char)
    requires
        d < 10,
    ensures
        c == digit_char(d as nat),
{
    let b: u8 = d as u8 + 48;
    b as char
}

fn push_digits(out: &mut Vec<char>, m: u64)
    ensures
        final(out)@ == old(out)@ + decimal_digits(m as nat),
    decreases m,
{
    if m >= 10 {
        push_digits(out, m / 10);
    }
    out.push(digit(m % 10));
    assert(out@ =~= old(out)@ + decimal_digits(m as nat));
}

/// The decimal representation of `n`, as `n.to_string()` writes it.
pub fn decimal_chars(n: i64) -> (r: Vec<char>)
    ensures
        r@ == decimal(n as int),
{
    let mut r: Vec<char> = Vec::new();
    if n < 0 {
        r.push('-');
        let wide: i128 = n as i128;
        let magnitude: u64 = (-wide) as u64;
        push_digits(&mut r, magnitude);
    } else {
        push_digits(&mut r, n as u64);
    }
    assert(r@ =~= decimal(n as int));
    r
}

fn push_grouped(out: &mut Vec<char>, d: &Vec<char>, n: usize)
    requires
        n <= d@.len(),
    ensures
        final(out)@ == old(out)@ + group_by_three(d@.take(n as int)),
    decreases n,
{
    let ghost t = d@.take(n as int);
    if n <= 3 {
        let mut i: usize = 0;
        while i < n
            invariant
                n <= 3,
                n <= d@.len(),
                i <= n,
                out@ == old(out)@ + d@.take(i as int),
            decreases n - i,
        {
            out.push(d[i]);
            assert(d@.take(i + 1) =~= d@.take(i as int).push(d@[i as int]));
            i = i + 1;
        }
        assert(d@.take(n as int) =~= t);
    } else {
        push_grouped(out, d, n - 3);
        out.push(',');
        out.push(d[n - 3]);
        out.push(d[n - 2]);
        out.push(d[n - 1]);
        assert(t.take(t.len() - 3) =~= d@.take(n - 3));
        assert(t.skip(t.len() - 3) =~= seq![d@[n - 3], d@[n - 2], d@[n - 1]]);
        assert(out@ =~= old(out)@ + group_by_three(t));
    }
}

/// The digits of `n` with thousands separators, behind a `-` when `n` is
/// negative.
pub fn grouped_decimal_chars(n: i64) -> (r: Vec<char>)
    ensures
        r@ == grouped_decimal(n as int),
{
    let mut digits: Vec<char> = Vec::new();
    let mut r: Vec<char> = Vec::new();
    if n < 0 {
        r.push('-');
        let wide: i128 = n as i128;
        let magnitude: u64 = (-wide) as u64;
        push_digits(&mut digits, magnitude);
    } else {
        push_digits(&mut digits, n as u64);
    }
    assert(digits@ =~= decimal_digits((if n < 0 { -n } else { n as int }) as nat));
    push_grouped(&mut r, &digits, digits.len());
    assert(digits@.take(digits@.len() as int) =~= digits@);
    assert(r@ =~= grouped_decimal(n as int));
    r
}

proof fn lemma_strip_commas_append(a: Seq<char>, b: Seq<char>)
    ensures
        strip_commas(a + b) == strip_commas(a) + strip_commas(b),
    decreases b.len(),
{
    if b.len() == 0 {
        assert(a + b =~= a);
        assert(strip_commas(a) + strip_commas(b) =~= strip_commas(a));
    } else {
        assert((a + b).drop_last() =~= a + b.drop_last());
        lemma_strip_commas_append(a, b.drop_last());
        if b.last() == ',' {
        } else {
            assert(strip_commas(a + b) =~= strip_commas(a) + strip_commas(b));
        }
    }
}

proof fn lemma_strip_commas_none(s: Seq<char>)
    requires
        forall|i: int| 0 <= i < s.len() ==> s[i] != ',',
    ensures
        strip_commas(s) == s,
    decreases s.len(),
{
    if s.len() > 0 {
        lemma_strip_commas_none(s.drop_last());
        assert(s.drop_last().push(s.last()) =~= s);
    }
}

proof fn lemma_group_strip(d: Seq<char>)
    requires
        forall|i: int| 0 <= i < d.len() ==> d[i] != ',',
    ensures
        strip_commas(group_by_three(d)) == d,
    decreases d.len(),
{
    if d.len() <= 3 {
        lemma_strip_commas_none(d);
    } else {
        let head = d.take(d.len() - 3);
        let tail = d.skip(d.len() - 3);
        lemma_group_strip(head);
        lemma_strip_commas_append(group_by_three(head) + seq![','], tail);
        lemma_strip_commas_append(group_by_three(head), seq![',']);
        assert(strip_commas(seq![',']) =~= Seq::<char>::empty()) by {
            assert(seq![','].drop_last() =~= Seq::<char>::empty());
            assert(strip_commas(Seq::<char>::empty()) =~= Seq::<char>::empty());
        }
        lemma_strip_commas_none(tail);
        assert(head + tail =~= d);
        assert(strip_commas(group_by_three(head)) + Seq::<char>::empty() =~= head);
    }
}

proof fn lemma_decimal_digits_no_comma(m: nat)
    ensures
        forall|i: int|
            0 <= i < decimal_digits(m).len() ==> (#[trigger] decimal_digits(m)[i]) != ',',
    decreases m,
{
    if m >= 10 {
        lemma_decimal_digits_no_comma(m / 10);
        let p = decimal_digits(m / 10);
        assert forall|i: int| 0 <= i < decimal_digits(m).len() implies (#[trigger] decimal_digits(
            m,
        )[i]) != ',' by {
            if i < p.len() {
                assert(decimal_digits(m)[i] == p[i]);
            }
        }
    }
}

/// A decimal representation never holds a `,`.
pub proof fn lemma_decimal_no_comma(n: int)
    ensures
        forall|i: int| 0 <= i < decimal(n).len() ==> (#[trigger] decimal(n)[i]) != ',',
{
    if n < 0 {
        let m = (-n) as nat;
        lemma_decimal_digits_no_comma(m);
        assert forall|i: int| 0 <= i < decimal(n).len() implies (#[trigger] decimal(n)[i]) != ','
            by {
            if i > 0 {
                assert(decimal(n)[i] == decimal_digits(m)[i - 1]);
            }
        }
    } else {
        lemma_decimal_digits_no_comma(n as nat);
    }
}

/// Thousands separators only separate: removing the commas from a number
/// with separators gives back its plain decimal representation.
pub proof fn lemma_grouping_keeps_digits(n: int)
    ensures
        strip_commas(grouped_decimal(n)) == decimal(n),
{
    let m = if n < 0 {
        (-n) as nat
    } else {
        n as nat
    };
    lemma_decimal_digits_no_comma(m);
    lemma_group_strip(decimal_digits(m));
    if n < 0 {
        lemma_strip_commas_append(seq!['-'], group_by_three(decimal_digits(m)));
        assert(strip_commas(seq!['-']) =~= seq!['-']) by {
            assert(seq!['-'].drop_last() =~= Seq::<char>::empty());
            assert(strip_commas(Seq::<char>::empty()) =~= Seq::<char>::empty());
        }
    }
}

proof fn lemma_decimal_digits_nonempty(m: nat)
    ensures
        decimal_digits(m).len() > 0,
    decreases m,
{
    if m >= 10 {
        lemma_decimal_digits_nonempty(m / 10);
    }
}

proof fn lemma_group_structure(d: Seq<char>)
    requires
        d.len() > 0,
        forall|i: int| 0 <= i < d.len() ==> d[i] != ',',
    ensures
        groups_of_three(group_by_three(d)),
    decreases d.len(),
{
    if d.len() > 3 {
        let head = d.take(d.len() - 3);
        let tail = d.skip(d.len() - 3);
        lemma_group_structure(head);
        let h = group_by_three(head);
        let g = group_by_three(d);
        assert(g == h + seq![','] + tail);
        assert(g.len() == h.len() + 4);
        assert forall|i: int| 0 <= i < g.len() && #[trigger] g[i] == ',' implies {
            &&& i + 3 < g.len()
            &&& g[i + 1] != ','
            &&& g[i + 2] != ','
            &&& g[i + 3] != ','
            &&& (i + 4 == g.len() || g[i + 4] == ',')
        } by {
            if i < h.len() {
                assert(g[i] == h[i]);
                assert(h[i] == ',');
                if i + 1 < h.len() {
                    assert(g[i + 1] == h[i + 1]);
                }
                if i + 2 < h.len() {
                    assert(g[i + 2] == h[i + 2]);
                }
                if i + 3 < h.len() {
                    assert(g[i + 3] == h[i + 3]);
                }
                if i + 4 < h.len() {
                    assert(g[i + 4] == h[i + 4]);
                }
            } else if i == h.len() {
                assert(g[i + 1] == tail[0]);
                assert(g[i + 2] == tail[1]);
                assert(g[i + 3] == tail[2]);
                assert(tail[0] == d[d.len() - 3]);
                assert(tail[1] == d[d.len() - 2]);
                assert(tail[2] == d[d.len() - 1]);
            } else {
                assert(g[i] == tail[i - h.len() - 1]);
                assert(tail[i - h.len() - 1] == d[d.len() - 3 + (i - h.len() - 1)]);
            }
        }
        assert(g[0] == h[0]);
        if h.len() > 3 {
            assert(g[1] == h[1]);
            assert(g[2] == h[2]);
            assert(g[3] == h[3]);
        } else {
            assert(g[h.len() as int] == ',');
        }
    } else {
        let g = group_by_three(d);
        assert(g == d);
    }
}

/// Thousands separators split the digits into groups of three from the
/// right: the leading group holds one to three digits, every later group
/// exactly three.
pub proof fn lemma_groups_of_three(n: int)
    ensures
        groups_of_three(
            group_by_three(
                decimal_digits(
                    if n < 0 {
                        (-n) as nat
                    } else {
                        n as nat
                    },
                ),
            ),
        ),
{
    let m = if n < 0 {
        (-n) as nat
    } else {
        n as nat
    };
    lemma_decimal_digits_nonempty(m);
    lemma_decimal_digits_no_comma(m);
    lemma_group_structure(decimal_digits(m));
}

} // verus!
